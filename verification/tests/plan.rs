use pomodoro_rs::interval::IntervalKind;
use pomodoro_rs::schedule::{schedule_intervals, Schedule};

fn schedule(sessions: u32, work: u64, short: u64, long: u64, task: &str) -> Schedule {
    Schedule {
        session_count: sessions,
        work_minutes: work,
        short_break_minutes: short,
        long_break_minutes: long,
        task_label: task.to_string(),
    }
}

#[test]
fn two_session_schedule_sequence() {
    let plan = schedule_intervals(&schedule(2, 25, 5, 15, "write spec"));
    assert_eq!(plan.len(), 4);

    assert_eq!(plan[0].kind, IntervalKind::Work);
    assert_eq!(plan[0].duration_seconds, 25 * 60);
    assert_eq!(plan[0].label, "write spec");

    assert_eq!(plan[1].kind, IntervalKind::ShortBreak);
    assert_eq!(plan[1].duration_seconds, 5 * 60);
    assert_eq!(plan[1].label, "Time to relax");

    assert_eq!(plan[2].kind, IntervalKind::Work);
    assert_eq!(plan[2].duration_seconds, 25 * 60);
    assert_eq!(plan[2].label, "write spec");

    assert_eq!(plan[3].kind, IntervalKind::LongBreak);
    assert_eq!(plan[3].duration_seconds, 15 * 60);
    assert_eq!(plan[3].label, "Time to relax");
}

#[test]
fn four_session_schedule_counts() {
    let plan = schedule_intervals(&schedule(4, 25, 5, 15, "deep work"));
    assert_eq!(plan.len(), 8);
    let work = plan.iter().filter(|iv| iv.kind == IntervalKind::Work).count();
    let short = plan.iter().filter(|iv| iv.kind == IntervalKind::ShortBreak).count();
    let long = plan.iter().filter(|iv| iv.kind == IntervalKind::LongBreak).count();
    assert_eq!(work, 4);
    assert_eq!(short, 3);
    assert_eq!(long, 1);
    assert_eq!(plan.last().unwrap().kind, IntervalKind::LongBreak);
}

#[test]
fn single_session_schedule_has_no_short_break() {
    let plan = schedule_intervals(&schedule(1, 25, 5, 15, "solo"));
    assert_eq!(plan.len(), 2);
    assert_eq!(plan[0].kind, IntervalKind::Work);
    assert_eq!(plan[1].kind, IntervalKind::LongBreak);
    assert!(plan.iter().all(|iv| iv.kind != IntervalKind::ShortBreak));
}

#[test]
fn work_intervals_alternate_with_breaks() {
    let plan = schedule_intervals(&schedule(3, 50, 10, 30, "alternating"));
    assert_eq!(plan.len(), 6);
    for (i, iv) in plan.iter().enumerate() {
        if i % 2 == 0 {
            assert_eq!(iv.kind, IntervalKind::Work);
        } else {
            assert_ne!(iv.kind, IntervalKind::Work);
        }
    }
}
