use pomodoro_rs::countdown::{countdown_trace, Countdown};

#[test]
fn trace_counts_down_to_zero() {
    let ticks = countdown_trace(5);
    assert_eq!(ticks, vec![4, 3, 2, 1, 0]);
}

#[test]
fn one_minute_runs_sixty_ticks() {
    let ticks = countdown_trace(60);
    assert_eq!(ticks.len(), 60);
    assert_eq!(ticks[0], 59);
    assert_eq!(*ticks.last().unwrap(), 0);
    for (k, shown) in ticks.iter().enumerate() {
        assert_eq!(*shown as usize, 60 - (k + 1));
    }
}

#[test]
fn zero_duration_returns_at_once() {
    let ticks = countdown_trace(0);
    assert!(ticks.is_empty());
}

#[test]
fn countdown_state_steps_by_one() {
    let mut c = Countdown::new(3);
    assert!(!c.is_finished());
    assert_eq!(c.tick(), 2);
    assert_eq!(c.tick(), 1);
    assert_eq!(c.tick(), 0);
    assert!(c.is_finished());
    assert_eq!(c.duration_seconds, 3);
    assert_eq!(c.remaining_seconds, 0);
}
