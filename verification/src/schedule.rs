use vstd::prelude::*;
use vstd::string::StringExecFns;
use crate::interval::{break_label, Interval, IntervalKind};
use crate::render::{break_body, break_body_spec, work_body, work_body_spec};

verus! {

/// Default lengths of the interactive cycle and of the `schedule` command.
pub const DEFAULT_WORK_MINUTES: u64 = 25;

pub const DEFAULT_SHORT_BREAK_MINUTES: u64 = 5;

pub const DEFAULT_LONG_BREAK_MINUTES: u64 = 15;

pub const DEFAULT_SESSION_COUNT: u32 = 4;

/// The ordered plan of a multi-session run: how many work sessions to hold,
/// the three interval lengths in minutes, and the task description.
pub struct Schedule {
    pub session_count: u32,
    pub work_minutes: u64,
    pub short_break_minutes: u64,
    pub long_break_minutes: u64,
    pub task_label: String,
}

impl Schedule {
    /// A schedule holds at least one session and positive durations small
    /// enough that their second counts fit in a `u64`.
    pub open spec fn wf(self) -> bool {
        &&& self.session_count >= 1
        &&& 1 <= self.work_minutes <= u64::MAX / 60
        &&& 1 <= self.short_break_minutes <= u64::MAX / 60
        &&& 1 <= self.long_break_minutes <= u64::MAX / 60
    }

    /// The kind of the interval at position `i` of this schedule's plan:
    /// work at even positions, a break after each work interval, and the
    /// long break in place of the final short break.  That the last session
    /// always gets the long break is the defining policy of the scheduler.
    pub open spec fn plan_kind(self, i: int) -> IntervalKind {
        if i % 2 == 0 {
            IntervalKind::Work
        } else if i == 2 * self.session_count - 1 {
            IntervalKind::LongBreak
        } else {
            IntervalKind::ShortBreak
        }
    }

    /// The length in seconds of the interval at position `i` of the plan.
    pub open spec fn plan_duration(self, i: int) -> int {
        if i % 2 == 0 {
            60 * self.work_minutes as int
        } else if i == 2 * self.session_count - 1 {
            60 * self.long_break_minutes as int
        } else {
            60 * self.short_break_minutes as int
        }
    }

    /// The label shown beside the interval at position `i` of the plan.
    pub open spec fn plan_label(self, i: int) -> Seq<char> {
        if i % 2 == 0 {
            self.task_label@
        } else {
            break_label()
        }
    }
}

/// `plan` is exactly the interval sequence of `s`: for each session a work
/// interval then a short break, with the one long break in place of the
/// final short break.
pub open spec fn is_session_plan(plan: Seq<Interval>, s: Schedule) -> bool {
    &&& plan.len() == 2 * s.session_count
    &&& forall|i: int|
        0 <= i < plan.len() ==> {
            &&& (#[trigger] plan[i]).kind == s.plan_kind(i)
            &&& plan[i].duration_seconds == s.plan_duration(i)
            &&& plan[i].label@ == s.plan_label(i)
        }
}

/// Builds the full interval sequence of a schedule, in running order.
pub fn schedule_intervals(s: &Schedule) -> (plan: Vec<Interval>)
    requires
        s.wf(),
    ensures
        is_session_plan(plan@, *s),
{
    let n = s.session_count as usize;
    let mut plan: Vec<Interval> = Vec::new();
    let mut j: usize = 0;
    while j < n
        invariant
            s.wf(),
            n == s.session_count,
            j <= n,
            plan@.len() == 2 * j,
            forall|i: int|
                0 <= i < plan@.len() ==> {
                    &&& (#[trigger] plan@[i]).kind == s.plan_kind(i)
                    &&& plan@[i].duration_seconds == s.plan_duration(i)
                    &&& plan@[i].label@ == s.plan_label(i)
                },
        decreases n - j,
    {
        plan.push(
            Interval {
                kind: IntervalKind::Work,
                duration_seconds: 60 * s.work_minutes,
                label: s.task_label.clone(),
            },
        );
        if j + 1 < n {
            plan.push(
                Interval {
                    kind: IntervalKind::ShortBreak,
                    duration_seconds: 60 * s.short_break_minutes,
                    label: String::from_str("Time to relax"),
                },
            );
        } else {
            plan.push(
                Interval {
                    kind: IntervalKind::LongBreak,
                    duration_seconds: 60 * s.long_break_minutes,
                    label: String::from_str("Time to relax"),
                },
            );
        }
        j = j + 1;
    }
    plan
}

/// How many intervals of kind `k` the sequence holds.
pub open spec fn count_kind(plan: Seq<Interval>, k: IntervalKind) -> int
    decreases plan.len(),
{
    if plan.len() == 0 {
        0
    } else {
        count_kind(plan.drop_last(), k) + (if plan.last().kind == k {
            1int
        } else {
            0int
        })
    }
}

proof fn lemma_count_push(plan: Seq<Interval>, iv: Interval)
    ensures
        forall|k: IntervalKind| #[trigger]
            count_kind(plan.push(iv), k) == count_kind(plan, k) + (if iv.kind == k {
                1int
            } else {
                0int
            }),
{
    assert forall|k: IntervalKind| #[trigger]
        count_kind(plan.push(iv), k) == count_kind(plan, k) + (if iv.kind == k {
            1int
        } else {
            0int
        }) by {
        assert(plan.push(iv).drop_last() =~= plan);
        assert(plan.push(iv).last() == iv);
    }
}

proof fn lemma_counts_prefix(plan: Seq<Interval>, s: Schedule, j: int)
    requires
        s.wf(),
        is_session_plan(plan, s),
        0 <= j <= s.session_count,
    ensures
        count_kind(plan.take(2 * j), IntervalKind::Work) == j,
        count_kind(plan.take(2 * j), IntervalKind::ShortBreak) == (if j == s.session_count {
            j - 1
        } else {
            j
        }),
        count_kind(plan.take(2 * j), IntervalKind::LongBreak) == (if j == s.session_count {
            1int
        } else {
            0int
        }),
    decreases j,
{
    if j == 0 {
        assert(plan.take(0) =~= Seq::<Interval>::empty());
    } else {
        lemma_counts_prefix(plan, s, j - 1);
        let p = plan.take(2 * (j - 1));
        let a = plan[2 * j - 2];
        let b = plan[2 * j - 1];
        assert(plan.take(2 * j) =~= p.push(a).push(b));
        lemma_count_push(p, a);
        lemma_count_push(p.push(a), b);
        assert((2 * j - 2) % 2 == 0);
        assert((2 * j - 1) % 2 == 1);
        assert(a.kind == s.plan_kind(2 * j - 2));
        assert(b.kind == s.plan_kind(2 * j - 1));
    }
}

/// A schedule with `n` sessions plans exactly `n` work intervals, `n - 1`
/// short breaks, and exactly one long break, and the long break comes last.
pub proof fn lemma_schedule_counts(plan: Seq<Interval>, s: Schedule)
    requires
        s.wf(),
        is_session_plan(plan, s),
    ensures
        count_kind(plan, IntervalKind::Work) == s.session_count,
        count_kind(plan, IntervalKind::ShortBreak) == s.session_count - 1,
        count_kind(plan, IntervalKind::LongBreak) == 1,
        plan.len() >= 2,
        plan.last().kind == IntervalKind::LongBreak,
{
    lemma_counts_prefix(plan, s, s.session_count as int);
    assert(plan.take(2 * (s.session_count as int)) =~= plan);
    assert((2 * (s.session_count as int) - 1) % 2 == 1);
    assert(plan.last().kind == s.plan_kind(plan.len() - 1));
}

/// A single-session schedule plans exactly one work interval followed by
/// the long break, and no short break at all.
pub proof fn lemma_single_session(plan: Seq<Interval>, s: Schedule)
    requires
        s.wf(),
        s.session_count == 1,
        is_session_plan(plan, s),
    ensures
        plan.len() == 2,
        plan[0].kind == IntervalKind::Work,
        plan[1].kind == IntervalKind::LongBreak,
        count_kind(plan, IntervalKind::Work) == 1,
        count_kind(plan, IntervalKind::ShortBreak) == 0,
        count_kind(plan, IntervalKind::LongBreak) == 1,
{
    lemma_schedule_counts(plan, s);
    assert(plan[0].kind == s.plan_kind(0));
    assert(plan[1].kind == s.plan_kind(1));
}

/// What follows a finished interval: the task to log (after work intervals
/// only) and the title and body of the completion notification.
pub struct CompletionActions {
    pub log_task: Option<String>,
    pub notify_title: String,
    pub notify_body: String,
}

/// The actions that follow an interval's countdown: after a work interval
/// the task is logged and a work-completion notification is sent; after a
/// break only a break-end notification is sent.  `emoji` is the decorative
/// prefix of the notification's body.
pub fn completion_actions(iv: &Interval, emoji: &str) -> (a: CompletionActions)
    ensures
        a.notify_title@ == (if iv.kind == IntervalKind::Work {
            "Pomodoro completed!"@
        } else {
            "Break ended!"@
        }),
        a.notify_body@ == (if iv.kind == IntervalKind::Work {
            work_body_spec(emoji@, (iv.duration_seconds / 60) as nat, iv.label@)
        } else {
            break_body_spec(emoji@, (iv.duration_seconds / 60) as nat)
        }),
        match a.log_task {
            Some(t) => iv.kind == IntervalKind::Work && t@ == iv.label@,
            None => iv.kind != IntervalKind::Work,
        },
{
    let minutes = iv.duration_seconds / 60;
    match iv.kind {
        IntervalKind::Work => CompletionActions {
            log_task: Some(iv.label.clone()),
            notify_title: String::from_str("Pomodoro completed!"),
            notify_body: work_body(emoji, minutes, iv.label.as_str()),
        },
        IntervalKind::ShortBreak => CompletionActions {
            log_task: None,
            notify_title: String::from_str("Break ended!"),
            notify_body: break_body(emoji, minutes),
        },
        IntervalKind::LongBreak => CompletionActions {
            log_task: None,
            notify_title: String::from_str("Break ended!"),
            notify_body: break_body(emoji, minutes),
        },
    }
}

/// The task label of an interactive cycle: what the operator typed, or a
/// fixed phrase when the answer was empty.
pub fn default_task_label(input: String) -> (r: String)
    ensures
        input@.len() == 0 ==> r@ == "Focused work"@,
        input@.len() > 0 ==> r == input,
{
    if input.as_str().is_empty() {
        String::from_str("Focused work")
    } else {
        input
    }
}

/// The task description of the `start` and `schedule` commands: the given
/// text, or a fixed phrase when none was given.
pub fn task_or_default(task: Option<String>) -> (r: String)
    ensures
        match task {
            Some(t) => r == t,
            None => r@ == "no description"@,
        },
{
    match task {
        Some(t) => t,
        None => String::from_str("no description"),
    }
}

/// Whether the interactive default cycle starts another round: only an
/// explicit yes continues; no usable answer means stop.
pub fn continue_default_cycle(answer: Option<bool>) -> (r: bool)
    ensures
        r == (answer == Some(true)),
{
    match answer {
        Some(b) => b,
        None => false,
    }
}

} // verus!
