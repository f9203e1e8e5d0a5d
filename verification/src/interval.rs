use vstd::prelude::*;
use vstd::string::StringExecFns;

verus! {

/// The kind of a timed phase: a work session, a short break, or a long break.
#[derive(Clone, Copy, PartialEq, Eq, Structural, Debug)]
pub enum IntervalKind {
    Work,
    ShortBreak,
    LongBreak,
}

/// The fixed text shown beside the countdown of every break interval.
pub open spec fn break_label() -> Seq<char> {
    "Time to relax"@
}

/// One timed phase: its kind, its length in seconds, and the text shown
/// beside the countdown (the task description for work intervals, a fixed
/// phrase for breaks).
pub struct Interval {
    pub kind: IntervalKind,
    pub duration_seconds: u64,
    pub label: String,
}

/// Builds the single work interval that the `start` command runs.
pub fn work_interval(minutes: u64, label: String) -> (iv: Interval)
    requires
        minutes <= u64::MAX / 60,
    ensures
        iv.kind == IntervalKind::Work,
        iv.duration_seconds == 60 * minutes,
        iv.label@ == label@,
{
    Interval { kind: IntervalKind::Work, duration_seconds: 60 * minutes, label }
}

/// Builds the single break interval that the `break` command runs.
pub fn break_interval(minutes: u64, is_long: bool) -> (iv: Interval)
    requires
        minutes <= u64::MAX / 60,
    ensures
        iv.kind == (if is_long {
            IntervalKind::LongBreak
        } else {
            IntervalKind::ShortBreak
        }),
        iv.duration_seconds == 60 * minutes,
        iv.label@ == break_label(),
{
    let kind = if is_long {
        IntervalKind::LongBreak
    } else {
        IntervalKind::ShortBreak
    };
    Interval { kind, duration_seconds: 60 * minutes, label: String::from_str("Time to relax") }
}

/// The heading printed in front of an interval's countdown line.
pub fn timer_heading(kind: IntervalKind) -> (r: String)
    ensures
        r@ == (match kind {
            IntervalKind::Work => "Pomodoro"@,
            IntervalKind::ShortBreak => "Short Break"@,
            IntervalKind::LongBreak => "Long Break"@,
        }),
{
    match kind {
        IntervalKind::Work => String::from_str("Pomodoro"),
        IntervalKind::ShortBreak => String::from_str("Short Break"),
        IntervalKind::LongBreak => String::from_str("Long Break"),
    }
}

} // verus!
