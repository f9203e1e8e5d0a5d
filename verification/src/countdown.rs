use vstd::prelude::*;
use crate::clock::{clock_of_seconds, now_parts, projected_end_time, ClockTime};
use crate::render::{status_line, status_line_spec};

verus! {

/// The state of one running interval: the fixed starting length and the
/// seconds still to go.
pub struct Countdown {
    pub duration_seconds: u64,
    pub remaining_seconds: u64,
}

impl Countdown {
    /// The remaining time never exceeds the starting length.
    pub open spec fn wf(self) -> bool {
        self.remaining_seconds <= self.duration_seconds
    }

    /// How many ticks have elapsed so far.
    pub open spec fn ticks_done(self) -> int {
        self.duration_seconds - self.remaining_seconds
    }

    /// Starts an interval of the given length.
    pub fn new(duration_seconds: u64) -> (c: Countdown)
        ensures
            c.wf(),
            c.duration_seconds == duration_seconds,
            c.remaining_seconds == duration_seconds,
            c.ticks_done() == 0,
    {
        Countdown { duration_seconds, remaining_seconds: duration_seconds }
    }

    /// Whether the interval has elapsed.
    pub fn is_finished(&self) -> (r: bool)
        ensures
            r == (self.remaining_seconds == 0),
    {
        self.remaining_seconds == 0
    }

    /// One tick: one second of the interval passes.  Returns the remaining
    /// time to display, so tick `k` of a countdown started at `d` shows
    /// `d - k`.
    pub fn tick(&mut self) -> (shown: u64)
        requires
            old(self).remaining_seconds > 0,
        ensures
            final(self).duration_seconds == old(self).duration_seconds,
            final(self).remaining_seconds == old(self).remaining_seconds - 1,
            shown == final(self).remaining_seconds,
            old(self).wf() ==> final(self).wf(),
    {
        self.remaining_seconds = self.remaining_seconds - 1;
        self.remaining_seconds
    }
}

/// The display of one tick: reads the wall clock and renders the heading,
/// the projected end of the interval, the remaining time as `MM:SS`, and
/// the interval's label.  Whatever time of day the clock returned, the line
/// is the exact status rendering for that time.
pub fn tick_status_line(heading: &str, remaining: u64, label: &str) -> (r: String)
    requires
        remaining <= u64::MAX - 86400,
    ensures
        exists|now: ClockTime|
            {
                &&& (#[trigger] now.wf())
                &&& r@ == {
                    let end = clock_of_seconds((now.seconds_of_day() + remaining) % 86400);
                    status_line_spec(
                        heading@,
                        end.hour as int,
                        end.minute as int,
                        end.second as int,
                        remaining as int,
                        label@,
                    )
                }
            },
{
    let t = now_parts();
    let now = ClockTime { hour: t.hour, minute: t.minute, second: t.second };
    let end = projected_end_time(now, remaining);
    let r = status_line(heading, end.hour, end.minute, end.second, remaining, label);
    proof {
        assert(now.wf() && r@ == {
            let end = clock_of_seconds((now.seconds_of_day() + remaining) % 86400);
            status_line_spec(
                heading@,
                end.hour as int,
                end.minute as int,
                end.second as int,
                remaining as int,
                label@,
            )
        });
    }
    r
}

/// The whole tick trace of a countdown: it performs exactly
/// `duration_seconds` ticks, and the remaining time at tick `k` (counting
/// from 1) is `duration_seconds - k`, decreasing monotonically to exactly
/// zero.  A countdown of length zero returns at once, with no tick.
pub fn countdown_trace(duration_seconds: u64) -> (ticks: Vec<u64>)
    ensures
        ticks@.len() == duration_seconds,
        forall|k: int| 0 <= k < duration_seconds ==> ticks@[k] == duration_seconds - 1 - k,
{
    let mut c = Countdown::new(duration_seconds);
    let mut ticks: Vec<u64> = Vec::new();
    while c.remaining_seconds > 0
        invariant
            c.wf(),
            c.duration_seconds == duration_seconds,
            ticks@.len() == c.ticks_done(),
            forall|k: int| 0 <= k < ticks@.len() ==> ticks@[k] == duration_seconds - 1 - k,
        decreases c.remaining_seconds,
    {
        let shown = c.tick();
        ticks.push(shown);
    }
    ticks
}

} // verus!
