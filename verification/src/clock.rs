use vstd::prelude::*;
use chrono::Datelike;
use chrono::Timelike;

verus! {

/// A wall-clock time of day, split into plain fields.
pub struct ClockTime {
    pub hour: u64,
    pub minute: u64,
    pub second: u64,
}

impl ClockTime {
    /// The fields form a valid time of day.
    pub open spec fn wf(self) -> bool {
        self.hour < 24 && self.minute < 60 && self.second < 60
    }

    /// The number of seconds since midnight.
    pub open spec fn seconds_of_day(self) -> int {
        self.hour * 3600 + self.minute * 60 + self.second
    }
}

/// The time of day that lies `t` seconds after midnight, for `t` below one
/// day.
pub open spec fn clock_of_seconds(t: int) -> ClockTime {
    ClockTime {
        hour: (t / 3600) as u64,
        minute: ((t % 3600) / 60) as u64,
        second: ((t % 3600) % 60) as u64,
    }
}

/// The current wall-clock date and time, split into plain fields.
#[derive(Clone, Copy)]
pub struct DateTimeParts {
    pub year: i32,
    pub month: u64,
    pub day: u64,
    pub hour: u64,
    pub minute: u64,
    pub second: u64,
}

/// Relies on chrono::Local::now and the Datelike and Timelike accessors,
/// whose documentation fixes the ranges: month runs from 1 to 12, day of
/// month from 1 to 31, hour from 0 to 23, minute and second from 0 to 59.
#[verifier::external_body]
pub(crate) fn now_parts() -> (t: DateTimeParts)
    ensures
        1 <= t.month <= 12,
        1 <= t.day <= 31,
        t.hour < 24,
        t.minute < 60,
        t.second < 60,
{
    let now = chrono::Local::now();
    DateTimeParts {
        year: now.year(),
        month: now.month() as u64,
        day: now.day() as u64,
        hour: now.hour() as u64,
        minute: now.minute() as u64,
        second: now.second() as u64,
    }
}

/// The projected end of an interval: the time of day `remaining` seconds
/// after `now`, wrapping around midnight.
pub fn projected_end_time(now: ClockTime, remaining: u64) -> (end: ClockTime)
    requires
        now.wf(),
        remaining <= u64::MAX - 86400,
    ensures
        end == clock_of_seconds((now.seconds_of_day() + remaining) % 86400),
        end.wf(),
        end.seconds_of_day() == (now.seconds_of_day() + remaining) % 86400,
{
    let total = (now.hour * 3600 + now.minute * 60 + now.second + remaining) % 86400;
    let hour = total / 3600;
    let rem = total % 3600;
    let minute = rem / 60;
    let second = rem % 60;
    proof {
        assert(total < 86400);
        assert(hour < 24) by (nonlinear_arith)
            requires
                hour == total / 3600,
                total < 86400,
        ;
        assert(rem < 3600);
        assert(minute < 60) by (nonlinear_arith)
            requires
                minute == rem / 60,
                rem < 3600,
        ;
        assert(second < 60);
        vstd::arithmetic::div_mod::lemma_fundamental_div_mod(total as int, 3600);
        vstd::arithmetic::div_mod::lemma_fundamental_div_mod(rem as int, 60);
    }
    let end = ClockTime { hour, minute, second };
    proof {
        assert(end.seconds_of_day() == total);
    }
    end
}

} // verus!
