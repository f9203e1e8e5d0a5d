use vstd::prelude::*;
use vstd::string::StringExecFns;

verus! {

/// The decimal digit character for a value between 0 and 9.
pub open spec fn digit_char(d: int) -> char {
    if d == 0 {
        '0'
    } else if d == 1 {
        '1'
    } else if d == 2 {
        '2'
    } else if d == 3 {
        '3'
    } else if d == 4 {
        '4'
    } else if d == 5 {
        '5'
    } else if d == 6 {
        '6'
    } else if d == 7 {
        '7'
    } else if d == 8 {
        '8'
    } else {
        '9'
    }
}

/// The decimal digits of `n`, most significant first, with no leading zero
/// except for `n == 0` itself.
pub open spec fn dec_spec(n: nat) -> Seq<char>
    decreases n,
{
    if n < 10 {
        seq![digit_char(n as int)]
    } else {
        dec_spec(n / 10).push(digit_char((n % 10) as int))
    }
}

/// A single decimal digit as a string slice.
fn digit_str(d: u64) -> (r: &'static str)
    requires
        d < 10,
    ensures
        r@ == seq![digit_char(d as int)],
{
    proof {
        reveal_strlit("0");
        reveal_strlit("1");
        reveal_strlit("2");
        reveal_strlit("3");
        reveal_strlit("4");
        reveal_strlit("5");
        reveal_strlit("6");
        reveal_strlit("7");
        reveal_strlit("8");
        reveal_strlit("9");
    }
    let r = match d {
        0 => "0",
        1 => "1",
        2 => "2",
        3 => "3",
        4 => "4",
        5 => "5",
        6 => "6",
        7 => "7",
        8 => "8",
        _ => "9",
    };
    proof {
        assert(r@ =~= seq![digit_char(d as int)]);
    }
    r
}

/// Renders `n` in decimal with no padding.
pub fn u64_to_dec(n: u64) -> (r: String)
    ensures
        r@ == dec_spec(n as nat),
    decreases n,
{
    if n < 10 {
        String::from_str(digit_str(n))
    } else {
        let mut r = u64_to_dec(n / 10);
        r.append(digit_str(n % 10));
        proof {
            assert(r@ =~= dec_spec(n as nat));
        }
        r
    }
}

/// Two decimal digits, zero padded: the `MM` and `SS` pieces of the clock
/// displays.
pub open spec fn two_digits_spec(n: int) -> Seq<char> {
    seq![digit_char(n / 10), digit_char(n % 10)]
}

/// Renders a value below 100 as exactly two zero-padded decimal digits.
pub fn two_digits(n: u64) -> (r: String)
    requires
        n < 100,
    ensures
        r@ == two_digits_spec(n as int),
{
    let mut r = String::from_str(digit_str(n / 10));
    r.append(digit_str(n % 10));
    proof {
        assert(r@ =~= two_digits_spec(n as int));
    }
    r
}

/// Decimal rendering padded with zeros on the left to at least two digits:
/// how the countdown's minute field is shown.
pub open spec fn pad2_spec(n: nat) -> Seq<char> {
    if n < 10 {
        seq!['0'].add(dec_spec(n))
    } else {
        dec_spec(n)
    }
}

/// Renders `n` in decimal, zero padded on the left to at least two digits.
pub fn pad2(n: u64) -> (r: String)
    ensures
        r@ == pad2_spec(n as nat),
{
    if n < 10 {
        proof {
            reveal_strlit("0");
        }
        let mut r = String::from_str("0");
        let d = u64_to_dec(n);
        r.append(d.as_str());
        proof {
            assert(r@ =~= pad2_spec(n as nat));
        }
        r
    } else {
        u64_to_dec(n)
    }
}

/// The `HH:MM:SS` clock rendering used for projected end times and for the
/// task log's time stamps.
pub open spec fn hms_spec(hour: int, minute: int, second: int) -> Seq<char> {
    two_digits_spec(hour).add(seq![':']).add(two_digits_spec(minute)).add(seq![':']).add(
        two_digits_spec(second),
    )
}

/// Renders a time of day as `HH:MM:SS`.
pub fn hms(hour: u64, minute: u64, second: u64) -> (r: String)
    requires
        hour < 100,
        minute < 100,
        second < 100,
    ensures
        r@ == hms_spec(hour as int, minute as int, second as int),
{
    proof {
        reveal_strlit(":");
    }
    let mut r = two_digits(hour);
    r.append(":");
    let m = two_digits(minute);
    r.append(m.as_str());
    r.append(":");
    let s = two_digits(second);
    r.append(s.as_str());
    proof {
        assert(r@ =~= hms_spec(hour as int, minute as int, second as int));
    }
    r
}

/// The countdown's remaining-time rendering `MM:SS`, where the minute field
/// grows beyond two digits for long intervals.
pub open spec fn mm_ss_spec(remaining: int) -> Seq<char> {
    pad2_spec((remaining / 60) as nat).add(seq![':']).add(two_digits_spec(remaining % 60))
}

/// Renders a remaining number of seconds as `MM:SS`.
pub fn mm_ss(remaining: u64) -> (r: String)
    ensures
        r@ == mm_ss_spec(remaining as int),
{
    proof {
        reveal_strlit(":");
    }
    let mut r = pad2(remaining / 60);
    r.append(":");
    let s = two_digits(remaining % 60);
    r.append(s.as_str());
    proof {
        assert(r@ =~= mm_ss_spec(remaining as int));
    }
    r
}

/// One status line of the countdown display: the heading, the projected end
/// time, the remaining time, and the interval's label.
pub open spec fn status_line_spec(
    heading: Seq<char>,
    end_hour: int,
    end_minute: int,
    end_second: int,
    remaining: int,
    label: Seq<char>,
) -> Seq<char> {
    heading.add(": "@).add(hms_spec(end_hour, end_minute, end_second)).add(" | "@).add(
        mm_ss_spec(remaining),
    ).add(" | "@).add(label)
}

/// Renders one line of the countdown display.
pub fn status_line(
    heading: &str,
    end_hour: u64,
    end_minute: u64,
    end_second: u64,
    remaining: u64,
    label: &str,
) -> (r: String)
    requires
        end_hour < 100,
        end_minute < 100,
        end_second < 100,
    ensures
        r@ == status_line_spec(
            heading@,
            end_hour as int,
            end_minute as int,
            end_second as int,
            remaining as int,
            label@,
        ),
{
    let mut r = String::from_str(heading);
    r.append(": ");
    let e = hms(end_hour, end_minute, end_second);
    r.append(e.as_str());
    r.append(" | ");
    let m = mm_ss(remaining);
    r.append(m.as_str());
    r.append(" | ");
    r.append(label);
    proof {
        assert(r@ =~= status_line_spec(
            heading@,
            end_hour as int,
            end_minute as int,
            end_second as int,
            remaining as int,
            label@,
        ));
    }
    r
}

/// One record of the task log: the completion time as `HH:MM:SS`, a
/// separator, and the task description.  The writer appends it to the day's
/// file as a single line.
pub open spec fn log_line_spec(hour: int, minute: int, second: int, task: Seq<char>) -> Seq<char> {
    hms_spec(hour, minute, second).add(" | "@).add(task)
}

/// Renders one task-log record.
pub fn log_line(hour: u64, minute: u64, second: u64, task: &str) -> (r: String)
    requires
        hour < 100,
        minute < 100,
        second < 100,
    ensures
        r@ == log_line_spec(hour as int, minute as int, second as int, task@),
{
    let mut r = hms(hour, minute, second);
    r.append(" | ");
    r.append(task);
    proof {
        assert(r@ =~= log_line_spec(hour as int, minute as int, second as int, task@));
    }
    r
}

/// Decimal rendering padded with zeros on the left to at least four digits:
/// the year field of the log file's name.
pub open spec fn pad4_spec(n: nat) -> Seq<char> {
    if n < 10 {
        "000"@.add(dec_spec(n))
    } else if n < 100 {
        "00"@.add(dec_spec(n))
    } else if n < 1000 {
        "0"@.add(dec_spec(n))
    } else {
        dec_spec(n)
    }
}

/// The name of the log file for one calendar day: `YYYYMMDD.txt`.
pub open spec fn log_filename_spec(year: int, month: int, day: int) -> Seq<char> {
    pad4_spec(year as nat).add(two_digits_spec(month)).add(two_digits_spec(day)).add(".txt"@)
}

/// Renders the name of the log file for one calendar day.
pub fn log_filename(year: u64, month: u64, day: u64) -> (r: String)
    requires
        month < 100,
        day < 100,
    ensures
        r@ == log_filename_spec(year as int, month as int, day as int),
{
    let mut r = if year < 10 {
        let mut p = String::from_str("000");
        let d = u64_to_dec(year);
        p.append(d.as_str());
        p
    } else if year < 100 {
        let mut p = String::from_str("00");
        let d = u64_to_dec(year);
        p.append(d.as_str());
        p
    } else if year < 1000 {
        let mut p = String::from_str("0");
        let d = u64_to_dec(year);
        p.append(d.as_str());
        p
    } else {
        u64_to_dec(year)
    };
    proof {
        assert(r@ == pad4_spec(year as nat));
    }
    let m = two_digits(month);
    r.append(m.as_str());
    let d = two_digits(day);
    r.append(d.as_str());
    r.append(".txt");
    proof {
        assert(r@ =~= log_filename_spec(year as int, month as int, day as int));
    }
    r
}

/// The body of the desktop notification sent when a work interval completes.
pub open spec fn work_body_spec(emoji: Seq<char>, minutes: nat, task: Seq<char>) -> Seq<char> {
    emoji.add(" You completed a "@).add(dec_spec(minutes)).add(" minute pomodoro for: "@).add(task)
}

/// Renders the body of the work-completion notification.
pub fn work_body(emoji: &str, minutes: u64, task: &str) -> (r: String)
    ensures
        r@ == work_body_spec(emoji@, minutes as nat, task@),
{
    let mut r = String::from_str(emoji);
    r.append(" You completed a ");
    let m = u64_to_dec(minutes);
    r.append(m.as_str());
    r.append(" minute pomodoro for: ");
    r.append(task);
    proof {
        assert(r@ =~= work_body_spec(emoji@, minutes as nat, task@));
    }
    r
}

/// The body of the desktop notification sent when a break ends.
pub open spec fn break_body_spec(emoji: Seq<char>, minutes: nat) -> Seq<char> {
    emoji.add(" Your "@).add(dec_spec(minutes)).add(" minute break has ended"@)
}

/// Renders the body of the break-end notification.
pub fn break_body(emoji: &str, minutes: u64) -> (r: String)
    ensures
        r@ == break_body_spec(emoji@, minutes as nat),
{
    let mut r = String::from_str(emoji);
    r.append(" Your ");
    let m = u64_to_dec(minutes);
    r.append(m.as_str());
    r.append(" minute break has ended");
    proof {
        assert(r@ =~= break_body_spec(emoji@, minutes as nat));
    }
    r
}

} // verus!
