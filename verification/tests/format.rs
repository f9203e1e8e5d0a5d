use pomodoro_rs::render::{
    break_body, hms, log_filename, log_line, mm_ss, status_line, two_digits, u64_to_dec,
    work_body,
};

#[test]
fn decimal_rendering() {
    assert_eq!(u64_to_dec(0), "0");
    assert_eq!(u64_to_dec(7), "7");
    assert_eq!(u64_to_dec(42), "42");
    assert_eq!(u64_to_dec(1234567), "1234567");
}

#[test]
fn two_digit_rendering() {
    assert_eq!(two_digits(0), "00");
    assert_eq!(two_digits(7), "07");
    assert_eq!(two_digits(59), "59");
}

#[test]
fn minute_second_rendering() {
    assert_eq!(mm_ss(0), "00:00");
    assert_eq!(mm_ss(90), "01:30");
    assert_eq!(mm_ss(25 * 60), "25:00");
    assert_eq!(mm_ss(125 * 60 + 5), "125:05");
}

#[test]
fn clock_rendering() {
    assert_eq!(hms(9, 5, 7), "09:05:07");
    assert_eq!(hms(23, 59, 59), "23:59:59");
}

#[test]
fn status_line_rendering() {
    assert_eq!(
        status_line("Pomodoro", 12, 0, 0, 65, "demo"),
        "Pomodoro: 12:00:00 | 01:05 | demo"
    );
}

#[test]
fn log_line_rendering() {
    assert_eq!(log_line(13, 59, 1, "demo"), "13:59:01 | demo");
}

#[test]
fn log_filename_rendering() {
    assert_eq!(log_filename(2026, 10, 11), "20261011.txt");
    assert_eq!(log_filename(42, 1, 2), "00420102.txt");
}

#[test]
fn notification_bodies() {
    assert_eq!(
        work_body("X", 25, "write spec"),
        "X You completed a 25 minute pomodoro for: write spec"
    );
    assert_eq!(break_body("X", 5), "X Your 5 minute break has ended");
}
