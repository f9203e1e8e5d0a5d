use pomodoro_rs::clock::{projected_end_time, ClockTime};
use pomodoro_rs::install::{path_contains, path_line_for_shell, profile_file_for_shell};
use pomodoro_rs::interval::{break_interval, timer_heading, work_interval, IntervalKind};
use pomodoro_rs::schedule::{
    completion_actions, continue_default_cycle, default_task_label, task_or_default,
};
use pomodoro_rs::sound::{first_present_from, sound_candidates};

#[test]
fn interval_constructors() {
    let work = work_interval(25, "demo".to_string());
    assert_eq!(work.kind, IntervalKind::Work);
    assert_eq!(work.duration_seconds, 1500);
    assert_eq!(work.label, "demo");

    let short = break_interval(5, false);
    assert_eq!(short.kind, IntervalKind::ShortBreak);
    assert_eq!(short.duration_seconds, 300);
    assert_eq!(short.label, "Time to relax");

    let long = break_interval(15, true);
    assert_eq!(long.kind, IntervalKind::LongBreak);
    assert_eq!(long.duration_seconds, 900);
}

#[test]
fn timer_headings() {
    assert_eq!(timer_heading(IntervalKind::Work), "Pomodoro");
    assert_eq!(timer_heading(IntervalKind::ShortBreak), "Short Break");
    assert_eq!(timer_heading(IntervalKind::LongBreak), "Long Break");
}

#[test]
fn completion_actions_after_work() {
    let iv = work_interval(25, "write spec".to_string());
    let actions = completion_actions(&iv, "X");
    assert_eq!(actions.log_task, Some("write spec".to_string()));
    assert_eq!(actions.notify_title, "Pomodoro completed!");
    assert_eq!(
        actions.notify_body,
        "X You completed a 25 minute pomodoro for: write spec"
    );
}

#[test]
fn completion_actions_after_break() {
    let iv = break_interval(5, false);
    let actions = completion_actions(&iv, "X");
    assert_eq!(actions.log_task, None);
    assert_eq!(actions.notify_title, "Break ended!");
    assert_eq!(actions.notify_body, "X Your 5 minute break has ended");
}

#[test]
fn default_cycle_helpers() {
    assert_eq!(task_or_default(None), "no description");
    assert_eq!(task_or_default(Some("reading".to_string())), "reading");
    assert_eq!(default_task_label("".to_string()), "Focused work");
    assert_eq!(default_task_label("emails".to_string()), "emails");
    assert!(continue_default_cycle(Some(true)));
    assert!(!continue_default_cycle(Some(false)));
    assert!(!continue_default_cycle(None));
}

#[test]
fn sound_candidate_order() {
    let with_exe = sound_candidates(Some("/opt/app/assets/alert.wav".to_string()));
    assert_eq!(
        with_exe,
        vec![
            "src/assets/alert.wav".to_string(),
            "assets/alert.wav".to_string(),
            "/opt/app/assets/alert.wav".to_string(),
            "alert.wav".to_string(),
        ]
    );
    let without_exe = sound_candidates(None);
    assert_eq!(without_exe[2], "alert.wav");
}

#[test]
fn first_present_picks_earliest() {
    let present = vec![false, true, true, false];
    assert_eq!(first_present_from(&present, 0), Some(1));
    assert_eq!(first_present_from(&present, 2), Some(2));
    assert_eq!(first_present_from(&present, 3), None);
    assert_eq!(first_present_from(&vec![false, false], 0), None);
    assert_eq!(first_present_from(&vec![], 0), None);
}

#[test]
fn projected_end_wraps_at_midnight() {
    let end = projected_end_time(
        ClockTime { hour: 23, minute: 59, second: 30 },
        45,
    );
    assert_eq!((end.hour, end.minute, end.second), (0, 0, 15));

    let plain = projected_end_time(
        ClockTime { hour: 10, minute: 0, second: 0 },
        25 * 60,
    );
    assert_eq!((plain.hour, plain.minute, plain.second), (10, 25, 0));
}

#[test]
fn installer_shell_decisions() {
    assert_eq!(
        profile_file_for_shell(&"bash".to_string()),
        Some(".bashrc".to_string())
    );
    assert_eq!(
        profile_file_for_shell(&"zsh".to_string()),
        Some(".zshrc".to_string())
    );
    assert_eq!(
        profile_file_for_shell(&"fish".to_string()),
        Some(".config/fish/config.fish".to_string())
    );
    assert_eq!(profile_file_for_shell(&"dash".to_string()), None);

    assert_eq!(
        path_line_for_shell(false),
        "export PATH=\"$HOME/.local/bin:$PATH\""
    );
    assert_eq!(path_line_for_shell(true), "set -x PATH $HOME/.local/bin $PATH");

    let entries = vec!["/usr/bin".to_string(), "/home/me/.local/bin".to_string()];
    assert!(path_contains(&entries, &"/home/me/.local/bin".to_string()));
    assert!(!path_contains(&entries, &"/opt/bin".to_string()));
}
