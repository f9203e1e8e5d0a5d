use pomodoro_rs::messages::{init_emojis, init_motivations, productivity_tips, random_from};
use pomodoro_rs::notify::{fallback_line, notify, NotifyOutcome};

#[test]
fn notifier_never_raises_an_error() {
    let outcome = notify("Pomodoro completed!", "test message");
    assert!(matches!(
        outcome,
        NotifyOutcome::Delivered | NotifyOutcome::FallbackPrinted
    ));
    let again = notify("Break ended!", "another message");
    assert!(matches!(
        again,
        NotifyOutcome::Delivered | NotifyOutcome::FallbackPrinted
    ));
}

#[test]
fn fallback_text() {
    assert_eq!(
        fallback_line("Pomodoro completed!", "done"),
        "Pomodoro completed!: done"
    );
}

#[test]
fn random_pick_returns_an_element() {
    let options = vec!["a", "b", "c"];
    for _ in 0..50 {
        let picked = random_from(&options);
        assert!(options.contains(&picked));
    }
}

#[test]
fn random_pick_from_empty_list_is_empty() {
    let options: Vec<&'static str> = vec![];
    assert_eq!(random_from(&options), "");
}

#[test]
fn message_sets_hold_the_fixed_tables() {
    let emojis = init_emojis();
    assert_eq!(emojis.work.len(), 10);
    assert_eq!(emojis.break_short.len(), 10);
    assert_eq!(emojis.break_long.len(), 10);
    assert_eq!(emojis.success.len(), 10);
    assert_eq!(emojis.rust, vec!["🦀"]);
    assert_eq!(emojis.work[0], "🍅");
    assert_eq!(emojis.break_short[0], "☕");
    assert_eq!(emojis.break_long[0], "🌴");
    assert_eq!(emojis.success[0], "✅");
    for list in [
        &emojis.work,
        &emojis.break_short,
        &emojis.break_long,
        &emojis.success,
        &emojis.rust,
    ] {
        assert!(list.iter().all(|s| !s.is_empty()));
    }

    let motivations = init_motivations();
    assert_eq!(motivations.start_work.len(), 5);
    assert_eq!(motivations.during_work, vec!["....", "....", "....", "....", "...."]);
    assert_eq!(motivations.end_work.len(), 5);
    assert_eq!(motivations.start_break.len(), 5);
    assert_eq!(motivations.end_break.len(), 5);
    assert_eq!(motivations.start_work[0], "Time to focus! You've got this!");
    assert_eq!(motivations.end_break[4], "Let's continue building amazing things!");
    for list in [
        &motivations.start_work,
        &motivations.during_work,
        &motivations.end_work,
        &motivations.start_break,
        &motivations.end_break,
    ] {
        assert!(list.iter().all(|s| !s.is_empty()));
    }

    let pick = random_from(&emojis.work);
    assert!(emojis.work.contains(&pick));
}

#[test]
fn tip_list_holds_the_fixed_table_and_a_pick_comes_from_it() {
    let tips = productivity_tips();
    assert_eq!(tips.len(), 11);
    assert_eq!(
        tips[0],
        "The Pomodoro Technique works best when you fully commit to the task during work periods."
    );
    assert_eq!(
        tips[5],
        "The 'rule of three' suggests focusing on completing just three main tasks per day."
    );
    assert_eq!(
        tips[10],
        "The Rust crab says: sometimes your most productive Pomodoro isn't the one where you write the most code!"
    );
    assert!(tips.iter().all(|s| !s.is_empty()));

    let pick = random_from(&tips);
    assert!(tips.contains(&pick));
}
