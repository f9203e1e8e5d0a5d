use pomodoro_rs::clock::DateTimeParts;
use pomodoro_rs::tasklog::{log_entry_for_now, log_entry_for_parts, LogStore};

#[test]
fn log_entry_from_a_clock_reading() {
    let t = DateTimeParts { year: 2026, month: 10, day: 11, hour: 9, minute: 30, second: 5 };
    let entry = log_entry_for_parts(t, "demo").unwrap();
    assert_eq!(entry.day_key, 20261011);
    assert_eq!(entry.filename, "20261011.txt");
    assert_eq!(entry.line, "09:30:05 | demo");

    let far = DateTimeParts { year: 10000, month: 1, day: 1, hour: 0, minute: 0, second: 0 };
    assert!(log_entry_for_parts(far, "demo").is_none());
    let early = DateTimeParts { year: -1, month: 1, day: 1, hour: 0, minute: 0, second: 0 };
    assert!(log_entry_for_parts(early, "demo").is_none());
}

#[test]
fn same_day_appends_share_one_file_in_order() {
    let mut store = LogStore::new();
    assert!(!store.dir_created);
    store.append(20261011, "09:00:00 | first".to_string());
    assert!(store.dir_created);
    store.append(20261011, "09:30:00 | second".to_string());
    assert!(store.dir_created);
    assert_eq!(store.files.len(), 1);
    assert_eq!(store.files[0].day_key, 20261011);
    assert_eq!(
        store.files[0].lines,
        vec!["09:00:00 | first".to_string(), "09:30:00 | second".to_string()]
    );
}

#[test]
fn different_days_get_different_files() {
    let mut store = LogStore::new();
    store.append(20261011, "one".to_string());
    store.append(20261012, "two".to_string());
    assert_eq!(store.files.len(), 2);
    let first = store.files.iter().find(|f| f.day_key == 20261011).unwrap();
    let second = store.files.iter().find(|f| f.day_key == 20261012).unwrap();
    assert_eq!(first.lines, vec!["one".to_string()]);
    assert_eq!(second.lines, vec!["two".to_string()]);
}

#[test]
fn other_days_are_untouched_by_an_append() {
    let mut store = LogStore::new();
    store.append(20261011, "one".to_string());
    store.append(20261012, "two".to_string());
    store.append(20261011, "three".to_string());
    let first = store.files.iter().find(|f| f.day_key == 20261011).unwrap();
    let second = store.files.iter().find(|f| f.day_key == 20261012).unwrap();
    assert_eq!(first.lines, vec!["one".to_string(), "three".to_string()]);
    assert_eq!(second.lines, vec!["two".to_string()]);
}

#[test]
fn log_entry_shape_for_today() {
    let entry = log_entry_for_now("demo").expect("the clock's year fits four digits");
    let line = entry.line.as_bytes();
    assert_eq!(entry.line.len(), "HH:MM:SS | demo".len());
    for pos in [0, 1, 3, 4, 6, 7] {
        assert!(line[pos].is_ascii_digit());
    }
    assert_eq!(line[2], b':');
    assert_eq!(line[5], b':');
    assert!(entry.line[8..].starts_with(" | demo"));
    assert!(entry.line.ends_with("demo"));

    let name = entry.filename.as_bytes();
    assert_eq!(entry.filename.len(), "YYYYMMDD.txt".len());
    for pos in 0..8 {
        assert!(name[pos].is_ascii_digit());
    }
    assert!(entry.filename.ends_with(".txt"));
    let month: u64 = entry.filename[4..6].parse().unwrap();
    let day: u64 = entry.filename[6..8].parse().unwrap();
    assert!((1..=12).contains(&month));
    assert!((1..=31).contains(&day));
}
