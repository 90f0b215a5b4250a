use todo_timer::{Item, Status, Timestamp};

fn item_with(duration: i64) -> Item {
    let mut item = Item::default();
    item.duration = duration;
    item
}

#[test]
fn formatted_duration_zero() {
    assert_eq!(item_with(0).formatted_duration(), "Duration: 0s");
}

#[test]
fn formatted_duration_seconds_only() {
    assert_eq!(item_with(1500).formatted_duration(), "Duration: 1s");
    assert_eq!(item_with(59_999).formatted_duration(), "Duration: 59s");
}

#[test]
fn formatted_duration_minutes_and_seconds() {
    assert_eq!(item_with(61_000).formatted_duration(), "Duration: 1m 1s");
}

#[test]
fn formatted_duration_skips_zero_units() {
    assert_eq!(item_with(3_600_000).formatted_duration(), "Duration: 1h 0s");
    assert_eq!(item_with(1_209_600_000).formatted_duration(), "Duration: 2w 0s");
}

#[test]
fn formatted_duration_all_units() {
    assert_eq!(
        item_with(608_461_000).formatted_duration(),
        "Duration: 1w 1h 1m 1s"
    );
    assert_eq!(
        item_with(3 * 604_800_000 + 23 * 3_600_000 + 59 * 60_000 + 42_999).formatted_duration(),
        "Duration: 3w 23h 59m 42s"
    );
}

#[test]
fn formatted_duration_negative() {
    assert_eq!(item_with(-1500).formatted_duration(), "Duration: -1s");
    assert_eq!(item_with(-500).formatted_duration(), "Duration: 0s");
    assert_eq!(item_with(-3_600_000).formatted_duration(), "Duration: -3600s");
}

#[test]
fn status_precedence() {
    let mut item = Item::default();
    assert_eq!(item.status(), Status::NotStarted);
    item.start_at = Some(Timestamp { millis: 10 });
    assert_eq!(item.status(), Status::Started);
    item.paused = true;
    assert_eq!(item.status(), Status::Paused);
    item.end_at = Some(Timestamp { millis: 20 });
    assert_eq!(item.status(), Status::Done);
}

#[test]
fn progress_label_text() {
    let mut item = Item::default();
    assert_eq!(item.progress_label(), "");
    item.start_at = Some(Timestamp { millis: 10 });
    assert_eq!(item.progress_label(), "In progress");
    item.paused = true;
    assert_eq!(item.progress_label(), "Paused");
    item.paused = false;
    item.end_at = Some(Timestamp { millis: 20 });
    assert_eq!(item.progress_label(), "");
}

#[test]
fn predicates() {
    let mut item = Item::default();
    assert!(!item.started() && !item.done() && !item.running());
    item.start_at = Some(Timestamp { millis: 1 });
    assert!(item.started() && !item.done() && item.running());
    item.end_at = Some(Timestamp { millis: 2 });
    assert!(item.done() && !item.running());
}

#[test]
fn restart_resets_duration_and_marks() {
    let mut item = Item::default();
    item.title = "Draft".to_string();
    item.start_at = Some(Timestamp { millis: 1 });
    item.end_at = Some(Timestamp { millis: 5 });
    item.duration = 500;
    item.toggle_start(Timestamp { millis: 9 });
    assert_eq!(item.duration, 0);
    assert_eq!(item.end_at, None);
    assert_eq!(item.start_at, None);
    assert_eq!(item.title, "Draft");
    item.toggle_start(Timestamp { millis: 9 });
    assert_eq!(item.start_at, Some(Timestamp { millis: 9 }));
}

#[test]
fn toggle_end_and_pause() {
    let mut item = Item::default();
    item.toggle_end(Timestamp { millis: 3 });
    assert_eq!(item.end_at, Some(Timestamp { millis: 3 }));
    item.toggle_end(Timestamp { millis: 4 });
    assert_eq!(item.end_at, None);
    item.toggle_pause();
    assert!(item.paused);
    item.toggle_pause();
    assert!(!item.paused);
}

#[test]
fn add_millis_only_when_running() {
    let mut item = Item::default();
    item.add_millis(1000);
    assert_eq!(item.duration, 0);
    item.start_at = Some(Timestamp { millis: 1 });
    item.add_millis(1000);
    item.add_millis(250);
    assert_eq!(item.duration, 1250);
    item.paused = true;
    item.add_millis(1000);
    assert_eq!(item.duration, 1250);
    item.paused = false;
    item.end_at = Some(Timestamp { millis: 2 });
    item.add_millis(1000);
    assert_eq!(item.duration, 1250);
}

#[test]
fn add_millis_saturates() {
    let mut item = Item::default();
    item.start_at = Some(Timestamp { millis: 1 });
    item.duration = i64::MAX - 10;
    item.add_millis(100);
    assert_eq!(item.duration, i64::MAX);
}

#[test]
fn clone_keeps_every_field() {
    let mut item = Item::default();
    item.title = "a".to_string();
    item.desc = "b".to_string();
    item.start_at = Some(Timestamp { millis: 7 });
    item.duration = 42;
    item.paused = true;
    let copy = item.clone();
    assert_eq!(copy.title, "a");
    assert_eq!(copy.desc, "b");
    assert_eq!(copy.start_at, Some(Timestamp { millis: 7 }));
    assert_eq!(copy.end_at, None);
    assert_eq!(copy.duration, 42);
    assert!(copy.paused);
}
