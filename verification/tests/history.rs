use clipboard_history::{ClipboardEntry, History, HistoryError, Timestamp, MAX_ENTRIES};

fn at(second: u32) -> Timestamp {
    Timestamp { year: 2024, month: 3, day: 9, hour: 14, minute: 5, second }
}

fn contents(entries: &[ClipboardEntry]) -> Vec<String> {
    let mut texts: Vec<String> = Vec::new();
    for entry in entries {
        texts.push(entry.content().clone());
    }
    texts
}

fn filled(max_entries: usize, texts: &[&str]) -> History {
    let mut history = History::new(max_entries);
    let mut second: u32 = 0;
    for text in texts {
        history.append_at(text.to_string(), at(second));
        second += 1;
    }
    history
}

#[test]
fn new_history_is_empty() {
    let history = History::new(7);
    assert_eq!(history.len(), 0);
    assert!(history.is_empty());
    assert_eq!(history.max_entries(), 7);
    assert!(history.snapshot().is_empty());
}

#[test]
fn append_below_the_bound_keeps_everything() {
    let history = filled(3, &["a", "b"]);
    assert_eq!(history.len(), 2);
    assert!(!history.is_empty());
    assert_eq!(contents(&history.snapshot()), vec!["a", "b"]);
}

#[test]
fn fourth_append_into_three_drops_the_oldest() {
    let history = filled(3, &["a", "b", "c", "d"]);
    assert_eq!(contents(&history.snapshot()), vec!["b", "c", "d"]);
}

#[test]
fn length_never_passes_the_bound() {
    let mut history = History::new(4);
    for i in 0..20u32 {
        history.append_at(format!("text {}", i), at(i));
        assert!(history.len() <= 4);
        let expected: usize = if i < 4 { i as usize + 1 } else { 4 };
        assert_eq!(history.len(), expected);
    }
}

#[test]
fn each_append_at_the_bound_drops_exactly_the_oldest() {
    let mut history = filled(3, &["a", "b", "c"]);
    for i in 0..5u32 {
        let before = contents(&history.snapshot());
        history.append_at(format!("n{}", i), at(10 + i));
        let after = contents(&history.snapshot());
        assert_eq!(after.len(), 3);
        assert_eq!(after[0], before[1]);
        assert_eq!(after[1], before[2]);
        assert_eq!(after[2], format!("n{}", i));
    }
}

#[test]
fn snapshot_is_oldest_first() {
    let history = filled(5, &["one", "two", "three", "four", "five", "six", "seven"]);
    let snapshot = history.snapshot();
    assert_eq!(contents(&snapshot), vec!["three", "four", "five", "six", "seven"]);
    for i in 1..snapshot.len() {
        assert!(snapshot[i - 1].timestamp().second < snapshot[i].timestamp().second);
    }
}

#[test]
fn snapshot_is_a_copy() {
    let mut history = filled(3, &["a", "b"]);
    let earlier = history.snapshot();
    history.append_at("c".to_string(), at(7));
    history.append_at("d".to_string(), at(8));
    assert_eq!(contents(&earlier), vec!["a", "b"]);
    assert_eq!(contents(&history.snapshot()), vec!["b", "c", "d"]);
}

#[test]
fn append_at_keeps_the_given_moment() {
    let mut history = History::new(2);
    let moment = Timestamp { year: 1999, month: 12, day: 31, hour: 23, minute: 59, second: 58 };
    history.append_at("eve".to_string(), moment);
    let snapshot = history.snapshot();
    assert_eq!(snapshot.len(), 1);
    assert_eq!(snapshot[0].content(), "eve");
    assert_eq!(snapshot[0].timestamp(), moment);
}

#[test]
fn append_stamps_with_a_moment_of_the_clock() {
    let mut history = History::new(2);
    history.append("now".to_string());
    let snapshot = history.snapshot();
    assert_eq!(snapshot.len(), 1);
    assert_eq!(snapshot[0].content(), "now");
    let moment = snapshot[0].timestamp();
    assert!(1 <= moment.month && moment.month <= 12);
    assert!(1 <= moment.day && moment.day <= 31);
    assert!(moment.hour <= 23);
    assert!(moment.minute <= 59);
    assert!(moment.second <= 59);
    assert!(moment.year >= 1970);
    assert!(moment.render().is_some());
}

#[test]
fn append_drops_the_oldest_too() {
    let mut history = History::new(2);
    history.append("a".to_string());
    history.append("b".to_string());
    history.append("c".to_string());
    assert_eq!(contents(&history.snapshot()), vec!["b", "c"]);
}

#[test]
fn a_bound_of_zero_keeps_nothing() {
    let mut history = History::new(0);
    history.append_at("a".to_string(), at(0));
    assert_eq!(history.len(), 0);
    history.append("b".to_string());
    assert!(history.is_empty());
    assert!(history.snapshot().is_empty());
    assert_eq!(history.recall(0), Err(HistoryError::NotFound));
}

#[test]
fn a_bound_of_one_keeps_the_newest() {
    let history = filled(1, &["a", "b", "c"]);
    assert_eq!(contents(&history.snapshot()), vec!["c"]);
    assert_eq!(history.recall(0), Ok("c".to_string()));
}

#[test]
fn the_same_text_may_be_stored_twice() {
    let history = filled(4, &["a", "a", "b", "a"]);
    assert_eq!(contents(&history.snapshot()), vec!["a", "a", "b", "a"]);
}

#[test]
fn recall_gives_the_text_at_each_position() {
    let history = filled(4, &["e0", "e1", "e2", "e3"]);
    assert_eq!(history.recall(0), Ok("e0".to_string()));
    assert_eq!(history.recall(1), Ok("e1".to_string()));
    assert_eq!(history.recall(2), Ok("e2".to_string()));
    assert_eq!(history.recall(3), Ok("e3".to_string()));
}

#[test]
fn recall_past_the_end_is_not_found() {
    let history = filled(4, &["e0", "e1", "e2", "e3"]);
    assert_eq!(history.recall(4), Err(HistoryError::NotFound));
    assert_eq!(history.recall(100), Err(HistoryError::NotFound));
    assert_eq!(history.recall(usize::MAX), Err(HistoryError::NotFound));
}

#[test]
fn recall_five_of_two_is_not_found() {
    let history = filled(10, &["first", "second"]);
    let before = contents(&history.snapshot());
    assert_eq!(history.recall(5), Err(HistoryError::NotFound));
    assert_eq!(contents(&history.snapshot()), before);
}

#[test]
fn recall_follows_eviction() {
    let mut history = filled(2, &["a", "b"]);
    assert_eq!(history.recall(0), Ok("a".to_string()));
    history.append_at("c".to_string(), at(5));
    assert_eq!(history.recall(0), Ok("b".to_string()));
    assert_eq!(history.recall(1), Ok("c".to_string()));
    assert_eq!(history.recall(2), Err(HistoryError::NotFound));
}

#[test]
fn recall_on_an_empty_history_is_not_found() {
    let history = History::new(3);
    assert_eq!(history.recall(0), Err(HistoryError::NotFound));
}

#[test]
fn recall_leaves_the_history_as_it_was() {
    let history = filled(3, &["a", "b", "c"]);
    let _ = history.recall(1);
    assert_eq!(contents(&history.snapshot()), vec!["a", "b", "c"]);
}

#[test]
fn the_monitor_keeps_a_hundred_entries() {
    assert_eq!(MAX_ENTRIES, 100);
    let mut history = History::new(MAX_ENTRIES);
    for i in 0..150u32 {
        history.append_at(format!("{}", i), at(i % 60));
    }
    assert_eq!(history.len(), 100);
    assert_eq!(history.recall(0), Ok("50".to_string()));
    assert_eq!(history.recall(99), Ok("149".to_string()));
}

#[test]
fn an_entry_can_be_cloned() {
    let history = filled(2, &["a"]);
    let snapshot = history.snapshot();
    let copy = snapshot[0].clone();
    assert_eq!(copy.content(), snapshot[0].content());
    assert_eq!(copy.timestamp(), snapshot[0].timestamp());
}
