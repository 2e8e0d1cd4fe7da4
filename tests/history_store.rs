use voice_history::history::{ConfigError, RetentionPolicy};
use voice_history::retention::Eviction;
use voice_history::store::{HistoryEntry, HistoryError, HistoryStore};

const DAY: i64 = 86400;

fn store_with_three() -> (HistoryStore, i64, i64, i64) {
    let mut s = HistoryStore::new("/data/recordings".to_string());
    let a = s.add_entry("alpha".to_string(), Some("a.wav".to_string()), 1000);
    let b = s.add_entry("beta".to_string(), Some("b.wav".to_string()), 2000);
    let c = s.add_entry("gamma".to_string(), Some("c.wav".to_string()), 3000);
    (s, a, b, c)
}

fn ids(s: &HistoryStore) -> Vec<i64> {
    s.list().iter().map(|e| e.id).collect()
}

#[test]
fn ids_are_fresh_and_list_is_newest_first() {
    let (s, a, b, c) = store_with_three();
    assert!(a < b && b < c);
    assert_eq!(ids(&s), vec![c, b, a]);
    let times: Vec<i64> = s.list().iter().map(|e| e.timestamp).collect();
    assert_eq!(times, vec![3000, 2000, 1000]);
    assert_eq!(s.list()[0].text, "gamma");
    assert!(!s.list()[0].saved);
}

#[test]
fn count_limit_evicts_oldest_unsaved() {
    let (mut s, a, b, c) = store_with_three();
    let plan = s.cleanup_plan(RetentionPolicy::PreserveLimit, 2, 4000);
    assert_eq!(plan, vec![Eviction { id: a, file_name: Some("a.wav".to_string()), remove_entry: true }]);
    s.cleanup_expired(RetentionPolicy::PreserveLimit, 2, 4000, &vec![]);
    assert_eq!(ids(&s), vec![c, b]);
    assert_eq!(s.list()[1].file_name, Some("b.wav".to_string()));
}

#[test]
fn cleanup_twice_changes_nothing_more() {
    let mut s = HistoryStore::new("/r".to_string());
    for k in 0..5i64 {
        s.add_entry(format!("t{}", k), Some(format!("{}.wav", k)), k * DAY);
    }
    let now = 10 * DAY;
    s.cleanup_expired(RetentionPolicy::Days3, 3, now, &vec![]);
    let first = s.list();
    assert_eq!(first.len(), 3);
    assert!(s.cleanup_plan(RetentionPolicy::Days3, 3, now).is_empty());
    s.cleanup_expired(RetentionPolicy::Days3, 3, now, &vec![]);
    assert_eq!(s.list(), first);
}

#[test]
fn saved_entry_is_never_evicted() {
    let mut s = HistoryStore::new("/r".to_string());
    let old = s.add_entry("keep".to_string(), Some("keep.wav".to_string()), 0);
    s.toggle_saved(old).unwrap();
    s.add_entry("x".to_string(), Some("x.wav".to_string()), 0);
    let plan = s.cleanup_plan(RetentionPolicy::Days3, 0, 100 * DAY);
    assert!(plan.iter().all(|e| e.id != old));
    s.cleanup_expired(RetentionPolicy::Days3, 0, 100 * DAY, &vec![]);
    let l = s.list();
    assert_eq!(l.len(), 1);
    assert_eq!(l[0].id, old);
    assert_eq!(l[0].file_name, Some("keep.wav".to_string()));
}

#[test]
fn aged_entry_within_limit_loses_only_audio() {
    let mut s = HistoryStore::new("/r".to_string());
    let id = s.add_entry("old".to_string(), Some("old.wav".to_string()), 0);
    let plan = s.cleanup_plan(RetentionPolicy::Weeks2, 10, 15 * DAY);
    assert_eq!(plan, vec![Eviction { id, file_name: Some("old.wav".to_string()), remove_entry: false }]);
    s.cleanup_expired(RetentionPolicy::Weeks2, 10, 15 * DAY, &vec![]);
    let l = s.list();
    assert_eq!(l.len(), 1);
    assert_eq!(l[0].text, "old");
    assert_eq!(l[0].file_name, None);
}

#[test]
fn young_entry_keeps_audio_and_never_policy_ignores_age() {
    let mut s = HistoryStore::new("/r".to_string());
    s.add_entry("new".to_string(), Some("n.wav".to_string()), 0);
    assert!(s.cleanup_plan(RetentionPolicy::Days3, 10, 3 * DAY).is_empty());
    assert_eq!(s.cleanup_plan(RetentionPolicy::Days3, 10, 3 * DAY + 1).len(), 1);
    assert!(s.cleanup_plan(RetentionPolicy::Never, 10, 1000 * DAY).is_empty());
    assert!(s.cleanup_plan(RetentionPolicy::Months3, 10, 90 * DAY).is_empty());
}

#[test]
fn failed_removal_during_cleanup_keeps_entry() {
    let (mut s, a, b, c) = store_with_three();
    s.cleanup_expired(RetentionPolicy::PreserveLimit, 1, 4000, &vec![a]);
    assert_eq!(ids(&s), vec![c, a]);
    assert!(s.list().iter().all(|e| e.id != b));
    assert_eq!(s.list()[1].file_name, Some("a.wav".to_string()));
}

#[test]
fn delete_with_failed_file_removal_keeps_record() {
    let (mut s, a, _b, _c) = store_with_three();
    assert_eq!(s.audio_of(a), Ok(Some("a.wav".to_string())));
    let r = s.delete(a, Err("permission denied".to_string()));
    assert_eq!(r, Err(HistoryError::StorageIo(a, "permission denied".to_string())));
    assert_eq!(s.list().len(), 3);
    assert_eq!(s.audio_of(a), Ok(Some("a.wav".to_string())));
}

#[test]
fn delete_removes_record() {
    let (mut s, a, b, c) = store_with_three();
    assert_eq!(s.delete(b, Ok(())), Ok(()));
    assert_eq!(ids(&s), vec![c, a]);
    let d = s.add_entry("delta".to_string(), None, 5000);
    assert!(d > c);
}

#[test]
fn unknown_id_operations_fail_with_not_found() {
    let (mut s, _a, _b, _c) = store_with_three();
    assert_eq!(s.toggle_saved(99), Err(HistoryError::NotFound(99)));
    assert_eq!(s.update_text(99, "x".to_string()), Err(HistoryError::NotFound(99)));
    assert_eq!(s.delete(99, Ok(())), Err(HistoryError::NotFound(99)));
    assert_eq!(s.audio_of(99), Err(HistoryError::NotFound(99)));
    assert_eq!(s.list().len(), 3);
}

#[test]
fn toggle_and_update_text() {
    let (mut s, a, _b, _c) = store_with_three();
    s.toggle_saved(a).unwrap();
    assert!(s.list()[2].saved);
    s.toggle_saved(a).unwrap();
    assert!(!s.list()[2].saved);
    s.update_text(a, "edited".to_string()).unwrap();
    assert_eq!(s.list()[2].text, "edited");
    assert_eq!(s.list()[2].timestamp, 1000);
}

#[test]
fn audio_path_joins_directory_and_name() {
    let s = HistoryStore::new("/data/recordings".to_string());
    assert_eq!(s.resolve_audio_path("a.wav"), "/data/recordings/a.wav");
    assert_eq!(s.resolve_audio_path("/abs/b.wav"), "/abs/b.wav");
    let slash = HistoryStore::new("/data/recordings/".to_string());
    assert_eq!(slash.resolve_audio_path("a.wav"), "/data/recordings/a.wav");
    let empty = HistoryStore::new(String::new());
    assert_eq!(empty.resolve_audio_path("a.wav"), "a.wav");
    let joined = std::path::Path::new("/data/recordings").join("a.wav");
    assert_eq!(s.resolve_audio_path("a.wav"), joined.to_str().unwrap());
}

#[test]
fn retention_tokens() {
    assert_eq!(RetentionPolicy::from_token(&"never".to_string()), Ok(RetentionPolicy::Never));
    assert_eq!(RetentionPolicy::from_token(&"preserve_limit".to_string()), Ok(RetentionPolicy::PreserveLimit));
    assert_eq!(RetentionPolicy::from_token(&"days3".to_string()), Ok(RetentionPolicy::Days3));
    assert_eq!(RetentionPolicy::from_token(&"weeks2".to_string()), Ok(RetentionPolicy::Weeks2));
    assert_eq!(RetentionPolicy::from_token(&"months3".to_string()), Ok(RetentionPolicy::Months3));
    assert_eq!(
        RetentionPolicy::from_token(&"Days3".to_string()),
        Err(ConfigError::InvalidRetentionPeriod("Days3".to_string()))
    );
    assert_eq!(RetentionPolicy::Weeks2.window_seconds(), Some(14 * DAY));
    for p in [
        RetentionPolicy::Never,
        RetentionPolicy::PreserveLimit,
        RetentionPolicy::Days3,
        RetentionPolicy::Weeks2,
        RetentionPolicy::Months3,
    ] {
        assert_eq!(RetentionPolicy::from_token(&p.token()), Ok(p));
    }
    assert_eq!(RetentionPolicy::Days3.token(), "days3");
    assert_eq!(RetentionPolicy::PreserveLimit.window_seconds(), None);
}

#[test]
fn persisted_entries_load_in_id_order() {
    let entry = |id: i64| HistoryEntry {
        id,
        text: format!("e{}", id),
        file_name: None,
        timestamp: id * 10,
        saved: false,
    };
    let mut s = HistoryStore::from_entries("/r".to_string(), vec![entry(3), entry(7)]).unwrap();
    assert_eq!(ids(&s), vec![7, 3]);
    assert_eq!(s.add_entry("n".to_string(), None, 100), 8);
    assert!(HistoryStore::from_entries("/r".to_string(), vec![entry(7), entry(3)]).is_none());
    assert!(HistoryStore::from_entries("/r".to_string(), vec![entry(3), entry(3)]).is_none());
    assert!(HistoryStore::from_entries("/r".to_string(), vec![entry(i64::MAX)]).is_none());
    let mut late_first = entry(3);
    late_first.timestamp = 500;
    assert!(HistoryStore::from_entries("/r".to_string(), vec![late_first, entry(7)]).is_none());
    let mut empty = HistoryStore::from_entries("/r".to_string(), vec![]).unwrap();
    assert_eq!(empty.add_entry("first".to_string(), None, 0), 1);
}
