use git_shade::sync::{detect_sync_state, FileMetadata, SyncState};
use git_shade::time::Timestamp;

const T0: i64 = 1_700_000_000;

fn at(secs: i64) -> Timestamp {
    Timestamp::new(secs, 0).unwrap()
}

fn file(path: &str, secs: i64, size: u64) -> FileMetadata {
    FileMetadata { path: path.to_string(), modified: at(secs), size }
}

#[test]
fn test_detect_sync_state_in_sync() {
    let metadata = file("test.txt", T0, 7);
    let last_pull = at(T0 - 10);
    let state = detect_sync_state(Some(&metadata), Some(&metadata), Some(last_pull));
    assert_eq!(state, SyncState::InSync);
}

#[test]
fn test_detect_sync_state_local_only() {
    let metadata = file("test.txt", T0, 7);
    let state = detect_sync_state(Some(&metadata), None, None);
    assert_eq!(state, SyncState::LocalOnly);
}

#[test]
fn test_detect_sync_state_remote_only() {
    let metadata = file("test.txt", T0, 7);
    let state = detect_sync_state(None, Some(&metadata), None);
    assert_eq!(state, SyncState::RemoteOnly);
}

#[test]
fn test_detect_sync_state_conflict() {
    let last_pull = Timestamp::new(T0, 10_000_000).unwrap();
    let remote_meta = FileMetadata {
        path: "remote.txt".to_string(),
        modified: Timestamp::new(T0, 20_000_000).unwrap(),
        size: 6,
    };
    let local_meta = FileMetadata {
        path: "local.txt".to_string(),
        modified: Timestamp::new(T0, 30_000_000).unwrap(),
        size: 14,
    };
    let state = detect_sync_state(Some(&local_meta), Some(&remote_meta), Some(last_pull));
    assert_eq!(state, SyncState::Conflict);
}

#[test]
fn test_detect_sync_state_local_ahead() {
    let remote_meta = file("remote.txt", T0, 7);
    let last_pull = Timestamp::new(T0, 1_000_000).unwrap();
    let local_meta = FileMetadata {
        path: "local.txt".to_string(),
        modified: Timestamp::new(T0, 11_000_000).unwrap(),
        size: 8,
    };
    let state = detect_sync_state(Some(&local_meta), Some(&remote_meta), Some(last_pull));
    assert_eq!(state, SyncState::LocalAhead);
}

#[test]
fn test_detect_sync_state_remote_ahead() {
    let local_meta = file("local.txt", T0, 7);
    let last_pull = Timestamp::new(T0, 1_000_000).unwrap();
    let remote_meta = FileMetadata {
        path: "remote.txt".to_string(),
        modified: Timestamp::new(T0, 11_000_000).unwrap(),
        size: 8,
    };
    let state = detect_sync_state(Some(&local_meta), Some(&remote_meta), Some(last_pull));
    assert_eq!(state, SyncState::RemoteAhead);
}

#[test]
fn both_missing_is_in_sync_for_any_watermark() {
    assert_eq!(detect_sync_state(None, None, None), SyncState::InSync);
    assert_eq!(detect_sync_state(None, None, Some(at(T0))), SyncState::InSync);
    let only = file("a", T0 + 100, 1);
    assert_eq!(detect_sync_state(Some(&only), None, Some(at(T0))), SyncState::LocalOnly);
    assert_eq!(detect_sync_state(None, Some(&only), Some(at(T0))), SyncState::RemoteOnly);
}

#[test]
fn equal_signature_is_in_sync_even_when_both_are_newer() {
    let local = file("project/a", T0 + 50, 12);
    let remote = file("shade/a", T0 + 50, 12);
    assert_eq!(detect_sync_state(Some(&local), Some(&remote), Some(at(T0))), SyncState::InSync);
    assert_eq!(detect_sync_state(Some(&local), Some(&remote), None), SyncState::InSync);
}

#[test]
fn same_time_but_other_size_is_not_equal() {
    let local = file("a", T0 + 50, 12);
    let remote = file("a", T0 + 50, 13);
    assert_eq!(detect_sync_state(Some(&local), Some(&remote), Some(at(T0))), SyncState::Conflict);
    assert_eq!(detect_sync_state(Some(&local), Some(&remote), None), SyncState::RemoteAhead);
}

#[test]
fn differing_copies_follow_the_watermark() {
    let w = at(T0);
    let old_small = file("a", T0 - 5, 1);
    let old_large = file("a", T0 - 9, 2);
    let new_small = file("a", T0 + 3, 1);
    let new_large = file("a", T0 + 7, 2);
    assert_eq!(detect_sync_state(Some(&new_small), Some(&old_large), Some(w)), SyncState::LocalAhead);
    assert_eq!(detect_sync_state(Some(&old_small), Some(&new_large), Some(w)), SyncState::RemoteAhead);
    assert_eq!(detect_sync_state(Some(&new_small), Some(&new_large), Some(w)), SyncState::Conflict);
    assert_eq!(detect_sync_state(Some(&old_small), Some(&old_large), Some(w)), SyncState::InSync);
}

#[test]
fn modified_exactly_at_the_watermark_counts_as_unchanged() {
    let w = at(T0);
    let local = file("a", T0, 1);
    let remote = file("a", T0 + 1, 2);
    assert_eq!(detect_sync_state(Some(&local), Some(&remote), Some(w)), SyncState::RemoteAhead);
    let remote_at = file("a", T0, 2);
    assert_eq!(detect_sync_state(Some(&local), Some(&remote_at), Some(w)), SyncState::InSync);
}

#[test]
fn nanoseconds_break_ties_between_equal_seconds() {
    let w = Timestamp::new(T0, 500).unwrap();
    let local = FileMetadata { path: "a".to_string(), modified: Timestamp::new(T0, 501).unwrap(), size: 1 };
    let remote = FileMetadata { path: "a".to_string(), modified: Timestamp::new(T0, 499).unwrap(), size: 2 };
    assert_eq!(detect_sync_state(Some(&local), Some(&remote), Some(w)), SyncState::LocalAhead);
}

#[test]
fn differing_copies_without_watermark_are_remote_ahead() {
    let local = file("a", T0 + 9, 1);
    let remote = file("a", T0 - 9, 2);
    assert_eq!(detect_sync_state(Some(&local), Some(&remote), None), SyncState::RemoteAhead);
}

#[test]
fn timestamp_rejects_what_chrono_cannot_represent() {
    assert!(Timestamp::new(0, 0).is_some());
    assert!(Timestamp::new(i64::MAX, 0).is_none());
    assert!(Timestamp::new(i64::MIN, 0).is_none());
    assert!(Timestamp::new(0, 2_000_000_000).is_none());
    assert!(Timestamp::new(0, 1_500_000_000).is_none());
    assert!(Timestamp::new(59, 1_500_000_000).is_some());
}

#[test]
fn timestamp_keeps_its_parts_and_orders_by_them() {
    let a = Timestamp::new(T0, 7).unwrap();
    let b = Timestamp::new(T0 + 1, 0).unwrap();
    assert_eq!(a.seconds(), T0);
    assert_eq!(a.subsec_nanos(), 7);
    assert!(b.is_after(&a));
    assert!(!a.is_after(&b));
    assert!(!a.is_after(&a));
    assert_eq!(a.latest(b), b);
    assert_eq!(b.latest(a), b);
}

#[test]
fn timestamp_formats_in_utc() {
    assert_eq!(Timestamp::new(0, 0).unwrap().format(), "1970-01-01 00:00:00");
    assert_eq!(Timestamp::new(1_431_648_000, 999).unwrap().format(), "2015-05-15 00:00:00");
    assert_eq!(Timestamp::new(T0, 0).unwrap().format(), "2023-11-14 22:13:20");
}

#[test]
fn now_is_a_recent_instant() {
    let now = Timestamp::now();
    assert!(now.is_after(&at(T0)));
}

#[test]
fn now_is_an_instant_like_any_other() {
    let now = Timestamp::now();
    assert_eq!(Timestamp::new(now.seconds(), now.subsec_nanos()), Some(now));
    assert_eq!(now.format().len(), 19);
}
