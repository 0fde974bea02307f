use rocket_auth::error::Error;
use rocket_auth::session::{now, secs_since_epoch, AuthKey, SessionStore, YEAR_IN_SECS};
use std::time::{SystemTime, UNIX_EPOCH};
use std::time::Duration;

#[test]
fn new_store_has_no_sessions() {
    let store = SessionStore::new();
    assert_eq!(store.get(1), None);
    assert_eq!(store.get(-7), None);
}

#[test]
fn get_after_insert_returns_secret() {
    let mut store = SessionStore::new();
    assert!(store.insert(1, "secret-one".to_string()).is_ok());
    assert_eq!(store.get(1), Some("secret-one".to_string()));
    assert_eq!(store.get(2), None);
}

#[test]
fn insert_replaces_earlier_secret() {
    let mut store = SessionStore::new();
    store.insert(4, "first".to_string()).unwrap();
    store.insert(4, "second".to_string()).unwrap();
    assert_eq!(store.get(4), Some("second".to_string()));
}

#[test]
fn insert_keeps_other_users() {
    let mut store = SessionStore::new();
    store.insert(1, "a".to_string()).unwrap();
    store.insert(2, "b".to_string()).unwrap();
    assert_eq!(store.get(1), Some("a".to_string()));
    assert_eq!(store.get(2), Some("b".to_string()));
}

#[test]
fn remove_ends_one_session() {
    let mut store = SessionStore::new();
    store.insert(1, "a".to_string()).unwrap();
    store.insert(2, "b".to_string()).unwrap();
    assert!(store.remove(1).is_ok());
    assert_eq!(store.get(1), None);
    assert_eq!(store.get(2), Some("b".to_string()));
    assert!(store.remove(1).is_ok());
    assert_eq!(store.get(1), None);
}

#[test]
fn clear_all_ends_every_session() {
    let mut store = SessionStore::new();
    store.insert(1, "a".to_string()).unwrap();
    store.insert(2, "b".to_string()).unwrap();
    assert!(store.clear_all().is_ok());
    assert_eq!(store.get(1), None);
    assert_eq!(store.get(2), None);
}

#[test]
fn insert_for_then_get() {
    let mut store = SessionStore::new();
    assert!(store.insert_for(9, "timed".to_string(), Duration::from_secs(100)).is_ok());
    assert_eq!(store.get(9), Some("timed".to_string()));
}

#[test]
fn insert_for_uses_whole_seconds_as_expiry() {
    let mut store = SessionStore::new();
    store.insert_for(9, "timed".to_string(), Duration::from_millis(100_900)).unwrap();
    store.clear_expired_at(99);
    assert_eq!(store.get(9), Some("timed".to_string()));
    store.clear_expired_at(100);
    assert_eq!(store.get(9), None);
}

#[test]
fn clear_expired_at_keeps_exactly_live_sessions() {
    let mut store = SessionStore::new();
    store.insert_with_expiry(1, "old".to_string(), 10);
    store.insert_with_expiry(2, "edge".to_string(), 20);
    store.insert_with_expiry(3, "fresh".to_string(), 30);
    store.clear_expired_at(20);
    assert_eq!(store.get(1), None);
    assert_eq!(store.get(2), None);
    assert_eq!(store.get(3), Some("fresh".to_string()));
    store.clear_expired_at(20);
    assert_eq!(store.get(3), Some("fresh".to_string()));
}

#[test]
fn default_session_outlives_clearing_before_a_year() {
    let mut store = SessionStore::new();
    store.insert(5, "k".to_string()).unwrap();
    store.clear_expired_at(YEAR_IN_SECS as u64 - 1);
    assert_eq!(store.get(5), Some("k".to_string()));
    store.clear_expired_at(YEAR_IN_SECS as u64);
    assert_eq!(store.get(5), None);
}

#[test]
fn clear_expired_uses_the_clock() {
    let mut store = SessionStore::new();
    store.insert(1, "year".to_string()).unwrap();
    store.insert_with_expiry(2, "far".to_string(), u64::MAX);
    assert!(store.clear_expired().is_ok());
    // the clock reads far more than a year's seconds since the epoch
    assert_eq!(store.get(1), None);
    assert_eq!(store.get(2), Some("far".to_string()));
}

#[test]
fn now_reads_seconds_since_epoch() {
    let t = now().unwrap();
    assert!(t > 1_600_000_000);
    let u = now().unwrap();
    assert!(u >= t);
}

#[test]
fn year_in_secs_value() {
    assert_eq!(YEAR_IN_SECS, 31_536_000);
}

#[test]
fn auth_key_from_secret_lasts_a_year() {
    let key = AuthKey::from("s3cret".to_string());
    assert_eq!(key.expires, 31_536_000);
    assert_eq!(key.secret, "s3cret");
    assert!(key.is_live(31_535_999));
    assert!(!key.is_live(31_536_000));
}

#[test]
fn lookups_end_after_many_short_sessions() {
    let mut store = SessionStore::new();
    for id in 0..2000 {
        store.insert(id, format!("k{}", id)).unwrap();
        store.remove(id).unwrap();
    }
    assert_eq!(store.get(99_999), None);
    assert!(store.remove(99_999).is_ok());
    store.insert(7, "back".to_string()).unwrap();
    assert_eq!(store.get(7), Some("back".to_string()));
}

#[test]
fn lookups_end_after_many_expired_sessions() {
    let mut store = SessionStore::new();
    for id in 0..2000 {
        store.insert_with_expiry(id, "short".to_string(), 1);
        store.clear_expired_at(5);
    }
    assert_eq!(store.get(-1), None);
    assert!(store.remove(-1).is_ok());
}

#[test]
fn secs_since_epoch_rounds_down_to_whole_seconds() {
    assert_eq!(secs_since_epoch(Ok(Duration::from_millis(5_999))).unwrap(), 5);
    assert_eq!(secs_since_epoch(Ok(Duration::from_secs(1_700_000_000))).unwrap(), 1_700_000_000);
    assert_eq!(secs_since_epoch(Ok(Duration::ZERO)).unwrap(), 0);
}

#[test]
fn secs_since_epoch_passes_on_clock_error() {
    let err = UNIX_EPOCH.duration_since(SystemTime::now()).unwrap_err();
    assert!(matches!(secs_since_epoch(Err(err)), Err(Error::SystemTimeError(_))));
}
