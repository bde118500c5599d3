use std::time::Duration;
use user_auth::session::{MemorySessions, SessionManager};

#[test]
fn a_new_store_knows_no_session() {
    let store = MemorySessions::new();
    assert_eq!(store.get(1), None);
    assert_eq!(store.ttl(1), None);
}

#[test]
fn insert_records_a_session_without_expiry() {
    let mut store = MemorySessions::new();
    assert_eq!(store.insert(4, "key-of-4".to_string()), Ok(()));
    assert_eq!(store.get(4), Some("key-of-4".to_string()));
    assert_eq!(store.ttl(4), Some(None));
    assert_eq!(store.get(5), None);
}

#[test]
fn insert_for_records_the_time_to_live() {
    let mut store = MemorySessions::new();
    let hour = Duration::from_secs(3600);
    assert_eq!(store.insert_for(4, "key-of-4".to_string(), hour), Ok(()));
    assert_eq!(store.get(4), Some("key-of-4".to_string()));
    assert_eq!(store.ttl(4), Some(Some(hour)));
}

#[test]
fn a_later_session_replaces_the_earlier_one() {
    let mut store = MemorySessions::new();
    store.insert_for(4, "first".to_string(), Duration::from_secs(5)).unwrap();
    store.insert(4, "second".to_string()).unwrap();
    assert_eq!(store.get(4), Some("second".to_string()));
    assert_eq!(store.ttl(4), Some(None));
}

#[test]
fn remove_forgets_one_session_only() {
    let mut store = MemorySessions::new();
    store.insert(4, "four".to_string()).unwrap();
    store.insert(5, "five".to_string()).unwrap();
    assert_eq!(store.remove(4), Ok(()));
    assert_eq!(store.get(4), None);
    assert_eq!(store.get(5), Some("five".to_string()));
    assert_eq!(store.remove(4), Ok(()));
    assert_eq!(store.get(5), Some("five".to_string()));
}
