use auth_store::session::{id_bytes, SessionManager, SessionTable, YEAR_IN_SECS};

#[test]
fn insert_for_then_immediate_get_returns_token() {
    let mut sessions = SessionTable::new();
    let now: u64 = 100;
    assert!(sessions.insert_for(1, "tok".to_string(), 2, now).is_ok());
    assert_eq!(sessions.get(1, now), Some("tok".to_string()));
    assert_eq!(sessions.get(1, now + 1), Some("tok".to_string()));
}

#[test]
fn get_after_ttl_elapsed_is_empty() {
    let mut sessions = SessionTable::new();
    let now: u64 = 100;
    assert!(sessions.insert_for(1, "tok".to_string(), 2, now).is_ok());
    assert_eq!(sessions.get(1, now + 2), None);
    assert_eq!(sessions.get(1, now + 100), None);
}

#[test]
fn default_ttl_is_one_year() {
    assert_eq!(YEAR_IN_SECS, 31_536_000);
    let mut sessions = SessionTable::new();
    let now: u64 = 1_000;
    assert!(sessions.insert(7, "t".to_string(), now).is_ok());
    assert_eq!(sessions.get(7, now + YEAR_IN_SECS - 1), Some("t".to_string()));
    assert_eq!(sessions.get(7, now + YEAR_IN_SECS), None);
}

#[test]
fn insert_replaces_existing_entry() {
    let mut sessions = SessionTable::new();
    assert!(sessions.insert_for(1, "old".to_string(), 10, 0).is_ok());
    assert!(sessions.insert_for(1, "new".to_string(), 10, 5).is_ok());
    assert_eq!(sessions.get(1, 5), Some("new".to_string()));
}

#[test]
fn remove_deletes_and_tolerates_absence() {
    let mut sessions = SessionTable::new();
    assert!(sessions.insert_for(1, "tok".to_string(), 10, 0).is_ok());
    assert!(sessions.remove(1).is_ok());
    assert_eq!(sessions.get(1, 0), None);
    assert!(sessions.remove(1).is_ok());
}

#[test]
fn clear_all_drops_every_entry() {
    let mut sessions = SessionTable::new();
    assert!(sessions.insert_for(1, "a".to_string(), 10, 0).is_ok());
    assert!(sessions.insert_for(2, "b".to_string(), 10, 0).is_ok());
    assert!(sessions.clear_all().is_ok());
    assert_eq!(sessions.get(1, 0), None);
    assert_eq!(sessions.get(2, 0), None);
}

#[test]
fn clear_expired_is_a_noop() {
    let mut sessions = SessionTable::new();
    assert!(sessions.insert_for(1, "a".to_string(), 10, 0).is_ok());
    assert!(sessions.clear_expired().is_ok());
    assert_eq!(sessions.get(1, 0), Some("a".to_string()));
}

#[test]
fn missing_key_reads_empty() {
    let sessions = SessionTable::new();
    assert_eq!(sessions.get(42, 0), None);
}

#[test]
fn key_layout_matches_uuid_raw_bytes() {
    let raw: u128 = 0x0123_4567_89ab_cdef_0011_2233_4455_6677;
    let bytes = id_bytes(raw);
    let id = uuid::Uuid::from_u128(raw);
    assert_eq!(bytes.as_slice(), id.as_bytes().as_slice());
    assert_eq!(bytes.len(), 16);
}
