use auth_store::decorators::{Locked, Shared};
use auth_store::error::Error;
use auth_store::memory::MemoryStore;
use auth_store::store::DBConnection;
use auth_store::user::User;

fn user(id: u128, email: &str, hash: &str, admin: bool) -> User {
    User { id, email: email.to_string(), password: hash.to_string(), is_admin: admin }
}

#[test]
fn scenario_create_get_conflict() {
    let mut store = MemoryStore::new();
    assert!(store.init().is_ok());
    assert!(store.create_user(1, "a@b.com", "H1", false).is_ok());
    let fetched = store.get_user_by_email("a@b.com").unwrap();
    assert_eq!(fetched, user(1, "a@b.com", "H1", false));
    assert_eq!(store.create_user(2, "a@b.com", "H2", true), Err(Error::EmailAlreadyExists));
}

#[test]
fn create_then_get_by_id_returns_inserted_fields() {
    let mut store = MemoryStore::new();
    let tuples = [
        (7u128, "one@example.com", "h-one", false),
        (9u128, "two@example.com", "h-two", true),
        (11u128, "three@example.com", "h-three", false),
    ];
    for (id, email, hash, admin) in tuples.iter() {
        assert!(store.create_user(*id, email, hash, *admin).is_ok());
    }
    for (id, email, hash, admin) in tuples.iter() {
        let got = store.get_user_by_id(*id).unwrap();
        assert_eq!(got, user(*id, email, hash, *admin));
    }
}

#[test]
fn conflict_on_every_adapter() {
    let mut plain = MemoryStore::new();
    assert!(plain.create_user(1, "x@y.z", "h", false).is_ok());
    assert_eq!(plain.create_user(2, "x@y.z", "h", false), Err(Error::EmailAlreadyExists));

    let mut shared = Shared::new(MemoryStore::new());
    assert!(shared.create_user(1, "x@y.z", "h", false).is_ok());
    assert_eq!(shared.create_user(2, "x@y.z", "h", false), Err(Error::EmailAlreadyExists));

    let mut locked = Locked::new(MemoryStore::new());
    assert!(locked.create_user(1, "x@y.z", "h", false).is_ok());
    assert_eq!(locked.create_user(2, "x@y.z", "h", false), Err(Error::EmailAlreadyExists));
}

#[test]
fn delete_then_get_is_not_found() {
    let mut store = MemoryStore::new();
    assert!(store.create_user(5, "gone@b.com", "h", false).is_ok());
    assert!(store.delete_user_by_id(5).is_ok());
    assert_eq!(store.get_user_by_id(5), Err(Error::UserNotFoundError));
}

#[test]
fn delete_missing_is_silent_noop() {
    let mut store = MemoryStore::new();
    assert!(store.delete_user_by_id(12345).is_ok());
    assert!(store.delete_user_by_email("nobody@b.com").is_ok());
}

#[test]
fn delete_by_email_removes_exactly_that_record() {
    let mut store = MemoryStore::new();
    assert!(store.create_user(1, "keep@b.com", "h1", false).is_ok());
    assert!(store.create_user(2, "drop@b.com", "h2", false).is_ok());
    assert!(store.delete_user_by_email("drop@b.com").is_ok());
    assert_eq!(store.get_user_by_email("drop@b.com"), Err(Error::UserNotFoundError));
    assert_eq!(store.get_user_by_email("keep@b.com").unwrap(), user(1, "keep@b.com", "h1", false));
}

#[test]
fn update_changes_exactly_the_targeted_record() {
    let mut store = MemoryStore::new();
    assert!(store.create_user(1, "first@b.com", "h1", false).is_ok());
    assert!(store.create_user(2, "second@b.com", "h2", true).is_ok());
    let changed = user(1, "renamed@b.com", "h1-new", true);
    assert!(store.update_user(&changed).is_ok());
    assert_eq!(store.get_user_by_id(1).unwrap(), changed);
    assert_eq!(store.get_user_by_id(2).unwrap(), user(2, "second@b.com", "h2", true));
}

#[test]
fn update_missing_id_is_not_found() {
    let mut store = MemoryStore::new();
    assert_eq!(store.update_user(&user(1, "a@b.com", "h", false)), Err(Error::UserNotFoundError));
}

#[test]
fn update_to_taken_email_is_conflict() {
    let mut store = MemoryStore::new();
    assert!(store.create_user(1, "first@b.com", "h1", false).is_ok());
    assert!(store.create_user(2, "second@b.com", "h2", false).is_ok());
    assert_eq!(
        store.update_user(&user(2, "first@b.com", "h2", false)),
        Err(Error::EmailAlreadyExists)
    );
    assert_eq!(store.get_user_by_id(2).unwrap(), user(2, "second@b.com", "h2", false));
}

#[test]
fn update_keeping_own_email_succeeds() {
    let mut store = MemoryStore::new();
    assert!(store.create_user(1, "same@b.com", "h1", false).is_ok());
    let changed = user(1, "same@b.com", "h-new", true);
    assert!(store.update_user(&changed).is_ok());
    assert_eq!(store.get_user_by_id(1).unwrap(), changed);
}

#[test]
fn init_twice_on_empty_backend_errors_never_and_keeps_zero_rows() {
    let mut store = MemoryStore::new();
    assert!(store.init().is_ok());
    assert!(store.init().is_ok());
    assert_eq!(store.get_user_by_id(1), Err(Error::UserNotFoundError));
    assert_eq!(store.get_user_by_email("a@b.com"), Err(Error::UserNotFoundError));
}

#[test]
fn init_does_not_alter_existing_data() {
    let mut store = MemoryStore::new();
    assert!(store.create_user(3, "kept@b.com", "h", true).is_ok());
    assert!(store.init().is_ok());
    assert_eq!(store.get_user_by_id(3).unwrap(), user(3, "kept@b.com", "h", true));
}

#[test]
fn decorators_pass_results_through() {
    let mut shared = Shared::new(MemoryStore::new());
    assert!(shared.init().is_ok());
    assert!(shared.create_user(1, "s@b.com", "h", false).is_ok());
    assert_eq!(shared.get_user_by_id(1).unwrap(), user(1, "s@b.com", "h", false));
    assert!(shared.delete_user_by_email("s@b.com").is_ok());
    assert_eq!(shared.get_user_by_id(1), Err(Error::UserNotFoundError));

    let mut locked = Locked::new(MemoryStore::new());
    assert!(locked.init().is_ok());
    assert!(locked.create_user(1, "l@b.com", "h", false).is_ok());
    assert_eq!(locked.get_user_by_email("l@b.com").unwrap(), user(1, "l@b.com", "h", false));
}

#[test]
fn corrupted_lock_refuses_every_operation() {
    let mut locked = Locked::new(MemoryStore::new());
    assert!(locked.create_user(1, "a@b.com", "h", false).is_ok());
    locked.mark_corrupted();
    assert_eq!(locked.init(), Err(Error::MutexPoisonError));
    assert_eq!(locked.create_user(2, "b@b.com", "h", false), Err(Error::MutexPoisonError));
    assert_eq!(locked.update_user(&user(1, "a@b.com", "h", true)), Err(Error::MutexPoisonError));
    assert_eq!(locked.delete_user_by_id(1), Err(Error::MutexPoisonError));
    assert_eq!(locked.delete_user_by_email("a@b.com"), Err(Error::MutexPoisonError));
    assert_eq!(locked.get_user_by_id(1), Err(Error::MutexPoisonError));
    assert_eq!(locked.get_user_by_email("a@b.com"), Err(Error::MutexPoisonError));
}
