use tauri_webdriver::registry::{RegistryError, SessionRegistry};

#[test]
fn creates_and_looks_up_sessions() {
    let mut reg = SessionRegistry::new();
    assert_eq!(reg.create(1), Ok(()));
    let entry = reg.lookup(1).expect("the session was just created");
    assert_eq!(entry.client_id, 1);
    assert!(entry.native_id.is_none());
    assert!(entry.plugin_id.is_none());
}

#[test]
fn rejects_duplicate_creation() {
    let mut reg = SessionRegistry::new();
    assert_eq!(reg.create(1), Ok(()));
    assert_eq!(reg.create(1), Err(RegistryError::DuplicateSession));
}

#[test]
fn attaches_each_remote_end_exactly_once() {
    let mut reg = SessionRegistry::new();
    assert_eq!(reg.create(1), Ok(()));
    assert_eq!(reg.attach_native(1, "N1".to_string()), Ok(()));
    assert_eq!(
        reg.attach_native(1, "N2".to_string()),
        Err(RegistryError::AlreadyAttached)
    );
    assert_eq!(reg.attach_plugin(1, "P1".to_string()), Ok(()));
    assert_eq!(
        reg.attach_plugin(1, "P2".to_string()),
        Err(RegistryError::AlreadyAttached)
    );
    let entry = reg.lookup(1).expect("still registered");
    assert_eq!(entry.native_id.as_deref(), Some("N1"));
    assert_eq!(entry.plugin_id.as_deref(), Some("P1"));
}

#[test]
fn attaching_to_an_unknown_session_fails() {
    let mut reg = SessionRegistry::new();
    assert_eq!(
        reg.attach_native(9, "N".to_string()),
        Err(RegistryError::UnknownSession)
    );
    assert_eq!(
        reg.attach_plugin(9, "P".to_string()),
        Err(RegistryError::UnknownSession)
    );
}

#[test]
fn lookup_of_an_unknown_session_fails() {
    let reg = SessionRegistry::new();
    match reg.lookup(42) {
        Err(RegistryError::UnknownSession) => {},
        _ => panic!("an empty registry knows no session"),
    }
}

#[test]
fn removal_is_safe_to_repeat() {
    let mut reg = SessionRegistry::new();
    assert_eq!(reg.create(5), Ok(()));
    assert!(reg.contains(5));
    assert!(reg.remove(5));
    assert!(!reg.contains(5));
    assert!(!reg.remove(5));
    assert!(!reg.contains(5));
}

#[test]
fn minted_ids_never_collide_with_open_sessions() {
    let mut reg = SessionRegistry::new();
    let a = reg.mint_client_id().expect("id space is fresh");
    assert_eq!(reg.create(a), Ok(()));
    let b = reg.mint_client_id().expect("id space is fresh");
    assert_ne!(a, b);
    assert!(!reg.contains(b));
    assert_eq!(reg.create(b), Ok(()));
    let c = reg.mint_client_id().expect("id space is fresh");
    assert!(!reg.contains(c));
}
