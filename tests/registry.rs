use skillsync::registry::{RegistryContract, RegistryError};

const ADMIN: u64 = 1;

fn registry() -> RegistryContract {
    let mut r = RegistryContract::new();
    r.init(ADMIN).unwrap();
    r
}

#[test]
fn test_set_and_get_pointer() {
    let mut r = registry();
    let event = r.set(ADMIN, "escrow_v2".to_string(), 42).unwrap();
    assert_eq!((event.name.as_str(), event.addr), ("escrow_v2", 42));
    assert_eq!(r.get("escrow_v2"), Ok(42));
}

#[test]
fn test_update_pointer_keeps_single_entry() {
    let mut r = registry();
    r.set(ADMIN, "escrow".to_string(), 10).unwrap();
    r.set(ADMIN, "escrow".to_string(), 20).unwrap();
    assert_eq!(r.get("escrow"), Ok(20));
    let entries = r.all();
    assert_eq!(entries.len(), 1);
    assert_eq!(entries[0], ("escrow".to_string(), 20));
}

#[test]
fn test_all_returns_multiple_entries() {
    let mut r = registry();
    r.set(ADMIN, "escrow".to_string(), 10).unwrap();
    r.set(ADMIN, "refund".to_string(), 11).unwrap();
    let entries = r.all();
    assert_eq!(entries.len(), 2);
    assert_eq!(entries[0], ("escrow".to_string(), 10));
    assert_eq!(entries[1], ("refund".to_string(), 11));
}

#[test]
fn set_by_another_account_is_refused() {
    let mut r = registry();
    assert!(matches!(r.set(7, "escrow".to_string(), 10), Err(RegistryError::Unauthorized)));
    assert_eq!(r.all().len(), 0);
    let mut fresh = RegistryContract::new();
    assert!(matches!(fresh.set(ADMIN, "x".to_string(), 1), Err(RegistryError::NotInitialized)));
    assert_eq!(fresh.get_admin(), Err(RegistryError::NotInitialized));
    assert_eq!(r.init(ADMIN), Err(RegistryError::AlreadyInitialized));
}

#[test]
fn test_get_missing_returns_error() {
    let r = registry();
    assert_eq!(r.get("missing"), Err(RegistryError::NotFound));
}
