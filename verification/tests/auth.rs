use gitr::auth::CredentialStore;
use gitr::auth::MemoryStore;

#[test]
fn test_memory_store_crud() {
    let mut store = MemoryStore::new();
    assert_eq!(store.get("test-key").unwrap(), None);
    store.store("test-key", "secret-token").unwrap();
    assert_eq!(store.get("test-key").unwrap(), Some("secret-token".to_string()));
    store.delete("test-key").unwrap();
    assert_eq!(store.get("test-key").unwrap(), None);
}

#[test]
fn test_memory_store_delete_nonexistent() {
    let mut store = MemoryStore::new();
    store.delete("no-such-key").unwrap();
}

#[test]
fn test_auth_memory_store() {
    let mut store = MemoryStore::new();
    assert_eq!(store.get("test").unwrap(), None);
    store.store("test", "token123").unwrap();
    assert_eq!(store.get("test").unwrap(), Some("token123".to_string()));
    store.delete("test").unwrap();
    assert_eq!(store.get("test").unwrap(), None);
    let _ = &store as &dyn CredentialStore;
}

#[test]
fn test_memory_store_overwrite_and_isolation() {
    let mut store = MemoryStore::new();
    store.store("a", "one").unwrap();
    store.store("b", "two").unwrap();
    store.store("a", "three").unwrap();
    assert_eq!(store.get("a").unwrap(), Some("three".to_string()));
    assert_eq!(store.get("b").unwrap(), Some("two".to_string()));
    store.delete("a").unwrap();
    assert_eq!(store.get("a").unwrap(), None);
    assert_eq!(store.get("b").unwrap(), Some("two".to_string()));
}
