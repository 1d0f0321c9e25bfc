use rik::storage::Storage;

#[test]
fn test_storage_insert() {
    let mut storage = Storage::new();
    storage.update("test", "test");
    assert_eq!(storage.get("test"), Some(&"test"));
}

#[test]
fn test_storage_get() {
    let mut storage = Storage::new();
    storage.update("test", "test");
    assert_eq!(storage.get("test"), Some(&"test"));
}

#[test]
fn test_storage_get_mut() {
    let mut storage = Storage::new();
    storage.update("test", "test");
    assert_eq!(storage.get_mut("test"), Some(&mut "test"));
}

#[test]
fn test_storage_delete() {
    let mut storage = Storage::new();
    storage.update("test", "test");
    storage.delete("test");
    assert_eq!(storage.get("test"), None);
}

#[test]
fn storage_update_replaces_value_in_place() {
    let mut storage = Storage::new();
    storage.update("a", 1u32);
    storage.update("b", 2u32);
    storage.update("a", 3u32);
    assert_eq!(storage.len(), 2);
    assert_eq!(storage.get("a"), Some(&3));
    assert_eq!(storage.get("b"), Some(&2));
    assert_eq!(storage.keys(), &vec!["a".to_string(), "b".to_string()]);
    assert_eq!(storage.get_all(), &vec![3, 2]);
}

#[test]
fn storage_delete_keeps_other_entries_in_order() {
    let mut storage = Storage::new();
    storage.update("a", 1u32);
    storage.update("b", 2u32);
    storage.update("c", 3u32);
    storage.delete("b");
    storage.delete("missing");
    assert_eq!(storage.keys(), &vec!["a".to_string(), "c".to_string()]);
    assert_eq!(storage.get_all(), &vec![1, 3]);
    assert!(!storage.contains_key("b"));
    assert!(storage.contains_key("c"));
}

#[test]
fn storage_write_through_get_mut() {
    let mut storage = Storage::new();
    storage.update("a", 1u32);
    if let Some(v) = storage.get_mut("a") {
        *v = 10;
    }
    assert_eq!(storage.get("a"), Some(&10));
    assert_eq!(storage.get_mut("missing"), None);
    *storage.get_at_mut(0) = 11;
    assert_eq!(storage.get("a"), Some(&11));
}

#[test]
fn storage_new_is_empty() {
    let storage: Storage<u32> = Storage::new();
    assert_eq!(storage.len(), 0);
    assert_eq!(storage.get("x"), None);
}
