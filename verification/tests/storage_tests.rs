use soroban_debug::storage::StorageInspector;

#[test]
fn get_returns_what_was_recorded() {
    let mut storage = StorageInspector::new();
    storage.record("balance", "100");
    storage.record("owner", "alice");
    assert_eq!(storage.get("balance").map(String::as_str), Some("100"));
    assert_eq!(storage.get("owner").map(String::as_str), Some("alice"));
    assert_eq!(storage.get("missing"), None);
}

#[test]
fn a_changed_value_is_not_served_stale() {
    let mut storage = StorageInspector::new();
    storage.record("balance", "100");
    storage.record("balance", "75");
    assert_eq!(storage.get("balance").map(String::as_str), Some("75"));
    assert_eq!(storage.len(), 1);
}

#[test]
fn listing_is_sorted_by_key() {
    let mut storage = StorageInspector::new();
    storage.record("owner", "alice");
    storage.record("balance", "100");
    storage.record("admin", "bob");
    let all = storage.get_all();
    let keys: Vec<&str> = all.iter().map(|e| e.key.as_str()).collect();
    assert_eq!(keys, ["admin", "balance", "owner"]);
    assert_eq!(all[1].value, "100");
}

#[test]
fn clear_empties_the_snapshot() {
    let mut storage = StorageInspector::new();
    storage.record("k", "v");
    storage.clear();
    assert_eq!(storage.len(), 0);
    assert_eq!(storage.get("k"), None);
}
