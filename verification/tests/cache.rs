use handy_core::secret_cache::{delete_api_key, fetch_api_key, store_api_key, SecretCache};

// The library binds the platform credential store. For deterministic tests
// the keyring mock store is installed explicitly; its entries live only as
// long as the entry value itself, so a later read through a fresh entry
// finds nothing — which makes cache hits observable: only the cache can
// answer them.
fn use_mock_store() {
    keyring::set_default_credential_builder(keyring::mock::default_credential_builder());
}

#[test]
fn store_then_fetch_is_a_cache_hit() {
    use_mock_store();
    let mut cache = SecretCache::new();
    assert_eq!(store_api_key(&mut cache, "p", "k"), Ok(()));
    // The mock backing store cannot answer a fresh read, so this value can
    // only have come from the cache.
    assert_eq!(fetch_api_key(&cache, "p"), Some("k".to_string()));
    assert_eq!(cache.lookup("p"), Some("k".to_string()));
}

#[test]
fn fetch_miss_consults_the_backing_store() {
    use_mock_store();
    let cache = SecretCache::new();
    // Nothing cached and nothing in the backing store: the read-through
    // reaches the backing store and comes back empty.
    assert_eq!(fetch_api_key(&cache, "deepgram"), None);
}

#[test]
fn cache_delete_forces_the_next_fetch_to_the_backing_store() {
    use_mock_store();
    let mut cache = SecretCache::new();
    cache.insert("p", "k");
    assert_eq!(cache.lookup("p"), Some("k".to_string()));
    cache.remove("p");
    assert_eq!(cache.lookup("p"), None);
    // The next fetch misses the cache and reads the backing store, which
    // holds nothing here.
    assert_eq!(fetch_api_key(&cache, "p"), None);
}

#[test]
fn failed_backing_delete_leaves_the_cache_untouched() {
    use_mock_store();
    let mut cache = SecretCache::new();
    assert_eq!(store_api_key(&mut cache, "p", "k"), Ok(()));
    // The mock backing store has no entry a fresh delete could find, so
    // the backing operation fails; the cache must then keep its value.
    let result = delete_api_key(&mut cache, "p");
    assert!(result.is_err());
    assert_eq!(cache.lookup("p"), Some("k".to_string()));
}

#[test]
fn insert_overwrites_and_remove_is_final() {
    let mut cache = SecretCache::new();
    cache.insert("a", "1");
    cache.insert("b", "2");
    cache.insert("a", "3");
    assert_eq!(cache.lookup("a"), Some("3".to_string()));
    assert_eq!(cache.lookup("b"), Some("2".to_string()));
    cache.remove("a");
    assert_eq!(cache.lookup("a"), None);
    assert_eq!(cache.lookup("b"), Some("2".to_string()));
}
