use lock_bootstrap::cache::RevocationStatusCache;

fn strings(items: &[&str]) -> Vec<String> {
    items.iter().map(|s| s.to_string()).collect()
}

#[test]
fn lookup_on_empty_cache() {
    let cache = RevocationStatusCache::new();
    assert!(!cache.lookup(&"list-1".to_string(), &"jti-A".to_string()));
}

#[test]
fn upsert_round_trip() {
    let mut cache = RevocationStatusCache::new();
    cache.upsert("list-1".to_string(), 1, strings(&["t1", "t2"]));
    assert!(cache.lookup(&"list-1".to_string(), &"t1".to_string()));
    assert!(cache.lookup(&"list-1".to_string(), &"t2".to_string()));
    assert!(!cache.lookup(&"list-1".to_string(), &"t3".to_string()));
    assert!(!cache.lookup(&"list-2".to_string(), &"t1".to_string()));
}

#[test]
fn upsert_is_idempotent() {
    let mut cache = RevocationStatusCache::new();
    cache.upsert("list-1".to_string(), 1, strings(&["t1", "t2"]));
    cache.upsert("list-1".to_string(), 1, strings(&["t1", "t2"]));
    assert!(cache.lookup(&"list-1".to_string(), &"t1".to_string()));
    assert!(cache.lookup(&"list-1".to_string(), &"t2".to_string()));
    assert!(!cache.lookup(&"list-1".to_string(), &"t3".to_string()));
}

#[test]
fn upsert_replaces_whole_entry() {
    let mut cache = RevocationStatusCache::new();
    cache.upsert("list-1".to_string(), 1, strings(&["t1", "t2"]));
    cache.upsert("list-1".to_string(), 2, strings(&["t3"]));
    // the old pair is gone as a unit: none of its tokens survive
    assert!(!cache.lookup(&"list-1".to_string(), &"t1".to_string()));
    assert!(!cache.lookup(&"list-1".to_string(), &"t2".to_string()));
    assert!(cache.lookup(&"list-1".to_string(), &"t3".to_string()));
}

#[test]
fn upsert_leaves_other_identifiers_alone() {
    let mut cache = RevocationStatusCache::new();
    cache.upsert("list-1".to_string(), 1, strings(&["t1"]));
    cache.upsert("list-2".to_string(), 7, strings(&["u1"]));
    assert!(cache.lookup(&"list-1".to_string(), &"t1".to_string()));
    assert!(cache.lookup(&"list-2".to_string(), &"u1".to_string()));
    cache.upsert("list-1".to_string(), 3, strings(&["t9"]));
    assert!(cache.lookup(&"list-2".to_string(), &"u1".to_string()));
    assert!(!cache.lookup(&"list-2".to_string(), &"t9".to_string()));
}

#[test]
fn duplicate_tokens_collapse() {
    let mut cache = RevocationStatusCache::new();
    cache.upsert("list-1".to_string(), 1, strings(&["t1", "t1"]));
    assert!(cache.lookup(&"list-1".to_string(), &"t1".to_string()));
    assert!(!cache.lookup(&"list-1".to_string(), &"t2".to_string()));
}
