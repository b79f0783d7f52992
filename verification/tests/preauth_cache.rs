use gateway_core::PreauthCache;

#[test]
fn push_then_pop_returns_value() {
    let mut c = PreauthCache::new(10, 100);
    c.push("k".to_string(), "v1".to_string(), 0);
    assert!(c.has_any(0));
    assert_eq!(c.pop(0), Some("v1".to_string()));
}

#[test]
fn push_is_idempotent_per_key() {
    let mut c = PreauthCache::new(10, 100);
    c.push("k".to_string(), "v1".to_string(), 0);
    c.push("k".to_string(), "v2".to_string(), 10);
    assert_eq!(c.pop(10), Some("v1".to_string()));
}

#[test]
fn pop_on_empty_returns_none() {
    let c = PreauthCache::new(10, 100);
    assert_eq!(c.pop(0), None);
    assert!(!c.has_any(0));
}

#[test]
fn pop_draws_only_live_values() {
    let mut c = PreauthCache::new(10, 100);
    c.push("a".to_string(), "va".to_string(), 0);
    c.push("b".to_string(), "vb".to_string(), 0);
    c.push("c".to_string(), "vc".to_string(), 50);
    // at 120 the two entries inserted at 0 are expired; only "vc" is live
    for _ in 0..10 {
        assert_eq!(c.pop(120), Some("vc".to_string()));
    }
    assert!(c.has_any(120));
}

#[test]
fn pop_draws_from_all_live_entries() {
    let mut c = PreauthCache::new(10, 100);
    c.push("a".to_string(), "va".to_string(), 0);
    c.push("b".to_string(), "vb".to_string(), 0);
    c.push("c".to_string(), "vc".to_string(), 0);
    for _ in 0..30 {
        let v = c.pop(1).unwrap();
        assert!(v == "va" || v == "vb" || v == "vc");
    }
}

#[test]
fn expired_entry_excluded() {
    let mut c = PreauthCache::new(10, 100);
    c.push("k".to_string(), "v".to_string(), 0);
    assert_eq!(c.pop(99), Some("v".to_string()));
    assert_eq!(c.pop(100), None);
    assert!(!c.has_any(100));
}

#[test]
fn pop_does_not_remove() {
    let mut c = PreauthCache::new(10, 100);
    c.push("k".to_string(), "v".to_string(), 0);
    assert_eq!(c.pop(1), Some("v".to_string()));
    assert_eq!(c.pop(2), Some("v".to_string()));
    assert!(c.has_any(2));
}

#[test]
fn full_cache_evicts_oldest() {
    let mut c = PreauthCache::new(2, 1000);
    c.push("k1".to_string(), "v1".to_string(), 0);
    c.push("k2".to_string(), "v2".to_string(), 1);
    c.push("k3".to_string(), "v3".to_string(), 2);
    for _ in 0..10 {
        let v = c.pop(3).unwrap();
        assert!(v == "v2" || v == "v3");
    }
}

#[test]
fn expired_key_can_be_reinserted() {
    let mut c = PreauthCache::new(10, 100);
    c.push("k".to_string(), "v1".to_string(), 0);
    // the entry from 0 has expired by 200, so the key is absent again
    c.push("k".to_string(), "v2".to_string(), 200);
    assert_eq!(c.pop(200), Some("v2".to_string()));
}
