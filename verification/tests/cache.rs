//! Response cache behaviour.

use api_backend::{CacheConfig, ResponseCache};

fn small_config(max_entries: usize) -> CacheConfig {
    CacheConfig { max_entries, ..CacheConfig::default() }
}

#[test]
fn stored_payload_comes_back_before_its_ttl() {
    let mut cache = ResponseCache::new(CacheConfig::default());
    let key = ResponseCache::build_key("GET", "/v1/docs", None, Some("u1"));
    cache.set(key.as_str(), b"payload".to_vec(), 200, "application/json", 1, 100);
    let (data, status, content_type) = cache.get(key.as_str(), 100).expect("entry should be live");
    assert_eq!(data, b"payload".to_vec());
    assert_eq!(status, 200);
    assert_eq!(content_type, "application/json");
    let (hits, misses, size) = cache.stats();
    assert_eq!((hits, misses, size), (1, 0, 1));
}

#[test]
fn expired_entry_is_a_miss_and_counted() {
    let mut cache = ResponseCache::new(CacheConfig::default());
    cache.set("k", b"v".to_vec(), 200, "text/plain", 1, 100);
    // one second later the entry has expired
    assert!(cache.get("k", 101).is_none());
    let (hits, misses, size) = cache.stats();
    assert_eq!((hits, misses, size), (0, 1, 0));
}

#[test]
fn store_never_exceeds_its_maximum() {
    let mut cache = ResponseCache::new(small_config(10));
    for i in 0..10u32 {
        let key = format!("k{}", i);
        cache.set(key.as_str(), vec![1], 200, "text/plain", 60, 100);
    }
    assert_eq!(cache.stats().2, 10);
    cache.set("one-more", vec![2], 200, "text/plain", 60, 100);
    let (_, _, size) = cache.stats();
    assert!(size <= 10);
    // the new entry is present afterwards
    assert!(cache.get("one-more", 100).is_some());
}

#[test]
fn eviction_prefers_expired_entries() {
    let mut cache = ResponseCache::new(small_config(10));
    cache.set("stale", vec![1], 200, "text/plain", 1, 0);
    for i in 0..9u32 {
        let key = format!("live{}", i);
        cache.set(key.as_str(), vec![1], 200, "text/plain", 1_000, 100);
    }
    cache.set("new", vec![2], 200, "text/plain", 1_000, 100);
    // the expired entry went first; every live one survived
    for i in 0..9u32 {
        let key = format!("live{}", i);
        assert!(cache.get(key.as_str(), 100).is_some());
    }
    assert!(cache.get("new", 100).is_some());
}

#[test]
fn invalidate_prefix_drops_matching_keys_only() {
    let mut cache = ResponseCache::new(CacheConfig::default());
    cache.set("cache:GET:/v1/sources:a", vec![1], 200, "text/plain", 60, 0);
    cache.set("cache:GET:/v1/sources:b", vec![2], 200, "text/plain", 60, 0);
    cache.set("cache:GET:/v1/docs:a", vec![3], 200, "text/plain", 60, 0);
    cache.invalidate_prefix("cache:GET:/v1/sources");
    assert!(cache.get("cache:GET:/v1/sources:a", 0).is_none());
    assert!(cache.get("cache:GET:/v1/sources:b", 0).is_none());
    assert!(cache.get("cache:GET:/v1/docs:a", 0).is_some());
}

#[test]
fn disabled_cache_stores_nothing() {
    let mut cache = ResponseCache::new(CacheConfig { enabled: false, ..CacheConfig::default() });
    cache.set("k", vec![1], 200, "text/plain", 60, 0);
    assert!(cache.get("k", 0).is_none());
    assert_eq!(cache.stats(), (0, 0, 0));
}

#[test]
fn keys_compose_method_path_query_and_identity() {
    assert_eq!(
        ResponseCache::build_key("GET", "/v1/search", Some("q=x"), Some("u1")),
        "cache:GET:/v1/search:q=x:u1"
    );
    assert_eq!(
        ResponseCache::build_key("GET", "/v1/search", None, None),
        "cache:GET:/v1/search::anon"
    );
}

#[test]
fn ttl_follows_the_path_class() {
    let cache = ResponseCache::new(CacheConfig::default());
    assert_eq!(cache.ttl_for_path("/v1/auth/verify"), 300);
    assert_eq!(cache.ttl_for_path("/v1/search"), 30);
    assert_eq!(cache.ttl_for_path("/v1/docs"), 60);
}

#[test]
fn background_sweep_drops_expired_entries_only() {
    let mut cache = ResponseCache::new(CacheConfig::default());
    cache.set("old", vec![1], 200, "text/plain", 10, 0);
    cache.set("fresh", vec![2], 200, "text/plain", 1_000, 0);
    cache.sweep_expired(500);
    let (_, _, size) = cache.stats();
    assert_eq!(size, 1);
    assert!(cache.get("fresh", 500).is_some());
    assert!(cache.get("old", 500).is_none());
    // the swept entry was never read, so no miss was counted for it
    let (hits, misses, _) = cache.stats();
    assert_eq!((hits, misses), (1, 0));
}

#[test]
fn default_cache_config_values() {
    let c = CacheConfig::default();
    assert_eq!(c.default_ttl_secs, 60);
    assert_eq!(c.auth_ttl_secs, 300);
    assert_eq!(c.search_ttl_secs, 30);
    assert_eq!(c.max_entries, 10_000);
    assert!(c.enabled);
}
