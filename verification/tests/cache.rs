use token_hub::cache::balance_cache::{balance_cache_key, BalanceCache};
use token_hub::cache::connection::{cache_mode, from_backend, memory, redis_ttl_secs, redis_window_starts, CacheMode};
use token_hub::cache::memory::MemoryCache;
use token_hub::cache::rate_cache::rate_cache_key;
use token_hub::cache::token_cache::{token_cache_key, TokenCache};

#[test]
fn set_get_del() {
    let mut c = MemoryCache::new();
    assert_eq!(c.get_string("k"), None);
    c.set_string("k", "v", None);
    assert_eq!(c.get_string("k"), Some("v".to_string()));
    c.del("k");
    assert_eq!(c.get_string("k"), None);
}

#[test]
fn ttl_expires() {
    let mut c = MemoryCache::new();
    c.set_string_at("k", "v", Some(50), 1_000);
    assert_eq!(c.get_string_at("k", 1_000), Some("v".to_string()));
    assert_eq!(c.get_string_at("k", 1_080), None, "should expire");
}

#[test]
fn no_ttl_persists() {
    let mut c = MemoryCache::new();
    c.set_string_at("k", "v", None, 1_000);
    assert_eq!(c.get_string_at("k", 1_030), Some("v".to_string()));
}

#[test]
fn incr_with_expire_counts() {
    let mut c = MemoryCache::new();
    let v1 = c.incr_with_expire("rate", 1, 60);
    let v2 = c.incr_with_expire("rate", 1, 60);
    let v3 = c.incr_with_expire("rate", 1, 60);
    assert_eq!(v1, 1);
    assert_eq!(v2, 2);
    assert_eq!(v3, 3);
}

#[test]
fn incr_window_expires() {
    let mut c = MemoryCache::new();
    c.incr_with_expire_at("rate", 1, 1, 5_000);
    let v = c.incr_with_expire_at("rate", 1, 1, 6_200);
    assert_eq!(v, 1, "should reset after window expiry, got {v}");
}

#[test]
fn incr_counts_within_window_at_fixed_times() {
    let mut c = MemoryCache::new();
    assert_eq!(c.incr_with_expire_at("w", 2, 1, 0), 2);
    assert_eq!(c.incr_with_expire_at("w", 3, 1, 999), 5);
    assert_eq!(c.incr_with_expire_at("w", 1, 1, 1_000), 1);
}

#[test]
fn expiry_is_exclusive_of_the_deadline() {
    let mut c = MemoryCache::new();
    c.set_string_at("k", "v", Some(50), 100);
    assert_eq!(c.get_string_at("k", 149), Some("v".to_string()));
    assert_eq!(c.get_string_at("k", 150), None);
}

#[test]
fn memory_store_never_fails() {
    let mut store = memory();
    store.set_string("k", "v", None);
    assert_eq!(store.get_string("k"), Some("v".to_string()));
}

#[test]
fn connect_empty_url_returns_memory() {
    assert_eq!(cache_mode(""), CacheMode::Memory);
    assert_eq!(cache_mode("  memory "), CacheMode::Memory);
    assert_eq!(cache_mode("none"), CacheMode::Memory);
    assert_eq!(cache_mode("redis://"), CacheMode::Memory);
    assert_eq!(cache_mode(" redis://cache:6379 "), CacheMode::Redis("redis://cache:6379".to_string()));
}

#[test]
fn store_over_a_given_backend() {
    let mut backend = MemoryCache::new();
    backend.set_string("a", "1", None);
    let mut store = from_backend(backend);
    assert_eq!(store.get_string("a"), Some("1".to_string()));
    store.del("a");
    assert_eq!(store.get_string("a"), None);
}

#[test]
fn balance_cache_read_after_write_and_invalidate() {
    let mut b = BalanceCache::new(memory());
    assert_eq!(b.get("acct_1"), None);
    b.set("acct_1", -42);
    assert_eq!(b.get("acct_1"), Some(-42));
    b.invalidate("acct_1");
    assert_eq!(b.get("acct_1"), None);
}

#[test]
fn token_cache_roundtrip_and_revoke() {
    let mut t = TokenCache::new(memory());
    t.set_serialized("h1", "{\"account_id\":\"a\"}");
    assert_eq!(t.get_serialized("h1"), Some("{\"account_id\":\"a\"}".to_string()));
    assert_eq!(t.get_serialized("h2"), None);
    t.revoke("h1");
    assert_eq!(t.get_serialized("h1"), None);
}

#[test]
fn redis_helpers_and_keys() {
    assert_eq!(redis_ttl_secs(10_000), 10);
    assert_eq!(redis_ttl_secs(600_000), 600);
    assert_eq!(redis_ttl_secs(999), 1);
    assert_eq!(redis_ttl_secs(0), 1);
    assert!(redis_window_starts(1, 1));
    assert!(redis_window_starts(5, -5));
    assert!(!redis_window_starts(2, 1));
    assert_eq!(balance_cache_key("a"), "balance:a");
    assert_eq!(token_cache_key("h"), "token:h");
    assert_eq!(rate_cache_key("ip:1"), "ratelimit:ip:1");
}
