use token_hub::api::ratelimit::{
    admin_rate_key, admin_rate_verdict, chat_rate_key, chat_rate_verdict, check_admin_rate, check_chat_rate,
    short_hash,
};
use token_hub::api::ApiError;
use token_hub::cache::connection::memory;
use token_hub::cache::rate_cache::RateLimiter;

#[test]
fn short_hash_consistent() {
    assert_eq!(short_hash("abc"), short_hash("abc"));
    assert_ne!(short_hash("abc"), short_hash("abd"));
}

#[test]
fn short_hash_is_sixteen_hex_digits_of_the_default_hasher() {
    let mut h = std::collections::hash_map::DefaultHasher::new();
    std::hash::Hash::hash("abc", &mut h);
    let expected = format!("{:016x}", std::hash::Hasher::finish(&h));
    assert_eq!(short_hash("abc"), expected);
    assert_eq!(short_hash("abc").len(), 16);
}

#[test]
fn rate_keys() {
    assert_eq!(chat_rate_key(Some("Bearer t")), format!("token:{}", short_hash("Bearer t")));
    assert_eq!(chat_rate_key(None), format!("token:{}", short_hash("anonymous")));
    assert_eq!(admin_rate_key(Some("10.0.0.1, 10.0.0.2")), "ip:10.0.0.1");
    assert_eq!(admin_rate_key(Some("10.0.0.9")), "ip:10.0.0.9");
    assert_eq!(admin_rate_key(None), "ip:unknown");
}

#[test]
fn verdicts_let_cache_failures_through() {
    assert!(chat_rate_verdict(None).is_ok());
    assert!(chat_rate_verdict(Some(true)).is_ok());
    assert_eq!(
        chat_rate_verdict(Some(false)),
        Err(ApiError::TooManyRequests("rate limit exceeded, too many requests".to_string()))
    );
    assert_eq!(admin_rate_verdict(Some(false)), Err(ApiError::TooManyRequests("rate limit exceeded".to_string())));
    assert!(admin_rate_verdict(None).is_ok());
}

#[test]
fn chat_limit_refuses_the_sixty_first_request() {
    let mut limiter = RateLimiter::new(memory());
    for _ in 0..60 {
        assert!(check_chat_rate(&mut limiter, Some("Bearer x")).is_ok());
    }
    assert!(check_chat_rate(&mut limiter, Some("Bearer x")).is_err());
    assert!(check_chat_rate(&mut limiter, Some("Bearer y")).is_ok());
}

#[test]
fn admin_limit_refuses_the_thirty_first_request() {
    let mut limiter = RateLimiter::new(memory());
    for _ in 0..30 {
        assert!(check_admin_rate(&mut limiter, Some("1.2.3.4")).is_ok());
    }
    assert!(check_admin_rate(&mut limiter, Some("1.2.3.4")).is_err());
}

#[test]
fn too_many_requests_is_http_429() {
    let e = chat_rate_verdict(Some(false)).unwrap_err();
    assert_eq!(e.status(), 429);
    assert_eq!(e.code(), "rate_limited");
}

#[test]
fn a_window_admits_exactly_max_count_checks() {
    let mut limiter = RateLimiter::new(memory());
    for i in 0..3u64 {
        assert!(limiter.check_at("k", 3, 60, 1_000 + i));
    }
    assert!(!limiter.check_at("k", 3, 60, 2_000));
    assert!(!limiter.check_at("k", 3, 60, 60_999));
    assert!(limiter.check_at("k", 3, 60, 61_000));
    assert!(token_hub::cache::rate_cache::within_limit(3, 3));
    assert!(!token_hub::cache::rate_cache::within_limit(4, 3));
}
