//! Sliding-window rate limiter behaviour.

use api_backend::rate_limit::{fail_open_info, get_client_id, rate_key};
use api_backend::{RateDecision, RateLimitConfig, RateLimiter};

fn allowed_remaining(d: RateDecision) -> u32 {
    match d {
        RateDecision::Allowed(info) => info.remaining,
        RateDecision::Rejected(_) => panic!("expected the request to be admitted"),
    }
}

#[test]
fn five_requests_pass_then_sixth_is_rejected() {
    let mut limiter = RateLimiter::new();
    let mut expected = [4u32, 3, 2, 1, 0].into_iter();
    for t in [0u64, 2, 4, 6, 8] {
        let d = limiter.check_and_record("client", "/v1/things", 5, 60, t);
        assert_eq!(allowed_remaining(d), expected.next().unwrap());
    }
    match limiter.check_and_record("client", "/v1/things", 5, 60, 10) {
        RateDecision::Rejected(info) => {
            assert_eq!(info.limit, 5);
            assert_eq!(info.remaining, 0);
            assert_eq!(info.reset, 70);
        }
        RateDecision::Allowed(_) => panic!("expected the sixth request to be rejected"),
    }
    // past the window the client is admitted again
    let d = limiter.check_and_record("client", "/v1/things", 5, 60, 71);
    assert_eq!(allowed_remaining(d), 4);
}

#[test]
fn clients_and_routes_are_counted_apart() {
    let mut limiter = RateLimiter::new();
    for t in 0..3u64 {
        limiter.check_and_record("a", "/v1/x", 3, 60, t);
    }
    match limiter.check_and_record("a", "/v1/x", 3, 60, 3) {
        RateDecision::Rejected(_) => {}
        RateDecision::Allowed(_) => panic!("client a should be over its limit"),
    }
    let d = limiter.check_and_record("b", "/v1/x", 3, 60, 3);
    assert_eq!(allowed_remaining(d), 2);
    let d = limiter.check_and_record("a", "/v1/y", 3, 60, 3);
    assert_eq!(allowed_remaining(d), 2);
}

#[test]
fn sweep_clears_windows_that_fell_silent() {
    let mut limiter = RateLimiter::new();
    limiter.check_and_record("quiet", "/v1/x", 5, 60, 0);
    limiter.sweep(60, 100);
    // the old request no longer counts against the fresh window
    let d = limiter.check_and_record("quiet", "/v1/x", 5, 60, 100);
    assert_eq!(allowed_remaining(d), 4);
}

#[test]
fn limits_follow_the_route_bucket() {
    let config = RateLimitConfig {
        default_limit: 120,
        search_limit: 60,
        sources_limit: 30,
        sync_limit: 10,
        window_secs: 60,
        skip_rate_limiting: false,
    };
    assert_eq!(config.get_limit_for_path("/v1/search"), 60);
    assert_eq!(config.get_limit_for_path("/v1/search/semantic"), 60);
    assert_eq!(config.get_limit_for_path("/v1/sources"), 30);
    assert_eq!(config.get_limit_for_path("/v1/sync/job-1"), 10);
    assert_eq!(config.get_limit_for_path("/v1/documents"), 120);
}

#[test]
fn client_identity_precedence() {
    assert_eq!(get_client_id(Some("u1"), Some("1.2.3.4"), Some("9.9.9.9")), "user:u1");
    assert_eq!(get_client_id(None, Some(" 1.2.3.4 , 5.6.7.8"), Some("9.9.9.9")), "1.2.3.4");
    assert_eq!(get_client_id(None, None, Some("9.9.9.9")), "9.9.9.9");
    assert_eq!(get_client_id(None, None, None), "unknown");
}

#[test]
fn store_keys_flatten_the_path() {
    assert_eq!(rate_key("user:u1", "/v1/search"), "ratelimit:user:u1:_v1_search");
}

#[test]
fn degraded_mode_fails_open() {
    let info = fail_open_info(25, 60, 1_000);
    assert_eq!(info.limit, 25);
    assert_eq!(info.remaining, 25);
    assert_eq!(info.reset, 1_060);
}
