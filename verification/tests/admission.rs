//! Admission layer behaviour, and the end-to-end gateway scenario.

use api_backend::auth::{
    demo_user, identity_from_api_key_result, optional_from_token_result, optional_identity_step,
    resolve_identity_step, IdentityResolution,
};
use api_backend::error::classify_response;
use api_backend::models::user::{ApiKeyInfo, User};
use api_backend::zero_trust::{
    carried_correlation_id, is_exempt_path, make_correlation_id, stale_request_response,
};
use api_backend::{
    AppError, CircuitBreakerConfig, CircuitBreakerRegistry, CircuitState, IntegrityCheck,
    RateDecision, RateLimiter, ZeroTrustLayer,
};

#[test]
fn bypass_always_yields_the_development_identity() {
    for headers in [
        (Some("Bearer abc"), Some("key-1")),
        (Some("garbage"), None),
        (None, None),
    ] {
        match resolve_identity_step(true, headers.0, headers.1) {
            IdentityResolution::Done(Ok(user)) => {
                assert_eq!(user.id, "demo-user-001");
                assert_eq!(user.email, "demo@confuse.dev");
                assert_eq!(user.name.as_deref(), Some("Demo User"));
                assert_eq!(user.roles, vec!["user".to_string()]);
            }
            _ => panic!("bypass must resolve without any call"),
        }
    }
}

#[test]
fn missing_credentials_are_rejected() {
    match resolve_identity_step(false, None, None) {
        IdentityResolution::Done(Err(e)) => {
            assert_eq!(e.status_code(), 401);
            assert_eq!(e.error_code(), "UNAUTHORIZED");
            assert_eq!(e.message(), "No authentication provided");
        }
        _ => panic!("a request without credentials must be rejected"),
    }
}

#[test]
fn malformed_authorization_header_is_rejected() {
    match resolve_identity_step(false, Some("Token abc"), None) {
        IdentityResolution::Done(Err(e)) => {
            assert_eq!(e.message(), "Invalid authorization header format");
        }
        _ => panic!("a non-bearer authorization header must be rejected"),
    }
}

#[test]
fn bearer_token_names_the_verification_call() {
    match resolve_identity_step(false, Some("Bearer tok-123"), None) {
        IdentityResolution::NeedTokenVerify(token) => assert_eq!(token, "tok-123"),
        _ => panic!("a bearer token must be sent for verification"),
    }
}

#[test]
fn api_key_identity_is_synthesized_from_scopes() {
    match resolve_identity_step(false, None, Some("key-1")) {
        IdentityResolution::NeedApiKeyValidation(key) => assert_eq!(key, "key-1"),
        _ => panic!("an API key must be sent for validation"),
    }
    let info = ApiKeyInfo {
        id: "k42".to_string(),
        user_id: "u7".to_string(),
        name: "ci key".to_string(),
        scopes: vec!["read".to_string(), "sync".to_string()],
        created_at: "2024-01-01".to_string(),
        expires_at: None,
    };
    let user = identity_from_api_key_result(Ok(info)).expect("a valid key yields a user");
    assert_eq!(user.id, "u7");
    assert_eq!(user.email, "api-key-k42@confuse.dev");
    assert_eq!(user.name.as_deref(), Some("ci key"));
    assert_eq!(user.roles, vec!["read".to_string(), "sync".to_string()]);
}

#[test]
fn optional_auth_never_rejects() {
    match optional_identity_step(false, None) {
        IdentityResolution::Done(Err(_)) => {}
        IdentityResolution::Done(Ok(_)) => panic!("no identity without credentials"),
        _ => panic!("nothing to verify without a header"),
    }
    let failed: Result<User, AppError> =
        Err(AppError::Unauthorized("bad token".to_string()));
    assert!(optional_from_token_result(failed).is_none());
    let ok: Result<User, AppError> = Ok(demo_user());
    assert!(optional_from_token_result(ok).is_some());
}

#[test]
fn timestamp_drift_beyond_threshold_is_stale() {
    let layer = ZeroTrustLayer::default();
    assert_eq!(layer.max_request_age_secs, 300);
    // 400 seconds away from server time: rejected
    assert_eq!(layer.check_freshness(Some("600"), 1_000), IntegrityCheck::StaleRequest);
    assert_eq!(layer.check_freshness(Some("1400"), 1_000), IntegrityCheck::StaleRequest);
    // 100 seconds away: passes
    assert_eq!(layer.check_freshness(Some("900"), 1_000), IntegrityCheck::Pass);
    // missing or malformed timestamps are not themselves errors
    assert_eq!(layer.check_freshness(None, 1_000), IntegrityCheck::Pass);
    assert_eq!(layer.check_freshness(Some("not-a-number"), 1_000), IntegrityCheck::Pass);
    // with enforcement off everything passes
    let off = ZeroTrustLayer { enforce_timestamps: false, ..ZeroTrustLayer::default() };
    assert_eq!(off.check_freshness(Some("600"), 1_000), IntegrityCheck::Pass);
}

#[test]
fn stale_requests_get_the_fixed_rejection_body() {
    let (status, body) = stale_request_response();
    assert_eq!(status, 400);
    assert_eq!(
        body,
        "{\"error\":{\"code\":\"STALE_REQUEST\",\"message\":\"Request timestamp is outside acceptable window\"}}"
    );
}

#[test]
fn correlation_identifier_is_kept_or_coined() {
    assert_eq!(
        carried_correlation_id(Some("corr-1"), Some("req-1")).as_deref(),
        Some("corr-1")
    );
    assert_eq!(carried_correlation_id(None, Some("req-1")).as_deref(), Some("req-1"));
    assert!(carried_correlation_id(None, None).is_none());
    assert_eq!(make_correlation_id(1234, "abcd1234"), "zt-1234-abcd1234");
}

#[test]
fn health_paths_skip_validation() {
    assert!(is_exempt_path("/health"));
    assert!(is_exempt_path("/health/ready"));
    assert!(is_exempt_path("/status"));
    assert!(is_exempt_path("/metrics"));
    assert!(!is_exempt_path("/v1/search"));
    assert!(!is_exempt_path("/statusx"));
}

#[test]
fn end_to_end_unauthorized_then_circuit_short_circuit() {
    // a client without credentials is turned away with 401 before anything runs
    match resolve_identity_step(false, None, None) {
        IdentityResolution::Done(Err(e)) => assert_eq!(e.status_code(), 401),
        _ => panic!("expected an immediate rejection"),
    }

    // the same client with a valid bearer token passes admission
    let resolution = resolve_identity_step(false, Some("Bearer good"), None);
    let token = match resolution {
        IdentityResolution::NeedTokenVerify(t) => t,
        _ => panic!("expected a verification call"),
    };
    assert_eq!(token, "good");
    // ... the authentication service answers with an identity
    let user = demo_user();

    // under the rate limit the request is admitted
    let mut limiter = RateLimiter::new();
    let decision = limiter.check_and_record(user.id.as_str(), "/v1/things", 5, 60, 1_000);
    assert!(matches!(decision, RateDecision::Allowed(_)));

    // the target service's breaker is open: the request is refused before
    // any network call is issued
    let mut breakers = CircuitBreakerRegistry::new(CircuitBreakerConfig {
        failure_threshold: 3,
        open_duration_ms: 30_000,
        half_open_successes: 2,
    });
    for t in [100, 200, 300] {
        breakers.record_failure("things-service", t);
    }
    assert_eq!(breakers.state("things-service", 1_000), CircuitState::Open);
    assert!(!breakers.allow_request("things-service", 1_000));

    // which is distinguishable from a downstream 5xx, where a call was made
    // and came back as a classified service failure
    let downstream = classify_response(502, "bad gateway", "things-service");
    match downstream {
        Err(e) => assert_eq!(e.error_code(), "SERVICE_UNAVAILABLE"),
        Ok(_) => panic!("a 5xx must classify as an error"),
    }
}
