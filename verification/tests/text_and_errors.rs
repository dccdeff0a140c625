//! Text utilities, error rendering and response classification.

use api_backend::error::{classify_response, classify_transport_error, counts_against_breaker};
use api_backend::text::{
    escape_json, parse_u16, parse_u32, parse_u64, split_list, str_contains, str_eq,
    str_starts_with, trim_spaces, u64_to_string,
};
use api_backend::AppError;

#[test]
fn substring_search_over_characters() {
    assert!(str_contains("/v1/search/semantic", "/search"));
    assert!(str_contains("abc", ""));
    assert!(!str_contains("", "a"));
    assert!(!str_contains("/v1/sources", "/search"));
    assert!(str_contains("aaab", "aab"));
}

#[test]
fn prefix_and_equality_checks() {
    assert!(str_starts_with("/health/live", "/health"));
    assert!(!str_starts_with("/heal", "/health"));
    assert!(str_eq("same", "same"));
    assert!(!str_eq("same", "sams"));
    assert!(!str_eq("same", "sameb"));
}

#[test]
fn trimming_strips_surrounding_whitespace_only() {
    assert_eq!(trim_spaces("  a b \t"), "a b");
    assert_eq!(trim_spaces("ab"), "ab");
    assert_eq!(trim_spaces(" \t "), "");
    assert_eq!(trim_spaces(""), "");
}

#[test]
fn decimal_parsing_is_exact() {
    assert_eq!(parse_u64("0"), Some(0));
    assert_eq!(parse_u64("12345"), Some(12_345));
    assert_eq!(parse_u64("18446744073709551615"), Some(u64::MAX));
    assert_eq!(parse_u64("18446744073709551616"), None);
    assert_eq!(parse_u64(""), None);
    assert_eq!(parse_u64("12a"), None);
    assert_eq!(parse_u64("-3"), None);
    assert_eq!(parse_u32("4294967295"), Some(u32::MAX));
    assert_eq!(parse_u32("4294967296"), None);
    assert_eq!(parse_u16("65535"), Some(u16::MAX));
    assert_eq!(parse_u16("65536"), None);
}

#[test]
fn decimal_formatting_round_trips() {
    for n in [0u64, 7, 10, 99, 100, 12_345, u64::MAX] {
        let s = u64_to_string(n);
        assert_eq!(s, n.to_string());
        assert_eq!(parse_u64(s.as_str()), Some(n));
    }
}

#[test]
fn list_splitting_trims_each_item() {
    let items = split_list(" a , b,c ,, d ");
    assert_eq!(items, vec!["a", "b", "c", "", "d"]);
    assert_eq!(split_list("single"), vec!["single"]);
    assert_eq!(split_list(""), vec![""]);
}

#[test]
fn json_escaping_handles_quotes_and_control_characters() {
    assert_eq!(escape_json("plain"), "plain");
    assert_eq!(escape_json("a\"b"), "a\\\"b");
    assert_eq!(escape_json("a\\b"), "a\\\\b");
    assert_eq!(escape_json("a\nb"), "a\\u000ab");
    assert_eq!(escape_json("a\tb"), "a\\u0009b");
}

#[test]
fn error_bodies_carry_stable_codes() {
    assert_eq!(
        AppError::RateLimited.body_json(),
        "{\"error\":{\"code\":\"RATE_LIMITED\",\"message\":\"Too many requests\"}}"
    );
    assert_eq!(
        AppError::Unauthorized("no \"token\"".to_string()).body_json(),
        "{\"error\":{\"code\":\"UNAUTHORIZED\",\"message\":\"no \\\"token\\\"\"}}"
    );
    assert_eq!(AppError::RateLimited.status_code(), 429);
    assert_eq!(AppError::ValidationError(String::new()).status_code(), 400);
    assert_eq!(AppError::ServiceUnavailable(String::new()).status_code(), 503);
}

#[test]
fn downstream_responses_classify_by_status() {
    assert!(classify_response(204, "", "svc").is_ok());
    let cases: [(u16, &str); 5] = [
        (401, "UNAUTHORIZED"),
        (403, "FORBIDDEN"),
        (404, "NOT_FOUND"),
        (429, "RATE_LIMITED"),
        (503, "SERVICE_UNAVAILABLE"),
    ];
    for (status, code) in cases {
        match classify_response(status, "body", "svc") {
            Err(e) => assert_eq!(e.error_code(), code),
            Ok(_) => panic!("status {} must classify as an error", status),
        }
    }
    match classify_response(418, "teapot", "svc") {
        Err(e) => {
            assert_eq!(e.error_code(), "INTERNAL_ERROR");
            assert_eq!(e.message(), "svc error (418): teapot");
        }
        Ok(_) => panic!("an unexpected status must classify as internal"),
    }
}

#[test]
fn only_server_errors_count_against_the_breaker() {
    assert!(counts_against_breaker(500));
    assert!(counts_against_breaker(599));
    assert!(!counts_against_breaker(404));
    assert!(!counts_against_breaker(429));
    assert!(!counts_against_breaker(200));
}

#[test]
fn transport_failures_mark_the_service_unavailable() {
    let timeout = classify_transport_error(true, false, "t");
    assert_eq!(timeout.message(), "Service request timed out");
    let connect = classify_transport_error(false, true, "c");
    assert_eq!(connect.message(), "Failed to connect to service");
    let other = classify_transport_error(false, false, "broken pipe");
    assert_eq!(other.error_code(), "INTERNAL_ERROR");
    assert_eq!(other.message(), "broken pipe");
}
