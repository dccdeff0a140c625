//! Circuit breaker registry behaviour.

use api_backend::{CircuitBreakerConfig, CircuitBreakerRegistry, CircuitState};

fn cfg(threshold: u32, open_ms: u64, hos: u32) -> CircuitBreakerConfig {
    CircuitBreakerConfig {
        failure_threshold: threshold,
        open_duration_ms: open_ms,
        half_open_successes: hos,
    }
}

#[test]
fn opens_after_exact_failure_threshold() {
    let mut reg = CircuitBreakerRegistry::new(cfg(3, 30_000, 2));
    assert!(reg.allow_request("svc", 0));
    reg.record_failure("svc", 1_000);
    reg.record_failure("svc", 2_000);
    assert_eq!(reg.state("svc", 2_500), CircuitState::Closed);
    assert!(reg.allow_request("svc", 2_500));
    reg.record_failure("svc", 3_000);
    assert_eq!(reg.state("svc", 3_000), CircuitState::Open);
    assert!(!reg.allow_request("svc", 3_000));
    // stays refused until the open duration has elapsed
    assert!(!reg.allow_request("svc", 3_000 + 29_999));
    assert_eq!(reg.state("svc", 3_000 + 30_000), CircuitState::HalfOpen);
}

#[test]
fn half_open_admits_exactly_probe_budget() {
    let mut reg = CircuitBreakerRegistry::new(cfg(2, 10_000, 2));
    reg.record_failure("svc", 100);
    reg.record_failure("svc", 200);
    assert_eq!(reg.state("svc", 200), CircuitState::Open);
    let now = 200 + 10_000;
    // half_open_successes + 1 = 3 probes admitted, then refused
    assert!(reg.allow_request("svc", now));
    assert!(reg.allow_request("svc", now));
    assert!(reg.allow_request("svc", now));
    assert!(!reg.allow_request("svc", now));
    assert!(!reg.allow_request("svc", now));
}

#[test]
fn half_open_recovers_after_required_successes() {
    let mut reg = CircuitBreakerRegistry::new(cfg(2, 10_000, 2));
    reg.record_failure("svc", 100);
    reg.record_failure("svc", 200);
    let now = 200 + 10_000;
    assert_eq!(reg.state("svc", now), CircuitState::HalfOpen);
    reg.record_success("svc");
    assert_eq!(reg.state("svc", now), CircuitState::HalfOpen);
    reg.record_success("svc");
    // closed again, with both counters reset
    let (state, failures, successes) = reg.metrics("svc", now);
    assert_eq!(state, CircuitState::Closed);
    assert_eq!(failures, 0);
    assert_eq!(successes, 0);
}

#[test]
fn probe_failure_after_probe_success_still_reopens() {
    let mut reg = CircuitBreakerRegistry::new(cfg(2, 10_000, 2));
    reg.record_failure("svc", 100);
    reg.record_failure("svc", 200);
    let now = 200 + 10_000;
    assert_eq!(reg.state("svc", now), CircuitState::HalfOpen);
    // one probe succeeds, which breaks the failure run ...
    assert!(reg.allow_request("svc", now));
    reg.record_success("svc");
    // ... yet the next failing probe immediately reopens the circuit
    assert!(reg.allow_request("svc", now));
    reg.record_failure("svc", now);
    assert_eq!(reg.state("svc", now), CircuitState::Open);
    assert!(!reg.allow_request("svc", now + 9_999));
    assert_eq!(reg.state("svc", now + 10_000), CircuitState::HalfOpen);
}

#[test]
fn probe_failure_reopens_the_circuit() {
    let mut reg = CircuitBreakerRegistry::new(cfg(2, 10_000, 2));
    reg.record_failure("svc", 100);
    reg.record_failure("svc", 200);
    let now = 200 + 10_000;
    assert!(reg.allow_request("svc", now));
    reg.record_failure("svc", now);
    assert_eq!(reg.state("svc", now), CircuitState::Open);
    assert!(!reg.allow_request("svc", now + 9_999));
}

#[test]
fn success_resets_the_failure_run() {
    let mut reg = CircuitBreakerRegistry::new(cfg(3, 30_000, 2));
    reg.record_failure("svc", 100);
    reg.record_failure("svc", 200);
    reg.record_success("svc");
    reg.record_failure("svc", 300);
    reg.record_failure("svc", 400);
    // the run was broken, so five interleaved failures never reached three
    assert_eq!(reg.state("svc", 500), CircuitState::Closed);
}

#[test]
fn services_are_independent() {
    let mut reg = CircuitBreakerRegistry::new(cfg(1, 30_000, 1));
    reg.record_failure("down", 100);
    assert_eq!(reg.state("down", 200), CircuitState::Open);
    assert_eq!(reg.state("up", 200), CircuitState::Closed);
    assert!(reg.allow_request("up", 200));
}

#[test]
fn default_config_values() {
    let c = CircuitBreakerConfig::default();
    assert_eq!(c.failure_threshold, 5);
    assert_eq!(c.open_duration_ms, 30_000);
    assert_eq!(c.half_open_successes, 2);
}
