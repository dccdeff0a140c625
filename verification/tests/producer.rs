//! Event publisher behaviour.

use api_backend::producer::choose_publish_key;
use api_backend::{CircuitBreaker, CircuitState, EventProducer, ProducerConfig, ProducerError};

fn config(retries: u32, backoff: u64) -> ProducerConfig {
    ProducerConfig { retries, retry_backoff_ms: backoff, ..ProducerConfig::default() }
}

#[test]
fn exhausted_retries_attempt_initial_plus_retries_sends() {
    let mut producer = EventProducer::new(config(3, 100));
    let outcomes = vec![false, false, false, false];
    let (attempts, result) = producer.run_publish(&outcomes, 1_000);
    assert_eq!(attempts, 4);
    assert_eq!(result, Err(ProducerError::MaxRetriesExceeded));
    assert_eq!(producer.breaker.failures, 1);
}

#[test]
fn backoff_doubles_between_attempts() {
    let producer = EventProducer::new(config(3, 100));
    let delays: Vec<u64> = (0..3).map(|a| producer.backoff_ms(a)).collect();
    assert_eq!(delays, vec![100, 200, 400]);
    // strictly increasing between attempts
    assert!(delays.windows(2).all(|w| w[0] < w[1]));
}

#[test]
fn repeated_exhaustion_opens_the_breaker() {
    let mut producer = EventProducer::new(config(1, 10));
    let outcomes = vec![false, false];
    for _ in 0..5 {
        assert!(producer.is_healthy());
        let (_, result) = producer.run_publish(&outcomes, 1_000);
        assert_eq!(result, Err(ProducerError::MaxRetriesExceeded));
    }
    // the fifth failed publish tripped the breaker
    assert!(!producer.is_healthy());
    let (attempts, result) = producer.run_publish(&outcomes, 1_500);
    assert_eq!(attempts, 0);
    assert_eq!(result, Err(ProducerError::CircuitBreakerOpen));
}

#[test]
fn success_on_a_retry_stops_the_attempts() {
    let mut producer = EventProducer::new(config(3, 100));
    let outcomes = vec![false, true, false, false];
    let (attempts, result) = producer.run_publish(&outcomes, 1_000);
    assert_eq!(attempts, 2);
    assert_eq!(result, Ok(()));
    assert_eq!(producer.breaker.state, CircuitState::Closed);
    assert_eq!(producer.breaker.failures, 0);
}

#[test]
fn open_breaker_recovers_after_its_timeout() {
    let mut cb = CircuitBreaker::new(2, 30_000);
    cb.record_failure(1_000);
    cb.record_failure(2_000);
    assert_eq!(cb.state, CircuitState::Open);
    assert!(!cb.can_execute(2_000 + 29_999));
    // after the recovery timeout one test request goes through
    assert!(cb.can_execute(2_000 + 30_000));
    assert_eq!(cb.state, CircuitState::HalfOpen);
    cb.record_success();
    assert_eq!(cb.state, CircuitState::Closed);
}

#[test]
fn gate_refuses_while_open_without_touching_transport() {
    let mut producer = EventProducer::new(config(3, 100));
    for _ in 0..5 {
        producer.record_outcome(false, 1_000);
    }
    assert_eq!(producer.breaker.state, CircuitState::Open);
    assert_eq!(producer.publish_gate(1_500), Err(ProducerError::CircuitBreakerOpen));
}

#[test]
fn publish_key_keeps_the_correlation_id_or_coins_one() {
    assert_eq!(choose_publish_key(Some("corr-7")), "corr-7");
    let coined = choose_publish_key(None);
    assert_eq!(coined.len(), 36);
    assert_ne!(coined, choose_publish_key(None));
}

#[test]
fn transport_settings_pin_delivery_guarantees() {
    let settings = ProducerConfig::default().transport_settings();
    let find = |k: &str| -> String {
        settings
            .iter()
            .find(|(name, _)| name == k)
            .map(|(_, v)| v.clone())
            .expect("setting present")
    };
    assert_eq!(find("bootstrap.servers"), "localhost:9092");
    assert_eq!(find("compression.type"), "zstd");
    assert_eq!(find("acks"), "all");
    assert_eq!(find("enable.idempotence"), "true");
    assert_eq!(find("request.timeout.ms"), "30000");
}

#[test]
fn producer_config_defaults_and_parsing() {
    let d = ProducerConfig::default();
    assert_eq!(d.bootstrap_servers, "localhost:9092");
    assert_eq!(d.client_id, "api-backend");
    assert_eq!(d.retries, 5);
    assert_eq!(d.retry_backoff_ms, 100);
    assert_eq!(d.request_timeout_ms, 30_000);

    let c = ProducerConfig::from_values(
        Some("bus:9092".to_string()),
        None,
        Some("7".to_string()),
        Some("oops".to_string()),
        Some("1000".to_string()),
    );
    assert_eq!(c.bootstrap_servers, "bus:9092");
    assert_eq!(c.client_id, "api-backend");
    assert_eq!(c.retries, 7);
    assert_eq!(c.retry_backoff_ms, 100);
    assert_eq!(c.request_timeout_ms, 1_000);
}
