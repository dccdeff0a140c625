//! Resilient event publishing.
//!
//! The publisher wraps a message-bus transport in its own circuit breaker
//! and a bounded retry loop with exponential backoff. The decisions — when
//! to fail fast, how long to back off, when to give up, what the breaker
//! records — are pure functions of the configuration, the breaker state and
//! the transport outcomes; the transport itself is driven by the caller.

use vstd::prelude::*;
use vstd::string::StringExecFns;

use crate::breaker::CircuitState;
use crate::config::spec_num_or32;
use crate::text::dec_str;
use crate::text::u64_to_string;
use crate::config::spec_num_or64;
use crate::config::num_or32_of;
use crate::config::num_or64;
use crate::events::new_uuid_string;

verus! {

/// Why a publish did not hand the event to the bus.
#[derive(Clone, Debug, PartialEq, Eq)]
pub enum ProducerError {
    /// The transport refused or failed; the message carries its words.
    Kafka(String),
    /// The event could not be serialized.
    Serialization(String),
    /// The publisher's breaker is open; the transport was not touched.
    CircuitBreakerOpen,
    /// Every attempt in the retry budget failed.
    MaxRetriesExceeded,
}

/// Configuration for the event producer.
#[derive(Clone, Debug)]
pub struct ProducerConfig {
    /// The bus endpoints to bootstrap from.
    pub bootstrap_servers: String,
    /// The client name the producer announces.
    pub client_id: String,
    /// How many retries follow the first attempt.
    pub retries: u32,
    /// The first backoff, in milliseconds; each retry doubles it.
    pub retry_backoff_ms: u64,
    /// How long one send may take before it counts as failed.
    pub request_timeout_ms: u64,
}

impl Default for ProducerConfig {
    /// A local bus, five retries, and backoff starting at a tenth of a second.
    fn default() -> (r: Self)
        ensures
            r.bootstrap_servers@ == "localhost:9092"@,
            r.client_id@ == "api-backend"@,
            r.retries == 5,
            r.retry_backoff_ms == 100,
            r.request_timeout_ms == 30000,
    {
        ProducerConfig {
            bootstrap_servers: String::from_str("localhost:9092"),
            client_id: String::from_str("api-backend"),
            retries: 5,
            retry_backoff_ms: 100,
            request_timeout_ms: 30000,
        }
    }
}

impl ProducerConfig {
    /// Build the producer configuration from raw environment values, with
    /// the defaults filling whatever is absent or does not parse.
    pub fn from_values(
        bootstrap_servers: Option<String>,
        client_id: Option<String>,
        retries: Option<String>,
        retry_backoff_ms: Option<String>,
        request_timeout_ms: Option<String>,
    ) -> (r: Self)
        ensures
            r.bootstrap_servers@ == (match bootstrap_servers {
                Some(s) => s@,
                None => "localhost:9092"@,
            }),
            r.client_id@ == (match client_id {
                Some(s) => s@,
                None => "api-backend"@,
            }),
            r.retries == spec_num_or32(retries, 5),
            r.retry_backoff_ms == spec_num_or64(retry_backoff_ms, 100),
            r.request_timeout_ms == spec_num_or64(request_timeout_ms, 30000),
    {
        ProducerConfig {
            bootstrap_servers: match bootstrap_servers {
                Some(s) => s,
                None => String::from_str("localhost:9092"),
            },
            client_id: match client_id {
                Some(s) => s,
                None => String::from_str("api-backend"),
            },
            retries: num_or32_of(&retries, 5),
            retry_backoff_ms: num_or64(&retry_backoff_ms, 100),
            request_timeout_ms: num_or64(&request_timeout_ms, 30000),
        }
    }
}

impl ProducerConfig {
    /// The settings the bus transport is built with: the configured
    /// endpoints and client name, idempotent-producer semantics so a
    /// retried send cannot duplicate its effect, the strongest
    /// acknowledgment setting, payload compression, and the send timeout.
    pub fn transport_settings(&self) -> (r: Vec<(String, String)>)
        ensures
            r@.len() == 6,
            r@[0].0@ == "bootstrap.servers"@ && r@[0].1@ == self.bootstrap_servers@,
            r@[1].0@ == "client.id"@ && r@[1].1@ == self.client_id@,
            r@[2].0@ == "compression.type"@ && r@[2].1@ == "zstd"@,
            r@[3].0@ == "acks"@ && r@[3].1@ == "all"@,
            r@[4].0@ == "enable.idempotence"@ && r@[4].1@ == "true"@,
            r@[5].0@ == "request.timeout.ms"@ && r@[5].1@ == dec_str(self.request_timeout_ms as nat),
    {
        let mut out: Vec<(String, String)> = Vec::new();
        out.push((String::from_str("bootstrap.servers"), self.bootstrap_servers.clone()));
        out.push((String::from_str("client.id"), self.client_id.clone()));
        out.push((String::from_str("compression.type"), String::from_str("zstd")));
        out.push((String::from_str("acks"), String::from_str("all")));
        out.push((String::from_str("enable.idempotence"), String::from_str("true")));
        out.push((String::from_str("request.timeout.ms"), u64_to_string(self.request_timeout_ms)));
        out
    }
}

/// The publisher's own circuit breaker: a distinct failure domain from the
/// per-service breakers, since it watches the message bus itself.
#[derive(Clone, Copy, Debug)]
pub struct CircuitBreaker {
    /// The stored state; open-to-half-open happens lazily on `can_execute`.
    pub state: CircuitState,
    /// Consecutive failures recorded.
    pub failures: u32,
    /// Failures at which the breaker opens.
    pub threshold: u32,
    /// How long the breaker stays open before a test request, in milliseconds.
    pub recovery_timeout_ms: u64,
    /// When the last failure was recorded.
    pub last_failure_ms: Option<u64>,
}

/// What one `can_execute` check does: closed and half-open circuits admit;
/// an open circuit admits once the recovery timeout has elapsed since the
/// last failure, moving to half-open for a test request.
pub open spec fn cb_allow_step(cb: CircuitBreaker, now_ms: u64) -> (bool, CircuitBreaker) {
    match cb.state {
        CircuitState::Closed => (true, cb),
        CircuitState::HalfOpen => (true, cb),
        CircuitState::Open => match cb.last_failure_ms {
            Some(l) => if now_ms - l >= cb.recovery_timeout_ms {
                (true, CircuitBreaker { state: CircuitState::HalfOpen, ..cb })
            } else {
                (false, cb)
            },
            None => (false, cb),
        },
    }
}

/// What recording a success does: the failure run ends and the circuit closes.
pub open spec fn cb_success_step(cb: CircuitBreaker) -> CircuitBreaker {
    CircuitBreaker { state: CircuitState::Closed, failures: 0, ..cb }
}

/// What recording a failure does: the failure run grows and is timestamped,
/// and reaching the threshold opens the circuit.
pub open spec fn cb_failure_step(cb: CircuitBreaker, now_ms: u64) -> CircuitBreaker {
    let f = if cb.failures == u32::MAX { cb.failures } else { (cb.failures + 1) as u32 };
    CircuitBreaker {
        state: if f >= cb.threshold { CircuitState::Open } else { cb.state },
        failures: f,
        last_failure_ms: Some(now_ms),
        ..cb
    }
}

impl CircuitBreaker {
    /// A closed breaker with no failures recorded.
    pub fn new(threshold: u32, recovery_timeout_ms: u64) -> (r: Self)
        ensures
            r.state == CircuitState::Closed,
            r.failures == 0,
            r.threshold == threshold,
            r.recovery_timeout_ms == recovery_timeout_ms,
            r.last_failure_ms is None,
    {
        CircuitBreaker {
            state: CircuitState::Closed,
            failures: 0,
            threshold,
            recovery_timeout_ms,
            last_failure_ms: None,
        }
    }

    /// Record a delivered send.
    pub fn record_success(&mut self)
        ensures
            *final(self) == cb_success_step(*old(self)),
    {
        self.failures = 0;
        self.state = CircuitState::Closed;
    }

    /// Record a failed send.
    pub fn record_failure(&mut self, now_ms: u64)
        ensures
            *final(self) == cb_failure_step(*old(self), now_ms),
    {
        self.failures = if self.failures == u32::MAX { self.failures } else { self.failures + 1 };
        self.last_failure_ms = Some(now_ms);
        if self.failures >= self.threshold {
            self.state = CircuitState::Open;
        }
    }

    /// Check whether a send may be attempted now.
    pub fn can_execute(&mut self, now_ms: u64) -> (r: bool)
        ensures
            r == cb_allow_step(*old(self), now_ms).0,
            *final(self) == cb_allow_step(*old(self), now_ms).1,
    {
        match self.state {
            CircuitState::Closed => true,
            CircuitState::HalfOpen => true,
            CircuitState::Open => {
                match self.last_failure_ms {
                    Some(l) => {
                        if now_ms >= l && now_ms - l >= self.recovery_timeout_ms {
                            self.state = CircuitState::HalfOpen;
                            true
                        } else {
                            false
                        }
                    },
                    None => false,
                }
            },
        }
    }
}

/// The backoff before retry `attempt + 1`: the base doubled `attempt` times,
/// stopping at the largest value instead of overflowing.
pub open spec fn spec_backoff(base: u64, attempt: nat) -> u64
    decreases attempt,
{
    if attempt == 0 {
        base
    } else {
        let p = spec_backoff(base, (attempt - 1) as nat);
        if p > u64::MAX / 2 {
            u64::MAX
        } else {
            (2 * p) as u64
        }
    }
}

proof fn lemma_backoff_at_least_base(base: u64, a: nat)
    requires
        1 <= base,
    ensures
        spec_backoff(base, a) >= base,
        spec_backoff(base, a) >= 1,
    decreases a,
{
    if a > 0 {
        lemma_backoff_at_least_base(base, (a - 1) as nat);
    }
}

/// Between two attempts the backoff strictly grows, as long as the later
/// one has not hit the cap.
pub proof fn lemma_backoff_strictly_increasing(base: u64, a: nat, b: nat)
    requires
        1 <= base,
        a < b,
        spec_backoff(base, b) < u64::MAX,
    ensures
        spec_backoff(base, a) < spec_backoff(base, b),
    decreases b,
{
    let p = spec_backoff(base, (b - 1) as nat);
    lemma_backoff_at_least_base(base, (b - 1) as nat);
    assert(p <= u64::MAX / 2);
    if a < b - 1 {
        lemma_backoff_strictly_increasing(base, a, (b - 1) as nat);
    }
}

/// How many sends a retry budget of `max_attempts` makes from attempt `i`
/// on, given which attempts would succeed, and whether one of them did.
pub open spec fn attempts_from(outcomes: Seq<bool>, i: nat, max_attempts: nat) -> (nat, bool)
    decreases max_attempts - i,
{
    if i >= max_attempts {
        (0, false)
    } else if outcomes[i as int] {
        (1, true)
    } else {
        let rest = attempts_from(outcomes, i + 1, max_attempts);
        (rest.0 + 1, rest.1)
    }
}

proof fn lemma_attempts_bound(outcomes: Seq<bool>, i: nat, max_attempts: nat)
    requires
        i <= max_attempts,
    ensures
        attempts_from(outcomes, i, max_attempts).0 <= max_attempts - i,
    decreases max_attempts - i,
{
    if i < max_attempts && !outcomes[i as int] {
        lemma_attempts_bound(outcomes, i + 1, max_attempts);
    }
}

fn attempts_rec(outcomes: &Vec<bool>, i: u32, max_attempts: u32) -> (r: (u32, bool))
    requires
        i <= max_attempts,
        max_attempts <= outcomes@.len(),
    ensures
        r.0 == attempts_from(outcomes@, i as nat, max_attempts as nat).0,
        r.1 == attempts_from(outcomes@, i as nat, max_attempts as nat).1,
    decreases max_attempts - i,
{
    if i >= max_attempts {
        (0, false)
    } else if outcomes[i as usize] {
        (1, true)
    } else {
        let rest = attempts_rec(outcomes, i + 1, max_attempts);
        proof {
            lemma_attempts_bound(outcomes@, (i + 1) as nat, max_attempts as nat);
        }
        (rest.0 + 1, rest.1)
    }
}

/// A run whose every attempt fails uses its whole budget and does not succeed.
pub proof fn lemma_all_failures_exhaust(outcomes: Seq<bool>, i: nat, max_attempts: nat)
    requires
        i <= max_attempts,
        forall|j: int| i <= j < max_attempts ==> !outcomes[j],
    ensures
        attempts_from(outcomes, i, max_attempts) == ((max_attempts - i) as nat, false),
    decreases max_attempts - i,
{
    if i < max_attempts {
        lemma_all_failures_exhaust(outcomes, i + 1, max_attempts);
    }
}

/// The decision core of the event publisher: its configuration and its own
/// breaker. The transport — serializing, sending, sleeping — is the
/// caller's; every decision about it is made here.
pub struct EventProducer {
    /// The configuration the publisher runs under.
    pub config: ProducerConfig,
    /// The breaker watching the message bus.
    pub breaker: CircuitBreaker,
}

impl EventProducer {
    /// Create a publisher with a closed breaker that opens after five
    /// failed publishes and recovers after thirty seconds.
    pub fn new(config: ProducerConfig) -> (r: Self)
        ensures
            r.config == config,
            r.breaker == (CircuitBreaker {
                state: CircuitState::Closed,
                failures: 0,
                threshold: 5,
                recovery_timeout_ms: 30000,
                last_failure_ms: None,
            }),
    {
        EventProducer { config, breaker: CircuitBreaker::new(5, 30000) }
    }

    /// Consult the breaker before touching the transport: fail fast with
    /// `CircuitBreakerOpen` while the circuit is open.
    pub fn publish_gate(&mut self, now_ms: u64) -> (r: Result<(), ProducerError>)
        ensures
            final(self).config == old(self).config,
            final(self).breaker == cb_allow_step(old(self).breaker, now_ms).1,
            r is Ok <==> cb_allow_step(old(self).breaker, now_ms).0,
            !cb_allow_step(old(self).breaker, now_ms).0
                ==> (r matches Err(e) && e == ProducerError::CircuitBreakerOpen),
    {
        if self.breaker.can_execute(now_ms) {
            Ok(())
        } else {
            Err(ProducerError::CircuitBreakerOpen)
        }
    }

    /// The backoff to sleep after failed attempt number `attempt`.
    pub fn backoff_ms(&self, attempt: u32) -> (r: u64)
        ensures
            r == spec_backoff(self.config.retry_backoff_ms, attempt as nat),
    {
        let mut v = self.config.retry_backoff_ms;
        let mut i: u32 = 0;
        while i < attempt
            invariant
                i <= attempt,
                v == spec_backoff(self.config.retry_backoff_ms, i as nat),
            decreases attempt - i,
        {
            v = if v > u64::MAX / 2 { u64::MAX } else { 2 * v };
            i = i + 1;
        }
        v
    }

    /// Record the overall outcome of one publish with the breaker.
    pub fn record_outcome(&mut self, success: bool, now_ms: u64)
        ensures
            final(self).config == old(self).config,
            success ==> final(self).breaker == cb_success_step(old(self).breaker),
            !success ==> final(self).breaker == cb_failure_step(old(self).breaker, now_ms),
    {
        if success {
            self.breaker.record_success();
        } else {
            self.breaker.record_failure(now_ms);
        }
    }

    /// Whether the publisher is healthy: its breaker is not open.
    pub fn is_healthy(&self) -> (r: bool)
        ensures
            r == (self.breaker.state != CircuitState::Open),
    {
        match self.breaker.state {
            CircuitState::Open => false,
            CircuitState::Closed => true,
            CircuitState::HalfOpen => true,
        }
    }

    /// Drive one publish through its whole retry budget, the transport
    /// outcomes given as arguments (`outcomes[i]` says whether send `i`
    /// would be delivered). Returns how many sends were made and the
    /// overall result; the breaker is consulted first and records the
    /// outcome, exactly as driving the transport attempt by attempt would.
    pub fn run_publish(&mut self, outcomes: &Vec<bool>, now_ms: u64) -> (r: (u32, Result<(), ProducerError>))
        requires
            old(self).config.retries < u32::MAX,
            outcomes@.len() >= old(self).config.retries + 1,
        ensures
            final(self).config == old(self).config,
            ({
                let gate = cb_allow_step(old(self).breaker, now_ms);
                let budget = (old(self).config.retries + 1) as nat;
                let run = attempts_from(outcomes@, 0, budget);
                if !gate.0 {
                    &&& r.0 == 0
                    &&& (r.1 matches Err(e) && e == ProducerError::CircuitBreakerOpen)
                    &&& final(self).breaker == gate.1
                } else if run.1 {
                    &&& r.0 == run.0
                    &&& r.1 is Ok
                    &&& final(self).breaker == cb_success_step(gate.1)
                } else {
                    &&& r.0 == run.0
                    &&& (r.1 matches Err(e) && e == ProducerError::MaxRetriesExceeded)
                    &&& final(self).breaker == cb_failure_step(gate.1, now_ms)
                }
            }),
    {
        if !self.breaker.can_execute(now_ms) {
            return (0, Err(ProducerError::CircuitBreakerOpen));
        }
        let run = attempts_rec(outcomes, 0, self.config.retries + 1);
        if run.1 {
            self.breaker.record_success();
            (run.0, Ok(()))
        } else {
            self.breaker.record_failure(now_ms);
            (run.0, Err(ProducerError::MaxRetriesExceeded))
        }
    }
}

/// The key one publish is recorded under, and the identifier the caller
/// tracks the operation by: the operation's correlation identifier when it
/// has one, else a freshly coined one.
pub fn choose_publish_key(correlation_id: Option<&str>) -> (r: String)
    ensures
        (correlation_id matches Some(c) ==> r@ == c@),
        (correlation_id is None ==> r@.len() == 36),
{
    match correlation_id {
        Some(c) => String::from_str(c),
        None => new_uuid_string(),
    }
}

/// The record the publisher's breaker holds after a run of failed
/// publishes, one per instant in `times`, earliest first.
pub open spec fn cb_apply_failures(cb: CircuitBreaker, times: Seq<u64>) -> CircuitBreaker
    decreases times.len(),
{
    if times.len() == 0 {
        cb
    } else {
        cb_apply_failures(cb_failure_step(cb, times[0]), times.drop_first())
    }
}

/// Once as many publishes have failed as the breaker's threshold, the
/// breaker is open, and a publish before the recovery timeout fails fast.
pub proof fn lemma_publisher_breaker_opens(cb: CircuitBreaker, times: Seq<u64>, now_ms: u64)
    requires
        cb.state == CircuitState::Closed,
        cb.failures == 0,
        1 <= cb.threshold,
        times.len() == cb.threshold,
        now_ms - times.last() < cb.recovery_timeout_ms,
    ensures
        cb_apply_failures(cb, times).state == CircuitState::Open,
        cb_apply_failures(cb, times).last_failure_ms == Some(times.last()),
        !cb_allow_step(cb_apply_failures(cb, times), now_ms).0,
{
    lemma_cb_failures_accumulate(cb, times);
}

proof fn lemma_cb_failures_accumulate(cb: CircuitBreaker, times: Seq<u64>)
    requires
        cb.failures + times.len() <= cb.threshold,
        cb.state == CircuitState::Closed || cb.state == CircuitState::HalfOpen,
        times.len() >= 1,
    ensures
        cb_apply_failures(cb, times).failures == cb.failures + times.len(),
        cb_apply_failures(cb, times).last_failure_ms == Some(times.last()),
        cb_apply_failures(cb, times).threshold == cb.threshold,
        cb_apply_failures(cb, times).recovery_timeout_ms == cb.recovery_timeout_ms,
        cb_apply_failures(cb, times).state == (
            if cb.failures + times.len() >= cb.threshold { CircuitState::Open } else { cb.state }
        ),
    decreases times.len(),
{
    let stepped = cb_failure_step(cb, times[0]);
    if times.len() == 1 {
        assert(times.last() == times[0]);
    } else {
        lemma_cb_failures_accumulate(stepped, times.drop_first());
        assert(times.drop_first().last() == times.last());
    }
}

} // verus!
