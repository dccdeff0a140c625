//! Per-service circuit breaker registry.
//!
//! Tracks the health of each downstream service behind a three-state
//! circuit (closed, open, half-open) and gates whether a call may be
//! attempted. The open-to-half-open transition is lazy: it is a pure
//! function of the stored record and the caller-supplied clock reading,
//! so no timer thread is involved.

use vstd::prelude::*;
use dashmap::DashMap;

use crate::kvstore::BreakerRec;
use crate::kvstore::breaker_map_view;
use crate::kvstore::breaker_map_new;
use crate::kvstore::breaker_map_get;
use crate::kvstore::breaker_map_set;

verus! {

/// Circuit breaker states.
#[derive(Clone, Copy, Debug, PartialEq, Eq, Structural)]
pub enum CircuitState {
    Closed,
    Open,
    HalfOpen,
}

/// Configuration for a circuit breaker.
#[derive(Clone, Copy, Debug)]
pub struct CircuitBreakerConfig {
    /// Number of consecutive failures that trip the breaker.
    pub failure_threshold: u32,
    /// How long the circuit stays open before probes are allowed, in milliseconds.
    pub open_duration_ms: u64,
    /// Number of successful probes in half-open needed to close the circuit.
    pub half_open_successes: u32,
}

impl Default for CircuitBreakerConfig {
    /// Five consecutive failures open the circuit for thirty seconds;
    /// two successful probes close it again.
    fn default() -> (r: Self)
        ensures
            r.failure_threshold == 5,
            r.open_duration_ms == 30000,
            r.half_open_successes == 2,
    {
        CircuitBreakerConfig { failure_threshold: 5, open_duration_ms: 30000, half_open_successes: 2 }
    }
}

/// The record a service starts from: no failures, no successes, circuit
/// closed, no probes issued.
pub open spec fn init_rec() -> BreakerRec {
    (0u32, 0u32, None::<u64>, 0u32)
}

/// Increment that stops at the largest counter value instead of wrapping.
pub open spec fn sat_inc32(x: u32) -> u32 {
    if x == u32::MAX { x } else { (x + 1) as u32 }
}

/// The state a record is in at clock reading `now_ms`: closed while no open
/// instant is recorded, half-open once `open_duration_ms` has elapsed since
/// that instant, open before then.
pub open spec fn rec_state(rec: BreakerRec, cfg: CircuitBreakerConfig, now_ms: u64) -> CircuitState {
    match rec.2 {
        None => CircuitState::Closed,
        Some(opened) => if now_ms - opened >= cfg.open_duration_ms {
            CircuitState::HalfOpen
        } else {
            CircuitState::Open
        },
    }
}

/// What one admission check does: closed circuits admit, open circuits
/// refuse, and a half-open circuit admits a bounded number of probes,
/// counting each one.
pub open spec fn allow_step(rec: BreakerRec, cfg: CircuitBreakerConfig, now_ms: u64) -> (bool, BreakerRec) {
    match rec_state(rec, cfg, now_ms) {
        CircuitState::Closed => (true, rec),
        CircuitState::Open => (false, rec),
        CircuitState::HalfOpen => (
            rec.3 < cfg.half_open_successes + 1,
            (rec.0, rec.1, rec.2, sat_inc32(rec.3)),
        ),
    }
}

/// What recording a success does: the failure run ends, the success run
/// grows, and once the success run reaches the half-open requirement while
/// the circuit is not closed, the circuit closes and all counters reset.
pub open spec fn success_step(rec: BreakerRec, cfg: CircuitBreakerConfig) -> BreakerRec {
    let s = sat_inc32(rec.1);
    if rec.2 is Some && s >= cfg.half_open_successes {
        init_rec()
    } else {
        (0u32, s, rec.2, rec.3)
    }
}

/// What recording a failure does: the success run ends and the failure run
/// grows. While the circuit is closed, reaching the threshold opens it at
/// the given instant; once an open instant is recorded — the circuit is
/// open or half-open — any failure immediately re-stamps that instant and
/// resets the probe counter, so a failing probe starts a fresh open period.
pub open spec fn failure_step(rec: BreakerRec, cfg: CircuitBreakerConfig, now_ms: u64) -> BreakerRec {
    let f = sat_inc32(rec.0);
    if rec.2 is Some || f >= cfg.failure_threshold {
        (f, 0u32, Some(now_ms), 0u32)
    } else {
        (f, 0u32, rec.2, rec.3)
    }
}

/// Registry of circuit breakers keyed by service name.
pub struct CircuitBreakerRegistry {
    breakers: DashMap<String, BreakerRec>,
    config: CircuitBreakerConfig,
}

impl CircuitBreakerRegistry {
    /// The records currently stored, keyed by service name.
    pub closed spec fn breakers_view(&self) -> Map<Seq<char>, BreakerRec> {
        breaker_map_view(self.breakers)
    }

    /// The configuration every breaker in the registry runs under.
    pub closed spec fn cfg(&self) -> CircuitBreakerConfig {
        self.config
    }

    /// The record a service is governed by: the stored one, or the fresh
    /// record for a service never seen before.
    pub open spec fn rec_of(&self, service: Seq<char>) -> BreakerRec {
        if self.breakers_view().contains_key(service) {
            self.breakers_view()[service]
        } else {
            init_rec()
        }
    }

    /// Create an empty registry.
    pub fn new(config: CircuitBreakerConfig) -> (r: Self)
        ensures
            r.cfg() == config,
            r.breakers_view() == (Map::<Seq<char>, BreakerRec>::empty()),
    {
        CircuitBreakerRegistry { breakers: breaker_map_new(), config }
    }

    fn get_rec(&self, service: &str) -> (r: BreakerRec)
        ensures
            r == self.rec_of(service@),
    {
        match breaker_map_get(&self.breakers, service) {
            Some(rec) => rec,
            None => (0, 0, None, 0),
        }
    }

    /// Get the current state of the circuit for a given service.
    pub fn state(&self, service: &str, now_ms: u64) -> (r: CircuitState)
        ensures
            r == rec_state(self.rec_of(service@), self.cfg(), now_ms),
    {
        let rec = self.get_rec(service);
        match rec.2 {
            None => CircuitState::Closed,
            Some(opened) => {
                if now_ms >= opened && now_ms - opened >= self.config.open_duration_ms {
                    CircuitState::HalfOpen
                } else {
                    CircuitState::Open
                }
            },
        }
    }

    /// Check whether a request to the service may be attempted now.
    pub fn allow_request(&mut self, service: &str, now_ms: u64) -> (r: bool)
        ensures
            r == allow_step(old(self).rec_of(service@), old(self).cfg(), now_ms).0,
            final(self).breakers_view() == old(self).breakers_view().insert(
                service@,
                allow_step(old(self).rec_of(service@), old(self).cfg(), now_ms).1,
            ),
            final(self).cfg() == old(self).cfg(),
    {
        let rec = self.get_rec(service);
        match self.state(service, now_ms) {
            CircuitState::Closed => {
                breaker_map_set(&mut self.breakers, service, rec);
                true
            },
            CircuitState::Open => {
                breaker_map_set(&mut self.breakers, service, rec);
                false
            },
            CircuitState::HalfOpen => {
                let probes = rec.3;
                let bumped = if probes == u32::MAX { probes } else { probes + 1 };
                breaker_map_set(&mut self.breakers, service, (rec.0, rec.1, rec.2, bumped));
                probes <= self.config.half_open_successes
            },
        }
    }

    /// Record a successful request to the service.
    pub fn record_success(&mut self, service: &str)
        ensures
            final(self).breakers_view() == old(self).breakers_view().insert(
                service@,
                success_step(old(self).rec_of(service@), old(self).cfg()),
            ),
            final(self).cfg() == old(self).cfg(),
    {
        let rec = self.get_rec(service);
        let s = if rec.1 == u32::MAX { rec.1 } else { rec.1 + 1 };
        let next = if rec.2.is_some() && s >= self.config.half_open_successes {
            (0, 0, None, 0)
        } else {
            (0, s, rec.2, rec.3)
        };
        breaker_map_set(&mut self.breakers, service, next);
    }

    /// Record a failed request to the service. A failure while the circuit
    /// is open or half-open immediately reopens it at this instant.
    pub fn record_failure(&mut self, service: &str, now_ms: u64)
        ensures
            final(self).breakers_view() == old(self).breakers_view().insert(
                service@,
                failure_step(old(self).rec_of(service@), old(self).cfg(), now_ms),
            ),
            final(self).cfg() == old(self).cfg(),
    {
        let rec = self.get_rec(service);
        let f = if rec.0 == u32::MAX { rec.0 } else { rec.0 + 1 };
        let next = if rec.2.is_some() || f >= self.config.failure_threshold {
            (f, 0, Some(now_ms), 0)
        } else {
            (f, 0, rec.2, rec.3)
        };
        breaker_map_set(&mut self.breakers, service, next);
    }

    /// Get metrics for monitoring: the state and both counters.
    pub fn metrics(&self, service: &str, now_ms: u64) -> (r: (CircuitState, u32, u32))
        ensures
            r.0 == rec_state(self.rec_of(service@), self.cfg(), now_ms),
            r.1 == self.rec_of(service@).0,
            r.2 == self.rec_of(service@).1,
    {
        let rec = self.get_rec(service);
        (self.state(service, now_ms), rec.0, rec.1)
    }
}

/// The record after a run of recorded failures, one per instant in `times`,
/// earliest first.
pub open spec fn apply_failures(rec: BreakerRec, cfg: CircuitBreakerConfig, times: Seq<u64>) -> BreakerRec
    decreases times.len(),
{
    if times.len() == 0 {
        rec
    } else {
        apply_failures(failure_step(rec, cfg, times[0]), cfg, times.drop_first())
    }
}

proof fn lemma_failures_accumulate(rec: BreakerRec, cfg: CircuitBreakerConfig, times: Seq<u64>)
    requires
        rec.2 is None,
        rec.0 + times.len() < cfg.failure_threshold,
    ensures
        apply_failures(rec, cfg, times) == (
            (rec.0 + times.len()) as u32,
            if times.len() == 0 { rec.1 } else { 0u32 },
            rec.2,
            rec.3,
        ),
    decreases times.len(),
{
    if times.len() > 0 {
        lemma_failures_accumulate(failure_step(rec, cfg, times[0]), cfg, times.drop_first());
    }
}

proof fn lemma_apply_failures_snoc(rec: BreakerRec, cfg: CircuitBreakerConfig, times: Seq<u64>, t: u64)
    ensures
        apply_failures(rec, cfg, times.push(t)) == failure_step(apply_failures(rec, cfg, times), cfg, t),
    decreases times.len(),
{
    if times.len() == 0 {
        assert(times.push(t)[0] == t);
        assert(times.push(t).drop_first() =~= Seq::<u64>::empty());
        assert(apply_failures(failure_step(rec, cfg, t), cfg, Seq::<u64>::empty())
            == failure_step(rec, cfg, t));
    } else {
        assert(times.push(t)[0] == times[0]);
        assert(times.push(t).drop_first() =~= times.drop_first().push(t));
        lemma_apply_failures_snoc(failure_step(rec, cfg, times[0]), cfg, times.drop_first(), t);
    }
}

/// After exactly `failure_threshold` consecutive recorded failures starting
/// from a fresh record, the circuit is open from the instant of the last
/// failure: admission is refused at once, and stays refused at every instant
/// earlier than `open_duration_ms` past that failure. One failure fewer
/// leaves the circuit closed and admission granted.
pub proof fn lemma_consecutive_failures_open_circuit(
    cfg: CircuitBreakerConfig,
    times: Seq<u64>,
    now_ms: u64,
)
    requires
        1 <= cfg.failure_threshold,
        times.len() == cfg.failure_threshold,
        now_ms - times.last() < cfg.open_duration_ms,
    ensures
        apply_failures(init_rec(), cfg, times).2 == Some(times.last()),
        rec_state(apply_failures(init_rec(), cfg, times), cfg, now_ms) == CircuitState::Open,
        !allow_step(apply_failures(init_rec(), cfg, times), cfg, now_ms).0,
        rec_state(apply_failures(init_rec(), cfg, times.drop_last()), cfg, now_ms) == CircuitState::Closed,
        allow_step(apply_failures(init_rec(), cfg, times.drop_last()), cfg, now_ms).0,
{
    let prefix = times.drop_last();
    lemma_failures_accumulate(init_rec(), cfg, prefix);
    assert(times =~= prefix.push(times.last()));
    lemma_apply_failures_snoc(init_rec(), cfg, prefix, times.last());
}

/// The record after one admission check per instant in `times`, earliest
/// first, with no outcome recorded in between.
pub open spec fn apply_allows(rec: BreakerRec, cfg: CircuitBreakerConfig, times: Seq<u64>) -> BreakerRec
    decreases times.len(),
{
    if times.len() == 0 {
        rec
    } else {
        apply_allows(allow_step(rec, cfg, times[0]).1, cfg, times.drop_first())
    }
}

proof fn lemma_allows_accumulate(
    cfg: CircuitBreakerConfig,
    rec: BreakerRec,
    opened: u64,
    times: Seq<u64>,
)
    requires
        rec.2 == Some(opened),
        forall|i: int| 0 <= i < times.len() ==> times[i] - opened >= cfg.open_duration_ms,
        rec.3 + times.len() <= u32::MAX,
    ensures
        apply_allows(rec, cfg, times) == (rec.0, rec.1, rec.2, (rec.3 + times.len()) as u32),
    decreases times.len(),
{
    if times.len() > 0 {
        lemma_allows_accumulate(cfg, allow_step(rec, cfg, times[0]).1, opened, times.drop_first());
    }
}

/// Once `open_duration_ms` has elapsed after the circuit opened, admission
/// checks admit exactly `half_open_successes + 1` probes while no outcome
/// is recorded: after `k` checks, all past the open duration, the next one
/// admits if and only if `k < half_open_successes + 1`.
pub proof fn lemma_half_open_probe_budget(
    cfg: CircuitBreakerConfig,
    rec: BreakerRec,
    opened: u64,
    times: Seq<u64>,
    now_ms: u64,
)
    requires
        rec.2 == Some(opened),
        rec.3 == 0,
        forall|i: int| 0 <= i < times.len() ==> times[i] - opened >= cfg.open_duration_ms,
        now_ms - opened >= cfg.open_duration_ms,
        cfg.half_open_successes < u32::MAX,
        times.len() <= u32::MAX,
    ensures
        allow_step(apply_allows(rec, cfg, times), cfg, now_ms).0
            == (times.len() < cfg.half_open_successes + 1),
{
    lemma_allows_accumulate(cfg, rec, opened, times);
}

/// Any recorded failure while an open instant stands — in particular a
/// failed half-open probe — immediately reopens the circuit at the instant
/// of the failure with the probe counter reset: admission is refused at
/// every instant earlier than `open_duration_ms` past that failure.
pub proof fn lemma_half_open_failure_reopens(
    cfg: CircuitBreakerConfig,
    rec: BreakerRec,
    opened: u64,
    fail_ms: u64,
    now_ms: u64,
)
    requires
        rec.2 == Some(opened),
        now_ms - fail_ms < cfg.open_duration_ms,
    ensures
        failure_step(rec, cfg, fail_ms).2 == Some(fail_ms),
        failure_step(rec, cfg, fail_ms).3 == 0,
        rec_state(failure_step(rec, cfg, fail_ms), cfg, now_ms) == CircuitState::Open,
        !allow_step(failure_step(rec, cfg, fail_ms), cfg, now_ms).0,
{
}

/// The record after a run of `n` recorded successes.
pub open spec fn apply_successes(rec: BreakerRec, cfg: CircuitBreakerConfig, n: nat) -> BreakerRec
    decreases n,
{
    if n == 0 {
        rec
    } else {
        apply_successes(success_step(rec, cfg), cfg, (n - 1) as nat)
    }
}

proof fn lemma_successes_accumulate(cfg: CircuitBreakerConfig, rec: BreakerRec, m: nat)
    requires
        rec.1 + m < cfg.half_open_successes,
    ensures
        apply_successes(rec, cfg, m) == (
            if m == 0 { rec.0 } else { 0u32 },
            (rec.1 + m) as u32,
            rec.2,
            rec.3,
        ),
    decreases m,
{
    if m > 0 {
        lemma_successes_accumulate(cfg, success_step(rec, cfg), (m - 1) as nat);
    }
}

proof fn lemma_apply_successes_unfold_last(rec: BreakerRec, cfg: CircuitBreakerConfig, n: nat)
    requires
        n >= 1,
    ensures
        apply_successes(rec, cfg, n) == success_step(apply_successes(rec, cfg, (n - 1) as nat), cfg),
    decreases n,
{
    if n == 1 {
        assert(apply_successes(success_step(rec, cfg), cfg, 0) == success_step(rec, cfg));
    } else {
        lemma_apply_successes_unfold_last(success_step(rec, cfg), cfg, (n - 1) as nat);
    }
}

/// `half_open_successes` consecutive recorded successes while the circuit is
/// not closed return it to the fresh record: circuit closed, failure and
/// success counters and the probe counter all zero.
pub proof fn lemma_half_open_recovery(cfg: CircuitBreakerConfig, rec: BreakerRec, opened: u64)
    requires
        rec.2 == Some(opened),
        rec.1 == 0,
        1 <= cfg.half_open_successes,
        cfg.half_open_successes < u32::MAX,
    ensures
        apply_successes(rec, cfg, cfg.half_open_successes as nat) == init_rec(),
{
    let m = (cfg.half_open_successes - 1) as nat;
    lemma_successes_accumulate(cfg, rec, m);
    lemma_apply_successes_unfold_last(rec, cfg, cfg.half_open_successes as nat);
}

} // verus!
