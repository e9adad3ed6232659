//! Circuit breaker state machine.
//!
//! Time enters this module only as readings of a monotonic clock in milliseconds,
//! handed in by the caller; the breaker itself never reads a clock.
use vstd::prelude::*;

verus! {

/// Circuit breaker state machine for handling failures.
#[derive(Debug, Clone, Copy, PartialEq, Eq, Structural)]
pub enum CircuitState {
    /// Normal operation: all calls pass through.
    Closed { failure_count: u32 },
    /// The circuit is open: calls fail fast until the recovery timeout has elapsed.
    /// `opened_at` is the clock reading (milliseconds) taken when the circuit opened.
    Open { opened_at: u64 },
    /// Testing whether the protected service has recovered.
    HalfOpen { success_count: u32, failure_count: u32 },
}

/// Configuration for circuit breaker behavior.
#[derive(Debug, Clone, Copy, PartialEq, Eq, Structural)]
pub struct CircuitBreakerConfig {
    /// Number of consecutive failures before opening the circuit.
    pub failure_threshold: u32,
    /// How long (milliseconds) to wait in the open state before attempting recovery.
    pub recovery_timeout: u64,
    /// Successful calls needed to close the circuit from half-open.
    pub half_open_success_threshold: u32,
    /// Failures in half-open that reopen the circuit.
    pub half_open_failure_threshold: u32,
}

impl Default for CircuitBreakerConfig {
    /// Five failures, sixty seconds of recovery, three half-open successes, one half-open failure.
    fn default() -> (r: Self)
        ensures
            r.failure_threshold == 5,
            r.recovery_timeout == 60_000,
            r.half_open_success_threshold == 3,
            r.half_open_failure_threshold == 1,
    {
        CircuitBreakerConfig {
            failure_threshold: 5,
            recovery_timeout: 60_000,
            half_open_success_threshold: 3,
            half_open_failure_threshold: 1,
        }
    }
}

/// Milliseconds elapsed from `since` to `now`; a clock reading earlier than `since` counts as none.
pub open spec fn elapsed_millis(since: u64, now: u64) -> int {
    if now >= since {
        now - since
    } else {
        0
    }
}

/// The counters of a state stay below the thresholds that would have moved it on.
pub open spec fn counts_within_thresholds(config: CircuitBreakerConfig, state: CircuitState) -> bool {
    match state {
        CircuitState::Closed { failure_count } => failure_count == 0 || failure_count
            < config.failure_threshold,
        CircuitState::Open { .. } => true,
        CircuitState::HalfOpen { success_count, failure_count } => {
            &&& (success_count == 0 || success_count < config.half_open_success_threshold)
            &&& (failure_count == 0 || failure_count < config.half_open_failure_threshold)
        },
    }
}

/// Whether a call may pass at clock reading `now`, and the state afterwards.
/// An open circuit whose recovery timeout has elapsed moves to half-open and lets the call pass.
pub open spec fn spec_call_allowed(config: CircuitBreakerConfig, state: CircuitState, now: u64) -> (
    CircuitState,
    bool,
) {
    match state {
        CircuitState::Closed { .. } => (state, true),
        CircuitState::Open { opened_at } => {
            if elapsed_millis(opened_at, now) >= config.recovery_timeout {
                (CircuitState::HalfOpen { success_count: 0, failure_count: 0 }, true)
            } else {
                (state, false)
            }
        },
        CircuitState::HalfOpen { .. } => (state, true),
    }
}

/// The state after a successful call.
pub open spec fn spec_record_success(config: CircuitBreakerConfig, state: CircuitState) -> CircuitState {
    match state {
        CircuitState::Closed { .. } => CircuitState::Closed { failure_count: 0 },
        CircuitState::HalfOpen { success_count, .. } => {
            if success_count + 1 >= config.half_open_success_threshold {
                CircuitState::Closed { failure_count: 0 }
            } else {
                CircuitState::HalfOpen { success_count: (success_count + 1) as u32, failure_count: 0 }
            }
        },
        CircuitState::Open { .. } => state,
    }
}

/// The state after a failed call observed at clock reading `now`.
pub open spec fn spec_record_failure(config: CircuitBreakerConfig, state: CircuitState, now: u64) -> CircuitState {
    match state {
        CircuitState::Closed { failure_count } => {
            if failure_count + 1 >= config.failure_threshold {
                CircuitState::Open { opened_at: now }
            } else {
                CircuitState::Closed { failure_count: (failure_count + 1) as u32 }
            }
        },
        CircuitState::HalfOpen { success_count, failure_count } => {
            if failure_count + 1 >= config.half_open_failure_threshold {
                CircuitState::Open { opened_at: now }
            } else {
                CircuitState::HalfOpen { success_count, failure_count: (failure_count + 1) as u32 }
            }
        },
        CircuitState::Open { .. } => state,
    }
}

/// `n` failures in a row, all observed at clock reading `now`.
pub open spec fn spec_record_failures(
    config: CircuitBreakerConfig,
    state: CircuitState,
    n: nat,
    now: u64,
) -> CircuitState
    decreases n,
{
    if n == 0 {
        state
    } else {
        spec_record_failure(config, spec_record_failures(config, state, (n - 1) as nat, now), now)
    }
}

/// `n` successes in a row.
pub open spec fn spec_record_successes(config: CircuitBreakerConfig, state: CircuitState, n: nat) -> CircuitState
    decreases n,
{
    if n == 0 {
        state
    } else {
        spec_record_success(config, spec_record_successes(config, state, (n - 1) as nat))
    }
}

/// Every transition keeps the counters below the thresholds that would have moved the state on.
pub proof fn lemma_transitions_keep_counts(config: CircuitBreakerConfig, state: CircuitState, now: u64)
    requires
        counts_within_thresholds(config, state),
    ensures
        counts_within_thresholds(config, spec_call_allowed(config, state, now).0),
        counts_within_thresholds(config, spec_record_success(config, state)),
        counts_within_thresholds(config, spec_record_failure(config, state, now)),
{
}

/// Closed and half-open circuits let every call through and stay as they are.
pub proof fn lemma_closed_and_half_open_allow_calls(config: CircuitBreakerConfig, state: CircuitState, now: u64)
    requires
        !(state is Open),
    ensures
        spec_call_allowed(config, state, now) == (state, true),
{
}

/// An open circuit refuses calls until the recovery timeout has elapsed since it opened;
/// from then on the next check moves it to half-open and lets the call through.
pub proof fn lemma_open_blocks_until_recovery(config: CircuitBreakerConfig, opened_at: u64, now: u64)
    ensures
        elapsed_millis(opened_at, now) < config.recovery_timeout ==> spec_call_allowed(
            config,
            CircuitState::Open { opened_at },
            now,
        ) == (CircuitState::Open { opened_at }, false),
        elapsed_millis(opened_at, now) >= config.recovery_timeout ==> spec_call_allowed(
            config,
            CircuitState::Open { opened_at },
            now,
        ) == (CircuitState::HalfOpen { success_count: 0, failure_count: 0 }, true),
{
}

/// Outcomes recorded while the circuit is open change nothing.
pub proof fn lemma_open_ignores_outcomes(config: CircuitBreakerConfig, opened_at: u64, now: u64)
    ensures
        spec_record_success(config, CircuitState::Open { opened_at }) == (CircuitState::Open { opened_at }),
        spec_record_failure(config, CircuitState::Open { opened_at }, now) == (CircuitState::Open { opened_at }),
{
}

/// A success in the closed state resets the count of consecutive failures.
pub proof fn lemma_success_resets_failures(config: CircuitBreakerConfig, failure_count: u32)
    ensures
        spec_record_success(config, CircuitState::Closed { failure_count }) == (CircuitState::Closed {
            failure_count: 0,
        }),
{
}

/// Fewer consecutive failures than the threshold leave a freshly closed circuit closed, counting them.
pub proof fn lemma_failures_below_threshold_stay_closed(config: CircuitBreakerConfig, n: nat, now: u64)
    requires
        n < config.failure_threshold,
    ensures
        spec_record_failures(config, CircuitState::Closed { failure_count: 0 }, n, now) == (CircuitState::Closed {
            failure_count: n as u32,
        }),
    decreases n,
{
    if n > 0 {
        lemma_failures_below_threshold_stay_closed(config, (n - 1) as nat, now);
    }
}

/// As many consecutive failures as the (positive) threshold open a freshly closed circuit,
/// stamped with the clock reading of the last failure.
pub proof fn lemma_threshold_failures_open(config: CircuitBreakerConfig, now: u64)
    requires
        config.failure_threshold >= 1,
    ensures
        spec_record_failures(
            config,
            CircuitState::Closed { failure_count: 0 },
            config.failure_threshold as nat,
            now,
        ) == (CircuitState::Open { opened_at: now }),
{
    let n = config.failure_threshold as nat;
    lemma_failures_below_threshold_stay_closed(config, (n - 1) as nat, now);
}

/// Fewer consecutive successes than the half-open success threshold keep a fresh half-open
/// circuit half-open, counting them.
pub proof fn lemma_half_open_successes_below_threshold(config: CircuitBreakerConfig, n: nat)
    requires
        n < config.half_open_success_threshold,
    ensures
        spec_record_successes(config, CircuitState::HalfOpen { success_count: 0, failure_count: 0 }, n)
            == (CircuitState::HalfOpen { success_count: n as u32, failure_count: 0 }),
    decreases n,
{
    if n > 0 {
        lemma_half_open_successes_below_threshold(config, (n - 1) as nat);
    }
}

/// As many consecutive successes as the (positive) half-open success threshold close a fresh
/// half-open circuit.
pub proof fn lemma_half_open_successes_close(config: CircuitBreakerConfig)
    requires
        config.half_open_success_threshold >= 1,
    ensures
        spec_record_successes(
            config,
            CircuitState::HalfOpen { success_count: 0, failure_count: 0 },
            config.half_open_success_threshold as nat,
        ) == (CircuitState::Closed { failure_count: 0 }),
{
    let n = config.half_open_success_threshold as nat;
    lemma_half_open_successes_below_threshold(config, (n - 1) as nat);
}

/// Fewer consecutive failures than the half-open failure threshold keep a half-open circuit
/// (with no failures yet) half-open, counting them.
pub proof fn lemma_half_open_failures_below_threshold(
    config: CircuitBreakerConfig,
    success_count: u32,
    n: nat,
    now: u64,
)
    requires
        n < config.half_open_failure_threshold,
    ensures
        spec_record_failures(config, CircuitState::HalfOpen { success_count, failure_count: 0 }, n, now)
            == (CircuitState::HalfOpen { success_count, failure_count: n as u32 }),
    decreases n,
{
    if n > 0 {
        lemma_half_open_failures_below_threshold(config, success_count, (n - 1) as nat, now);
    }
}

/// A success in the half-open state counts itself and forgets the half-open failures before it:
/// if it does not close the circuit, it leaves `success_count + 1` successes and no failure, so
/// that fewer than `half_open_failure_threshold` further failures keep the circuit half-open and
/// exactly that many reopen it; if it reaches `half_open_success_threshold`, it closes the circuit.
pub proof fn lemma_half_open_success_forgets_failures(
    config: CircuitBreakerConfig,
    success_count: u32,
    failure_count: u32,
    n: nat,
    now: u64,
)
    ensures
        success_count + 1 >= config.half_open_success_threshold ==> spec_record_success(
            config,
            CircuitState::HalfOpen { success_count, failure_count },
        ) == (CircuitState::Closed { failure_count: 0 }),
        success_count + 1 < config.half_open_success_threshold ==> spec_record_success(
            config,
            CircuitState::HalfOpen { success_count, failure_count },
        ) == (CircuitState::HalfOpen { success_count: (success_count + 1) as u32, failure_count: 0 }),
        success_count + 1 < config.half_open_success_threshold && n < config.half_open_failure_threshold
            ==> spec_record_failures(
            config,
            spec_record_success(config, CircuitState::HalfOpen { success_count, failure_count }),
            n,
            now,
        ) == (CircuitState::HalfOpen { success_count: (success_count + 1) as u32, failure_count: n as u32 }),
        success_count + 1 < config.half_open_success_threshold && config.half_open_failure_threshold >= 1
            ==> spec_record_failures(
            config,
            spec_record_success(config, CircuitState::HalfOpen { success_count, failure_count }),
            config.half_open_failure_threshold as nat,
            now,
        ) == (CircuitState::Open { opened_at: now }),
{
    if success_count + 1 < config.half_open_success_threshold {
        let s = (success_count + 1) as u32;
        if n < config.half_open_failure_threshold {
            lemma_half_open_failures_below_threshold(config, s, n, now);
        }
        if config.half_open_failure_threshold >= 1 {
            lemma_half_open_failures_reopen(config, s, now);
        }
    }
}

/// As many consecutive failures as the (positive) half-open failure threshold reopen a half-open
/// circuit, stamped with the clock reading of the last failure.
pub proof fn lemma_half_open_failures_reopen(config: CircuitBreakerConfig, success_count: u32, now: u64)
    requires
        config.half_open_failure_threshold >= 1,
    ensures
        spec_record_failures(
            config,
            CircuitState::HalfOpen { success_count, failure_count: 0 },
            config.half_open_failure_threshold as nat,
            now,
        ) == (CircuitState::Open { opened_at: now }),
{
    let n = config.half_open_failure_threshold as nat;
    lemma_half_open_failures_below_threshold(config, success_count, (n - 1) as nat, now);
}

/// Circuit breaker protecting against cascading failures.
#[derive(Debug)]
pub struct CircuitBreaker {
    state: CircuitState,
    config: CircuitBreakerConfig,
    name: String,
}

impl CircuitBreaker {
    #[verifier::type_invariant]
    closed spec fn inv(self) -> bool {
        counts_within_thresholds(self.config, self.state)
    }

    /// The current state.
    pub closed spec fn spec_state(self) -> CircuitState {
        self.state
    }

    /// The configuration the breaker was made with.
    pub closed spec fn spec_config(self) -> CircuitBreakerConfig {
        self.config
    }

    /// The name used in log messages.
    pub closed spec fn spec_name(self) -> Seq<char> {
        self.name@
    }

    /// Creates a closed circuit breaker with no failures recorded.
    pub fn new(name: String, config: CircuitBreakerConfig) -> (r: Self)
        ensures
            r.spec_state() == (CircuitState::Closed { failure_count: 0 }),
            r.spec_config() == config,
            r.spec_name() == name@,
            counts_within_thresholds(r.spec_config(), r.spec_state()),
    {
        CircuitBreaker { state: CircuitState::Closed { failure_count: 0 }, config, name }
    }

    /// The current state.
    pub fn state(&self) -> (r: CircuitState)
        ensures
            r == self.spec_state(),
            counts_within_thresholds(self.spec_config(), r),
    {
        proof {
            use_type_invariant(self);
        }
        self.state
    }

    /// The configuration.
    pub fn config(&self) -> (r: CircuitBreakerConfig)
        ensures
            r == self.spec_config(),
    {
        self.config
    }

    /// The name.
    pub fn name(&self) -> (r: &String)
        ensures
            r@ == self.spec_name(),
    {
        &self.name
    }

    /// Checks whether a call is allowed through the breaker at clock reading `now`.
    /// An open circuit whose recovery timeout has elapsed moves to half-open.
    pub fn call_allowed(&mut self, now: u64) -> (allowed: bool)
        ensures
            (final(self).spec_state(), allowed) == spec_call_allowed(old(self).spec_config(), old(self).spec_state(), now),
            final(self).spec_config() == old(self).spec_config(),
            final(self).spec_name() == old(self).spec_name(),
            counts_within_thresholds(final(self).spec_config(), final(self).spec_state()),
    {
        proof {
            use_type_invariant(&*self);
        }
        match self.state {
            CircuitState::Closed { .. } => true,
            CircuitState::Open { opened_at } => {
                let elapsed = if now >= opened_at {
                    now - opened_at
                } else {
                    0
                };
                if elapsed >= self.config.recovery_timeout {
                    self.state = CircuitState::HalfOpen { success_count: 0, failure_count: 0 };
                    true
                } else {
                    false
                }
            },
            CircuitState::HalfOpen { .. } => true,
        }
    }

    /// Records a successful call.
    pub fn record_success(&mut self)
        ensures
            final(self).spec_state() == spec_record_success(old(self).spec_config(), old(self).spec_state()),
            final(self).spec_config() == old(self).spec_config(),
            final(self).spec_name() == old(self).spec_name(),
            counts_within_thresholds(final(self).spec_config(), final(self).spec_state()),
    {
        proof {
            use_type_invariant(&*self);
        }
        match self.state {
            CircuitState::Closed { .. } => {
                self.state = CircuitState::Closed { failure_count: 0 };
            },
            CircuitState::HalfOpen { success_count, .. } => {
                let new_success_count = success_count + 1;
                if new_success_count >= self.config.half_open_success_threshold {
                    self.state = CircuitState::Closed { failure_count: 0 };
                } else {
                    self.state = CircuitState::HalfOpen { success_count: new_success_count, failure_count: 0 };
                }
            },
            CircuitState::Open { .. } => {},
        }
    }

    /// Records a failed call observed at clock reading `now`.
    pub fn record_failure(&mut self, now: u64)
        ensures
            final(self).spec_state() == spec_record_failure(old(self).spec_config(), old(self).spec_state(), now),
            final(self).spec_config() == old(self).spec_config(),
            final(self).spec_name() == old(self).spec_name(),
            counts_within_thresholds(final(self).spec_config(), final(self).spec_state()),
    {
        proof {
            use_type_invariant(&*self);
        }
        match self.state {
            CircuitState::Closed { failure_count } => {
                let new_failure_count = failure_count + 1;
                if new_failure_count >= self.config.failure_threshold {
                    self.state = CircuitState::Open { opened_at: now };
                } else {
                    self.state = CircuitState::Closed { failure_count: new_failure_count };
                }
            },
            CircuitState::HalfOpen { success_count, failure_count } => {
                let new_failure_count = failure_count + 1;
                if new_failure_count >= self.config.half_open_failure_threshold {
                    self.state = CircuitState::Open { opened_at: now };
                } else {
                    self.state = CircuitState::HalfOpen { success_count, failure_count: new_failure_count };
                }
            },
            CircuitState::Open { .. } => {},
        }
    }

    /// Checks whether the circuit is currently open.
    pub fn is_open(&self) -> (r: bool)
        ensures
            r == (self.spec_state() is Open),
    {
        match self.state {
            CircuitState::Open { .. } => true,
            _ => false,
        }
    }
}

} // verus!
