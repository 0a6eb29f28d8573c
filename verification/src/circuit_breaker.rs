//! Circuit breaker for wallet IO.
//!
//! Tracks consecutive retryable failures and trips open when they cross a threshold. While
//! open, calls short-circuit until the cooldown elapses; the next call enters a half-open
//! probe, and until the probe's outcome is recorded no other call passes. A successful probe
//! re-closes the breaker; another failure re-opens it for another cooldown window.
//!
//! Time is a monotonic clock reading in nanoseconds that the caller passes in.

use vstd::prelude::*;

verus! {

/// Configuration for [`CircuitBreaker`].
#[derive(Clone, Copy, Debug, PartialEq, Eq, Structural)]
pub struct CircuitBreakerConfig {
    /// Number of consecutive retryable failures that trip the breaker open.
    pub failure_threshold: u32,
    /// How long the breaker stays open before allowing a half-open probe, in nanoseconds.
    pub cooldown_nanos: u128,
}

impl CircuitBreakerConfig {
    /// A configuration with the highest threshold there is and no cooldown.
    pub fn never_trip() -> (config: CircuitBreakerConfig)
        ensures
            config.failure_threshold == u32::MAX,
            config.cooldown_nanos == 0,
    {
        CircuitBreakerConfig { failure_threshold: u32::MAX, cooldown_nanos: 0 }
    }
}

impl Default for CircuitBreakerConfig {
    fn default() -> (config: Self)
        ensures
            config.failure_threshold == 5,
            config.cooldown_nanos == 60_000_000_000,
    {
        CircuitBreakerConfig { failure_threshold: 5, cooldown_nanos: 60_000_000_000 }
    }
}

/// Runtime state of a [`CircuitBreaker`], as its observers see it.
#[derive(Clone, Copy, Debug, PartialEq, Eq, Structural)]
pub enum CircuitBreakerState {
    /// All calls pass through.
    Closed {
        /// Consecutive failures observed since the last success.
        consecutive_failures: u32,
    },
    /// Calls short-circuit until the cooldown elapses.
    Open,
    /// The one probe call that is allowed is under way. Success re-closes the breaker; failure
    /// re-opens it.
    HalfOpen,
}

/// State of a breaker, with the moment it opened.
#[derive(Clone, Copy, Debug, PartialEq, Eq, Structural)]
pub enum CircuitState {
    /// Calls pass; the counter holds the failures since the last success.
    Closed {
        /// Failures since the last success.
        consecutive_failures: u32,
    },
    /// Calls are refused until the cooldown has passed since `opened_at_nanos`.
    Open {
        /// Clock reading when the breaker opened.
        opened_at_nanos: u128,
    },
    /// A probe is under way.
    HalfOpen,
}

/// Configurable circuit breaker for the wallet's IO boundary.
#[derive(Clone, Copy, Debug)]
pub struct CircuitBreaker {
    config: CircuitBreakerConfig,
    state: CircuitState,
}

impl CircuitBreaker {
    /// The breaker's configuration.
    pub closed spec fn config_spec(&self) -> CircuitBreakerConfig {
        self.config
    }

    /// The breaker's state.
    pub closed spec fn state_spec(&self) -> CircuitState {
        self.state
    }

    /// Whether a breaker in `state` lets a call pass at `now_nanos`: a half-open one does not,
    /// its one probe is under way.
    pub open spec fn permits(
        config: CircuitBreakerConfig,
        state: CircuitState,
        now_nanos: u128,
    ) -> bool {
        match state {
            CircuitState::Closed { .. } => true,
            CircuitState::HalfOpen => false,
            CircuitState::Open { opened_at_nanos } => {
                let elapsed: int = if now_nanos >= opened_at_nanos {
                    now_nanos - opened_at_nanos
                } else {
                    0
                };
                elapsed >= config.cooldown_nanos
            },
        }
    }

    /// The state after a call was asked for at `now_nanos`: an open breaker whose cooldown has
    /// passed starts its probe, nothing else changes.
    pub open spec fn state_after_ask(
        config: CircuitBreakerConfig,
        state: CircuitState,
        now_nanos: u128,
    ) -> CircuitState {
        if state is Open && Self::permits(config, state, now_nanos) {
            CircuitState::HalfOpen
        } else {
            state
        }
    }

    /// The state after a failed call: a closed breaker counts it and opens at the threshold,
    /// any other opens anew.
    pub open spec fn state_after_failure(
        config: CircuitBreakerConfig,
        state: CircuitState,
        now_nanos: u128,
    ) -> CircuitState {
        match state {
            CircuitState::Closed { consecutive_failures } => {
                let next: int = if consecutive_failures < u32::MAX {
                    consecutive_failures + 1
                } else {
                    consecutive_failures as int
                };
                if next >= config.failure_threshold {
                    CircuitState::Open { opened_at_nanos: now_nanos }
                } else {
                    CircuitState::Closed { consecutive_failures: next as u32 }
                }
            },
            _ => CircuitState::Open { opened_at_nanos: now_nanos },
        }
    }

    /// The state after a successful call.
    pub open spec fn state_after_success() -> CircuitState {
        CircuitState::Closed { consecutive_failures: 0 }
    }

    /// Constructs a breaker with `config`.
    pub fn new(config: CircuitBreakerConfig) -> (breaker: CircuitBreaker)
        ensures
            breaker.config_spec() == config,
            breaker.state_spec() == (CircuitState::Closed { consecutive_failures: 0 }),
    {
        CircuitBreaker { config, state: CircuitState::Closed { consecutive_failures: 0 } }
    }

    /// Returns the active configuration.
    pub fn config(&self) -> (config: CircuitBreakerConfig)
        ensures
            config == self.config_spec(),
    {
        self.config
    }

    /// What observers see of a state.
    pub open spec fn observed(state: CircuitState) -> CircuitBreakerState {
        match state {
            CircuitState::Closed { consecutive_failures } => CircuitBreakerState::Closed {
                consecutive_failures,
            },
            CircuitState::Open { .. } => CircuitBreakerState::Open,
            CircuitState::HalfOpen => CircuitBreakerState::HalfOpen,
        }
    }

    /// Returns the current breaker state.
    pub fn state(&self) -> (state: CircuitBreakerState)
        ensures
            state == Self::observed(self.state_spec()),
    {
        match self.state {
            CircuitState::Closed { consecutive_failures } => CircuitBreakerState::Closed {
                consecutive_failures,
            },
            CircuitState::Open { .. } => CircuitBreakerState::Open,
            CircuitState::HalfOpen => CircuitBreakerState::HalfOpen,
        }
    }

    /// Checks whether the breaker permits a call at `now_nanos`. If the breaker is open and the
    /// cooldown has elapsed, it becomes half-open and the call is permitted as its probe; every
    /// further call is refused until the probe's outcome is recorded.
    pub fn allow_call(&mut self, now_nanos: u128) -> (allowed: bool)
        ensures
            allowed == Self::permits(
                old(self).config_spec(),
                old(self).state_spec(),
                now_nanos,
            ),
            final(self).config_spec() == old(self).config_spec(),
            final(self).state_spec() == Self::state_after_ask(
                old(self).config_spec(),
                old(self).state_spec(),
                now_nanos,
            ),
    {
        match self.state {
            CircuitState::Closed { .. } => true,
            CircuitState::HalfOpen => false,
            CircuitState::Open { opened_at_nanos } => {
                let elapsed: u128 = if now_nanos >= opened_at_nanos {
                    now_nanos - opened_at_nanos
                } else {
                    0
                };
                if elapsed >= self.config.cooldown_nanos {
                    self.state = CircuitState::HalfOpen;
                    true
                } else {
                    false
                }
            },
        }
    }

    /// Records a successful call. Closes the breaker and resets its failure counter.
    pub fn record_success(&mut self)
        ensures
            final(self).config_spec() == old(self).config_spec(),
            final(self).state_spec() == Self::state_after_success(),
    {
        self.state = CircuitState::Closed { consecutive_failures: 0 };
    }

    /// Records a failed call. A closed breaker counts it and trips open at the configured
    /// threshold; a half-open failure re-opens the breaker immediately.
    pub fn record_failure(&mut self, now_nanos: u128)
        ensures
            final(self).config_spec() == old(self).config_spec(),
            final(self).state_spec() == Self::state_after_failure(
                old(self).config_spec(),
                old(self).state_spec(),
                now_nanos,
            ),
    {
        match self.state {
            CircuitState::Closed { consecutive_failures } => {
                let next: u32 = if consecutive_failures < u32::MAX {
                    consecutive_failures + 1
                } else {
                    consecutive_failures
                };
                if next >= self.config.failure_threshold {
                    self.state = CircuitState::Open { opened_at_nanos: now_nanos };
                } else {
                    self.state = CircuitState::Closed { consecutive_failures: next };
                }
            },
            CircuitState::HalfOpen | CircuitState::Open { .. } => {
                self.state = CircuitState::Open { opened_at_nanos: now_nanos };
            },
        }
    }
}

/// The state of a breaker after the failures recorded at `times`, one after the other.
pub open spec fn state_after_failures(
    config: CircuitBreakerConfig,
    state: CircuitState,
    times: Seq<u128>,
) -> CircuitState
    decreases times.len(),
{
    if times.len() == 0 {
        state
    } else {
        CircuitBreaker::state_after_failure(
            config,
            state_after_failures(config, state, times.drop_last()),
            times.last(),
        )
    }
}

/// A fresh breaker stays closed, counting, below its threshold, and is open once the failures
/// without a success in between reach it.
pub proof fn failures_trip_at_the_threshold(config: CircuitBreakerConfig, times: Seq<u128>)
    requires
        0 < times.len() <= u32::MAX,
    ensures
        times.len() < config.failure_threshold ==> state_after_failures(
            config,
            CircuitBreaker::state_after_success(),
            times,
        ) == (CircuitState::Closed { consecutive_failures: times.len() as u32 }),
        times.len() >= config.failure_threshold ==> state_after_failures(
            config,
            CircuitBreaker::state_after_success(),
            times,
        ) is Open,
    decreases times.len(),
{
    let fresh = CircuitBreaker::state_after_success();
    if times.len() == 1 {
        assert(state_after_failures(config, fresh, times.drop_last()) == fresh);
    } else {
        failures_trip_at_the_threshold(config, times.drop_last());
    }
}

/// The highest threshold keeps a breaker closed through every streak of fewer failures than
/// the counter can hold.
pub proof fn the_highest_threshold_does_not_trip(cooldown_nanos: u128, times: Seq<u128>)
    requires
        times.len() < u32::MAX,
    ensures
        state_after_failures(
            CircuitBreakerConfig { failure_threshold: u32::MAX, cooldown_nanos },
            CircuitBreaker::state_after_success(),
            times,
        ) is Closed,
{
    if times.len() > 0 {
        failures_trip_at_the_threshold(
            CircuitBreakerConfig { failure_threshold: u32::MAX, cooldown_nanos },
            times,
        );
    }
}

/// An open breaker refuses every call before its cooldown has passed and stays as it is.
pub proof fn an_open_breaker_refuses_until_cooled(
    config: CircuitBreakerConfig,
    opened_at_nanos: u128,
    now_nanos: u128,
)
    requires
        now_nanos < opened_at_nanos + config.cooldown_nanos,
        opened_at_nanos <= now_nanos,
    ensures
        !CircuitBreaker::permits(config, CircuitState::Open { opened_at_nanos }, now_nanos),
        CircuitBreaker::state_after_ask(
            config,
            CircuitState::Open { opened_at_nanos },
            now_nanos,
        ) == (CircuitState::Open { opened_at_nanos }),
{
}

/// Once the cooldown has passed, an open breaker admits the next call as a probe; the probe's
/// success closes it and its failure opens it for another cooldown, whatever the threshold.
pub proof fn a_cooled_breaker_probes(
    config: CircuitBreakerConfig,
    opened_at_nanos: u128,
    now_nanos: u128,
    failed_at_nanos: u128,
)
    requires
        now_nanos >= opened_at_nanos + config.cooldown_nanos,
    ensures
        CircuitBreaker::permits(config, CircuitState::Open { opened_at_nanos }, now_nanos),
        CircuitBreaker::state_after_ask(
            config,
            CircuitState::Open { opened_at_nanos },
            now_nanos,
        ) is HalfOpen,
        CircuitBreaker::state_after_success() == (CircuitState::Closed {
            consecutive_failures: 0,
        }),
        CircuitBreaker::state_after_failure(config, CircuitState::HalfOpen, failed_at_nanos) == (
        CircuitState::Open { opened_at_nanos: failed_at_nanos }),
{
}

/// The state of a breaker after calls were asked for at `times`, one after the other, with no
/// outcome recorded in between.
pub open spec fn state_after_asks(
    config: CircuitBreakerConfig,
    state: CircuitState,
    times: Seq<u128>,
) -> CircuitState
    decreases times.len(),
{
    if times.len() == 0 {
        state
    } else {
        CircuitBreaker::state_after_ask(
            config,
            state_after_asks(config, state, times.drop_last()),
            times.last(),
        )
    }
}

/// Between the ask that starts a probe and the next recorded outcome, every ask is refused and
/// the breaker stays half-open, however often and whenever it is asked.
pub proof fn one_probe_until_an_outcome(
    config: CircuitBreakerConfig,
    opened_at_nanos: u128,
    probed_at_nanos: u128,
    times: Seq<u128>,
    now_nanos: u128,
)
    requires
        CircuitBreaker::permits(config, CircuitState::Open { opened_at_nanos }, probed_at_nanos),
    ensures
        ({
            let probing = CircuitBreaker::state_after_ask(
                config,
                CircuitState::Open { opened_at_nanos },
                probed_at_nanos,
            );
            &&& state_after_asks(config, probing, times) is HalfOpen
            &&& !CircuitBreaker::permits(
                config,
                state_after_asks(config, probing, times),
                now_nanos,
            )
        }),
    decreases times.len(),
{
    if times.len() > 0 {
        one_probe_until_an_outcome(
            config,
            opened_at_nanos,
            probed_at_nanos,
            times.drop_last(),
            now_nanos,
        );
    }
}

} // verus!
