//! Retry policy for wallet IO.
//!
//! A [`RetryPolicy`] configures how often a transient failure is retried and how long the
//! caller waits in between. [`RetryLoop`] decides, after each failed attempt, whether to wait
//! and try again or to surface the failure; [`GuardedCall`] puts a circuit breaker around the
//! loop, so that one guarded call is one unit of breaker accounting.

use crate::circuit_breaker::{CircuitBreaker, CircuitBreakerState};
use crate::error::WalletError;
use vstd::prelude::*;

verus! {

/// Posture introspection: did this error class earn a retry?
pub trait IsRetryable {
    /// Whether the same call may succeed on retry.
    spec fn earns_retry(&self) -> bool;

    /// `true` when the same call may succeed on retry.
    fn is_retryable(&self) -> (retryable: bool)
        ensures
            retryable == self.earns_retry(),
    ;
}

/// Retry policy applied to outbound wallet IO.
#[derive(Clone, Copy, Debug, PartialEq, Eq, Structural)]
pub struct RetryPolicy {
    /// Maximum number of attempts including the initial call. `1` disables retries.
    pub max_attempts: u32,
    /// Backoff between the first attempt and the second, in milliseconds.
    pub initial_backoff_ms: u32,
    /// Cap on the backoff duration, in milliseconds.
    pub max_backoff_ms: u32,
    /// Multiplier applied to the prior backoff between successive retries, in tenths.
    pub backoff_multiplier_x10: u32,
}

impl RetryPolicy {
    /// No retries: a single attempt, never sleeps. Failed calls surface immediately.
    pub fn none() -> (policy: RetryPolicy)
        ensures
            policy == (RetryPolicy {
                max_attempts: 1,
                initial_backoff_ms: 0,
                max_backoff_ms: 0,
                backoff_multiplier_x10: 10,
            }),
    {
        RetryPolicy {
            max_attempts: 1,
            initial_backoff_ms: 0,
            max_backoff_ms: 0,
            backoff_multiplier_x10: 10,
        }
    }

    /// `max_attempts` attempts with a fixed `delay_ms` between every retry.
    pub fn linear(max_attempts: u32, delay_ms: u32) -> (policy: RetryPolicy)
        ensures
            policy == Self::linear_spec(max_attempts, delay_ms),
    {
        RetryPolicy {
            max_attempts,
            initial_backoff_ms: delay_ms,
            max_backoff_ms: delay_ms,
            backoff_multiplier_x10: 10,
        }
    }

    /// The policy that [`RetryPolicy::linear`] returns.
    pub open spec fn linear_spec(max_attempts: u32, delay_ms: u32) -> RetryPolicy {
        RetryPolicy {
            max_attempts,
            initial_backoff_ms: delay_ms,
            max_backoff_ms: delay_ms,
            backoff_multiplier_x10: 10,
        }
    }

    /// The policy of a wallet that was given none: three attempts, the backoff doubling from
    /// 100 milliseconds up to two seconds.
    pub open spec fn default_spec() -> RetryPolicy {
        RetryPolicy {
            max_attempts: 3,
            initial_backoff_ms: 100,
            max_backoff_ms: 2_000,
            backoff_multiplier_x10: 20,
        }
    }

    /// The backoff that follows a backoff of `delay_ms`: grown by the multiplier, held at the
    /// cap.
    pub open spec fn next_delay_ms(self, delay_ms: int) -> int {
        crate::domain::lesser(
            delay_ms * self.backoff_multiplier_x10 as int / 10,
            self.max_backoff_ms as int,
        )
    }

    /// The backoff before attempt `retry + 2`, where `retry` counts the retries from zero. The
    /// first is held at the cap like every other.
    pub open spec fn delay_before_retry_ms(self, retry: nat) -> int
        decreases retry,
    {
        if retry == 0 {
            crate::domain::lesser(self.initial_backoff_ms as int, self.max_backoff_ms as int)
        } else {
            self.next_delay_ms(self.delay_before_retry_ms((retry - 1) as nat))
        }
    }

    /// Attempts the policy grants: at least the initial call.
    pub open spec fn attempts_granted(self) -> int {
        if self.max_attempts == 0 {
            1
        } else {
            self.max_attempts as int
        }
    }
}

impl Default for RetryPolicy {
    fn default() -> (policy: Self)
        ensures
            policy == Self::default_spec(),
    {
        RetryPolicy {
            max_attempts: 3,
            initial_backoff_ms: 100,
            max_backoff_ms: 2_000,
            backoff_multiplier_x10: 20,
        }
    }
}

/// What to do after a failed attempt.
#[derive(Clone, Copy, Debug, PartialEq, Eq, Structural)]
pub enum RetryStep {
    /// Wait this long, then run the operation again.
    Sleep {
        /// How long to wait, in milliseconds.
        delay_ms: u32,
    },
    /// Surface the failure.
    GiveUp,
}

/// Progress of one retried operation.
#[derive(Clone, Copy, Debug)]
pub struct RetryLoop {
    policy: RetryPolicy,
    attempts: u32,
    delay_ms: u32,
}

impl RetryLoop {
    /// The policy the loop follows.
    pub closed spec fn policy_spec(&self) -> RetryPolicy {
        self.policy
    }

    /// Failed attempts so far.
    pub closed spec fn failures(&self) -> nat {
        self.attempts as nat
    }

    #[verifier::type_invariant]
    closed spec fn on_schedule(self) -> bool {
        &&& self.attempts < u32::MAX
        &&& self.attempts < self.policy.attempts_granted()
        &&& self.delay_ms == self.policy.delay_before_retry_ms(self.attempts as nat)
    }

    /// Starts a retried operation under `policy`.
    pub fn start(policy: RetryPolicy) -> (retry: RetryLoop)
        ensures
            retry.policy_spec() == policy,
            retry.failures() == 0,
    {
        let delay_ms: u32 = if policy.initial_backoff_ms <= policy.max_backoff_ms {
            policy.initial_backoff_ms
        } else {
            policy.max_backoff_ms
        };
        RetryLoop { policy, attempts: 0, delay_ms }
    }

    /// What follows a failed attempt when `failures` attempts failed before it. A failure that
    /// earned no retry, and the failure of the last attempt the policy grants, surface; any
    /// other failure waits for the backoff of its turn.
    pub open spec fn step_spec(policy: RetryPolicy, failures: nat, retryable: bool) -> RetryStep {
        if !retryable || failures + 1 >= policy.attempts_granted() {
            RetryStep::GiveUp
        } else {
            RetryStep::Sleep { delay_ms: policy.delay_before_retry_ms(failures) as u32 }
        }
    }

    /// Decides what follows a failed attempt, and where the loop stands for the next one.
    pub fn after_failure(self, retryable: bool) -> (step: (RetryStep, Option<RetryLoop>))
        ensures
            step.0 == Self::step_spec(self.policy_spec(), self.failures(), retryable),
            step.0 is GiveUp <==> step.1 is None,
            step.1 matches Some(next) ==> next.policy_spec() == self.policy_spec()
                && next.failures() == self.failures() + 1,
            step.0 matches RetryStep::Sleep { delay_ms } ==> delay_ms
                == self.policy_spec().delay_before_retry_ms(self.failures()),
    {
        proof {
            use_type_invariant(self);
        }
        let attempts: u32 = self.attempts + 1;
        if !retryable || attempts >= self.policy.max_attempts {
            return (RetryStep::GiveUp, None);
        }
        let delay_ms: u32 = self.delay_ms;
        let multiplier: u32 = self.policy.backoff_multiplier_x10;
        assert(0 <= delay_ms * multiplier <= u32::MAX * u32::MAX) by (nonlinear_arith)
            requires
                0 <= delay_ms <= u32::MAX,
                0 <= multiplier <= u32::MAX,
        ;
        let grown: u64 = (delay_ms as u64 * multiplier as u64) / 10;
        let next_ms: u32 = if grown <= self.policy.max_backoff_ms as u64 {
            grown as u32
        } else {
            self.policy.max_backoff_ms
        };
        let next = RetryLoop { policy: self.policy, attempts, delay_ms: next_ms };
        (RetryStep::Sleep { delay_ms }, Some(next))
    }
}

/// Every backoff is held at the cap, the first included.
pub proof fn backoff_is_capped(policy: RetryPolicy, retry: nat)
    ensures
        policy.delay_before_retry_ms(retry) <= policy.max_backoff_ms,
{
}

/// A linear policy waits the same time before every retry.
pub proof fn linear_backoff_is_fixed(max_attempts: u32, delay_ms: u32, retry: nat)
    ensures
        RetryPolicy::linear_spec(max_attempts, delay_ms).delay_before_retry_ms(retry) == delay_ms,
    decreases retry,
{
    if retry > 0 {
        linear_backoff_is_fixed(max_attempts, delay_ms, (retry - 1) as nat);
    }
}

/// How many attempts an operation makes when attempt `i` succeeds where `outcomes[i]` is `Ok`,
/// fails retryably where it is `Err(true)`, and fails permanently where it is `Err(false)`.
/// Reads `outcomes` from attempt `done` on.
pub open spec fn attempts_made(
    policy: RetryPolicy,
    outcomes: Seq<Result<(), bool>>,
    done: nat,
) -> nat
    decreases outcomes.len() - done,
{
    if done >= outcomes.len() {
        done
    } else {
        match outcomes[done as int] {
            Ok(_) => done + 1,
            Err(retryable) => if RetryLoop::step_spec(policy, done, retryable) is GiveUp {
                done + 1
            } else {
                attempts_made(policy, outcomes, done + 1)
            },
        }
    }
}

/// An operation never makes more attempts than its policy grants.
pub proof fn attempts_are_bounded(
    policy: RetryPolicy,
    outcomes: Seq<Result<(), bool>>,
    done: nat,
)
    requires
        done < policy.attempts_granted(),
    ensures
        attempts_made(policy, outcomes, done) <= policy.attempts_granted(),
    decreases outcomes.len() - done,
{
    if done < outcomes.len() && outcomes[done as int] == Err::<(), bool>(true) && done + 1
        < policy.attempts_granted() {
        attempts_are_bounded(policy, outcomes, done + 1);
    }
}

/// A permanent failure is the last attempt: nothing is retried after it.
pub proof fn a_permanent_failure_surfaces_at_once(
    policy: RetryPolicy,
    outcomes: Seq<Result<(), bool>>,
    done: nat,
)
    requires
        done < outcomes.len(),
        outcomes[done as int] == Err::<(), bool>(false),
    ensures
        attempts_made(policy, outcomes, done) == done + 1,
{
}

/// How one guarded call ended.
#[derive(Clone, Copy, Debug, PartialEq, Eq, Structural)]
pub enum CallEnd {
    /// The operation succeeded.
    Succeeded,
    /// The operation failed.
    Failed {
        /// Whether the failure earned a retry.
        retryable: bool,
    },
    /// The operation was dropped before it ended.
    Abandoned,
}

/// A retried operation behind a circuit breaker.
pub struct GuardedCall {
    retry: RetryLoop,
    is_probe: bool,
}

impl GuardedCall {
    /// The retry loop of the admitted call.
    pub closed spec fn retry_spec(&self) -> RetryLoop {
        self.retry
    }

    /// Whether the call is the breaker's half-open probe.
    pub closed spec fn is_probe_spec(&self) -> bool {
        self.is_probe
    }

    /// The retry loop of the admitted call.
    pub fn retry(&self) -> (retry: RetryLoop)
        ensures
            retry == self.retry_spec(),
    {
        self.retry
    }

    /// Asks the breaker for a call. A breaker that is open, or whose probe is under way, refuses
    /// it with [`WalletError::CircuitBroken`]; an admitted call starts its retry loop, and is
    /// the probe if it found the breaker open.
    pub fn begin(
        breaker: &mut CircuitBreaker,
        policy: RetryPolicy,
        operation: &'static str,
        now_nanos: u128,
    ) -> (admitted: Result<GuardedCall, WalletError>)
        ensures
            final(breaker).config_spec() == old(breaker).config_spec(),
            final(breaker).state_spec() == CircuitBreaker::state_after_ask(
                old(breaker).config_spec(),
                old(breaker).state_spec(),
                now_nanos,
            ),
            CircuitBreaker::permits(
                old(breaker).config_spec(),
                old(breaker).state_spec(),
                now_nanos,
            ) ==> {
                &&& admitted matches Ok(call)
                &&& call.retry_spec().policy_spec() == policy
                &&& call.retry_spec().failures() == 0
                &&& call.is_probe_spec() == (old(breaker).state_spec() is Open)
            },
            !CircuitBreaker::permits(
                old(breaker).config_spec(),
                old(breaker).state_spec(),
                now_nanos,
            ) ==> admitted == Err::<GuardedCall, WalletError>(
                WalletError::CircuitBroken { operation },
            ),
    {
        let is_probe = match breaker.state() {
            CircuitBreakerState::Open => true,
            _ => false,
        };
        if breaker.allow_call(now_nanos) {
            Ok(GuardedCall { retry: RetryLoop::start(policy), is_probe })
        } else {
            Err(WalletError::CircuitBroken { operation })
        }
    }

    /// Records the end of the call on the breaker: one success, or one failure if the error
    /// that surfaced earned a retry. A permanent failure says nothing about the boundary's
    /// health and counts as a success. An abandoned call counts for nothing, unless it is the
    /// probe that a half-open breaker waits for: that one counts as a failure, so that another
    /// cooldown leads to another probe.
    pub fn finish(self, breaker: &mut CircuitBreaker, end: CallEnd, now_nanos: u128)
        ensures
            final(breaker).config_spec() == old(breaker).config_spec(),
            final(breaker).state_spec() == breaker_after_call(
                old(breaker).config_spec(),
                old(breaker).state_spec(),
                self.is_probe_spec(),
                end,
                now_nanos,
            ),
    {
        match end {
            CallEnd::Failed { retryable: true } => breaker.record_failure(now_nanos),
            CallEnd::Succeeded | CallEnd::Failed { retryable: false } => breaker.record_success(),
            CallEnd::Abandoned => {
                let is_awaited = match breaker.state() {
                    CircuitBreakerState::HalfOpen => self.is_probe,
                    _ => false,
                };
                if is_awaited {
                    breaker.record_failure(now_nanos);
                }
            },
        }
    }
}

/// The breaker's state after a guarded call that ended as `end`.
pub open spec fn breaker_after_call(
    config: crate::circuit_breaker::CircuitBreakerConfig,
    state: crate::circuit_breaker::CircuitState,
    is_probe: bool,
    end: CallEnd,
    now_nanos: u128,
) -> crate::circuit_breaker::CircuitState {
    match end {
        CallEnd::Failed { retryable: true } => CircuitBreaker::state_after_failure(
            config,
            state,
            now_nanos,
        ),
        CallEnd::Succeeded | CallEnd::Failed { retryable: false } => {
            CircuitBreaker::state_after_success()
        },
        CallEnd::Abandoned => if is_probe && state is HalfOpen {
            CircuitBreaker::state_after_failure(config, state, now_nanos)
        } else {
            state
        },
    }
}

/// A probe never leaves the breaker half-open, not even an abandoned one: a success or a
/// permanent failure closes it, anything else opens it for another cooldown, after which the
/// next call is the next probe.
pub proof fn every_probe_is_settled(
    config: crate::circuit_breaker::CircuitBreakerConfig,
    end: CallEnd,
    ended_at_nanos: u128,
    now_nanos: u128,
)
    requires
        now_nanos >= ended_at_nanos + config.cooldown_nanos,
    ensures
        ({
            let settled = breaker_after_call(
                config,
                crate::circuit_breaker::CircuitState::HalfOpen,
                true,
                end,
                ended_at_nanos,
            );
            &&& settled is Closed <==> (end is Succeeded || end == (CallEnd::Failed {
                retryable: false,
            }))
            &&& settled is Closed || settled is Open
            &&& CircuitBreaker::permits(config, settled, now_nanos)
        }),
{
}

/// An abandoned call that is not the awaited probe leaves no trace on the breaker.
pub proof fn an_abandoned_call_counts_for_nothing(
    config: crate::circuit_breaker::CircuitBreakerConfig,
    state: crate::circuit_breaker::CircuitState,
    is_probe: bool,
    now_nanos: u128,
)
    requires
        !is_probe || !(state is HalfOpen),
    ensures
        breaker_after_call(config, state, is_probe, CallEnd::Abandoned, now_nanos) == state,
{
}

/// One guarded call is one unit of breaker accounting, however often it was retried: from a
/// closed breaker, a call that ended adds one failure or clears the count.
pub proof fn one_call_is_one_count(
    config: crate::circuit_breaker::CircuitBreakerConfig,
    consecutive_failures: u32,
    is_probe: bool,
    end: CallEnd,
    now_nanos: u128,
)
    requires
        consecutive_failures + 1 < config.failure_threshold,
        !(end is Abandoned),
    ensures
        breaker_after_call(
            config,
            crate::circuit_breaker::CircuitState::Closed { consecutive_failures },
            is_probe,
            end,
            now_nanos,
        ) == (crate::circuit_breaker::CircuitState::Closed {
            consecutive_failures: if end == (CallEnd::Failed { retryable: true }) {
                (consecutive_failures + 1) as u32
            } else {
                0
            },
        }),
{
}

} // verus!
