//! How outbound calls are repeated and guarded, and how a wallet is provisioned.

use crate::boundary_error::SealingError;
use crate::circuit_breaker::{
    CircuitBreaker, CircuitBreakerConfig, CircuitBreakerState, CircuitState,
};
use crate::domain::{AccountId, BlockHeight, Network};
use crate::error::WalletError;
use crate::provisioning::{
    ProvisionEnd, ProvisionEvent, ProvisionIntent, ProvisionRequest, ProvisionStage, Provisioning,
};
use crate::retry::{CallEnd, RetryLoop, RetryPolicy, RetryStep};
use vstd::prelude::*;

verus! {

/// A failure is retried exactly if it earned a retry and the policy grants another attempt; the
/// wait is the backoff of its turn.
pub proof fn a_failure_is_retried_while_attempts_are_left(
    policy: RetryPolicy,
    failures: nat,
    retryable: bool,
)
    ensures
        ({
            let step = RetryLoop::step_spec(policy, failures, retryable);
            &&& retryable && failures + 1 < policy.max_attempts ==> {
                &&& step matches RetryStep::Sleep { delay_ms }
                &&& delay_ms == policy.delay_before_retry_ms(failures)
            }
            &&& !(retryable && failures + 1 < policy.max_attempts) ==> step is GiveUp
        }),
{
    delays_are_counts(policy, failures);
    crate::retry::backoff_is_capped(policy, failures);
}

proof fn delays_are_counts(policy: RetryPolicy, retry: nat)
    ensures
        policy.delay_before_retry_ms(retry) >= 0,
    decreases retry,
{
    if retry > 0 {
        delays_are_counts(policy, (retry - 1) as nat);
        let before = policy.delay_before_retry_ms((retry - 1) as nat);
        let factor = policy.backoff_multiplier_x10 as int;
        assert(before * factor >= 0) by (nonlinear_arith)
            requires
                before >= 0,
                factor >= 0,
        ;
    }
}

/// The first wait is the policy's first backoff, each next one the last grown by the multiplier
/// in tenths, and every one is held at the cap.
pub proof fn waits_grow_by_the_multiplier(policy: RetryPolicy, retry: nat)
    ensures
        ({
            let cap = policy.max_backoff_ms as int;
            let now = policy.delay_before_retry_ms(retry);
            let grown = now * policy.backoff_multiplier_x10 as int / 10;
            let next = policy.delay_before_retry_ms(retry + 1);
            &&& grown <= cap ==> next == grown
            &&& grown > cap ==> next == cap
            &&& policy.initial_backoff_ms <= cap ==> policy.delay_before_retry_ms(0)
                == policy.initial_backoff_ms
            &&& policy.initial_backoff_ms > cap ==> policy.delay_before_retry_ms(0) == cap
        }),
{
}

/// A wallet given no policy makes three attempts, a tenth of a second and then two tenths
/// apart.
pub proof fn the_default_policy_waits_a_tenth_and_then_two()
    ensures
        RetryPolicy::default_spec().attempts_granted() == 3,
        RetryPolicy::default_spec().delay_before_retry_ms(0) == 100,
        RetryPolicy::default_spec().delay_before_retry_ms(1) == 200,
        RetryPolicy::default_spec().max_backoff_ms == 2_000,
{
    reveal_with_fuel(RetryPolicy::delay_before_retry_ms, 2);
}

/// A policy grants its attempts, the first call included, and never fewer than that one.
pub proof fn a_policy_grants_its_attempts(policy: RetryPolicy)
    ensures
        policy.max_attempts > 0 ==> policy.attempts_granted() == policy.max_attempts,
        policy.max_attempts == 0 ==> policy.attempts_granted() == 1,
{
}

/// An operation that keeps failing retryably makes every attempt its policy grants.
pub proof fn a_failing_operation_uses_every_attempt(
    policy: RetryPolicy,
    outcomes: Seq<Result<(), bool>>,
    done: nat,
)
    requires
        done < policy.attempts_granted() <= outcomes.len(),
        forall|i: int| 0 <= i < outcomes.len() ==> outcomes[i] == Err::<(), bool>(true),
    ensures
        crate::retry::attempts_made(policy, outcomes, done) == policy.attempts_granted(),
    decreases outcomes.len() - done,
{
    assert(outcomes[done as int] == Err::<(), bool>(true));
    if done + 1 < policy.attempts_granted() {
        a_failing_operation_uses_every_attempt(policy, outcomes, done + 1);
    }
}

/// A linear policy waits the given time and makes the given attempts.
pub proof fn a_linear_policy_says_what_it_was_given(max_attempts: u32, delay_ms: u32)
    ensures
        RetryPolicy::linear_spec(max_attempts, delay_ms).max_attempts == max_attempts,
        RetryPolicy::linear_spec(max_attempts, delay_ms).initial_backoff_ms == delay_ms,
        RetryPolicy::linear_spec(max_attempts, delay_ms).max_backoff_ms == delay_ms,
{
}

/// A closed breaker admits every call and is not changed by being asked.
pub proof fn a_closed_breaker_admits_every_call(
    config: CircuitBreakerConfig,
    consecutive_failures: u32,
    now_nanos: u128,
)
    ensures
        ({
            let closed = CircuitState::Closed { consecutive_failures };
            &&& CircuitBreaker::permits(config, closed, now_nanos)
            &&& CircuitBreaker::state_after_ask(config, closed, now_nanos) == closed
        }),
{
}

/// An open breaker admits a call exactly if its cooldown has passed since it opened; a clock
/// that went back counts as no time at all. The admitted call makes it half-open.
pub proof fn an_open_breaker_admits_after_its_cooldown(
    config: CircuitBreakerConfig,
    opened_at_nanos: u128,
    now_nanos: u128,
)
    ensures
        ({
            let open = CircuitState::Open { opened_at_nanos };
            let cooled = opened_at_nanos + config.cooldown_nanos <= now_nanos
                || config.cooldown_nanos == 0;
            &&& CircuitBreaker::permits(config, open, now_nanos) <==> cooled
            &&& cooled ==> CircuitBreaker::state_after_ask(config, open, now_nanos) is HalfOpen
            &&& !cooled ==> CircuitBreaker::state_after_ask(config, open, now_nanos) == open
        }),
{
}

/// A retryable failure is counted, and opens the breaker now once the threshold is reached; a
/// failure of a breaker that is not closed opens it anew.
pub proof fn a_failure_is_counted_and_opens_at_the_threshold(
    config: CircuitBreakerConfig,
    consecutive_failures: u32,
    now_nanos: u128,
)
    requires
        consecutive_failures < u32::MAX,
    ensures
        ({
            let closed = CircuitState::Closed { consecutive_failures };
            let opened = CircuitState::Open { opened_at_nanos: now_nanos };
            let next = CircuitBreaker::state_after_failure(config, closed, now_nanos);
            &&& consecutive_failures + 1 < config.failure_threshold ==> next == (
            CircuitState::Closed { consecutive_failures: (consecutive_failures + 1) as u32 })
            &&& consecutive_failures + 1 >= config.failure_threshold ==> next == opened
            &&& CircuitBreaker::state_after_failure(config, CircuitState::HalfOpen, now_nanos)
                == opened
            &&& CircuitBreaker::state_after_failure(config, opened, now_nanos) == opened
        }),
{
}

/// Observers see whether the breaker is closed, with its count, open, or probing.
pub proof fn observers_see_the_breaker_s_state(count: u32, opened_at_nanos: u128)
    ensures
        CircuitBreaker::observed(CircuitState::Closed { consecutive_failures: count }) == (
        CircuitBreakerState::Closed { consecutive_failures: count }),
        CircuitBreaker::observed(CircuitState::Open { opened_at_nanos }) is Open,
        CircuitBreaker::observed(CircuitState::HalfOpen) is HalfOpen,
{
}

/// A guarded call that succeeded, or failed for good, closes the breaker and clears its count,
/// whatever its state; one that failed retryably is one failure on it.
pub proof fn a_call_s_end_is_recorded_once(
    config: CircuitBreakerConfig,
    state: CircuitState,
    is_probe: bool,
    now_nanos: u128,
)
    ensures
        crate::retry::breaker_after_call(config, state, is_probe, CallEnd::Succeeded, now_nanos)
            == (CircuitState::Closed { consecutive_failures: 0 }),
        crate::retry::breaker_after_call(
            config,
            state,
            is_probe,
            CallEnd::Failed { retryable: false },
            now_nanos,
        ) == (CircuitState::Closed { consecutive_failures: 0 }),
        crate::retry::breaker_after_call(
            config,
            state,
            is_probe,
            CallEnd::Failed { retryable: true },
            now_nanos,
        ) == CircuitBreaker::state_after_failure(config, state, now_nanos),
        !(state is Closed) ==> crate::retry::breaker_after_call(
            config,
            state,
            is_probe,
            CallEnd::Failed { retryable: true },
            now_nanos,
        ) == (CircuitState::Open { opened_at_nanos: now_nanos }),
{
}

/// A new wallet is made from nothing: storage is opened, no seed is found, a fresh one is
/// sealed, the tree state right before the birthday is fetched, the account is created, and it
/// is the one the wallet opens with.
pub proof fn creating_a_wallet_ends_with_the_created_account(
    birthday: BlockHeight,
    missing: SealingError,
    account_id: AccountId,
)
    requires
        missing.kind is NoSealedSeed,
    ensures
        ({
            let intent = ProvisionIntent::Create { birthday };
            let opening = Provisioning { intent, stage: ProvisionStage::OpeningStorage };
            let unsealing = Provisioning { intent, stage: opening.moved(ProvisionEvent::Done).0 };
            let found_none = ProvisionEvent::Unsealed(Err(missing));
            let sealing = Provisioning { intent, stage: unsealing.moved(found_none).0 };
            let fetching = Provisioning { intent, stage: sealing.moved(ProvisionEvent::Done).0 };
            let creating = Provisioning { intent, stage: fetching.moved(ProvisionEvent::Done).0 };
            &&& opening.moved(ProvisionEvent::Done).1 is Unseal
            &&& unsealing.moved(found_none).1 is SealFreshSeed
            &&& sealing.moved(ProvisionEvent::Done).1 matches ProvisionRequest::FetchTreeState {
                height,
            }
            &&& birthday.0 > 0 ==> height.0 + 1 == birthday.0
            &&& birthday.0 == 0 ==> height.0 == 0
            &&& fetching.moved(ProvisionEvent::Done).1 is CreateAccount
            &&& creating.moved(ProvisionEvent::Created(account_id)) == (
                ProvisionStage::Finished,
                ProvisionRequest::Finish(ProvisionEnd::Provisioned { account_id }),
            )
        }),
{
}

/// The birthday of the account to create is the one the caller gave.
pub proof fn an_account_is_born_when_the_caller_says(birthday: BlockHeight)
    ensures
        (ProvisionIntent::Create { birthday }).birthday_spec() == birthday,
        (ProvisionIntent::OpenOrCreateAccount { birthday }).birthday_spec() == birthday,
{
}

/// An existing wallet opens with the account that storage holds for its seed; where there is
/// none, opening alone fails and opening or creating fetches the tree state right before the
/// birthday. Creating over a sealed seed is refused either way.
pub proof fn a_sealed_seed_leads_to_its_account(
    intent: ProvisionIntent,
    account_id: AccountId,
)
    ensures
        ({
            let unsealing = Provisioning { intent, stage: ProvisionStage::Unsealing };
            let finding = Provisioning { intent, stage: ProvisionStage::FindingAccount };
            let held = finding.moved(ProvisionEvent::Account(Some(account_id)));
            let none = finding.moved(ProvisionEvent::Account(None));
            &&& unsealing.moved(ProvisionEvent::Unsealed(Ok(()))) == (
                ProvisionStage::FindingAccount,
                ProvisionRequest::FindAccount,
            )
            &&& held.0 is Finished
            &&& intent is Create ==> held.1 == ProvisionRequest::Finish(
                ProvisionEnd::Failed(WalletError::AccountAlreadyExists),
            ) && none == held
            &&& !(intent is Create) ==> held.1 == ProvisionRequest::Finish(
                ProvisionEnd::Provisioned { account_id },
            )
            &&& intent is Open ==> none == (
                ProvisionStage::Finished,
                ProvisionRequest::Finish(ProvisionEnd::Failed(WalletError::AccountNotFound)),
            )
            &&& intent matches ProvisionIntent::OpenOrCreateAccount { birthday } ==> {
                &&& none.0 is FetchingTreeState
                &&& none.1 matches ProvisionRequest::FetchTreeState { height }
                &&& birthday.0 > 0 ==> height.0 + 1 == birthday.0
                &&& birthday.0 == 0 ==> height.0 == 0
            }
        }),
{
}

/// A seed that cannot be unsealed fails provisioning: with the sealing's own error, or, where
/// there is none and none is to be made, with the missing seed.
pub proof fn a_seed_that_cannot_be_unsealed_fails_provisioning(
    intent: ProvisionIntent,
    error: SealingError,
)
    requires
        !(intent is Create && error.kind is NoSealedSeed),
    ensures
        ({
            let unsealing = Provisioning { intent, stage: ProvisionStage::Unsealing };
            let (stage, request) = unsealing.moved(ProvisionEvent::Unsealed(Err(error)));
            &&& stage is Finished
            &&& error.kind is NoSealedSeed ==> request == ProvisionRequest::Finish(
                ProvisionEnd::Failed(WalletError::NoSealedSeed),
            )
            &&& !(error.kind is NoSealedSeed) ==> request == ProvisionRequest::Finish(
                ProvisionEnd::Failed(WalletError::Sealing(error)),
            )
        }),
{
}

/// A provisioning request that fails ends provisioning with exactly that error.
pub proof fn a_failed_provisioning_request_ends_it(
    provisioning: Provisioning,
    error: WalletError,
)
    requires
        !(provisioning.stage is Finished),
        !(provisioning.stage is Unsealing),
    ensures
        provisioning.expects(ProvisionEvent::Failed(error)),
        provisioning.moved(ProvisionEvent::Failed(error)) == (
            ProvisionStage::Finished,
            ProvisionRequest::Finish(ProvisionEnd::Failed(error)),
        ),
{
}

/// Provisioning takes in what it asked for: at every stage the answer to its request is
/// expected.
pub proof fn every_provisioning_request_can_be_answered(
    provisioning: Provisioning,
    unsealed: Result<(), SealingError>,
    found: Option<AccountId>,
    account_id: AccountId,
)
    ensures
        provisioning.expects(ProvisionEvent::Done) <==> provisioning.stage is OpeningStorage
            || provisioning.stage is SealingFreshSeed || provisioning.stage is FetchingTreeState,
        provisioning.expects(ProvisionEvent::Unsealed(unsealed)) <==> provisioning.stage
            is Unsealing,
        provisioning.expects(ProvisionEvent::Account(found)) <==> provisioning.stage
            is FindingAccount,
        provisioning.expects(ProvisionEvent::Created(account_id)) <==> provisioning.stage
            is CreatingAccount,
{
}

/// A wallet is only provisioned where storage serves its network, and the chain source too
/// where an account may be created.
pub proof fn provisioning_stays_on_one_network(
    intent: ProvisionIntent,
    network: Network,
    chain_network: Network,
    storage_network: Network,
)
    ensures
        crate::provisioning::networks_agree(intent, network, chain_network, storage_network)
            ==> storage_network == network,
        !(intent is Open) ==> (crate::provisioning::networks_agree(
            intent,
            network,
            chain_network,
            storage_network,
        ) <==> storage_network == network && chain_network == network),
        intent is Open ==> (crate::provisioning::networks_agree(
            intent,
            network,
            chain_network,
            storage_network,
        ) <==> storage_network == network),
{
}

} // verus!
