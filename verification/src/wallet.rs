//! Operator-facing wallet state.

use crate::boundary_error::{StorageError, StorageErrorKind};
use crate::capabilities::{
    build_capabilities, SealingCapability, StorageCapability, WalletCapabilities,
};
use crate::circuit_breaker::{CircuitBreaker, CircuitBreakerConfig, CircuitBreakerState};
use crate::domain::{BlockHeight, Network};
use crate::error::WalletError;
use crate::provisioning::{ProvisionIntent, ProvisionRequest, Provisioning};
use crate::retry::{CallEnd, GuardedCall, RetryPolicy};
use crate::wallet_options::WalletOptions;
use vstd::prelude::*;

verus! {

/// What a wallet holds besides its boundaries.
#[derive(Debug)]
pub struct Wallet {
    network: Network,
    base_capabilities: WalletCapabilities,
    retry_policy: RetryPolicy,
    circuit_breaker: CircuitBreaker,
    options: WalletOptions,
}

impl Wallet {
    /// The network this wallet is bound to.
    pub closed spec fn network_spec(&self) -> Network {
        self.network
    }

    /// What the wallet supports.
    pub closed spec fn base_spec(&self) -> WalletCapabilities {
        self.base_capabilities
    }

    /// The policy that governs outbound IO.
    pub closed spec fn policy_spec(&self) -> RetryPolicy {
        self.retry_policy
    }

    /// The breaker that guards outbound IO.
    pub closed spec fn breaker_spec(&self) -> CircuitBreaker {
        self.circuit_breaker
    }

    /// The open-time options.
    pub closed spec fn options_spec(&self) -> WalletOptions {
        self.options
    }

    /// Begins the creation of a wallet.
    pub fn create(
        chain_network: Network,
        network: Network,
        storage_network: Network,
        birthday: BlockHeight,
    ) -> (begun: Result<(Provisioning, ProvisionRequest), WalletError>)
        ensures
            begun is Ok <==> chain_network == network && storage_network == network,
            begun matches Ok((provisioning, request)) ==> {
                &&& provisioning.intent == (ProvisionIntent::Create { birthday })
                &&& provisioning.stage is OpeningStorage
                &&& request is OpenStorage
            },
            begun matches Err(error) ==> error == (WalletError::NetworkMismatch {
                storage: if chain_network != network {
                    chain_network
                } else {
                    storage_network
                },
                requested: network,
            }),
    {
        Provisioning::begin(
            ProvisionIntent::Create { birthday },
            network,
            chain_network,
            storage_network,
        )
    }

    /// Begins the opening of an existing wallet.
    pub fn open(network: Network, storage_network: Network) -> (begun: Result<
        (Provisioning, ProvisionRequest),
        WalletError,
    >)
        ensures
            begun is Ok <==> storage_network == network,
            begun matches Ok((provisioning, request)) ==> {
                &&& provisioning.intent is Open
                &&& provisioning.stage is OpeningStorage
                &&& request is OpenStorage
            },
            begun matches Err(error) ==> error == (WalletError::NetworkMismatch {
                storage: storage_network,
                requested: network,
            }),
    {
        Provisioning::begin(ProvisionIntent::Open, network, network, storage_network)
    }

    /// Begins the opening of an existing wallet whose account is created if it is missing.
    pub fn open_or_create_account(
        chain_network: Network,
        network: Network,
        storage_network: Network,
        birthday: BlockHeight,
    ) -> (begun: Result<(Provisioning, ProvisionRequest), WalletError>)
        ensures
            begun is Ok <==> chain_network == network && storage_network == network,
            begun matches Ok((provisioning, request)) ==> {
                &&& provisioning.intent == (ProvisionIntent::OpenOrCreateAccount { birthday })
                &&& provisioning.stage is OpeningStorage
                &&& request is OpenStorage
            },
            begun matches Err(error) ==> error == (WalletError::NetworkMismatch {
                storage: if chain_network != network {
                    chain_network
                } else {
                    storage_network
                },
                requested: network,
            }),
    {
        Provisioning::begin(
            ProvisionIntent::OpenOrCreateAccount { birthday },
            network,
            chain_network,
            storage_network,
        )
    }

    /// The state of a wallet that was just provisioned: default retry policy, closed breaker.
    pub fn provisioned(
        network: Network,
        sealing: SealingCapability,
        storage: StorageCapability,
        options: WalletOptions,
    ) -> (wallet: Wallet)
        ensures
            wallet.network_spec() == network,
            wallet.base_spec().describes(
                network,
                sealing,
                storage,
                crate::capabilities::base_features(),
            ),
            wallet.options_spec() == options,
            wallet.policy_spec() == RetryPolicy::default_spec(),
            wallet.breaker_spec().state_spec()
                == (crate::circuit_breaker::CircuitState::Closed { consecutive_failures: 0 }),
            wallet.breaker_spec().config_spec().failure_threshold == 5,
            wallet.breaker_spec().config_spec().cooldown_nanos == 60_000_000_000,
    {
        Wallet {
            network,
            base_capabilities: build_capabilities(network, sealing, storage),
            retry_policy: RetryPolicy::default(),
            circuit_breaker: CircuitBreaker::new(CircuitBreakerConfig::default()),
            options,
        }
    }

    /// The network this wallet is bound to.
    pub fn network(&self) -> (network: Network)
        ensures
            network == self.network_spec(),
    {
        self.network
    }

    /// The open-time options this wallet was constructed with.
    pub fn options(&self) -> (options: WalletOptions)
        ensures
            options == self.options_spec(),
    {
        self.options
    }

    /// The runtime capability descriptor, with the tripped breaker while it is open.
    pub fn capabilities(&self) -> (capabilities: WalletCapabilities)
        ensures
            capabilities.describes(
                self.base_spec().network,
                self.base_spec().sealing,
                self.base_spec().storage,
                if CircuitBreaker::observed(self.breaker_spec().state_spec()) is Open {
                    self.base_spec().features@.insert(
                        crate::capabilities::Capability::CircuitBroken,
                    )
                } else {
                    self.base_spec().features@
                },
            ),
    {
        self.base_capabilities.observed(self.circuit_breaker.state())
    }

    /// The current circuit breaker state.
    pub fn circuit_breaker_state(&self) -> (state: CircuitBreakerState)
        ensures
            state == CircuitBreaker::observed(self.breaker_spec().state_spec()),
    {
        self.circuit_breaker.state()
    }

    /// The policy that governs outbound IO.
    pub fn retry_policy(&self) -> (policy: RetryPolicy)
        ensures
            policy == self.policy_spec(),
    {
        self.retry_policy
    }

    /// Replaces the policy. Calls in flight finish under the policy they began with.
    pub fn set_retry_policy(&mut self, policy: RetryPolicy)
        ensures
            final(self).policy_spec() == policy,
            final(self).network_spec() == old(self).network_spec(),
            final(self).base_spec() == old(self).base_spec(),
            final(self).breaker_spec() == old(self).breaker_spec(),
            final(self).options_spec() == old(self).options_spec(),
    {
        self.retry_policy = policy;
    }

    /// Asks the breaker for an outbound call under the current policy.
    pub fn begin_call(&mut self, operation: &'static str, now_nanos: u128) -> (admitted: Result<
        GuardedCall,
        WalletError,
    >)
        ensures
            final(self).policy_spec() == old(self).policy_spec(),
            final(self).network_spec() == old(self).network_spec(),
            final(self).base_spec() == old(self).base_spec(),
            final(self).options_spec() == old(self).options_spec(),
            final(self).breaker_spec().config_spec() == old(self).breaker_spec().config_spec(),
            final(self).breaker_spec().state_spec() == CircuitBreaker::state_after_ask(
                old(self).breaker_spec().config_spec(),
                old(self).breaker_spec().state_spec(),
                now_nanos,
            ),
            CircuitBreaker::permits(
                old(self).breaker_spec().config_spec(),
                old(self).breaker_spec().state_spec(),
                now_nanos,
            ) ==> {
                &&& admitted matches Ok(call)
                &&& call.retry_spec().policy_spec() == old(self).policy_spec()
                &&& call.retry_spec().failures() == 0
                &&& call.is_probe_spec() == (old(self).breaker_spec().state_spec() is Open)
            },
            !CircuitBreaker::permits(
                old(self).breaker_spec().config_spec(),
                old(self).breaker_spec().state_spec(),
                now_nanos,
            ) ==> admitted == Err::<GuardedCall, WalletError>(
                WalletError::CircuitBroken { operation },
            ),
    {
        GuardedCall::begin(&mut self.circuit_breaker, self.retry_policy, operation, now_nanos)
    }

    /// Records the end of an outbound call on the breaker.
    pub fn finish_call(&mut self, call: GuardedCall, end: CallEnd, now_nanos: u128)
        ensures
            final(self).policy_spec() == old(self).policy_spec(),
            final(self).network_spec() == old(self).network_spec(),
            final(self).base_spec() == old(self).base_spec(),
            final(self).options_spec() == old(self).options_spec(),
            final(self).breaker_spec().config_spec() == old(self).breaker_spec().config_spec(),
            final(self).breaker_spec().state_spec() == crate::retry::breaker_after_call(
                old(self).breaker_spec().config_spec(),
                old(self).breaker_spec().state_spec(),
                call.is_probe_spec(),
                end,
                now_nanos,
            ),
    {
        call.finish(&mut self.circuit_breaker, end, now_nanos)
    }
}

/// Surfaces a storage failure of a read: an unknown account by its own error, every other
/// failure as it is.
pub fn lift_storage_to_wallet_error(err: StorageError) -> (error: WalletError)
    ensures
        error == if err.kind is AccountNotFound {
            WalletError::AccountNotFound
        } else {
            WalletError::Storage(err)
        },
{
    let is_unknown_account = match &err.kind {
        StorageErrorKind::AccountNotFound => true,
        _ => false,
    };
    if is_unknown_account {
        WalletError::AccountNotFound
    } else {
        WalletError::Storage(err)
    }
}

/// Unix milliseconds of a clock reading: zero before the epoch, and at most `u64::MAX`.
pub fn clamp_unix_ms(since_epoch_ms: Option<u128>) -> (now_ms: u64)
    ensures
        now_ms == match since_epoch_ms {
            Some(ms) => crate::domain::lesser(ms as int, u64::MAX as int),
            None => 0,
        },
{
    match since_epoch_ms {
        Some(ms) => if ms <= u64::MAX as u128 {
            ms as u64
        } else {
            u64::MAX
        },
        None => 0,
    }
}

} // verus!
