//! Operator-readable wallet metrics snapshot.

use crate::circuit_breaker::CircuitBreakerState;
use crate::domain::{BlockHeight, Network};
use crate::status::WalletStatus;
use vstd::prelude::*;

verus! {

/// Typed snapshot of the wallet's observable state, for any metrics adapter.
#[derive(Clone, Copy, Debug, PartialEq, Eq, Structural)]
pub struct WalletMetrics {
    /// Network this wallet is bound to.
    pub network: Network,
    /// Highest block height the wallet has scanned, if any.
    pub scanned_height: Option<BlockHeight>,
    /// Chain tip the wallet's most recent sync observed, if any.
    pub chain_tip_height: Option<BlockHeight>,
    /// Number of blocks between `scanned_height` and `chain_tip_height`, if both are known and
    /// the tip has not regressed.
    pub lag_blocks: Option<u32>,
    /// Number of accounts the wallet manages. Always 1: the wallet holds one account.
    pub account_count: u32,
    /// Number of subscribers currently attached to the wallet's events.
    pub event_subscriber_count: u32,
    /// Current outbound IO circuit-breaker state.
    pub circuit_breaker: CircuitBreakerState,
}

impl WalletMetrics {
    /// The metrics view of a status snapshot.
    pub fn from_status(status: &WalletStatus) -> (metrics: WalletMetrics)
        ensures
            metrics == (WalletMetrics {
                network: status.network,
                scanned_height: status.scanned_height,
                chain_tip_height: status.chain_tip_height,
                lag_blocks: status.lag_blocks,
                account_count: status.account_count,
                event_subscriber_count: status.event_subscriber_count,
                circuit_breaker: status.circuit_breaker,
            }),
    {
        WalletMetrics {
            network: status.network,
            scanned_height: status.scanned_height,
            chain_tip_height: status.chain_tip_height,
            lag_blocks: status.lag_blocks,
            account_count: status.account_count,
            event_subscriber_count: status.event_subscriber_count,
            circuit_breaker: status.circuit_breaker,
        }
    }
}

} // verus!
