//! Operator-readable wallet status snapshot.

use crate::circuit_breaker::CircuitBreakerState;
use crate::domain::{BlockHeight, Network};
use vstd::prelude::*;

verus! {

/// Wallet scan state derived from persisted wallet progress.
#[derive(Clone, Copy, Debug, PartialEq, Eq, Structural)]
pub enum SyncStatus {
    /// The wallet has not observed a chain tip and has no recorded scan progress.
    NotStarted,
    /// The wallet has scan progress, but no observed chain tip is recorded.
    WaitingForTip {
        /// Highest block height the wallet has scanned.
        scanned_height: BlockHeight,
    },
    /// The wallet has observed a chain tip and has not recorded scan progress yet.
    Starting {
        /// Chain tip the wallet is catching up to.
        target_height: BlockHeight,
    },
    /// The wallet is behind the most recently observed chain tip.
    CatchingUp {
        /// Highest block height the wallet has scanned.
        scanned_height: BlockHeight,
        /// Chain tip the wallet is catching up to.
        target_height: BlockHeight,
        /// Number of blocks between `scanned_height` and `target_height`.
        lag_blocks: u32,
    },
    /// The wallet has scanned to the most recently observed chain tip.
    AtTip {
        /// Tip height the wallet has scanned to.
        tip_height: BlockHeight,
    },
    /// The last observed chain tip is lower than the wallet's scanned height.
    TipRegressed {
        /// Highest block height the wallet has scanned.
        scanned_height: BlockHeight,
        /// Lower chain tip most recently observed.
        chain_tip_height: BlockHeight,
    },
}

/// Typed snapshot of wallet state for readiness and operations.
#[derive(Clone, Copy, Debug, PartialEq, Eq, Structural)]
pub struct WalletStatus {
    /// Network this wallet is bound to.
    pub network: Network,
    /// Scan status derived from persisted wallet progress.
    pub sync_status: SyncStatus,
    /// Highest block height the wallet has scanned, if any.
    pub scanned_height: Option<BlockHeight>,
    /// Chain tip the wallet most recently observed, if any.
    pub chain_tip_height: Option<BlockHeight>,
    /// Settled finality height the most recent sync recorded, if any.
    pub settled_tip_height: Option<BlockHeight>,
    /// Number of blocks between `scanned_height` and `chain_tip_height`, if both are known and
    /// the tip has not regressed.
    pub lag_blocks: Option<u32>,
    /// Number of accounts the wallet manages. Always 1: the wallet holds one account.
    pub account_count: u32,
    /// Number of subscribers currently attached to the wallet's events.
    pub event_subscriber_count: u32,
    /// Current outbound IO circuit-breaker state.
    pub circuit_breaker: CircuitBreakerState,
}

/// The scan status that the two heights determine.
pub open spec fn sync_status_spec(
    scanned_height: Option<BlockHeight>,
    chain_tip_height: Option<BlockHeight>,
) -> SyncStatus {
    match (scanned_height, chain_tip_height) {
        (None, None) => SyncStatus::NotStarted,
        (Some(scanned), None) => SyncStatus::WaitingForTip { scanned_height: scanned },
        (None, Some(tip)) => SyncStatus::Starting { target_height: tip },
        (Some(scanned), Some(tip)) => if scanned.0 < tip.0 {
            SyncStatus::CatchingUp {
                scanned_height: scanned,
                target_height: tip,
                lag_blocks: (tip.0 - scanned.0) as u32,
            }
        } else if scanned.0 == tip.0 {
            SyncStatus::AtTip { tip_height: tip }
        } else {
            SyncStatus::TipRegressed { scanned_height: scanned, chain_tip_height: tip }
        },
    }
}

/// Derives the scan status from the wallet's recorded heights.
pub fn sync_status_from_heights(
    scanned_height: Option<BlockHeight>,
    chain_tip_height: Option<BlockHeight>,
) -> (status: SyncStatus)
    ensures
        status == sync_status_spec(scanned_height, chain_tip_height),
{
    match (scanned_height, chain_tip_height) {
        (None, None) => SyncStatus::NotStarted,
        (Some(scanned), None) => SyncStatus::WaitingForTip { scanned_height: scanned },
        (None, Some(tip)) => SyncStatus::Starting { target_height: tip },
        (Some(scanned), Some(tip)) => if scanned.0 < tip.0 {
            SyncStatus::CatchingUp {
                scanned_height: scanned,
                target_height: tip,
                lag_blocks: tip.0 - scanned.0,
            }
        } else if scanned.0 == tip.0 {
            SyncStatus::AtTip { tip_height: tip }
        } else {
            SyncStatus::TipRegressed { scanned_height: scanned, chain_tip_height: tip }
        },
    }
}

/// Blocks from the scanned height to the tip, where both are known and the tip is not below.
pub open spec fn lag_blocks_spec(
    scanned_height: Option<BlockHeight>,
    chain_tip_height: Option<BlockHeight>,
) -> Option<u32> {
    match (scanned_height, chain_tip_height) {
        (Some(scanned), Some(tip)) => if tip.0 >= scanned.0 {
            Some((tip.0 - scanned.0) as u32)
        } else {
            None
        },
        _ => None,
    }
}

/// Number of blocks the wallet lags the tip, if both heights are known and the tip has not
/// regressed.
pub fn compute_lag_blocks(
    scanned_height: Option<BlockHeight>,
    chain_tip_height: Option<BlockHeight>,
) -> (lag: Option<u32>)
    ensures
        lag == lag_blocks_spec(scanned_height, chain_tip_height),
{
    match (scanned_height, chain_tip_height) {
        (Some(scanned), Some(tip)) => if tip.0 < scanned.0 {
            None
        } else {
            Some(tip.0 - scanned.0)
        },
        _ => None,
    }
}

/// What storage knows of the wallet's progress.
#[derive(Clone, Copy, Debug, PartialEq, Eq, Structural)]
pub struct RecordedHeights {
    /// Highest block height the wallet has fully scanned, if any.
    pub scanned_height: Option<BlockHeight>,
    /// Chain tip the wallet most recently observed, if any.
    pub chain_tip_height: Option<BlockHeight>,
    /// Settled finality height the most recent sync recorded, if any.
    pub settled_tip_height: Option<BlockHeight>,
}

impl WalletStatus {
    /// The status of a wallet with the given recorded heights.
    pub open spec fn from_heights_spec(
        network: Network,
        heights: RecordedHeights,
        event_subscriber_count: u32,
        circuit_breaker: CircuitBreakerState,
    ) -> WalletStatus {
        WalletStatus {
            network,
            sync_status: sync_status_spec(heights.scanned_height, heights.chain_tip_height),
            scanned_height: heights.scanned_height,
            chain_tip_height: heights.chain_tip_height,
            settled_tip_height: heights.settled_tip_height,
            lag_blocks: lag_blocks_spec(heights.scanned_height, heights.chain_tip_height),
            account_count: 1,
            event_subscriber_count,
            circuit_breaker,
        }
    }

    /// Builds the status from what storage and the wallet handle report.
    pub fn from_heights(
        network: Network,
        heights: RecordedHeights,
        event_subscriber_count: u32,
        circuit_breaker: CircuitBreakerState,
    ) -> (status: WalletStatus)
        ensures
            status == Self::from_heights_spec(
                network,
                heights,
                event_subscriber_count,
                circuit_breaker,
            ),
    {
        WalletStatus {
            network,
            sync_status: sync_status_from_heights(
                heights.scanned_height,
                heights.chain_tip_height,
            ),
            scanned_height: heights.scanned_height,
            chain_tip_height: heights.chain_tip_height,
            settled_tip_height: heights.settled_tip_height,
            lag_blocks: compute_lag_blocks(heights.scanned_height, heights.chain_tip_height),
            account_count: 1,
            event_subscriber_count,
            circuit_breaker,
        }
    }
}

/// Number of observers as the status reports it: the count, held at what a `u32` can say.
pub fn observer_count(receivers: usize) -> (count: u32)
    ensures
        count == crate::domain::lesser(receivers as int, u32::MAX as int),
{
    if receivers > 0xffff_ffff_usize {
        u32::MAX
    } else {
        receivers as u32
    }
}

/// Status and lag never disagree: a lag is reported exactly when the wallet is catching up by
/// that many blocks or stands at the tip with none.
pub proof fn status_agrees_with_lag(
    scanned_height: Option<BlockHeight>,
    chain_tip_height: Option<BlockHeight>,
)
    ensures
        match sync_status_spec(scanned_height, chain_tip_height) {
            SyncStatus::CatchingUp { lag_blocks, .. } => lag_blocks > 0 && lag_blocks_spec(
                scanned_height,
                chain_tip_height,
            ) == Some(lag_blocks),
            SyncStatus::AtTip { .. } => lag_blocks_spec(scanned_height, chain_tip_height) == Some(
                0u32,
            ),
            _ => lag_blocks_spec(scanned_height, chain_tip_height) is None,
        },
{
}

} // verus!
