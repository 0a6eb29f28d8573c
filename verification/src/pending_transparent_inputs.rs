//! Operator-facing snapshot of transparent outpoints locked by wallet-owned broadcasts.

use crate::domain::{AccountId, BlockHeight, Network, OutPoint, TxId, Zatoshis};
use vstd::prelude::*;

verus! {

/// One transparent outpoint locked by a wallet-owned transaction that has been broadcast but
/// not yet observed mined.
#[derive(Clone, Copy, Debug, PartialEq, Eq)]
pub struct PendingTransparentInput {
    /// The locked outpoint.
    pub outpoint: OutPoint,
    /// Value of the locked outpoint.
    pub value_zat: Zatoshis,
    /// Identifier of the broadcast that locked the outpoint.
    pub broadcast_tx_id: TxId,
    /// Unix milliseconds when the wallet recorded the broadcast.
    pub broadcast_at_ms: u64,
    /// Chain tip the wallet had observed at broadcast time, if any.
    pub broadcast_at_height: Option<BlockHeight>,
}

/// Snapshot of every transparent outpoint currently locked by wallet-owned broadcasts for one
/// account, anchored to the wallet's last observed chain tip.
#[derive(Clone, Debug, PartialEq, Eq)]
pub struct PendingTransparentInputs {
    /// Network the wallet is bound to.
    pub network: Network,
    /// Account that owns the broadcasts.
    pub account_id: AccountId,
    /// The locked outpoints, in the order storage lists them.
    pub inputs: Vec<PendingTransparentInput>,
    /// Chain tip the snapshot is anchored to, if one is recorded.
    pub as_of_height: Option<BlockHeight>,
}

impl PendingTransparentInputs {
    /// The snapshot of the rows that storage lists.
    pub fn of_rows(
        network: Network,
        account_id: AccountId,
        rows: Vec<PendingTransparentInput>,
        as_of_height: Option<BlockHeight>,
    ) -> (snapshot: PendingTransparentInputs)
        ensures
            snapshot == (PendingTransparentInputs {
                network,
                account_id,
                inputs: rows,
                as_of_height,
            }),
    {
        PendingTransparentInputs { network, account_id, inputs: rows, as_of_height }
    }
}

} // verus!
