//! Wallet events.

use crate::domain::{AccountId, BlockHeight, ShieldedPool, TxId};
use vstd::prelude::*;

verus! {

/// Push notification from the wallet's sync loop.
#[derive(Debug, PartialEq, Eq)]
pub enum WalletEvent {
    /// Scan progress: `scanned_height` advanced toward `target_height`.
    ScanProgress {
        /// Highest block the wallet has scanned so far.
        scanned_height: BlockHeight,
        /// Tip the wallet is catching up to.
        target_height: BlockHeight,
    },
    /// A reorg rolled the wallet back.
    ReorgDetected {
        /// Height the wallet's scan progress was rolled back to.
        rolled_back_to_height: BlockHeight,
        /// New tip after the reorg.
        new_tip_height: BlockHeight,
    },
    /// A transaction belonging to the wallet was confirmed.
    TransactionConfirmed {
        /// Confirmed transaction identifier.
        tx_id: TxId,
        /// Height at which it was confirmed.
        confirmed_at_height: BlockHeight,
    },
    /// A note for `account_id` was observed on `pool`.
    ReceiverObserved {
        /// Account whose receive observed the note.
        account_id: AccountId,
        /// Block height the note was found in.
        seen_at_height: BlockHeight,
        /// Shielded pool the note was on.
        pool: ShieldedPool,
    },
    /// A shielded note was received.
    ShieldedReceiveObserved {
        /// Account that received the note.
        account_id: AccountId,
        /// Transaction that produced the note.
        tx_id: TxId,
        /// Output index within the producing transaction.
        output_index: u32,
        /// Note value in zatoshis.
        value_zat: u64,
        /// Height at which the producing transaction was mined.
        mined_height: BlockHeight,
        /// Block header timestamp in milliseconds; zero when unknown.
        block_timestamp_ms: u64,
        /// Pool the note lives on.
        pool: ShieldedPool,
        /// Whether the note is change.
        is_change: bool,
        /// Whether the producing transaction spent an input of the receiving account.
        spent_our_inputs: bool,
    },
    /// A transparent UTXO refresh attempt failed.
    TransparentUtxoRefreshFaulted {
        /// Failed attempts since the last successful one.
        consecutive_failures: u32,
        /// Description of the failure.
        reason: String,
    },
    /// Consumer fell behind; `dropped_count` events were skipped before this notification.
    Lagged {
        /// Number of events dropped.
        dropped_count: u64,
    },
}

impl Clone for WalletEvent {
    fn clone(&self) -> (copy: Self)
        ensures
            copy == *self,
    {
        match self {
            WalletEvent::ScanProgress { scanned_height, target_height } => {
                WalletEvent::ScanProgress {
                    scanned_height: *scanned_height,
                    target_height: *target_height,
                }
            },
            WalletEvent::ReorgDetected { rolled_back_to_height, new_tip_height } => {
                WalletEvent::ReorgDetected {
                    rolled_back_to_height: *rolled_back_to_height,
                    new_tip_height: *new_tip_height,
                }
            },
            WalletEvent::TransactionConfirmed { tx_id, confirmed_at_height } => {
                WalletEvent::TransactionConfirmed {
                    tx_id: *tx_id,
                    confirmed_at_height: *confirmed_at_height,
                }
            },
            WalletEvent::ReceiverObserved { account_id, seen_at_height, pool } => {
                WalletEvent::ReceiverObserved {
                    account_id: *account_id,
                    seen_at_height: *seen_at_height,
                    pool: *pool,
                }
            },
            WalletEvent::ShieldedReceiveObserved {
                account_id,
                tx_id,
                output_index,
                value_zat,
                mined_height,
                block_timestamp_ms,
                pool,
                is_change,
                spent_our_inputs,
            } => WalletEvent::ShieldedReceiveObserved {
                account_id: *account_id,
                tx_id: *tx_id,
                output_index: *output_index,
                value_zat: *value_zat,
                mined_height: *mined_height,
                block_timestamp_ms: *block_timestamp_ms,
                pool: *pool,
                is_change: *is_change,
                spent_our_inputs: *spent_our_inputs,
            },
            WalletEvent::TransparentUtxoRefreshFaulted { consecutive_failures, reason } => {
                WalletEvent::TransparentUtxoRefreshFaulted {
                    consecutive_failures: *consecutive_failures,
                    reason: reason.clone(),
                }
            },
            WalletEvent::Lagged { dropped_count } => WalletEvent::Lagged {
                dropped_count: *dropped_count,
            },
        }
    }
}

/// What a broadcast channel delivers to one subscriber.
#[derive(Debug)]
pub enum EventDelivery {
    /// An event.
    Event(WalletEvent),
    /// The subscriber fell behind by this many events.
    Missed(u64),
}

/// The event a delivery means to its consumer: a gap is itself an event.
pub fn event_from_delivery(delivery: EventDelivery) -> (event: WalletEvent)
    ensures
        event == match delivery {
            EventDelivery::Event(event) => event,
            EventDelivery::Missed(dropped_count) => WalletEvent::Lagged { dropped_count },
        },
{
    match delivery {
        EventDelivery::Event(event) => event,
        EventDelivery::Missed(dropped_count) => WalletEvent::Lagged { dropped_count },
    }
}

} // verus!
