//! Operator-facing per-pool account balance snapshot.

use crate::domain::{BlockHeight, Network, Zatoshis};
use vstd::prelude::*;

verus! {

/// Per-pool balance for one wallet account, anchored to the wallet's last observed chain tip.
///
/// Shielded fields report the spendable value. Transparent fields split by coinbase maturity
/// at `as_of_height`: the mature half is what may be shielded right now.
#[derive(Clone, Copy, Debug, PartialEq, Eq, Structural)]
pub struct AccountBalance {
    /// Network the wallet is bound to.
    pub network: Network,
    /// Spendable Sapling value.
    pub sapling_zat: Zatoshis,
    /// Spendable Orchard value.
    pub orchard_zat: Zatoshis,
    /// Spendable Ironwood value.
    pub ironwood_zat: Zatoshis,
    /// Transparent value past the coinbase maturity gate at `as_of_height`.
    pub transparent_mature_zat: Zatoshis,
    /// Transparent value still inside the coinbase maturity window.
    pub transparent_immature_zat: Zatoshis,
    /// Chain tip the snapshot is anchored to, or `None` when the wallet has not yet recorded a
    /// tip.
    pub as_of_height: Option<BlockHeight>,
}

/// A balance as storage reports it.
#[derive(Clone, Copy, Debug)]
pub struct AccountBalanceRow {
    /// Spendable Sapling value.
    pub sapling_zat: Zatoshis,
    /// Spendable Orchard value.
    pub orchard_zat: Zatoshis,
    /// Spendable Ironwood value.
    pub ironwood_zat: Zatoshis,
    /// Transparent value past the coinbase maturity gate.
    pub transparent_mature_zat: Zatoshis,
    /// Transparent value still inside the coinbase maturity window.
    pub transparent_immature_zat: Zatoshis,
    /// Chain tip the values are anchored to, if one was recorded.
    pub as_of_height: Option<BlockHeight>,
}

impl AccountBalance {
    /// Sapling plus Orchard plus Ironwood, as integers.
    pub open spec fn shielded_sum(self) -> int {
        self.sapling_zat@ + self.orchard_zat@ + self.ironwood_zat@
    }

    /// Mature plus immature transparent value, as integers.
    pub open spec fn transparent_sum(self) -> int {
        self.transparent_mature_zat@ + self.transparent_immature_zat@
    }

    /// The spending-pool view: Sapling plus Orchard plus Ironwood, at most the money supply.
    pub fn shielded_zat(&self) -> (value: Zatoshis)
        ensures
            value@ == crate::domain::lesser(
                self.shielded_sum(),
                crate::domain::MAX_MONEY as int,
            ),
    {
        self.sapling_zat.saturating_add(self.orchard_zat).saturating_add(self.ironwood_zat)
    }

    /// The reporting view across the transparent pool: mature plus immature, at most the money
    /// supply.
    pub fn transparent_zat(&self) -> (value: Zatoshis)
        ensures
            value@ == crate::domain::lesser(
                self.transparent_sum(),
                crate::domain::MAX_MONEY as int,
            ),
    {
        self.transparent_mature_zat.saturating_add(self.transparent_immature_zat)
    }

    /// The sum of every pool tracked by this snapshot, at most the money supply.
    pub fn total_zat(&self) -> (value: Zatoshis)
        ensures
            value@ == crate::domain::lesser(
                self.shielded_sum() + self.transparent_sum(),
                crate::domain::MAX_MONEY as int,
            ),
    {
        self.shielded_zat().saturating_add(self.transparent_zat())
    }
}

/// Tags a stored balance with the wallet's network.
pub fn translate_account_balance(row: AccountBalanceRow, network: Network) -> (balance:
    AccountBalance)
    ensures
        balance == (AccountBalance {
            network,
            sapling_zat: row.sapling_zat,
            orchard_zat: row.orchard_zat,
            ironwood_zat: row.ironwood_zat,
            transparent_mature_zat: row.transparent_mature_zat,
            transparent_immature_zat: row.transparent_immature_zat,
            as_of_height: row.as_of_height,
        }),
{
    AccountBalance {
        network,
        sapling_zat: row.sapling_zat,
        orchard_zat: row.orchard_zat,
        ironwood_zat: row.ironwood_zat,
        transparent_mature_zat: row.transparent_mature_zat,
        transparent_immature_zat: row.transparent_immature_zat,
        as_of_height: row.as_of_height,
    }
}

} // verus!
