//! Operator-facing view of a previously-exposed Unified Address.

use crate::domain::{BlockHeight, Network};
use vstd::prelude::*;

verus! {

/// The unified address of `zcash_keys`, carried through unread.
#[verifier::external_type_specification]
#[verifier::external_body]
pub struct ExUnifiedAddress(zcash_keys::address::UnifiedAddress);

/// The diversifier index of `zip32`, carried through unread.
#[verifier::external_type_specification]
#[verifier::external_body]
pub struct ExDiversifierIndex(zip32::DiversifierIndex);

/// A Unified Address previously exposed for one wallet account.
#[derive(Debug, PartialEq, Eq)]
pub struct ExposedAddress {
    /// Network the wallet is bound to.
    pub network: Network,
    /// The Unified Address itself.
    pub unified_address: zcash_keys::address::UnifiedAddress,
    /// The diversifier index that produced this address.
    pub diversifier_index: zip32::DiversifierIndex,
    /// Whether the address carries a transparent receiver.
    pub has_transparent_receiver: bool,
    /// Block height the wallet first observed the address as exposed, when recorded.
    pub exposed_at_height: Option<BlockHeight>,
}

/// An exposed address as storage holds it.
#[derive(Debug, PartialEq, Eq)]
pub struct ExposedAddressRow {
    /// The Unified Address itself.
    pub unified_address: zcash_keys::address::UnifiedAddress,
    /// The diversifier index that produced this address.
    pub diversifier_index: zip32::DiversifierIndex,
    /// Whether the address carries a transparent receiver.
    pub has_transparent_receiver: bool,
    /// Block height the wallet first observed the address as exposed, when recorded.
    pub exposed_at_height: Option<BlockHeight>,
}

/// The view of a stored address.
pub open spec fn exposed_view(row: ExposedAddressRow, network: Network) -> ExposedAddress {
    ExposedAddress {
        network,
        unified_address: row.unified_address,
        diversifier_index: row.diversifier_index,
        has_transparent_receiver: row.has_transparent_receiver,
        exposed_at_height: row.exposed_at_height,
    }
}

/// Tags a stored address with the wallet's network.
pub fn translate_exposed_address(row: ExposedAddressRow, network: Network) -> (address:
    ExposedAddress)
    ensures
        address == exposed_view(row, network),
{
    ExposedAddress {
        network,
        unified_address: row.unified_address,
        diversifier_index: row.diversifier_index,
        has_transparent_receiver: row.has_transparent_receiver,
        exposed_at_height: row.exposed_at_height,
    }
}

/// Tags stored addresses with the wallet's network, in derivation order.
pub fn translate_exposed_addresses(rows: Vec<ExposedAddressRow>, network: Network) -> (addresses:
    Vec<ExposedAddress>)
    ensures
        addresses@ == rows@.map_values(|row: ExposedAddressRow| exposed_view(row, network)),
{
    let ghost given = rows@;
    let mut rows = rows;
    let mut backward: Vec<ExposedAddress> = Vec::new();
    while rows.len() > 0
        invariant
            rows@.len() + backward@.len() == given.len(),
            rows@ == given.take(rows@.len() as int),
            forall|i: int|
                0 <= i < backward@.len() ==> #[trigger] backward@[i] == exposed_view(
                    given[given.len() - 1 - i],
                    network,
                ),
        decreases rows@.len(),
    {
        match rows.pop() {
            Some(row) => backward.push(translate_exposed_address(row, network)),
            None => {},
        }
        assert(rows@ =~= given.take(rows@.len() as int));
    }
    let mut addresses: Vec<ExposedAddress> = Vec::new();
    while backward.len() > 0
        invariant
            backward@.len() + addresses@.len() == given.len(),
            forall|i: int|
                0 <= i < backward@.len() ==> #[trigger] backward@[i] == exposed_view(
                    given[given.len() - 1 - i],
                    network,
                ),
            forall|i: int|
                0 <= i < addresses@.len() ==> #[trigger] addresses@[i] == exposed_view(
                    given[i],
                    network,
                ),
        decreases backward@.len(),
    {
        match backward.pop() {
            Some(address) => addresses.push(address),
            None => {},
        }
    }
    assert(addresses@ =~= given.map_values(
        |row: ExposedAddressRow| exposed_view(row, network),
    ));
    addresses
}

} // verus!
