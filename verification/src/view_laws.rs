//! What operators see of a wallet: status, notes, balances, addresses, and features.

use crate::account_balance::AccountBalance;
use crate::capabilities::{Capability, SealingCapability, StorageCapability, WalletCapabilities};
use crate::circuit_breaker::CircuitBreakerState;
use crate::domain::{BlockHeight, Network, OutPoint};
use crate::exposed_address::ExposedAddressRow;
use crate::received_note::{ReceivedShieldedNoteRow, ShieldedReceiveRecord};
use crate::status::{RecordedHeights, SyncStatus, WalletStatus};
use crate::unspent_note::{UnspentShieldedNote, UnspentShieldedNoteRow};
use vstd::prelude::*;

verus! {

/// A wallet behind the tip is catching up by exactly the blocks in between, one at the tip is
/// at it, and one above it has seen the tip regress; where a height is not known the status
/// says which.
pub proof fn a_status_follows_from_the_two_heights(scanned: BlockHeight, tip: BlockHeight)
    ensures
        scanned.0 < tip.0 ==> {
            &&& crate::status::sync_status_spec(Some(scanned), Some(tip)) matches
                SyncStatus::CatchingUp { scanned_height, target_height, lag_blocks }
            &&& scanned_height == scanned
            &&& target_height == tip
            &&& scanned.0 + lag_blocks == tip.0
        },
        scanned.0 == tip.0 ==> crate::status::sync_status_spec(Some(scanned), Some(tip)) == (
        SyncStatus::AtTip { tip_height: tip }),
        scanned.0 > tip.0 ==> crate::status::sync_status_spec(Some(scanned), Some(tip)) == (
        SyncStatus::TipRegressed { scanned_height: scanned, chain_tip_height: tip }),
        crate::status::sync_status_spec(Some(scanned), None) == (SyncStatus::WaitingForTip {
            scanned_height: scanned,
        }),
        crate::status::sync_status_spec(None, Some(tip)) == (SyncStatus::Starting {
            target_height: tip,
        }),
        crate::status::sync_status_spec(None, None) is NotStarted,
{
}

/// The lag is what is missing from the scanned height to the tip, and is not known where either
/// height is missing or the tip regressed.
pub proof fn a_lag_leads_from_the_scanned_height_to_the_tip(
    scanned: Option<BlockHeight>,
    tip: Option<BlockHeight>,
)
    ensures
        crate::status::lag_blocks_spec(scanned, tip) is Some <==> (scanned is Some && tip is Some
            && scanned->Some_0.0 <= tip->Some_0.0),
        crate::status::lag_blocks_spec(scanned, tip) matches Some(lag) ==> scanned->Some_0.0 + lag
            == tip->Some_0.0,
{
}

/// A status shows the heights, the network, the observers, and the breaker it was built from,
/// and one account.
pub proof fn a_status_shows_what_it_was_built_from(
    network: Network,
    heights: RecordedHeights,
    observers: u32,
    breaker: CircuitBreakerState,
)
    ensures
        ({
            let status = WalletStatus::from_heights_spec(network, heights, observers, breaker);
            &&& status.network == network
            &&& status.scanned_height == heights.scanned_height
            &&& status.chain_tip_height == heights.chain_tip_height
            &&& status.settled_tip_height == heights.settled_tip_height
            &&& status.account_count == 1
            &&& status.event_subscriber_count == observers
            &&& status.circuit_breaker == breaker
            &&& status.sync_status == crate::status::sync_status_spec(
                heights.scanned_height,
                heights.chain_tip_height,
            )
            &&& status.lag_blocks == crate::status::lag_blocks_spec(
                heights.scanned_height,
                heights.chain_tip_height,
            )
        }),
{
}

/// A receive record shows the stored row: pool, value, transaction, output index, height, time,
/// and both flags.
pub proof fn a_receive_record_shows_the_stored_row(
    record: ShieldedReceiveRecord,
    row: ReceivedShieldedNoteRow,
)
    requires
        crate::received_note::record_shows(record, row),
    ensures
        record.tx_id == row.tx_id,
        record.output_index == row.output_index,
        record.mined_height == row.mined_height,
        record.block_timestamp_ms == row.block_timestamp_ms,
        record.is_change == row.is_change,
        record.spent_our_inputs == row.spent_our_inputs,
        row.value_zat <= 2_100_000_000_000_000 ==> record.value@ == row.value_zat,
        row.value_zat > 2_100_000_000_000_000 ==> record.value@ == 0,
        row.protocol is Sapling <==> record.pool is Sapling,
        row.protocol is Orchard <==> record.pool is Orchard,
        row.protocol is Ironwood <==> record.pool is Ironwood,
{
}

/// An unspent note shows the stored row, and is confirmed by every block from the one that
/// mined it to the observed tip.
pub proof fn an_unspent_note_shows_the_stored_row(
    note: UnspentShieldedNote,
    row: UnspentShieldedNoteRow,
    observed_tip: Option<BlockHeight>,
)
    requires
        crate::unspent_note::note_shows(note, row, observed_tip),
    ensures
        note.tx_id == row.tx_id,
        note.output_index == row.output_index,
        note.mined_height == row.mined_height,
        row.value_zat <= 2_100_000_000_000_000 ==> note.value@ == row.value_zat,
        row.value_zat > 2_100_000_000_000_000 ==> note.value@ == 0,
        row.protocol is Sapling <==> note.pool is Sapling,
        row.protocol is Orchard <==> note.pool is Orchard,
        row.protocol is Ironwood <==> note.pool is Ironwood,
        observed_tip is None ==> note.confirmations == 0,
        observed_tip matches Some(tip) ==> {
            &&& tip.0 < row.mined_height.0 ==> note.confirmations == 0
            &&& row.mined_height.0 <= tip.0 < row.mined_height.0 + u32::MAX
                ==> row.mined_height.0 + note.confirmations == tip.0 + 1
        },
{
}

/// A balance's shielded part is what its three shielded pools hold together, its transparent
/// part what is mature and what is not.
pub proof fn a_balance_adds_up_its_pools(balance: AccountBalance)
    ensures
        balance.shielded_sum() == balance.sapling_zat@ + balance.orchard_zat@
            + balance.ironwood_zat@,
        balance.transparent_sum() == balance.transparent_mature_zat@
            + balance.transparent_immature_zat@,
        crate::domain::MAX_MONEY == 2_100_000_000_000_000,
{
}

/// The lesser of two integers is one of them and above neither.
pub proof fn the_lesser_is_one_of_the_two(a: int, b: int)
    ensures
        crate::domain::lesser(a, b) == a || crate::domain::lesser(a, b) == b,
        crate::domain::lesser(a, b) <= a,
        crate::domain::lesser(a, b) <= b,
{
}

/// An exposed address is shown as it is stored, on the wallet's network.
pub proof fn an_exposed_address_is_shown_as_stored(row: ExposedAddressRow, network: Network)
    ensures
        ({
            let shown = crate::exposed_address::exposed_view(row, network);
            &&& shown.network == network
            &&& shown.unified_address == row.unified_address
            &&& shown.diversifier_index == row.diversifier_index
            &&& shown.has_transparent_receiver == row.has_transparent_receiver
            &&& shown.exposed_at_height == row.exposed_at_height
        }),
{
}

/// A descriptor says its own network, its two backends, and exactly its features.
pub proof fn a_descriptor_says_its_backends_and_features(
    descriptor: WalletCapabilities,
    network: Network,
    sealing: SealingCapability,
    storage: StorageCapability,
    features: Set<Capability>,
)
    ensures
        descriptor.describes(network, sealing, storage, features) <==> descriptor.network
            == network && descriptor.sealing == sealing && descriptor.storage == storage
            && descriptor.features@ == features,
{
}

/// A wallet advertises every feature there is but a tripped breaker.
pub proof fn every_feature_but_a_tripped_breaker_is_advertised(feature: Capability)
    ensures
        crate::capabilities::base_features().contains(feature) <==> !(feature is CircuitBroken),
{
}

/// Features are listed in the order of their declaration, and no two share a place.
pub proof fn features_are_listed_in_their_order(a: Capability, b: Capability)
    ensures
        a.rank_spec() == b.rank_spec() ==> a == b,
        Capability::Zip316UnifiedAddresses.rank_spec() < Capability::Zip302Memos.rank_spec(),
        Capability::Zip302Memos.rank_spec() < Capability::Zip320TexAddresses.rank_spec(),
        Capability::Zip320TexAddresses.rank_spec()
            < Capability::Zip317ConventionalFee.rank_spec(),
        Capability::Zip317ConventionalFee.rank_spec() < Capability::SyncIncremental.rank_spec(),
        Capability::SyncIncremental.rank_spec() < Capability::SyncDriver.rank_spec(),
        Capability::SyncDriver.rank_spec() < Capability::EventStream.rank_spec(),
        Capability::EventStream.rank_spec() < Capability::IdempotentSend.rank_spec(),
        Capability::IdempotentSend.rank_spec() < Capability::PcztV06.rank_spec(),
        Capability::PcztV06.rank_spec() < Capability::MetricsSnapshot.rank_spec(),
        Capability::MetricsSnapshot.rank_spec() < Capability::StatusSnapshot.rank_spec(),
        Capability::StatusSnapshot.rank_spec() < Capability::CircuitBroken.rank_spec(),
{
}

/// A sealing is recognised by its type's own name at the end of the full name, or by that name
/// with parameters inside it; plaintext sealing only where the build allows it.
pub proof fn a_sealing_is_recognised_by_its_name(name: Seq<char>, allows_plaintext: bool)
    ensures
        ({
            let sealing = crate::capabilities::sealing_named(name, allows_plaintext);
            let is_age = crate::text::has_suffix(name, "AgeFileSealing"@)
                || crate::text::occurs_in(name, "::AgeFileSealing<"@);
            let is_memory = crate::text::has_suffix(name, "InMemorySealing"@)
                || crate::text::occurs_in(name, "::InMemorySealing<"@);
            let is_plain = crate::text::has_suffix(name, "PlaintextSealing"@)
                || crate::text::occurs_in(name, "::PlaintextSealing<"@);
            &&& sealing is AgeFile <==> is_age
            &&& sealing is InMemory <==> !is_age && is_memory
            &&& sealing is Plaintext <==> !is_age && !is_memory && allows_plaintext && is_plain
            &&& !allows_plaintext ==> !(sealing is Plaintext)
        }),
{
}

/// Joining outpoints to a set keeps what was there first and names nothing twice.
pub proof fn joined_outpoints_keep_their_order(seen: Seq<OutPoint>, more: Seq<OutPoint>)
    requires
        seen.no_duplicates(),
    ensures
        crate::outpoint_set::joined(seen, more).no_duplicates(),
        crate::outpoint_set::joined(seen, more).len() >= seen.len(),
        crate::outpoint_set::joined(seen, more).take(seen.len() as int) == seen,
    decreases more.len(),
{
    if more.len() == 0 {
        assert(seen.take(seen.len() as int) =~= seen);
    } else {
        joined_outpoints_keep_their_order(seen, more.drop_last());
        let before = crate::outpoint_set::joined(seen, more.drop_last());
        if !before.contains(more.last()) {
            assert(before.push(more.last()).take(seen.len() as int) =~= before.take(
                seen.len() as int,
            ));
        }
    }
}

} // verus!
