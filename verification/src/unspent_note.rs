//! Operator-facing view of an unspent shielded note.

use crate::domain::{shielded_pool_for, BlockHeight, ProtocolPool, ShieldedPool, TxId, Zatoshis};
use crate::received_note::amount_or_zero;
use vstd::prelude::*;

verus! {

/// An unspent shielded note owned by a wallet account.
#[derive(Clone, Copy, Debug, PartialEq, Eq)]
pub struct UnspentShieldedNote {
    /// Pool this note lives on.
    pub pool: ShieldedPool,
    /// Note value in zatoshis.
    pub value: Zatoshis,
    /// Transaction that produced this note.
    pub tx_id: TxId,
    /// Output index within the producing transaction.
    pub output_index: u32,
    /// Block height at which the producing transaction was mined.
    pub mined_height: BlockHeight,
    /// Confirmations of this note against the wallet's last observed chain tip.
    pub confirmations: u32,
}

/// An unspent note as storage holds it.
#[derive(Clone, Copy, Debug)]
pub struct UnspentShieldedNoteRow {
    /// Pool, as the protocol names it.
    pub protocol: ProtocolPool,
    /// Stored value in zatoshis.
    pub value_zat: u64,
    /// Transaction that produced this note.
    pub tx_id: TxId,
    /// Output index within the producing transaction.
    pub output_index: u32,
    /// Block height at which the producing transaction was mined.
    pub mined_height: BlockHeight,
}

/// Confirmations of a note: `observed_tip - mined_height + 1`, and none while the wallet has not
/// observed a tip at or above `mined_height`.
pub open spec fn confirmations_spec(
    mined_height: BlockHeight,
    observed_tip: Option<BlockHeight>,
) -> int {
    match observed_tip {
        Some(tip) => if tip.0 >= mined_height.0 {
            crate::domain::lesser(tip.0 - mined_height.0 + 1, u32::MAX as int)
        } else {
            0
        },
        None => 0,
    }
}

/// A note shows exactly what the row holds.
pub open spec fn note_shows(
    note: UnspentShieldedNote,
    row: UnspentShieldedNoteRow,
    observed_tip: Option<BlockHeight>,
) -> bool {
    &&& note.pool == crate::domain::shielded_pool_of(row.protocol)
    &&& note.value@ == crate::received_note::stored_value(row.value_zat)
    &&& note.tx_id == row.tx_id
    &&& note.output_index == row.output_index
    &&& note.mined_height == row.mined_height
    &&& note.confirmations == confirmations_spec(row.mined_height, observed_tip)
}

/// Translates a stored note into its operator-facing view.
pub fn translate_unspent_note(row: UnspentShieldedNoteRow, observed_tip: Option<BlockHeight>) -> (
    note: UnspentShieldedNote)
    ensures
        note_shows(note, row, observed_tip),
{
    let confirmations: u32 = match observed_tip {
        Some(tip) => if tip.0 >= row.mined_height.0 {
            (tip.0 - row.mined_height.0).saturating_add(1)
        } else {
            0
        },
        None => 0,
    };
    UnspentShieldedNote {
        pool: shielded_pool_for(row.protocol),
        value: amount_or_zero(row.value_zat),
        tx_id: row.tx_id,
        output_index: row.output_index,
        mined_height: row.mined_height,
        confirmations,
    }
}

/// Translates stored notes, one view per note, in order.
pub fn translate_unspent_notes(
    rows: &Vec<UnspentShieldedNoteRow>,
    observed_tip: Option<BlockHeight>,
) -> (notes: Vec<UnspentShieldedNote>)
    ensures
        notes@.len() == rows@.len(),
        forall|i: int|
            0 <= i < rows@.len() ==> note_shows(#[trigger] notes@[i], rows@[i], observed_tip),
{
    let mut notes: Vec<UnspentShieldedNote> = Vec::new();
    let mut index: usize = 0;
    while index < rows.len()
        invariant
            index <= rows@.len(),
            notes@.len() == index,
            forall|i: int|
                0 <= i < index ==> note_shows(#[trigger] notes@[i], rows@[i], observed_tip),
        decreases rows@.len() - index,
    {
        notes.push(translate_unspent_note(rows[index], observed_tip));
        index += 1;
    }
    notes
}

/// A note gains exactly one confirmation when the observed tip rises by one block from its
/// mined height on.
pub proof fn each_block_confirms_once(mined_height: BlockHeight, tip: BlockHeight)
    requires
        mined_height.0 <= tip.0,
        tip.0 - mined_height.0 + 1 < u32::MAX,
        tip.0 < u32::MAX,
    ensures
        confirmations_spec(mined_height, Some(mined_height)) == 1,
        confirmations_spec(mined_height, Some(BlockHeight((tip.0 + 1) as u32)))
            == confirmations_spec(mined_height, Some(tip)) + 1,
{
}

} // verus!
