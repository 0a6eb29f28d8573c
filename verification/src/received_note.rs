//! Operator-facing view of a shielded receive, spent or unspent.

use crate::domain::{
    shielded_pool_for, AccountId, BlockHeight, ProtocolPool, ShieldedPool, TxId, Zatoshis,
};
use vstd::prelude::*;

verus! {

/// A received note as storage holds it.
#[derive(Clone, Copy, Debug)]
pub struct ReceivedShieldedNoteRow {
    /// Account that received the note.
    pub account_id: AccountId,
    /// Pool the note lives on.
    pub protocol: ProtocolPool,
    /// Note value in zatoshis.
    pub value_zat: u64,
    /// Transaction that produced the note.
    pub tx_id: TxId,
    /// Output index within the producing transaction.
    pub output_index: u32,
    /// Height at which the producing transaction was mined.
    pub mined_height: BlockHeight,
    /// Block header timestamp in milliseconds; zero when storage does not retain it.
    pub block_timestamp_ms: u64,
    /// Whether the note is change.
    pub is_change: bool,
    /// Whether the producing transaction spent an input of the receiving account.
    pub spent_our_inputs: bool,
}

/// One note ever observed for an account.
///
/// Includes notes that have already been spent: the record reports the receive event itself, not
/// the current spendability state. A self-funded change output sets `is_change` and
/// `spent_our_inputs`; a sweep of the wallet's own funds sets only the latter; a third-party
/// transfer leaves both false.
#[derive(Clone, Copy, Debug, PartialEq, Eq)]
pub struct ShieldedReceiveRecord {
    /// Pool this note lives on.
    pub pool: ShieldedPool,
    /// Note value in zatoshis.
    pub value: Zatoshis,
    /// Transaction that produced this note.
    pub tx_id: TxId,
    /// Output index within the producing transaction.
    pub output_index: u32,
    /// Block height at which the producing transaction was mined.
    pub mined_height: BlockHeight,
    /// Block header timestamp in milliseconds. Zero when storage does not retain it.
    pub block_timestamp_ms: u64,
    /// Whether the note is change for the receiving account.
    pub is_change: bool,
    /// Whether the producing transaction spent at least one input owned by the receiving
    /// account.
    pub spent_our_inputs: bool,
}

/// The number of zatoshis a stored value stands for: none, where no such amount can exist.
pub open spec fn stored_value(value_zat: u64) -> int {
    if value_zat <= crate::domain::MAX_MONEY {
        value_zat as int
    } else {
        0
    }
}

/// The amount a stored value stands for.
pub fn amount_or_zero(value_zat: u64) -> (amount: Zatoshis)
    ensures
        amount@ == stored_value(value_zat),
{
    match Zatoshis::from_u64(value_zat) {
        Some(amount) => amount,
        None => Zatoshis::zero(),
    }
}

/// A record shows exactly what the row holds.
pub open spec fn record_shows(record: ShieldedReceiveRecord, row: ReceivedShieldedNoteRow) -> bool {
    &&& record.pool == crate::domain::shielded_pool_of(row.protocol)
    &&& record.value@ == stored_value(row.value_zat)
    &&& record.tx_id == row.tx_id
    &&& record.output_index == row.output_index
    &&& record.mined_height == row.mined_height
    &&& record.block_timestamp_ms == row.block_timestamp_ms
    &&& record.is_change == row.is_change
    &&& record.spent_our_inputs == row.spent_our_inputs
}

/// Translates a stored note into its operator-facing record.
pub fn translate_received_note(row: ReceivedShieldedNoteRow) -> (record: ShieldedReceiveRecord)
    ensures
        record_shows(record, row),
{
    ShieldedReceiveRecord {
        pool: shielded_pool_for(row.protocol),
        value: amount_or_zero(row.value_zat),
        tx_id: row.tx_id,
        output_index: row.output_index,
        mined_height: row.mined_height,
        block_timestamp_ms: row.block_timestamp_ms,
        is_change: row.is_change,
        spent_our_inputs: row.spent_our_inputs,
    }
}

/// Translates stored notes, one record per note, in order.
pub fn translate_received_notes(rows: &Vec<ReceivedShieldedNoteRow>) -> (records: Vec<
    ShieldedReceiveRecord,
>)
    ensures
        records@.len() == rows@.len(),
        forall|i: int| 0 <= i < rows@.len() ==> record_shows(#[trigger] records@[i], rows@[i]),
{
    let mut records: Vec<ShieldedReceiveRecord> = Vec::new();
    let mut index: usize = 0;
    while index < rows.len()
        invariant
            index <= rows@.len(),
            records@.len() == index,
            forall|i: int| 0 <= i < index ==> record_shows(#[trigger] records@[i], rows@[i]),
        decreases rows@.len() - index,
    {
        records.push(translate_received_note(rows[index]));
        index += 1;
    }
    records
}

} // verus!
