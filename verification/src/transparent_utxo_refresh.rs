//! Transparent UTXO refresh, decoupled from block-scan cadence.
//!
//! A walk pins one chain epoch and the wallet's scanned frontier, and visits every wallet-owned
//! transparent receiver, recording each receiver's UTXOs as soon as they are fetched. Every
//! commit carries the pinned frontier as a floor, so that a reorg rewind that lands between one
//! receiver's fetch and its commit is rejected rather than written.

use crate::boundary_error::{ChainSourceError, ChainSourceErrorKind, UtxoSetDefect};
use crate::domain::{AccountId, BlockHeight, OutPoint, TxId, Zatoshis};
use crate::error::WalletError;
use crate::event::WalletEvent;
use crate::outpoint_set::OutPointSet;
use crate::sync::attempt::ChainEpoch;
use crate::text::decimal;
use vstd::prelude::*;

verus! {

/// A transparent UTXO as the chain source reports it.
#[derive(Clone, Debug)]
pub struct TransparentUtxo {
    /// Transaction that created the output.
    pub tx_id: TxId,
    /// Index of the output in that transaction.
    pub output_index: u32,
    /// Value of the output.
    pub value_zat: Zatoshis,
    /// Height the source reports the output confirmed at.
    pub confirmed_at_height: BlockHeight,
    /// Script of the output.
    pub script_pub_key_bytes: Vec<u8>,
}

/// A wallet-owned transparent receiver.
#[derive(Clone, Debug)]
pub struct TransparentReceiverRow {
    /// Account that owns the receiver.
    pub account_id: AccountId,
    /// Script that pays the receiver.
    pub script_pub_key_bytes: Vec<u8>,
}

impl TransparentReceiverRow {
    /// The receiver of `account_id` that `script_pub_key_bytes` pays.
    pub fn new(account_id: AccountId, script_pub_key_bytes: Vec<u8>) -> (row:
        TransparentReceiverRow)
        ensures
            row == (TransparentReceiverRow { account_id, script_pub_key_bytes }),
    {
        TransparentReceiverRow { account_id, script_pub_key_bytes }
    }
}

/// A transparent UTXO to record.
#[derive(Clone, Debug)]
pub struct TransparentUtxoRow {
    /// Transaction that created the output.
    pub tx_id: TxId,
    /// Index of the output in that transaction.
    pub output_index: u32,
    /// Value of the output.
    pub value_zat: Zatoshis,
    /// Height the output was mined at.
    pub mined_height: BlockHeight,
    /// Script of the output.
    pub script_pub_key_bytes: Vec<u8>,
}

impl TransparentUtxo {
    /// The output's place on chain.
    pub open spec fn outpoint(self) -> OutPoint {
        OutPoint { tx_id: self.tx_id, output_index: self.output_index }
    }
}

impl TransparentUtxoRow {
    /// The row records exactly this UTXO.
    pub open spec fn records(self, utxo: TransparentUtxo) -> bool {
        &&& self.tx_id == utxo.tx_id
        &&& self.output_index == utxo.output_index
        &&& self.value_zat == utxo.value_zat
        &&& self.mined_height == utxo.confirmed_at_height
        &&& self.script_pub_key_bytes@ == utxo.script_pub_key_bytes@
    }
}

/// The outpoints of `utxos`, in order.
pub open spec fn utxo_points(utxos: Seq<TransparentUtxo>) -> Seq<OutPoint> {
    utxos.map_values(|utxo: TransparentUtxo| utxo.outpoint())
}

/// What is wrong with `utxo` as an answer for `receiver`: it is confirmed above the tip, or was
/// seen before, or does not pay the receiver, in this order.
pub open spec fn utxo_defect(
    visible_tip: BlockHeight,
    receiver: TransparentReceiverRow,
    utxo: TransparentUtxo,
    seen: Seq<OutPoint>,
) -> Option<UtxoSetDefect> {
    if utxo.confirmed_at_height.0 > visible_tip.0 {
        Some(
            UtxoSetDefect::ConfirmedAboveTip {
                outpoint: utxo.outpoint(),
                confirmed_at_height: utxo.confirmed_at_height,
                visible_tip,
            },
        )
    } else if seen.contains(utxo.outpoint()) {
        Some(UtxoSetDefect::Repeated { outpoint: utxo.outpoint() })
    } else if utxo.script_pub_key_bytes@ != receiver.script_pub_key_bytes@ {
        Some(
            UtxoSetDefect::ScriptMismatch {
                outpoint: utxo.outpoint(),
                account_id: receiver.account_id,
            },
        )
    } else {
        None
    }
}

/// What is wrong with the UTXO at `index`, those before it counting as seen.
pub open spec fn defect_at(
    visible_tip: BlockHeight,
    receiver: TransparentReceiverRow,
    utxos: Seq<TransparentUtxo>,
    seen: Seq<OutPoint>,
    index: int,
) -> Option<UtxoSetDefect> {
    utxo_defect(visible_tip, receiver, utxos[index], seen + utxo_points(utxos.take(index)))
}

/// `index` is the first UTXO with something wrong, and `defect` is what.
pub open spec fn is_first_defect(
    visible_tip: BlockHeight,
    receiver: TransparentReceiverRow,
    utxos: Seq<TransparentUtxo>,
    seen: Seq<OutPoint>,
    index: int,
    defect: UtxoSetDefect,
) -> bool {
    &&& 0 <= index < utxos.len()
    &&& defect_at(visible_tip, receiver, utxos, seen, index) == Some(defect)
    &&& forall|i: int|
        0 <= i < index ==> #[trigger] defect_at(visible_tip, receiver, utxos, seen, i) is None
}

/// Nothing is wrong with any of `utxos`.
pub open spec fn is_sound_batch(
    visible_tip: BlockHeight,
    receiver: TransparentReceiverRow,
    utxos: Seq<TransparentUtxo>,
    seen: Seq<OutPoint>,
) -> bool {
    forall|i: int|
        0 <= i < utxos.len() ==> #[trigger] defect_at(visible_tip, receiver, utxos, seen, i)
            is None
}

fn same_script(a: &Vec<u8>, b: &Vec<u8>) -> (same: bool)
    ensures
        same == (a@ == b@),
{
    if a.len() != b.len() {
        return false;
    }
    let mut index: usize = 0;
    while index < a.len()
        invariant
            a@.len() == b@.len(),
            index <= a@.len(),
            forall|i: int| 0 <= i < index ==> a@[i] == b@[i],
        decreases a@.len() - index,
    {
        if a[index] != b[index] {
            return false;
        }
        index += 1;
    }
    assert(a@ =~= b@);
    true
}

fn find_defect(
    visible_tip: BlockHeight,
    receiver: &TransparentReceiverRow,
    utxo: &TransparentUtxo,
    seen: &mut OutPointSet,
) -> (defect: Option<UtxoSetDefect>)
    ensures
        defect == utxo_defect(visible_tip, *receiver, *utxo, old(seen)@),
        final(seen)@ == if utxo.confirmed_at_height.0 > visible_tip.0 || old(seen)@.contains(
            utxo.outpoint(),
        ) {
            old(seen)@
        } else {
            old(seen)@.push(utxo.outpoint())
        },
{
    let outpoint = OutPoint { tx_id: utxo.tx_id, output_index: utxo.output_index };
    if utxo.confirmed_at_height.0 > visible_tip.0 {
        return Some(
            UtxoSetDefect::ConfirmedAboveTip {
                outpoint,
                confirmed_at_height: utxo.confirmed_at_height,
                visible_tip,
            },
        );
    }
    if !seen.insert(outpoint) {
        return Some(UtxoSetDefect::Repeated { outpoint });
    }
    if !same_script(&utxo.script_pub_key_bytes, &receiver.script_pub_key_bytes) {
        return Some(UtxoSetDefect::ScriptMismatch { outpoint, account_id: receiver.account_id });
    }
    None
}

/// Validates one receiver's chain-reported UTXOs against the pinned visible tip, the receiver's
/// own script, and every outpoint seen so far in the walk; gives the rows to record.
///
/// `seen_outpoints` accumulates across the whole walk, so that a source that reports the same
/// outpoint under two receivers is caught even though each receiver commits on its own.
pub fn validate_transparent_utxo_batch(
    chain_epoch: ChainEpoch,
    receiver: &TransparentReceiverRow,
    utxos: Vec<TransparentUtxo>,
    seen_outpoints: &mut OutPointSet,
) -> (rows: Result<Vec<TransparentUtxoRow>, WalletError>)
    ensures
        rows is Ok <==> is_sound_batch(
            chain_epoch.visible_tip,
            *receiver,
            utxos@,
            old(seen_outpoints)@,
        ),
        rows matches Ok(rows) ==> {
            &&& rows@.len() == utxos@.len()
            &&& forall|i: int|
                0 <= i < utxos@.len() ==> (#[trigger] rows@[i]).records(utxos@[i])
            &&& forall|i: int|
                0 <= i < utxos@.len() ==> {
                    &&& (#[trigger] rows@[i]).tx_id == utxos@[i].tx_id
                    &&& rows@[i].output_index == utxos@[i].output_index
                    &&& rows@[i].value_zat == utxos@[i].value_zat
                    &&& rows@[i].mined_height == utxos@[i].confirmed_at_height
                    &&& rows@[i].script_pub_key_bytes@ == utxos@[i].script_pub_key_bytes@
                }
            &&& final(seen_outpoints)@ == old(seen_outpoints)@ + utxo_points(utxos@)
        },
        rows matches Err(error) ==> exists|index: int, defect: UtxoSetDefect|
            {
                &&& #[trigger] is_first_defect(
                    chain_epoch.visible_tip,
                    *receiver,
                    utxos@,
                    old(seen_outpoints)@,
                    index,
                    defect,
                )
                &&& error.malformed_as(
                    ChainSourceErrorKind::MalformedTransparentUtxoSet { defect },
                )
                &&& final(seen_outpoints)@ == old(seen_outpoints)@ + utxo_points(
                    utxos@.take(
                        if defect is ScriptMismatch {
                            index + 1
                        } else {
                            index
                        },
                    ),
                )
            },
{
    let mut rows: Vec<TransparentUtxoRow> = Vec::new();
    let mut index: usize = 0;
    let ghost seen = seen_outpoints@;
    assert(seen + utxo_points(utxos@.take(0)) =~= seen);
    while index < utxos.len()
        invariant
            index <= utxos@.len(),
            seen == old(seen_outpoints)@,
            seen_outpoints@ == seen + utxo_points(utxos@.take(index as int)),
            rows@.len() == index,
            forall|i: int| 0 <= i < index ==> (#[trigger] rows@[i]).records(utxos@[i]),
            forall|i: int|
                0 <= i < index ==> #[trigger] defect_at(
                    chain_epoch.visible_tip,
                    *receiver,
                    utxos@,
                    seen,
                    i,
                ) is None,
        decreases utxos@.len() - index,
    {
        let utxo = &utxos[index];
        let ghost before = seen_outpoints@;
        let found = find_defect(chain_epoch.visible_tip, receiver, utxo, seen_outpoints);
        assert(seen + utxo_points(utxos@.take(index + 1)) =~= before.push(utxo.outpoint()));
        assert(found == defect_at(
            chain_epoch.visible_tip,
            *receiver,
            utxos@,
            seen,
            index as int,
        ));
        match found {
            Some(defect) => {
                assert(is_first_defect(
                    chain_epoch.visible_tip,
                    *receiver,
                    utxos@,
                    seen,
                    index as int,
                    defect,
                ));
                return Err(
                    WalletError::ChainSource(
                        ChainSourceError::malformed(
                            ChainSourceErrorKind::MalformedTransparentUtxoSet { defect },
                        ),
                    ),
                );
            },
            None => {},
        }
        let script = utxo.script_pub_key_bytes.clone();
        assert(script@ =~= utxo.script_pub_key_bytes@);
        rows.push(
            TransparentUtxoRow {
                tx_id: utxo.tx_id,
                output_index: utxo.output_index,
                value_zat: utxo.value_zat,
                mined_height: utxo.confirmed_at_height,
                script_pub_key_bytes: script,
            },
        );
        index += 1;
    }
    assert(utxos@.take(index as int) =~= utxos@);
    Ok(rows)
}

/// A batch passes exactly when every UTXO is confirmed at or below the tip and pays the
/// receiver, and no outpoint occurs twice, neither in the batch nor earlier in the walk.
pub proof fn a_sound_batch_has_no_defect_of_any_kind(
    visible_tip: BlockHeight,
    receiver: TransparentReceiverRow,
    utxos: Seq<TransparentUtxo>,
    seen: Seq<OutPoint>,
)
    ensures
        is_sound_batch(visible_tip, receiver, utxos, seen) <==> {
            &&& forall|i: int|
                0 <= i < utxos.len() ==> {
                    &&& (#[trigger] utxos[i]).confirmed_at_height.0 <= visible_tip.0
                    &&& utxos[i].script_pub_key_bytes@ == receiver.script_pub_key_bytes@
                    &&& !seen.contains(utxos[i].outpoint())
                }
            &&& forall|i: int, j: int|
                0 <= i < j < utxos.len() ==> (#[trigger] utxos[i]).outpoint() != (
                #[trigger] utxos[j]).outpoint()
        },
{
    let in_place = forall|i: int|
        0 <= i < utxos.len() ==> {
            &&& (#[trigger] utxos[i]).confirmed_at_height.0 <= visible_tip.0
            &&& utxos[i].script_pub_key_bytes@ == receiver.script_pub_key_bytes@
            &&& !seen.contains(utxos[i].outpoint())
        };
    let distinct = forall|i: int, j: int|
        0 <= i < j < utxos.len() ==> (#[trigger] utxos[i]).outpoint() != (
        #[trigger] utxos[j]).outpoint();
    if is_sound_batch(visible_tip, receiver, utxos, seen) {
        assert forall|i: int| 0 <= i < utxos.len() implies {
            &&& (#[trigger] utxos[i]).confirmed_at_height.0 <= visible_tip.0
            &&& utxos[i].script_pub_key_bytes@ == receiver.script_pub_key_bytes@
            &&& !seen.contains(utxos[i].outpoint())
        } by {
            assert(defect_at(visible_tip, receiver, utxos, seen, i) is None);
            let known = seen + utxo_points(utxos.take(i));
            if seen.contains(utxos[i].outpoint()) {
                let k = choose|k: int| 0 <= k < seen.len() && seen[k] == utxos[i].outpoint();
                assert(known[k] == utxos[i].outpoint());
            }
        }
        assert forall|i: int, j: int| 0 <= i < j < utxos.len() implies (
        #[trigger] utxos[i]).outpoint() != (#[trigger] utxos[j]).outpoint() by {
            assert(defect_at(visible_tip, receiver, utxos, seen, j) is None);
            let known = seen + utxo_points(utxos.take(j));
            assert(known[seen.len() + i] == utxos[i].outpoint());
        }
    }
    if in_place && distinct {
        assert forall|i: int| 0 <= i < utxos.len() implies #[trigger] defect_at(
            visible_tip,
            receiver,
            utxos,
            seen,
            i,
        ) is None by {
            let known = seen + utxo_points(utxos.take(i));
            let utxo = utxos[i];
            if known.contains(utxo.outpoint()) {
                let k = choose|k: int| 0 <= k < known.len() && known[k] == utxo.outpoint();
                if k < seen.len() {
                    assert(seen[k] == utxo.outpoint());
                } else {
                    assert(utxos[k - seen.len()].outpoint() == utxo.outpoint());
                }
            }
        }
    }
}

/// Summary of one refresh walk.
#[derive(Clone, Copy, Debug, PartialEq, Eq, Structural)]
pub struct TransparentUtxoRefreshOutcome {
    /// Number of transparent receivers the walk read from the chain source.
    pub receivers_visited: u64,
    /// Number of transparent UTXOs recorded during this walk.
    pub utxo_count: u64,
    /// Unix milliseconds when this walk completed.
    pub completed_at_ms: u64,
}

/// A batch to record.
#[derive(Debug)]
pub struct TransparentUtxoBatch {
    /// Scanned frontier that the wallet must still hold for the batch to be written.
    pub min_scanned_height: Option<BlockHeight>,
    /// Rows to record.
    pub rows: Vec<TransparentUtxoRow>,
}

/// What a walk pinned when it began, and what it has done since.
#[derive(Debug)]
pub struct WalkState {
    /// The pinned epoch: every read of the walk observes it.
    pub epoch: ChainEpoch,
    /// The pinned scanned frontier: every commit of the walk carries it.
    pub min_scanned_height: Option<BlockHeight>,
    /// The receivers to visit.
    pub receivers: Vec<TransparentReceiverRow>,
    /// Number of receivers whose batch was recorded.
    pub visited: usize,
    /// Outpoints of every batch so far.
    pub seen: OutPointSet,
    /// UTXOs recorded so far, at most `u64::MAX`.
    pub utxo_count: u64,
}

/// A walk that is to fetch the next receiver's UTXOs.
#[derive(Debug)]
pub struct ReceiverFetch {
    state: WalkState,
}

/// A walk whose latest batch is to be recorded.
#[derive(Debug)]
pub struct ReceiverCommit {
    state: WalkState,
}

/// A walk that has visited every receiver.
#[derive(Debug)]
pub struct FinishedWalk {
    receivers_visited: u64,
    utxo_count: u64,
}

/// A walk between two requests.
#[derive(Debug)]
pub enum RefreshWalk {
    /// The next receiver's UTXOs are to be fetched.
    Fetch(ReceiverFetch),
    /// Every receiver was visited.
    Finished(FinishedWalk),
}

/// `a + b`, or `u64::MAX` where that does not fit.
pub open spec fn saturated_sum(a: u64, b: u64) -> int {
    if a + b > u64::MAX {
        u64::MAX as int
    } else {
        a + b
    }
}

impl RefreshWalk {
    /// The walk goes on from `state`: to the next receiver while there is one.
    pub open spec fn goes_on_from(self, state: WalkState) -> bool {
        if state.visited < state.receivers@.len() {
            self matches RefreshWalk::Fetch(fetch) && fetch.state_spec() == state
        } else {
            self matches RefreshWalk::Finished(finished) && finished.receivers_spec()
                == state.receivers@.len() && finished.count_spec() == state.utxo_count
        }
    }

    /// Begins a walk over `receivers` under a pinned epoch and scanned frontier.
    pub fn start(
        epoch: ChainEpoch,
        min_scanned_height: Option<BlockHeight>,
        receivers: Vec<TransparentReceiverRow>,
    ) -> (walk: RefreshWalk)
        ensures
            exists|state: WalkState|
                {
                    &&& #[trigger] walk.goes_on_from(state)
                    &&& state.epoch == epoch
                    &&& state.min_scanned_height == min_scanned_height
                    &&& state.receivers == receivers
                    &&& state.visited == 0
                    &&& state.seen@ == Seq::<OutPoint>::empty()
                    &&& state.utxo_count == 0
                },
    {
        let state = WalkState {
            epoch,
            min_scanned_height,
            receivers,
            visited: 0,
            seen: OutPointSet::new(),
            utxo_count: 0,
        };
        Self::go_on(state)
    }

    fn go_on(state: WalkState) -> (walk: RefreshWalk)
        requires
            state.visited <= state.receivers@.len(),
        ensures
            walk.goes_on_from(state),
    {
        if state.visited < state.receivers.len() {
            RefreshWalk::Fetch(ReceiverFetch { state })
        } else {
            RefreshWalk::Finished(
                FinishedWalk {
                    receivers_visited: state.receivers.len() as u64,
                    utxo_count: state.utxo_count,
                },
            )
        }
    }
}

impl ReceiverFetch {
    #[verifier::type_invariant]
    closed spec fn has_a_receiver(self) -> bool {
        self.state.visited < self.state.receivers@.len()
    }

    /// What the walk pinned and did so far.
    pub closed spec fn state_spec(&self) -> WalkState {
        self.state
    }

    /// Epoch under which to fetch.
    pub fn epoch(&self) -> (epoch: ChainEpoch)
        ensures
            epoch == self.state_spec().epoch,
    {
        self.state.epoch
    }

    /// Script whose UTXOs to fetch.
    pub fn script_pub_key_bytes(&self) -> (script: &Vec<u8>)
        ensures
            self.state_spec().visited < self.state_spec().receivers@.len(),
            *script == self.state_spec().receivers@[self.state_spec().visited
                as int].script_pub_key_bytes,
    {
        proof {
            use_type_invariant(self);
        }
        &self.state.receivers[self.state.visited].script_pub_key_bytes
    }

    /// Takes in the receiver's UTXOs: a sound batch is to be recorded under the pinned floor,
    /// and any other aborts the walk with nothing of it recorded.
    pub fn fetched(self, utxos: Vec<TransparentUtxo>) -> (commit: Result<
        (ReceiverCommit, TransparentUtxoBatch),
        WalletError,
    >)
        ensures
            self.state_spec().visited < self.state_spec().receivers@.len(),
            commit is Ok <==> is_sound_batch(
                self.state_spec().epoch.visible_tip,
                self.state_spec().receivers@[self.state_spec().visited as int],
                utxos@,
                self.state_spec().seen@,
            ),
            commit matches Ok((commit, batch)) ==> {
                &&& commit.state_spec() == (WalkState {
                    seen: commit.state_spec().seen,
                    ..self.state_spec()
                })
                &&& commit.state_spec().seen@ == self.state_spec().seen@ + utxo_points(utxos@)
                &&& commit.state_spec().seen@.no_duplicates()
                &&& batch.min_scanned_height == self.state_spec().min_scanned_height
                &&& batch.rows@.len() == utxos@.len()
                &&& forall|i: int|
                    0 <= i < utxos@.len() ==> (#[trigger] batch.rows@[i]).records(utxos@[i])
                &&& forall|i: int|
                    0 <= i < utxos@.len() ==> {
                        &&& (#[trigger] batch.rows@[i]).tx_id == utxos@[i].tx_id
                        &&& batch.rows@[i].output_index == utxos@[i].output_index
                        &&& batch.rows@[i].value_zat == utxos@[i].value_zat
                        &&& batch.rows@[i].mined_height == utxos@[i].confirmed_at_height
                        &&& batch.rows@[i].script_pub_key_bytes@
                            == utxos@[i].script_pub_key_bytes@
                    }
            },
            commit matches Err(error) ==> exists|index: int, defect: UtxoSetDefect|
                {
                    &&& #[trigger] is_first_defect(
                        self.state_spec().epoch.visible_tip,
                        self.state_spec().receivers@[self.state_spec().visited as int],
                        utxos@,
                        self.state_spec().seen@,
                        index,
                        defect,
                    )
                    &&& error.malformed_as(
                        ChainSourceErrorKind::MalformedTransparentUtxoSet { defect },
                    )
                },
    {
        proof {
            use_type_invariant(&self);
        }
        let epoch = self.state.epoch;
        let min_scanned_height = self.state.min_scanned_height;
        let receivers = self.state.receivers;
        let visited: usize = self.state.visited;
        let utxo_count: u64 = self.state.utxo_count;
        let mut seen = self.state.seen;
        match validate_transparent_utxo_batch(epoch, &receivers[visited], utxos, &mut seen) {
            Ok(rows) => {
                let _ = seen.points();
                let state = WalkState {
                    epoch,
                    min_scanned_height,
                    receivers,
                    visited,
                    seen,
                    utxo_count,
                };
                Ok((ReceiverCommit { state }, TransparentUtxoBatch { min_scanned_height, rows }))
            },
            Err(error) => Err(error),
        }
    }
}

impl ReceiverCommit {
    #[verifier::type_invariant]
    closed spec fn has_a_receiver(self) -> bool {
        self.state.visited < self.state.receivers@.len()
    }

    /// What the walk pinned and did so far.
    pub closed spec fn state_spec(&self) -> WalkState {
        self.state
    }

    /// The batch was recorded, with `recorded` UTXOs: the walk goes on to the next receiver.
    pub fn recorded(self, recorded: u64) -> (walk: RefreshWalk)
        ensures
            self.state_spec().visited < self.state_spec().receivers@.len(),
            walk.goes_on_from(
                (WalkState {
                    visited: (self.state_spec().visited + 1) as usize,
                    utxo_count: saturated_sum(self.state_spec().utxo_count, recorded) as u64,
                    ..self.state_spec()
                }),
            ),
    {
        proof {
            use_type_invariant(&self);
        }
        let count: usize = self.state.receivers.len();
        assert(self.state.visited < count);
        let state = WalkState {
            epoch: self.state.epoch,
            min_scanned_height: self.state.min_scanned_height,
            receivers: self.state.receivers,
            visited: self.state.visited + 1,
            seen: self.state.seen,
            utxo_count: self.state.utxo_count.saturating_add(recorded),
        };
        RefreshWalk::go_on(state)
    }
}

impl FinishedWalk {
    /// Number of receivers visited.
    pub closed spec fn receivers_spec(&self) -> int {
        self.receivers_visited as int
    }

    /// Number of UTXOs recorded.
    pub closed spec fn count_spec(&self) -> u64 {
        self.utxo_count
    }

    /// The walk's summary.
    pub fn outcome(self, now_ms: u64) -> (outcome: TransparentUtxoRefreshOutcome)
        ensures
            outcome.receivers_visited == self.receivers_spec(),
            outcome.utxo_count == self.count_spec(),
            outcome.completed_at_ms == now_ms,
    {
        TransparentUtxoRefreshOutcome {
            receivers_visited: self.receivers_visited,
            utxo_count: self.utxo_count,
            completed_at_ms: now_ms,
        }
    }
}

/// One receiver of a walk: from `before`, its batch is fetched and recorded with `recorded`
/// UTXOs, which leads to `after`.
pub open spec fn visits_one(before: WalkState, recorded: u64, after: WalkState) -> bool {
    &&& before.visited < before.receivers@.len()
    &&& after == (WalkState {
        visited: (before.visited + 1) as usize,
        utxo_count: saturated_sum(before.utxo_count, recorded) as u64,
        seen: after.seen,
        ..before
    })
}

/// The sum of what was recorded for each receiver.
pub open spec fn total_recorded(recorded: Seq<u64>) -> int
    decreases recorded.len(),
{
    if recorded.len() == 0 {
        0
    } else {
        total_recorded(recorded.drop_last()) + recorded.last()
    }
}

/// A walk that has come to its end visited every receiver of its list once, in order, and its
/// summary counts them all and the sum of what was recorded, held at what a `u64` can say.
pub proof fn a_whole_walk_visits_every_receiver(
    states: Seq<WalkState>,
    recorded: Seq<u64>,
    walk: RefreshWalk,
)
    requires
        states.len() == recorded.len() + 1,
        states[0].visited == 0,
        states[0].utxo_count == 0,
        forall|i: int|
            0 <= i < recorded.len() ==> visits_one(states[i], #[trigger] recorded[i], states[i + 1]),
        walk.goes_on_from(states.last()),
    ensures
        walk is Finished <==> recorded.len() == states[0].receivers@.len(),
        forall|i: int| 0 <= i < states.len() ==> (#[trigger] states[i]).visited == i,
        walk matches RefreshWalk::Finished(finished) ==> finished.receivers_spec()
            == states[0].receivers@.len() && finished.count_spec() == crate::domain::lesser(
            total_recorded(recorded),
            u64::MAX as int,
        ),
{
    walk_keeps_count(states, recorded, recorded.len() as int);
    assert(recorded.take(recorded.len() as int) =~= recorded);
    assert forall|i: int| 0 <= i < states.len() implies (#[trigger] states[i]).visited == i by {
        walk_keeps_count(states, recorded, i);
    }
}

proof fn walk_keeps_count(states: Seq<WalkState>, recorded: Seq<u64>, count: int)
    requires
        states.len() == recorded.len() + 1,
        states[0].visited == 0,
        states[0].utxo_count == 0,
        forall|i: int|
            0 <= i < recorded.len() ==> visits_one(states[i], #[trigger] recorded[i], states[i + 1]),
        0 <= count <= recorded.len(),
    ensures
        states[count].visited == count,
        states[count].receivers == states[0].receivers,
        count <= states[0].receivers@.len(),
        total_recorded(recorded.take(count)) >= 0,
        states[count].utxo_count == crate::domain::lesser(
            total_recorded(recorded.take(count)),
            u64::MAX as int,
        ),
    decreases count,
{
    if count > 0 {
        walk_keeps_count(states, recorded, count - 1);
        assert(visits_one(states[count - 1], recorded[count - 1], states[count]));
        assert(recorded.take(count).drop_last() =~= recorded.take(count - 1));
        assert(states[0].receivers.len() == states[0].receivers@.len());
    }
}

/// What the refresh loop does next.
#[derive(Clone, Copy, Debug, PartialEq, Eq, Structural)]
pub enum RefreshAction {
    /// Wait this many milliseconds, or until the loop is closed.
    Sleep {
        /// How long to wait.
        interval_ms: u64,
    },
    /// Run one refresh, bounded to this many seconds, or until the loop is closed.
    Attempt {
        /// Longest the attempt may take.
        timeout_seconds: u64,
    },
    /// Leave the loop.
    Stop,
}

/// What ended the loop's wait.
#[derive(Debug)]
pub enum RefreshWake {
    /// The loop was closed.
    Closed,
    /// The interval went by.
    Slept,
    /// The attempt succeeded.
    Completed,
    /// The attempt exhausted its retries.
    Failed {
        /// The failure.
        error: WalletError,
    },
    /// The attempt ran into its bound.
    TimedOut,
}

/// Long-lived loop that refreshes transparent UTXOs on its own cadence.
///
/// A failed attempt waits for the next tick rather than engaging a repair ladder, since a stale
/// transparent-UTXO cache is neither a corrupt wallet state nor a reason to stop scanning
/// blocks. The loop waits one interval before its first attempt, and bounds every attempt, so
/// that a chain read that never returns faults the attempt instead of wedging the loop.
#[derive(Clone, Copy, Debug, PartialEq, Eq, Structural)]
pub struct RefreshLoop {
    /// Milliseconds between two attempts.
    pub interval_ms: u64,
    /// Longest an attempt may take, in seconds.
    pub timeout_seconds: u64,
    /// Failed attempts since the last successful one, at most `u32::MAX`.
    pub consecutive_failures: u32,
}

/// The reason given for an attempt that ran into its bound.
pub open spec fn timeout_reason(timeout_seconds: u64) -> Seq<char> {
    "transparent UTXO refresh exceeded "@ + crate::text::decimal_text(timeout_seconds as nat)
        + " seconds"@
}

/// One more failure, as far as the count goes.
pub open spec fn one_more_failure(consecutive_failures: u32) -> u32 {
    if consecutive_failures == u32::MAX {
        u32::MAX
    } else {
        (consecutive_failures + 1) as u32
    }
}

impl RefreshLoop {
    /// A loop that has not attempted anything, and what it does first: it waits.
    pub fn start(interval_ms: u64, timeout_seconds: u64) -> (started: (RefreshLoop, RefreshAction))
        ensures
            started.0 == (RefreshLoop { interval_ms, timeout_seconds, consecutive_failures: 0 }),
            started.1 == (RefreshAction::Sleep { interval_ms }),
    {
        (
            RefreshLoop { interval_ms, timeout_seconds, consecutive_failures: 0 },
            RefreshAction::Sleep { interval_ms },
        )
    }

    /// The failure count after a wake.
    pub open spec fn failures_after(self, wake: RefreshWake) -> u32 {
        match wake {
            RefreshWake::Completed => 0,
            RefreshWake::Failed { .. } | RefreshWake::TimedOut => one_more_failure(
                self.consecutive_failures,
            ),
            _ => self.consecutive_failures,
        }
    }

    /// What the loop does after a wake.
    pub open spec fn action_after(self, wake: RefreshWake) -> RefreshAction {
        match wake {
            RefreshWake::Closed => RefreshAction::Stop,
            RefreshWake::Slept => RefreshAction::Attempt { timeout_seconds: self.timeout_seconds },
            _ => RefreshAction::Sleep { interval_ms: self.interval_ms },
        }
    }

    /// Takes in what ended the wait: every faulted attempt is published with the running
    /// failure count, and nothing else is.
    pub fn woken(&mut self, wake: RefreshWake) -> (next: (Option<WalletEvent>, RefreshAction))
        ensures
            *final(self) == (RefreshLoop {
                consecutive_failures: old(self).failures_after(wake),
                ..*old(self)
            }),
            next.1 == old(self).action_after(wake),
            match wake {
                RefreshWake::Failed { error } => next.0 matches Some(
                    WalletEvent::TransparentUtxoRefreshFaulted { consecutive_failures, reason },
                ) && consecutive_failures == final(self).consecutive_failures && reason@
                    == error.described(),
                RefreshWake::TimedOut => next.0 matches Some(
                    WalletEvent::TransparentUtxoRefreshFaulted { consecutive_failures, reason },
                ) && consecutive_failures == final(self).consecutive_failures && reason@
                    == timeout_reason(old(self).timeout_seconds),
                _ => next.0 is None,
            },
    {
        let rest = RefreshAction::Sleep { interval_ms: self.interval_ms };
        match wake {
            RefreshWake::Closed => (None, RefreshAction::Stop),
            RefreshWake::Slept => (
                None,
                RefreshAction::Attempt { timeout_seconds: self.timeout_seconds },
            ),
            RefreshWake::Completed => {
                self.consecutive_failures = 0;
                (None, rest)
            },
            RefreshWake::Failed { error } => (Some(self.faulted(error.describe())), rest),
            RefreshWake::TimedOut => {
                let reason = "transparent UTXO refresh exceeded ".to_owned().concat(
                    decimal(self.timeout_seconds).as_str(),
                ).concat(" seconds");
                (Some(self.faulted(reason)), rest)
            },
        }
    }

    fn faulted(&mut self, reason: String) -> (event: WalletEvent)
        ensures
            *final(self) == (RefreshLoop {
                consecutive_failures: one_more_failure(old(self).consecutive_failures),
                ..*old(self)
            }),
            event == (WalletEvent::TransparentUtxoRefreshFaulted {
                consecutive_failures: final(self).consecutive_failures,
                reason,
            }),
    {
        self.consecutive_failures = self.consecutive_failures.saturating_add(1);
        WalletEvent::TransparentUtxoRefreshFaulted {
            consecutive_failures: self.consecutive_failures,
            reason,
        }
    }

    /// The loop after `wakes`, one after the other.
    pub open spec fn after(self, wakes: Seq<RefreshWake>) -> RefreshLoop
        decreases wakes.len(),
    {
        if wakes.len() == 0 {
            self
        } else {
            let before = self.after(wakes.drop_last());
            RefreshLoop { consecutive_failures: before.failures_after(wakes.last()), ..before }
        }
    }
}

/// Number of attempts among `wakes` that failed.
pub open spec fn failed_attempts(wakes: Seq<RefreshWake>) -> nat
    decreases wakes.len(),
{
    if wakes.len() == 0 {
        0
    } else {
        failed_attempts(wakes.drop_last()) + if wakes.last() is Failed || wakes.last() is TimedOut {
            1nat
        } else {
            0nat
        }
    }
}

/// The published count is the number of attempts that failed since the last successful one,
/// as far as it fits.
pub proof fn the_failure_count_is_the_failed_run(
    refresh: RefreshLoop,
    before: Seq<RefreshWake>,
    since: Seq<RefreshWake>,
)
    requires
        before.len() > 0,
        before.last() is Completed,
        forall|i: int| 0 <= i < since.len() ==> !((#[trigger] since[i]) is Completed),
    ensures
        refresh.after(before + since).consecutive_failures == if failed_attempts(since)
            > u32::MAX {
            u32::MAX as nat
        } else {
            failed_attempts(since)
        },
    decreases since.len(),
{
    if since.len() == 0 {
        assert(before + since =~= before);
    } else {
        assert((before + since).drop_last() =~= before + since.drop_last());
        assert(!(since[since.len() - 1] is Completed));
        the_failure_count_is_the_failed_run(refresh, before, since.drop_last());
    }
}

} // verus!
