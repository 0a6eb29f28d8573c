//! One chunk of blocks, from the plan to the published outcome.

use crate::domain::{same_bytes, shielded_pool_for, BlockHeight, TxId};
use crate::error::WalletError;
use crate::event::WalletEvent;
use crate::received_note::ReceivedShieldedNoteRow;
use crate::sync::attempt::ChainEpoch;
use crate::sync::frontier::SyncOutcome;
use crate::sync::scan::{
    check_tree_state, prior_height, CompactBlockArtifact, CompactBlockIntake, PlannedRange,
    TreeStateArtifact,
};
use std::collections::HashMap;
use vstd::prelude::*;

verus! {

broadcast use vstd::std_specs::hash::group_hash_axioms;

/// An attempt with a chunk to scan.
#[derive(Debug)]
pub struct PlannedScan {
    epoch: ChainEpoch,
    range: PlannedRange,
}

/// An attempt that is fetching its chunk, with the tree state the chunk is anchored on.
#[derive(Debug)]
pub struct AnchoredScan {
    epoch: ChainEpoch,
    from_state: TreeStateArtifact,
    intake: CompactBlockIntake,
}

/// What storage is asked to scan.
#[derive(Debug)]
pub struct ScanRequest {
    /// The blocks, in height order.
    pub blocks: Vec<CompactBlockArtifact>,
    /// Height of the first block.
    pub scanned_from: BlockHeight,
    /// Tree state the first block is anchored on.
    pub from_state: TreeStateArtifact,
}

/// What an attempt keeps of its chunk while storage scans it.
#[derive(Debug)]
pub struct RunningScan {
    epoch: ChainEpoch,
    scanned_from: BlockHeight,
    block_count: u64,
    timestamps_by_height: HashMap<u32, u64>,
}

/// An attempt whose chunk is committed and not yet compared with the chain.
#[derive(Debug)]
pub struct CommittedScan {
    running: RunningScan,
    scanned_to: BlockHeight,
}

/// An attempt whose chunk was compared with the chain and agrees with it.
#[derive(Debug)]
pub struct VerifiedScan {
    committed: CommittedScan,
    comparison: RootComparison,
}

/// A verified attempt with the transactions its chunk confirmed.
#[derive(Debug)]
pub struct ConfirmedScan {
    verified: VerifiedScan,
    newly_confirmed: Vec<(TxId, BlockHeight)>,
}

/// A verified attempt that has announced its confirmations.
#[derive(Debug)]
pub struct ReceivingScan {
    verified: VerifiedScan,
}

impl PlannedScan {
    /// The pinned epoch.
    pub closed spec fn epoch_spec(&self) -> ChainEpoch {
        self.epoch
    }

    /// The chunk.
    pub closed spec fn range_spec(&self) -> PlannedRange {
        self.range
    }

    #[verifier::type_invariant]
    closed spec fn holds_blocks(self) -> bool {
        self.range.start.0 <= self.range.end.0
    }

    pub(crate) fn of(epoch: ChainEpoch, range: PlannedRange) -> (planned: PlannedScan)
        requires
            range.start.0 <= range.end.0,
        ensures
            planned.epoch_spec() == epoch,
            planned.range_spec() == range,
    {
        PlannedScan { epoch, range }
    }

    /// The chunk.
    pub fn range(&self) -> (range: PlannedRange)
        ensures
            range == self.range_spec(),
    {
        self.range
    }

    /// The progress that the beginning of the chunk announces.
    pub fn progress_event(&self) -> (event: WalletEvent)
        ensures
            event == (WalletEvent::ScanProgress {
                scanned_height: self.range_spec().start,
                target_height: self.epoch_spec().visible_tip,
            }),
    {
        WalletEvent::ScanProgress {
            scanned_height: self.range.start,
            target_height: self.epoch.visible_tip,
        }
    }

    /// Height of the tree state the chunk is anchored on.
    pub fn anchor_height(&self) -> (height: BlockHeight)
        ensures
            height == crate::sync::scan::prior_height_spec(self.range_spec().start),
    {
        prior_height(self.range.start)
    }

    /// Takes in the tree state the chunk is anchored on: accepted exactly if it is the one
    /// right before the chunk.
    pub fn anchor(self, tree_state: TreeStateArtifact) -> (anchored: Result<
        AnchoredScan,
        WalletError,
    >)
        ensures
            ({
                let height = crate::sync::scan::prior_height_spec(self.range_spec().start);
                &&& tree_state.height == height ==> {
                    &&& anchored matches Ok(a)
                    &&& a.epoch_spec() == self.epoch_spec()
                    &&& a.anchor_spec() == tree_state
                    &&& a.intake_spec().start_spec() == self.range_spec().start
                    &&& a.intake_spec().end_spec() == self.range_spec().end
                    &&& a.intake_spec().received() == Seq::<CompactBlockArtifact>::empty()
                }
                &&& tree_state.height != height ==> {
                    &&& anchored matches Err(error)
                    &&& error.malformed_as(
                        crate::boundary_error::ChainSourceErrorKind::TreeStateAnchorHeightMismatch {
                            requested_height: height,
                            returned_height: tree_state.height,
                        },
                    )
                }
            }),
    {
        proof {
            use_type_invariant(&self);
        }
        let from_state = match check_tree_state(tree_state, prior_height(self.range.start)) {
            Ok(tree_state) => tree_state,
            Err(error) => return Err(error),
        };
        match CompactBlockIntake::begin(self.range.start, self.range.end) {
            Ok(intake) => Ok(AnchoredScan { epoch: self.epoch, from_state, intake }),
            Err(error) => Err(error),
        }
    }
}

/// Header times of blocks in milliseconds, by height; of two blocks at one height, the later in
/// the sequence counts.
pub open spec fn block_timestamps(blocks: Seq<CompactBlockArtifact>) -> Map<u32, u64>
    decreases blocks.len(),
{
    if blocks.len() == 0 {
        Map::empty()
    } else {
        block_timestamps(blocks.drop_last()).insert(
            blocks.last().height.0,
            (blocks.last().block_time_seconds * 1_000) as u64,
        )
    }
}

/// Indexes the header times of blocks by height.
pub fn block_timestamp_index(blocks: &Vec<CompactBlockArtifact>) -> (index: HashMap<u32, u64>)
    ensures
        index@ == block_timestamps(blocks@),
{
    let mut index: HashMap<u32, u64> = HashMap::new();
    let mut position: usize = 0;
    assert(blocks@.take(0) =~= Seq::empty());
    while position < blocks.len()
        invariant
            position <= blocks@.len(),
            index@ == block_timestamps(blocks@.take(position as int)),
        decreases blocks@.len() - position,
    {
        let height: u32 = blocks[position].height.0;
        let timestamp_ms: u64 = blocks[position].block_time_seconds as u64 * 1_000;
        index.insert(height, timestamp_ms);
        position += 1;
        assert(blocks@.take(position as int).drop_last() =~= blocks@.take(position - 1));
    }
    assert(blocks@.take(blocks@.len() as int) =~= blocks@);
    index
}

impl AnchoredScan {
    /// The pinned epoch.
    pub closed spec fn epoch_spec(&self) -> ChainEpoch {
        self.epoch
    }

    /// The tree state the chunk is anchored on.
    pub closed spec fn anchor_spec(&self) -> TreeStateArtifact {
        self.from_state
    }

    /// The blocks taken in so far.
    pub closed spec fn intake_spec(&self) -> CompactBlockIntake {
        self.intake
    }

    /// Takes in the next block of the chunk: accepted exactly if it is the next one.
    pub fn take_block(self, block: CompactBlockArtifact) -> (taken: Result<
        AnchoredScan,
        WalletError,
    >)
        ensures
            ({
                let intake = self.intake_spec();
                let expected = crate::sync::scan::expected_block_height(
                    intake.start_spec(),
                    intake.end_spec(),
                    intake.received().len() as int,
                );
                &&& expected == Some(block.height) ==> {
                    &&& taken matches Ok(a)
                    &&& a.epoch_spec() == self.epoch_spec()
                    &&& a.anchor_spec() == self.anchor_spec()
                    &&& a.intake_spec().start_spec() == intake.start_spec()
                    &&& a.intake_spec().end_spec() == intake.end_spec()
                    &&& a.intake_spec().received() == intake.received().push(block)
                }
                &&& expected != Some(block.height) ==> {
                    &&& taken matches Err(error)
                    &&& error.malformed_as(
                        crate::sync::scan::order_kind(
                            match expected {
                                Some(height) => height,
                                None => intake.end_spec(),
                            },
                            Some(block.height),
                        ),
                    )
                }
            }),
    {
        match self.intake.take(block) {
            Ok(intake) => Ok(
                AnchoredScan { epoch: self.epoch, from_state: self.from_state, intake },
            ),
            Err(error) => Err(error),
        }
    }

    /// Ends the fetch: a chunk that was not served in full is refused, a complete one is handed
    /// to storage.
    pub fn ready(self) -> (ready: Result<(ScanRequest, RunningScan), WalletError>)
        ensures
            ({
                let intake = self.intake_spec();
                &&& ready is Ok <==> intake.received().len() == intake.end_spec().0
                    - intake.start_spec().0 + 1
                &&& ready matches Ok((request, running)) ==> {
                    &&& request.blocks@ == intake.received()
                    &&& crate::sync::scan::consecutive_from(
                        intake.start_spec(),
                        request.blocks@,
                    )
                    &&& request.scanned_from == intake.start_spec()
                    &&& request.from_state == self.anchor_spec()
                    &&& running.epoch_spec() == self.epoch_spec()
                    &&& running.scanned_from_spec() == intake.start_spec()
                    &&& running.block_count_spec() == intake.received().len()
                    &&& running.timestamps_spec() == block_timestamps(intake.received())
                }
                &&& ready matches Err(error) ==> error.malformed_as(
                    crate::sync::scan::order_kind(
                        BlockHeight((intake.start_spec().0 + intake.received().len()) as u32),
                        None,
                    ),
                )
            }),
    {
        let scanned_from = self.intake.start_height();
        let blocks = match self.intake.finish() {
            Ok(blocks) => blocks,
            Err(error) => return Err(error),
        };
        let block_count: u64 = blocks.len() as u64;
        let timestamps_by_height = block_timestamp_index(&blocks);
        Ok(
            (
                ScanRequest { blocks, scanned_from, from_state: self.from_state },
                RunningScan {
                    epoch: self.epoch,
                    scanned_from,
                    block_count,
                    timestamps_by_height,
                },
            ),
        )
    }
}

impl RunningScan {
    /// The pinned epoch.
    pub closed spec fn epoch_spec(&self) -> ChainEpoch {
        self.epoch
    }

    /// Height of the chunk's first block.
    pub closed spec fn scanned_from_spec(&self) -> BlockHeight {
        self.scanned_from
    }

    /// Number of blocks in the chunk.
    pub closed spec fn block_count_spec(&self) -> u64 {
        self.block_count
    }

    /// Header times of the chunk's blocks.
    pub closed spec fn timestamps_spec(&self) -> Map<u32, u64> {
        self.timestamps_by_height@
    }

    /// Takes in that storage committed the chunk up to `scanned_to`.
    pub fn committed(self, scanned_to: BlockHeight) -> (committed: CommittedScan)
        ensures
            committed.running_spec() == self,
            committed.scanned_to_spec() == scanned_to,
    {
        CommittedScan { running: self, scanned_to }
    }
}

/// Roots of the note-commitment trees; `None` for an empty tree.
#[derive(Clone, Copy, Debug)]
pub struct TreeRoots {
    /// Sapling root.
    pub sapling: Option<[u8; 32]>,
    /// Orchard root.
    pub orchard: Option<[u8; 32]>,
    /// Ironwood root.
    pub ironwood: Option<[u8; 32]>,
}

/// How the wallet's roots compare with the chain's; `None` for a tree that could not be
/// compared because one side is empty.
#[derive(Clone, Copy, Debug, PartialEq, Eq, Structural)]
pub struct RootComparison {
    /// Whether the Sapling roots agree.
    pub sapling_match: Option<bool>,
    /// Whether the Orchard roots agree.
    pub orchard_match: Option<bool>,
    /// Whether the Ironwood roots agree.
    pub ironwood_match: Option<bool>,
}

/// How one tree's roots compare.
pub open spec fn root_match(wallet: Option<[u8; 32]>, chain: Option<[u8; 32]>) -> Option<bool> {
    match (wallet, chain) {
        (Some(wallet_root), Some(chain_root)) => Some(wallet_root == chain_root),
        _ => None,
    }
}

fn compare_root(wallet: &Option<[u8; 32]>, chain: &Option<[u8; 32]>) -> (matched: Option<bool>)
    ensures
        matched == root_match(*wallet, *chain),
{
    match (wallet, chain) {
        (Some(wallet_root), Some(chain_root)) => Some(same_bytes(wallet_root, chain_root)),
        _ => None,
    }
}

impl RootComparison {
    /// How two sets of roots compare.
    pub open spec fn of_spec(wallet: TreeRoots, chain: TreeRoots) -> RootComparison {
        RootComparison {
            sapling_match: root_match(wallet.sapling, chain.sapling),
            orchard_match: root_match(wallet.orchard, chain.orchard),
            ironwood_match: root_match(wallet.ironwood, chain.ironwood),
        }
    }

    /// Compares the wallet's roots with the chain's.
    pub fn of(wallet: &TreeRoots, chain: &TreeRoots) -> (comparison: RootComparison)
        ensures
            comparison == Self::of_spec(*wallet, *chain),
    {
        RootComparison {
            sapling_match: compare_root(&wallet.sapling, &chain.sapling),
            orchard_match: compare_root(&wallet.orchard, &chain.orchard),
            ironwood_match: compare_root(&wallet.ironwood, &chain.ironwood),
        }
    }

    /// Whether some tree was compared and disagrees: the wallet assembled a corrupt tree.
    pub open spec fn diverges(self) -> bool {
        self.sapling_match == Some(false) || self.orchard_match == Some(false)
            || self.ironwood_match == Some(false)
    }

    /// Whether no tree could be compared.
    pub open spec fn is_skipped(self) -> bool {
        self.sapling_match is None && self.orchard_match is None && self.ironwood_match is None
    }

    /// Whether some tree was compared and disagrees.
    pub fn has_divergence(&self) -> (diverges: bool)
        ensures
            diverges == self.diverges(),
    {
        is_mismatch(self.sapling_match) || is_mismatch(self.orchard_match) || is_mismatch(
            self.ironwood_match,
        )
    }

    /// Whether no tree could be compared.
    pub fn skipped(&self) -> (skipped: bool)
        ensures
            skipped == self.is_skipped(),
    {
        self.sapling_match.is_none() && self.orchard_match.is_none()
            && self.ironwood_match.is_none()
    }
}

fn is_mismatch(matched: Option<bool>) -> (mismatch: bool)
    ensures
        mismatch == (matched == Some(false)),
{
    match matched {
        Some(matched) => !matched,
        None => false,
    }
}

impl CommittedScan {
    /// What the attempt kept of its chunk.
    pub closed spec fn running_spec(&self) -> RunningScan {
        self.running
    }

    /// Highest committed block.
    pub closed spec fn scanned_to_spec(&self) -> BlockHeight {
        self.scanned_to
    }

    /// Highest committed block: the height whose tree state the comparison needs.
    pub fn scanned_to(&self) -> (height: BlockHeight)
        ensures
            height == self.scanned_to_spec(),
    {
        self.scanned_to
    }

    /// The error of an attempt whose comparison was stopped by `error`.
    pub fn unverified(&self, error: WalletError) -> (unverified: WalletError)
        ensures
            unverified == (WalletError::UnverifiedScanChunk {
                scanned_to: self.scanned_to_spec(),
                source: Box::new(error),
            }),
    {
        WalletError::UnverifiedScanChunk {
            scanned_to: self.scanned_to,
            source: Box::new(error),
        }
    }

    /// Takes in the chain's tree state at the highest committed block. One of another height
    /// leaves the chunk unverified.
    pub fn chain_state(&self, tree_state: TreeStateArtifact) -> (checked: Result<
        TreeStateArtifact,
        WalletError,
    >)
        ensures
            tree_state.height == self.scanned_to_spec() ==> checked == Ok::<
                TreeStateArtifact,
                WalletError,
            >(tree_state),
            tree_state.height != self.scanned_to_spec() ==> {
                &&& checked matches Err(error)
                &&& error matches WalletError::UnverifiedScanChunk { scanned_to, source }
                &&& scanned_to == self.scanned_to_spec()
                &&& source.malformed_as(
                    crate::boundary_error::ChainSourceErrorKind::TreeStateAnchorHeightMismatch {
                        requested_height: self.scanned_to_spec(),
                        returned_height: tree_state.height,
                    },
                )
            },
    {
        match check_tree_state(tree_state, self.scanned_to) {
            Ok(tree_state) => Ok(tree_state),
            Err(error) => Err(self.unverified(error)),
        }
    }

    /// Compares the wallet's note-commitment tree roots with the chain's at the highest
    /// committed block. A mismatch proves a corrupt tree and ends the attempt; empty trees skip
    /// the comparison.
    pub fn verify_tree_roots(self, wallet_roots: &TreeRoots, chain_roots: &TreeRoots) -> (verified:
        Result<VerifiedScan, WalletError>)
        ensures
            ({
                let comparison = RootComparison::of_spec(*wallet_roots, *chain_roots);
                &&& comparison.diverges() ==> verified == Err::<VerifiedScan, WalletError>(
                    WalletError::TreeRootsDiverged { height: self.scanned_to_spec() },
                )
                &&& !comparison.diverges() ==> {
                    &&& verified matches Ok(v)
                    &&& v.committed_spec() == self
                    &&& v.comparison_spec() == comparison
                }
            }),
    {
        let comparison = RootComparison::of(wallet_roots, chain_roots);
        if comparison.has_divergence() {
            return Err(WalletError::TreeRootsDiverged { height: self.scanned_to });
        }
        Ok(VerifiedScan { committed: self, comparison })
    }
}

impl VerifiedScan {
    /// The committed chunk.
    pub closed spec fn committed_spec(&self) -> CommittedScan {
        self.committed
    }

    /// How the roots compared.
    pub closed spec fn comparison_spec(&self) -> RootComparison {
        self.comparison
    }

    #[verifier::type_invariant]
    closed spec fn agrees_with_the_chain(self) -> bool {
        !self.comparison.diverges()
    }

    /// How the roots compared.
    pub fn comparison(&self) -> (comparison: RootComparison)
        ensures
            comparison == self.comparison_spec(),
            !comparison.diverges(),
    {
        proof {
            use_type_invariant(self);
        }
        self.comparison
    }

    /// The committed heights, `(first, last)`.
    pub fn committed_range(&self) -> (range: (BlockHeight, BlockHeight))
        ensures
            range.0 == self.committed_spec().running_spec().scanned_from_spec(),
            range.1 == self.committed_spec().scanned_to_spec(),
    {
        (self.committed.running.scanned_from, self.committed.scanned_to)
    }

    /// Takes in the wallet transactions mined in the chunk.
    pub fn confirm(self, newly_confirmed: Vec<(TxId, BlockHeight)>) -> (confirmed: ConfirmedScan)
        ensures
            confirmed.verified_spec() == self,
            confirmed.newly_confirmed_spec() == newly_confirmed@,
    {
        ConfirmedScan { verified: self, newly_confirmed }
    }
}

/// The identifiers of mined transactions.
pub open spec fn mined_tx_ids(newly_confirmed: Seq<(TxId, BlockHeight)>) -> Seq<TxId> {
    newly_confirmed.map_values(|mined: (TxId, BlockHeight)| mined.0)
}

/// The event of a mined transaction.
pub open spec fn confirmed_event(mined: (TxId, BlockHeight)) -> WalletEvent {
    WalletEvent::TransactionConfirmed { tx_id: mined.0, confirmed_at_height: mined.1 }
}

impl ConfirmedScan {
    /// The verified chunk.
    pub closed spec fn verified_spec(&self) -> VerifiedScan {
        self.verified
    }

    /// The mined transactions.
    pub closed spec fn newly_confirmed_spec(&self) -> Seq<(TxId, BlockHeight)> {
        self.newly_confirmed@
    }

    /// Broadcasts whose inputs are no longer pending: those of the mined transactions. `None`
    /// when there is nothing to retire.
    pub fn broadcasts_to_retire(&self) -> (retired: Option<Vec<TxId>>)
        ensures
            retired is None <==> self.newly_confirmed_spec().len() == 0,
            retired matches Some(tx_ids) ==> tx_ids@ == mined_tx_ids(self.newly_confirmed_spec()),
    {
        if self.newly_confirmed.len() == 0 {
            return None;
        }
        let mut tx_ids: Vec<TxId> = Vec::new();
        let mut index: usize = 0;
        while index < self.newly_confirmed.len()
            invariant
                index <= self.newly_confirmed@.len(),
                tx_ids@.len() == index,
                forall|i: int|
                    0 <= i < index ==> #[trigger] tx_ids@[i] == self.newly_confirmed@[i].0,
            decreases self.newly_confirmed@.len() - index,
        {
            tx_ids.push(self.newly_confirmed[index].0);
            index += 1;
        }
        assert(tx_ids@ =~= mined_tx_ids(self.newly_confirmed@));
        Some(tx_ids)
    }

    /// Announces the confirmations, one event per mined transaction, in order.
    pub fn announce(self) -> (announced: (Vec<WalletEvent>, ReceivingScan))
        ensures
            announced.0@ == self.newly_confirmed_spec().map_values(
                |mined: (TxId, BlockHeight)| confirmed_event(mined),
            ),
            announced.1.verified_spec() == self.verified_spec(),
    {
        let mut events: Vec<WalletEvent> = Vec::new();
        let mut index: usize = 0;
        while index < self.newly_confirmed.len()
            invariant
                index <= self.newly_confirmed@.len(),
                events@.len() == index,
                forall|i: int|
                    0 <= i < index ==> #[trigger] events@[i] == confirmed_event(
                        self.newly_confirmed@[i],
                    ),
            decreases self.newly_confirmed@.len() - index,
        {
            let (tx_id, confirmed_at_height) = self.newly_confirmed[index];
            events.push(WalletEvent::TransactionConfirmed { tx_id, confirmed_at_height });
            index += 1;
        }
        assert(events@ =~= self.newly_confirmed@.map_values(
            |mined: (TxId, BlockHeight)| confirmed_event(mined),
        ));
        (events, ReceivingScan { verified: self.verified })
    }
}

/// The time of a received note's block: the stored one, else the fetched header's, else zero.
pub open spec fn receive_timestamp(
    note: ReceivedShieldedNoteRow,
    timestamps: Map<u32, u64>,
) -> u64 {
    if note.block_timestamp_ms != 0 {
        note.block_timestamp_ms
    } else if timestamps.dom().contains(note.mined_height.0) {
        timestamps[note.mined_height.0]
    } else {
        0
    }
}

/// The event of a received note.
pub open spec fn receive_event(
    note: ReceivedShieldedNoteRow,
    timestamps: Map<u32, u64>,
) -> WalletEvent {
    WalletEvent::ShieldedReceiveObserved {
        account_id: note.account_id,
        tx_id: note.tx_id,
        output_index: note.output_index,
        value_zat: note.value_zat,
        mined_height: note.mined_height,
        block_timestamp_ms: receive_timestamp(note, timestamps),
        pool: crate::domain::shielded_pool_of(note.protocol),
        is_change: note.is_change,
        spent_our_inputs: note.spent_our_inputs,
    }
}

impl ReceivingScan {
    /// The verified chunk.
    pub closed spec fn verified_spec(&self) -> VerifiedScan {
        self.verified
    }

    /// The committed heights, `(first, last)`.
    pub fn committed_range(&self) -> (range: (BlockHeight, BlockHeight))
        ensures
            range.0 == self.verified_spec().committed_spec().running_spec().scanned_from_spec(),
            range.1 == self.verified_spec().committed_spec().scanned_to_spec(),
    {
        self.verified.committed_range()
    }

    /// Ends the attempt: announces the notes received in the chunk, one event per note, then
    /// the progress.
    pub fn finish(self, received_notes: &Vec<ReceivedShieldedNoteRow>, now_ms: u64) -> (end: (
        Vec<WalletEvent>,
        SyncOutcome,
    ))
        ensures
            ({
                let committed = self.verified_spec().committed_spec();
                let running = committed.running_spec();
                &&& end.0@ == received_notes@.map_values(
                    |note: ReceivedShieldedNoteRow|
                        receive_event(note, running.timestamps_spec()),
                ).push(
                    WalletEvent::ScanProgress {
                        scanned_height: committed.scanned_to_spec(),
                        target_height: running.epoch_spec().visible_tip,
                    },
                )
                &&& end.1 == (SyncOutcome {
                    scanned_from_height: running.scanned_from_spec(),
                    scanned_to_height: committed.scanned_to_spec(),
                    block_count: running.block_count_spec(),
                    completed_at_ms: now_ms,
                })
            }),
    {
        let ghost timestamps = self.verified.committed.running.timestamps_by_height@;
        let mut events: Vec<WalletEvent> = Vec::new();
        let mut index: usize = 0;
        while index < received_notes.len()
            invariant
                index <= received_notes@.len(),
                timestamps == self.verified.committed.running.timestamps_by_height@,
                events@.len() == index,
                forall|i: int|
                    0 <= i < index ==> #[trigger] events@[i] == receive_event(
                        received_notes@[i],
                        timestamps,
                    ),
            decreases received_notes@.len() - index,
        {
            let note = received_notes[index];
            let block_timestamp_ms: u64 = if note.block_timestamp_ms != 0 {
                note.block_timestamp_ms
            } else {
                match self.verified.committed.running.timestamps_by_height.get(
                    &note.mined_height.0,
                ) {
                    Some(timestamp_ms) => *timestamp_ms,
                    None => 0,
                }
            };
            events.push(
                WalletEvent::ShieldedReceiveObserved {
                    account_id: note.account_id,
                    tx_id: note.tx_id,
                    output_index: note.output_index,
                    value_zat: note.value_zat,
                    mined_height: note.mined_height,
                    block_timestamp_ms,
                    pool: shielded_pool_for(note.protocol),
                    is_change: note.is_change,
                    spent_our_inputs: note.spent_our_inputs,
                },
            );
            index += 1;
        }
        assert(events@ =~= received_notes@.map_values(
            |note: ReceivedShieldedNoteRow| receive_event(note, timestamps),
        ));
        let scanned_to = self.verified.committed.scanned_to;
        events.push(
            WalletEvent::ScanProgress {
                scanned_height: scanned_to,
                target_height: self.verified.committed.running.epoch.visible_tip,
            },
        );
        (
            events,
            SyncOutcome {
                scanned_from_height: self.verified.committed.running.scanned_from,
                scanned_to_height: scanned_to,
                block_count: self.verified.committed.running.block_count,
                completed_at_ms: now_ms,
            },
        )
    }
}

/// The event of a rewind of the wallet's derived state to `rewind_to`.
pub fn rewind_event(rewind_to: BlockHeight) -> (event: WalletEvent)
    ensures
        event == (WalletEvent::ReorgDetected {
            rolled_back_to_height: rewind_to,
            new_tip_height: rewind_to,
        }),
{
    WalletEvent::ReorgDetected { rolled_back_to_height: rewind_to, new_tip_height: rewind_to }
}

} // verus!
