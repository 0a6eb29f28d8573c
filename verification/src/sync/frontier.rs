//! Scan progress as the sync driver judges it.

use crate::domain::BlockHeight;
use crate::status::WalletStatus;
use crate::sync::ladder::SyncRepair;
use vstd::prelude::*;

verus! {

/// Summary of one sync run.
#[derive(Clone, Copy, Debug, PartialEq, Eq, Structural)]
pub struct SyncOutcome {
    /// Height the wallet was scanned from.
    pub scanned_from_height: BlockHeight,
    /// Height the wallet finished scanning at.
    pub scanned_to_height: BlockHeight,
    /// Number of blocks scanned during this run.
    pub block_count: u64,
    /// Unix milliseconds when this run completed.
    pub completed_at_ms: u64,
}

/// Whether an attempt's committed blocks carry a comparison against the chain.
#[derive(Clone, Copy, Debug, PartialEq, Eq, Structural)]
pub enum CommittedChunk {
    /// The attempt committed a chunk and compared its commitment-tree roots against the chain
    /// first, or committed nothing at all.
    Checked,
    /// The attempt committed a chunk and the comparison never ran.
    Unchecked,
}

/// The wallet's persisted scan frontier at one point in time.
#[derive(Clone, Copy, Debug, PartialEq, Eq, Structural)]
pub enum ScanFrontier {
    /// Highest block height the wallet has committed.
    At(BlockHeight),
    /// The wallet has committed no blocks.
    Empty,
    /// The status read failed, so the driver cannot say where the frontier sits.
    Unknown,
}

impl ScanFrontier {
    /// Block the frontier reached, `None` when the driver could not read it. A wallet that has
    /// committed nothing sits below every block.
    pub open spec fn reached(self) -> Option<u32> {
        match self {
            ScanFrontier::At(height) => Some(height.0),
            ScanFrontier::Empty => Some(0),
            ScanFrontier::Unknown => None,
        }
    }

    /// The committed height of a frontier, where there is one.
    pub open spec fn height_spec(self) -> Option<BlockHeight> {
        match self {
            ScanFrontier::At(height) => Some(height),
            ScanFrontier::Empty | ScanFrontier::Unknown => None,
        }
    }

    /// Highest committed height, where the wallet has committed any and it could be read.
    pub fn height(self) -> (height: Option<BlockHeight>)
        ensures
            height == self.height_spec(),
    {
        match self {
            ScanFrontier::At(height) => Some(height),
            ScanFrontier::Empty | ScanFrontier::Unknown => None,
        }
    }
}

/// The frontier that a status read shows.
pub open spec fn frontier_of(wallet_status: Option<WalletStatus>) -> ScanFrontier {
    match wallet_status {
        None => ScanFrontier::Unknown,
        Some(status) => match status.scanned_height {
            None => ScanFrontier::Empty,
            Some(height) => ScanFrontier::At(height),
        },
    }
}

/// Reads the wallet's persisted scan frontier out of a wallet-status read.
pub fn scan_frontier(wallet_status: Option<&WalletStatus>) -> (frontier: ScanFrontier)
    ensures
        frontier == match wallet_status {
            Some(status) => frontier_of(Some(*status)),
            None => frontier_of(None),
        },
{
    match wallet_status {
        None => ScanFrontier::Unknown,
        Some(status) => match status.scanned_height {
            None => ScanFrontier::Empty,
            Some(height) => ScanFrontier::At(height),
        },
    }
}

/// Blocks from one frontier to a later one; zero where either is unknown.
pub open spec fn blocks_between(before: ScanFrontier, after: ScanFrontier) -> u32 {
    match (before.reached(), after.reached()) {
        (Some(low), Some(high)) => if high >= low {
            (high - low) as u32
        } else {
            0
        },
        _ => 0,
    }
}

/// Blocks the wallet's persisted scan frontier advanced between two reads.
///
/// A frontier the driver could not read yields zero: it is not progress the driver may claim.
pub fn height_delta(before: ScanFrontier, after: ScanFrontier) -> (blocks: u32)
    ensures
        blocks == blocks_between(before, after),
{
    let low: u32 = match before {
        ScanFrontier::At(height) => height.0,
        ScanFrontier::Empty => 0,
        ScanFrontier::Unknown => return 0,
    };
    let high: u32 = match after {
        ScanFrontier::At(height) => height.0,
        ScanFrontier::Empty => 0,
        ScanFrontier::Unknown => return 0,
    };
    if high >= low {
        high - low
    } else {
        0
    }
}

/// Whether a faulted iteration counts as slow progress instead of a ladder strike.
///
/// Only environment faults are excused by forward progress. A state fault after a committed
/// chunk still proves divergence; skipping its repair would scan on top of the corrupt state.
pub open spec fn slow_progress(repair: SyncRepair, blocks_advanced: u32) -> bool {
    repair is Retry && blocks_advanced > 0
}

/// Whether a faulted iteration counts as slow progress instead of a ladder strike.
pub fn is_slow_progress(repair: SyncRepair, blocks_advanced: u32) -> (slow: bool)
    ensures
        slow == slow_progress(repair, blocks_advanced),
{
    match repair {
        SyncRepair::Retry => blocks_advanced > 0,
        _ => false,
    }
}

/// Whether this wakeup has already recorded the chain tip its scan queue is planned against.
#[derive(Clone, Copy, Debug, PartialEq, Eq, Structural)]
pub enum ChainTipRecord {
    /// An iteration committed blocks, which proves the record landed ahead of them; the next
    /// iteration scans what the queue holds.
    Current,
    /// Nothing left below the record, nothing committed yet this wakeup, or a repair trimmed
    /// the queue to the rewound frontier; the next iteration records the tip first.
    Stale,
}

/// The record after a completed iteration.
pub open spec fn tip_record_after_scan(outcome: SyncOutcome) -> ChainTipRecord {
    if outcome.block_count > 0 {
        ChainTipRecord::Current
    } else {
        ChainTipRecord::Stale
    }
}

/// Whether a completed iteration leaves this wakeup's chain-tip record standing.
///
/// A chunk of blocks leaves the rest of the queue below the same record. A drained queue leaves
/// nothing below it, so the next iteration records again.
pub fn chain_tip_after_scan(outcome: SyncOutcome) -> (record: ChainTipRecord)
    ensures
        record == tip_record_after_scan(outcome),
{
    if outcome.block_count > 0 {
        ChainTipRecord::Current
    } else {
        ChainTipRecord::Stale
    }
}

/// The record after a faulted iteration.
pub open spec fn tip_record_after_fault(
    recorded: ChainTipRecord,
    blocks_advanced: u32,
) -> ChainTipRecord {
    if blocks_advanced > 0 {
        ChainTipRecord::Current
    } else {
        recorded
    }
}

/// Whether a faulted iteration leaves this wakeup's chain-tip record standing.
///
/// Committed blocks prove the record landed ahead of them, and nothing but a repair removes
/// queued ranges.
pub fn chain_tip_after_fault(recorded: ChainTipRecord, blocks_advanced: u32) -> (record:
    ChainTipRecord)
    ensures
        record == tip_record_after_fault(recorded, blocks_advanced),
{
    if blocks_advanced > 0 {
        ChainTipRecord::Current
    } else {
        recorded
    }
}

/// Whether another iteration is owed after a completed one.
pub open spec fn more_to_sync(outcome: SyncOutcome, recorded_tip: bool) -> bool {
    outcome.block_count > 0 || !recorded_tip
}

/// Whether the driver should run another sync iteration in this wakeup.
///
/// A run that scanned a chunk leaves more scan-queue work. A run that scanned none has drained
/// the queue, which only means caught up when that same run recorded the tip the queue was
/// planned against.
pub fn should_continue_syncing(outcome: SyncOutcome, recorded_tip: bool) -> (more: bool)
    ensures
        more == more_to_sync(outcome, recorded_tip),
{
    outcome.block_count > 0 || !recorded_tip
}

/// An attempt whose frontier could not be read on either side is never credited with progress,
/// so its fault always strikes the ladder.
pub proof fn an_unread_frontier_excuses_nothing(
    before: ScanFrontier,
    after: ScanFrontier,
    repair: SyncRepair,
)
    requires
        before is Unknown || after is Unknown,
    ensures
        blocks_between(before, after) == 0,
        !slow_progress(repair, blocks_between(before, after)),
{
}

} // verus!
