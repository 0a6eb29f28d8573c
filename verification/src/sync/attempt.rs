//! One scan attempt, from the pinned epoch to the published outcome.
//!
//! Each stage of an attempt is a type of its own, and each takes in what storage or the chain
//! source answered at that stage. A stage can only be reached through the one before it, so a
//! chunk's confirmations and receives are only ever announced after its commitment-tree roots
//! were compared with the chain.

use crate::domain::{shielded_pool_for, BlockHeight, Network, ProtocolPool, ShieldedPool};
use crate::error::WalletError;
use crate::event::WalletEvent;
use crate::sync::chunk::PlannedScan;
use crate::sync::frontier::{ChainTipRecord, SyncOutcome};
use crate::sync::scan::{
    next_scan_range, subtree_roots_completed_at_or_below, validate_subtree_root_page, ScanRange,
    SubtreeRoot, SUBTREE_ROOT_PAGE,
};
use vstd::prelude::*;

verus! {

/// Coherent view of the chain that one attempt reads under.
#[derive(Clone, Copy, Debug, PartialEq, Eq, Structural)]
pub struct ChainEpoch {
    /// The source's identifier of the epoch.
    pub id: u64,
    /// Highest block the source shows.
    pub visible_tip: BlockHeight,
    /// Highest block the source holds settled.
    pub settled_tip: BlockHeight,
}

/// Fails closed when a boundary serves another network than the wallet.
pub fn require_same_network(wallet_network: Network, other: Network) -> (checked: Result<
    (),
    WalletError,
>)
    ensures
        wallet_network == other ==> checked is Ok,
        wallet_network != other ==> checked == Err::<(), WalletError>(
            WalletError::NetworkMismatch { storage: wallet_network, requested: other },
        ),
{
    if other != wallet_network {
        return Err(WalletError::NetworkMismatch { storage: wallet_network, requested: other });
    }
    Ok(())
}

/// An attempt that has pinned its epoch.
#[derive(Debug)]
pub struct PinnedScan {
    epoch: ChainEpoch,
    record: ChainTipRecord,
}

/// What planning yields.
#[derive(Debug)]
pub enum ScanPlan {
    /// A chunk to scan.
    Scan(PlannedScan),
    /// Nothing is queued at or below the tip; the fully scanned height decides what follows.
    AskFullyScanned(UnplannedScan),
}

/// An attempt that found nothing queued.
#[derive(Debug)]
pub struct UnplannedScan {
    epoch: ChainEpoch,
}

/// What the fully scanned height yields.
#[derive(Debug)]
pub enum ScanGap {
    /// The wallet is scanned up to the visible tip.
    CaughtUp(CaughtUpScan),
    /// The wallet is behind with nothing queued: subtree roots are filled in first.
    Backfill(SubtreeBackfill),
}

/// An attempt with nothing left to scan.
#[derive(Debug)]
pub struct CaughtUpScan {
    epoch: ChainEpoch,
}

/// An attempt that has filled in the subtree roots.
#[derive(Debug)]
pub struct BackfilledScan {
    epoch: ChainEpoch,
}

impl PinnedScan {
    /// The pinned epoch.
    pub closed spec fn epoch_spec(&self) -> ChainEpoch {
        self.epoch
    }

    /// Whether the attempt finds the chain tip recorded already.
    pub closed spec fn record_spec(&self) -> ChainTipRecord {
        self.record
    }

    /// Begins an attempt under `epoch`.
    pub fn pin(epoch: ChainEpoch, record: ChainTipRecord) -> (pinned: PinnedScan)
        ensures
            pinned.epoch_spec() == epoch,
            pinned.record_spec() == record,
    {
        PinnedScan { epoch, record }
    }

    /// The tips to record before planning, `(visible, settled)`: those of the epoch, unless the
    /// record is current.
    pub fn tips_to_record(&self) -> (tips: Option<(BlockHeight, BlockHeight)>)
        ensures
            tips == match self.record_spec() {
                ChainTipRecord::Stale => Some(
                    (self.epoch_spec().visible_tip, self.epoch_spec().settled_tip),
                ),
                ChainTipRecord::Current => None,
            },
    {
        match self.record {
            ChainTipRecord::Stale => Some((self.epoch.visible_tip, self.epoch.settled_tip)),
            ChainTipRecord::Current => None,
        }
    }

    /// Plans the attempt on the ranges that storage suggests.
    pub fn plan(self, ranges: &Vec<ScanRange>) -> (plan: ScanPlan)
        ensures
            match crate::sync::scan::first_chunk(ranges@, self.epoch_spec().visible_tip) {
                Some(range) => plan matches ScanPlan::Scan(planned) && planned.epoch_spec()
                    == self.epoch_spec() && planned.range_spec() == range,
                None => plan matches ScanPlan::AskFullyScanned(unplanned)
                    && unplanned.epoch_spec() == self.epoch_spec(),
            },
    {
        let epoch = self.epoch;
        proof {
            crate::sync::scan::a_planned_range_is_bounded(ranges@, epoch.visible_tip);
        }
        match next_scan_range(ranges, epoch.visible_tip) {
            Some(range) => ScanPlan::Scan(PlannedScan::of(epoch, range)),
            None => ScanPlan::AskFullyScanned(UnplannedScan { epoch }),
        }
    }
}

/// Whether a wallet with nothing queued is behind the visible tip.
pub open spec fn is_behind(fully_scanned: Option<BlockHeight>, visible_tip: BlockHeight) -> bool {
    fully_scanned matches Some(height) ==> visible_tip.0 > height.0
}

impl UnplannedScan {
    /// The pinned epoch.
    pub closed spec fn epoch_spec(&self) -> ChainEpoch {
        self.epoch
    }

    /// Decides what follows from the fully scanned height.
    pub fn consider(self, fully_scanned: Option<BlockHeight>) -> (gap: ScanGap)
        ensures
            is_behind(fully_scanned, self.epoch_spec().visible_tip) ==> {
                &&& gap matches ScanGap::Backfill(backfill)
                &&& backfill.epoch_spec() == self.epoch_spec()
                &&& backfill.floor_spec() == fully_scanned
                &&& backfill.pool_spec() == BackfillPool::Sapling
                &&& backfill.next_index_spec() == 0
            },
            !is_behind(fully_scanned, self.epoch_spec().visible_tip) ==> {
                &&& gap matches ScanGap::CaughtUp(caught_up)
                &&& caught_up.epoch_spec() == self.epoch_spec()
            },
    {
        let behind = match fully_scanned {
            Some(height) => self.epoch.visible_tip.0 > height.0,
            None => true,
        };
        if behind {
            ScanGap::Backfill(
                SubtreeBackfill {
                    epoch: self.epoch,
                    scan_floor: fully_scanned,
                    pool: BackfillPool::Sapling,
                    next_index: 0,
                },
            )
        } else {
            ScanGap::CaughtUp(CaughtUpScan { epoch: self.epoch })
        }
    }
}

impl CaughtUpScan {
    /// The pinned epoch.
    pub closed spec fn epoch_spec(&self) -> ChainEpoch {
        self.epoch
    }

    /// Ends the attempt: the wallet stands at the visible tip.
    pub fn finish(self, now_ms: u64) -> (end: (WalletEvent, SyncOutcome))
        ensures
            end.0 == (WalletEvent::ScanProgress {
                scanned_height: self.epoch_spec().visible_tip,
                target_height: self.epoch_spec().visible_tip,
            }),
            end.1 == (SyncOutcome {
                scanned_from_height: self.epoch_spec().visible_tip,
                scanned_to_height: self.epoch_spec().visible_tip,
                block_count: 0,
                completed_at_ms: now_ms,
            }),
    {
        let tip = self.epoch.visible_tip;
        (
            WalletEvent::ScanProgress { scanned_height: tip, target_height: tip },
            SyncOutcome {
                scanned_from_height: tip,
                scanned_to_height: tip,
                block_count: 0,
                completed_at_ms: now_ms,
            },
        )
    }
}

/// Pool a backfill stands at, in the order the pools are filled in.
#[derive(Clone, Copy, Debug, PartialEq, Eq, Structural)]
pub enum BackfillPool {
    /// Sapling, the first.
    Sapling,
    /// Orchard.
    Orchard,
    /// Ironwood, the last.
    Ironwood,
}

impl BackfillPool {
    /// The protocol's name of the pool.
    pub open spec fn protocol_spec(self) -> ProtocolPool {
        match self {
            BackfillPool::Sapling => ProtocolPool::Sapling,
            BackfillPool::Orchard => ProtocolPool::Orchard,
            BackfillPool::Ironwood => ProtocolPool::Ironwood,
        }
    }

    /// The pool filled in after this one.
    pub open spec fn after(self) -> Option<BackfillPool> {
        match self {
            BackfillPool::Sapling => Some(BackfillPool::Orchard),
            BackfillPool::Orchard => Some(BackfillPool::Ironwood),
            BackfillPool::Ironwood => None,
        }
    }

    /// The protocol's name of the pool.
    pub fn protocol(self) -> (protocol: ProtocolPool)
        ensures
            protocol == self.protocol_spec(),
    {
        match self {
            BackfillPool::Sapling => ProtocolPool::Sapling,
            BackfillPool::Orchard => ProtocolPool::Orchard,
            BackfillPool::Ironwood => ProtocolPool::Ironwood,
        }
    }

    fn next(self) -> (pool: Option<BackfillPool>)
        ensures
            pool == self.after(),
    {
        match self {
            BackfillPool::Sapling => Some(BackfillPool::Orchard),
            BackfillPool::Orchard => Some(BackfillPool::Ironwood),
            BackfillPool::Ironwood => None,
        }
    }
}

/// Fetches and records every new subtree root for all shielded pools, page by page.
///
/// Re-recording a root the wallet already holds changes nothing, so each backfill runs from
/// index 0 and leaves a pool at its first short or cut page.
#[derive(Debug)]
pub struct SubtreeBackfill {
    epoch: ChainEpoch,
    scan_floor: Option<BlockHeight>,
    pool: BackfillPool,
    next_index: u32,
}

/// A page of subtree roots to fetch.
#[derive(Clone, Copy, Debug, PartialEq, Eq, Structural)]
pub struct SubtreePageRequest {
    /// Pool, as the chain source names it.
    pub pool: ShieldedPool,
    /// Index of the first root.
    pub start_index: u32,
    /// Most roots to return.
    pub max_count: u32,
}

/// Subtree roots to record.
#[derive(Debug)]
pub struct SubtreeRootPut {
    /// Pool, as the protocol names it.
    pub protocol: ProtocolPool,
    /// Index of the first root.
    pub start_index: u64,
    /// The roots, with the heights that completed them.
    pub entries: Vec<(BlockHeight, [u8; 32])>,
}

/// What follows a page.
#[derive(Debug)]
pub enum BackfillNext {
    /// Another page.
    Page(SubtreeBackfill),
    /// Every pool is filled in.
    Done(BackfilledScan),
}

/// The entries that record `roots`.
pub open spec fn root_entries(roots: Seq<SubtreeRoot>) -> Seq<(BlockHeight, [u8; 32])> {
    roots.map_values(|root: SubtreeRoot| (root.completing_block_height, root.root_bytes))
}

impl SubtreeBackfill {
    /// The pinned epoch.
    pub closed spec fn epoch_spec(&self) -> ChainEpoch {
        self.epoch
    }

    /// The fully scanned height.
    pub closed spec fn floor_spec(&self) -> Option<BlockHeight> {
        self.scan_floor
    }

    /// The pool the backfill stands at.
    pub closed spec fn pool_spec(&self) -> BackfillPool {
        self.pool
    }

    /// Index of the next root to fetch.
    pub closed spec fn next_index_spec(&self) -> u32 {
        self.next_index
    }

    /// The page to fetch next.
    pub open spec fn page_request_spec(&self) -> SubtreePageRequest {
        SubtreePageRequest {
            pool: crate::domain::shielded_pool_of(self.pool_spec().protocol_spec()),
            start_index: self.next_index_spec(),
            max_count: SUBTREE_ROOT_PAGE,
        }
    }

    /// The page to fetch next.
    pub fn page_request(&self) -> (request: SubtreePageRequest)
        ensures
            request == self.page_request_spec(),
    {
        SubtreePageRequest {
            pool: shielded_pool_for(self.pool.protocol()),
            start_index: self.next_index,
            max_count: SUBTREE_ROOT_PAGE,
        }
    }

    /// Whether a page ends its pool: it is short, or a root in it completes above the scanned
    /// frontier.
    pub open spec fn ends_pool(&self, roots: Seq<SubtreeRoot>) -> bool {
        roots.len() < SUBTREE_ROOT_PAGE || crate::sync::scan::installable(
            roots,
            self.floor_spec(),
        ).len() < roots.len()
    }

    /// Takes in a page. A page that does not answer its request aborts the attempt; the roots
    /// at or below the scanned frontier are recorded, and the backfill goes on after them or
    /// with the next pool.
    pub fn take_page(self, roots: Vec<SubtreeRoot>) -> (taken: Result<
        (Option<SubtreeRootPut>, BackfillNext),
        WalletError,
    >)
        ensures
            taken is Ok <==> crate::sync::scan::page_answers(
                self.next_index_spec(),
                SUBTREE_ROOT_PAGE,
                roots@,
            ),
            taken matches Err(error) ==> crate::sync::scan::is_page_error(
                error,
                self.page_request_spec().pool,
                self.next_index_spec(),
                SUBTREE_ROOT_PAGE,
                roots@,
            ),
            taken matches Ok((put, next)) ==> {
                let kept = crate::sync::scan::installable(roots@, self.floor_spec());
                &&& put is Some <==> kept.len() > 0
                &&& put matches Some(p) ==> p.protocol == self.pool_spec().protocol_spec()
                    && p.start_index == kept[0].index && p.entries@ == root_entries(kept)
                &&& if !self.ends_pool(roots@) {
                    &&& next matches BackfillNext::Page(backfill)
                    &&& backfill.epoch_spec() == self.epoch_spec()
                    &&& backfill.floor_spec() == self.floor_spec()
                    &&& backfill.pool_spec() == self.pool_spec()
                    &&& backfill.next_index_spec() == crate::domain::lesser(
                        kept.last().index + 1,
                        u32::MAX as int,
                    )
                } else {
                    match self.pool_spec().after() {
                        Some(pool) => {
                            &&& next matches BackfillNext::Page(backfill)
                            &&& backfill.epoch_spec() == self.epoch_spec()
                            &&& backfill.floor_spec() == self.floor_spec()
                            &&& backfill.pool_spec() == pool
                            &&& backfill.next_index_spec() == 0
                        },
                        None => {
                            &&& next matches BackfillNext::Done(done)
                            &&& done.epoch_spec() == self.epoch_spec()
                        },
                    }
                }
            },
    {
        let protocol = self.pool.protocol();
        let pool = shielded_pool_for(protocol);
        match validate_subtree_root_page(pool, self.next_index, SUBTREE_ROOT_PAGE, &roots) {
            Ok(()) => {},
            Err(error) => return Err(error),
        }
        let page_len: usize = roots.len();
        proof {
            if self.scan_floor is Some {
                crate::sync::scan::deferred_roots_complete_above_the_floor(
                    roots@,
                    self.scan_floor->Some_0,
                );
            }
        }
        let kept = subtree_roots_completed_at_or_below(roots, self.scan_floor);
        let is_floor_reached = kept.len() < page_len;
        let mut next_index: u32 = self.next_index;
        let put = if kept.len() > 0 {
            let start_index: u64 = kept[0].index as u64;
            let last_index: u32 = kept[kept.len() - 1].index;
            next_index = last_index.saturating_add(1);
            let mut entries: Vec<(BlockHeight, [u8; 32])> = Vec::new();
            let mut taken: usize = 0;
            while taken < kept.len()
                invariant
                    taken <= kept@.len(),
                    entries@ == root_entries(kept@.take(taken as int)),
                decreases kept@.len() - taken,
            {
                let root = kept[taken];
                entries.push((root.completing_block_height, root.root_bytes));
                taken += 1;
                assert(kept@.take(taken as int) =~= kept@.take(taken - 1).push(kept@[taken - 1]));
                assert(root_entries(kept@.take(taken as int)) =~= root_entries(
                    kept@.take(taken - 1),
                ).push((root.completing_block_height, root.root_bytes)));
            }
            assert(kept@.take(kept@.len() as int) =~= kept@);
            Some(SubtreeRootPut { protocol, start_index, entries })
        } else {
            None
        };
        let ends_pool = is_floor_reached || page_len < SUBTREE_ROOT_PAGE as usize;
        let next = if !ends_pool {
            BackfillNext::Page(
                SubtreeBackfill {
                    epoch: self.epoch,
                    scan_floor: self.scan_floor,
                    pool: self.pool,
                    next_index,
                },
            )
        } else {
            match self.pool.next() {
                Some(pool) => BackfillNext::Page(
                    SubtreeBackfill {
                        epoch: self.epoch,
                        scan_floor: self.scan_floor,
                        pool,
                        next_index: 0,
                    },
                ),
                None => BackfillNext::Done(BackfilledScan { epoch: self.epoch }),
            }
        };
        Ok((put, next))
    }
}

/// What planning yields once the subtree roots are filled in.
#[derive(Debug)]
pub enum FinalPlan {
    /// A chunk to scan.
    Scan(PlannedScan),
    /// Nothing is left to scan.
    CaughtUp(CaughtUpScan),
}

impl BackfilledScan {
    /// The pinned epoch.
    pub closed spec fn epoch_spec(&self) -> ChainEpoch {
        self.epoch
    }

    /// Plans the attempt again on the ranges that storage now suggests.
    pub fn plan(self, ranges: &Vec<ScanRange>) -> (plan: FinalPlan)
        ensures
            match crate::sync::scan::first_chunk(ranges@, self.epoch_spec().visible_tip) {
                Some(range) => plan matches FinalPlan::Scan(planned) && planned.epoch_spec()
                    == self.epoch_spec() && planned.range_spec() == range,
                None => plan matches FinalPlan::CaughtUp(caught_up) && caught_up.epoch_spec()
                    == self.epoch_spec(),
            },
    {
        let epoch = self.epoch;
        proof {
            crate::sync::scan::a_planned_range_is_bounded(ranges@, epoch.visible_tip);
        }
        match next_scan_range(ranges, epoch.visible_tip) {
            Some(range) => FinalPlan::Scan(PlannedScan::of(epoch, range)),
            None => FinalPlan::CaughtUp(CaughtUpScan { epoch }),
        }
    }
}

} // verus!
