//! Validation and planning of one scan step.

use crate::boundary_error::{ChainSourceError, ChainSourceErrorKind};
use crate::domain::{BlockHeight, ShieldedPool};
use crate::error::WalletError;
use crate::text::decimal;
use vstd::prelude::*;

verus! {

/// Maximum compact blocks scanned in one sync attempt. A larger suggested range is scanned
/// across successive attempts.
pub const MAX_BLOCKS_PER_SYNC: u32 = 1_000;

/// Subtree-root page size for the per-cycle backfill.
pub const SUBTREE_ROOT_PAGE: u32 = 128;

/// Source-neutral compact block.
#[derive(Debug)]
pub struct CompactBlockArtifact {
    /// Height of the block.
    pub height: BlockHeight,
    /// Header time, in seconds.
    pub block_time_seconds: u32,
    /// The block's encoded contents.
    pub body: Vec<u8>,
}

/// Source-neutral note-commitment tree state after a block.
#[derive(Debug)]
pub struct TreeStateArtifact {
    /// Height of the block.
    pub height: BlockHeight,
    /// The encoded tree state.
    pub body: Vec<u8>,
}

/// Root of a completed subtree.
#[derive(Clone, Copy, Debug)]
pub struct SubtreeRoot {
    /// Index of the subtree.
    pub index: u32,
    /// The root.
    pub root_bytes: [u8; 32],
    /// Height of the block that completed the subtree.
    pub completing_block_height: BlockHeight,
}

/// Why a range is suggested for scanning.
#[derive(Clone, Copy, Debug, PartialEq, Eq, Structural)]
pub enum ScanPriority {
    /// Not to be scanned.
    Ignored,
    /// Already scanned.
    Scanned,
    /// Before the wallet's view of the chain.
    Historic,
    /// Next to a range that is being scanned.
    OpenAdjacent,
    /// Holds a note whose witness is incomplete.
    FoundNote,
    /// At the chain tip.
    ChainTip,
    /// To be checked for a reorg.
    Verify,
}

/// The stable text of a priority.
pub open spec fn priority_text(priority: ScanPriority) -> Seq<char> {
    match priority {
        ScanPriority::Ignored => "ignored"@,
        ScanPriority::Scanned => "scanned"@,
        ScanPriority::Historic => "historic"@,
        ScanPriority::OpenAdjacent => "open_adjacent"@,
        ScanPriority::FoundNote => "found_note"@,
        ScanPriority::ChainTip => "chain_tip"@,
        ScanPriority::Verify => "verify"@,
    }
}

/// Stable `snake_case` label of a priority.
pub fn scan_priority_label(priority: ScanPriority) -> (label: &'static str)
    ensures
        label@ == priority_text(priority),
{
    match priority {
        ScanPriority::Ignored => "ignored",
        ScanPriority::Scanned => "scanned",
        ScanPriority::Historic => "historic",
        ScanPriority::OpenAdjacent => "open_adjacent",
        ScanPriority::FoundNote => "found_note",
        ScanPriority::ChainTip => "chain_tip",
        ScanPriority::Verify => "verify",
    }
}

/// A range of blocks that storage suggests to scan.
#[derive(Clone, Copy, Debug, PartialEq, Eq, Structural)]
pub struct ScanRange {
    /// First height of the range.
    pub start: u32,
    /// Height after the last one of the range.
    pub end: u32,
    /// Why the range is suggested.
    pub priority: ScanPriority,
}

/// A range of blocks to fetch and scan.
#[derive(Clone, Copy, Debug, PartialEq, Eq, Structural)]
pub struct PlannedRange {
    /// First height.
    pub start: BlockHeight,
    /// Last height.
    pub end: BlockHeight,
    /// Why the range was suggested.
    pub priority: ScanPriority,
}

/// Whether a suggested range holds a block that can be fetched at or below the tip. A range can
/// start above the tip when the wallet birthday is ahead of the chain.
pub open spec fn fetchable(range: ScanRange, tip: BlockHeight) -> bool {
    range.start < range.end && range.start <= tip.0
}

/// The part of a fetchable range to scan now: from its start to its end, the tip, or the largest
/// chunk, whichever is first.
pub open spec fn chunk_of(range: ScanRange, tip: BlockHeight) -> PlannedRange {
    PlannedRange {
        start: BlockHeight(range.start),
        end: BlockHeight(
            crate::domain::lesser(
                crate::domain::lesser(range.end - 1, tip.0 as int),
                range.start + MAX_BLOCKS_PER_SYNC - 1,
            ) as u32,
        ),
        priority: range.priority,
    }
}

/// The chunk of the first fetchable range, where there is one.
pub open spec fn first_chunk(ranges: Seq<ScanRange>, tip: BlockHeight) -> Option<PlannedRange>
    decreases ranges.len(),
{
    if ranges.len() == 0 {
        None
    } else if fetchable(ranges[0], tip) {
        Some(chunk_of(ranges[0], tip))
    } else {
        first_chunk(ranges.drop_first(), tip)
    }
}

/// Chooses the highest-priority suggested range that lies at or below the visible tip, cut to
/// one chunk. `None` when nothing at or below the visible tip remains to scan.
pub fn next_scan_range(ranges: &Vec<ScanRange>, visible_tip: BlockHeight) -> (planned: Option<
    PlannedRange,
>)
    ensures
        planned == first_chunk(ranges@, visible_tip),
{
    let tip: u32 = visible_tip.0;
    let mut index: usize = 0;
    assert(ranges@.skip(0) =~= ranges@);
    while index < ranges.len()
        invariant
            tip == visible_tip.0,
            index <= ranges@.len(),
            first_chunk(ranges@, visible_tip) == first_chunk(
                ranges@.skip(index as int),
                visible_tip,
            ),
        decreases ranges@.len() - index,
    {
        let range = ranges[index];
        assert(ranges@.skip(index as int)[0] == range);
        assert(ranges@.skip(index as int).drop_first() =~= ranges@.skip(index + 1));
        if range.start < range.end && range.start <= tip {
            let last: u32 = range.end - 1;
            let end_inclusive: u32 = if last <= tip {
                last
            } else {
                tip
            };
            let chunk_last: u32 = range.start.saturating_add(MAX_BLOCKS_PER_SYNC - 1);
            let chunk_end: u32 = if chunk_last <= end_inclusive {
                chunk_last
            } else {
                end_inclusive
            };
            return Some(
                PlannedRange {
                    start: BlockHeight(range.start),
                    end: BlockHeight(chunk_end),
                    priority: range.priority,
                },
            );
        }
        index += 1;
    }
    None
}

/// A planned range is never empty, never reaches above the visible tip, and never exceeds one
/// chunk.
pub proof fn a_planned_range_is_bounded(ranges: Seq<ScanRange>, tip: BlockHeight)
    ensures
        first_chunk(ranges, tip) matches Some(planned) ==> {
            &&& planned.start.0 <= planned.end.0 <= tip.0
            &&& planned.end.0 - planned.start.0 < MAX_BLOCKS_PER_SYNC
        },
    decreases ranges.len(),
{
    if ranges.len() > 0 && !fetchable(ranges[0], tip) {
        a_planned_range_is_bounded(ranges.drop_first(), tip);
    }
}

/// Number of blocks a range from `start` to `end` is owed; a reversed range is owed one.
pub open spec fn expected_block_count(start: BlockHeight, end: BlockHeight) -> int {
    if end.0 >= start.0 {
        end.0 - start.0 + 1
    } else {
        1
    }
}

/// The height of the next block after `received` blocks of the range, or `None` when no more is
/// owed.
pub open spec fn expected_block_height(
    start: BlockHeight,
    end: BlockHeight,
    received: int,
) -> Option<BlockHeight> {
    if received < expected_block_count(start, end) {
        Some(BlockHeight((start.0 + received) as u32))
    } else {
        None
    }
}

fn owed_block_count(start_height: BlockHeight, end_height: BlockHeight) -> (count: u64)
    ensures
        count == expected_block_count(start_height, end_height),
{
    if end_height.0 >= start_height.0 {
        (end_height.0 - start_height.0) as u64 + 1
    } else {
        1
    }
}

/// A stream-order failure.
pub open spec fn order_kind(
    expected_height: BlockHeight,
    actual_height: Option<BlockHeight>,
) -> ChainSourceErrorKind {
    ChainSourceErrorKind::CompactBlockStreamOrder { expected_height, actual_height }
}

fn order_error(expected_height: BlockHeight, actual_height: Option<BlockHeight>) -> (error:
    WalletError)
    ensures
        error.malformed_as(order_kind(expected_height, actual_height)),
{
    WalletError::ChainSource(
        ChainSourceError::malformed(
            ChainSourceErrorKind::CompactBlockStreamOrder { expected_height, actual_height },
        ),
    )
}

/// Checks the height of a compact block against its place in the range.
pub fn validate_compact_block_height(
    start_height: BlockHeight,
    end_height: BlockHeight,
    received_count: u64,
    actual_height: Option<BlockHeight>,
) -> (checked: Result<(), WalletError>)
    ensures
        checked is Ok <==> actual_height == expected_block_height(
            start_height,
            end_height,
            received_count as int,
        ),
        checked matches Err(error) ==> error.malformed_as(
            order_kind(
                match expected_block_height(start_height, end_height, received_count as int) {
                    Some(height) => height,
                    None => end_height,
                },
                actual_height,
            ),
        ),
{
    let expected_height = if received_count < owed_block_count(start_height, end_height) {
        Some(BlockHeight(start_height.0 + received_count as u32))
    } else {
        None
    };
    if actual_height != expected_height {
        let expected = match expected_height {
            Some(height) => height,
            None => end_height,
        };
        return Err(order_error(expected, actual_height));
    }
    Ok(())
}

/// Checks that the range was served in full.
pub fn validate_compact_block_count(
    start_height: BlockHeight,
    end_height: BlockHeight,
    received_count: u64,
) -> (checked: Result<(), WalletError>)
    ensures
        checked is Ok <==> received_count == expected_block_count(start_height, end_height),
        checked matches Err(error) ==> error.malformed_as(
            order_kind(
                if start_height.0 + crate::domain::lesser(received_count as int, u32::MAX as int)
                    <= u32::MAX {
                    BlockHeight(
                        (start_height.0 + crate::domain::lesser(
                            received_count as int,
                            u32::MAX as int,
                        )) as u32,
                    )
                } else {
                    end_height
                },
                None,
            ),
        ),
{
    if received_count != owed_block_count(start_height, end_height) {
        let missing_offset: u32 = if received_count <= u32::MAX as u64 {
            received_count as u32
        } else {
            u32::MAX
        };
        let expected_height = match start_height.0.checked_add(missing_offset) {
            Some(height) => BlockHeight(height),
            None => end_height,
        };
        return Err(order_error(expected_height, None));
    }
    Ok(())
}

/// The blocks of one range as they come in.
#[derive(Debug)]
pub struct CompactBlockIntake {
    start_height: BlockHeight,
    end_height: BlockHeight,
    blocks: Vec<CompactBlockArtifact>,
}

/// `blocks` are the blocks from `start` on, one per height.
pub open spec fn consecutive_from(start: BlockHeight, blocks: Seq<CompactBlockArtifact>) -> bool {
    forall|i: int| 0 <= i < blocks.len() ==> #[trigger] blocks[i].height.0 == start.0 + i
}

impl CompactBlockIntake {
    /// First height of the range.
    pub closed spec fn start_spec(&self) -> BlockHeight {
        self.start_height
    }

    /// Last height of the range.
    pub closed spec fn end_spec(&self) -> BlockHeight {
        self.end_height
    }

    /// The blocks received so far.
    pub closed spec fn received(&self) -> Seq<CompactBlockArtifact> {
        self.blocks@
    }

    #[verifier::type_invariant]
    closed spec fn in_order(self) -> bool {
        &&& self.start_height.0 <= self.end_height.0
        &&& self.blocks@.len() <= self.end_height.0 - self.start_height.0 + 1
        &&& consecutive_from(self.start_height, self.blocks@)
    }

    /// Begins the intake of a range. A reversed range is refused.
    pub fn begin(start_height: BlockHeight, end_height: BlockHeight) -> (intake: Result<
        CompactBlockIntake,
        WalletError,
    >)
        ensures
            start_height.0 <= end_height.0 ==> {
                &&& intake matches Ok(i)
                &&& i.start_spec() == start_height
                &&& i.end_spec() == end_height
                &&& i.received() == Seq::<CompactBlockArtifact>::empty()
            },
            start_height.0 > end_height.0 ==> {
                &&& intake matches Err(error)
                &&& error.malformed_as(order_kind(start_height, Some(end_height)))
            },
    {
        if start_height.0 > end_height.0 {
            return Err(order_error(start_height, Some(end_height)));
        }
        Ok(CompactBlockIntake { start_height, end_height, blocks: Vec::new() })
    }

    /// First height of the range.
    pub fn start_height(&self) -> (height: BlockHeight)
        ensures
            height == self.start_spec(),
    {
        self.start_height
    }

    /// Takes in the next block of the stream: accepted exactly if it is the next one of the
    /// range.
    pub fn take(self, block: CompactBlockArtifact) -> (taken: Result<
        CompactBlockIntake,
        WalletError,
    >)
        ensures
            ({
                let expected = expected_block_height(
                    self.start_spec(),
                    self.end_spec(),
                    self.received().len() as int,
                );
                &&& expected == Some(block.height) ==> {
                    &&& taken matches Ok(i)
                    &&& i.start_spec() == self.start_spec()
                    &&& i.end_spec() == self.end_spec()
                    &&& i.received() == self.received().push(block)
                }
                &&& expected != Some(block.height) ==> {
                    &&& taken matches Err(error)
                    &&& error.malformed_as(
                        order_kind(
                            match expected {
                                Some(height) => height,
                                None => self.end_spec(),
                            },
                            Some(block.height),
                        ),
                    )
                }
            }),
    {
        proof {
            use_type_invariant(&self);
        }
        let received_count: u64 = self.blocks.len() as u64;
        match validate_compact_block_height(
            self.start_height,
            self.end_height,
            received_count,
            Some(block.height),
        ) {
            Ok(()) => {},
            Err(error) => return Err(error),
        }
        let start_height = self.start_height;
        let end_height = self.end_height;
        let mut blocks = self.blocks;
        blocks.push(block);
        Ok(CompactBlockIntake { start_height, end_height, blocks })
    }

    /// Ends the intake: accepted exactly if the range was served in full, in which case the
    /// blocks are those of the range, in order.
    pub fn finish(self) -> (blocks: Result<Vec<CompactBlockArtifact>, WalletError>)
        ensures
            blocks is Ok <==> self.received().len() == self.end_spec().0 - self.start_spec().0 + 1,
            blocks matches Ok(complete) ==> complete@ == self.received() && consecutive_from(
                self.start_spec(),
                complete@,
            ) && complete@.last().height == self.end_spec(),
            blocks matches Err(error) ==> error.malformed_as(
                order_kind(
                    BlockHeight((self.start_spec().0 + self.received().len()) as u32),
                    None,
                ),
            ),
    {
        proof {
            use_type_invariant(&self);
        }
        let received_count: u64 = self.blocks.len() as u64;
        match validate_compact_block_count(self.start_height, self.end_height, received_count) {
            Ok(()) => {
                assert(self.blocks@[self.blocks@.len() - 1].height.0 == self.end_height.0);
                Ok(self.blocks)
            },
            Err(error) => Err(error),
        }
    }
}

/// Checks that a tree state is the one of the requested height.
pub fn check_tree_state(tree_state: TreeStateArtifact, requested: BlockHeight) -> (checked: Result<
    TreeStateArtifact,
    WalletError,
>)
    ensures
        tree_state.height == requested ==> checked == Ok::<TreeStateArtifact, WalletError>(
            tree_state,
        ),
        tree_state.height != requested ==> {
            &&& checked matches Err(error)
            &&& error.malformed_as(
                ChainSourceErrorKind::TreeStateAnchorHeightMismatch {
                    requested_height: requested,
                    returned_height: tree_state.height,
                },
            )
        },
{
    if tree_state.height != requested {
        return Err(
            WalletError::ChainSource(
                ChainSourceError::malformed(
                    ChainSourceErrorKind::TreeStateAnchorHeightMismatch {
                        requested_height: requested,
                        returned_height: tree_state.height,
                    },
                ),
            ),
        );
    }
    Ok(tree_state)
}

/// Height of the tree state a scan from `at_height` is anchored on: the block before, or the
/// first block.
pub open spec fn prior_height_spec(at_height: BlockHeight) -> BlockHeight {
    BlockHeight(
        if at_height.0 == 0 {
            0
        } else {
            (at_height.0 - 1) as u32
        },
    )
}

/// Height of the tree state a scan from `at_height` is anchored on.
pub fn prior_height(at_height: BlockHeight) -> (height: BlockHeight)
    ensures
        height == prior_height_spec(at_height),
{
    BlockHeight(at_height.0.saturating_sub(1))
}

/// Length of the longest prefix of roots that complete at or below `floor`.
pub open spec fn completed_prefix_len(roots: Seq<SubtreeRoot>, floor: BlockHeight) -> nat
    decreases roots.len(),
{
    if roots.len() == 0 || roots[0].completing_block_height.0 > floor.0 {
        0
    } else {
        1 + completed_prefix_len(roots.drop_first(), floor)
    }
}

/// The roots a wallet scanned up to `scan_floor` may install.
pub open spec fn installable(roots: Seq<SubtreeRoot>, scan_floor: Option<BlockHeight>) -> Seq<
    SubtreeRoot,
> {
    match scan_floor {
        Some(floor) => roots.take(completed_prefix_len(roots, floor) as int),
        None => Seq::empty(),
    }
}

proof fn completed_prefix_is_a_prefix(roots: Seq<SubtreeRoot>, floor: BlockHeight)
    ensures
        completed_prefix_len(roots, floor) <= roots.len(),
        forall|i: int|
            0 <= i < completed_prefix_len(roots, floor) ==> (
            #[trigger] roots[i]).completing_block_height.0 <= floor.0,
        completed_prefix_len(roots, floor) < roots.len() ==> roots[completed_prefix_len(
            roots,
            floor,
        ) as int].completing_block_height.0 > floor.0,
    decreases roots.len(),
{
    if roots.len() > 0 && roots[0].completing_block_height.0 <= floor.0 {
        let rest = roots.drop_first();
        completed_prefix_is_a_prefix(rest, floor);
        assert forall|i: int| 0 <= i < completed_prefix_len(roots, floor) implies (
        #[trigger] roots[i]).completing_block_height.0 <= floor.0 by {
            if i > 0 {
                assert(rest[i - 1] == roots[i]);
            }
        }
        if completed_prefix_len(roots, floor) < roots.len() {
            assert(rest[completed_prefix_len(rest, floor) as int] == roots[completed_prefix_len(
                roots,
                floor,
            ) as int]);
        }
    }
}

/// Keeps the prefix of `roots` whose completing block sits at or below the wallet's fully
/// scanned height.
///
/// A root completing above the scanned frontier folds leaves the wallet has not scanned into a
/// single node; everything past the first too-new root is deferred to a later backfill. A wallet
/// with no fully scanned height yet defers every root.
pub fn subtree_roots_completed_at_or_below(
    roots: Vec<SubtreeRoot>,
    scan_floor: Option<BlockHeight>,
) -> (kept: Vec<SubtreeRoot>)
    ensures
        kept@ == installable(roots@, scan_floor),
{
    let floor = match scan_floor {
        Some(floor) => floor,
        None => return Vec::new(),
    };
    let mut keep_count: usize = 0;
    assert(roots@.skip(0) =~= roots@);
    while keep_count < roots.len() && roots[keep_count].completing_block_height.0 <= floor.0
        invariant
            keep_count <= roots@.len(),
            completed_prefix_len(roots@, floor) == keep_count + completed_prefix_len(
                roots@.skip(keep_count as int),
                floor,
            ),
        decreases roots@.len() - keep_count,
    {
        assert(roots@.skip(keep_count as int).drop_first() =~= roots@.skip(keep_count + 1));
        keep_count += 1;
    }
    let mut roots = roots;
    roots.truncate(keep_count);
    roots
}

/// Every installed root completes at or below the scanned frontier, the installed roots are a
/// prefix of the page, and the first deferred root completes above the frontier.
pub proof fn deferred_roots_complete_above_the_floor(
    roots: Seq<SubtreeRoot>,
    floor: BlockHeight,
)
    ensures
        ({
            let kept = installable(roots, Some(floor));
            &&& kept.len() <= roots.len()
            &&& kept == roots.take(kept.len() as int)
            &&& forall|i: int|
                0 <= i < kept.len() ==> (#[trigger] kept[i]).completing_block_height.0 <= floor.0
            &&& kept.len() < roots.len() ==> roots[kept.len() as int].completing_block_height.0
                > floor.0
        }),
        installable(roots, None) == Seq::<SubtreeRoot>::empty(),
{
    completed_prefix_is_a_prefix(roots, floor);
}

/// The index the `offset`-th root of a page must have.
pub open spec fn expected_root_index(requested_start: u32, offset: int) -> int {
    crate::domain::lesser(
        requested_start + crate::domain::lesser(offset, u32::MAX as int),
        u32::MAX as int,
    )
}

/// Roots of a page carry consecutive indices from the requested one on, up to `count`.
pub open spec fn indices_run_from(
    requested_start: u32,
    roots: Seq<SubtreeRoot>,
    count: int,
) -> bool {
    forall|i: int|
        0 <= i < count ==> (#[trigger] roots[i]).index == expected_root_index(requested_start, i)
}

/// Completing heights of a page never decrease.
pub open spec fn heights_nondecreasing(roots: Seq<SubtreeRoot>) -> bool {
    forall|i: int, j: int|
        0 <= i <= j < roots.len() ==> (#[trigger] roots[i]).completing_block_height.0 <= (
        #[trigger] roots[j]).completing_block_height.0
}

/// A page answers its request: no more roots than asked for, consecutive indices from the
/// requested one on, and completing heights in order.
pub open spec fn page_answers(
    requested_start: u32,
    requested_count: u32,
    roots: Seq<SubtreeRoot>,
) -> bool {
    &&& roots.len() <= requested_count
    &&& indices_run_from(requested_start, roots, roots.len() as int)
    &&& heights_nondecreasing(roots)
}

/// Description of the first way in which a page fails to answer its request.
pub open spec fn page_defect_text(
    requested_start: u32,
    requested_count: u32,
    roots: Seq<SubtreeRoot>,
    text: Seq<char>,
) -> bool {
    if roots.len() > requested_count {
        text == "returned "@ + crate::text::decimal_text(roots.len())
            + " roots for requested count "@ + crate::text::decimal_text(requested_count as nat)
    } else if !indices_run_from(requested_start, roots, roots.len() as int) {
        exists|i: int|
            #![trigger roots[i]]
            {
                &&& 0 <= i < roots.len()
                &&& indices_run_from(requested_start, roots, i)
                &&& roots[i].index != expected_root_index(requested_start, i)
                &&& text == "expected index "@ + crate::text::decimal_text(
                    expected_root_index(requested_start, i) as nat,
                ) + ", received "@ + crate::text::decimal_text(roots[i].index as nat)
            }
    } else {
        text == "completing block heights must be nondecreasing"@
    }
}

fn page_error(pool: ShieldedPool, reason: String) -> (error: WalletError)
    ensures
        error.malformed_as(ChainSourceErrorKind::MalformedSubtreeRootPage { pool, reason }),
{
    WalletError::ChainSource(
        ChainSourceError::malformed(
            ChainSourceErrorKind::MalformedSubtreeRootPage { pool, reason },
        ),
    )
}

/// The error is a malformed-page error of `pool` whose reason satisfies the page's defect.
pub open spec fn is_page_error(
    error: WalletError,
    pool: ShieldedPool,
    requested_start: u32,
    requested_count: u32,
    roots: Seq<SubtreeRoot>,
) -> bool {
    error matches WalletError::ChainSource(e) && e.posture
        == crate::boundary_error::FailurePosture::RequiresOperator && (e.kind matches
        ChainSourceErrorKind::MalformedSubtreeRootPage { pool: p, reason } && p == pool
        && page_defect_text(requested_start, requested_count, roots, reason@))
}

/// Checks that a page of subtree roots answers its request.
pub fn validate_subtree_root_page(
    pool: ShieldedPool,
    requested_start: u32,
    requested_count: u32,
    roots: &Vec<SubtreeRoot>,
) -> (checked: Result<(), WalletError>)
    ensures
        checked is Ok <==> page_answers(requested_start, requested_count, roots@),
        checked matches Err(error) ==> is_page_error(
            error,
            pool,
            requested_start,
            requested_count,
            roots@,
        ),
{
    let count: usize = roots.len();
    if count as u64 > requested_count as u64 {
        let reason = "returned ".to_owned().concat(decimal(count as u64).as_str()).concat(
            " roots for requested count ",
        ).concat(decimal(requested_count as u64).as_str());
        return Err(page_error(pool, reason));
    }
    let mut offset: usize = 0;
    while offset < count
        invariant
            count == roots@.len() <= requested_count,
            offset <= count,
            indices_run_from(requested_start, roots@, offset as int),
        decreases count - offset,
    {
        let expected_index: u32 = requested_start.saturating_add(offset as u32);
        if roots[offset].index != expected_index {
            let reason = "expected index ".to_owned().concat(
                decimal(expected_index as u64).as_str(),
            ).concat(", received ").concat(decimal(roots[offset].index as u64).as_str());
            let received = roots[offset];
            assert(received == roots@[offset as int]);
            return Err(page_error(pool, reason));
        }
        offset += 1;
    }
    let mut later: usize = 1;
    while later < count
        invariant
            count == roots@.len() <= requested_count,
            count > 0 ==> later >= 1,
            later <= count || count == 0,
            indices_run_from(requested_start, roots@, count as int),
            forall|i: int, j: int|
                0 <= i <= j < later && j < count ==> (
                #[trigger] roots@[i]).completing_block_height.0 <= (
                #[trigger] roots@[j]).completing_block_height.0,
        decreases count - later,
    {
        if roots[later - 1].completing_block_height.0 > roots[later].completing_block_height.0 {
            let before = roots[later - 1];
            assert(before == roots@[later - 1]);
            assert(!heights_nondecreasing(roots@));
            return Err(
                page_error(pool, "completing block heights must be nondecreasing".to_owned()),
            );
        }
        later += 1;
    }
    Ok(())
}

} // verus!
