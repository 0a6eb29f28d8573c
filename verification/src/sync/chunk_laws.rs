//! What one chunk of blocks is planned as, checked against, and announced as.

use crate::boundary_error::ChainSourceErrorKind;
use crate::domain::{BlockHeight, ShieldedPool, TxId};
use crate::error::WalletError;
use crate::event::WalletEvent;
use crate::received_note::ReceivedShieldedNoteRow;
use crate::sync::attempt::{BackfillPool, SubtreeBackfill};
use crate::sync::chunk::{RootComparison, TreeRoots};
use crate::sync::scan::{CompactBlockArtifact, ScanPriority, ScanRange, SubtreeRoot};
use vstd::prelude::*;

verus! {

/// A received note is announced as the row it was stored as: its account, transaction, output
/// index, value, height, pool, change flag, and whether its transaction spent the account's own
/// inputs. A third party's transfer is never announced as the wallet's own.
pub proof fn a_receive_is_announced_as_it_was_stored(
    note: ReceivedShieldedNoteRow,
    timestamps: Map<u32, u64>,
)
    ensures
        ({
            let event = crate::sync::chunk::receive_event(note, timestamps);
            &&& event matches WalletEvent::ShieldedReceiveObserved {
                account_id,
                tx_id,
                output_index,
                value_zat,
                mined_height,
                block_timestamp_ms,
                pool,
                is_change,
                spent_our_inputs,
            }
            &&& account_id == note.account_id
            &&& tx_id == note.tx_id
            &&& output_index == note.output_index
            &&& value_zat == note.value_zat
            &&& mined_height == note.mined_height
            &&& note.protocol is Sapling <==> pool is Sapling
            &&& note.protocol is Orchard <==> pool is Orchard
            &&& note.protocol is Ironwood <==> pool is Ironwood
            &&& is_change == note.is_change
            &&& spent_our_inputs == note.spent_our_inputs
            &&& note.block_timestamp_ms != 0 ==> block_timestamp_ms == note.block_timestamp_ms
            &&& note.block_timestamp_ms == 0 && timestamps.dom().contains(note.mined_height.0)
                ==> block_timestamp_ms == timestamps[note.mined_height.0]
            &&& note.block_timestamp_ms == 0 && !timestamps.dom().contains(note.mined_height.0)
                ==> block_timestamp_ms == 0
        }),
{
}

/// Two notes are announced alike only if they are the same note in every respect that a caller
/// can tell.
pub proof fn different_receives_are_told_apart(
    a: ReceivedShieldedNoteRow,
    b: ReceivedShieldedNoteRow,
    timestamps: Map<u32, u64>,
)
    requires
        crate::sync::chunk::receive_event(a, timestamps) == crate::sync::chunk::receive_event(
            b,
            timestamps,
        ),
    ensures
        a.account_id == b.account_id,
        a.tx_id == b.tx_id,
        a.output_index == b.output_index,
        a.value_zat == b.value_zat,
        a.mined_height == b.mined_height,
        a.protocol == b.protocol,
        a.is_change == b.is_change,
        a.spent_our_inputs == b.spent_our_inputs,
{
}

/// The header time that stands for a height is the one of the block at that height, in
/// milliseconds, for every block of a chunk; heights outside the chunk have none.
pub proof fn header_times_are_those_of_the_blocks(
    start: BlockHeight,
    blocks: Seq<CompactBlockArtifact>,
    index: int,
    outside: u32,
)
    requires
        forall|i: int| 0 <= i < blocks.len() ==> #[trigger] blocks[i].height.0 == start.0 + i,
        0 <= index < blocks.len(),
        outside < start.0 || outside >= start.0 + blocks.len(),
    ensures
        ({
            let times = crate::sync::chunk::block_timestamps(blocks);
            &&& times.dom().contains(blocks[index].height.0)
            &&& times[blocks[index].height.0] == blocks[index].block_time_seconds * 1_000
            &&& !times.dom().contains(outside)
        }),
    decreases blocks.len(),
{
    let fewer = blocks.drop_last();
    let last = blocks.len() - 1;
    assert(blocks[last].height.0 == start.0 + last);
    assert forall|i: int| 0 <= i < fewer.len() implies #[trigger] fewer[i].height.0 == start.0
        + i by {
        assert(blocks[i].height.0 == start.0 + i);
    }
    if index < last {
        header_times_are_those_of_the_blocks(start, fewer, index, outside);
        assert(fewer[index] == blocks[index]);
        assert(blocks[index].height.0 == start.0 + index);
    } else if fewer.len() > 0 {
        header_times_are_those_of_the_blocks(start, fewer, 0, outside);
    }
}

/// A mined transaction is announced under its own identifier and at its own height.
pub proof fn a_confirmation_is_announced_as_it_was_mined(mined: (TxId, BlockHeight))
    ensures
        crate::sync::chunk::confirmed_event(mined) == (WalletEvent::TransactionConfirmed {
            tx_id: mined.0,
            confirmed_at_height: mined.1,
        }),
{
}

/// The broadcasts to retire are those of the mined transactions, one for one.
pub proof fn every_mined_broadcast_is_retired(mined: Seq<(TxId, BlockHeight)>, index: int)
    requires
        0 <= index < mined.len(),
    ensures
        crate::sync::chunk::mined_tx_ids(mined).len() == mined.len(),
        crate::sync::chunk::mined_tx_ids(mined)[index] == mined[index].0,
{
}

/// A chunk diverges from the chain exactly if some tree has a root on both sides and the two
/// differ. A tree that is empty on either side proves nothing.
pub proof fn a_chunk_diverges_exactly_on_a_differing_root(wallet: TreeRoots, chain: TreeRoots)
    ensures
        ({
            let comparison = RootComparison::of_spec(wallet, chain);
            &&& comparison.diverges() <==> {
                ||| wallet.sapling is Some && chain.sapling is Some && wallet.sapling
                    != chain.sapling
                ||| wallet.orchard is Some && chain.orchard is Some && wallet.orchard
                    != chain.orchard
                ||| wallet.ironwood is Some && chain.ironwood is Some && wallet.ironwood
                    != chain.ironwood
            }
            &&& comparison.is_skipped() <==> (wallet.sapling is None || chain.sapling is None) && (
            wallet.orchard is None || chain.orchard is None) && (wallet.ironwood is None
                || chain.ironwood is None)
            &&& comparison.sapling_match is Some <==> wallet.sapling is Some && chain.sapling
                is Some
            &&& comparison.orchard_match is Some <==> wallet.orchard is Some && chain.orchard
                is Some
            &&& comparison.ironwood_match is Some <==> wallet.ironwood is Some && chain.ironwood
                is Some
        }),
{
}

/// A wallet whose roots are the chain's never diverges from it.
pub proof fn equal_roots_never_diverge(roots: TreeRoots)
    ensures
        !RootComparison::of_spec(roots, roots).diverges(),
{
}

/// What is planned comes from the first suggested range that holds a block at or below the tip:
/// it starts where that range starts and is as long as the range, the tip, and one chunk of a
/// thousand blocks allow, and no shorter.
pub proof fn the_first_range_at_or_below_the_tip_is_planned(
    ranges: Seq<ScanRange>,
    tip: BlockHeight,
    chosen: int,
)
    requires
        0 <= chosen < ranges.len(),
        ranges[chosen].start < ranges[chosen].end,
        ranges[chosen].start <= tip.0,
        forall|i: int|
            0 <= i < chosen ==> (#[trigger] ranges[i]).start >= ranges[i].end || ranges[i].start
                > tip.0,
    ensures
        ({
            let range = ranges[chosen];
            &&& crate::sync::scan::first_chunk(ranges, tip) matches Some(planned)
            &&& planned.start.0 == range.start
            &&& planned.priority == range.priority
            &&& planned.start.0 <= planned.end.0 < range.end
            &&& planned.end.0 <= tip.0
            &&& planned.end.0 - planned.start.0 + 1 <= 1_000
            &&& planned.end.0 + 1 == range.end || planned.end == tip || planned.end.0
                - planned.start.0 + 1 == 1_000
        }),
    decreases ranges.len(),
{
    if chosen > 0 {
        assert(ranges[0].start >= ranges[0].end || ranges[0].start > tip.0);
        let rest = ranges.drop_first();
        assert(rest[chosen - 1] == ranges[chosen]);
        assert forall|i: int| 0 <= i < chosen - 1 implies (#[trigger] rest[i]).start >= rest[i].end
            || rest[i].start > tip.0 by {
            assert(rest[i] == ranges[i + 1]);
        }
        the_first_range_at_or_below_the_tip_is_planned(rest, tip, chosen - 1);
    }
}

/// Nothing is planned exactly if no suggested range holds a block at or below the tip.
pub proof fn nothing_is_planned_only_when_nothing_is_left(ranges: Seq<ScanRange>, tip: BlockHeight)
    ensures
        crate::sync::scan::first_chunk(ranges, tip) is None <==> forall|i: int|
            0 <= i < ranges.len() ==> (#[trigger] ranges[i]).start >= ranges[i].end
                || ranges[i].start > tip.0,
    decreases ranges.len(),
{
    if ranges.len() > 0 {
        let rest = ranges.drop_first();
        nothing_is_planned_only_when_nothing_is_left(rest, tip);
        assert forall|i: int| 0 < i < ranges.len() implies #[trigger] ranges[i] == rest[i - 1] by {}
        if crate::sync::scan::first_chunk(ranges, tip) is None {
            assert forall|i: int| 0 <= i < ranges.len() implies (#[trigger] ranges[i]).start
                >= ranges[i].end || ranges[i].start > tip.0 by {
                if i > 0 {
                    assert(ranges[i] == rest[i - 1]);
                }
            }
        } else if forall|i: int|
            0 <= i < ranges.len() ==> (#[trigger] ranges[i]).start >= ranges[i].end
                || ranges[i].start > tip.0 {
            assert(ranges[0].start >= ranges[0].end || ranges[0].start > tip.0);
            assert forall|i: int| 0 <= i < rest.len() implies (#[trigger] rest[i]).start
                >= rest[i].end || rest[i].start > tip.0 by {
                assert(rest[i] == ranges[i + 1]);
            }
        }
    }
}

/// A chunk is anchored on the tree state right before its first block; the first block of the
/// chain on its own.
pub proof fn a_chunk_is_anchored_right_before_it(start: BlockHeight)
    ensures
        start.0 > 0 ==> crate::sync::scan::prior_height_spec(start).0 + 1 == start.0,
        start.0 == 0 ==> crate::sync::scan::prior_height_spec(start).0 == 0,
{
}

/// Blocks of a chunk are owed one by one: after as many as came in, the next height is owed
/// until the last one of the range was served, and none after it.
pub proof fn blocks_are_owed_in_order(start: BlockHeight, end: BlockHeight, received: int)
    requires
        start.0 <= end.0,
        received >= 0,
    ensures
        start.0 + received <= end.0 ==> {
            &&& crate::sync::scan::expected_block_height(start, end, received) matches Some(next)
            &&& next.0 == start.0 + received
        },
        start.0 + received > end.0 ==> crate::sync::scan::expected_block_height(
            start,
            end,
            received,
        ) is None,
        start.0 + crate::sync::scan::expected_block_count(start, end) == end.0 + 1,
{
}

/// Served blocks are the blocks of the chunk exactly if the first has the chunk's first height
/// and each one is one above the one before.
pub proof fn served_blocks_are_consecutive(
    start: BlockHeight,
    blocks: Seq<CompactBlockArtifact>,
    index: int,
)
    requires
        crate::sync::scan::consecutive_from(start, blocks),
        0 <= index < blocks.len(),
    ensures
        blocks[0].height == start,
        index + 1 < blocks.len() ==> blocks[index + 1].height.0 == blocks[index].height.0 + 1,
        blocks[index].height.0 == start.0 + index,
{
    assert(blocks[0].height.0 == start.0 + 0);
    assert(blocks[index].height.0 == start.0 + index);
    if index + 1 < blocks.len() {
        assert(blocks[index + 1].height.0 == start.0 + index + 1);
    }
}

/// A block out of order is reported with the height that was owed and the one that came.
pub proof fn a_stray_block_is_named(expected: BlockHeight, actual: Option<BlockHeight>)
    ensures
        crate::sync::scan::order_kind(expected, actual) == (
        ChainSourceErrorKind::CompactBlockStreamOrder {
            expected_height: expected,
            actual_height: actual,
        }),
{
}

/// A wallet with nothing queued is caught up exactly if it is fully scanned to the visible tip
/// or beyond.
pub proof fn caught_up_means_scanned_to_the_tip(
    fully_scanned: Option<BlockHeight>,
    visible_tip: BlockHeight,
)
    ensures
        !crate::sync::attempt::is_behind(fully_scanned, visible_tip) <==> (fully_scanned matches
            Some(height) && height.0 >= visible_tip.0),
{
}

/// A page of subtree roots answers its request exactly if it holds no more roots than asked
/// for, numbers them one by one from the requested index on, and completes them in order.
pub proof fn a_page_answers_exactly_its_request(
    requested_start: u32,
    requested_count: u32,
    roots: Seq<SubtreeRoot>,
)
    requires
        requested_start + roots.len() <= u32::MAX,
    ensures
        crate::sync::scan::page_answers(requested_start, requested_count, roots) <==> {
            &&& roots.len() <= requested_count
            &&& forall|i: int|
                0 <= i < roots.len() ==> (#[trigger] roots[i]).index == requested_start + i
            &&& forall|i: int, j: int|
                0 <= i <= j < roots.len() ==> (#[trigger] roots[i]).completing_block_height.0 <= (
                #[trigger] roots[j]).completing_block_height.0
        },
{
    let roots_len = roots.len() as int;
    if crate::sync::scan::page_answers(requested_start, requested_count, roots) {
        assert forall|i: int| 0 <= i < roots.len() implies (#[trigger] roots[i]).index
            == requested_start + i by {
            assert(roots[i].index == crate::sync::scan::expected_root_index(requested_start, i));
        }
    }
    if forall|i: int| 0 <= i < roots.len() ==> (#[trigger] roots[i]).index == requested_start + i {
        assert(crate::sync::scan::indices_run_from(requested_start, roots, roots_len));
    }
}

/// A recorded root carries its own height and its own bytes, one for one.
pub proof fn a_root_is_recorded_with_its_height(roots: Seq<SubtreeRoot>, index: int)
    requires
        0 <= index < roots.len(),
    ensures
        crate::sync::attempt::root_entries(roots).len() == roots.len(),
        crate::sync::attempt::root_entries(roots)[index].0
            == roots[index].completing_block_height,
        crate::sync::attempt::root_entries(roots)[index].1 == roots[index].root_bytes,
{
}

/// A backfill goes through Sapling, Orchard, and Ironwood, each once and in this order.
pub proof fn a_backfill_visits_every_pool_once()
    ensures
        BackfillPool::Sapling.after() == Some(BackfillPool::Orchard),
        BackfillPool::Orchard.after() == Some(BackfillPool::Ironwood),
        BackfillPool::Ironwood.after() is None,
        forall|pool: BackfillPool|
            {
                &&& pool is Sapling <==> #[trigger] pool.protocol_spec() is Sapling
                &&& pool is Orchard <==> pool.protocol_spec() is Orchard
                &&& pool is Ironwood <==> pool.protocol_spec() is Ironwood
            },
{
}

/// The next page is of the pool the backfill stands at, from its next index on, and of a
/// hundred and twenty-eight roots; a page that is shorter, or that holds a root the wallet has
/// not scanned up to, ends the pool.
pub proof fn a_backfill_asks_page_by_page(
    backfill: SubtreeBackfill,
    roots: Seq<SubtreeRoot>,
)
    ensures
        ({
            let request = backfill.page_request_spec();
            &&& request.start_index == backfill.next_index_spec()
            &&& request.max_count == 128
            &&& backfill.pool_spec() is Sapling <==> request.pool is Sapling
            &&& backfill.pool_spec() is Orchard <==> request.pool is Orchard
            &&& backfill.pool_spec() is Ironwood <==> request.pool is Ironwood
        }),
        roots.len() < 128 ==> backfill.ends_pool(roots),
        roots.len() >= 128 && backfill.floor_spec() is None ==> backfill.ends_pool(roots),
        roots.len() >= 128 ==> {
            &&& backfill.floor_spec() matches Some(floor) ==> (backfill.ends_pool(roots) <==> exists|
                i: int,
            |
                0 <= i < roots.len() && (#[trigger] roots[i]).completing_block_height.0 > floor.0)
        },
{
    if backfill.floor_spec() is Some {
        let floor = backfill.floor_spec()->Some_0;
        crate::sync::scan::deferred_roots_complete_above_the_floor(roots, floor);
        let kept = crate::sync::scan::installable(roots, Some(floor));
        if kept.len() < roots.len() {
            assert(roots[kept.len() as int].completing_block_height.0 > floor.0);
        } else {
            assert forall|i: int| 0 <= i < roots.len() implies (
            #[trigger] roots[i]).completing_block_height.0 <= floor.0 by {
                assert(kept[i] == roots[i]);
            }
        }
    }
}

/// A page that does not answer its request is the source's fault and left to the operator. The
/// error names the pool, and what is wrong with the page: how many roots came for how many, or
/// the index that was due and the one that came, for the first index that is off, or else that
/// the heights go down.
pub proof fn a_refused_page_names_its_first_defect(
    error: WalletError,
    pool: ShieldedPool,
    requested_start: u32,
    requested_count: u32,
    roots: Seq<SubtreeRoot>,
    stray: int,
)
    requires
        crate::sync::scan::is_page_error(error, pool, requested_start, requested_count, roots),
        requested_start + roots.len() <= u32::MAX,
    ensures
        error is ChainSource,
        error.posture_spec() is RequiresOperator,
        error matches WalletError::ChainSource(e) ==> {
            &&& e.kind matches ChainSourceErrorKind::MalformedSubtreeRootPage { pool: p, reason }
            &&& p == pool
            &&& roots.len() > requested_count ==> reason@ == "returned "@
                + crate::text::decimal_text(roots.len()) + " roots for requested count "@
                + crate::text::decimal_text(requested_count as nat)
            &&& roots.len() <= requested_count && 0 <= stray < roots.len() && (forall|i: int|
                0 <= i < stray ==> (#[trigger] roots[i]).index == requested_start + i)
                && roots[stray].index != requested_start + stray ==> reason@ == "expected index "@
                + crate::text::decimal_text((requested_start + stray) as nat) + ", received "@
                + crate::text::decimal_text(roots[stray].index as nat)
            &&& roots.len() <= requested_count && (forall|i: int|
                0 <= i < roots.len() ==> (#[trigger] roots[i]).index == requested_start + i)
                ==> reason@ == "completing block heights must be nondecreasing"@
        },
{
    assert forall|i: int| 0 <= i < roots.len() implies crate::sync::scan::expected_root_index(
        requested_start,
        i,
    ) == requested_start + i by {}
    let first_is_stray = 0 <= stray < roots.len() && (forall|i: int|
        0 <= i < stray ==> (#[trigger] roots[i]).index == requested_start + i)
        && roots[stray].index != requested_start + stray;
    if roots.len() <= requested_count && first_is_stray {
        assert(!crate::sync::scan::indices_run_from(
            requested_start,
            roots,
            roots.len() as int,
        )) by {
            assert(roots[stray].index != crate::sync::scan::expected_root_index(
                requested_start,
                stray,
            ));
        }
        assert forall|i: int|
            0 <= i < roots.len() && crate::sync::scan::indices_run_from(requested_start, roots, i)
                && (#[trigger] roots[i]).index != crate::sync::scan::expected_root_index(
                requested_start,
                i,
            ) implies i == stray by {
            if i > stray {
                assert(roots[stray].index == crate::sync::scan::expected_root_index(
                    requested_start,
                    stray,
                ));
            }
        }
    }
    if forall|i: int| 0 <= i < roots.len() ==> (#[trigger] roots[i]).index == requested_start + i {
        assert(crate::sync::scan::indices_run_from(requested_start, roots, roots.len() as int));
    }
}

/// Two priorities have the same label only if they are the same priority, and each is labelled
/// by its name.
pub proof fn a_priority_is_told_by_its_label(a: ScanPriority, b: ScanPriority)
    ensures
        crate::sync::scan::priority_text(a) == crate::sync::scan::priority_text(b) ==> a == b,
        crate::sync::scan::priority_text(ScanPriority::Ignored) == "ignored"@,
        crate::sync::scan::priority_text(ScanPriority::Scanned) == "scanned"@,
        crate::sync::scan::priority_text(ScanPriority::Historic) == "historic"@,
        crate::sync::scan::priority_text(ScanPriority::OpenAdjacent) == "open_adjacent"@,
        crate::sync::scan::priority_text(ScanPriority::FoundNote) == "found_note"@,
        crate::sync::scan::priority_text(ScanPriority::ChainTip) == "chain_tip"@,
        crate::sync::scan::priority_text(ScanPriority::Verify) == "verify"@,
{
    reveal_strlit("ignored");
    reveal_strlit("scanned");
    reveal_strlit("historic");
    reveal_strlit("open_adjacent");
    reveal_strlit("found_note");
    reveal_strlit("chain_tip");
    reveal_strlit("verify");
    assert("ignored"@[0] == 'i' && "scanned"@[0] == 's' && "historic"@[0] == 'h');
    assert("open_adjacent"@[0] == 'o' && "found_note"@[0] == 'f' && "chain_tip"@[0] == 'c');
    assert("verify"@[0] == 'v');
}

} // verus!
