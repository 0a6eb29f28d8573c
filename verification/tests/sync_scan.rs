use zally_wallet::boundary_error::{ChainSourceError, ChainSourceErrorKind};
use zally_wallet::domain::{AccountId, BlockHeight, Network, ProtocolPool, ShieldedPool, TxId};
use zally_wallet::error::WalletError;
use zally_wallet::event::WalletEvent;
use zally_wallet::received_note::ReceivedShieldedNoteRow;
use zally_wallet::sync::attempt::{
    require_same_network, BackfillNext, ChainEpoch, FinalPlan, PinnedScan, ScanGap, ScanPlan,
    SubtreeBackfill,
};
use zally_wallet::sync::chunk::{rewind_event, PlannedScan, RootComparison, RunningScan, TreeRoots};
use zally_wallet::sync::frontier::ChainTipRecord;
use zally_wallet::sync::scan::{
    next_scan_range, scan_priority_label, CompactBlockArtifact, ScanPriority, ScanRange,
    SubtreeRoot, TreeStateArtifact,
};

fn height(value: u32) -> BlockHeight {
    BlockHeight::from(value)
}

fn epoch() -> ChainEpoch {
    ChainEpoch {
        id: 3,
        visible_tip: height(1_500),
        settled_tip: height(1_400),
    }
}

fn range(start: u32, end: u32) -> ScanRange {
    ScanRange {
        start,
        end,
        priority: ScanPriority::Historic,
    }
}

fn block(at: u32) -> CompactBlockArtifact {
    CompactBlockArtifact {
        height: height(at),
        block_time_seconds: at + 5,
        body: vec![0xAB],
    }
}

fn tree_state(at: u32) -> TreeStateArtifact {
    TreeStateArtifact {
        height: height(at),
        body: vec![1, 2],
    }
}

fn planned(ranges: Vec<ScanRange>) -> PlannedScan {
    match PinnedScan::pin(epoch(), ChainTipRecord::Stale).plan(&ranges) {
        ScanPlan::Scan(planned) => planned,
        other => panic!("expected a plan, got {other:?}"),
    }
}

fn malformed_kind(error: WalletError) -> ChainSourceErrorKind {
    match error {
        WalletError::ChainSource(ChainSourceError { kind, .. }) => kind,
        other => panic!("expected a chain-source failure, got {other:?}"),
    }
}

#[test]
fn the_first_fetchable_range_is_cut_to_one_chunk() {
    let ranges = vec![
        range(2_000, 2_100),
        range(40, 40),
        range(100, 5_000),
        range(1, 2),
    ];
    let chunk = next_scan_range(&ranges, height(1_500)).expect("a range is fetchable");
    assert_eq!(chunk.start, height(100));
    assert_eq!(chunk.end, height(1_099));
    assert_eq!(chunk.priority, ScanPriority::Historic);

    let short = next_scan_range(&vec![range(1_450, 5_000)], height(1_500))
        .expect("a range is fetchable");
    assert_eq!(short.end, height(1_500));
    let last = next_scan_range(&vec![range(7, 8)], height(1_500)).expect("a range is fetchable");
    assert_eq!(last.end, height(7));
    assert!(next_scan_range(&vec![range(1_501, 1_600)], height(1_500)).is_none());
    assert!(next_scan_range(&vec![], height(1_500)).is_none());
}

#[test]
fn priorities_have_stable_labels() {
    for (priority, label) in [
        (ScanPriority::Ignored, "ignored"),
        (ScanPriority::Scanned, "scanned"),
        (ScanPriority::Historic, "historic"),
        (ScanPriority::OpenAdjacent, "open_adjacent"),
        (ScanPriority::FoundNote, "found_note"),
        (ScanPriority::ChainTip, "chain_tip"),
        (ScanPriority::Verify, "verify"),
    ] {
        assert_eq!(scan_priority_label(priority), label);
    }
}

#[test]
fn only_a_stale_record_is_recorded() {
    assert_eq!(
        PinnedScan::pin(epoch(), ChainTipRecord::Stale).tips_to_record(),
        Some((height(1_500), height(1_400)))
    );
    assert_eq!(
        PinnedScan::pin(epoch(), ChainTipRecord::Current).tips_to_record(),
        None
    );
}

#[test]
fn a_boundary_of_another_network_is_refused() {
    assert!(require_same_network(Network::Testnet, Network::Testnet).is_ok());
    match require_same_network(Network::Testnet, Network::Mainnet) {
        Err(WalletError::NetworkMismatch { storage, requested }) => {
            assert_eq!(storage, Network::Testnet);
            assert_eq!(requested, Network::Mainnet);
        }
        other => panic!("expected a network mismatch, got {other:?}"),
    }
}

fn running_chunk() -> RunningScan {
    let scan = planned(vec![range(10, 13)]);
    assert_eq!(scan.anchor_height(), height(9));
    assert_eq!(scan.range().end, height(12));
    match scan.progress_event() {
        WalletEvent::ScanProgress {
            scanned_height,
            target_height,
        } => {
            assert_eq!(scanned_height, height(10));
            assert_eq!(target_height, height(1_500));
        }
        other => panic!("expected progress, got {other:?}"),
    }
    let mut anchored = scan.anchor(tree_state(9)).expect("the anchor is right");
    for at in [10, 11, 12] {
        anchored = anchored.take_block(block(at)).expect("the block is next");
    }
    let (request, running) = anchored.ready().expect("the chunk is complete");
    assert_eq!(request.scanned_from, height(10));
    assert_eq!(request.from_state.height, height(9));
    assert_eq!(
        request.blocks.iter().map(|b| b.height.as_u32()).collect::<Vec<u32>>(),
        vec![10, 11, 12]
    );
    running
}

fn roots(sapling: u8, orchard: Option<u8>) -> TreeRoots {
    TreeRoots {
        sapling: Some([sapling; 32]),
        orchard: orchard.map(|byte| [byte; 32]),
        ironwood: None,
    }
}

fn note(mined: u32, block_timestamp_ms: u64) -> ReceivedShieldedNoteRow {
    ReceivedShieldedNoteRow {
        account_id: AccountId(1),
        protocol: ProtocolPool::Orchard,
        value_zat: 500,
        tx_id: TxId::from_bytes([4; 32]),
        output_index: 2,
        mined_height: height(mined),
        block_timestamp_ms,
        is_change: false,
        spent_our_inputs: true,
    }
}

#[test]
fn a_chunk_is_announced_after_its_roots_were_compared() {
    let committed = running_chunk().committed(height(12));
    assert_eq!(committed.scanned_to(), height(12));
    assert!(committed.chain_state(tree_state(12)).is_ok());
    let verified = committed
        .verify_tree_roots(&roots(1, None), &roots(1, Some(2)))
        .expect("the roots agree");
    assert_eq!(
        verified.comparison(),
        RootComparison {
            sapling_match: Some(true),
            orchard_match: None,
            ironwood_match: None,
        }
    );
    assert!(!verified.comparison().skipped());
    assert_eq!(verified.committed_range(), (height(10), height(12)));
    let confirmed = verified.confirm(vec![
        (TxId::from_bytes([7; 32]), height(11)),
        (TxId::from_bytes([8; 32]), height(12)),
    ]);
    let retired = confirmed.broadcasts_to_retire().expect("two were mined");
    assert_eq!(retired.len(), 2);
    assert_eq!(retired[1].to_bytes(), [8; 32]);
    let (confirmations, receiving) = confirmed.announce();
    assert_eq!(confirmations.len(), 2);
    match confirmations[0] {
        WalletEvent::TransactionConfirmed {
            tx_id,
            confirmed_at_height,
        } => {
            assert_eq!(tx_id.to_bytes(), [7; 32]);
            assert_eq!(confirmed_at_height, height(11));
        }
        ref other => panic!("expected a confirmation, got {other:?}"),
    }
    assert_eq!(receiving.committed_range(), (height(10), height(12)));
    let (events, outcome) =
        receiving.finish(&vec![note(11, 0), note(12, 99), note(400, 0)], 1_234);
    assert_eq!(events.len(), 4);
    let times: Vec<u64> = events[..3]
        .iter()
        .map(|event| match event {
            WalletEvent::ShieldedReceiveObserved {
                block_timestamp_ms,
                pool: ShieldedPool::Orchard,
                value_zat: 500,
                output_index: 2,
                is_change: false,
                spent_our_inputs: true,
                ..
            } => *block_timestamp_ms,
            other => panic!("expected a receive, got {other:?}"),
        })
        .collect();
    assert_eq!(times, vec![16_000, 99, 0]);
    match events[3] {
        WalletEvent::ScanProgress {
            scanned_height,
            target_height,
        } => {
            assert_eq!(scanned_height, height(12));
            assert_eq!(target_height, height(1_500));
        }
        ref other => panic!("expected progress, got {other:?}"),
    }
    assert_eq!(outcome.scanned_from_height, height(10));
    assert_eq!(outcome.scanned_to_height, height(12));
    assert_eq!(outcome.block_count, 3);
    assert_eq!(outcome.completed_at_ms, 1_234);
}

#[test]
fn diverged_roots_end_the_attempt() {
    let committed = running_chunk().committed(height(12));
    match committed.verify_tree_roots(&roots(1, Some(2)), &roots(1, Some(3))) {
        Err(WalletError::TreeRootsDiverged { height: at }) => assert_eq!(at, height(12)),
        other => panic!("expected divergence, got {other:?}"),
    }
}

#[test]
fn a_chunk_without_a_tree_state_stays_unverified() {
    let committed = running_chunk().committed(height(12));
    match committed.chain_state(tree_state(13)) {
        Err(WalletError::UnverifiedScanChunk { scanned_to, source }) => {
            assert_eq!(scanned_to, height(12));
            assert!(matches!(
                malformed_kind(*source),
                ChainSourceErrorKind::TreeStateAnchorHeightMismatch { .. }
            ));
        }
        other => panic!("expected an unverified chunk, got {other:?}"),
    }
}

#[test]
fn a_chunk_must_be_anchored_and_complete() {
    let misplaced = planned(vec![range(10, 13)]).anchor(tree_state(10));
    assert!(matches!(
        misplaced.map_err(malformed_kind),
        Err(ChainSourceErrorKind::TreeStateAnchorHeightMismatch { .. })
    ));
    let anchored = planned(vec![range(10, 13)])
        .anchor(tree_state(9))
        .expect("the anchor is right");
    let skipped = anchored.take_block(block(11));
    assert!(matches!(
        skipped.map_err(malformed_kind),
        Err(ChainSourceErrorKind::CompactBlockStreamOrder {
            expected_height: BlockHeight(10),
            actual_height: Some(BlockHeight(11)),
        })
    ));
    let short = planned(vec![range(10, 13)])
        .anchor(tree_state(9))
        .expect("the anchor is right")
        .take_block(block(10))
        .expect("the block is next")
        .ready();
    assert!(matches!(
        short.map_err(malformed_kind),
        Err(ChainSourceErrorKind::CompactBlockStreamOrder {
            expected_height: BlockHeight(11),
            actual_height: None,
        })
    ));
}

#[test]
fn a_caught_up_wallet_reports_the_visible_tip() {
    let unplanned = match PinnedScan::pin(epoch(), ChainTipRecord::Stale).plan(&vec![]) {
        ScanPlan::AskFullyScanned(unplanned) => unplanned,
        other => panic!("expected nothing to scan, got {other:?}"),
    };
    match unplanned.consider(Some(height(1_500))) {
        ScanGap::CaughtUp(caught_up) => {
            let (event, outcome) = caught_up.finish(9);
            assert!(matches!(event, WalletEvent::ScanProgress { .. }));
            assert_eq!(outcome.block_count, 0);
            assert_eq!(outcome.scanned_to_height, height(1_500));
            assert_eq!(outcome.completed_at_ms, 9);
        }
        other => panic!("expected a caught-up wallet, got {other:?}"),
    }
}

fn backfill(fully_scanned: Option<u32>) -> SubtreeBackfill {
    let unplanned = match PinnedScan::pin(epoch(), ChainTipRecord::Stale).plan(&vec![]) {
        ScanPlan::AskFullyScanned(unplanned) => unplanned,
        other => panic!("expected nothing to scan, got {other:?}"),
    };
    match unplanned.consider(fully_scanned.map(height)) {
        ScanGap::Backfill(backfill) => backfill,
        other => panic!("expected a backfill, got {other:?}"),
    }
}

fn root(index: u32, completing: u32) -> SubtreeRoot {
    SubtreeRoot {
        index,
        root_bytes: [9; 32],
        completing_block_height: height(completing),
    }
}

fn next_page(next: BackfillNext) -> SubtreeBackfill {
    match next {
        BackfillNext::Page(backfill) => backfill,
        other => panic!("expected another page, got {other:?}"),
    }
}

#[test]
fn a_backfill_walks_every_pool_page_by_page() {
    let first = backfill(Some(1_000));
    let request = first.page_request();
    assert_eq!(request.pool, ShieldedPool::Sapling);
    assert_eq!(request.start_index, 0);
    assert_eq!(request.max_count, 128);

    let full: Vec<SubtreeRoot> = (0..128).map(|index| root(index, 100 + index)).collect();
    let (put, next) = first.take_page(full).expect("the page answers");
    let put = put.expect("every root is below the floor");
    assert_eq!(put.protocol, ProtocolPool::Sapling);
    assert_eq!(put.start_index, 0);
    assert_eq!(put.entries.len(), 128);
    assert_eq!(put.entries[5].0, height(105));

    let second = next_page(next);
    assert_eq!(second.page_request().start_index, 128);
    let (put, next) = second
        .take_page(vec![root(128, 900), root(129, 1_001)])
        .expect("the page answers");
    let put = put.expect("one root is below the floor");
    assert_eq!(put.start_index, 128);
    assert_eq!(put.entries.len(), 1);

    let orchard = next_page(next);
    assert_eq!(orchard.page_request().pool, ShieldedPool::Orchard);
    assert_eq!(orchard.page_request().start_index, 0);
    let (put, next) = orchard.take_page(vec![]).expect("the page answers");
    assert!(put.is_none());
    let ironwood = next_page(next);
    assert_eq!(ironwood.page_request().pool, ShieldedPool::Ironwood);
    let (_, next) = ironwood.take_page(vec![]).expect("the page answers");
    let done = match next {
        BackfillNext::Done(done) => done,
        other => panic!("expected the end, got {other:?}"),
    };
    match done.plan(&vec![range(1_001, 1_501)]) {
        FinalPlan::Scan(planned) => assert_eq!(planned.range().start, height(1_001)),
        other => panic!("expected a plan, got {other:?}"),
    }
}

#[test]
fn a_page_that_does_not_answer_aborts_the_backfill() {
    let refused = backfill(None).take_page(vec![root(1, 5)]);
    assert!(matches!(
        refused.map_err(malformed_kind),
        Err(ChainSourceErrorKind::MalformedSubtreeRootPage { .. })
    ));
    let (put, _) = backfill(None)
        .take_page(vec![root(0, 5)])
        .expect("the page answers");
    assert!(put.is_none());
}

#[test]
fn a_rewind_is_announced_at_its_height() {
    match rewind_event(height(33)) {
        WalletEvent::ReorgDetected {
            rolled_back_to_height,
            new_tip_height,
        } => {
            assert_eq!(rolled_back_to_height, height(33));
            assert_eq!(new_tip_height, height(33));
        }
        other => panic!("expected a reorg, got {other:?}"),
    }
}
