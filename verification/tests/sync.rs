use zally_wallet::boundary_error::{
    ChainSourceError, ChainSourceErrorKind, FailurePosture, StorageError, StorageErrorKind,
};
use zally_wallet::domain::{BlockHeight, Network, ShieldedPool};
use zally_wallet::error::WalletError;
use zally_wallet::sync::classify::{committed_chunk_for, repair_for};
use zally_wallet::sync::driver_state::DriverState;
use zally_wallet::sync::frontier::{
    chain_tip_after_fault, chain_tip_after_scan, height_delta, is_slow_progress,
    should_continue_syncing, ChainTipRecord, CommittedChunk, ScanFrontier, SyncOutcome,
};
use zally_wallet::sync::ladder::{escalate, rewind_depth, RecoveryState, SyncRepair};
use zally_wallet::sync::options::SyncRecoveryPolicy;
use zally_wallet::sync::scan::{
    check_tree_state, subtree_roots_completed_at_or_below, validate_compact_block_count,
    validate_compact_block_height, validate_subtree_root_page, SubtreeRoot, TreeStateArtifact,
};

fn subtree_root_completing_at(index: u32, height: u32) -> SubtreeRoot {
    SubtreeRoot {
        index,
        root_bytes: [u8::try_from(index).unwrap_or(u8::MAX); 32],
        completing_block_height: BlockHeight::from(height),
    }
}

fn chain_kind(error: WalletError) -> ChainSourceErrorKind {
    match error {
        WalletError::ChainSource(ChainSourceError { kind, .. }) => kind,
        other => panic!("expected a chain-source failure, got {other:?}"),
    }
}

fn storage_fault(kind: StorageErrorKind) -> WalletError {
    WalletError::Storage(StorageError::new(kind, FailurePosture::RequiresOperator))
}

#[test]
fn subtree_roots_completing_above_the_scan_floor_are_deferred() {
    let roots = vec![
        subtree_root_completing_at(0, 3_364_755),
        subtree_root_completing_at(1, 3_861_020),
        subtree_root_completing_at(2, 4_094_022),
    ];
    let kept = subtree_roots_completed_at_or_below(
        roots.clone(),
        Some(BlockHeight::from(4_050_200u32)),
    );
    assert_eq!(kept.len(), 2);
    assert_eq!(kept[1].index, 1);

    let kept_at_boundary = subtree_roots_completed_at_or_below(
        roots.clone(),
        Some(BlockHeight::from(4_094_022u32)),
    );
    assert_eq!(kept_at_boundary.len(), 3);

    assert!(subtree_roots_completed_at_or_below(roots, None).is_empty());
}

#[test]
fn subtree_root_pages_require_requested_bounds_and_ordering() {
    let pool = ShieldedPool::Orchard;
    assert!(validate_subtree_root_page(
        pool,
        3,
        2,
        &vec![
            subtree_root_completing_at(3, 10),
            subtree_root_completing_at(4, 11),
        ]
    )
    .is_ok());
    for malformed in [
        vec![
            subtree_root_completing_at(3, 10),
            subtree_root_completing_at(5, 11),
        ],
        vec![
            subtree_root_completing_at(3, 11),
            subtree_root_completing_at(4, 10),
        ],
        vec![
            subtree_root_completing_at(3, 10),
            subtree_root_completing_at(4, 11),
            subtree_root_completing_at(5, 12),
        ],
    ] {
        let error = validate_subtree_root_page(pool, 3, 2, &malformed).expect_err("malformed");
        assert!(matches!(
            chain_kind(error),
            ChainSourceErrorKind::MalformedSubtreeRootPage { .. }
        ));
    }
}

#[test]
fn chain_state_at_rejects_custom_source_height_mismatch() {
    let served = TreeStateArtifact {
        height: BlockHeight::from(8),
        body: vec![1],
    };
    let error = check_tree_state(served, BlockHeight::from(7)).expect_err("another height");
    assert!(matches!(
        chain_kind(error),
        ChainSourceErrorKind::TreeStateAnchorHeightMismatch {
            requested_height,
            returned_height,
        } if requested_height == BlockHeight::from(7)
            && returned_height == BlockHeight::from(8)
    ));
}

#[test]
fn compact_block_sequence_rejects_missing_duplicate_and_out_of_order_heights() {
    let start = BlockHeight::from(10);
    let end = BlockHeight::from(12);

    let error = validate_compact_block_count(start, end, 2).expect_err("one is missing");
    assert!(matches!(
        chain_kind(error),
        ChainSourceErrorKind::CompactBlockStreamOrder {
            expected_height,
            actual_height: None,
        } if expected_height == BlockHeight::from(12)
    ));
    for actual_height in [BlockHeight::from(10), BlockHeight::from(12)] {
        let error = validate_compact_block_height(start, end, 1, Some(actual_height))
            .expect_err("out of order");
        assert!(matches!(
            chain_kind(error),
            ChainSourceErrorKind::CompactBlockStreamOrder {
                expected_height,
                actual_height: Some(observed_height),
            } if expected_height == BlockHeight::from(11)
                && observed_height == actual_height
        ));
    }
}

#[test]
fn compact_block_sequence_accepts_the_full_u32_height_domain() {
    let start = BlockHeight::from(0);
    let end = BlockHeight::from(u32::MAX);

    assert!(validate_compact_block_height(start, end, 0, Some(start)).is_ok());
    assert!(validate_compact_block_height(start, end, u64::from(u32::MAX), Some(end)).is_ok());
    assert!(validate_compact_block_count(start, end, u64::from(u32::MAX) + 1).is_ok());
}

#[test]
fn named_cures_rewind_regardless_of_posture() {
    let faults = [
        storage_fault(StorageErrorKind::CommitmentTreeConflict {
            reason: "subtree root mismatch".into(),
        }),
        storage_fault(StorageErrorKind::ChainReorgDetected {
            at_height: BlockHeight::from(10),
        }),
        WalletError::TreeRootsDiverged {
            height: BlockHeight::from(10),
        },
    ];
    for fault in faults {
        assert_eq!(repair_for(&fault), SyncRepair::Rewind);
    }
}

#[test]
fn retryable_faults_retry() {
    let fault = WalletError::CircuitBroken { operation: "test" };
    assert_eq!(fault.posture(), FailurePosture::Retryable);
    assert_eq!(repair_for(&fault), SyncRepair::Retry);
}

#[test]
fn requires_operator_faults_park() {
    let faults = [
        WalletError::NetworkMismatch {
            storage: Network::Mainnet,
            requested: Network::Testnet,
        },
        WalletError::NoSealedSeed,
        WalletError::AccountNotFound,
        WalletError::SyncDriverFailed {
            reason: "panicked".into(),
        },
    ];
    for fault in faults {
        assert_eq!(fault.posture(), FailurePosture::RequiresOperator);
        assert_eq!(repair_for(&fault), SyncRepair::Park);
    }
}

#[test]
fn not_retryable_faults_rewind() {
    let fault = WalletError::MemoOnTransparentRecipient;
    assert_eq!(fault.posture(), FailurePosture::NotRetryable);
    assert_eq!(repair_for(&fault), SyncRepair::Rewind);
}

fn one_strike_policy() -> SyncRecoveryPolicy {
    SyncRecoveryPolicy::default()
        .with_escalate_after_faults(1)
        .with_max_rescan_attempts(2)
}

/// Drives the recovery ladder through a stream of classified faults, none of them restartable,
/// and records the `(rung, rewind_depth_index)` after each fault.
fn drive_ladder(
    classifieds: impl IntoIterator<Item = SyncRepair>,
    policy: SyncRecoveryPolicy,
) -> Vec<(SyncRepair, usize)> {
    let mut recovery: Option<RecoveryState> = None;
    let mut ladder = Vec::new();
    for classified in classifieds {
        let recovery = recovery.get_or_insert_with(|| RecoveryState::entering(classified, 0));
        recovery.fold_fault(classified, false, policy);
        ladder.push((recovery.rung, recovery.rewind_depth_index));
        recovery.attempts_at_rung = recovery.attempts_at_rung.saturating_add(1);
    }
    ladder
}

#[test]
fn faulted_iteration_with_progress_is_not_a_ladder_strike() {
    assert_eq!(
        height_delta(
            ScanFrontier::At(BlockHeight::from(73_000)),
            ScanFrontier::At(BlockHeight::from(74_000)),
        ),
        1_000
    );
    assert_eq!(
        height_delta(
            ScanFrontier::At(BlockHeight::from(74_000)),
            ScanFrontier::At(BlockHeight::from(74_000)),
        ),
        0
    );
    assert!(is_slow_progress(SyncRepair::Retry, 1_000));
    assert!(!is_slow_progress(SyncRepair::Retry, 0));
}

fn outcome_scanning(block_count: u64) -> SyncOutcome {
    SyncOutcome {
        scanned_from_height: BlockHeight::from(74_000),
        scanned_to_height: BlockHeight::from(75_000),
        block_count,
        completed_at_ms: 0,
    }
}

#[test]
fn only_a_recording_iteration_may_report_the_wallet_caught_up() {
    assert!(
        !should_continue_syncing(outcome_scanning(0), true),
        "a recorded tip with nothing left below it is the caught-up report"
    );
    assert!(
        should_continue_syncing(outcome_scanning(0), false),
        "a drained queue under a tip recorded chunks ago says nothing about the chain now"
    );
    assert!(should_continue_syncing(outcome_scanning(1_000), true));
    assert!(should_continue_syncing(outcome_scanning(1_000), false));
}

#[test]
fn a_drained_queue_sends_the_next_iteration_back_to_the_chain_tip() {
    assert_eq!(
        chain_tip_after_scan(outcome_scanning(1_000)),
        ChainTipRecord::Current,
        "the rest of the queue sits below the same record"
    );
    assert_eq!(
        chain_tip_after_scan(outcome_scanning(0)),
        ChainTipRecord::Stale,
        "an empty queue leaves nothing below the record to scan"
    );
}

#[test]
fn a_committed_chunk_keeps_the_chain_tip_record_through_its_fault() {
    assert_eq!(
        chain_tip_after_fault(ChainTipRecord::Stale, 1_000),
        ChainTipRecord::Current,
        "a chunk that committed blocks proves the record landed ahead of them"
    );
    assert_eq!(
        chain_tip_after_fault(ChainTipRecord::Current, 1_000),
        ChainTipRecord::Current
    );
    assert_eq!(
        chain_tip_after_fault(ChainTipRecord::Stale, 0),
        ChainTipRecord::Stale,
        "an attempt that committed nothing proves nothing about the record"
    );
    assert_eq!(
        chain_tip_after_fault(ChainTipRecord::Current, 0),
        ChainTipRecord::Current,
        "a fault removes no queued range, so a standing record still stands"
    );
}

#[test]
fn state_fault_with_progress_still_strikes_the_ladder() {
    assert!(!is_slow_progress(SyncRepair::Rewind, 1_000));
    assert!(!is_slow_progress(SyncRepair::Park, 1_000));

    let ladder = drive_ladder([SyncRepair::Rewind], one_strike_policy());
    assert_eq!(ladder, vec![(SyncRepair::Rewind, 0)]);
}

#[test]
fn settling_past_the_fault_boundary_drops_the_ladder() {
    let mut recovery = RecoveryState::entering(SyncRepair::Rewind, 0);
    recovery.fault_height = Some(BlockHeight::from(4_148_826));
    let mut state = DriverState {
        recovery: Some(recovery),
        ..DriverState::default()
    };
    let recovered = state.settle_recovery(Some(BlockHeight::from(4_148_827)));
    assert!(recovered.is_some());
    assert!(state.recovery.is_none());
}

/// Each rewind re-covers a known-good range below the conflict, the trivially-completed sync
/// must not clear the ladder, and the recurring fault must resume it so it eventually escalates
/// past the rewind rungs.
#[test]
fn completed_sync_below_the_fault_boundary_keeps_ladder_memory() {
    let fault_height = BlockHeight::from(4_148_826);
    let policy = one_strike_policy();
    let mut state = DriverState::default();

    let mut rungs = Vec::new();
    for _ in 0..6 {
        let recovery = state
            .recovery
            .get_or_insert_with(|| RecoveryState::entering(SyncRepair::Rewind, 0));
        recovery.dormant = false;
        recovery.fault_height = Some(
            recovery
                .fault_height
                .map_or(fault_height, |prior| prior.max(fault_height)),
        );
        recovery.fold_fault(SyncRepair::Rewind, false, policy);
        recovery.attempts_at_rung = recovery.attempts_at_rung.saturating_add(1);
        rungs.push((recovery.rung, recovery.rewind_depth_index));

        let recovered = state.settle_recovery(Some(BlockHeight::from(4_148_826)));
        assert!(
            recovered.is_none(),
            "a completed sync at the fault boundary must not clear the ladder"
        );
        assert!(
            state.recovery.as_ref().is_some_and(|r| r.dormant),
            "the retained ladder must be dormant between faults"
        );
    }

    assert!(
        rungs
            .iter()
            .any(|(rung, _)| *rung == SyncRepair::RescanFromBirthday),
        "the recurring conflict must escalate past the rewind rungs: {rungs:?}"
    );
}

#[test]
fn a_fault_after_a_rewind_does_not_lower_the_recovery_bar() {
    let mut state = DriverState::default();
    let recovery = state
        .recovery
        .get_or_insert_with(|| RecoveryState::entering(SyncRepair::Rewind, 0));
    recovery.fault_height = Some(BlockHeight::from(4_148_826));
    let lower = BlockHeight::from(4_148_816);
    recovery.raise_fault_height(Some(lower));
    assert_eq!(recovery.fault_height, Some(BlockHeight::from(4_148_826)));

    let recovered = state.settle_recovery(Some(BlockHeight::from(4_148_820)));
    assert!(recovered.is_none());
    assert!(state.recovery.is_some());
}

#[test]
fn recovery_without_a_fault_height_clears_on_any_completed_sync() {
    let mut state = DriverState {
        recovery: Some(RecoveryState::entering(SyncRepair::Retry, 0)),
        ..DriverState::default()
    };
    let recovered = state.settle_recovery(Some(BlockHeight::from(1)));
    assert!(recovered.is_some());
    assert!(state.recovery.is_none());
}

#[test]
fn environment_fault_streak_escalates_retry_to_park() {
    let ladder = drive_ladder([SyncRepair::Retry, SyncRepair::Retry], one_strike_policy());
    assert_eq!(ladder, vec![(SyncRepair::Retry, 0), (SyncRepair::Park, 0)]);
    assert!(
        !ladder.iter().any(|(rung, _)| matches!(
            rung,
            SyncRepair::Rewind | SyncRepair::RescanFromBirthday
        )),
        "an environment streak must never reach a state-repair rung"
    );
}

#[test]
fn restartable_streak_gets_the_wider_threshold() {
    let policy = SyncRecoveryPolicy::default()
        .with_escalate_after_faults(1)
        .with_restartable_escalate_after_faults(3);
    let mut recovery = RecoveryState::entering(SyncRepair::Retry, 0);
    for _ in 0..3 {
        let escalation = recovery.fold_fault(SyncRepair::Retry, true, policy);
        assert_eq!(
            escalation, None,
            "a rotation streak below the wider threshold must not escalate"
        );
        recovery.attempts_at_rung = recovery.attempts_at_rung.saturating_add(1);
    }
    let escalation = recovery.fold_fault(SyncRepair::Retry, true, policy);
    assert_eq!(
        escalation,
        Some((SyncRepair::Retry, SyncRepair::Park)),
        "the streak must still escalate once it reaches the wider threshold"
    );
}

#[test]
fn a_single_non_restartable_fault_reverts_to_the_strict_threshold() {
    let policy = SyncRecoveryPolicy::default()
        .with_escalate_after_faults(1)
        .with_restartable_escalate_after_faults(10);
    let mut recovery = RecoveryState::entering(SyncRepair::Retry, 0);
    let escalation = recovery.fold_fault(SyncRepair::Retry, true, policy);
    assert_eq!(escalation, None);
    recovery.attempts_at_rung = recovery.attempts_at_rung.saturating_add(1);

    let escalation = recovery.fold_fault(SyncRepair::Retry, false, policy);
    assert_eq!(
        escalation,
        Some((SyncRepair::Retry, SyncRepair::Park)),
        "a genuine retryable fault must not inherit the rotation streak's leniency"
    );
}

#[test]
fn escalate_from_retry_parks_unless_a_state_fault_was_seen() {
    let mut environment = RecoveryState::entering(SyncRepair::Retry, 0);
    escalate(&mut environment);
    assert_eq!(environment.rung, SyncRepair::Park);

    let mut with_state_fault = RecoveryState::entering(SyncRepair::Retry, 0);
    with_state_fault.max_classified = SyncRepair::Rewind;
    escalate(&mut with_state_fault);
    assert_eq!(with_state_fault.rung, SyncRepair::Rewind);
    assert_eq!(with_state_fault.rewind_depth_index, 0);
}

#[test]
fn state_fault_streak_walks_rewind_then_rescan_to_park() {
    let ladder = drive_ladder([SyncRepair::Rewind; 5], one_strike_policy());
    assert_eq!(ladder[0].0, SyncRepair::Rewind);
    assert_eq!(rewind_depth(ladder[0].1), 10);
    assert_eq!(ladder[1].0, SyncRepair::Rewind);
    assert_eq!(rewind_depth(ladder[1].1), 100);
    assert!(ladder
        .iter()
        .any(|(rung, _)| *rung == SyncRepair::RescanFromBirthday));
    assert_eq!(ladder.last().map(|(rung, _)| *rung), Some(SyncRepair::Park));
}

#[test]
fn mixed_streak_permits_rewind() {
    let ladder = drive_ladder(
        [
            SyncRepair::Retry,
            SyncRepair::Rewind,
            SyncRepair::Rewind,
            SyncRepair::Rewind,
            SyncRepair::Rewind,
            SyncRepair::Rewind,
        ],
        one_strike_policy(),
    );
    assert_eq!(ladder[0].0, SyncRepair::Retry);
    assert!(
        ladder.iter().any(|(rung, _)| *rung == SyncRepair::Rewind),
        "a corruption fault in the streak must permit the rewind rung"
    );
    assert_eq!(ladder.last().map(|(rung, _)| *rung), Some(SyncRepair::Park));
}

fn caught_up_outcome(at_height: u32) -> SyncOutcome {
    SyncOutcome {
        scanned_from_height: BlockHeight::from(at_height),
        scanned_to_height: BlockHeight::from(at_height),
        block_count: 0,
        completed_at_ms: 1,
    }
}

#[test]
fn an_unreadable_frontier_is_never_progress() {
    assert_eq!(
        height_delta(
            ScanFrontier::Unknown,
            ScanFrontier::At(BlockHeight::from(4_202_991))
        ),
        0
    );
    assert_eq!(
        height_delta(
            ScanFrontier::At(BlockHeight::from(4_202_991)),
            ScanFrontier::Unknown
        ),
        0
    );
    assert_eq!(
        height_delta(
            ScanFrontier::Empty,
            ScanFrontier::At(BlockHeight::from(4_202_991))
        ),
        4_202_991,
        "a wallet that had committed nothing did commit this chunk"
    );
    assert_eq!(
        height_delta(
            ScanFrontier::At(BlockHeight::from(10)),
            ScanFrontier::At(BlockHeight::from(15))
        ),
        5
    );
}

#[test]
fn an_unchecked_chunk_publishes_no_observation() {
    let mut state = DriverState::default();
    state.observe_committed_chunk(
        CommittedChunk::Unchecked,
        ScanFrontier::At(BlockHeight::from(50)),
        0,
    );
    assert_eq!(state.last_observation, None);

    state.observe_committed_chunk(
        CommittedChunk::Checked,
        ScanFrontier::At(BlockHeight::from(50)),
        0,
    );
    assert_eq!(
        state.last_observation.map(|o| o.scanned_to_height),
        Some(BlockHeight::from(50))
    );
}

#[test]
fn a_caught_up_run_re_dates_only_a_checked_height() {
    let mut state = DriverState::default();
    state.observe_completed_run(caught_up_outcome(50));
    assert_eq!(
        state.last_observation, None,
        "nothing has compared the state this run reports as caught up"
    );

    state.observe_committed_chunk(
        CommittedChunk::Checked,
        ScanFrontier::At(BlockHeight::from(50)),
        0,
    );
    state.observe_completed_run(caught_up_outcome(50));
    assert_eq!(
        state.last_observation.map(|o| o.observed_at_ms),
        Some(1),
        "the caught-up run re-dates a height the wallet has checked"
    );
}

#[test]
fn an_unverified_chunk_classifies_on_what_stopped_its_comparison() {
    let error = WalletError::UnverifiedScanChunk {
        scanned_to: BlockHeight::from(50),
        source: Box::new(WalletError::ChainSource(
            ChainSourceError::epoch_pin_unavailable(),
        )),
    };
    assert_eq!(repair_for(&error), SyncRepair::Retry);
    assert_eq!(committed_chunk_for(&error), CommittedChunk::Unchecked);

    let diverged = WalletError::TreeRootsDiverged {
        height: BlockHeight::from(50),
    };
    assert_eq!(repair_for(&diverged), SyncRepair::Rewind);
    assert_eq!(committed_chunk_for(&diverged), CommittedChunk::Checked);
}
