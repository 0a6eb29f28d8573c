use zally_wallet::boundary_error::{
    ChainEventCursorRecovery, ChainSourceError, ChainSourceErrorKind, FailurePosture,
};
use zally_wallet::circuit_breaker::CircuitBreakerState;
use zally_wallet::domain::{BlockHeight, Network};
use zally_wallet::error::WalletError;
use zally_wallet::status::{RecordedHeights, SyncStatus, WalletStatus};
use zally_wallet::sync::classify::{ClassifiedFault, SyncRunAttempt};
use zally_wallet::sync::driver::{
    close_result, closing_publications, join_driver_task, ChainEventCursor, ChainEventDelivery,
    ChainEventStreamStart, DriverLoop, DriverTurn, SyncDriver, TaskEnd,
};
use zally_wallet::sync::driver_state::{DriverState, StreamReprobe};
use zally_wallet::sync::frontier::{ChainTipRecord, CommittedChunk, SyncOutcome};
use zally_wallet::sync::ladder::{backoff_for, SyncRepair};
use zally_wallet::sync::options::{SyncDriverOptions, SyncRecoveryPolicy};
use zally_wallet::sync::report::{
    republished, snapshot_for, transition_event, DriverTransition, EventLevel, Publication,
    SnapshotBasis, SyncDriverPhase, SyncFault, SyncObservation, SyncSnapshot,
};
use zally_wallet::sync::wakeup::{
    SyncWakeup, SyncWakeupExit, WakeupEvent, WakeupRequest, WakeupStep,
};

fn height(value: u32) -> BlockHeight {
    BlockHeight::from(value)
}

fn status_at(scanned: Option<u32>, tip: u32) -> WalletStatus {
    WalletStatus::from_heights(
        Network::Testnet,
        RecordedHeights {
            scanned_height: scanned.map(height),
            chain_tip_height: Some(height(tip)),
            settled_tip_height: Some(height(tip - 10)),
        },
        0,
        CircuitBreakerState::Closed {
            consecutive_failures: 0,
        },
    )
}

fn fault(repair: SyncRepair) -> ClassifiedFault {
    ClassifiedFault {
        reason: "the source went away".to_owned(),
        repair,
        restartable: false,
    }
}

fn faulted(repair: SyncRepair, committed: CommittedChunk) -> WakeupEvent {
    WakeupEvent::AttemptEnded(SyncRunAttempt::Faulted {
        fault: fault(repair),
        committed,
    })
}

fn outcome(from: u32, to: u32, block_count: u64) -> SyncOutcome {
    SyncOutcome {
        scanned_from_height: height(from),
        scanned_to_height: height(to),
        block_count,
        completed_at_ms: 77,
    }
}

fn completed(from: u32, to: u32, block_count: u64) -> WakeupEvent {
    WakeupEvent::AttemptEnded(SyncRunAttempt::Completed(outcome(from, to, block_count)))
}

fn phase_of(publication: &Publication) -> SyncDriverPhase {
    match publication {
        Publication::Snapshot { phase, .. } => *phase,
        other => panic!("expected a snapshot, got {other:?}"),
    }
}

fn transition_of(publication: &Publication) -> &DriverTransition {
    match publication {
        Publication::Snapshot {
            transition: Some(transition),
            ..
        }
        | Publication::Republish {
            transition: Some(transition),
        } => transition,
        other => panic!("expected a transition, got {other:?}"),
    }
}

fn step(
    wakeup: SyncWakeup,
    state: &mut DriverState,
    event: WakeupEvent,
    now_ms: u64,
) -> (SyncWakeup, WakeupStep) {
    assert!(wakeup.accepts(&event), "{wakeup:?} does not wait for {event:?}");
    wakeup.step(state, event, now_ms)
}

fn strict_policy() -> SyncRecoveryPolicy {
    SyncRecoveryPolicy::default()
        .with_escalate_after_faults(1)
        .with_restartable_escalate_after_faults(1)
        .with_max_rescan_attempts(1)
        .with_fault_backoff_initial_ms(10)
        .with_fault_backoff_cap_ms(35)
        .with_park_reprobe_ms(Some(500))
}

#[test]
fn options_default_and_normalize() {
    let options = SyncDriverOptions::default();
    assert_eq!(options.poll_interval_ms, 5_000);
    assert_eq!(options.max_sync_iterations_per_wake_count, 1_000);
    assert_eq!(options.sync_timeout_seconds, 120);
    assert_eq!(options.transparent_utxo_refresh_interval_ms, 5_000);
    assert_eq!(options.transparent_utxo_refresh_timeout_seconds, 120);
    assert_eq!(options.recovery, SyncRecoveryPolicy::default());
    assert_eq!(options.recovery.escalate_after_faults, 3);
    assert_eq!(options.recovery.restartable_escalate_after_faults, 10);
    assert_eq!(options.recovery.max_rescan_attempts, 2);
    assert_eq!(options.recovery.fault_backoff_initial_ms, 1_000);
    assert_eq!(options.recovery.fault_backoff_cap_ms, 60_000);
    assert_eq!(options.recovery.park_reprobe_ms, Some(900_000));
    assert_eq!(options.normalized(), options);

    let zeroed = options
        .with_poll_interval_ms(0)
        .with_max_sync_iterations_per_wake_count(0)
        .with_sync_timeout_seconds(0)
        .with_transparent_utxo_refresh_interval_ms(0)
        .with_transparent_utxo_refresh_timeout_seconds(0)
        .with_recovery_policy(
            SyncRecoveryPolicy::default()
                .with_escalate_after_faults(0)
                .with_restartable_escalate_after_faults(0)
                .with_max_rescan_attempts(0)
                .with_fault_backoff_initial_ms(200)
                .with_fault_backoff_cap_ms(7)
                .with_park_reprobe_ms(Some(0)),
        );
    let normal = zeroed.normalized();
    assert_eq!(normal.poll_interval_ms, 1);
    assert_eq!(normal.max_sync_iterations_per_wake_count, 1);
    assert_eq!(normal.sync_timeout_seconds, 1);
    assert_eq!(normal.transparent_utxo_refresh_interval_ms, 1);
    assert_eq!(normal.transparent_utxo_refresh_timeout_seconds, 1);
    assert_eq!(normal.recovery.escalate_after_faults, 1);
    assert_eq!(normal.recovery.restartable_escalate_after_faults, 1);
    assert_eq!(normal.recovery.max_rescan_attempts, 1);
    assert_eq!(normal.recovery.fault_backoff_cap_ms, 200);
    assert_eq!(normal.recovery.park_reprobe_ms, Some(1));
    assert_eq!(normal.normalized(), normal);
}

#[test]
fn a_driver_is_bound_to_one_network() {
    let options = SyncDriverOptions::default().with_poll_interval_ms(0);
    let driver = SyncDriver::new(Network::Testnet, Network::Testnet, options)
        .expect("the networks agree");
    assert_eq!(driver.network(), Network::Testnet);
    assert_eq!(driver.options().poll_interval_ms, 1);
    match SyncDriver::new(Network::Testnet, Network::Mainnet, options) {
        Err(WalletError::NetworkMismatch { storage, requested }) => {
            assert_eq!(storage, Network::Testnet);
            assert_eq!(requested, Network::Mainnet);
        }
        other => panic!("expected a network mismatch, got {other:?}"),
    }
}

#[test]
fn fault_backoff_doubles_up_to_the_cap() {
    let policy = SyncRecoveryPolicy::default();
    assert_eq!(backoff_for(policy, 0), 1_000);
    assert_eq!(backoff_for(policy, 1), 1_000);
    assert_eq!(backoff_for(policy, 2), 2_000);
    assert_eq!(backoff_for(policy, 6), 32_000);
    assert_eq!(backoff_for(policy, 7), 60_000);
    assert_eq!(backoff_for(policy, u32::MAX), 60_000);
    let uncapped = policy
        .with_fault_backoff_initial_ms(3)
        .with_fault_backoff_cap_ms(u64::MAX);
    assert_eq!(backoff_for(uncapped, 33), 3 << 31);
    assert_eq!(backoff_for(uncapped, 400), 3 << 31);
    let huge = uncapped.with_fault_backoff_initial_ms(u64::MAX);
    assert_eq!(backoff_for(huge, 2), u64::MAX);
}

#[test]
fn a_snapshot_survives_a_failed_status_read() {
    let starting = SyncSnapshot::starting(Network::Testnet, 5);
    assert_eq!(starting.phase, SyncDriverPhase::Starting);
    assert_eq!(starting.sync_status, SyncStatus::NotStarted);
    assert_eq!(starting.published_at_ms, 5);

    let observation = SyncObservation {
        scanned_to_height: height(90),
        observed_at_ms: 6,
    };
    let read = snapshot_for(
        &starting,
        SyncDriverPhase::Waiting,
        Some(observation),
        None,
        Some(&status_at(Some(90), 100)),
        7,
    );
    assert_eq!(read.scanned_height, Some(height(90)));
    assert_eq!(read.visible_tip_height, Some(height(100)));
    assert_eq!(read.settled_tip_height, Some(height(90)));
    assert_eq!(read.lag_blocks, Some(10));
    assert_eq!(read.last_observation, Some(observation));

    let unread = snapshot_for(&read, SyncDriverPhase::Syncing, None, None, None, 8);
    assert_eq!(unread.phase, SyncDriverPhase::Syncing);
    assert_eq!(unread.scanned_height, Some(height(90)));
    assert_eq!(unread.last_observation, None);
    assert_eq!(unread.published_at_ms, 8);

    let again = republished(&unread, 9);
    assert_eq!(again.published_at_ms, 9);
    assert_eq!(again.phase, unread.phase);
    assert_eq!(again.scanned_height, unread.scanned_height);
}

#[test]
fn every_transition_has_its_event() {
    let snapshot = snapshot_for(
        &SyncSnapshot::starting(Network::Mainnet, 0),
        SyncDriverPhase::Waiting,
        None,
        None,
        Some(&status_at(Some(42), 50)),
        1,
    );
    let record = SyncFault {
        reason: "broken".to_owned(),
        repair: SyncRepair::Rewind,
        occurred_at_ms: 3,
        consecutive_faults: 4,
    };

    let started = transition_event(&snapshot, &DriverTransition::DriverStarted);
    assert_eq!(started.event, "wallet_sync_driver_started");
    assert_eq!(started.level, EventLevel::Info);
    assert_eq!(started.network, Some(Network::Testnet));

    let fault = transition_event(
        &snapshot,
        &DriverTransition::Fault {
            fault: record.clone(),
        },
    );
    assert_eq!(fault.event, "wallet_sync_fault");
    assert_eq!(fault.level, EventLevel::Warn);
    assert_eq!(fault.reason.as_deref(), Some("broken"));
    assert_eq!(fault.repair, Some("rewind"));
    assert_eq!(fault.consecutive_faults, Some(4));
    assert_eq!(fault.scanned_height, Some(42));

    let slow = transition_event(
        &snapshot,
        &DriverTransition::SlowProgress {
            reason: "slow".to_owned(),
            blocks_advanced: 9,
        },
    );
    assert_eq!(slow.event, "wallet_sync_slow_progress");
    assert_eq!(slow.reason.as_deref(), Some("slow"));
    assert_eq!(slow.blocks_advanced, Some(9));
    assert_eq!(slow.scanned_height, Some(42));

    let repairing = transition_event(
        &snapshot,
        &DriverTransition::RepairStarted {
            repair: SyncRepair::RescanFromBirthday,
            attempt: 2,
            rewind_to_height: None,
            backoff_ms: 30,
        },
    );
    assert_eq!(repairing.event, "wallet_sync_repair_started");
    assert_eq!(repairing.attempt, Some(2));
    assert_eq!(repairing.backoff_ms, Some(30));
    assert_eq!(repairing.rewind_to_height, None);

    let cured = transition_event(
        &snapshot,
        &DriverTransition::RepairSucceeded {
            repair: SyncRepair::Retry,
            total_faults: 6,
            degraded_for_ms: 70,
        },
    );
    assert_eq!(cured.event, "wallet_sync_repair_succeeded");
    assert_eq!(cured.repair, Some("retry"));
    assert_eq!(cured.total_faults, Some(6));
    assert_eq!(cured.degraded_for_ms, Some(70));

    let escalated = transition_event(
        &snapshot,
        &DriverTransition::RepairEscalated {
            from_repair: SyncRepair::Retry,
            to_repair: SyncRepair::Park,
        },
    );
    assert_eq!(escalated.event, "wallet_sync_repair_escalated");
    assert_eq!(escalated.level, EventLevel::Error);
    assert_eq!(escalated.repair, None);
    assert_eq!(escalated.from_repair, Some("retry"));
    assert_eq!(escalated.to_repair, Some("park"));

    let parked = transition_event(
        &snapshot,
        &DriverTransition::Parked {
            fault: None,
            reprobe_at_ms: Some(8),
        },
    );
    assert_eq!(parked.event, "wallet_sync_parked");
    assert_eq!(parked.level, EventLevel::Error);
    assert_eq!(parked.reason.as_deref(), Some(""));
    assert_eq!(parked.reprobe_at_ms, Some(8));

    for (transition, name) in [
        (DriverTransition::ParkReprobe, "wallet_sync_park_reprobe"),
        (DriverTransition::Closing, "wallet_sync_driver_closing"),
        (DriverTransition::Closed, "wallet_sync_driver_closed"),
    ] {
        let event = transition_event(&snapshot, &transition);
        assert_eq!(event.event, name);
        assert_eq!(event.level, EventLevel::Info);
        assert_eq!(event.reason, None);
    }
}

#[test]
fn a_healthy_wakeup_scans_until_a_fresh_tip_leaves_nothing() {
    let mut state = DriverState::default();
    let (wakeup, first) = SyncWakeup::start(SyncDriverOptions::default(), &mut state, 1);
    assert_eq!(first.request, WakeupRequest::ReadStatus);

    let (wakeup, reading) = step(
        wakeup,
        &mut state,
        WakeupEvent::StatusRead(Some(status_at(Some(10), 30))),
        2,
    );
    assert_eq!(
        reading.request,
        WakeupRequest::Attempt {
            record: ChainTipRecord::Stale
        }
    );
    assert_eq!(phase_of(&reading.publications[0]), SyncDriverPhase::Syncing);

    let (wakeup, scanned) = step(wakeup, &mut state, completed(11, 30, 20), 3);
    assert_eq!(scanned.request, WakeupRequest::ReadStatus);
    assert_eq!(phase_of(&scanned.publications[0]), SyncDriverPhase::Syncing);
    let observation = SyncObservation {
        scanned_to_height: height(30),
        observed_at_ms: 77,
    };
    assert_eq!(state.last_observation, Some(observation));

    // The queue drained under the first record: the next attempt keeps it, finds nothing, and
    // so proves nothing about the chain.
    let (wakeup, reading) = step(
        wakeup,
        &mut state,
        WakeupEvent::StatusRead(Some(status_at(Some(30), 30))),
        4,
    );
    assert_eq!(
        reading.request,
        WakeupRequest::Attempt {
            record: ChainTipRecord::Current
        }
    );
    let (wakeup, drained) = step(wakeup, &mut state, completed(30, 30, 0), 5);
    assert_eq!(drained.request, WakeupRequest::ReadStatus);

    let (wakeup, reading) = step(wakeup, &mut state, WakeupEvent::StatusRead(None), 6);
    assert_eq!(
        reading.request,
        WakeupRequest::Attempt {
            record: ChainTipRecord::Stale
        }
    );
    let (wakeup, done) = step(wakeup, &mut state, completed(30, 30, 0), 7);
    assert_eq!(
        done.request,
        WakeupRequest::Exit(SyncWakeupExit::Reconciled)
    );
    assert_eq!(phase_of(&done.publications[0]), SyncDriverPhase::Waiting);
    assert!(!wakeup.accepts(&WakeupEvent::CloseRequested));
}

#[test]
fn a_wakeup_begins_no_more_iterations_than_allowed() {
    let options = SyncDriverOptions::default().with_max_sync_iterations_per_wake_count(1);
    let mut state = DriverState::default();
    let (wakeup, _) = SyncWakeup::start(options, &mut state, 1);
    let (wakeup, _) = step(
        wakeup,
        &mut state,
        WakeupEvent::StatusRead(Some(status_at(None, 900))),
        1,
    );
    let (_, after) = step(wakeup, &mut state, completed(0, 99, 100), 2);
    assert_eq!(after.request, WakeupRequest::Exit(SyncWakeupExit::Pending));
}

#[test]
fn a_close_request_ends_a_wakeup_at_once() {
    let mut state = DriverState::default();
    let (wakeup, _) = SyncWakeup::start(SyncDriverOptions::default(), &mut state, 1);
    let (_, closed) = step(wakeup, &mut state, WakeupEvent::CloseRequested, 2);
    assert!(closed.publications.is_empty());
    assert_eq!(
        closed.request,
        WakeupRequest::Exit(SyncWakeupExit::CloseRequested)
    );
}

#[test]
fn slow_progress_is_excused_and_keeps_the_tip_record() {
    let mut state = DriverState::default();
    let (wakeup, _) = SyncWakeup::start(SyncDriverOptions::default(), &mut state, 1);
    let (wakeup, _) = step(
        wakeup,
        &mut state,
        WakeupEvent::StatusRead(Some(status_at(Some(10), 900))),
        2,
    );
    let (wakeup, measuring) = step(
        wakeup,
        &mut state,
        faulted(SyncRepair::Retry, CommittedChunk::Checked),
        3,
    );
    assert_eq!(measuring.request, WakeupRequest::ReadFrontier);
    let (wakeup, excused) = step(
        wakeup,
        &mut state,
        WakeupEvent::StatusRead(Some(status_at(Some(25), 900))),
        4,
    );
    match transition_of(&excused.publications[0]) {
        DriverTransition::SlowProgress {
            blocks_advanced, ..
        } => assert_eq!(*blocks_advanced, 15),
        other => panic!("expected slow progress, got {other:?}"),
    }
    assert_eq!(excused.request, WakeupRequest::ReadStatus);
    assert_eq!(wakeup.chain_tip, ChainTipRecord::Current);
    assert!(state.recovery.is_none());
    assert!(state.last_fault.is_none());
    assert_eq!(
        state.last_observation,
        Some(SyncObservation {
            scanned_to_height: height(25),
            observed_at_ms: 4,
        })
    );
}

#[test]
fn a_state_fault_rewinds_before_the_next_attempt() {
    let options = SyncDriverOptions::default().with_recovery_policy(strict_policy());
    let mut state = DriverState::default();
    let (wakeup, _) = SyncWakeup::start(options, &mut state, 1);
    let (wakeup, _) = step(
        wakeup,
        &mut state,
        WakeupEvent::StatusRead(Some(status_at(Some(1_000), 1_010))),
        2,
    );
    let (wakeup, _) = step(
        wakeup,
        &mut state,
        faulted(SyncRepair::Rewind, CommittedChunk::Checked),
        3,
    );
    let (wakeup, struck) = step(
        wakeup,
        &mut state,
        WakeupEvent::StatusRead(Some(status_at(Some(1_005), 1_010))),
        4,
    );
    assert_eq!(
        phase_of(&struck.publications[0]),
        SyncDriverPhase::Recovering {
            repair: SyncRepair::Rewind,
            attempt: 1,
            next_attempt_at_ms: 14,
        }
    );
    assert_eq!(struck.request, WakeupRequest::Sleep { backoff_ms: 10 });

    let (wakeup, planning) = step(wakeup, &mut state, WakeupEvent::Slept, 14);
    assert_eq!(planning.request, WakeupRequest::ReadRewindStatus);
    let (wakeup, rewinding) = step(
        wakeup,
        &mut state,
        WakeupEvent::RewindStatusRead(Ok(status_at(Some(1_005), 1_010))),
        15,
    );
    let rewind_to = match rewinding.request {
        WakeupRequest::Rewind { rewind_to } => rewind_to,
        other => panic!("expected a rewind, got {other:?}"),
    };
    match transition_of(&rewinding.publications[0]) {
        DriverTransition::RepairStarted {
            repair: SyncRepair::Rewind,
            attempt: 1,
            rewind_to_height,
            backoff_ms: 10,
        } => assert_eq!(*rewind_to_height, Some(rewind_to)),
        other => panic!("expected a started rewind, got {other:?}"),
    }
    assert!(rewind_to.as_u32() < 1_005);
    assert_eq!(wakeup.chain_tip, ChainTipRecord::Stale);

    let (wakeup, repaired) = step(wakeup, &mut state, WakeupEvent::RepairEnded(Ok(())), 16);
    assert_eq!(repaired.request, WakeupRequest::ReadStatus);
    let (wakeup, _) = step(
        wakeup,
        &mut state,
        WakeupEvent::StatusRead(Some(status_at(Some(rewind_to.as_u32()), 1_010))),
        17,
    );

    // Re-scanning up to the boundary leaves the ladder asleep; one block above it clears it.
    let (wakeup, below) = step(wakeup, &mut state, completed(1_000, 1_005, 5), 18);
    assert_eq!(below.request, WakeupRequest::ReadStatus);
    assert!(state.recovery.as_ref().is_some_and(|kept| kept.dormant));
    let (wakeup, _) = step(
        wakeup,
        &mut state,
        WakeupEvent::StatusRead(Some(status_at(Some(1_005), 1_010))),
        19,
    );
    let (_, above) = step(wakeup, &mut state, completed(1_006, 1_006, 1), 20);
    assert!(state.recovery.is_none());
    match transition_of(&above.publications[0]) {
        DriverTransition::RepairSucceeded {
            repair: SyncRepair::Rewind,
            total_faults: 1,
            degraded_for_ms: 16,
        } => {}
        other => panic!("expected a repair success, got {other:?}"),
    }
}

#[test]
fn a_rewind_of_an_unscanned_wallet_goes_on_without_one() {
    let mut state = DriverState::default();
    let _ = state.record_fault(fault(SyncRepair::Rewind), None, strict_policy(), 1);
    let options = SyncDriverOptions::default().with_recovery_policy(strict_policy());
    let (wakeup, first) = SyncWakeup::start(options, &mut state, 2);
    assert_eq!(first.request, WakeupRequest::Sleep { backoff_ms: 10 });
    let (wakeup, _) = step(wakeup, &mut state, WakeupEvent::Slept, 12);
    let (_, planned) = step(
        wakeup,
        &mut state,
        WakeupEvent::RewindStatusRead(Ok(status_at(None, 100))),
        13,
    );
    assert_eq!(planned.request, WakeupRequest::ReadStatus);
}

#[test]
fn a_failed_repair_is_a_fault_like_any_other() {
    let mut state = DriverState::default();
    let _ = state.record_fault(
        fault(SyncRepair::RescanFromBirthday),
        None,
        strict_policy(),
        1,
    );
    let options = SyncDriverOptions::default().with_recovery_policy(strict_policy());
    let (wakeup, _) = SyncWakeup::start(options, &mut state, 2);
    let (wakeup, rebuilding) = step(wakeup, &mut state, WakeupEvent::Slept, 12);
    assert_eq!(rebuilding.request, WakeupRequest::Rebuild);
    let (_, failed) = step(
        wakeup,
        &mut state,
        WakeupEvent::RepairEnded(Err(fault(SyncRepair::Retry))),
        20,
    );
    // The only allowed rebuild was spent, so the fault escalates and the driver parks.
    assert_eq!(failed.publications.len(), 3);
    match transition_of(&failed.publications[0]) {
        DriverTransition::Fault { fault } => {
            assert_eq!(fault.repair, SyncRepair::Park);
            assert_eq!(fault.consecutive_faults, 2);
            assert_eq!(fault.occurred_at_ms, 20);
        }
        other => panic!("expected a fault, got {other:?}"),
    }
    match transition_of(&failed.publications[1]) {
        DriverTransition::RepairEscalated {
            from_repair: SyncRepair::RescanFromBirthday,
            to_repair: SyncRepair::Park,
        } => {}
        other => panic!("expected an escalation, got {other:?}"),
    }
    assert_eq!(
        phase_of(&failed.publications[2]),
        SyncDriverPhase::Parked {
            since_ms: 20,
            reprobe_at_ms: Some(520),
        }
    );
    assert_eq!(failed.request, WakeupRequest::Exit(SyncWakeupExit::Pending));
    assert!(state.parked().is_some());
}

#[test]
fn a_parked_driver_holds_until_its_reprobe() {
    let mut state = DriverState::default();
    let _ = state.record_fault(fault(SyncRepair::Park), None, strict_policy(), 1);
    let mut driver_loop = DriverLoop::start();
    assert_eq!(driver_loop.turn(&state), DriverTurn::Wake);
    let options = SyncDriverOptions::default().with_recovery_policy(strict_policy());
    let (_, parked) = SyncWakeup::start(options, &mut state, 100);
    assert_eq!(parked.request, WakeupRequest::Exit(SyncWakeupExit::Pending));
    assert!(!driver_loop.wakeup_ended(SyncWakeupExit::Pending));
    assert_eq!(driver_loop.turn(&state), DriverTurn::Wait);

    let early = driver_loop.poll_tick(&mut state, 599);
    assert!(matches!(
        early.publication,
        Some(Publication::Republish { transition: None })
    ));
    assert!(!early.open_stream);
    assert!(state.parked().is_some());
    assert_eq!(driver_loop.turn(&state), DriverTurn::Wait);

    let ignored = driver_loop.chain_event(
        &mut state,
        ChainEventDelivery::Envelope(ChainEventCursor { bytes: vec![1] }),
        strict_policy(),
        599,
    );
    assert!(ignored.is_none());
    assert_eq!(driver_loop.turn(&state), DriverTurn::Wait);

    let due = driver_loop.poll_tick(&mut state, 600);
    match due.publication {
        Some(publication) => {
            assert!(matches!(
                transition_of(&publication),
                DriverTransition::ParkReprobe
            ));
        }
        None => panic!("expected a reprobe"),
    }
    assert!(state.recovery.is_none());
    assert_eq!(driver_loop.turn(&state), DriverTurn::Wake);
}

#[test]
fn a_driver_without_a_reprobe_parks_for_good() {
    let policy = strict_policy().with_park_reprobe_ms(None);
    let mut state = DriverState::default();
    let _ = state.record_fault(fault(SyncRepair::Park), None, policy, 1);
    let publication = state.enter_park(policy, 2);
    assert_eq!(
        phase_of(&publication),
        SyncDriverPhase::Parked {
            since_ms: 2,
            reprobe_at_ms: None,
        }
    );
    let mut driver_loop = DriverLoop::start();
    let tick = driver_loop.poll_tick(&mut state, u64::MAX);
    assert!(matches!(
        tick.publication,
        Some(Publication::Republish { transition: None })
    ));
    assert_eq!(driver_loop.turn(&state), DriverTurn::Wait);
}

#[test]
fn polling_syncs_without_chain_events() {
    let mut state = DriverState::default();
    let mut driver_loop = DriverLoop::start();
    assert!(!driver_loop.wakeup_ended(SyncWakeupExit::Reconciled));
    assert_eq!(driver_loop.turn(&state), DriverTurn::Wait);
    let tick = driver_loop.poll_tick(&mut state, 1);
    assert!(tick.open_stream);
    assert!(tick.publication.is_none());
    assert!(driver_loop.stream_opened(&mut state).is_none());
    driver_loop.end_poll(&mut state);
    assert_eq!(driver_loop.turn(&state), DriverTurn::Wake);

    assert!(!driver_loop.wakeup_ended(SyncWakeupExit::Reconciled));
    let tick = driver_loop.poll_tick(&mut state, 2);
    assert!(!tick.open_stream);
    assert_eq!(driver_loop.turn(&state), DriverTurn::Wake);
    assert!(driver_loop.wakeup_ended(SyncWakeupExit::CloseRequested));
}

fn unavailable() -> ChainSourceError {
    ChainSourceError::unavailable("connection refused".to_owned())
}

#[test]
fn an_interrupted_stream_backs_off_and_is_given_up() {
    let policy = strict_policy().with_escalate_after_faults(2);
    let mut state = DriverState::default();
    let mut driver_loop = DriverLoop::start();
    let first = driver_loop
        .stream_refused(&mut state, &unavailable(), policy, 100)
        .expect("an interruption is published");
    assert_eq!(
        phase_of(&first),
        SyncDriverPhase::Recovering {
            repair: SyncRepair::Retry,
            attempt: 1,
            next_attempt_at_ms: 110,
        }
    );
    let recorded = state.last_fault.clone().expect("the fault is recorded");
    assert_eq!(
        recorded.reason,
        "chain source unavailable: connection refused"
    );
    assert_eq!(recorded.consecutive_faults, 0);
    assert!(state.recovery.is_none());

    let early = driver_loop.poll_tick(&mut state, 109);
    assert!(!early.open_stream);
    assert_eq!(driver_loop.turn(&state), DriverTurn::Wake);
    let retry = driver_loop.poll_tick(&mut state, 110);
    assert!(retry.open_stream);

    let second = driver_loop
        .stream_refused(&mut state, &unavailable(), policy, 110)
        .expect("an interruption is published");
    assert_eq!(
        phase_of(&second),
        SyncDriverPhase::Parked {
            since_ms: 110,
            reprobe_at_ms: Some(610),
        }
    );
    driver_loop.end_poll(&mut state);
    assert_eq!(driver_loop.turn(&state), DriverTurn::Wait);
    assert_eq!(state.stream_reprobe, StreamReprobe::At(610));

    let held = driver_loop.poll_tick(&mut state, 609);
    assert!(!held.open_stream);
    assert!(matches!(
        held.publication,
        Some(Publication::Republish { transition: None })
    ));
    assert_eq!(driver_loop.turn(&state), DriverTurn::Wait);

    let due = driver_loop.poll_tick(&mut state, 610);
    assert!(due.open_stream);
    assert!(due.publication.is_none());
    assert_eq!(state.stream_consecutive_faults, 0);
    assert_eq!(driver_loop.turn(&state), DriverTurn::Wake);
}

#[test]
fn a_stream_given_up_for_good_keeps_republishing() {
    let policy = strict_policy().with_park_reprobe_ms(None);
    let mut state = DriverState::default();
    let mut driver_loop = DriverLoop::start();
    let parked = driver_loop
        .stream_refused(&mut state, &unavailable(), policy, 100)
        .expect("an interruption is published");
    assert_eq!(
        phase_of(&parked),
        SyncDriverPhase::Parked {
            since_ms: 100,
            reprobe_at_ms: None,
        }
    );
    driver_loop.end_poll(&mut state);
    assert_eq!(state.stream_reprobe, StreamReprobe::ParkedWithoutDeadline);
    for now_ms in [101, 10_000, u64::MAX] {
        let held = driver_loop.poll_tick(&mut state, now_ms);
        assert!(!held.open_stream);
        assert!(matches!(
            held.publication,
            Some(Publication::Republish { transition: None })
        ));
        assert_eq!(driver_loop.turn(&state), DriverTurn::Wait);
    }
}

#[test]
fn a_reopened_stream_clears_its_fault() {
    let mut state = DriverState::default();
    let mut driver_loop = DriverLoop::start();
    let failed = driver_loop.chain_event(
        &mut state,
        ChainEventDelivery::Failed(unavailable()),
        SyncRecoveryPolicy::default(),
        50,
    );
    assert!(failed.is_some());
    assert!(!driver_loop.stream_open);
    assert!(state.last_fault.is_some());
    let reopened = driver_loop
        .stream_opened(&mut state)
        .expect("a recovered stream is published");
    assert_eq!(phase_of(&reopened), SyncDriverPhase::Waiting);
    assert!(state.last_fault.is_none());
    assert_eq!(state.stream_consecutive_faults, 0);
    assert!(driver_loop.stream_open);
}

#[test]
fn an_expired_cursor_restarts_at_the_earliest_event() {
    let expired = ChainSourceError {
        kind: ChainSourceErrorKind::ChainEventCursorExpired {
            recovery: ChainEventCursorRecovery::EarliestRetained,
        },
        posture: FailurePosture::Restartable,
    };
    let mut state = DriverState::default();
    let mut driver_loop = DriverLoop::start();
    let event = driver_loop.chain_event(
        &mut state,
        ChainEventDelivery::Envelope(ChainEventCursor { bytes: vec![7] }),
        SyncRecoveryPolicy::default(),
        1,
    );
    assert!(event.is_none());
    match &driver_loop.stream_start {
        ChainEventStreamStart::AfterCursor(cursor) => assert_eq!(cursor.bytes, vec![7]),
        other => panic!("expected a cursor, got {other:?}"),
    }
    let refused = driver_loop.stream_refused(
        &mut state,
        &expired,
        SyncRecoveryPolicy::default(),
        2,
    );
    assert!(refused.is_none());
    assert!(state.cursor_recovery_pending);
    assert!(matches!(
        driver_loop.stream_start,
        ChainEventStreamStart::EarliestRetained
    ));
    driver_loop.end_poll(&mut state);
    assert!(!state.cursor_recovery_pending);
    assert_eq!(driver_loop.turn(&state), DriverTurn::Wake);

    let ended = driver_loop.chain_event(
        &mut state,
        ChainEventDelivery::Ended,
        SyncRecoveryPolicy::default(),
        3,
    );
    assert!(ended.is_none());
    assert!(!driver_loop.stream_open);
}

#[test]
fn closing_is_announced_and_only_a_panic_fails_it() {
    let publications = closing_publications(&DriverState::default());
    assert_eq!(publications.len(), 2);
    assert_eq!(phase_of(&publications[0]), SyncDriverPhase::Closing);
    assert_eq!(phase_of(&publications[1]), SyncDriverPhase::Closed);
    match &publications[0] {
        Publication::Snapshot { basis, .. } => assert_eq!(*basis, SnapshotBasis::FreshRead),
        other => panic!("expected a snapshot, got {other:?}"),
    }
    assert!(join_driver_task(TaskEnd::Finished).is_ok());
    assert!(join_driver_task(TaskEnd::Cancelled).is_ok());
    let panicked = |reason: &str| TaskEnd::Panicked {
        reason: reason.to_owned(),
    };
    match close_result(panicked("sync"), panicked("refresh")) {
        Err(WalletError::SyncDriverFailed { reason }) => assert_eq!(reason, "sync"),
        other => panic!("expected a failed driver, got {other:?}"),
    }
    match close_result(TaskEnd::Finished, panicked("refresh")) {
        Err(WalletError::SyncDriverFailed { reason }) => assert_eq!(reason, "refresh"),
        other => panic!("expected a failed driver, got {other:?}"),
    }
    assert!(close_result(TaskEnd::Finished, TaskEnd::Cancelled).is_ok());
}

#[test]
fn an_attempt_past_its_deadline_is_an_unchecked_retry() {
    let options = SyncDriverOptions::default().with_sync_timeout_seconds(45);
    match SyncRunAttempt::timed_out(&options) {
        SyncRunAttempt::Faulted { fault, committed } => {
            assert_eq!(fault.reason, "sync exceeded 45 seconds");
            assert_eq!(fault.repair, SyncRepair::Retry);
            assert!(!fault.restartable);
            assert_eq!(committed, CommittedChunk::Unchecked);
        }
        other => panic!("expected a fault, got {other:?}"),
    }
}
