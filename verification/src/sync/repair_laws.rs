//! What the sync driver's repairs do to the wallet, rung by rung and step by step.

use crate::domain::BlockHeight;
use crate::status::WalletStatus;
use crate::sync::classify::{ClassifiedFault, SyncRunAttempt};
use crate::sync::driver_state::DriverState;
use crate::sync::frontier::{ChainTipRecord, CommittedChunk, ScanFrontier, SyncOutcome};
use crate::sync::ladder::{RecoveryState, SyncRepair};
use crate::sync::options::SyncDriverOptions;
use crate::sync::report::{DriverTransition, Publication, SnapshotBasis, SyncDriverPhase};
use crate::sync::wakeup::{SyncWakeup, SyncWakeupExit, WakeupEvent, WakeupRequest, WakeupStage};
use vstd::prelude::*;

verus! {

/// A rewind asks for exactly the height its depth lies below what was scanned, and for the
/// first block where the chain is not that long. The announcement names the same height.
pub proof fn a_rewind_drops_exactly_its_depth(
    wakeup: SyncWakeup,
    state: DriverState,
    status: WalletStatus,
    scanned: BlockHeight,
    attempt: u32,
    backoff_ms: u64,
    depth_blocks: u32,
    now_ms: u64,
)
    requires
        wakeup.stage == (WakeupStage::PlanningRewind { attempt, backoff_ms, depth_blocks }),
        status.scanned_height == Some(scanned),
    ensures
        ({
            let after = wakeup.moved(state, WakeupEvent::RewindStatusRead(Ok(status)), now_ms);
            &&& after.3 matches WakeupRequest::Rewind { rewind_to }
            &&& scanned.0 >= depth_blocks ==> rewind_to.0 + depth_blocks == scanned.0
            &&& scanned.0 < depth_blocks ==> rewind_to.0 == 0
            &&& after.0.stage is Repairing
            &&& after.1 == state
            &&& after.2.len() == 1
            &&& after.2[0] matches Publication::Snapshot { phase, basis, transition, .. }
            &&& phase == (SyncDriverPhase::Recovering {
                repair: SyncRepair::Rewind,
                attempt,
                next_attempt_at_ms: now_ms,
            })
            &&& basis == SnapshotBasis::Known(Some(status))
            &&& transition == Some(
                DriverTransition::RepairStarted {
                    repair: SyncRepair::Rewind,
                    attempt,
                    rewind_to_height: Some(rewind_to),
                    backoff_ms,
                },
            )
        }),
{
}

/// A wallet that has scanned nothing has nothing to rewind: it goes on to the attempt.
pub proof fn an_empty_wallet_is_not_rewound(
    wakeup: SyncWakeup,
    state: DriverState,
    status: WalletStatus,
    now_ms: u64,
)
    requires
        wakeup.stage is PlanningRewind,
        status.scanned_height is None,
    ensures
        ({
            let after = wakeup.moved(state, WakeupEvent::RewindStatusRead(Ok(status)), now_ms);
            &&& after.3 is ReadStatus
            &&& after.0.stage is BeforeAttempt
            &&& after.1 == state
        }),
{
}

/// The rewind rung walks two depths: ten blocks at the first, a hundred at the second. From the
/// end of the backoff to the request, the wallet loses that many blocks and no others.
pub proof fn the_ladder_rewinds_ten_blocks_and_then_a_hundred(
    wakeup: SyncWakeup,
    state: DriverState,
    recovery: RecoveryState,
    status: WalletStatus,
    scanned: BlockHeight,
    slept_ms: u64,
    read_ms: u64,
)
    requires
        wakeup.stage is Backoff,
        state.recovery == Some(recovery),
        recovery.rung is Rewind,
        recovery.rewind_depth_index < 2,
        status.scanned_height == Some(scanned),
    ensures
        ({
            let planning = wakeup.moved(state, WakeupEvent::Slept, slept_ms);
            let rewinding = planning.0.moved(
                planning.1,
                WakeupEvent::RewindStatusRead(Ok(status)),
                read_ms,
            );
            let depth: int = if recovery.rewind_depth_index == 0 {
                10
            } else {
                100
            };
            &&& planning.3 is ReadRewindStatus
            &&& planning.0.stage is PlanningRewind
            &&& rewinding.3 matches WakeupRequest::Rewind { rewind_to }
            &&& scanned.0 >= depth ==> rewind_to.0 + depth == scanned.0
            &&& scanned.0 < depth ==> rewind_to.0 == 0
        }),
{
}

/// After the backoff, the repair of the rung the recovery stands on begins, and no other: a
/// retry attempts again, a rewind is planned, a rebuild is asked for. The repair is counted at
/// its rung, and nothing else of the state changes.
pub proof fn each_rung_begins_its_own_repair(
    wakeup: SyncWakeup,
    state: DriverState,
    recovery: RecoveryState,
    now_ms: u64,
)
    requires
        wakeup.stage is Backoff,
        state.recovery == Some(recovery),
    ensures
        ({
            let after = wakeup.moved(state, WakeupEvent::Slept, now_ms);
            let attempt: u32 = if recovery.attempts_at_rung == u32::MAX {
                u32::MAX
            } else {
                (recovery.attempts_at_rung + 1) as u32
            };
            &&& match recovery.rung {
                SyncRepair::Retry => after.3 is ReadStatus && after.0.stage is BeforeAttempt,
                SyncRepair::Rewind => after.3 is ReadRewindStatus && after.0.stage
                    is PlanningRewind,
                SyncRepair::RescanFromBirthday => after.3 is Rebuild && after.0.stage is Repairing,
                SyncRepair::Park => after.3 is ReadStatus && after.0.stage is BeforeAttempt,
            }
            &&& after.0.chain_tip is Stale
            &&& after.0.iterations_left == wakeup.iterations_left
            &&& after.0.options == wakeup.options
            &&& after.1 == (DriverState {
                recovery: Some(RecoveryState { attempts_at_rung: attempt, ..recovery }),
                ..state
            })
            &&& recovery.rung is Rewind ==> after.2.len() == 0
            &&& !(recovery.rung is Rewind) ==> {
                &&& after.2.len() == 1
                &&& after.2[0] matches Publication::Snapshot { phase, transition, .. }
                &&& phase == (SyncDriverPhase::Recovering {
                    repair: recovery.rung,
                    attempt,
                    next_attempt_at_ms: now_ms,
                })
                &&& transition == Some(
                    DriverTransition::RepairStarted {
                        repair: recovery.rung,
                        attempt,
                        rewind_to_height: None,
                        backoff_ms: recovery.backoff_ms,
                    },
                )
            }
        }),
{
}

/// Before every iteration a live recovery waits out exactly its own backoff, parks where its
/// rung is the last, and holds nothing up where it is asleep; a healthy driver goes straight to
/// the attempt.
pub proof fn a_live_recovery_waits_out_its_backoff(
    options: SyncDriverOptions,
    chain_tip: ChainTipRecord,
    iterations_left: u32,
    state: DriverState,
    now_ms: u64,
)
    requires
        iterations_left > 0,
    ensures
        ({
            let after = SyncWakeup::next_iteration_spec(
                options,
                chain_tip,
                iterations_left,
                state,
                now_ms,
            );
            &&& after.0.options == options
            &&& after.0.chain_tip == chain_tip
            &&& after.0.iterations_left + 1 == iterations_left
            &&& match state.recovery {
                Some(recovery) => {
                    &&& recovery.dormant ==> after.3 is ReadStatus && after.1 == state
                        && after.2.len() == 0 && after.0.stage is BeforeAttempt
                    &&& !recovery.dormant && !(recovery.rung is Park) ==> after.3 == (
                    WakeupRequest::Sleep { backoff_ms: recovery.backoff_ms }) && after.1 == state
                        && after.2.len() == 0 && after.0.stage is Backoff
                    &&& !recovery.dormant && recovery.rung is Park ==> {
                        &&& after.3 == WakeupRequest::Exit(SyncWakeupExit::Pending)
                        &&& after.0.stage is Finished
                        &&& after.1.recovery matches Some(parked)
                        &&& parked.parked matches Some(at)
                        &&& at.since_ms == now_ms
                        &&& match options.recovery.park_reprobe_ms {
                            Some(hold_ms) => at.reprobe_at_ms == Some(
                                if now_ms + hold_ms <= u64::MAX {
                                    (now_ms + hold_ms) as u64
                                } else {
                                    u64::MAX
                                },
                            ),
                            None => at.reprobe_at_ms is None,
                        }
                        &&& after.1 == (DriverState {
                            recovery: Some(RecoveryState { parked: Some(at), ..recovery }),
                            ..state
                        })
                        &&& after.2.len() == 1
                        &&& after.2[0] matches Publication::Snapshot { phase, transition, .. }
                        &&& phase == (SyncDriverPhase::Parked {
                            since_ms: now_ms,
                            reprobe_at_ms: at.reprobe_at_ms,
                        })
                        &&& transition == Some(
                            DriverTransition::Parked {
                                fault: state.last_fault,
                                reprobe_at_ms: at.reprobe_at_ms,
                            },
                        )
                    }
                },
                None => after.3 is ReadStatus && after.1 == state && after.2.len() == 0
                    && after.0.stage is BeforeAttempt,
            }
        }),
{
}

/// A wakeup out of iterations ends with work pending and leaves the state as it is.
pub proof fn a_spent_wakeup_ends_pending(
    options: SyncDriverOptions,
    chain_tip: ChainTipRecord,
    state: DriverState,
    now_ms: u64,
)
    ensures
        ({
            let after = SyncWakeup::next_iteration_spec(options, chain_tip, 0, state, now_ms);
            &&& after.3 == WakeupRequest::Exit(SyncWakeupExit::Pending)
            &&& after.0.stage is Finished
            &&& after.1 == state
            &&& after.2.len() == 0
        }),
{
}

/// A close request ends the wakeup at once, wherever it may come, and changes nothing else.
pub proof fn a_close_request_ends_the_wakeup(wakeup: SyncWakeup, state: DriverState, now_ms: u64)
    ensures
        wakeup.stage is Backoff || wakeup.stage is BeforeAttempt || wakeup.stage is Attempting
            ==> wakeup.expects(WakeupEvent::CloseRequested),
        ({
            let after = wakeup.moved(state, WakeupEvent::CloseRequested, now_ms);
            &&& after.3 == WakeupRequest::Exit(SyncWakeupExit::CloseRequested)
            &&& after.0.stage is Finished
            &&& after.1 == state
            &&& after.2.len() == 0
        }),
{
}

/// A wakeup takes in what it asked for: at every stage the answer to its request is expected.
pub proof fn every_request_can_be_answered(
    wakeup: SyncWakeup,
    status: Option<WalletStatus>,
    planned: Result<WalletStatus, ClassifiedFault>,
    repaired: Result<(), ClassifiedFault>,
    attempt: SyncRunAttempt,
)
    ensures
        wakeup.expects(WakeupEvent::Slept) <==> wakeup.stage is Backoff,
        wakeup.expects(WakeupEvent::StatusRead(status)) <==> wakeup.stage is BeforeAttempt
            || wakeup.stage is AfterFault,
        wakeup.expects(WakeupEvent::RewindStatusRead(planned)) <==> wakeup.stage
            is PlanningRewind,
        wakeup.expects(WakeupEvent::RepairEnded(repaired)) <==> wakeup.stage is Repairing,
        wakeup.expects(WakeupEvent::AttemptEnded(attempt)) <==> wakeup.stage is Attempting,
{
}

/// A repair that worked leads to the attempt it was made for.
pub proof fn a_finished_repair_leads_to_the_attempt(
    wakeup: SyncWakeup,
    state: DriverState,
    status: Option<WalletStatus>,
    repaired_ms: u64,
    read_ms: u64,
)
    requires
        wakeup.stage is Repairing,
    ensures
        ({
            let repaired = wakeup.moved(state, WakeupEvent::RepairEnded(Ok(())), repaired_ms);
            let attempting = repaired.0.moved(
                repaired.1,
                WakeupEvent::StatusRead(status),
                read_ms,
            );
            &&& repaired.3 is ReadStatus
            &&& repaired.1 == state
            &&& repaired.2.len() == 0
            &&& attempting.3 == (WakeupRequest::Attempt { record: wakeup.chain_tip })
            &&& attempting.1 == state
        }),
{
}

/// The attempt is asked for under the record the wakeup holds, starts from the frontier that
/// the status shows, and is announced as syncing.
pub proof fn an_attempt_starts_from_the_read_frontier(
    wakeup: SyncWakeup,
    state: DriverState,
    status: Option<WalletStatus>,
    now_ms: u64,
)
    requires
        wakeup.stage is BeforeAttempt,
    ensures
        ({
            let after = wakeup.moved(state, WakeupEvent::StatusRead(status), now_ms);
            &&& after.3 == (WakeupRequest::Attempt { record: wakeup.chain_tip })
            &&& after.0.chain_tip == wakeup.chain_tip
            &&& after.0.iterations_left == wakeup.iterations_left
            &&& after.0.stage matches WakeupStage::Attempting { frontier_before }
            &&& status is None ==> frontier_before is Unknown
            &&& status matches Some(read) ==> match read.scanned_height {
                Some(height) => frontier_before == ScanFrontier::At(height),
                None => frontier_before is Empty,
            }
            &&& after.1 == state
            &&& after.2.len() == 1
            &&& after.2[0] matches Publication::Snapshot { phase, basis, transition, .. }
            &&& phase is Syncing
            &&& basis == SnapshotBasis::Known(status)
            &&& transition is None
        }),
{
}

/// A completed attempt that scanned blocks is followed by another that scans on under the same
/// record. One that scanned none reconciles the wakeup exactly if it recorded the tip itself,
/// and is followed by one that records it otherwise. Either way the last fault is forgotten.
pub proof fn a_completed_attempt_goes_on_or_reconciles(
    wakeup: SyncWakeup,
    state: DriverState,
    outcome: SyncOutcome,
    now_ms: u64,
)
    requires
        wakeup.stage is Attempting,
    ensures
        ({
            let after = wakeup.moved(
                state,
                WakeupEvent::AttemptEnded(SyncRunAttempt::Completed(outcome)),
                now_ms,
            );
            let caught_up = outcome.block_count == 0 && wakeup.chain_tip is Stale;
            &&& caught_up ==> after.3 == WakeupRequest::Exit(SyncWakeupExit::Reconciled)
            &&& !caught_up && wakeup.iterations_left > 0 ==> after.3 is ReadStatus
                && after.0.iterations_left + 1 == wakeup.iterations_left
            &&& !caught_up && wakeup.iterations_left == 0 ==> after.3 == WakeupRequest::Exit(
                SyncWakeupExit::Pending,
            )
            &&& after.0.chain_tip is Current <==> outcome.block_count > 0
            &&& after.1.last_fault is None
            &&& after.2.len() == 1
            &&& after.2[0] matches Publication::Snapshot { phase, last_fault, .. }
            &&& phase == if caught_up {
                SyncDriverPhase::Waiting
            } else {
                SyncDriverPhase::Syncing
            }
            &&& last_fault is None
        }),
{
}

/// A faulted attempt keeps its fault and its frontier until its progress was measured.
pub proof fn a_faulted_attempt_is_measured_first(
    wakeup: SyncWakeup,
    state: DriverState,
    before: ScanFrontier,
    struck: ClassifiedFault,
    chunk: CommittedChunk,
    now_ms: u64,
)
    requires
        wakeup.stage == (WakeupStage::Attempting { frontier_before: before }),
    ensures
        ({
            let after = wakeup.moved(
                state,
                WakeupEvent::AttemptEnded(
                    SyncRunAttempt::Faulted { fault: struck, committed: chunk },
                ),
                now_ms,
            );
            &&& after.3 is ReadFrontier
            &&& after.0.stage == (WakeupStage::AfterFault {
                frontier_before: before,
                fault: struck,
                committed: chunk,
            })
            &&& after.0.chain_tip == wakeup.chain_tip
            &&& after.1 == state
            &&& after.2.len() == 0
        }),
{
}

/// An environment fault is excused exactly if the attempt moved the wallet from a height that
/// was read to a higher one: the driver shows no fault, waits for nothing, and scans on. Every
/// other fault is recorded.
pub proof fn only_progress_excuses_an_environment_fault(
    wakeup: SyncWakeup,
    state: DriverState,
    before: BlockHeight,
    struck: ClassifiedFault,
    chunk: CommittedChunk,
    status: WalletStatus,
    reached: BlockHeight,
    now_ms: u64,
)
    requires
        wakeup.stage == (WakeupStage::AfterFault {
            frontier_before: ScanFrontier::At(before),
            fault: struck,
            committed: chunk,
        }),
        wakeup.iterations_left > 0,
        status.scanned_height == Some(reached),
    ensures
        ({
            let after = wakeup.moved(state, WakeupEvent::StatusRead(Some(status)), now_ms);
            let excused = struck.repair is Retry && reached.0 > before.0;
            &&& excused ==> {
                &&& after.1.last_fault is None
                &&& after.3 is ReadStatus
                &&& after.1.recovery matches Some(kept) ==> kept.dormant
                &&& after.2.len() == 1
                &&& after.2[0] matches Publication::Snapshot { phase, transition, .. }
                &&& phase is Syncing
                &&& transition == Some(
                    DriverTransition::SlowProgress {
                        reason: struck.reason,
                        blocks_advanced: (reached.0 - before.0) as u32,
                    },
                )
            }
            &&& !excused ==> {
                &&& after.1.last_fault matches Some(recorded)
                &&& recorded.reason == struck.reason
                &&& recorded.occurred_at_ms == now_ms
            }
            &&& after.0.chain_tip == if reached.0 > before.0 {
                ChainTipRecord::Current
            } else {
                wakeup.chain_tip
            }
        }),
{
}

/// A repair that fails is a fault like any other: it is recorded with its reason and counted
/// once, and the wakeup goes on to its next iteration.
pub proof fn a_failed_repair_strikes_the_ladder(
    wakeup: SyncWakeup,
    state: DriverState,
    struck: ClassifiedFault,
    now_ms: u64,
)
    requires
        wakeup.stage is Repairing || wakeup.stage is PlanningRewind,
        wakeup.iterations_left > 0,
    ensures
        ({
            let event = if wakeup.stage is Repairing {
                WakeupEvent::RepairEnded(Err(struck))
            } else {
                WakeupEvent::RewindStatusRead(Err(struck))
            };
            let after = wakeup.moved(state, event, now_ms);
            let faults_before: int = match state.recovery {
                Some(recovery) => recovery.consecutive_faults as int,
                None => 0,
            };
            &&& after.1.recovery matches Some(recovery)
            &&& faults_before < u32::MAX ==> recovery.consecutive_faults == faults_before + 1
            &&& !recovery.dormant
            &&& after.1.last_fault matches Some(recorded)
            &&& recorded.reason == struck.reason
            &&& recorded.repair == recovery.rung
            &&& recorded.occurred_at_ms == now_ms
            &&& recorded.consecutive_faults == recovery.consecutive_faults
            &&& after.3 matches WakeupRequest::Sleep { backoff_ms } ==> backoff_ms
                == recovery.backoff_ms
            &&& after.3 is Sleep <==> !(recovery.rung is Park)
            &&& after.3 is Exit <==> recovery.rung is Park
            &&& after.2.len() > 0
            &&& after.2[0] matches Publication::Snapshot { transition, .. }
            &&& transition == Some(DriverTransition::Fault { fault: recorded })
        }),
{
}

} // verus!
