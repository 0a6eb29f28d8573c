//! What the sync driver remembers, publishes, and does between two wakeups.

use crate::domain::BlockHeight;
use crate::error::WalletError;
use crate::status::WalletStatus;
use crate::sync::classify::ClassifiedFault;
use crate::sync::driver::{DriverLoop, TaskEnd};
use crate::sync::driver_state::{DriverState, StreamReprobe};
use crate::sync::frontier::{ChainTipRecord, CommittedChunk, ScanFrontier, SyncOutcome};
use crate::sync::ladder::{ParkedAt, RecoveryState, SyncRepair};
use crate::sync::options::SyncRecoveryPolicy;
use crate::sync::report::{
    DriverTransition, Publication, SnapshotBasis, SyncDriverPhase, SyncFault, SyncObservation,
    SyncSnapshot,
};
use vstd::prelude::*;

verus! {

/// A publication carries what the driver's state holds: its observation and its fault, with the
/// phase, the basis, and the transition it is made for.
pub proof fn a_publication_carries_the_state(
    state: DriverState,
    phase: SyncDriverPhase,
    basis: SnapshotBasis,
    transition: Option<DriverTransition>,
)
    ensures
        state.publication_spec(phase, basis, transition) == (Publication::Snapshot {
            phase,
            basis,
            last_observation: state.last_observation,
            last_fault: state.last_fault,
            transition,
        }),
{
}

/// A snapshot of a status read shows that read: the heights, lag, and network are the status's,
/// the phase, observation, and fault the driver's, and the time is now.
pub proof fn a_snapshot_shows_the_status_read(
    last_published: SyncSnapshot,
    phase: SyncDriverPhase,
    last_observation: Option<SyncObservation>,
    last_fault: Option<SyncFault>,
    status: WalletStatus,
    now_ms: u64,
)
    ensures
        ({
            let snapshot = crate::sync::report::snapshot_spec(
                last_published,
                phase,
                last_observation,
                last_fault,
                Some(status),
                now_ms,
            );
            &&& snapshot.network == status.network
            &&& snapshot.phase == phase
            &&& snapshot.sync_status == status.sync_status
            &&& snapshot.scanned_height == status.scanned_height
            &&& snapshot.visible_tip_height == status.chain_tip_height
            &&& snapshot.settled_tip_height == status.settled_tip_height
            &&& snapshot.lag_blocks == status.lag_blocks
            &&& snapshot.last_observation == last_observation
            &&& snapshot.last_fault == last_fault
            &&& snapshot.published_at_ms == now_ms
        }),
{
}

/// Where the status could not be read, a snapshot keeps the heights published last and still
/// shows the new phase, observation, fault, and time.
pub proof fn a_failed_status_read_keeps_the_published_heights(
    last_published: SyncSnapshot,
    phase: SyncDriverPhase,
    last_observation: Option<SyncObservation>,
    last_fault: Option<SyncFault>,
    now_ms: u64,
)
    ensures
        ({
            let snapshot = crate::sync::report::snapshot_spec(
                last_published,
                phase,
                last_observation,
                last_fault,
                None,
                now_ms,
            );
            &&& snapshot.network == last_published.network
            &&& snapshot.phase == phase
            &&& snapshot.sync_status == last_published.sync_status
            &&& snapshot.scanned_height == last_published.scanned_height
            &&& snapshot.visible_tip_height == last_published.visible_tip_height
            &&& snapshot.settled_tip_height == last_published.settled_tip_height
            &&& snapshot.lag_blocks == last_published.lag_blocks
            &&& snapshot.last_observation == last_observation
            &&& snapshot.last_fault == last_fault
            &&& snapshot.published_at_ms == now_ms
        }),
{
}

/// A transition's event carries what the transition holds: the fault's or the progress's own
/// reason, the rung applied, and the two rungs of an escalation, from the lower to the higher.
pub proof fn an_event_carries_its_transition(
    struck: SyncFault,
    reason: String,
    repair: SyncRepair,
    next_repair: SyncRepair,
    count: u32,
    height: Option<BlockHeight>,
    at_ms: u64,
)
    ensures
        ({
            let fault = DriverTransition::Fault { fault: struck };
            let slow = DriverTransition::SlowProgress { reason, blocks_advanced: count };
            let started = DriverTransition::RepairStarted {
                repair,
                attempt: count,
                rewind_to_height: height,
                backoff_ms: at_ms,
            };
            let succeeded = DriverTransition::RepairSucceeded {
                repair,
                total_faults: count,
                degraded_for_ms: at_ms,
            };
            let escalated = DriverTransition::RepairEscalated {
                from_repair: repair,
                to_repair: next_repair,
            };
            let parked = DriverTransition::Parked {
                fault: Some(struck),
                reprobe_at_ms: Some(at_ms),
            };
            &&& crate::sync::report::event_reason(fault) == Some(struck.reason@)
            &&& crate::sync::report::event_reason(slow) == Some(reason@)
            &&& crate::sync::report::event_reason(parked) == Some(struck.reason@)
            &&& crate::sync::report::event_reason(started) is None
            &&& crate::sync::report::event_rung(fault) == Some(struck.repair)
            &&& crate::sync::report::event_rung(started) == Some(repair)
            &&& crate::sync::report::event_rung(succeeded) == Some(repair)
            &&& crate::sync::report::event_rung(escalated) is None
            &&& crate::sync::report::event_escalation(escalated) == (
                Some(repair),
                Some(next_repair),
            )
            &&& crate::sync::report::event_escalation(fault).0 is None
            &&& crate::sync::report::event_escalation(fault).1 is None
            &&& crate::sync::report::event_head(escalated).0
                is Error
            &&& crate::sync::report::event_head(parked).0 is Error
            &&& crate::sync::report::event_head(fault).0 is Warn
            &&& crate::sync::report::event_head(succeeded).0 is Info
        }),
        height matches Some(known) ==> crate::sync::report::height_number_spec(height) == Some(
            known.0,
        ),
        height is None ==> crate::sync::report::height_number_spec(height) is None,
{
}

/// The four rungs have four labels, and an event shows the label of its rung.
pub proof fn a_rung_is_told_by_its_label(
    label: Option<&'static str>,
    a: SyncRepair,
    b: SyncRepair,
)
    ensures
        a.label_text() == b.label_text() ==> a == b,
        crate::sync::report::labels(label, Some(a)) <==> (label matches Some(text) && text@
            == a.label_text()),
        crate::sync::report::labels(label, None) <==> label is None,
        SyncRepair::Retry.label_text() == "retry"@,
        SyncRepair::Rewind.label_text() == "rewind"@,
        SyncRepair::RescanFromBirthday.label_text() == "rescan_from_birthday"@,
        SyncRepair::Park.label_text() == "park"@,
{
    reveal_strlit("retry");
    reveal_strlit("rewind");
    reveal_strlit("rescan_from_birthday");
    reveal_strlit("park");
    assert("retry"@.len() == 5 && "rewind"@.len() == 6 && "rescan_from_birthday"@.len() == 20
        && "park"@.len() == 4);
}

/// The first fault of an episode enters the ladder at its own classification: one fault is
/// counted, no repair applied yet, the first backoff set, and the episode begins now.
pub proof fn the_first_fault_enters_at_its_classification(
    state: DriverState,
    struck: ClassifiedFault,
    height: Option<BlockHeight>,
    policy: SyncRecoveryPolicy,
    now_ms: u64,
)
    requires
        state.recovery is None,
        policy.is_normal(),
    ensures
        ({
            let next = state.after_recorded_fault(struck, height, policy, now_ms);
            &&& next.recovery matches Some(recovery)
            &&& recovery.rung == struck.repair
            &&& recovery.max_classified == struck.repair
            &&& recovery.consecutive_faults == 1
            &&& recovery.attempts_at_rung == 0
            &&& recovery.rewind_depth_index == 0
            &&& recovery.degraded_since_ms == now_ms
            &&& recovery.fault_height == height
            &&& recovery.parked is None
            &&& !recovery.dormant
            &&& recovery.rung_all_restartable == struck.restartable
            &&& recovery.backoff_ms == policy.fault_backoff_initial_ms
            &&& state.fault_publications(struck, height, policy, now_ms).len() == 1
        }),
{
    vstd::arithmetic::power2::lemma2_to64();
    assert(policy.fault_backoff_initial_ms * vstd::arithmetic::power2::pow2(0) as int
        == policy.fault_backoff_initial_ms);
}

/// A recorded fault is shown with its own reason, the rung it left the ladder on, and the time
/// it struck; the observation and the stream's standing are left alone. It is announced with
/// the rung's next attempt and the time that attempt is due.
pub proof fn a_fault_is_recorded_as_it_struck(
    state: DriverState,
    struck: ClassifiedFault,
    height: Option<BlockHeight>,
    policy: SyncRecoveryPolicy,
    now_ms: u64,
)
    ensures
        ({
            let next = state.after_recorded_fault(struck, height, policy, now_ms);
            let publications = state.fault_publications(struck, height, policy, now_ms);
            &&& next.recovery matches Some(recovery)
            &&& next.last_fault == Some(
                SyncFault {
                    reason: struck.reason,
                    repair: recovery.rung,
                    occurred_at_ms: now_ms,
                    consecutive_faults: recovery.consecutive_faults,
                },
            )
            &&& !recovery.dormant
            &&& next.last_observation == state.last_observation
            &&& next.cursor_recovery_pending == state.cursor_recovery_pending
            &&& next.stream_consecutive_faults == state.stream_consecutive_faults
            &&& next.stream_next_attempt_at_ms == state.stream_next_attempt_at_ms
            &&& next.stream_reprobe == state.stream_reprobe
            &&& publications.len() == 1 || publications.len() == 2
            &&& publications[0] matches Publication::Snapshot {
                phase,
                last_observation,
                last_fault,
                transition,
                ..
            }
            &&& last_observation == state.last_observation
            &&& last_fault == next.last_fault
            &&& transition == Some(DriverTransition::Fault { fault: next.last_fault->Some_0 })
            &&& phase matches SyncDriverPhase::Recovering { repair, attempt, next_attempt_at_ms }
            &&& repair == recovery.rung
            &&& recovery.attempts_at_rung < u32::MAX ==> attempt == recovery.attempts_at_rung + 1
            &&& now_ms + recovery.backoff_ms <= u64::MAX ==> next_attempt_at_ms == now_ms
                + recovery.backoff_ms
            &&& now_ms + recovery.backoff_ms > u64::MAX ==> next_attempt_at_ms == u64::MAX
        }),
{
}

/// An escalation is announced exactly when the fault exhausted the rung it struck, from that
/// rung to the one the ladder moved to.
pub proof fn an_escalation_is_announced(
    state: DriverState,
    prior: RecoveryState,
    struck: ClassifiedFault,
    height: Option<BlockHeight>,
    policy: SyncRecoveryPolicy,
    now_ms: u64,
)
    requires
        state.recovery == Some(prior),
    ensures
        ({
            let next = state.after_recorded_fault(struck, height, policy, now_ms);
            let publications = state.fault_publications(struck, height, policy, now_ms);
            let graver = struck.repair.severity() > prior.rung.severity();
            let granted: u32 = match prior.rung {
                SyncRepair::RescanFromBirthday => policy.max_rescan_attempts,
                SyncRepair::Retry => if struck.repair is Retry && prior.rung_all_restartable
                    && struck.restartable {
                    policy.restartable_escalate_after_faults
                } else {
                    policy.escalate_after_faults
                },
                _ => policy.escalate_after_faults,
            };
            &&& publications.len() == 2 <==> !graver && prior.attempts_at_rung >= granted
            &&& publications.len() == 2 ==> publications[1] == (Publication::Republish {
                transition: Some(
                    DriverTransition::RepairEscalated {
                        from_repair: prior.rung,
                        to_repair: next.recovery->Some_0.rung,
                    },
                ),
            })
        }),
{
}

/// Parking holds from now on, until the policy's hold has passed or for good where it has none.
pub proof fn a_park_holds_for_the_policy_s_hold(policy: SyncRecoveryPolicy, now_ms: u64)
    ensures
        ({
            let parked = DriverState::parking(policy, now_ms);
            &&& parked.since_ms == now_ms
            &&& policy.park_reprobe_ms is None ==> parked.reprobe_at_ms is None
            &&& policy.park_reprobe_ms matches Some(hold_ms) ==> {
                &&& parked.reprobe_at_ms matches Some(due_ms)
                &&& now_ms + hold_ms <= u64::MAX ==> due_ms == now_ms + hold_ms
                &&& now_ms + hold_ms > u64::MAX ==> due_ms == u64::MAX
            }
        }),
{
}

/// A completed run that scanned blocks becomes the observation: its height, and when it was
/// completed. One that scanned nothing only re-dates a height the wallet has checked before.
pub proof fn a_completed_run_is_observed(state: DriverState, outcome: SyncOutcome)
    ensures
        ({
            let next = state.after_completed_run(outcome);
            let observed = Some(
                SyncObservation {
                    scanned_to_height: outcome.scanned_to_height,
                    observed_at_ms: outcome.completed_at_ms,
                },
            );
            &&& outcome.block_count > 0 ==> next.last_observation == observed
            &&& outcome.block_count == 0 ==> match state.last_observation {
                Some(earlier) => next.last_observation == if earlier.scanned_to_height.0
                    >= outcome.scanned_to_height.0 {
                    observed
                } else {
                    state.last_observation
                },
                None => next.last_observation is None,
            }
            &&& next.recovery == state.recovery
            &&& next.last_fault == state.last_fault
        }),
{
}

/// A completed sync forgets the fault, takes in its run, and settles the recovery at the height
/// it reached. The success is announced with the rung that cured the fault, the faults it took,
/// and how long the wallet was degraded, exactly when the recovery is cleared.
pub proof fn a_completed_sync_heals_the_driver(
    state: DriverState,
    prior: RecoveryState,
    outcome: SyncOutcome,
    recorded_tip: bool,
    now_ms: u64,
)
    requires
        state.recovery == Some(prior),
    ensures
        ({
            let next = state.after_completed_sync(outcome);
            let cleared = match prior.fault_height {
                Some(boundary) => outcome.scanned_to_height.0 > boundary.0,
                None => true,
            };
            &&& next.last_fault is None
            &&& cleared ==> next.recovery is None
            &&& !cleared ==> next.recovery == Some(RecoveryState { dormant: true, ..prior })
            &&& outcome.block_count > 0 ==> {
                &&& next.last_observation matches Some(observed)
                &&& observed.scanned_to_height == outcome.scanned_to_height
            }
            &&& state.completion_spec(outcome, recorded_tip, now_ms) matches
                Publication::Snapshot { phase, last_fault, last_observation, transition, .. }
            &&& phase == if outcome.block_count > 0 || !recorded_tip {
                SyncDriverPhase::Syncing
            } else {
                SyncDriverPhase::Waiting
            }
            &&& last_fault is None
            &&& last_observation == next.last_observation
            &&& !cleared ==> transition is None
            &&& cleared ==> {
                &&& transition matches Some(
                    DriverTransition::RepairSucceeded { repair, total_faults, degraded_for_ms },
                )
                &&& repair == prior.rung
                &&& total_faults == prior.consecutive_faults
                &&& now_ms >= prior.degraded_since_ms ==> prior.degraded_since_ms
                    + degraded_for_ms == now_ms
                &&& now_ms < prior.degraded_since_ms ==> degraded_for_ms == 0
            }
        }),
{
}

/// A healthy driver stays healthy through a completed sync and announces no success.
pub proof fn a_healthy_sync_announces_nothing(
    state: DriverState,
    outcome: SyncOutcome,
    recorded_tip: bool,
    now_ms: u64,
)
    requires
        state.recovery is None,
    ensures
        state.after_completed_sync(outcome).recovery is None,
        state.completion_spec(outcome, recorded_tip, now_ms) matches Publication::Snapshot {
            transition,
            ..
        } && transition is None,
{
}

/// A faulted attempt's checked chunk becomes the observation at the frontier it reached.
pub proof fn a_checked_chunk_is_observed(
    state: DriverState,
    reached: BlockHeight,
    now_ms: u64,
)
    ensures
        state.after_committed_chunk(
            CommittedChunk::Checked,
            ScanFrontier::At(reached),
            now_ms,
        ).last_observation == Some(
            SyncObservation { scanned_to_height: reached, observed_at_ms: now_ms },
        ),
        state.after_committed_chunk(CommittedChunk::Checked, ScanFrontier::Unknown, now_ms)
            == state,
        state.after_committed_chunk(CommittedChunk::Checked, ScanFrontier::Empty, now_ms)
            == state,
{
}

/// Slow progress shows no fault and puts the recovery to sleep, unless the advance passed its
/// boundary, which clears it.
pub proof fn slow_progress_shows_no_fault(
    state: DriverState,
    prior: RecoveryState,
    boundary: BlockHeight,
    reached: BlockHeight,
)
    requires
        state.recovery == Some(prior),
        prior.fault_height == Some(boundary),
    ensures
        ({
            let next = state.after_slow_progress(Some(reached));
            &&& next.last_fault is None
            &&& next.last_observation == state.last_observation
            &&& reached.0 > boundary.0 ==> next.recovery is None
            &&& reached.0 <= boundary.0 ==> next.recovery == Some(
                RecoveryState { dormant: true, ..prior },
            )
        }),
{
}

/// An interrupted stream is counted, tried again after the backoff its count sets, and given up
/// exactly when as many interruptions as the policy grants came in a row: until the hold has
/// passed, or for good.
pub proof fn a_stream_is_given_up_at_the_threshold(
    state: DriverState,
    reason: String,
    policy: SyncRecoveryPolicy,
    now_ms: u64,
)
    requires
        state.stream_consecutive_faults < u32::MAX,
        policy.is_normal(),
    ensures
        ({
            let next = state.after_stream_fault(reason, policy, now_ms);
            let faults = state.stream_consecutive_faults + 1;
            let given_up = faults >= policy.escalate_after_faults;
            let backoff_ms = crate::sync::ladder::backoff_spec(policy, faults as u32);
            &&& next.stream_consecutive_faults == faults
            &&& now_ms + backoff_ms <= u64::MAX ==> next.stream_next_attempt_at_ms == now_ms
                + backoff_ms
            &&& !given_up ==> next.stream_reprobe == state.stream_reprobe
            &&& given_up && policy.park_reprobe_ms is None ==> next.stream_reprobe
                is ParkedWithoutDeadline
            &&& given_up ==> {
                &&& policy.park_reprobe_ms matches Some(hold_ms) ==> {
                    &&& next.stream_reprobe matches StreamReprobe::At(due_ms)
                    &&& now_ms + hold_ms <= u64::MAX ==> due_ms == now_ms + hold_ms
                    &&& now_ms + hold_ms > u64::MAX ==> due_ms == u64::MAX
                }
            }
            &&& next.last_fault matches Some(shown)
            &&& shown.reason == reason
            &&& shown.occurred_at_ms == now_ms
            &&& shown.repair == if given_up {
                SyncRepair::Park
            } else {
                SyncRepair::Retry
            }
            &&& next.cursor_recovery_pending == state.cursor_recovery_pending
            &&& match state.stream_fault_phase(policy, now_ms) {
                SyncDriverPhase::Parked { since_ms, reprobe_at_ms } => given_up && since_ms
                    == now_ms && reprobe_at_ms == next.stream_reprobe.deadline_spec(),
                SyncDriverPhase::Recovering { repair, attempt, next_attempt_at_ms } => !given_up
                    && repair is Retry && attempt == faults && next_attempt_at_ms
                    == next.stream_next_attempt_at_ms,
                _ => false,
            }
        }),
{
    let faults = (state.stream_consecutive_faults + 1) as u32;
    if faults < u32::MAX {
        crate::sync::ladder_laws::backoff_doubles_up_to_the_cap(policy, faults);
    } else {
        crate::sync::ladder_laws::backoff_doubles_up_to_the_cap(policy, (faults - 1) as u32);
    }
}

/// A reopened stream is in good standing: nothing is counted against it, nothing delays it, and
/// the fault it had shown is gone. The ladder and the observation are not touched.
pub proof fn a_reopened_stream_is_in_good_standing(state: DriverState)
    ensures
        ({
            let next = state.after_stream_opened();
            &&& next.stream_consecutive_faults == 0
            &&& next.stream_next_attempt_at_ms == 0
            &&& next.stream_reprobe is Inactive
            &&& state.stream_consecutive_faults > 0 ==> next.last_fault is None
            &&& state.stream_consecutive_faults == 0 ==> next.last_fault == state.last_fault
            &&& next.recovery == state.recovery
            &&& next.last_observation == state.last_observation
            &&& next.cursor_recovery_pending == state.cursor_recovery_pending
        }),
        state.stream_held() <==> !(state.stream_reprobe is Inactive),
{
}

/// The state after a stream failure is the one that the failure's own text leads to.
pub proof fn a_stream_failure_shows_the_source_s_text(
    state: DriverState,
    next: DriverState,
    error: crate::boundary_error::ChainSourceError,
    policy: SyncRecoveryPolicy,
    now_ms: u64,
)
    requires
        state.faulted_on_stream(next, error, policy, now_ms),
    ensures
        next.last_fault matches Some(fault) && fault.reason@ == error.described() && next
            == state.after_stream_fault(fault.reason, policy, now_ms),
{
}

/// A parked driver re-arms exactly at its deadline: from then on a tick forgets the whole
/// ladder and leads to a wakeup; before it a tick changes nothing, and no chain event wakes it.
pub proof fn a_parked_driver_rearms_at_its_deadline(
    driver_loop: DriverLoop,
    state: DriverState,
    recovery: RecoveryState,
    parked: ParkedAt,
    now_ms: u64,
)
    requires
        state.recovery == Some(recovery),
        recovery.parked == Some(parked),
    ensures
        ({
            let next = driver_loop.polled_state(state, now_ms);
            let next_loop = driver_loop.polled_loop(state, now_ms);
            let due = parked.reprobe_at_ms matches Some(due_ms) && now_ms >= due_ms;
            &&& due ==> next == (DriverState { recovery: None, ..state })
            &&& due ==> next_loop.should_sync && next_loop.turn_spec(next) is Wake
            &&& !due ==> next == state
            &&& !due ==> !next_loop.should_sync && next_loop.turn_spec(next) is Wait
            &&& driver_loop.turn_spec(state) is Wait
            &&& DriverLoop::reprobe_due(state, now_ms) <==> due
            &&& next_loop.stream_open == driver_loop.stream_open
            &&& next_loop.stream_start == driver_loop.stream_start
        }),
{
}

/// A driver that is not parked on its ladder syncs at every tick, unless its stream is closed
/// and given up: then it holds until the stream's deadline, or for good where it has none.
pub proof fn a_tick_syncs_unless_the_stream_is_given_up(
    driver_loop: DriverLoop,
    state: DriverState,
    now_ms: u64,
)
    requires
        state.recovery matches Some(recovery) ==> recovery.parked is None,
    ensures
        ({
            let next = driver_loop.polled_state(state, now_ms);
            let next_loop = driver_loop.polled_loop(state, now_ms);
            let holds = !driver_loop.stream_open && match state.stream_reprobe {
                StreamReprobe::Inactive => false,
                StreamReprobe::ParkedWithoutDeadline => true,
                StreamReprobe::At(due_ms) => now_ms < due_ms,
            };
            &&& driver_loop.stream_holds(state, now_ms) <==> holds
            &&& next_loop.should_sync <==> !holds
            &&& next_loop.turn_spec(next) is Wake <==> !holds
            &&& holds ==> next == state
            &&& !holds ==> !next.cursor_recovery_pending
            &&& next.recovery == state.recovery
            &&& next.last_fault == state.last_fault
            &&& next.last_observation == state.last_observation
            &&& !holds && !driver_loop.stream_open && !(state.stream_reprobe is Inactive) ==> {
                &&& next.stream_reprobe is Inactive
                &&& next.stream_consecutive_faults == 0
                &&& next.stream_next_attempt_at_ms == 0
            }
            &&& !holds && (driver_loop.stream_open || state.stream_reprobe is Inactive) ==> {
                &&& next.stream_reprobe == state.stream_reprobe
                &&& next.stream_consecutive_faults == state.stream_consecutive_faults
                &&& next.stream_next_attempt_at_ms == state.stream_next_attempt_at_ms
            }
        }),
{
}

/// A driver wakes exactly if a sync is owed and it is not parked.
pub proof fn a_driver_wakes_when_a_sync_is_owed(driver_loop: DriverLoop, state: DriverState)
    ensures
        driver_loop.turn_spec(state) is Wake <==> driver_loop.should_sync && (state.recovery
            matches Some(recovery) ==> recovery.parked is None),
        state.parked_spec() is None <==> (state.recovery matches Some(recovery)
            ==> recovery.parked is None),
{
}

/// Closing fails exactly if a task panicked, with that task's own reason.
pub proof fn only_a_panic_fails_a_close(reason: String)
    ensures
        crate::sync::driver::task_result(TaskEnd::Finished) is Ok,
        crate::sync::driver::task_result(TaskEnd::Cancelled) is Ok,
        crate::sync::driver::task_result(TaskEnd::Panicked { reason }) == Err::<(), WalletError>(
            WalletError::SyncDriverFailed { reason },
        ),
{
}

/// Progress is the difference of the two heights read, and none where the second is not above
/// the first. A wallet that has committed nothing counts from zero, and a height that could not
/// be read counts for nothing.
pub proof fn progress_is_the_difference_of_the_heights(before: BlockHeight, after: BlockHeight)
    ensures
        after.0 >= before.0 ==> before.0 + crate::sync::frontier::blocks_between(
            ScanFrontier::At(before),
            ScanFrontier::At(after),
        ) == after.0,
        after.0 < before.0 ==> crate::sync::frontier::blocks_between(
            ScanFrontier::At(before),
            ScanFrontier::At(after),
        ) == 0,
        crate::sync::frontier::blocks_between(ScanFrontier::Empty, ScanFrontier::At(after))
            == after.0,
        crate::sync::frontier::blocks_between(ScanFrontier::At(before), ScanFrontier::Empty) == 0,
        crate::sync::frontier::blocks_between(ScanFrontier::Unknown, ScanFrontier::At(after)) == 0,
        crate::sync::frontier::blocks_between(ScanFrontier::At(before), ScanFrontier::Unknown) == 0,
        ScanFrontier::At(before).height_spec() == Some(before),
        ScanFrontier::Empty.height_spec() is None,
        ScanFrontier::Unknown.height_spec() is None,
{
}

/// The frontier of a status is the height it shows as scanned; an unread status shows none.
pub proof fn a_status_shows_its_frontier(status: WalletStatus)
    ensures
        status.scanned_height matches Some(height) ==> crate::sync::frontier::frontier_of(
            Some(status),
        ) == ScanFrontier::At(height),
        status.scanned_height is None ==> crate::sync::frontier::frontier_of(Some(status))
            is Empty,
        crate::sync::frontier::frontier_of(None) is Unknown,
{
}

/// A fault is excused exactly if it is an environment fault whose attempt made progress.
pub proof fn only_an_environment_fault_is_excused(repair: SyncRepair, blocks_advanced: u32)
    ensures
        crate::sync::frontier::slow_progress(repair, blocks_advanced) <==> repair is Retry
            && blocks_advanced > 0,
{
}

/// The chain-tip record stands exactly after committed blocks: a completed run without any
/// leaves it stale, and a faulted attempt without any leaves it as it was.
pub proof fn committed_blocks_keep_the_record(
    outcome: SyncOutcome,
    recorded: ChainTipRecord,
    blocks_advanced: u32,
    recorded_tip: bool,
)
    ensures
        crate::sync::frontier::tip_record_after_scan(outcome) is Current <==> outcome.block_count
            > 0,
        blocks_advanced > 0 ==> crate::sync::frontier::tip_record_after_fault(
            recorded,
            blocks_advanced,
        ) is Current,
        blocks_advanced == 0 ==> crate::sync::frontier::tip_record_after_fault(
            recorded,
            blocks_advanced,
        ) == recorded,
        crate::sync::frontier::more_to_sync(outcome, recorded_tip) <==> outcome.block_count > 0
            || !recorded_tip,
{
}

/// Clock values add up as far as the clock goes, and a span is what lies between its ends.
pub proof fn spans_lie_between_their_ends(at_ms: u64, by_ms: u64)
    ensures
        at_ms + by_ms <= u64::MAX ==> crate::sync::driver_state::later(at_ms, by_ms) == at_ms
            + by_ms,
        at_ms + by_ms > u64::MAX ==> crate::sync::driver_state::later(at_ms, by_ms) == u64::MAX,
        by_ms >= at_ms ==> at_ms + crate::sync::driver_state::elapsed(at_ms, by_ms) == by_ms,
        by_ms < at_ms ==> crate::sync::driver_state::elapsed(at_ms, by_ms) == 0,
{
}

} // verus!
