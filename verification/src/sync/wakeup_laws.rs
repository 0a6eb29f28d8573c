//! What a wakeup of the sync driver guarantees over every sequence of events.

use crate::sync::classify::{ClassifiedFault, SyncRunAttempt};
use crate::sync::driver_state::DriverState;
use crate::sync::options::SyncDriverOptions;
use crate::sync::wakeup::{
    SyncWakeup, SyncWakeupExit, WakeupEvent, WakeupMove, WakeupRequest, WakeupStage,
};
use vstd::prelude::*;

verus! {

/// An event with the time it came in.
pub type TimedEvent = (WakeupEvent, u64);

/// Where a wakeup stands after `events`, taken in one after the other from `first` on.
pub open spec fn run(first: WakeupMove, events: Seq<TimedEvent>) -> WakeupMove
    decreases events.len(),
{
    if events.len() == 0 {
        first
    } else {
        let before = run(first, events.drop_last());
        before.0.moved(before.1, events.last().0, events.last().1)
    }
}

/// Every event comes when the wakeup waits for one of its kind.
pub open spec fn orderly(first: WakeupMove, events: Seq<TimedEvent>) -> bool
    decreases events.len(),
{
    events.len() == 0 || {
        &&& orderly(first, events.drop_last())
        &&& run(first, events.drop_last()).0.expects(events.last().0)
    }
}

/// The first move of a wakeup.
pub open spec fn begun(options: SyncDriverOptions, state: DriverState, now_ms: u64) -> WakeupMove {
    SyncWakeup::next_iteration_spec(
        options,
        crate::sync::frontier::ChainTipRecord::Stale,
        options.max_sync_iterations_per_wake_count,
        state,
        now_ms,
    )
}

/// A request fits the stage it leaves the wakeup in, and an attempt is asked for under exactly
/// the record the wakeup holds.
pub open spec fn coherent(m: WakeupMove) -> bool {
    match m.3 {
        WakeupRequest::Sleep { .. } => m.0.stage is Backoff,
        WakeupRequest::ReadStatus => m.0.stage is BeforeAttempt,
        WakeupRequest::ReadRewindStatus => m.0.stage is PlanningRewind,
        WakeupRequest::Rewind { .. } | WakeupRequest::Rebuild => m.0.stage is Repairing,
        WakeupRequest::Attempt { record } => m.0.stage is Attempting && record == m.0.chain_tip,
        WakeupRequest::ReadFrontier => m.0.stage is AfterFault,
        WakeupRequest::Exit(_) => m.0.stage is Finished,
    }
}

/// An expected event leads to a coherent move.
proof fn a_move_is_coherent(wakeup: SyncWakeup, state: DriverState, event: WakeupEvent, now_ms: u64)
    requires
        wakeup.expects(event),
    ensures
        coherent(wakeup.moved(state, event, now_ms)),
{
}

/// Every move of an orderly run is coherent.
pub proof fn runs_stay_coherent(first: WakeupMove, events: Seq<TimedEvent>)
    requires
        coherent(first),
        orderly(first, events),
    ensures
        coherent(run(first, events)),
    decreases events.len(),
{
    if events.len() > 0 {
        let before = run(first, events.drop_last());
        a_move_is_coherent(before.0, before.1, events.last().0, events.last().1);
    }
}

/// A wakeup ends as reconciled only through an attempt that recorded the chain tip and then
/// found nothing to scan: the attempt it had asked for carried a stale record.
pub proof fn reconciled_means_a_fresh_tip_and_nothing_left(
    before: WakeupMove,
    event: WakeupEvent,
    now_ms: u64,
)
    requires
        coherent(before),
        before.0.expects(event),
        before.0.moved(before.1, event, now_ms).3 == WakeupRequest::Exit(
            SyncWakeupExit::Reconciled,
        ),
    ensures
        event matches WakeupEvent::AttemptEnded(SyncRunAttempt::Completed(outcome))
            && outcome.block_count == 0,
        before.3 == (WakeupRequest::Attempt {
            record: crate::sync::frontier::ChainTipRecord::Stale,
        }),
{
    assert(before.0.stage is Attempting);
}

/// From a stale record on, every attempt up to the first one that ends records the chain tip.
/// This holds at the start of a wakeup and again after each repair.
pub proof fn a_stale_record_is_recorded_first(first: WakeupMove, events: Seq<TimedEvent>)
    requires
        coherent(first),
        first.0.chain_tip is Stale,
        !(first.0.stage is AfterFault),
        orderly(first, events),
        forall|i: int| 0 <= i < events.len() ==> !(events[i].0 is AttemptEnded),
    ensures
        run(first, events).0.chain_tip is Stale,
        run(first, events).3 matches WakeupRequest::Attempt { record } ==> record is Stale,
    decreases events.len(),
{
    stale_until_an_attempt_ends(first, events);
    runs_stay_coherent(first, events);
}

proof fn stale_until_an_attempt_ends(first: WakeupMove, events: Seq<TimedEvent>)
    requires
        coherent(first),
        first.0.chain_tip is Stale,
        !(first.0.stage is AfterFault),
        orderly(first, events),
        forall|i: int| 0 <= i < events.len() ==> !(events[i].0 is AttemptEnded),
    ensures
        run(first, events).0.chain_tip is Stale,
        !(run(first, events).0.stage is AfterFault),
    decreases events.len(),
{
    if events.len() > 0 {
        assert(!(events[events.len() - 1].0 is AttemptEnded));
        stale_until_an_attempt_ends(first, events.drop_last());
    }
}

/// Beginning a repair makes the record stale, whatever it was before.
pub proof fn a_repair_makes_the_record_stale(before: WakeupMove, now_ms: u64)
    requires
        before.0.stage is Backoff,
    ensures
        before.0.moved(before.1, WakeupEvent::Slept, now_ms).0.chain_tip is Stale,
        !(before.0.moved(before.1, WakeupEvent::Slept, now_ms).0.stage is AfterFault),
{
}

/// Number of attempts asked for by `first` and by every move after it.
pub open spec fn attempts_asked(first: WakeupMove, events: Seq<TimedEvent>) -> nat
    decreases events.len(),
{
    let asks: nat = if run(first, events).3 is Attempt {
        1
    } else {
        0
    };
    if events.len() == 0 {
        asks
    } else {
        attempts_asked(first, events.drop_last()) + asks
    }
}

/// A wakeup makes at most as many attempts as its options allow.
pub proof fn attempts_are_bounded_per_wakeup(
    options: SyncDriverOptions,
    state: DriverState,
    now_ms: u64,
    events: Seq<TimedEvent>,
)
    requires
        orderly(begun(options, state, now_ms), events),
    ensures
        attempts_asked(begun(options, state, now_ms), events)
            <= options.max_sync_iterations_per_wake_count,
{
    attempt_budget(options, state, now_ms, events);
}

/// Attempts an iteration under way may still ask for.
spec fn owed(wakeup: SyncWakeup) -> nat {
    if wakeup.stage is Backoff || wakeup.stage is PlanningRewind || wakeup.stage is Repairing
        || wakeup.stage is BeforeAttempt {
        1
    } else {
        0
    }
}

/// An expected event spends what it asks for: no attempt comes without an iteration.
proof fn a_move_spends_its_budget(
    wakeup: SyncWakeup,
    state: DriverState,
    event: WakeupEvent,
    now_ms: u64,
)
    requires
        wakeup.expects(event),
    ensures
        ({
            let after = wakeup.moved(state, event, now_ms);
            let asks: nat = if after.3 is Attempt {
                1
            } else {
                0
            };
            asks + owed(after.0) + after.0.iterations_left <= owed(wakeup)
                + wakeup.iterations_left
        }),
{
}

proof fn attempt_budget(
    options: SyncDriverOptions,
    state: DriverState,
    now_ms: u64,
    events: Seq<TimedEvent>,
)
    requires
        orderly(begun(options, state, now_ms), events),
    ensures
        attempts_asked(begun(options, state, now_ms), events) + owed(
            run(begun(options, state, now_ms), events).0,
        ) + run(begun(options, state, now_ms), events).0.iterations_left
            <= options.max_sync_iterations_per_wake_count,
    decreases events.len(),
{
    if events.len() > 0 {
        attempt_budget(options, state, now_ms, events.drop_last());
        let before = run(begun(options, state, now_ms), events.drop_last());
        a_move_spends_its_budget(before.0, before.1, events.last().0, events.last().1);
    }
}

/// A wakeup that ends with work pending either parked the driver or used up its iterations.
pub proof fn pending_means_parked_or_out_of_iterations(
    before: WakeupMove,
    event: WakeupEvent,
    now_ms: u64,
)
    requires
        before.0.expects(event),
        before.0.moved(before.1, event, now_ms).3 == WakeupRequest::Exit(SyncWakeupExit::Pending),
    ensures
        ({
            let after = before.0.moved(before.1, event, now_ms);
            after.1.parked_spec() is Some || after.0.iterations_left == 0
        }),
{
}

/// The recovery, if there is one, has only ever seen environment faults.
pub open spec fn environment_only(state: DriverState) -> bool {
    state.recovery matches Some(recovery) ==> recovery.max_classified is Retry && (
    recovery.rung is Retry || recovery.rung is Park)
}

/// The fault an event or a stage carries, if any, is an environment fault.
pub open spec fn environment_fault(fault: ClassifiedFault) -> bool {
    fault.repair is Retry
}

/// Every fault that the event carries is an environment fault.
pub open spec fn environment_event(event: WakeupEvent) -> bool {
    match event {
        WakeupEvent::RewindStatusRead(Err(fault)) => environment_fault(fault),
        WakeupEvent::RepairEnded(Err(fault)) => environment_fault(fault),
        WakeupEvent::AttemptEnded(SyncRunAttempt::Faulted { fault, .. }) => environment_fault(
            fault,
        ),
        _ => true,
    }
}

/// The wakeup stands in no state repair and holds no fault but environment faults.
pub open spec fn environment_stage(wakeup: SyncWakeup) -> bool {
    match wakeup.stage {
        WakeupStage::AfterFault { fault, .. } => environment_fault(fault),
        WakeupStage::PlanningRewind { .. } | WakeupStage::Repairing => false,
        _ => true,
    }
}

/// One environment event keeps the wakeup clear of state repairs.
proof fn an_environment_move_repairs_no_state(
    wakeup: SyncWakeup,
    state: DriverState,
    event: WakeupEvent,
    now_ms: u64,
)
    requires
        wakeup.expects(event),
        environment_only(state),
        environment_stage(wakeup),
        environment_event(event),
    ensures
        environment_only(wakeup.moved(state, event, now_ms).1),
        environment_stage(wakeup.moved(state, event, now_ms).0),
        !(wakeup.moved(state, event, now_ms).3 is Rewind),
        !(wakeup.moved(state, event, now_ms).3 is Rebuild),
{
}

/// A slow or unreachable source is never answered with a rewind or a rebuild: as long as every
/// fault is an environment fault, no state repair is asked for.
pub proof fn environment_faults_never_ask_for_state_repairs(
    first: WakeupMove,
    events: Seq<TimedEvent>,
)
    requires
        coherent(first),
        environment_only(first.1),
        environment_stage(first.0),
        orderly(first, events),
        forall|i: int| 0 <= i < events.len() ==> environment_event(#[trigger] events[i].0),
    ensures
        environment_only(run(first, events).1),
        environment_stage(run(first, events).0),
        !(run(first, events).3 is Rewind),
        !(run(first, events).3 is Rebuild),
    decreases events.len(),
{
    if events.len() > 0 {
        assert(environment_event(events[events.len() - 1].0));
        assert forall|i: int| 0 <= i < events.drop_last().len() implies environment_event(
            #[trigger] events.drop_last()[i].0,
        ) by {
            assert(environment_event(events[i].0));
        }
        environment_faults_never_ask_for_state_repairs(first, events.drop_last());
        let before = run(first, events.drop_last());
        an_environment_move_repairs_no_state(
            before.0,
            before.1,
            events.last().0,
            events.last().1,
        );
    }
}

} // verus!
