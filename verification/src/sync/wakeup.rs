//! One wakeup of the sync driver: drains the scan queue, repairing as the ladder demands.
//!
//! The first iteration records the chain tip, which queues every range between the wallet's
//! frontier and the chain; the rest scan what that record planned. An iteration that committed
//! blocks keeps the record even when it then faulted; a repair returns the record to stale,
//! because truncation trims the queue to the rewound frontier. Draining the queue is not the
//! same as reaching the chain: only an iteration that both recorded the tip and found nothing to
//! scan ends the wakeup as reconciled.
//!
//! [`SyncWakeup`] decides; its caller performs each [`WakeupRequest`] and hands back the
//! [`WakeupEvent`] it led to.

use crate::domain::BlockHeight;
use crate::status::WalletStatus;
use crate::sync::classify::{ClassifiedFault, SyncRunAttempt};
use crate::sync::driver_state::DriverState;
use crate::sync::frontier::{
    chain_tip_after_fault, chain_tip_after_scan, height_delta, is_slow_progress, scan_frontier,
    ChainTipRecord, CommittedChunk, ScanFrontier,
};
use crate::sync::ladder::{rewind_depth, SyncRepair};
use crate::sync::options::SyncDriverOptions;
use crate::sync::report::{DriverTransition, Publication, SnapshotBasis, SyncDriverPhase};
use vstd::prelude::*;

verus! {

/// How a wakeup ended.
#[derive(Clone, Copy, Debug, PartialEq, Eq, Structural)]
pub enum SyncWakeupExit {
    /// The wallet reached a chain tip it just recorded.
    Reconciled,
    /// Work is left for the next wakeup, or the driver parked.
    Pending,
    /// The caller asked the driver to close.
    CloseRequested,
}

/// What the wakeup asks its caller to do next.
#[derive(Clone, Copy, Debug, PartialEq, Eq, Structural)]
pub enum WakeupRequest {
    /// Wait, unless a close is requested first.
    Sleep {
        /// How long to wait, in milliseconds.
        backoff_ms: u64,
    },
    /// Read the wallet status, unless a close is requested first.
    ReadStatus,
    /// Read the wallet status to plan a rewind.
    ReadRewindStatus,
    /// Rewind the wallet to exactly this height.
    Rewind {
        /// Height to rewind to.
        rewind_to: BlockHeight,
    },
    /// Rebuild the wallet's derived state from its birthday.
    Rebuild,
    /// Run one sync attempt under the sync deadline, unless a close is requested first. A stale
    /// record asks for an attempt that records the chain tip first, a current one for an
    /// attempt that scans what the queue holds.
    Attempt {
        /// Whether the chain tip is already recorded.
        record: ChainTipRecord,
    },
    /// Read the wallet status to measure a faulted attempt's progress.
    ReadFrontier,
    /// The wakeup is over.
    Exit(SyncWakeupExit),
}

/// What came of a request.
#[derive(Debug)]
pub enum WakeupEvent {
    /// A close was requested.
    CloseRequested,
    /// The backoff passed.
    Slept,
    /// The wallet status, or `None` when the read failed.
    StatusRead(Option<WalletStatus>),
    /// The wallet status a rewind is planned on.
    RewindStatusRead(Result<WalletStatus, ClassifiedFault>),
    /// The repair ended.
    RepairEnded(Result<(), ClassifiedFault>),
    /// The sync attempt ended.
    AttemptEnded(SyncRunAttempt),
}

/// Where a wakeup stands between two events.
#[derive(Debug)]
pub enum WakeupStage {
    /// Waiting out the backoff before a repair.
    Backoff,
    /// Waiting for the status a rewind is planned on.
    PlanningRewind {
        /// 1-based attempt number at the rewind rung.
        attempt: u32,
        /// Backoff that preceded the repair, in milliseconds.
        backoff_ms: u64,
        /// Blocks to rewind.
        depth_blocks: u32,
    },
    /// Waiting for a rewind or rebuild to end.
    Repairing,
    /// Waiting for the status before an attempt.
    BeforeAttempt,
    /// Waiting for the attempt to end.
    Attempting {
        /// Scan frontier before the attempt.
        frontier_before: ScanFrontier,
    },
    /// Waiting for the status after a faulted attempt.
    AfterFault {
        /// Scan frontier before the attempt.
        frontier_before: ScanFrontier,
        /// The attempt's fault.
        fault: ClassifiedFault,
        /// Whether the attempt's blocks were checked against the chain.
        committed: CommittedChunk,
    },
    /// The wakeup is over.
    Finished,
}

/// What one step of a wakeup yields: publications, in order, and then a request.
#[derive(Debug)]
pub struct WakeupStep {
    /// Snapshots to publish, in order.
    pub publications: Vec<Publication>,
    /// What to do next.
    pub request: WakeupRequest,
}

/// One wakeup of the sync driver.
#[derive(Debug)]
pub struct SyncWakeup {
    /// Policy of the driver.
    pub options: SyncDriverOptions,
    /// Whether the chain tip is recorded for the queue at hand.
    pub chain_tip: ChainTipRecord,
    /// Iterations this wakeup may still begin.
    pub iterations_left: u32,
    /// Where the wakeup stands.
    pub stage: WakeupStage,
}

/// A wakeup, the driver state, what to publish, and what to do next.
pub type WakeupMove = (SyncWakeup, DriverState, Seq<Publication>, WakeupRequest);

/// Puts publications in front of those of a move.
pub open spec fn published_first(publications: Seq<Publication>, then_move: WakeupMove) -> WakeupMove {
    (then_move.0, then_move.1, publications + then_move.2, then_move.3)
}

impl SyncWakeup {
    /// Whether the wakeup waits for an event of this kind.
    pub open spec fn expects(self, event: WakeupEvent) -> bool {
        match event {
            WakeupEvent::CloseRequested => self.stage is Backoff || self.stage is BeforeAttempt
                || self.stage is Attempting,
            WakeupEvent::Slept => self.stage is Backoff,
            WakeupEvent::StatusRead(_) => self.stage is BeforeAttempt || self.stage is AfterFault,
            WakeupEvent::RewindStatusRead(_) => self.stage is PlanningRewind,
            WakeupEvent::RepairEnded(_) => self.stage is Repairing,
            WakeupEvent::AttemptEnded(_) => self.stage is Attempting,
        }
    }

    /// Whether the wakeup waits for an event of this kind.
    pub fn accepts(&self, event: &WakeupEvent) -> (accepted: bool)
        ensures
            accepted == self.expects(*event),
    {
        match (&self.stage, event) {
            (WakeupStage::Backoff, WakeupEvent::CloseRequested | WakeupEvent::Slept) => true,
            (WakeupStage::PlanningRewind { .. }, WakeupEvent::RewindStatusRead(_)) => true,
            (WakeupStage::Repairing, WakeupEvent::RepairEnded(_)) => true,
            (
                WakeupStage::BeforeAttempt,
                WakeupEvent::CloseRequested | WakeupEvent::StatusRead(_),
            ) => true,
            (
                WakeupStage::Attempting { .. },
                WakeupEvent::CloseRequested | WakeupEvent::AttemptEnded(_),
            ) => true,
            (WakeupStage::AfterFault { .. }, WakeupEvent::StatusRead(_)) => true,
            _ => false,
        }
    }

    /// The move to the next iteration: none is left, a live recovery parks or waits out its
    /// backoff, and otherwise the attempt is prepared.
    pub open spec fn next_iteration_spec(
        options: SyncDriverOptions,
        chain_tip: ChainTipRecord,
        iterations_left: u32,
        state: DriverState,
        now_ms: u64,
    ) -> WakeupMove {
        if iterations_left == 0 {
            (
                SyncWakeup {
                    options,
                    chain_tip,
                    iterations_left: 0,
                    stage: WakeupStage::Finished,
                },
                state,
                seq![],
                WakeupRequest::Exit(SyncWakeupExit::Pending),
            )
        } else {
            let left = (iterations_left - 1) as u32;
            match state.recovery {
                Some(recovery) => if recovery.dormant {
                    (
                        SyncWakeup {
                            options,
                            chain_tip,
                            iterations_left: left,
                            stage: WakeupStage::BeforeAttempt,
                        },
                        state,
                        seq![],
                        WakeupRequest::ReadStatus,
                    )
                } else if recovery.rung is Park {
                    (
                        SyncWakeup {
                            options,
                            chain_tip,
                            iterations_left: left,
                            stage: WakeupStage::Finished,
                        },
                        state.after_parking(options.recovery, now_ms),
                        seq![state.parking_publication(options.recovery, now_ms)],
                        WakeupRequest::Exit(SyncWakeupExit::Pending),
                    )
                } else {
                    (
                        SyncWakeup {
                            options,
                            chain_tip,
                            iterations_left: left,
                            stage: WakeupStage::Backoff,
                        },
                        state,
                        seq![],
                        WakeupRequest::Sleep { backoff_ms: recovery.backoff_ms },
                    )
                },
                None => (
                    SyncWakeup {
                        options,
                        chain_tip,
                        iterations_left: left,
                        stage: WakeupStage::BeforeAttempt,
                    },
                    state,
                    seq![],
                    WakeupRequest::ReadStatus,
                ),
            }
        }
    }

    fn next_iteration(
        options: SyncDriverOptions,
        chain_tip: ChainTipRecord,
        iterations_left: u32,
        state: &mut DriverState,
        now_ms: u64,
    ) -> (next: (SyncWakeup, WakeupStep))
        ensures
            (next.0, *final(state), next.1.publications@, next.1.request)
                == Self::next_iteration_spec(
                options,
                chain_tip,
                iterations_left,
                *old(state),
                now_ms,
            ),
    {
        let mut publications: Vec<Publication> = Vec::new();
        if iterations_left == 0 {
            return (
                SyncWakeup {
                    options,
                    chain_tip,
                    iterations_left: 0,
                    stage: WakeupStage::Finished,
                },
                WakeupStep {
                    publications,
                    request: WakeupRequest::Exit(SyncWakeupExit::Pending),
                },
            );
        }
        let left: u32 = iterations_left - 1;
        let (stage, request) = match state.recovery {
            Some(recovery) => if recovery.dormant {
                (WakeupStage::BeforeAttempt, WakeupRequest::ReadStatus)
            } else if recovery.rung == SyncRepair::Park {
                publications.push(state.enter_park(options.recovery, now_ms));
                (WakeupStage::Finished, WakeupRequest::Exit(SyncWakeupExit::Pending))
            } else {
                (WakeupStage::Backoff, WakeupRequest::Sleep { backoff_ms: recovery.backoff_ms })
            },
            None => (WakeupStage::BeforeAttempt, WakeupRequest::ReadStatus),
        };
        (
            SyncWakeup { options, chain_tip, iterations_left: left, stage },
            WakeupStep { publications, request },
        )
    }

    /// Begins a wakeup. Its first attempt records the chain tip.
    pub fn start(options: SyncDriverOptions, state: &mut DriverState, now_ms: u64) -> (first: (
        SyncWakeup,
        WakeupStep,
    ))
        ensures
            (first.0, *final(state), first.1.publications@, first.1.request)
                == Self::next_iteration_spec(
                options,
                ChainTipRecord::Stale,
                options.max_sync_iterations_per_wake_count,
                *old(state),
                now_ms,
            ),
    {
        Self::next_iteration(
            options,
            ChainTipRecord::Stale,
            options.max_sync_iterations_per_wake_count,
            state,
            now_ms,
        )
    }

    /// This wakeup at another stage.
    pub open spec fn at(self, stage: WakeupStage) -> SyncWakeup {
        SyncWakeup { stage, ..self }
    }

    /// The move after the backoff: the repair is counted, the chain-tip record goes stale, and
    /// the rung's repair begins.
    pub open spec fn begin_repair_spec(self, state: DriverState, now_ms: u64) -> WakeupMove {
        let stale = SyncWakeup { chain_tip: ChainTipRecord::Stale, ..self };
        match state.recovery {
            None => (
                stale.at(WakeupStage::BeforeAttempt),
                state,
                seq![],
                WakeupRequest::ReadStatus,
            ),
            Some(recovery) => {
                let counted = recovery.after_applied_repair();
                let next = DriverState { recovery: Some(counted), ..state };
                let started = next.publication_spec(
                    SyncDriverPhase::Recovering {
                        repair: recovery.rung,
                        attempt: counted.attempts_at_rung,
                        next_attempt_at_ms: now_ms,
                    },
                    SnapshotBasis::FreshRead,
                    Some(
                        DriverTransition::RepairStarted {
                            repair: recovery.rung,
                            attempt: counted.attempts_at_rung,
                            rewind_to_height: None,
                            backoff_ms: recovery.backoff_ms,
                        },
                    ),
                );
                match recovery.rung {
                    SyncRepair::Retry | SyncRepair::Park => (
                        stale.at(WakeupStage::BeforeAttempt),
                        next,
                        seq![started],
                        WakeupRequest::ReadStatus,
                    ),
                    SyncRepair::RescanFromBirthday => (
                        stale.at(WakeupStage::Repairing),
                        next,
                        seq![started],
                        WakeupRequest::Rebuild,
                    ),
                    SyncRepair::Rewind => (
                        stale.at(
                            WakeupStage::PlanningRewind {
                                attempt: counted.attempts_at_rung,
                                backoff_ms: recovery.backoff_ms,
                                depth_blocks: crate::sync::ladder::rewind_depth_blocks(
                                    recovery.rewind_depth_index as int,
                                ),
                            },
                        ),
                        next,
                        seq![],
                        WakeupRequest::ReadRewindStatus,
                    ),
                }
            },
        }
    }

    fn begin_repair(self, state: &mut DriverState, now_ms: u64) -> (next: (SyncWakeup, WakeupStep))
        requires
            old(state).wf(),
        ensures
            (next.0, *final(state), next.1.publications@, next.1.request)
                == self.begin_repair_spec(*old(state), now_ms),
    {
        let options = self.options;
        let chain_tip = ChainTipRecord::Stale;
        let iterations_left: u32 = self.iterations_left;
        let mut publications: Vec<Publication> = Vec::new();
        let mut recovery = match state.recovery {
            Some(recovery) => recovery,
            None => {
                return (
                    SyncWakeup {
                        options,
                        chain_tip,
                        iterations_left,
                        stage: WakeupStage::BeforeAttempt,
                    },
                    WakeupStep { publications, request: WakeupRequest::ReadStatus },
                );
            },
        };
        recovery.note_applied_repair();
        state.recovery = Some(recovery);
        let repair = recovery.rung;
        let attempt: u32 = recovery.attempts_at_rung;
        let backoff_ms: u64 = recovery.backoff_ms;
        if repair == SyncRepair::Rewind {
            let depth_blocks: u32 = rewind_depth(recovery.rewind_depth_index);
            return (
                SyncWakeup {
                    options,
                    chain_tip,
                    iterations_left,
                    stage: WakeupStage::PlanningRewind { attempt, backoff_ms, depth_blocks },
                },
                WakeupStep { publications, request: WakeupRequest::ReadRewindStatus },
            );
        }
        publications.push(
            state.publication(
                SyncDriverPhase::Recovering { repair, attempt, next_attempt_at_ms: now_ms },
                SnapshotBasis::FreshRead,
                Some(
                    DriverTransition::RepairStarted {
                        repair,
                        attempt,
                        rewind_to_height: None,
                        backoff_ms,
                    },
                ),
            ),
        );
        let (stage, request) = if repair == SyncRepair::RescanFromBirthday {
            (WakeupStage::Repairing, WakeupRequest::Rebuild)
        } else {
            (WakeupStage::BeforeAttempt, WakeupRequest::ReadStatus)
        };
        (
            SyncWakeup { options, chain_tip, iterations_left, stage },
            WakeupStep { publications, request },
        )
    }

    /// Height a rewind by `depth_blocks` lands at: nothing to rewind where nothing was scanned.
    pub open spec fn rewind_target(status: WalletStatus, depth_blocks: u32) -> Option<
        BlockHeight,
    > {
        match status.scanned_height {
            Some(scanned) => Some(
                BlockHeight(
                    if scanned.0 >= depth_blocks {
                        (scanned.0 - depth_blocks) as u32
                    } else {
                        0
                    },
                ),
            ),
            None => None,
        }
    }

    /// The move after the status for a rewind was read.
    pub open spec fn begin_rewind_spec(
        self,
        state: DriverState,
        status: WalletStatus,
        attempt: u32,
        backoff_ms: u64,
        depth_blocks: u32,
        now_ms: u64,
    ) -> WakeupMove {
        let target = Self::rewind_target(status, depth_blocks);
        let started = state.publication_spec(
            SyncDriverPhase::Recovering {
                repair: SyncRepair::Rewind,
                attempt,
                next_attempt_at_ms: now_ms,
            },
            SnapshotBasis::Known(Some(status)),
            Some(
                DriverTransition::RepairStarted {
                    repair: SyncRepair::Rewind,
                    attempt,
                    rewind_to_height: target,
                    backoff_ms,
                },
            ),
        );
        match target {
            Some(rewind_to) => (
                self.at(WakeupStage::Repairing),
                state,
                seq![started],
                WakeupRequest::Rewind { rewind_to },
            ),
            None => (
                self.at(WakeupStage::BeforeAttempt),
                state,
                seq![started],
                WakeupRequest::ReadStatus,
            ),
        }
    }

    /// The move after a repair failed: the failure is a fault like any other.
    pub open spec fn failed_repair_spec(
        self,
        state: DriverState,
        fault: ClassifiedFault,
        now_ms: u64,
    ) -> WakeupMove {
        published_first(
            state.fault_publications(fault, None, self.options.recovery, now_ms),
            Self::next_iteration_spec(
                self.options,
                self.chain_tip,
                self.iterations_left,
                state.after_recorded_fault(fault, None, self.options.recovery, now_ms),
                now_ms,
            ),
        )
    }

    /// The move after an attempt completed.
    pub open spec fn completed_spec(
        self,
        state: DriverState,
        outcome: crate::sync::frontier::SyncOutcome,
        now_ms: u64,
    ) -> WakeupMove {
        let recorded_tip = self.chain_tip is Stale;
        let chain_tip = crate::sync::frontier::tip_record_after_scan(outcome);
        let next = state.after_completed_sync(outcome);
        let publications = seq![state.completion_spec(outcome, recorded_tip, now_ms)];
        if crate::sync::frontier::more_to_sync(outcome, recorded_tip) {
            published_first(
                publications,
                Self::next_iteration_spec(
                    self.options,
                    chain_tip,
                    self.iterations_left,
                    next,
                    now_ms,
                ),
            )
        } else {
            (
                SyncWakeup { chain_tip, stage: WakeupStage::Finished, ..self },
                next,
                publications,
                WakeupRequest::Exit(SyncWakeupExit::Reconciled),
            )
        }
    }

    /// The move after a faulted attempt's progress was measured: an environment fault that
    /// advanced the wallet is excused, any other strikes the ladder.
    pub open spec fn faulted_spec(
        self,
        state: DriverState,
        frontier_before: ScanFrontier,
        frontier_after: ScanFrontier,
        fault: ClassifiedFault,
        committed: CommittedChunk,
        now_ms: u64,
    ) -> WakeupMove {
        let blocks_advanced = crate::sync::frontier::blocks_between(
            frontier_before,
            frontier_after,
        );
        let chain_tip = crate::sync::frontier::tip_record_after_fault(
            self.chain_tip,
            blocks_advanced,
        );
        if crate::sync::frontier::slow_progress(fault.repair, blocks_advanced) {
            let next = state.after_committed_chunk(
                committed,
                frontier_after,
                now_ms,
            ).after_slow_progress(frontier_after.height_spec());
            published_first(
                seq![
                    next.publication_spec(
                        SyncDriverPhase::Syncing,
                        SnapshotBasis::FreshRead,
                        Some(
                            DriverTransition::SlowProgress {
                                reason: fault.reason,
                                blocks_advanced,
                            },
                        ),
                    ),
                ],
                Self::next_iteration_spec(
                    self.options,
                    chain_tip,
                    self.iterations_left,
                    next,
                    now_ms,
                ),
            )
        } else {
            let height = frontier_after.height_spec();
            published_first(
                state.fault_publications(fault, height, self.options.recovery, now_ms),
                Self::next_iteration_spec(
                    self.options,
                    chain_tip,
                    self.iterations_left,
                    state.after_recorded_fault(fault, height, self.options.recovery, now_ms),
                    now_ms,
                ),
            )
        }
    }

    /// The move that an event leads to.
    pub open spec fn moved(
        self,
        state: DriverState,
        event: WakeupEvent,
        now_ms: u64,
    ) -> WakeupMove {
        match (event, self.stage) {
            (WakeupEvent::CloseRequested, _) => (
                self.at(WakeupStage::Finished),
                state,
                seq![],
                WakeupRequest::Exit(SyncWakeupExit::CloseRequested),
            ),
            (WakeupEvent::Slept, _) => self.begin_repair_spec(state, now_ms),
            (
                WakeupEvent::RewindStatusRead(Ok(status)),
                WakeupStage::PlanningRewind { attempt, backoff_ms, depth_blocks },
            ) => self.begin_rewind_spec(
                state,
                status,
                attempt,
                backoff_ms,
                depth_blocks,
                now_ms,
            ),
            (WakeupEvent::RewindStatusRead(Err(fault)), _) => self.failed_repair_spec(
                state,
                fault,
                now_ms,
            ),
            (WakeupEvent::RepairEnded(Ok(_)), _) => (
                self.at(WakeupStage::BeforeAttempt),
                state,
                seq![],
                WakeupRequest::ReadStatus,
            ),
            (WakeupEvent::RepairEnded(Err(fault)), _) => self.failed_repair_spec(
                state,
                fault,
                now_ms,
            ),
            (
                WakeupEvent::StatusRead(status),
                WakeupStage::AfterFault { frontier_before, fault, committed },
            ) => self.faulted_spec(
                state,
                frontier_before,
                crate::sync::frontier::frontier_of(status),
                fault,
                committed,
                now_ms,
            ),
            (WakeupEvent::StatusRead(status), _) => (
                self.at(
                    WakeupStage::Attempting {
                        frontier_before: crate::sync::frontier::frontier_of(status),
                    },
                ),
                state,
                seq![
                    state.publication_spec(
                        SyncDriverPhase::Syncing,
                        SnapshotBasis::Known(status),
                        None,
                    ),
                ],
                WakeupRequest::Attempt { record: self.chain_tip },
            ),
            (WakeupEvent::AttemptEnded(SyncRunAttempt::Completed(outcome)), _) => {
                self.completed_spec(state, outcome, now_ms)
            },
            (
                WakeupEvent::AttemptEnded(SyncRunAttempt::Faulted { fault, committed }),
                WakeupStage::Attempting { frontier_before },
            ) => (
                self.at(WakeupStage::AfterFault { frontier_before, fault, committed }),
                state,
                seq![],
                WakeupRequest::ReadFrontier,
            ),
            _ => (self, state, seq![], WakeupRequest::Exit(SyncWakeupExit::Pending)),
        }
    }

    fn fail_repair(self, state: &mut DriverState, fault: ClassifiedFault, now_ms: u64) -> (next: (
        SyncWakeup,
        WakeupStep,
    ))
        ensures
            (next.0, *final(state), next.1.publications@, next.1.request)
                == self.failed_repair_spec(*old(state), fault, now_ms),
    {
        let publications = state.record_fault(fault, None, self.options.recovery, now_ms);
        let (wakeup, step) = Self::next_iteration(
            self.options,
            self.chain_tip,
            self.iterations_left,
            state,
            now_ms,
        );
        (wakeup, step.after(publications))
    }

    /// Takes in an event and decides what follows.
    pub fn step(self, state: &mut DriverState, event: WakeupEvent, now_ms: u64) -> (next: (
        SyncWakeup,
        WakeupStep,
    ))
        requires
            self.expects(event),
            old(state).wf(),
        ensures
            (next.0, *final(state), next.1.publications@, next.1.request) == self.moved(
                *old(state),
                event,
                now_ms,
            ),
            final(state).wf(),
    {
        let options = self.options;
        let chain_tip = self.chain_tip;
        let iterations_left: u32 = self.iterations_left;
        match event {
            WakeupEvent::CloseRequested => (
                SyncWakeup { options, chain_tip, iterations_left, stage: WakeupStage::Finished },
                WakeupStep {
                    publications: Vec::new(),
                    request: WakeupRequest::Exit(SyncWakeupExit::CloseRequested),
                },
            ),
            WakeupEvent::Slept => self.begin_repair(state, now_ms),
            WakeupEvent::RewindStatusRead(Err(fault)) => self.fail_repair(state, fault, now_ms),
            WakeupEvent::RewindStatusRead(Ok(status)) => self.begin_rewind(
                state,
                &status,
                now_ms,
            ),
            WakeupEvent::RepairEnded(Err(fault)) => self.fail_repair(state, fault, now_ms),
            WakeupEvent::RepairEnded(Ok(())) => (
                SyncWakeup {
                    options,
                    chain_tip,
                    iterations_left,
                    stage: WakeupStage::BeforeAttempt,
                },
                WakeupStep { publications: Vec::new(), request: WakeupRequest::ReadStatus },
            ),
            WakeupEvent::StatusRead(status) => self.take_status(state, status, now_ms),
            WakeupEvent::AttemptEnded(attempt) => self.end_attempt(state, attempt, now_ms),
        }
    }

    fn begin_rewind(self, state: &mut DriverState, status: &WalletStatus, now_ms: u64) -> (next: (
        SyncWakeup,
        WakeupStep,
    ))
        requires
            self.stage is PlanningRewind,
        ensures
            *final(state) == *old(state),
            (next.0, *final(state), next.1.publications@, next.1.request) == self.moved(
                *old(state),
                WakeupEvent::RewindStatusRead(Ok(*status)),
                now_ms,
            ),
    {
        let options = self.options;
        let chain_tip = self.chain_tip;
        let iterations_left: u32 = self.iterations_left;
        let mut publications: Vec<Publication> = Vec::new();
        match self.stage {
            WakeupStage::PlanningRewind { attempt, backoff_ms, depth_blocks } => {
                let rewind_to_height = match status.scanned_height {
                    Some(scanned) => Some(BlockHeight(scanned.0.saturating_sub(depth_blocks))),
                    None => None,
                };
                publications.push(
                    state.publication(
                        SyncDriverPhase::Recovering {
                            repair: SyncRepair::Rewind,
                            attempt,
                            next_attempt_at_ms: now_ms,
                        },
                        SnapshotBasis::Known(Some(*status)),
                        Some(
                            DriverTransition::RepairStarted {
                                repair: SyncRepair::Rewind,
                                attempt,
                                rewind_to_height,
                                backoff_ms,
                            },
                        ),
                    ),
                );
                let (stage, request) = match rewind_to_height {
                    Some(rewind_to) => (
                        WakeupStage::Repairing,
                        WakeupRequest::Rewind { rewind_to },
                    ),
                    None => (WakeupStage::BeforeAttempt, WakeupRequest::ReadStatus),
                };
                (
                    SyncWakeup { options, chain_tip, iterations_left, stage },
                    WakeupStep { publications, request },
                )
            },
            stage => (
                SyncWakeup { options, chain_tip, iterations_left, stage },
                WakeupStep {
                    publications,
                    request: WakeupRequest::Exit(SyncWakeupExit::Pending),
                },
            ),
        }
    }

    fn take_status(
        self,
        state: &mut DriverState,
        status: Option<WalletStatus>,
        now_ms: u64,
    ) -> (next: (SyncWakeup, WakeupStep))
        requires
            old(state).wf(),
        ensures
            (next.0, *final(state), next.1.publications@, next.1.request) == self.moved(
                *old(state),
                WakeupEvent::StatusRead(status),
                now_ms,
            ),
            final(state).wf(),
    {
        let options = self.options;
        let chain_tip = self.chain_tip;
        let iterations_left: u32 = self.iterations_left;
        let frontier = scan_frontier(status.as_ref());
        match self.stage {
            WakeupStage::AfterFault { frontier_before, fault, committed } => {
                let blocks_advanced: u32 = height_delta(frontier_before, frontier);
                let chain_tip = chain_tip_after_fault(chain_tip, blocks_advanced);
                let publications = if is_slow_progress(fault.repair, blocks_advanced) {
                    state.observe_committed_chunk(committed, frontier, now_ms);
                    let mut excused: Vec<Publication> = Vec::new();
                    excused.push(
                        state.note_slow_progress(
                            fault.reason,
                            blocks_advanced,
                            frontier.height(),
                        ),
                    );
                    excused
                } else {
                    state.record_fault(fault, frontier.height(), options.recovery, now_ms)
                };
                let (wakeup, step) = Self::next_iteration(
                    options,
                    chain_tip,
                    iterations_left,
                    state,
                    now_ms,
                );
                (wakeup, step.after(publications))
            },
            _ => {
                let mut publications: Vec<Publication> = Vec::new();
                publications.push(
                    state.publication(
                        SyncDriverPhase::Syncing,
                        SnapshotBasis::Known(status),
                        None,
                    ),
                );
                (
                    SyncWakeup {
                        options,
                        chain_tip,
                        iterations_left,
                        stage: WakeupStage::Attempting { frontier_before: frontier },
                    },
                    WakeupStep {
                        publications,
                        request: WakeupRequest::Attempt { record: chain_tip },
                    },
                )
            },
        }
    }

    fn end_attempt(
        self,
        state: &mut DriverState,
        attempt: SyncRunAttempt,
        now_ms: u64,
    ) -> (next: (SyncWakeup, WakeupStep))
        requires
            self.stage is Attempting,
            old(state).wf(),
        ensures
            (next.0, *final(state), next.1.publications@, next.1.request) == self.moved(
                *old(state),
                WakeupEvent::AttemptEnded(attempt),
                now_ms,
            ),
            final(state).wf(),
    {
        let options = self.options;
        let iterations_left: u32 = self.iterations_left;
        match attempt {
            SyncRunAttempt::Completed(outcome) => {
                let recorded_tip = self.chain_tip == ChainTipRecord::Stale;
                let chain_tip = chain_tip_after_scan(outcome);
                let (completion, more) = state.complete_sync(outcome, recorded_tip, now_ms);
                let mut publications: Vec<Publication> = Vec::new();
                publications.push(completion);
                if more {
                    let (wakeup, step) = Self::next_iteration(
                        options,
                        chain_tip,
                        iterations_left,
                        state,
                        now_ms,
                    );
                    (wakeup, step.after(publications))
                } else {
                    (
                        SyncWakeup {
                            options,
                            chain_tip,
                            iterations_left,
                            stage: WakeupStage::Finished,
                        },
                        WakeupStep {
                            publications,
                            request: WakeupRequest::Exit(SyncWakeupExit::Reconciled),
                        },
                    )
                }
            },
            SyncRunAttempt::Faulted { fault, committed } => {
                let chain_tip = self.chain_tip;
                let stage = match self.stage {
                    WakeupStage::Attempting { frontier_before } => WakeupStage::AfterFault {
                        frontier_before,
                        fault,
                        committed,
                    },
                    other => other,
                };
                (
                    SyncWakeup { options, chain_tip, iterations_left, stage },
                    WakeupStep {
                        publications: Vec::new(),
                        request: WakeupRequest::ReadFrontier,
                    },
                )
            },
        }
    }
}

impl WakeupStep {
    /// This step with earlier publications in front of its own.
    fn after(self, earlier: Vec<Publication>) -> (step: WakeupStep)
        ensures
            step.publications@ == earlier@ + self.publications@,
            step.request == self.request,
    {
        let mut publications = earlier;
        let mut own = self.publications;
        publications.append(&mut own);
        WakeupStep { publications, request: self.request }
    }
}

} // verus!
