//! State a sync driver carries from one wakeup to the next, and how each outcome changes it.

use crate::domain::BlockHeight;
use crate::sync::classify::ClassifiedFault;
use crate::sync::frontier::{should_continue_syncing, CommittedChunk, ScanFrontier, SyncOutcome};
use crate::sync::ladder::{backoff_for, ParkedAt, RecoveryState, SyncRepair};
use crate::sync::options::SyncRecoveryPolicy;
use crate::sync::report::{
    copy_fault, DriverTransition, Publication, SnapshotBasis, SyncDriverPhase, SyncFault,
    SyncObservation,
};
use vstd::prelude::*;

verus! {

/// The sum of two clock values, held at what a `u64` can say.
pub open spec fn later(at_ms: u64, by_ms: u64) -> u64 {
    crate::domain::lesser(at_ms + by_ms, u64::MAX as int) as u64
}

/// The time from one clock value to a later one; zero when the clock went back.
pub open spec fn elapsed(since_ms: u64, now_ms: u64) -> u64 {
    if now_ms >= since_ms {
        (now_ms - since_ms) as u64
    } else {
        0
    }
}

/// When an interrupted chain-event stream is tried again after it was given up.
#[derive(Clone, Copy, Debug, PartialEq, Eq, Structural)]
pub enum StreamReprobe {
    /// The stream was not given up.
    Inactive,
    /// The stream was given up for good.
    ParkedWithoutDeadline,
    /// The stream is tried again at this time, in unix milliseconds.
    At(u64),
}

impl StreamReprobe {
    /// The time of the next try, where there is one.
    pub open spec fn deadline_spec(self) -> Option<u64> {
        match self {
            StreamReprobe::At(deadline) => Some(deadline),
            StreamReprobe::Inactive | StreamReprobe::ParkedWithoutDeadline => None,
        }
    }

    /// The time of the next try, where there is one.
    pub fn deadline(self) -> (deadline: Option<u64>)
        ensures
            deadline == self.deadline_spec(),
    {
        match self {
            StreamReprobe::At(deadline) => Some(deadline),
            StreamReprobe::Inactive | StreamReprobe::ParkedWithoutDeadline => None,
        }
    }
}

/// State a sync driver carries from one wakeup to the next.
#[derive(Debug)]
pub struct DriverState {
    /// Most recent checked observation of the chain.
    pub last_observation: Option<SyncObservation>,
    /// Most recent fault; `None` while healthy.
    pub last_fault: Option<SyncFault>,
    /// The active or dormant recovery.
    pub recovery: Option<RecoveryState>,
    /// Whether an expired chain-event cursor left a sync owed.
    pub cursor_recovery_pending: bool,
    /// Consecutive interruptions of the chain-event stream.
    pub stream_consecutive_faults: u32,
    /// Unix milliseconds before which the stream is not reopened.
    pub stream_next_attempt_at_ms: u64,
    /// Whether the stream was given up.
    pub stream_reprobe: StreamReprobe,
}

impl Default for DriverState {
    fn default() -> (state: Self)
        ensures
            state == (DriverState {
                last_observation: None,
                last_fault: None,
                recovery: None,
                cursor_recovery_pending: false,
                stream_consecutive_faults: 0,
                stream_next_attempt_at_ms: 0,
                stream_reprobe: StreamReprobe::Inactive,
            }),
            state.wf(),
    {
        DriverState {
            last_observation: None,
            last_fault: None,
            recovery: None,
            cursor_recovery_pending: false,
            stream_consecutive_faults: 0,
            stream_next_attempt_at_ms: 0,
            stream_reprobe: StreamReprobe::Inactive,
        }
    }
}

impl DriverState {
    /// The recovery stands on the ladder.
    pub open spec fn wf(self) -> bool {
        self.recovery matches Some(recovery) ==> recovery.wf()
    }

    /// When the ladder parked, where it has.
    pub open spec fn parked_spec(self) -> Option<ParkedAt> {
        match self.recovery {
            Some(recovery) => recovery.parked,
            None => None,
        }
    }

    /// When the ladder parked, where it has.
    pub fn parked(&self) -> (parked: Option<ParkedAt>)
        ensures
            parked == self.parked_spec(),
    {
        match &self.recovery {
            Some(recovery) => recovery.parked,
            None => None,
        }
    }

    /// Whether the recovery survives a sync that ended at `scanned_to`: its fault boundary has
    /// not been passed.
    pub open spec fn recovery_survives(self, scanned_to: Option<BlockHeight>) -> bool {
        &&& self.recovery matches Some(recovery)
        &&& recovery.fault_height matches Some(boundary)
        &&& scanned_to matches Some(scanned) ==> scanned.0 <= boundary.0
    }

    /// The state after settling the recovery.
    pub open spec fn after_settling(self, scanned_to: Option<BlockHeight>) -> DriverState {
        DriverState {
            recovery: match self.recovery {
                Some(recovery) => if self.recovery_survives(scanned_to) {
                    Some(RecoveryState { dormant: true, ..recovery })
                } else {
                    None
                },
                None => None,
            },
            ..self
        }
    }

    /// Settles the active recovery after a completed or excused sync iteration.
    ///
    /// Returns the recovery when the scan passed the fault boundary (a genuine repair success).
    /// When the boundary has not been passed, the ladder position is kept dormant, so that a
    /// recurring fault resumes the ladder where it left off: a completed re-scan of
    /// already-known-good blocks below the conflict proves nothing about the conflict itself.
    pub fn settle_recovery(&mut self, scanned_to: Option<BlockHeight>) -> (recovered: Option<
        RecoveryState,
    >)
        ensures
            *final(self) == old(self).after_settling(scanned_to),
            recovered == if old(self).recovery_survives(scanned_to) {
                None
            } else {
                old(self).recovery
            },
    {
        let recovery = self.recovery;
        match recovery {
            None => None,
            Some(mut kept) => {
                let survives = match kept.fault_height {
                    None => false,
                    Some(boundary) => match scanned_to {
                        None => true,
                        Some(scanned) => scanned.0 <= boundary.0,
                    },
                };
                if survives {
                    kept.dormant = true;
                    self.recovery = Some(kept);
                    None
                } else {
                    self.recovery = None;
                    Some(kept)
                }
            },
        }
    }

    /// Whether the wallet has compared its committed state against the chain at or above
    /// `height`.
    pub open spec fn has_checked_spec(self, height: BlockHeight) -> bool {
        self.last_observation matches Some(observation) && observation.scanned_to_height.0
            >= height.0
    }

    /// Whether the wallet has compared its committed state against the chain at or above
    /// `height`.
    pub fn has_checked(&self, height: BlockHeight) -> (checked: bool)
        ensures
            checked == self.has_checked_spec(height),
    {
        match self.last_observation {
            Some(observation) => observation.scanned_to_height.0 >= height.0,
            None => false,
        }
    }

    /// The state after a completed run was taken as an observation, where it may be.
    pub open spec fn after_completed_run(self, outcome: SyncOutcome) -> DriverState {
        if outcome.block_count > 0 || self.has_checked_spec(outcome.scanned_to_height) {
            DriverState {
                last_observation: Some(
                    SyncObservation {
                        scanned_to_height: outcome.scanned_to_height,
                        observed_at_ms: outcome.completed_at_ms,
                    },
                ),
                ..self
            }
        } else {
            self
        }
    }

    /// Records a completed run as the wallet's latest chain observation.
    ///
    /// A run that scanned a chunk compared that chunk's commitment-tree roots against the chain
    /// before it returned. A run that scanned nothing compared nothing, so it re-dates the
    /// observation only up to a height the wallet has already checked.
    pub fn observe_completed_run(&mut self, outcome: SyncOutcome)
        ensures
            *final(self) == old(self).after_completed_run(outcome),
    {
        if outcome.block_count == 0 && !self.has_checked(outcome.scanned_to_height) {
            return;
        }
        self.last_observation = Some(
            SyncObservation {
                scanned_to_height: outcome.scanned_to_height,
                observed_at_ms: outcome.completed_at_ms,
            },
        );
    }

    /// The state after a faulted attempt's chunk was taken as an observation, where it may be.
    pub open spec fn after_committed_chunk(
        self,
        committed: CommittedChunk,
        frontier: ScanFrontier,
        now_ms: u64,
    ) -> DriverState {
        match (committed, frontier) {
            (CommittedChunk::Checked, ScanFrontier::At(scanned_to_height)) => DriverState {
                last_observation: Some(
                    SyncObservation { scanned_to_height, observed_at_ms: now_ms },
                ),
                ..self
            },
            _ => self,
        }
    }

    /// Records a faulted attempt's committed chunk as the wallet's latest chain observation.
    ///
    /// A chunk whose roots went uncompared is not one: its blocks are committed, but nothing
    /// has checked them against the chain.
    pub fn observe_committed_chunk(
        &mut self,
        committed: CommittedChunk,
        frontier: ScanFrontier,
        now_ms: u64,
    )
        ensures
            *final(self) == old(self).after_committed_chunk(committed, frontier, now_ms),
    {
        match (committed, frontier) {
            (CommittedChunk::Checked, ScanFrontier::At(scanned_to_height)) => {
                self.last_observation = Some(
                    SyncObservation { scanned_to_height, observed_at_ms: now_ms },
                );
            },
            _ => {},
        }
    }

    /// A snapshot of `phase` that carries this state's observation and fault.
    pub open spec fn publication_spec(
        self,
        phase: SyncDriverPhase,
        basis: SnapshotBasis,
        transition: Option<DriverTransition>,
    ) -> Publication {
        Publication::Snapshot {
            phase,
            basis,
            last_observation: self.last_observation,
            last_fault: self.last_fault,
            transition,
        }
    }

    /// A snapshot of `phase` that carries this state's observation and fault.
    pub fn publication(
        &self,
        phase: SyncDriverPhase,
        basis: SnapshotBasis,
        transition: Option<DriverTransition>,
    ) -> (publication: Publication)
        ensures
            publication == self.publication_spec(phase, basis, transition),
    {
        Publication::Snapshot {
            phase,
            basis,
            last_observation: self.last_observation,
            last_fault: copy_fault(&self.last_fault),
            transition,
        }
    }

    /// The state after a completed sync.
    pub open spec fn after_completed_sync(self, outcome: SyncOutcome) -> DriverState {
        DriverState {
            last_fault: None,
            ..self.after_settling(Some(outcome.scanned_to_height)).after_completed_run(outcome)
        }
    }

    /// What a completed sync publishes: a repair success if the scan passed the fault boundary.
    pub open spec fn completion_spec(
        self,
        outcome: SyncOutcome,
        recorded_tip: bool,
        now_ms: u64,
    ) -> Publication {
        self.after_completed_sync(outcome).publication_spec(
            if crate::sync::frontier::more_to_sync(outcome, recorded_tip) {
                SyncDriverPhase::Syncing
            } else {
                SyncDriverPhase::Waiting
            },
            SnapshotBasis::FreshRead,
            match self.recovery {
                Some(recovery) => if self.recovery_survives(Some(outcome.scanned_to_height)) {
                    None
                } else {
                    Some(
                        DriverTransition::RepairSucceeded {
                            repair: recovery.rung,
                            total_faults: recovery.consecutive_faults,
                            degraded_for_ms: elapsed(recovery.degraded_since_ms, now_ms),
                        },
                    )
                },
                None => None,
            },
        )
    }

    /// Takes in a completed sync run; says what to publish and whether the wakeup should run
    /// another iteration.
    pub fn complete_sync(&mut self, outcome: SyncOutcome, recorded_tip: bool, now_ms: u64) -> (
    completion: (Publication, bool))
        ensures
            *final(self) == old(self).after_completed_sync(outcome),
            completion.0 == old(self).completion_spec(outcome, recorded_tip, now_ms),
            completion.1 == crate::sync::frontier::more_to_sync(outcome, recorded_tip),
    {
        let recovered = self.settle_recovery(Some(outcome.scanned_to_height));
        self.observe_completed_run(outcome);
        self.last_fault = None;
        let more = should_continue_syncing(outcome, recorded_tip);
        let phase = if more {
            SyncDriverPhase::Syncing
        } else {
            SyncDriverPhase::Waiting
        };
        let transition = match recovered {
            Some(recovery) => Some(
                DriverTransition::RepairSucceeded {
                    repair: recovery.rung,
                    total_faults: recovery.consecutive_faults,
                    degraded_for_ms: now_ms.saturating_sub(recovery.degraded_since_ms),
                },
            ),
            None => None,
        };
        (self.publication(phase, SnapshotBasis::FreshRead, transition), more)
    }

    /// The state after slow progress up to `scanned_after`.
    pub open spec fn after_slow_progress(
        self,
        scanned_after: Option<BlockHeight>,
    ) -> DriverState {
        DriverState { last_fault: None, ..self.after_settling(scanned_after) }
    }

    /// Takes in an environment fault whose iteration still advanced the wallet.
    ///
    /// Presents the driver as healthy again without applying a repair or backoff. Ladder memory
    /// survives dormant unless the advance passed the recovery's fault boundary.
    pub fn note_slow_progress(
        &mut self,
        reason: String,
        blocks_advanced: u32,
        scanned_after: Option<BlockHeight>,
    ) -> (publication: Publication)
        ensures
            *final(self) == old(self).after_slow_progress(scanned_after),
            publication == final(self).publication_spec(
                SyncDriverPhase::Syncing,
                SnapshotBasis::FreshRead,
                Some(DriverTransition::SlowProgress { reason, blocks_advanced }),
            ),
    {
        let _settled = self.settle_recovery(scanned_after);
        self.last_fault = None;
        self.publication(
            SyncDriverPhase::Syncing,
            SnapshotBasis::FreshRead,
            Some(DriverTransition::SlowProgress { reason, blocks_advanced }),
        )
    }

    /// The recovery a fault is folded into: woken, entered if there was none, its boundary
    /// raised.
    pub open spec fn woken_recovery(
        self,
        classified: SyncRepair,
        fault_height: Option<BlockHeight>,
        now_ms: u64,
    ) -> RecoveryState {
        let entered = match self.recovery {
            Some(recovery) => recovery,
            None => RecoveryState::entering_spec(classified, now_ms),
        };
        RecoveryState {
            dormant: false,
            fault_height: entered.raised_fault_height(fault_height),
            ..entered
        }
    }

    /// The recovery after a fault.
    pub open spec fn struck_recovery(
        self,
        fault: ClassifiedFault,
        fault_height: Option<BlockHeight>,
        policy: SyncRecoveryPolicy,
        now_ms: u64,
    ) -> RecoveryState {
        self.woken_recovery(fault.repair, fault_height, now_ms).after_fault(
            fault.repair,
            fault.restartable,
            policy,
        )
    }

    /// The state after a recorded fault.
    pub open spec fn after_recorded_fault(
        self,
        fault: ClassifiedFault,
        fault_height: Option<BlockHeight>,
        policy: SyncRecoveryPolicy,
        now_ms: u64,
    ) -> DriverState {
        let recovery = self.struck_recovery(fault, fault_height, policy, now_ms);
        DriverState {
            recovery: Some(recovery),
            last_fault: Some(
                SyncFault {
                    reason: fault.reason,
                    repair: recovery.rung,
                    occurred_at_ms: now_ms,
                    consecutive_faults: recovery.consecutive_faults,
                },
            ),
            ..self
        }
    }

    /// What a recorded fault publishes: the fault, then the escalation if the fault exhausted
    /// its rung.
    pub open spec fn fault_publications(
        self,
        fault: ClassifiedFault,
        fault_height: Option<BlockHeight>,
        policy: SyncRecoveryPolicy,
        now_ms: u64,
    ) -> Seq<Publication> {
        let woken = self.woken_recovery(fault.repair, fault_height, now_ms);
        let recovery = self.struck_recovery(fault, fault_height, policy, now_ms);
        let next = self.after_recorded_fault(fault, fault_height, policy, now_ms);
        let announced = next.publication_spec(
            SyncDriverPhase::Recovering {
                repair: recovery.rung,
                attempt: crate::domain::lesser(
                    recovery.attempts_at_rung + 1,
                    u32::MAX as int,
                ) as u32,
                next_attempt_at_ms: later(now_ms, recovery.backoff_ms),
            },
            SnapshotBasis::FreshRead,
            Some(DriverTransition::Fault { fault: next.last_fault->Some_0 }),
        );
        if woken.exhausts_rung(fault.repair, fault.restartable, policy) {
            seq![
                announced,
                Publication::Republish {
                    transition: Some(
                        DriverTransition::RepairEscalated {
                            from_repair: woken.rung,
                            to_repair: recovery.rung,
                        },
                    ),
                },
            ]
        } else {
            seq![announced]
        }
    }

    /// Folds a fault into the recovery ladder and says what to publish.
    ///
    /// The entry rung is the graver of the current rung and the fault's classification; the
    /// ladder never de-escalates within one degraded episode.
    pub fn record_fault(
        &mut self,
        classified: ClassifiedFault,
        fault_height: Option<BlockHeight>,
        policy: SyncRecoveryPolicy,
        now_ms: u64,
    ) -> (publications: Vec<Publication>)
        ensures
            *final(self) == old(self).after_recorded_fault(
                classified,
                fault_height,
                policy,
                now_ms,
            ),
            publications@ == old(self).fault_publications(
                classified,
                fault_height,
                policy,
                now_ms,
            ),
            old(self).wf() ==> final(self).wf(),
    {
        let mut recovery = match self.recovery {
            Some(recovery) => recovery,
            None => RecoveryState::entering(classified.repair, now_ms),
        };
        recovery.dormant = false;
        recovery.raise_fault_height(fault_height);
        let escalation = recovery.fold_fault(classified.repair, classified.restartable, policy);
        let fault = SyncFault {
            reason: classified.reason,
            repair: recovery.rung,
            occurred_at_ms: now_ms,
            consecutive_faults: recovery.consecutive_faults,
        };
        let phase = SyncDriverPhase::Recovering {
            repair: recovery.rung,
            attempt: recovery.attempts_at_rung.saturating_add(1),
            next_attempt_at_ms: now_ms.saturating_add(recovery.backoff_ms),
        };
        self.recovery = Some(recovery);
        self.last_fault = Some(fault.clone());
        let mut publications: Vec<Publication> = Vec::new();
        publications.push(
            self.publication(
                phase,
                SnapshotBasis::FreshRead,
                Some(DriverTransition::Fault { fault }),
            ),
        );
        if let Some((from_repair, to_repair)) = escalation {
            publications.push(
                Publication::Republish {
                    transition: Some(
                        DriverTransition::RepairEscalated { from_repair, to_repair },
                    ),
                },
            );
        }
        publications
    }

    /// When a driver that parks now re-arms.
    pub open spec fn parking(policy: SyncRecoveryPolicy, now_ms: u64) -> ParkedAt {
        ParkedAt {
            since_ms: now_ms,
            reprobe_at_ms: match policy.park_reprobe_ms {
                Some(hold_ms) => Some(later(now_ms, hold_ms)),
                None => None,
            },
        }
    }

    /// The state after parking.
    pub open spec fn after_parking(
        self,
        policy: SyncRecoveryPolicy,
        now_ms: u64,
    ) -> DriverState {
        DriverState {
            recovery: match self.recovery {
                Some(recovery) => Some(
                    RecoveryState { parked: Some(Self::parking(policy, now_ms)), ..recovery },
                ),
                None => None,
            },
            ..self
        }
    }

    /// What parking publishes.
    pub open spec fn parking_publication(
        self,
        policy: SyncRecoveryPolicy,
        now_ms: u64,
    ) -> Publication {
        let parked = Self::parking(policy, now_ms);
        self.publication_spec(
            SyncDriverPhase::Parked {
                since_ms: parked.since_ms,
                reprobe_at_ms: parked.reprobe_at_ms,
            },
            SnapshotBasis::FreshRead,
            Some(
                DriverTransition::Parked {
                    fault: self.last_fault,
                    reprobe_at_ms: parked.reprobe_at_ms,
                },
            ),
        )
    }

    /// Parks the driver on its last fault.
    pub fn enter_park(&mut self, policy: SyncRecoveryPolicy, now_ms: u64) -> (publication:
        Publication)
        ensures
            *final(self) == old(self).after_parking(policy, now_ms),
            publication == old(self).parking_publication(policy, now_ms),
    {
        let reprobe_at_ms = match policy.park_reprobe_ms {
            Some(hold_ms) => Some(now_ms.saturating_add(hold_ms)),
            None => None,
        };
        if let Some(mut recovery) = self.recovery {
            recovery.parked = Some(ParkedAt { since_ms: now_ms, reprobe_at_ms });
            self.recovery = Some(recovery);
        }
        let fault = copy_fault(&self.last_fault);
        self.publication(
            SyncDriverPhase::Parked { since_ms: now_ms, reprobe_at_ms },
            SnapshotBasis::FreshRead,
            Some(DriverTransition::Parked { fault, reprobe_at_ms }),
        )
    }

    /// Consecutive stream interruptions after one more.
    pub open spec fn stream_faults_after_one(self) -> u32 {
        crate::domain::lesser(self.stream_consecutive_faults + 1, u32::MAX as int) as u32
    }

    /// Whether one more interruption gives the stream up.
    pub open spec fn stream_parks(self, policy: SyncRecoveryPolicy) -> bool {
        self.stream_faults_after_one() >= policy.escalate_after_faults
    }

    /// The state after a chain-event stream interruption.
    pub open spec fn after_stream_fault(
        self,
        reason: String,
        policy: SyncRecoveryPolicy,
        now_ms: u64,
    ) -> DriverState {
        let faults = self.stream_faults_after_one();
        DriverState {
            stream_consecutive_faults: faults,
            stream_next_attempt_at_ms: later(
                now_ms,
                crate::sync::ladder::backoff_spec(policy, faults) as u64,
            ),
            stream_reprobe: if self.stream_parks(policy) {
                match policy.park_reprobe_ms {
                    Some(hold_ms) => StreamReprobe::At(later(now_ms, hold_ms)),
                    None => StreamReprobe::ParkedWithoutDeadline,
                }
            } else {
                self.stream_reprobe
            },
            last_fault: Some(
                SyncFault {
                    reason,
                    repair: if self.stream_parks(policy) {
                        SyncRepair::Park
                    } else {
                        SyncRepair::Retry
                    },
                    occurred_at_ms: now_ms,
                    consecutive_faults: 0,
                },
            ),
            ..self
        }
    }

    /// The phase a stream interruption puts the driver in.
    pub open spec fn stream_fault_phase(
        self,
        policy: SyncRecoveryPolicy,
        now_ms: u64,
    ) -> SyncDriverPhase {
        let faults = self.stream_faults_after_one();
        if self.stream_parks(policy) {
            SyncDriverPhase::Parked {
                since_ms: now_ms,
                reprobe_at_ms: Self::parking(policy, now_ms).reprobe_at_ms,
            }
        } else {
            SyncDriverPhase::Recovering {
                repair: SyncRepair::Retry,
                attempt: faults,
                next_attempt_at_ms: later(
                    now_ms,
                    crate::sync::ladder::backoff_spec(policy, faults) as u64,
                ),
            }
        }
    }

    /// Takes in a chain-event stream interruption and applies bounded reconnect backoff. The
    /// fault does not enter the repair ladder.
    pub fn record_stream_fault(
        &mut self,
        reason: String,
        policy: SyncRecoveryPolicy,
        now_ms: u64,
    ) -> (publication: Publication)
        ensures
            *final(self) == old(self).after_stream_fault(reason, policy, now_ms),
            publication == final(self).publication_spec(
                old(self).stream_fault_phase(policy, now_ms),
                SnapshotBasis::FreshRead,
                None,
            ),
    {
        self.stream_consecutive_faults = self.stream_consecutive_faults.saturating_add(1);
        let backoff_ms: u64 = backoff_for(policy, self.stream_consecutive_faults);
        self.stream_next_attempt_at_ms = now_ms.saturating_add(backoff_ms);
        let should_park = self.stream_consecutive_faults >= policy.escalate_after_faults;
        if should_park {
            self.stream_reprobe = match policy.park_reprobe_ms {
                Some(hold_ms) => StreamReprobe::At(now_ms.saturating_add(hold_ms)),
                None => StreamReprobe::ParkedWithoutDeadline,
            };
        }
        let repair = if should_park {
            SyncRepair::Park
        } else {
            SyncRepair::Retry
        };
        self.last_fault = Some(
            SyncFault { reason, repair, occurred_at_ms: now_ms, consecutive_faults: 0 },
        );
        let phase = if should_park {
            SyncDriverPhase::Parked {
                since_ms: now_ms,
                reprobe_at_ms: self.stream_reprobe.deadline(),
            }
        } else {
            SyncDriverPhase::Recovering {
                repair: SyncRepair::Retry,
                attempt: self.stream_consecutive_faults,
                next_attempt_at_ms: self.stream_next_attempt_at_ms,
            }
        };
        self.publication(phase, SnapshotBasis::FreshRead, None)
    }
}

/// A recovery with a fault boundary is cleared by a sync exactly when the sync ended strictly
/// above the boundary; until then its ladder position is kept, asleep.
pub proof fn recovery_clears_only_above_its_boundary(
    state: DriverState,
    recovery: RecoveryState,
    boundary: BlockHeight,
    scanned_to: Option<BlockHeight>,
)
    requires
        state.recovery == Some(recovery),
        recovery.fault_height == Some(boundary),
    ensures
        state.after_settling(scanned_to).recovery is None <==> (scanned_to matches Some(scanned)
            && scanned.0 > boundary.0),
        state.after_settling(scanned_to).recovery matches Some(kept) ==> kept == (RecoveryState {
            dormant: true,
            ..recovery
        }),
{
}

/// A recovery kept asleep resumes where it left off: the next fault is folded into the same
/// ladder position it would have been folded into without the sync in between.
pub proof fn a_recurring_fault_resumes_the_ladder(
    state: DriverState,
    scanned_to: Option<BlockHeight>,
    fault: ClassifiedFault,
    fault_height: Option<BlockHeight>,
    policy: SyncRecoveryPolicy,
    now_ms: u64,
)
    requires
        state.recovery_survives(scanned_to),
    ensures
        state.after_settling(scanned_to).struck_recovery(fault, fault_height, policy, now_ms)
            == state.struck_recovery(fault, fault_height, policy, now_ms),
{
}

/// Blocks that were not compared with the chain never become an observation: not through a
/// faulted attempt, and not through a later run that scanned nothing.
pub proof fn unchecked_blocks_are_never_observed(
    state: DriverState,
    frontier: ScanFrontier,
    now_ms: u64,
    outcome: SyncOutcome,
)
    requires
        outcome.block_count == 0,
        !state.has_checked_spec(outcome.scanned_to_height),
    ensures
        ({
            let unchecked = state.after_committed_chunk(
                CommittedChunk::Unchecked,
                frontier,
                now_ms,
            );
            &&& unchecked.last_observation == state.last_observation
            &&& unchecked.after_completed_run(outcome).last_observation
                == state.last_observation
        }),
{
}

/// A stream interruption leaves the repair ladder and the observation alone.
pub proof fn stream_faults_stay_off_the_ladder(
    state: DriverState,
    reason: String,
    policy: SyncRecoveryPolicy,
    now_ms: u64,
)
    ensures
        ({
            let next = state.after_stream_fault(reason, policy, now_ms);
            &&& next.recovery == state.recovery
            &&& next.last_observation == state.last_observation
            &&& next.last_fault matches Some(fault) && fault.consecutive_faults == 0
        }),
{
}

} // verus!
