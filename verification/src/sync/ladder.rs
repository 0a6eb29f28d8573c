//! Escalating repair ladder of the sync driver.
//!
//! Wallet chain state is disposable derived state: every fault is classified onto a rung that
//! retries, rewinds below the divergence, rebuilds from the seed and birthday, or parks when no
//! software action cures it. The ladder only ever escalates within one degraded episode.

use crate::domain::BlockHeight;
use crate::sync::options::SyncRecoveryPolicy;
use vstd::prelude::*;

verus! {

/// Number of rewind depths on the ladder.
pub const REWIND_DEPTHS: usize = 2;

/// Blocks rewound at the first depth.
pub const SHALLOW_REWIND_BLOCKS: u32 = 10;

/// Blocks rewound at the deepest depth. Nodes never apply a reorg deeper than coinbase maturity
/// minus one, so this clears any divergence the chain can serve; the next rung is a rebuild.
pub const DEEP_REWIND_BLOCKS: u32 = 100;

/// Blocks to rewind at depth `index`.
pub open spec fn rewind_depth_blocks(index: int) -> u32 {
    if index == 0 {
        SHALLOW_REWIND_BLOCKS
    } else {
        DEEP_REWIND_BLOCKS
    }
}

/// Blocks to rewind at depth `index` of the ladder.
pub fn rewind_depth(index: usize) -> (blocks: u32)
    requires
        index < REWIND_DEPTHS,
    ensures
        blocks == rewind_depth_blocks(index as int),
{
    if index == 0 {
        SHALLOW_REWIND_BLOCKS
    } else {
        DEEP_REWIND_BLOCKS
    }
}

/// Repair rung the sync driver applies before its next sync attempt, in order of severity.
#[derive(Clone, Copy, Debug, PartialEq, Eq, Structural, PartialOrd, Ord)]
pub enum SyncRepair {
    /// Transient fault; the same state may succeed on the next attempt.
    Retry,
    /// The wallet's view diverged from the chain; truncate below the divergence.
    Rewind,
    /// Derived state is untrustworthy; rebuild it from the seed and the account birthday.
    RescanFromBirthday,
    /// No software action cures this; hold and keep republishing the reason.
    Park,
}

impl SyncRepair {
    /// Position of the rung on the ladder.
    pub open spec fn severity(self) -> int {
        match self {
            SyncRepair::Retry => 0,
            SyncRepair::Rewind => 1,
            SyncRepair::RescanFromBirthday => 2,
            SyncRepair::Park => 3,
        }
    }

    /// Whether this rung is higher on the ladder than `other`.
    pub fn is_above(self, other: SyncRepair) -> (above: bool)
        ensures
            above == (self.severity() > other.severity()),
    {
        match (self, other) {
            (SyncRepair::Retry, _) => false,
            (SyncRepair::Rewind, SyncRepair::Retry) => true,
            (SyncRepair::Rewind, _) => false,
            (SyncRepair::RescanFromBirthday, SyncRepair::Retry | SyncRepair::Rewind) => true,
            (SyncRepair::RescanFromBirthday, _) => false,
            (SyncRepair::Park, SyncRepair::Park) => false,
            (SyncRepair::Park, _) => true,
        }
    }

    /// The graver of two rungs.
    pub open spec fn graver(self, other: SyncRepair) -> SyncRepair {
        if other.severity() > self.severity() {
            other
        } else {
            self
        }
    }

    /// The stable text of a rung.
    pub open spec fn label_text(self) -> Seq<char> {
        match self {
            SyncRepair::Retry => "retry"@,
            SyncRepair::Rewind => "rewind"@,
            SyncRepair::RescanFromBirthday => "rescan_from_birthday"@,
            SyncRepair::Park => "park"@,
        }
    }

    /// Stable `snake_case` label for logs and metrics.
    pub fn label(self) -> (label: &'static str)
        ensures
            label@ == self.label_text(),
    {
        match self {
            SyncRepair::Retry => "retry",
            SyncRepair::Rewind => "rewind",
            SyncRepair::RescanFromBirthday => "rescan_from_birthday",
            SyncRepair::Park => "park",
        }
    }
}

/// When a driver parked and when it re-arms.
#[derive(Clone, Copy, Debug, PartialEq, Eq, Structural)]
pub struct ParkedAt {
    /// Unix milliseconds when the driver parked.
    pub since_ms: u64,
    /// Unix milliseconds when the driver re-arms the ladder, if reprobing is enabled.
    pub reprobe_at_ms: Option<u64>,
}

/// Applied repairs of the current rung before the next fault escalates it.
pub open spec fn escalation_threshold_spec(
    rung: SyncRepair,
    rung_all_restartable: bool,
    policy: SyncRecoveryPolicy,
) -> u32 {
    match rung {
        SyncRepair::RescanFromBirthday => policy.max_rescan_attempts,
        SyncRepair::Retry => if rung_all_restartable {
            policy.restartable_escalate_after_faults
        } else {
            policy.escalate_after_faults
        },
        SyncRepair::Rewind | SyncRepair::Park => policy.escalate_after_faults,
    }
}

/// Applied repairs of the current rung before the next fault escalates it: rebuilds have their
/// own count, and a retry rung that only saw restartable faults the wider one.
pub fn escalation_threshold(
    rung: SyncRepair,
    rung_all_restartable: bool,
    policy: SyncRecoveryPolicy,
) -> (threshold: u32)
    ensures
        threshold == escalation_threshold_spec(rung, rung_all_restartable, policy),
{
    match rung {
        SyncRepair::RescanFromBirthday => policy.max_rescan_attempts,
        SyncRepair::Retry => if rung_all_restartable {
            policy.restartable_escalate_after_faults
        } else {
            policy.escalate_after_faults
        },
        SyncRepair::Rewind | SyncRepair::Park => policy.escalate_after_faults,
    }
}

/// Number of doublings applied to the first backoff at the given fault: one per consecutive
/// fault after the first, at most thirty-one.
pub open spec fn backoff_doublings(consecutive_faults: u32) -> nat {
    if consecutive_faults == 0 {
        0
    } else if consecutive_faults > 32 {
        31
    } else {
        (consecutive_faults - 1) as nat
    }
}

/// Backoff at the given consecutive fault: the first backoff doubled per fault, held at the
/// cap.
pub open spec fn backoff_spec(policy: SyncRecoveryPolicy, consecutive_faults: u32) -> int {
    crate::domain::lesser(
        policy.fault_backoff_initial_ms * vstd::arithmetic::power2::pow2(
            backoff_doublings(consecutive_faults),
        ) as int,
        policy.fault_backoff_cap_ms as int,
    )
}

/// Backoff before the attempt that follows the given consecutive fault, in milliseconds.
pub fn backoff_for(policy: SyncRecoveryPolicy, consecutive_faults: u32) -> (backoff_ms: u64)
    ensures
        backoff_ms == backoff_spec(policy, consecutive_faults),
{
    let doublings: u32 = if consecutive_faults == 0 {
        0
    } else if consecutive_faults > 32 {
        31
    } else {
        consecutive_faults - 1
    };
    let cap: u64 = policy.fault_backoff_cap_ms;
    let initial: u64 = policy.fault_backoff_initial_ms;
    let mut scaled: u64 = initial;
    let mut done: u32 = 0;
    proof {
        vstd::arithmetic::power2::lemma2_to64();
        assert(initial * vstd::arithmetic::power2::pow2(0) as int == initial);
    }
    while done < doublings
        invariant
            done <= doublings <= 31,
            cap == policy.fault_backoff_cap_ms,
            initial == policy.fault_backoff_initial_ms,
            doublings == backoff_doublings(consecutive_faults),
            scaled == initial * vstd::arithmetic::power2::pow2(done as nat) as int,
        decreases doublings - done,
    {
        proof {
            vstd::arithmetic::power2::lemma_pow2_unfold((done + 1) as nat);
            let fewer = vstd::arithmetic::power2::pow2(done as nat) as int;
            let more = vstd::arithmetic::power2::pow2((done + 1) as nat) as int;
            assert(initial * more == 2 * (initial * fewer)) by (nonlinear_arith)
                requires
                    more == 2 * fewer,
            ;
        }
        if scaled > u64::MAX / 2 {
            proof {
                vstd::arithmetic::power2::lemma_pow2_pos((done + 1) as nat);
                doublings_grow((done + 1) as nat, doublings as nat);
                let low = vstd::arithmetic::power2::pow2((done + 1) as nat) as int;
                let high = vstd::arithmetic::power2::pow2(doublings as nat) as int;
                assert(initial * low <= initial * high) by (nonlinear_arith)
                    requires
                        0 <= initial,
                        low <= high,
                ;
            }
            return cap;
        }
        scaled = scaled * 2;
        done += 1;
    }
    if scaled > cap {
        cap
    } else {
        scaled
    }
}

/// More doublings never shrink the factor.
proof fn doublings_grow(few: nat, many: nat)
    requires
        few <= many,
    ensures
        vstd::arithmetic::power2::pow2(few) <= vstd::arithmetic::power2::pow2(many),
    decreases many - few,
{
    if few < many {
        doublings_grow(few, (many - 1) as nat);
        vstd::arithmetic::power2::lemma_pow2_unfold(many);
    }
}

/// Position on the repair ladder during one degraded episode.
#[derive(Clone, Copy, Debug, PartialEq, Eq, Structural)]
pub struct RecoveryState {
    /// Current rung.
    pub rung: SyncRepair,
    /// Gravest classification seen in the episode.
    pub max_classified: SyncRepair,
    /// Repairs applied at the current rung.
    pub attempts_at_rung: u32,
    /// Depth the rewind rung stands at.
    pub rewind_depth_index: usize,
    /// Faults of the episode.
    pub consecutive_faults: u32,
    /// Backoff before the next attempt, in milliseconds.
    pub backoff_ms: u64,
    /// Unix milliseconds when the episode began.
    pub degraded_since_ms: u64,
    /// Set while the driver is parked.
    pub parked: Option<ParkedAt>,
    /// Highest wallet scanned height observed at fault time. Recovery is complete only when a
    /// sync finishes strictly above this height; anything at or below it re-covers known-good
    /// ground and must not clear the ladder.
    pub fault_height: Option<BlockHeight>,
    /// A dormant recovery applies no repair or backoff; it survives completed syncs below
    /// `fault_height` as ladder memory and is woken by the next fault.
    pub dormant: bool,
    /// Whether every fault folded into the current retry rung was restartable. Stale once the
    /// rung escalates past retry.
    pub rung_all_restartable: bool,
}

impl RecoveryState {
    /// The rewind depth is one of the ladder's.
    pub open spec fn wf(self) -> bool {
        self.rewind_depth_index < REWIND_DEPTHS
    }

    /// The state at the entry of an episode.
    pub open spec fn entering_spec(rung: SyncRepair, now_ms: u64) -> RecoveryState {
        RecoveryState {
            rung,
            max_classified: rung,
            attempts_at_rung: 0,
            rewind_depth_index: 0,
            consecutive_faults: 0,
            backoff_ms: 0,
            degraded_since_ms: now_ms,
            parked: None,
            fault_height: None,
            dormant: false,
            rung_all_restartable: true,
        }
    }

    /// Enters the ladder at `rung`.
    pub fn entering(rung: SyncRepair, now_ms: u64) -> (recovery: RecoveryState)
        ensures
            recovery == Self::entering_spec(rung, now_ms),
            recovery.wf(),
    {
        RecoveryState {
            rung,
            max_classified: rung,
            attempts_at_rung: 0,
            rewind_depth_index: 0,
            consecutive_faults: 0,
            backoff_ms: 0,
            degraded_since_ms: now_ms,
            parked: None,
            fault_height: None,
            dormant: false,
            rung_all_restartable: true,
        }
    }

    /// The state one step further up the ladder. Retrying leads to a rewind only if a state
    /// fault was seen and parks otherwise; rewinding walks its depths and then rebuilds;
    /// rebuilding parks.
    pub open spec fn escalated(self) -> RecoveryState {
        let (rung, depth): (SyncRepair, usize) = match self.rung {
            SyncRepair::Retry => if self.max_classified.severity()
                >= SyncRepair::Rewind.severity() {
                (SyncRepair::Rewind, 0)
            } else {
                (SyncRepair::Park, self.rewind_depth_index)
            },
            SyncRepair::Rewind => if self.rewind_depth_index + 1 < REWIND_DEPTHS {
                (SyncRepair::Rewind, (self.rewind_depth_index + 1) as usize)
            } else {
                (SyncRepair::RescanFromBirthday, self.rewind_depth_index)
            },
            SyncRepair::RescanFromBirthday | SyncRepair::Park => (
                SyncRepair::Park,
                self.rewind_depth_index,
            ),
        };
        RecoveryState { rung, rewind_depth_index: depth, attempts_at_rung: 0, ..self }
    }

    /// The state that has seen one more classification, on the same rung.
    pub open spec fn noting(self, classified: SyncRepair, restartable: bool) -> RecoveryState {
        RecoveryState {
            max_classified: self.max_classified.graver(classified),
            rung_all_restartable: if classified.severity() > self.rung.severity() {
                restartable
            } else if classified == self.rung {
                self.rung_all_restartable && restartable
            } else {
                self.rung_all_restartable
            },
            ..self
        }
    }

    /// Whether folding the fault exhausts the current rung.
    pub open spec fn exhausts_rung(
        self,
        classified: SyncRepair,
        restartable: bool,
        policy: SyncRecoveryPolicy,
    ) -> bool {
        &&& classified.severity() <= self.rung.severity()
        &&& self.attempts_at_rung >= escalation_threshold_spec(
            self.rung,
            self.noting(classified, restartable).rung_all_restartable,
            policy,
        )
    }

    /// The state after one classified fault: a graver classification is entered at once, an
    /// exhausted rung escalates, and the fault is counted and sets the backoff.
    pub open spec fn after_fault(
        self,
        classified: SyncRepair,
        restartable: bool,
        policy: SyncRecoveryPolicy,
    ) -> RecoveryState {
        let noted = self.noting(classified, restartable);
        let moved = if classified.severity() > self.rung.severity() {
            RecoveryState {
                rung: classified,
                attempts_at_rung: 0,
                rewind_depth_index: if classified is Rewind {
                    0
                } else {
                    self.rewind_depth_index
                },
                ..noted
            }
        } else if self.exhausts_rung(classified, restartable, policy) {
            noted.escalated()
        } else {
            noted
        };
        let consecutive_faults = crate::domain::lesser(
            self.consecutive_faults + 1,
            u32::MAX as int,
        ) as u32;
        RecoveryState {
            consecutive_faults,
            backoff_ms: backoff_spec(policy, consecutive_faults) as u64,
            ..moved
        }
    }

    /// Folds one classified fault into the ladder, escalating the rung when the current rung
    /// has exhausted its attempts. Returns the rung transition when one occurred.
    pub fn fold_fault(
        &mut self,
        classified: SyncRepair,
        restartable: bool,
        policy: SyncRecoveryPolicy,
    ) -> (escalation: Option<(SyncRepair, SyncRepair)>)
        ensures
            *final(self) == old(self).after_fault(classified, restartable, policy),
            escalation == if old(self).exhausts_rung(classified, restartable, policy) {
                Some((old(self).rung, final(self).rung))
            } else {
                None
            },
    {
        let above = classified.is_above(self.rung);
        if classified.is_above(self.max_classified) {
            self.max_classified = classified;
        }
        if above {
            self.rung_all_restartable = restartable;
        } else if classified == self.rung {
            self.rung_all_restartable = self.rung_all_restartable && restartable;
        }
        let escalation = if above {
            self.rung = classified;
            self.attempts_at_rung = 0;
            if classified == SyncRepair::Rewind {
                self.rewind_depth_index = 0;
            }
            None
        } else if self.attempts_at_rung >= escalation_threshold(
            self.rung,
            self.rung_all_restartable,
            policy,
        ) {
            let from_repair = self.rung;
            escalate(self);
            Some((from_repair, self.rung))
        } else {
            None
        };
        self.consecutive_faults = self.consecutive_faults.saturating_add(1);
        self.backoff_ms = backoff_for(policy, self.consecutive_faults);
        escalation
    }

    /// The state after one more applied repair.
    pub open spec fn after_applied_repair(self) -> RecoveryState {
        RecoveryState {
            attempts_at_rung: crate::domain::lesser(
                self.attempts_at_rung + 1,
                u32::MAX as int,
            ) as u32,
            ..self
        }
    }

    /// Counts one applied repair at the current rung.
    pub fn note_applied_repair(&mut self)
        ensures
            *final(self) == old(self).after_applied_repair(),
    {
        self.attempts_at_rung = self.attempts_at_rung.saturating_add(1);
    }

    /// The higher of the recorded fault boundary and a new one.
    pub open spec fn raised_fault_height(self, fault_height: Option<BlockHeight>) -> Option<
        BlockHeight,
    > {
        match (self.fault_height, fault_height) {
            (None, new) => new,
            (prior, None) => prior,
            (Some(prior), Some(new)) => Some(if prior.0 >= new.0 {
                prior
            } else {
                new
            }),
        }
    }

    /// Raises the fault boundary. Rewinds lower the scanned height, so a fault observed after
    /// one never lowers the recovery bar below the original conflict.
    pub fn raise_fault_height(&mut self, fault_height: Option<BlockHeight>)
        ensures
            *final(self) == (RecoveryState {
                fault_height: old(self).raised_fault_height(fault_height),
                ..*old(self)
            }),
    {
        if let Some(height) = fault_height {
            self.fault_height = Some(
                match self.fault_height {
                    Some(prior) => prior.higher_of(height),
                    None => height,
                },
            );
        }
    }
}

/// Moves the recovery one step up the ladder.
pub fn escalate(recovery: &mut RecoveryState)
    ensures
        *final(recovery) == old(recovery).escalated(),
{
    match recovery.rung {
        SyncRepair::Retry => {
            // A slow or unreachable upstream is not cured by rewinding or rebuilding; only a
            // classified state fault earns a state repair.
            if recovery.max_classified == SyncRepair::Retry {
                recovery.rung = SyncRepair::Park;
            } else {
                recovery.rung = SyncRepair::Rewind;
                recovery.rewind_depth_index = 0;
            }
        },
        SyncRepair::Rewind => {
            if recovery.rewind_depth_index < REWIND_DEPTHS - 1 {
                recovery.rewind_depth_index = recovery.rewind_depth_index + 1;
            } else {
                recovery.rung = SyncRepair::RescanFromBirthday;
            }
        },
        SyncRepair::RescanFromBirthday => {
            recovery.rung = SyncRepair::Park;
        },
        SyncRepair::Park => {},
    }
    recovery.attempts_at_rung = 0;
}

} // verus!
