//! What the repair ladder guarantees over whole streaks of faults.

use crate::domain::BlockHeight;
use crate::sync::ladder::{RecoveryState, SyncRepair};
use crate::sync::options::SyncRecoveryPolicy;
use vstd::prelude::*;

verus! {

/// One fault as the ladder sees it.
#[derive(Clone, Copy, Debug, PartialEq, Eq, Structural)]
pub struct LadderFault {
    /// Rung the fault is classified onto.
    pub classified: SyncRepair,
    /// Whether the fault is restartable.
    pub restartable: bool,
}

/// The ladder right after the last of `faults`, where one repair was applied between each two
/// of them.
pub open spec fn after_streak(
    start: RecoveryState,
    faults: Seq<LadderFault>,
    policy: SyncRecoveryPolicy,
) -> RecoveryState
    decreases faults.len(),
{
    if faults.len() == 0 {
        start
    } else {
        let before = if faults.len() == 1 {
            start
        } else {
            after_streak(start, faults.drop_last(), policy).after_applied_repair()
        };
        before.after_fault(faults.last().classified, faults.last().restartable, policy)
    }
}

/// A streak of `count` copies of one fault.
pub open spec fn repeated(fault: LadderFault, count: nat) -> Seq<LadderFault> {
    Seq::new(count, |i: int| fault)
}

/// One fault never moves the ladder down, and the gravest classification never shrinks.
pub proof fn a_fault_never_descends(
    state: RecoveryState,
    classified: SyncRepair,
    restartable: bool,
    policy: SyncRecoveryPolicy,
)
    ensures
        ({
            let next = state.after_fault(classified, restartable, policy);
            &&& next.rung.severity() >= state.rung.severity()
            &&& next.rung.severity() >= classified.severity()
            &&& next.max_classified.severity() >= state.max_classified.severity()
        }),
{
}

/// Within one degraded episode the ladder only ever escalates: after more faults the rung is
/// at least as high as after fewer.
pub proof fn a_streak_never_descends(
    start: RecoveryState,
    faults: Seq<LadderFault>,
    fewer: nat,
    policy: SyncRecoveryPolicy,
)
    requires
        fewer <= faults.len(),
    ensures
        after_streak(start, faults, policy).rung.severity() >= after_streak(
            start,
            faults.take(fewer as int),
            policy,
        ).rung.severity(),
    decreases faults.len(),
{
    if fewer == faults.len() {
        assert(faults.take(fewer as int) =~= faults);
    } else {
        a_streak_never_descends(start, faults.drop_last(), fewer, policy);
        assert(faults.drop_last().take(fewer as int) =~= faults.take(fewer as int));
    }
}

/// Every streak leaves the rewind depth on the ladder.
pub proof fn a_streak_keeps_the_depth_in_range(
    start: RecoveryState,
    faults: Seq<LadderFault>,
    policy: SyncRecoveryPolicy,
)
    requires
        start.wf(),
    ensures
        after_streak(start, faults, policy).wf(),
    decreases faults.len(),
{
    if faults.len() > 1 {
        a_streak_keeps_the_depth_in_range(start, faults.drop_last(), policy);
    }
}

/// A streak of environment faults never reaches a state repair: it retries or parks.
pub proof fn environment_faults_never_repair_state(
    faults: Seq<LadderFault>,
    now_ms: u64,
    policy: SyncRecoveryPolicy,
)
    requires
        forall|i: int| 0 <= i < faults.len() ==> faults[i].classified is Retry,
    ensures
        ({
            let state = after_streak(
                RecoveryState::entering_spec(SyncRepair::Retry, now_ms),
                faults,
                policy,
            );
            &&& state.max_classified is Retry
            &&& state.rung is Retry || state.rung is Park
        }),
    decreases faults.len(),
{
    if faults.len() > 1 {
        environment_faults_never_repair_state(faults.drop_last(), now_ms, policy);
    }
}

/// Where a streak of state faults stands: it rewinds at the shallow depth, then at the deep
/// one, then rebuilds, each for as many faults as the policy grants the rung, and then parks.
/// The bound on the whole streak is the sum of those counts.
pub proof fn state_faults_walk_the_whole_ladder(
    count: nat,
    restartable: bool,
    now_ms: u64,
    policy: SyncRecoveryPolicy,
)
    requires
        count > 0,
        policy.is_normal(),
    ensures
        ({
            let fault = LadderFault { classified: SyncRepair::Rewind, restartable };
            let state = after_streak(
                RecoveryState::entering_spec(SyncRepair::Rewind, now_ms),
                repeated(fault, count),
                policy,
            );
            let per_rewind = policy.escalate_after_faults;
            let rebuilds = policy.max_rescan_attempts;
            &&& count <= per_rewind ==> state.rung is Rewind && state.rewind_depth_index == 0
            &&& per_rewind < count <= 2 * per_rewind ==> state.rung is Rewind
                && state.rewind_depth_index == 1
            &&& 2 * per_rewind < count <= 2 * per_rewind + rebuilds
                ==> state.rung is RescanFromBirthday
            &&& 2 * per_rewind + rebuilds < count ==> state.rung is Park
        }),
    decreases count,
{
    walk_position(count, restartable, now_ms, policy);
}

/// The exact position on the walk of [`state_faults_walk_the_whole_ladder`].
proof fn walk_position(
    count: nat,
    restartable: bool,
    now_ms: u64,
    policy: SyncRecoveryPolicy,
)
    requires
        count > 0,
        policy.is_normal(),
    ensures
        ({
            let fault = LadderFault { classified: SyncRepair::Rewind, restartable };
            let state = after_streak(
                RecoveryState::entering_spec(SyncRepair::Rewind, now_ms),
                repeated(fault, count),
                policy,
            );
            let per_rewind = policy.escalate_after_faults;
            let rebuilds = policy.max_rescan_attempts;
            &&& state.max_classified is Rewind
            &&& count <= per_rewind ==> state.rung is Rewind && state.rewind_depth_index == 0
                && state.attempts_at_rung == count - 1
            &&& per_rewind < count <= 2 * per_rewind ==> state.rung is Rewind
                && state.rewind_depth_index == 1 && state.attempts_at_rung == count - per_rewind
                - 1
            &&& 2 * per_rewind < count <= 2 * per_rewind + rebuilds
                ==> state.rung is RescanFromBirthday && state.attempts_at_rung == count - 2
                * per_rewind - 1
            &&& 2 * per_rewind + rebuilds < count ==> state.rung is Park
        }),
    decreases count,
{
    let fault = LadderFault { classified: SyncRepair::Rewind, restartable };
    let faults = repeated(fault, count);
    if count > 1 {
        walk_position((count - 1) as nat, restartable, now_ms, policy);
        assert(faults.drop_last() =~= repeated(fault, (count - 1) as nat));
    }
}

/// A streak of environment faults retries for as many faults as the policy grants and then
/// parks: the wider count where every fault is restartable, the strict one where none is.
pub proof fn environment_faults_park_in_the_end(
    count: nat,
    restartable: bool,
    now_ms: u64,
    policy: SyncRecoveryPolicy,
)
    requires
        count > 0,
        policy.is_normal(),
    ensures
        ({
            let fault = LadderFault { classified: SyncRepair::Retry, restartable };
            let state = after_streak(
                RecoveryState::entering_spec(SyncRepair::Retry, now_ms),
                repeated(fault, count),
                policy,
            );
            let granted = if restartable {
                policy.restartable_escalate_after_faults
            } else {
                policy.escalate_after_faults
            };
            state.rung == if count <= granted {
                SyncRepair::Retry
            } else {
                SyncRepair::Park
            }
        }),
{
    environment_position(count, restartable, now_ms, policy);
}

/// The exact position on the streak of [`environment_faults_park_in_the_end`].
proof fn environment_position(
    count: nat,
    restartable: bool,
    now_ms: u64,
    policy: SyncRecoveryPolicy,
)
    requires
        count > 0,
        policy.is_normal(),
    ensures
        ({
            let fault = LadderFault { classified: SyncRepair::Retry, restartable };
            let state = after_streak(
                RecoveryState::entering_spec(SyncRepair::Retry, now_ms),
                repeated(fault, count),
                policy,
            );
            let granted = if restartable {
                policy.restartable_escalate_after_faults
            } else {
                policy.escalate_after_faults
            };
            &&& state.max_classified is Retry
            &&& state.rung_all_restartable == restartable || state.rung is Park
            &&& count <= granted ==> state.rung is Retry && state.attempts_at_rung == count - 1
            &&& count > granted ==> state.rung is Park
        }),
    decreases count,
{
    let fault = LadderFault { classified: SyncRepair::Retry, restartable };
    let faults = repeated(fault, count);
    if count > 1 {
        environment_position((count - 1) as nat, restartable, now_ms, policy);
        assert(faults.drop_last() =~= repeated(fault, (count - 1) as nat));
    }
}

/// A single retry fault that is not restartable falls back to the strict threshold at once,
/// however many restartable faults came before it.
pub proof fn one_plain_fault_reverts_to_the_strict_threshold(
    state: RecoveryState,
    policy: SyncRecoveryPolicy,
)
    requires
        state.rung is Retry,
    ensures
        state.exhausts_rung(SyncRepair::Retry, false, policy) == (state.attempts_at_rung
            >= policy.escalate_after_faults),
        !state.exhausts_rung(SyncRepair::Retry, false, policy) ==> !state.after_fault(
            SyncRepair::Retry,
            false,
            policy,
        ).rung_all_restartable,
{
}

/// A fault observed at any height never lowers the bar the recovery has to pass.
pub proof fn the_recovery_bar_never_lowers(
    state: RecoveryState,
    prior: BlockHeight,
    fault_height: Option<BlockHeight>,
)
    requires
        state.fault_height == Some(prior),
    ensures
        state.raised_fault_height(fault_height) matches Some(raised) && raised.0 >= prior.0,
{
}

/// Backoff never exceeds the cap, never shrinks from one consecutive fault to the next, starts
/// at the policy's first backoff, and doubles per fault while it stays below the cap and the
/// doublings are not exhausted.
pub proof fn backoff_doubles_up_to_the_cap(policy: SyncRecoveryPolicy, consecutive_faults: u32)
    requires
        policy.is_normal(),
        1 <= consecutive_faults < u32::MAX,
    ensures
        ({
            let now = crate::sync::ladder::backoff_spec(policy, consecutive_faults);
            let next = crate::sync::ladder::backoff_spec(
                policy,
                (consecutive_faults + 1) as u32,
            );
            &&& 0 < now <= next <= policy.fault_backoff_cap_ms
            &&& crate::sync::ladder::backoff_spec(policy, 1) == policy.fault_backoff_initial_ms
            &&& consecutive_faults < 32 ==> next == crate::domain::lesser(
                2 * now,
                policy.fault_backoff_cap_ms as int,
            )
        }),
{
    let doublings = crate::sync::ladder::backoff_doublings(consecutive_faults);
    let factor = vstd::arithmetic::power2::pow2(doublings) as int;
    let initial = policy.fault_backoff_initial_ms as int;
    vstd::arithmetic::power2::lemma2_to64();
    vstd::arithmetic::power2::lemma_pow2_pos(doublings);
    assert(initial * factor > 0) by (nonlinear_arith)
        requires
            initial > 0,
            factor > 0,
    ;
    if consecutive_faults < 32 {
        vstd::arithmetic::power2::lemma_pow2_unfold(doublings + 1);
        assert(initial * (2 * factor) == 2 * (initial * factor)) by (nonlinear_arith);
    }
    assert(initial * vstd::arithmetic::power2::pow2(0) as int == initial);
}

/// The rungs are ordered by gravity: retry, rewind, rebuild, park; and the graver of two is the
/// one that stands higher.
pub proof fn rungs_are_ordered_by_gravity(a: SyncRepair, b: SyncRepair)
    ensures
        SyncRepair::Retry.severity() < SyncRepair::Rewind.severity(),
        SyncRepair::Rewind.severity() < SyncRepair::RescanFromBirthday.severity(),
        SyncRepair::RescanFromBirthday.severity() < SyncRepair::Park.severity(),
        a.severity() == b.severity() ==> a == b,
        a.graver(b) == a || a.graver(b) == b,
        a.graver(b).severity() >= a.severity(),
        a.graver(b).severity() >= b.severity(),
{
}

/// The rewind depths are ten blocks and a hundred.
pub proof fn the_depths_are_ten_and_a_hundred_blocks()
    ensures
        crate::sync::ladder::REWIND_DEPTHS == 2,
        crate::sync::ladder::rewind_depth_blocks(0) == 10,
        crate::sync::ladder::rewind_depth_blocks(1) == 100,
{
}

/// Every fault is counted once and sets the backoff of its count; it raises the gravest
/// classification to its own where that is graver, and leaves alone when the episode began, its
/// boundary, and whether it is parked or asleep.
pub proof fn a_fault_is_counted_and_sets_the_backoff(
    state: RecoveryState,
    classified: SyncRepair,
    restartable: bool,
    policy: SyncRecoveryPolicy,
)
    requires
        policy.is_normal(),
    ensures
        ({
            let next = state.after_fault(classified, restartable, policy);
            &&& state.consecutive_faults < u32::MAX ==> next.consecutive_faults
                == state.consecutive_faults + 1
            &&& state.consecutive_faults == u32::MAX ==> next.consecutive_faults == u32::MAX
            &&& next.backoff_ms == crate::sync::ladder::backoff_spec(
                policy,
                next.consecutive_faults,
            )
            &&& next.backoff_ms <= policy.fault_backoff_cap_ms
            &&& next.max_classified == if classified.severity() > state.max_classified.severity() {
                classified
            } else {
                state.max_classified
            }
            &&& next.degraded_since_ms == state.degraded_since_ms
            &&& next.fault_height == state.fault_height
            &&& next.parked == state.parked
            &&& next.dormant == state.dormant
        }),
{
    let faults = state.after_fault(classified, restartable, policy).consecutive_faults;
    if faults < u32::MAX {
        backoff_doubles_up_to_the_cap(policy, faults);
    } else {
        backoff_doubles_up_to_the_cap(policy, (faults - 1) as u32);
    }
}

/// A fault graver than the rung at hand is entered at once, with no repair applied yet; a
/// rewind starts at its first depth.
pub proof fn a_graver_fault_is_entered_at_once(
    state: RecoveryState,
    classified: SyncRepair,
    restartable: bool,
    policy: SyncRecoveryPolicy,
)
    requires
        classified.severity() > state.rung.severity(),
    ensures
        ({
            let next = state.after_fault(classified, restartable, policy);
            &&& next.rung == classified
            &&& next.attempts_at_rung == 0
            &&& classified is Rewind ==> next.rewind_depth_index == 0
            &&& !(classified is Rewind) ==> next.rewind_depth_index == state.rewind_depth_index
            &&& next.rung_all_restartable == restartable
        }),
{
}

/// A fault on a rung that still has repairs granted leaves the ladder where it stands, its
/// repairs counted as before; only a plain fault at the rung itself takes the wider grant away.
pub proof fn an_unexhausted_rung_is_kept(
    state: RecoveryState,
    classified: SyncRepair,
    restartable: bool,
    policy: SyncRecoveryPolicy,
)
    requires
        classified.severity() <= state.rung.severity(),
        state.attempts_at_rung < match state.rung {
            SyncRepair::RescanFromBirthday => policy.max_rescan_attempts,
            SyncRepair::Retry => if state.rung_all_restartable && restartable {
                policy.restartable_escalate_after_faults
            } else {
                policy.escalate_after_faults
            },
            _ => policy.escalate_after_faults,
        },
    ensures
        ({
            let next = state.after_fault(classified, restartable, policy);
            &&& next.rung == state.rung
            &&& next.attempts_at_rung == state.attempts_at_rung
            &&& next.rewind_depth_index == state.rewind_depth_index
            &&& classified == state.rung ==> next.rung_all_restartable == (
            state.rung_all_restartable && restartable)
            &&& classified != state.rung ==> next.rung_all_restartable
                == state.rung_all_restartable
        }),
{
}

/// A fault on an exhausted rung moves the ladder one step up and no further: from a retry to a
/// rewind if a state fault was ever seen and to parking if none was, from the first depth to
/// the second, from the second to a rebuild, from a rebuild to parking.
pub proof fn an_exhausted_rung_moves_one_step_up(
    state: RecoveryState,
    classified: SyncRepair,
    restartable: bool,
    policy: SyncRecoveryPolicy,
)
    requires
        state.wf(),
        classified.severity() <= state.rung.severity(),
        state.attempts_at_rung >= match state.rung {
            SyncRepair::RescanFromBirthday => policy.max_rescan_attempts,
            SyncRepair::Retry => if state.rung_all_restartable && restartable {
                policy.restartable_escalate_after_faults
            } else {
                policy.escalate_after_faults
            },
            _ => policy.escalate_after_faults,
        },
    ensures
        ({
            let next = state.after_fault(classified, restartable, policy);
            &&& next.attempts_at_rung == 0
            &&& match state.rung {
                SyncRepair::Retry => if state.max_classified is Retry {
                    next.rung is Park
                } else {
                    next.rung is Rewind && next.rewind_depth_index == 0
                },
                SyncRepair::Rewind => if state.rewind_depth_index == 0 {
                    next.rung is Rewind && next.rewind_depth_index == 1
                } else {
                    next.rung is RescanFromBirthday
                },
                SyncRepair::RescanFromBirthday => next.rung is Park,
                SyncRepair::Park => next.rung is Park,
            }
        }),
{
}

/// The bar a recovery has to pass is the highest fault it has seen, and no higher.
pub proof fn the_recovery_bar_is_the_highest_fault(
    state: RecoveryState,
    fault_height: Option<BlockHeight>,
)
    ensures
        match (state.fault_height, fault_height) {
            (Some(prior), Some(new)) => state.raised_fault_height(fault_height) matches Some(
                raised,
            ) && raised.0 >= prior.0 && raised.0 >= new.0 && (raised == prior || raised == new),
            (Some(prior), None) => state.raised_fault_height(fault_height) == Some(prior),
            (None, new) => state.raised_fault_height(fault_height) == new,
        },
{
}

/// An episode is entered at its rung with a clean slate: nothing counted, nothing waited out,
/// the shallow depth first, awake and not parked, and degraded from that moment on.
pub proof fn an_episode_is_entered_with_a_clean_slate(rung: SyncRepair, now_ms: u64)
    ensures
        ({
            let entered = RecoveryState::entering_spec(rung, now_ms);
            &&& entered.rung == rung
            &&& entered.max_classified == rung
            &&& entered.attempts_at_rung == 0
            &&& entered.rewind_depth_index == 0
            &&& entered.consecutive_faults == 0
            &&& entered.backoff_ms == 0
            &&& entered.degraded_since_ms == now_ms
            &&& entered.parked is None
            &&& entered.fault_height is None
            &&& !entered.dormant
            &&& entered.rung_all_restartable
        }),
{
}

} // verus!
