//! Policies of the sync driver.

use vstd::prelude::*;

verus! {

/// The greater of two integers.
pub open spec fn greater(a: int, b: int) -> int {
    if a >= b {
        a
    } else {
        b
    }
}

fn at_least_one(count: u32) -> (clamped: u32)
    ensures
        clamped == greater(count as int, 1),
{
    if count == 0 {
        1
    } else {
        count
    }
}

fn at_least(value: u64, floor: u64) -> (clamped: u64)
    ensures
        clamped == greater(value as int, floor as int),
{
    if value >= floor {
        value
    } else {
        floor
    }
}

/// Self-healing policy for the sync driver's repair ladder.
#[derive(Clone, Copy, Debug, PartialEq, Eq, Structural)]
pub struct SyncRecoveryPolicy {
    /// Consecutive faults at one ladder rung before the driver escalates to the next rung.
    /// Within the rewind rung the same counter walks the rewind depth ladder.
    pub escalate_after_faults: u32,
    /// Consecutive faults tolerated at the retry rung before escalating, when every fault since
    /// entering that rung was restartable.
    ///
    /// A source that rotates its chain epoch answers precisely and is serving; the pin expiring
    /// under a running attempt is not evidence of backend trouble, so this threshold is looser.
    /// A single fault that is not restartable falls back to the stricter threshold immediately.
    pub restartable_escalate_after_faults: u32,
    /// Rebuilds from the birthday attempted before the driver parks.
    pub max_rescan_attempts: u32,
    /// Backoff before the first faulted re-attempt, in milliseconds. Doubles per consecutive
    /// fault.
    pub fault_backoff_initial_ms: u64,
    /// Cap on the fault backoff, in milliseconds.
    pub fault_backoff_cap_ms: u64,
    /// How long a parked driver holds before re-arming the full ladder, in milliseconds.
    /// `None` parks forever.
    pub park_reprobe_ms: Option<u64>,
}

impl SyncRecoveryPolicy {
    /// Returns the policy with `escalate_after_faults` replaced.
    pub fn with_escalate_after_faults(self, escalate_after_faults: u32) -> (policy: Self)
        ensures
            policy == (SyncRecoveryPolicy { escalate_after_faults, ..self }),
    {
        SyncRecoveryPolicy { escalate_after_faults, ..self }
    }

    /// Returns the policy with `restartable_escalate_after_faults` replaced.
    pub fn with_restartable_escalate_after_faults(
        self,
        restartable_escalate_after_faults: u32,
    ) -> (policy: Self)
        ensures
            policy == (SyncRecoveryPolicy { restartable_escalate_after_faults, ..self }),
    {
        SyncRecoveryPolicy { restartable_escalate_after_faults, ..self }
    }

    /// Returns the policy with `max_rescan_attempts` replaced.
    pub fn with_max_rescan_attempts(self, max_rescan_attempts: u32) -> (policy: Self)
        ensures
            policy == (SyncRecoveryPolicy { max_rescan_attempts, ..self }),
    {
        SyncRecoveryPolicy { max_rescan_attempts, ..self }
    }

    /// Returns the policy with `fault_backoff_initial_ms` replaced.
    pub fn with_fault_backoff_initial_ms(self, fault_backoff_initial_ms: u64) -> (policy: Self)
        ensures
            policy == (SyncRecoveryPolicy { fault_backoff_initial_ms, ..self }),
    {
        SyncRecoveryPolicy { fault_backoff_initial_ms, ..self }
    }

    /// Returns the policy with `fault_backoff_cap_ms` replaced.
    pub fn with_fault_backoff_cap_ms(self, fault_backoff_cap_ms: u64) -> (policy: Self)
        ensures
            policy == (SyncRecoveryPolicy { fault_backoff_cap_ms, ..self }),
    {
        SyncRecoveryPolicy { fault_backoff_cap_ms, ..self }
    }

    /// Returns the policy with `park_reprobe_ms` replaced.
    pub fn with_park_reprobe_ms(self, park_reprobe_ms: Option<u64>) -> (policy: Self)
        ensures
            policy == (SyncRecoveryPolicy { park_reprobe_ms, ..self }),
    {
        SyncRecoveryPolicy { park_reprobe_ms, ..self }
    }

    /// Every threshold and duration is at least one, and the cap does not undercut the first
    /// backoff.
    pub open spec fn is_normal(self) -> bool {
        &&& self.escalate_after_faults >= 1
        &&& self.restartable_escalate_after_faults >= 1
        &&& self.max_rescan_attempts >= 1
        &&& self.fault_backoff_initial_ms >= 1
        &&& self.fault_backoff_cap_ms >= self.fault_backoff_initial_ms
        &&& self.park_reprobe_ms matches Some(hold_ms) ==> hold_ms >= 1
    }

    /// The policy with every threshold and duration raised to at least one and the cap raised
    /// to the first backoff.
    pub open spec fn normalized_spec(self) -> SyncRecoveryPolicy {
        let initial = greater(self.fault_backoff_initial_ms as int, 1) as u64;
        SyncRecoveryPolicy {
            escalate_after_faults: greater(self.escalate_after_faults as int, 1) as u32,
            restartable_escalate_after_faults: greater(
                self.restartable_escalate_after_faults as int,
                1,
            ) as u32,
            max_rescan_attempts: greater(self.max_rescan_attempts as int, 1) as u32,
            fault_backoff_initial_ms: initial,
            fault_backoff_cap_ms: greater(
                self.fault_backoff_cap_ms as int,
                initial as int,
            ) as u64,
            park_reprobe_ms: match self.park_reprobe_ms {
                Some(hold_ms) => Some(greater(hold_ms as int, 1) as u64),
                None => None,
            },
        }
    }

    /// Raises every threshold and duration to at least one.
    pub fn normalized(self) -> (policy: Self)
        ensures
            policy == self.normalized_spec(),
            policy.is_normal(),
    {
        let fault_backoff_initial_ms: u64 = at_least(self.fault_backoff_initial_ms, 1);
        SyncRecoveryPolicy {
            escalate_after_faults: at_least_one(self.escalate_after_faults),
            restartable_escalate_after_faults: at_least_one(
                self.restartable_escalate_after_faults,
            ),
            max_rescan_attempts: at_least_one(self.max_rescan_attempts),
            fault_backoff_initial_ms,
            fault_backoff_cap_ms: at_least(self.fault_backoff_cap_ms, fault_backoff_initial_ms),
            park_reprobe_ms: match self.park_reprobe_ms {
                Some(hold_ms) => Some(at_least(hold_ms, 1)),
                None => None,
            },
        }
    }
}

impl Default for SyncRecoveryPolicy {
    fn default() -> (policy: Self)
        ensures
            policy == (SyncRecoveryPolicy {
                escalate_after_faults: 3,
                restartable_escalate_after_faults: 10,
                max_rescan_attempts: 2,
                fault_backoff_initial_ms: 1_000,
                fault_backoff_cap_ms: 60_000,
                park_reprobe_ms: Some(900_000),
            }),
    {
        SyncRecoveryPolicy {
            escalate_after_faults: 3,
            restartable_escalate_after_faults: 10,
            max_rescan_attempts: 2,
            fault_backoff_initial_ms: 1_000,
            fault_backoff_cap_ms: 60_000,
            park_reprobe_ms: Some(900_000),
        }
    }
}

/// Policy for a long-lived sync driver.
#[derive(Clone, Copy, Debug, PartialEq, Eq, Structural)]
pub struct SyncDriverOptions {
    /// Milliseconds between polling wakeups when no chain event is received.
    pub poll_interval_ms: u64,
    /// Maximum sync attempts made for one wakeup.
    pub max_sync_iterations_per_wake_count: u32,
    /// Maximum seconds one sync attempt may run before the driver retries later.
    pub sync_timeout_seconds: u64,
    /// Self-healing policy for the driver's repair ladder.
    pub recovery: SyncRecoveryPolicy,
    /// Minimum milliseconds between transparent UTXO refresh attempts.
    pub transparent_utxo_refresh_interval_ms: u64,
    /// Maximum seconds one transparent UTXO refresh attempt may run before the refresh loop
    /// treats it as faulted and moves on to the next tick.
    pub transparent_utxo_refresh_timeout_seconds: u64,
}

impl SyncDriverOptions {
    /// Returns options with `poll_interval_ms` replaced.
    pub fn with_poll_interval_ms(self, poll_interval_ms: u64) -> (options: Self)
        ensures
            options == (SyncDriverOptions { poll_interval_ms, ..self }),
    {
        SyncDriverOptions { poll_interval_ms, ..self }
    }

    /// Returns options with `max_sync_iterations_per_wake_count` replaced.
    pub fn with_max_sync_iterations_per_wake_count(
        self,
        max_sync_iterations_per_wake_count: u32,
    ) -> (options: Self)
        ensures
            options == (SyncDriverOptions { max_sync_iterations_per_wake_count, ..self }),
    {
        SyncDriverOptions { max_sync_iterations_per_wake_count, ..self }
    }

    /// Returns options with `sync_timeout_seconds` replaced.
    pub fn with_sync_timeout_seconds(self, sync_timeout_seconds: u64) -> (options: Self)
        ensures
            options == (SyncDriverOptions { sync_timeout_seconds, ..self }),
    {
        SyncDriverOptions { sync_timeout_seconds, ..self }
    }

    /// Returns options with `recovery` replaced.
    pub fn with_recovery_policy(self, recovery: SyncRecoveryPolicy) -> (options: Self)
        ensures
            options == (SyncDriverOptions { recovery, ..self }),
    {
        SyncDriverOptions { recovery, ..self }
    }

    /// Returns options with `transparent_utxo_refresh_interval_ms` replaced.
    pub fn with_transparent_utxo_refresh_interval_ms(
        self,
        transparent_utxo_refresh_interval_ms: u64,
    ) -> (options: Self)
        ensures
            options == (SyncDriverOptions { transparent_utxo_refresh_interval_ms, ..self }),
    {
        SyncDriverOptions { transparent_utxo_refresh_interval_ms, ..self }
    }

    /// Returns options with `transparent_utxo_refresh_timeout_seconds` replaced.
    pub fn with_transparent_utxo_refresh_timeout_seconds(
        self,
        transparent_utxo_refresh_timeout_seconds: u64,
    ) -> (options: Self)
        ensures
            options == (SyncDriverOptions { transparent_utxo_refresh_timeout_seconds, ..self }),
    {
        SyncDriverOptions { transparent_utxo_refresh_timeout_seconds, ..self }
    }

    /// Every duration and count is at least one.
    pub open spec fn is_normal(self) -> bool {
        &&& self.poll_interval_ms >= 1
        &&& self.max_sync_iterations_per_wake_count >= 1
        &&& self.sync_timeout_seconds >= 1
        &&& self.recovery.is_normal()
        &&& self.transparent_utxo_refresh_interval_ms >= 1
        &&& self.transparent_utxo_refresh_timeout_seconds >= 1
    }

    /// The options with every duration and count raised to at least one.
    pub open spec fn normalized_spec(self) -> SyncDriverOptions {
        SyncDriverOptions {
            poll_interval_ms: greater(self.poll_interval_ms as int, 1) as u64,
            max_sync_iterations_per_wake_count: greater(
                self.max_sync_iterations_per_wake_count as int,
                1,
            ) as u32,
            sync_timeout_seconds: greater(self.sync_timeout_seconds as int, 1) as u64,
            recovery: self.recovery.normalized_spec(),
            transparent_utxo_refresh_interval_ms: greater(
                self.transparent_utxo_refresh_interval_ms as int,
                1,
            ) as u64,
            transparent_utxo_refresh_timeout_seconds: greater(
                self.transparent_utxo_refresh_timeout_seconds as int,
                1,
            ) as u64,
        }
    }

    /// Raises every duration and count to at least one.
    pub fn normalized(self) -> (options: Self)
        ensures
            options == self.normalized_spec(),
            options.is_normal(),
    {
        SyncDriverOptions {
            poll_interval_ms: at_least(self.poll_interval_ms, 1),
            max_sync_iterations_per_wake_count: at_least_one(
                self.max_sync_iterations_per_wake_count,
            ),
            sync_timeout_seconds: at_least(self.sync_timeout_seconds, 1),
            recovery: self.recovery.normalized(),
            transparent_utxo_refresh_interval_ms: at_least(
                self.transparent_utxo_refresh_interval_ms,
                1,
            ),
            transparent_utxo_refresh_timeout_seconds: at_least(
                self.transparent_utxo_refresh_timeout_seconds,
                1,
            ),
        }
    }
}

impl Default for SyncDriverOptions {
    fn default() -> (options: Self)
        ensures
            options == (SyncDriverOptions {
                poll_interval_ms: 5_000,
                max_sync_iterations_per_wake_count: 1_000,
                sync_timeout_seconds: 120,
                recovery: SyncRecoveryPolicy {
                    escalate_after_faults: 3,
                    restartable_escalate_after_faults: 10,
                    max_rescan_attempts: 2,
                    fault_backoff_initial_ms: 1_000,
                    fault_backoff_cap_ms: 60_000,
                    park_reprobe_ms: Some(900_000),
                },
                transparent_utxo_refresh_interval_ms: 5_000,
                transparent_utxo_refresh_timeout_seconds: 120,
            }),
    {
        SyncDriverOptions {
            poll_interval_ms: 5_000,
            max_sync_iterations_per_wake_count: 1_000,
            sync_timeout_seconds: 120,
            recovery: SyncRecoveryPolicy::default(),
            transparent_utxo_refresh_interval_ms: 5_000,
            transparent_utxo_refresh_timeout_seconds: 120,
        }
    }
}

/// Normalizing leaves normal options alone, so normalizing twice changes nothing more.
pub proof fn normalizing_is_idempotent(options: SyncDriverOptions)
    ensures
        options.normalized_spec().is_normal(),
        options.is_normal() ==> options.normalized_spec() == options,
        options.normalized_spec().normalized_spec() == options.normalized_spec(),
{
}

/// Normalizing raises to one exactly what was zero and leaves every other count and duration as
/// it was; the cap is raised to the first backoff where it lies below it.
pub proof fn normalizing_raises_only_what_is_zero(options: SyncDriverOptions)
    ensures
        ({
            let normal = options.normalized_spec();
            &&& options.poll_interval_ms > 0 ==> normal.poll_interval_ms
                == options.poll_interval_ms
            &&& options.poll_interval_ms == 0 ==> normal.poll_interval_ms == 1
            &&& options.max_sync_iterations_per_wake_count > 0
                ==> normal.max_sync_iterations_per_wake_count
                == options.max_sync_iterations_per_wake_count
            &&& options.max_sync_iterations_per_wake_count == 0
                ==> normal.max_sync_iterations_per_wake_count == 1
            &&& options.sync_timeout_seconds > 0 ==> normal.sync_timeout_seconds
                == options.sync_timeout_seconds
            &&& options.sync_timeout_seconds == 0 ==> normal.sync_timeout_seconds == 1
            &&& options.transparent_utxo_refresh_interval_ms > 0
                ==> normal.transparent_utxo_refresh_interval_ms
                == options.transparent_utxo_refresh_interval_ms
            &&& options.transparent_utxo_refresh_interval_ms == 0
                ==> normal.transparent_utxo_refresh_interval_ms == 1
            &&& options.transparent_utxo_refresh_timeout_seconds > 0
                ==> normal.transparent_utxo_refresh_timeout_seconds
                == options.transparent_utxo_refresh_timeout_seconds
            &&& options.transparent_utxo_refresh_timeout_seconds == 0
                ==> normal.transparent_utxo_refresh_timeout_seconds == 1
        }),
        ({
            let policy = options.recovery;
            let normal = options.normalized_spec().recovery;
            &&& normal == policy.normalized_spec()
            &&& policy.escalate_after_faults > 0 ==> normal.escalate_after_faults
                == policy.escalate_after_faults
            &&& policy.escalate_after_faults == 0 ==> normal.escalate_after_faults == 1
            &&& policy.restartable_escalate_after_faults > 0
                ==> normal.restartable_escalate_after_faults
                == policy.restartable_escalate_after_faults
            &&& policy.restartable_escalate_after_faults == 0
                ==> normal.restartable_escalate_after_faults == 1
            &&& policy.max_rescan_attempts > 0 ==> normal.max_rescan_attempts
                == policy.max_rescan_attempts
            &&& policy.max_rescan_attempts == 0 ==> normal.max_rescan_attempts == 1
            &&& policy.fault_backoff_initial_ms > 0 ==> normal.fault_backoff_initial_ms
                == policy.fault_backoff_initial_ms
            &&& policy.fault_backoff_initial_ms == 0 ==> normal.fault_backoff_initial_ms == 1
            &&& policy.fault_backoff_cap_ms >= normal.fault_backoff_initial_ms
                ==> normal.fault_backoff_cap_ms == policy.fault_backoff_cap_ms
            &&& policy.fault_backoff_cap_ms < normal.fault_backoff_initial_ms
                ==> normal.fault_backoff_cap_ms == normal.fault_backoff_initial_ms
            &&& policy.park_reprobe_ms is None <==> normal.park_reprobe_ms is None
            &&& policy.park_reprobe_ms matches Some(hold_ms) ==> normal.park_reprobe_ms == Some(
                if hold_ms == 0 {
                    1
                } else {
                    hold_ms
                },
            )
        }),
{
}

} // verus!
