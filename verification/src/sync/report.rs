//! What a running sync driver publishes: snapshots and lifecycle transitions.

use crate::domain::{BlockHeight, Network};
use crate::status::{SyncStatus, WalletStatus};
use crate::sync::ladder::SyncRepair;
use vstd::prelude::*;

verus! {

/// The wallet's most recent checked observation of the chain.
///
/// An attempt earns one by writing what it read under its pinned epoch into the wallet database
/// and comparing the resulting commitment-tree roots against the chain.
#[derive(Clone, Copy, Debug, PartialEq, Eq, Structural)]
pub struct SyncObservation {
    /// Highest block height the wallet had committed when the observation was taken.
    pub scanned_to_height: BlockHeight,
    /// Unix milliseconds when the observation was taken.
    pub observed_at_ms: u64,
}

/// Fault record carried by [`SyncSnapshot`].
#[derive(Debug, PartialEq, Eq)]
pub struct SyncFault {
    /// Fault description safe for logs and status pages.
    pub reason: String,
    /// Repair rung the driver applies (or holds at) for this fault.
    pub repair: SyncRepair,
    /// Unix milliseconds when the fault was observed.
    pub occurred_at_ms: u64,
    /// Consecutive ladder faults up to and including this one. `0` when the fault did not enter
    /// the ladder (chain-event stream interruptions; polling keeps sync healthy).
    pub consecutive_faults: u32,
}

impl Clone for SyncFault {
    fn clone(&self) -> (copy: SyncFault)
        ensures
            copy == *self,
    {
        SyncFault {
            reason: self.reason.clone(),
            repair: self.repair,
            occurred_at_ms: self.occurred_at_ms,
            consecutive_faults: self.consecutive_faults,
        }
    }
}

/// A copy of an optional fault record.
pub fn copy_fault(fault: &Option<SyncFault>) -> (copy: Option<SyncFault>)
    ensures
        copy == *fault,
{
    match fault {
        Some(fault) => Some(fault.clone()),
        None => None,
    }
}

/// Lifecycle phase of a running sync driver.
#[derive(Clone, Copy, Debug, PartialEq, Eq, Structural)]
pub enum SyncDriverPhase {
    /// The driver task has been created and is opening its chain-event stream.
    Starting,
    /// The driver is running one or more sync iterations.
    Syncing,
    /// Healthy idle: the last sync completed and the driver is waiting for a chain event or the
    /// next polling wakeup.
    Waiting,
    /// Degraded and self-healing: the driver observed a fault and applies `repair` before the
    /// next sync attempt.
    Recovering {
        /// Repair rung the driver applies before the next attempt.
        repair: SyncRepair,
        /// 1-based attempt number at the current rung.
        attempt: u32,
        /// Unix milliseconds when the next attempt is due.
        next_attempt_at_ms: u64,
    },
    /// Dead end: no software action cures the recorded fault. The driver holds, keeps
    /// republishing its reason, and re-arms the ladder at `reprobe_at_ms` when set.
    Parked {
        /// Unix milliseconds when the driver parked.
        since_ms: u64,
        /// Unix milliseconds when the driver re-arms the ladder, if reprobing is enabled.
        reprobe_at_ms: Option<u64>,
    },
    /// The driver is closing after the caller requested shutdown.
    Closing,
    /// The driver closed cleanly.
    Closed,
}

/// Current observable state of a sync driver.
#[derive(Debug, PartialEq, Eq)]
pub struct SyncSnapshot {
    /// Network this driver is bound to.
    pub network: Network,
    /// Driver lifecycle phase.
    pub phase: SyncDriverPhase,
    /// Wallet scan status derived from persisted progress.
    pub sync_status: SyncStatus,
    /// Highest block height the wallet has scanned, if any.
    pub scanned_height: Option<BlockHeight>,
    /// Highest source-visible block recorded by the most recent sync, if any.
    pub visible_tip_height: Option<BlockHeight>,
    /// Settled finality height recorded by the most recent sync, if any.
    pub settled_tip_height: Option<BlockHeight>,
    /// Number of blocks between `scanned_height` and `visible_tip_height`, if known.
    pub lag_blocks: Option<u32>,
    /// Most recent chain state the wallet committed and checked, and when.
    pub last_observation: Option<SyncObservation>,
    /// Most recent fault; `None` while healthy.
    pub last_fault: Option<SyncFault>,
    /// Unix milliseconds when this snapshot was published.
    pub published_at_ms: u64,
}

impl Clone for SyncSnapshot {
    fn clone(&self) -> (copy: SyncSnapshot)
        ensures
            copy == *self,
    {
        SyncSnapshot {
            network: self.network,
            phase: self.phase,
            sync_status: self.sync_status,
            scanned_height: self.scanned_height,
            visible_tip_height: self.visible_tip_height,
            settled_tip_height: self.settled_tip_height,
            lag_blocks: self.lag_blocks,
            last_observation: self.last_observation,
            last_fault: copy_fault(&self.last_fault),
            published_at_ms: self.published_at_ms,
        }
    }
}

impl SyncSnapshot {
    /// The snapshot of a driver that has just been created.
    pub fn starting(network: Network, now_ms: u64) -> (snapshot: SyncSnapshot)
        ensures
            snapshot == (SyncSnapshot {
                network,
                phase: SyncDriverPhase::Starting,
                sync_status: SyncStatus::NotStarted,
                scanned_height: None,
                visible_tip_height: None,
                settled_tip_height: None,
                lag_blocks: None,
                last_observation: None,
                last_fault: None,
                published_at_ms: now_ms,
            }),
    {
        SyncSnapshot {
            network,
            phase: SyncDriverPhase::Starting,
            sync_status: SyncStatus::NotStarted,
            scanned_height: None,
            visible_tip_height: None,
            settled_tip_height: None,
            lag_blocks: None,
            last_observation: None,
            last_fault: None,
            published_at_ms: now_ms,
        }
    }

    /// The snapshot that a status read yields.
    pub open spec fn from_wallet_status_spec(
        phase: SyncDriverPhase,
        wallet_status: WalletStatus,
        last_observation: Option<SyncObservation>,
        last_fault: Option<SyncFault>,
        now_ms: u64,
    ) -> SyncSnapshot {
        SyncSnapshot {
            network: wallet_status.network,
            phase,
            sync_status: wallet_status.sync_status,
            scanned_height: wallet_status.scanned_height,
            visible_tip_height: wallet_status.chain_tip_height,
            settled_tip_height: wallet_status.settled_tip_height,
            lag_blocks: wallet_status.lag_blocks,
            last_observation,
            last_fault,
            published_at_ms: now_ms,
        }
    }

    /// Builds a snapshot from a wallet-status read.
    pub fn from_wallet_status(
        phase: SyncDriverPhase,
        wallet_status: &WalletStatus,
        last_observation: Option<SyncObservation>,
        last_fault: Option<SyncFault>,
        now_ms: u64,
    ) -> (snapshot: SyncSnapshot)
        ensures
            snapshot == Self::from_wallet_status_spec(
                phase,
                *wallet_status,
                last_observation,
                last_fault,
                now_ms,
            ),
    {
        SyncSnapshot {
            network: wallet_status.network,
            phase,
            sync_status: wallet_status.sync_status,
            scanned_height: wallet_status.scanned_height,
            visible_tip_height: wallet_status.chain_tip_height,
            settled_tip_height: wallet_status.settled_tip_height,
            lag_blocks: wallet_status.lag_blocks,
            last_observation,
            last_fault,
            published_at_ms: now_ms,
        }
    }
}

/// What a publication's heights come from.
#[derive(Clone, Copy, Debug, PartialEq, Eq, Structural)]
pub enum SnapshotBasis {
    /// A wallet-status read made for this publication.
    FreshRead,
    /// A wallet-status read already made; `None` when it failed.
    Known(Option<WalletStatus>),
}

/// Lifecycle transition of a sync driver.
#[derive(Debug)]
pub enum DriverTransition {
    /// The driver task started.
    DriverStarted,
    /// A fault engaged the repair ladder.
    Fault {
        /// The recorded fault.
        fault: SyncFault,
    },
    /// An iteration faulted but advanced the wallet.
    SlowProgress {
        /// Description of the fault.
        reason: String,
        /// Blocks the iteration advanced.
        blocks_advanced: u32,
    },
    /// A repair is applied before the next attempt.
    RepairStarted {
        /// The rung applied.
        repair: SyncRepair,
        /// 1-based attempt number at the rung.
        attempt: u32,
        /// Height the wallet is rewound to, for a rewind.
        rewind_to_height: Option<BlockHeight>,
        /// Backoff that preceded the repair, in milliseconds.
        backoff_ms: u64,
    },
    /// A sync completed past the fault boundary.
    RepairSucceeded {
        /// The rung that cured the fault.
        repair: SyncRepair,
        /// Faults of the episode.
        total_faults: u32,
        /// How long the episode lasted, in milliseconds.
        degraded_for_ms: u64,
    },
    /// A rung was exhausted.
    RepairEscalated {
        /// The exhausted rung.
        from_repair: SyncRepair,
        /// The next rung.
        to_repair: SyncRepair,
    },
    /// The driver parked.
    Parked {
        /// The fault it parked on, if one is recorded.
        fault: Option<SyncFault>,
        /// Unix milliseconds when the driver re-arms the ladder, if reprobing is enabled.
        reprobe_at_ms: Option<u64>,
    },
    /// A parked driver re-armed its ladder.
    ParkReprobe,
    /// The driver is closing.
    Closing,
    /// The driver closed.
    Closed,
}

/// One snapshot to publish, with the transition it announces.
#[derive(Debug)]
pub enum Publication {
    /// Build a snapshot and publish it.
    Snapshot {
        /// Phase of the snapshot.
        phase: SyncDriverPhase,
        /// Where its heights come from.
        basis: SnapshotBasis,
        /// Observation it carries.
        last_observation: Option<SyncObservation>,
        /// Fault it carries.
        last_fault: Option<SyncFault>,
        /// Transition to announce first, if any.
        transition: Option<DriverTransition>,
    },
    /// Publish the last snapshot again, with a fresh publication time.
    Republish {
        /// Transition to announce first, if any.
        transition: Option<DriverTransition>,
    },
}

/// The snapshot for a phase: from a status read where one succeeded, otherwise the previously
/// published one with the new phase, observation, and fault (the driver must keep publishing
/// regardless).
pub open spec fn snapshot_spec(
    last_published: SyncSnapshot,
    phase: SyncDriverPhase,
    last_observation: Option<SyncObservation>,
    last_fault: Option<SyncFault>,
    wallet_status: Option<WalletStatus>,
    now_ms: u64,
) -> SyncSnapshot {
    match wallet_status {
        Some(status) => SyncSnapshot::from_wallet_status_spec(
            phase,
            status,
            last_observation,
            last_fault,
            now_ms,
        ),
        None => SyncSnapshot {
            phase,
            last_observation,
            last_fault,
            published_at_ms: now_ms,
            ..last_published
        },
    }
}

/// Builds the snapshot to publish for a phase.
pub fn snapshot_for(
    last_published: &SyncSnapshot,
    phase: SyncDriverPhase,
    last_observation: Option<SyncObservation>,
    last_fault: Option<SyncFault>,
    wallet_status: Option<&WalletStatus>,
    now_ms: u64,
) -> (snapshot: SyncSnapshot)
    ensures
        snapshot == snapshot_spec(
            *last_published,
            phase,
            last_observation,
            last_fault,
            match wallet_status {
                Some(status) => Some(*status),
                None => None,
            },
            now_ms,
        ),
{
    match wallet_status {
        Some(status) => SyncSnapshot::from_wallet_status(
            phase,
            status,
            last_observation,
            last_fault,
            now_ms,
        ),
        None => SyncSnapshot {
            network: last_published.network,
            phase,
            sync_status: last_published.sync_status,
            scanned_height: last_published.scanned_height,
            visible_tip_height: last_published.visible_tip_height,
            settled_tip_height: last_published.settled_tip_height,
            lag_blocks: last_published.lag_blocks,
            last_observation,
            last_fault,
            published_at_ms: now_ms,
        },
    }
}

/// The last snapshot with a fresh publication time, so that observers keep receiving it.
pub fn republished(last_published: &SyncSnapshot, now_ms: u64) -> (snapshot: SyncSnapshot)
    ensures
        snapshot == (SyncSnapshot { published_at_ms: now_ms, ..*last_published }),
{
    let mut snapshot = last_published.clone();
    snapshot.published_at_ms = now_ms;
    snapshot
}

/// Severity of a lifecycle event.
#[derive(Clone, Copy, Debug, PartialEq, Eq, Structural)]
pub enum EventLevel {
    /// Routine.
    Info,
    /// Degraded.
    Warn,
    /// Needs attention.
    Error,
}

/// A lifecycle event as the log carries it: level, stable name, and message. Fields that the
/// transition itself does not hold are filled in where the event is emitted.
#[derive(Debug)]
pub struct TransitionEvent {
    /// Severity.
    pub level: EventLevel,
    /// Stable event name.
    pub event: &'static str,
    /// Human-readable message.
    pub message: &'static str,
    /// Network, where the event carries it.
    pub network: Option<Network>,
    /// Description of the fault, where the event carries it.
    pub reason: Option<String>,
    /// Label of the rung, where the event carries it.
    pub repair: Option<&'static str>,
    /// Label of the exhausted rung, where the event carries it.
    pub from_repair: Option<&'static str>,
    /// Label of the next rung, where the event carries it.
    pub to_repair: Option<&'static str>,
    /// Faults up to and including this one, where the event carries them.
    pub consecutive_faults: Option<u32>,
    /// Faults of the episode, where the event carries them.
    pub total_faults: Option<u32>,
    /// Scanned height of the snapshot, where the event carries it.
    pub scanned_height: Option<u32>,
    /// Blocks advanced, where the event carries it.
    pub blocks_advanced: Option<u32>,
    /// Attempt number, where the event carries it.
    pub attempt: Option<u32>,
    /// Height the wallet is rewound to, where the event carries it.
    pub rewind_to_height: Option<u32>,
    /// Backoff before the repair in milliseconds, where the event carries it.
    pub backoff_ms: Option<u64>,
    /// How long the episode lasted in milliseconds, where the event carries it.
    pub degraded_for_ms: Option<u64>,
    /// Reprobe deadline, where the event carries it.
    pub reprobe_at_ms: Option<u64>,
}

/// The level, name, and message of a transition.
pub open spec fn event_head(transition: DriverTransition) -> (EventLevel, Seq<char>, Seq<char>) {
    match transition {
        DriverTransition::DriverStarted => (
            EventLevel::Info,
            "wallet_sync_driver_started"@,
            "sync driver task started"@,
        ),
        DriverTransition::Fault { .. } => (
            EventLevel::Warn,
            "wallet_sync_fault"@,
            "sync fault; repair ladder engaged"@,
        ),
        DriverTransition::SlowProgress { .. } => (
            EventLevel::Warn,
            "wallet_sync_slow_progress"@,
            "sync faulted mid-chunk but advanced; ladder reset"@,
        ),
        DriverTransition::RepairStarted { .. } => (
            EventLevel::Warn,
            "wallet_sync_repair_started"@,
            "applying repair before the next sync attempt"@,
        ),
        DriverTransition::RepairSucceeded { .. } => (
            EventLevel::Info,
            "wallet_sync_repair_succeeded"@,
            "sync completed after repair; driver healthy"@,
        ),
        DriverTransition::RepairEscalated { .. } => (
            EventLevel::Error,
            "wallet_sync_repair_escalated"@,
            "repair did not cure the fault; escalating to a deeper rung"@,
        ),
        DriverTransition::Parked { .. } => (
            EventLevel::Error,
            "wallet_sync_parked"@,
            "no software repair cures this fault; driver parked"@,
        ),
        DriverTransition::ParkReprobe => (
            EventLevel::Info,
            "wallet_sync_park_reprobe"@,
            "park hold elapsed; repair ladder re-armed"@,
        ),
        DriverTransition::Closing => (
            EventLevel::Info,
            "wallet_sync_driver_closing"@,
            "sync driver closing on request"@,
        ),
        DriverTransition::Closed => (
            EventLevel::Info,
            "wallet_sync_driver_closed"@,
            "sync driver closed"@,
        ),
    }
}

/// The description a transition's event carries.
pub open spec fn event_reason(transition: DriverTransition) -> Option<Seq<char>> {
    match transition {
        DriverTransition::Fault { fault } => Some(fault.reason@),
        DriverTransition::SlowProgress { reason, .. } => Some(reason@),
        DriverTransition::Parked { fault: Some(fault), .. } => Some(fault.reason@),
        DriverTransition::Parked { fault: None, .. } => Some(Seq::empty()),
        _ => None,
    }
}

/// The rung a transition's event carries.
pub open spec fn event_rung(transition: DriverTransition) -> Option<SyncRepair> {
    match transition {
        DriverTransition::Fault { fault } => Some(fault.repair),
        DriverTransition::RepairStarted { repair, .. } => Some(repair),
        DriverTransition::RepairSucceeded { repair, .. } => Some(repair),
        _ => None,
    }
}

/// The exhausted rung and the next one that a transition's event carries.
pub open spec fn event_escalation(transition: DriverTransition) -> (
    Option<SyncRepair>,
    Option<SyncRepair>,
) {
    match transition {
        DriverTransition::RepairEscalated { from_repair, to_repair } => (
            Some(from_repair),
            Some(to_repair),
        ),
        _ => (None, None),
    }
}

/// Whether a label is that of an optional rung.
pub open spec fn labels(label: Option<&'static str>, rung: Option<SyncRepair>) -> bool {
    match (label, rung) {
        (Some(text), Some(repair)) => text@ == repair.label_text(),
        (None, None) => true,
        _ => false,
    }
}

fn blank_event(level: EventLevel, event: &'static str, message: &'static str) -> (blank:
    TransitionEvent)
    ensures
        blank == (TransitionEvent {
            level,
            event,
            message,
            network: None,
            reason: None,
            repair: None,
            from_repair: None,
            to_repair: None,
            consecutive_faults: None,
            total_faults: None,
            scanned_height: None,
            blocks_advanced: None,
            attempt: None,
            rewind_to_height: None,
            backoff_ms: None,
            degraded_for_ms: None,
            reprobe_at_ms: None,
        }),
{
    TransitionEvent {
        level,
        event,
        message,
        network: None,
        reason: None,
        repair: None,
        from_repair: None,
        to_repair: None,
        consecutive_faults: None,
        total_faults: None,
        scanned_height: None,
        blocks_advanced: None,
        attempt: None,
        rewind_to_height: None,
        backoff_ms: None,
        degraded_for_ms: None,
        reprobe_at_ms: None,
    }
}

fn height_number(height: Option<BlockHeight>) -> (number: Option<u32>)
    ensures
        number == height_number_spec(height),
{
    match height {
        Some(height) => Some(height.0),
        None => None,
    }
}

/// An optional height as an optional integer.
pub open spec fn height_number_spec(height: Option<BlockHeight>) -> Option<u32> {
    match height {
        Some(height) => Some(height.0),
        None => None,
    }
}

/// The log event of a transition.
pub fn transition_event(snapshot: &SyncSnapshot, transition: &DriverTransition) -> (event:
    TransitionEvent)
    ensures
        (event.level, event.event@, event.message@) == event_head(*transition),
        match (event.reason, event_reason(*transition)) {
            (Some(text), Some(reason)) => text@ == reason,
            (None, None) => true,
            _ => false,
        },
        labels(event.repair, event_rung(*transition)),
        labels(event.from_repair, event_escalation(*transition).0),
        labels(event.to_repair, event_escalation(*transition).1),
        event.network == if transition is DriverStarted {
            Some(snapshot.network)
        } else {
            None
        },
        event.scanned_height == if transition is Fault || transition is SlowProgress {
            height_number_spec(snapshot.scanned_height)
        } else {
            None
        },
        event.consecutive_faults == match *transition {
            DriverTransition::Fault { fault } => Some(fault.consecutive_faults),
            _ => None,
        },
        event.total_faults == match *transition {
            DriverTransition::RepairSucceeded { total_faults, .. } => Some(total_faults),
            _ => None,
        },
        event.blocks_advanced == match *transition {
            DriverTransition::SlowProgress { blocks_advanced, .. } => Some(blocks_advanced),
            _ => None,
        },
        event.attempt == match *transition {
            DriverTransition::RepairStarted { attempt, .. } => Some(attempt),
            _ => None,
        },
        event.rewind_to_height == match *transition {
            DriverTransition::RepairStarted { rewind_to_height, .. } => height_number_spec(
                rewind_to_height,
            ),
            _ => None,
        },
        event.backoff_ms == match *transition {
            DriverTransition::RepairStarted { backoff_ms, .. } => Some(backoff_ms),
            _ => None,
        },
        event.degraded_for_ms == match *transition {
            DriverTransition::RepairSucceeded { degraded_for_ms, .. } => Some(degraded_for_ms),
            _ => None,
        },
        event.reprobe_at_ms == match *transition {
            DriverTransition::Parked { reprobe_at_ms, .. } => reprobe_at_ms,
            _ => None,
        },
{
    match transition {
        DriverTransition::DriverStarted => {
            let mut event = blank_event(
                EventLevel::Info,
                "wallet_sync_driver_started",
                "sync driver task started",
            );
            event.network = Some(snapshot.network);
            event
        },
        DriverTransition::Fault { fault } => {
            let mut event = blank_event(
                EventLevel::Warn,
                "wallet_sync_fault",
                "sync fault; repair ladder engaged",
            );
            event.reason = Some(fault.reason.clone());
            event.repair = Some(fault.repair.label());
            event.consecutive_faults = Some(fault.consecutive_faults);
            event.scanned_height = height_number(snapshot.scanned_height);
            event
        },
        DriverTransition::SlowProgress { reason, blocks_advanced } => {
            let mut event = blank_event(
                EventLevel::Warn,
                "wallet_sync_slow_progress",
                "sync faulted mid-chunk but advanced; ladder reset",
            );
            event.reason = Some(reason.clone());
            event.blocks_advanced = Some(*blocks_advanced);
            event.scanned_height = height_number(snapshot.scanned_height);
            event
        },
        DriverTransition::RepairStarted { repair, attempt, rewind_to_height, backoff_ms } => {
            let mut event = blank_event(
                EventLevel::Warn,
                "wallet_sync_repair_started",
                "applying repair before the next sync attempt",
            );
            event.repair = Some(repair.label());
            event.attempt = Some(*attempt);
            event.rewind_to_height = height_number(*rewind_to_height);
            event.backoff_ms = Some(*backoff_ms);
            event
        },
        DriverTransition::RepairSucceeded { repair, total_faults, degraded_for_ms } => {
            let mut event = blank_event(
                EventLevel::Info,
                "wallet_sync_repair_succeeded",
                "sync completed after repair; driver healthy",
            );
            event.repair = Some(repair.label());
            event.total_faults = Some(*total_faults);
            event.degraded_for_ms = Some(*degraded_for_ms);
            event
        },
        DriverTransition::RepairEscalated { from_repair, to_repair } => {
            let mut event = blank_event(
                EventLevel::Error,
                "wallet_sync_repair_escalated",
                "repair did not cure the fault; escalating to a deeper rung",
            );
            event.from_repair = Some(from_repair.label());
            event.to_repair = Some(to_repair.label());
            event
        },
        DriverTransition::Parked { fault, reprobe_at_ms } => {
            let mut event = blank_event(
                EventLevel::Error,
                "wallet_sync_parked",
                "no software repair cures this fault; driver parked",
            );
            event.reason = Some(
                match fault {
                    Some(fault) => fault.reason.clone(),
                    None => String::new(),
                },
            );
            event.reprobe_at_ms = *reprobe_at_ms;
            event
        },
        DriverTransition::ParkReprobe => blank_event(
            EventLevel::Info,
            "wallet_sync_park_reprobe",
            "park hold elapsed; repair ladder re-armed",
        ),
        DriverTransition::Closing => blank_event(
            EventLevel::Info,
            "wallet_sync_driver_closing",
            "sync driver closing on request",
        ),
        DriverTransition::Closed => blank_event(
            EventLevel::Info,
            "wallet_sync_driver_closed",
            "sync driver closed",
        ),
    }
}

} // verus!
