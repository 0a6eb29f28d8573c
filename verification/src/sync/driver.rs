//! The sync driver between two wakeups: polling, chain events, parking, and shutdown.

use crate::boundary_error::ChainSourceError;
use crate::domain::Network;
use crate::error::WalletError;
use crate::sync::driver_state::{DriverState, StreamReprobe};
use crate::sync::options::{SyncDriverOptions, SyncRecoveryPolicy};
use crate::sync::report::{DriverTransition, Publication, SnapshotBasis, SyncDriverPhase};
use crate::sync::wakeup::SyncWakeupExit;
use vstd::prelude::*;

verus! {

/// Source-neutral long-lived wallet sync driver: the network it is bound to and its options.
///
/// The driver listens for chain events when available, falls back to polling, repeatedly syncs
/// until the observed tip is reached, and publishes snapshots. Faults engage the repair ladder
/// instead of killing the driver.
#[derive(Clone, Copy, Debug)]
pub struct SyncDriver {
    network: Network,
    options: SyncDriverOptions,
}

impl SyncDriver {
    /// Network the driver is bound to.
    pub closed spec fn network_spec(&self) -> Network {
        self.network
    }

    /// The driver's options.
    pub closed spec fn options_spec(&self) -> SyncDriverOptions {
        self.options
    }

    #[verifier::type_invariant]
    closed spec fn has_normal_options(self) -> bool {
        self.options.is_normal()
    }

    /// Constructs a driver for a wallet and a chain source. Fails closed on network mismatch.
    pub fn new(
        wallet_network: Network,
        chain_network: Network,
        options: SyncDriverOptions,
    ) -> (driver: Result<SyncDriver, WalletError>)
        ensures
            wallet_network != chain_network ==> driver == Err::<SyncDriver, WalletError>(
                WalletError::NetworkMismatch {
                    storage: wallet_network,
                    requested: chain_network,
                },
            ),
            wallet_network == chain_network ==> {
                &&& driver matches Ok(d)
                &&& d.network_spec() == wallet_network
                &&& d.options_spec() == options.normalized_spec()
            },
    {
        if chain_network != wallet_network {
            return Err(
                WalletError::NetworkMismatch {
                    storage: wallet_network,
                    requested: chain_network,
                },
            );
        }
        Ok(SyncDriver { network: wallet_network, options: options.normalized() })
    }

    /// Network the driver is bound to.
    pub fn network(&self) -> (network: Network)
        ensures
            network == self.network_spec(),
    {
        self.network
    }

    /// The driver's options: every duration and count is at least one.
    pub fn options(&self) -> (options: SyncDriverOptions)
        ensures
            options == self.options_spec(),
            options.is_normal(),
    {
        proof {
            use_type_invariant(self);
        }
        self.options
    }
}

/// Position in a source's chain-event stream.
#[derive(Debug)]
pub struct ChainEventCursor {
    /// The source's encoding of the position.
    pub bytes: Vec<u8>,
}

/// Where a chain-event stream is opened.
#[derive(Debug)]
pub enum ChainEventStreamStart {
    /// At the earliest event the source still holds.
    EarliestRetained,
    /// Right after this position.
    AfterCursor(ChainEventCursor),
}

/// What the chain-event stream delivered.
#[derive(Debug)]
pub enum ChainEventDelivery {
    /// An event, with its position.
    Envelope(ChainEventCursor),
    /// The stream failed.
    Failed(ChainSourceError),
    /// The stream ended.
    Ended,
}

/// What a polling tick asks for.
#[derive(Debug)]
pub struct PollStep {
    /// Snapshot to publish, if any.
    pub publication: Option<Publication>,
    /// Whether the chain-event stream should be opened, after which the tick ends.
    pub open_stream: bool,
}

/// What the driver does between two waits.
#[derive(Clone, Copy, Debug, PartialEq, Eq, Structural)]
pub enum DriverTurn {
    /// Run a wakeup.
    Wake,
    /// Wait for a close request, a polling tick, or a chain event.
    Wait,
}

/// The driver's loop state besides [`DriverState`].
#[derive(Debug)]
pub struct DriverLoop {
    /// Whether a sync is owed.
    pub should_sync: bool,
    /// Where the chain-event stream is opened next.
    pub stream_start: ChainEventStreamStart,
    /// Whether the chain-event stream is open.
    pub stream_open: bool,
}

impl DriverState {
    /// Whether the driver holds because it gave the chain-event stream up.
    pub open spec fn stream_held(self) -> bool {
        !(self.stream_reprobe is Inactive)
    }

    /// Whether `next` is the state after the stream failed with `error`: the recorded reason is
    /// the error's text.
    pub open spec fn faulted_on_stream(
        self,
        next: DriverState,
        error: ChainSourceError,
        policy: SyncRecoveryPolicy,
        now_ms: u64,
    ) -> bool {
        &&& next.last_fault matches Some(fault)
        &&& fault.reason@ == error.described()
        &&& next == self.after_stream_fault(fault.reason, policy, now_ms)
    }

    /// The state with the chain-event stream in good standing.
    pub open spec fn with_healthy_stream(self) -> DriverState {
        DriverState {
            stream_consecutive_faults: 0,
            stream_next_attempt_at_ms: 0,
            stream_reprobe: StreamReprobe::Inactive,
            ..self
        }
    }

    /// The state after the stream was opened: earlier interruptions are forgotten, and the
    /// fault with them.
    pub open spec fn after_stream_opened(self) -> DriverState {
        DriverState {
            last_fault: if self.stream_consecutive_faults > 0 {
                None
            } else {
                self.last_fault
            },
            ..self.with_healthy_stream()
        }
    }
}

impl DriverLoop {
    /// The loop of a driver that has just started: a sync is owed, and the stream is to be
    /// opened at the earliest event.
    pub fn start() -> (driver_loop: DriverLoop)
        ensures
            driver_loop == (DriverLoop {
                should_sync: true,
                stream_start: ChainEventStreamStart::EarliestRetained,
                stream_open: false,
            }),
    {
        DriverLoop {
            should_sync: true,
            stream_start: ChainEventStreamStart::EarliestRetained,
            stream_open: false,
        }
    }

    /// Whether the driver wakes or waits: a parked driver never wakes.
    pub open spec fn turn_spec(self, state: DriverState) -> DriverTurn {
        if self.should_sync && state.parked_spec() is None {
            DriverTurn::Wake
        } else {
            DriverTurn::Wait
        }
    }

    /// Decides whether the driver wakes or waits.
    pub fn turn(&self, state: &DriverState) -> (turn: DriverTurn)
        ensures
            turn == self.turn_spec(*state),
    {
        if self.should_sync && state.parked().is_none() {
            DriverTurn::Wake
        } else {
            DriverTurn::Wait
        }
    }

    /// Takes in how a wakeup ended; says whether the driver closes.
    pub fn wakeup_ended(&mut self, exit: SyncWakeupExit) -> (closes: bool)
        ensures
            closes == (exit is CloseRequested),
            *final(self) == (DriverLoop {
                should_sync: match exit {
                    SyncWakeupExit::Reconciled => false,
                    SyncWakeupExit::Pending => true,
                    SyncWakeupExit::CloseRequested => old(self).should_sync,
                },
                ..*old(self)
            }),
    {
        match exit {
            SyncWakeupExit::Reconciled => {
                self.should_sync = false;
                false
            },
            SyncWakeupExit::Pending => {
                self.should_sync = true;
                false
            },
            SyncWakeupExit::CloseRequested => true,
        }
    }

    /// Takes in that the chain-event stream was opened. A stream that had been interrupted
    /// presents the driver as healthy again.
    pub fn stream_opened(&mut self, state: &mut DriverState) -> (publication: Option<Publication>)
        ensures
            *final(self) == (DriverLoop { stream_open: true, ..*old(self) }),
            *final(state) == old(state).after_stream_opened(),
            publication == if old(state).stream_consecutive_faults > 0 {
                Some(
                    final(state).publication_spec(
                        SyncDriverPhase::Waiting,
                        SnapshotBasis::FreshRead,
                        None,
                    ),
                )
            } else {
                None
            },
    {
        let recovered_stream = state.stream_consecutive_faults > 0;
        state.stream_consecutive_faults = 0;
        state.stream_next_attempt_at_ms = 0;
        state.stream_reprobe = StreamReprobe::Inactive;
        self.stream_open = true;
        if recovered_stream {
            state.last_fault = None;
            Some(state.publication(SyncDriverPhase::Waiting, SnapshotBasis::FreshRead, None))
        } else {
            None
        }
    }

    /// Takes in that the chain-event stream could not be opened. An expired cursor restarts at
    /// the earliest retained event and leaves a sync owed; any other failure backs off.
    pub fn stream_refused(
        &mut self,
        state: &mut DriverState,
        error: &ChainSourceError,
        policy: SyncRecoveryPolicy,
        now_ms: u64,
    ) -> (publication: Option<Publication>)
        ensures
            error.expired_at_earliest_retained() ==> {
                &&& *final(self) == (DriverLoop {
                    stream_start: ChainEventStreamStart::EarliestRetained,
                    stream_open: false,
                    ..*old(self)
                })
                &&& *final(state) == (DriverState {
                    cursor_recovery_pending: true,
                    ..*old(state)
                })
                &&& publication is None
            },
            !error.expired_at_earliest_retained() ==> {
                &&& *final(self) == (DriverLoop { stream_open: false, ..*old(self) })
                &&& old(state).faulted_on_stream(*final(state), *error, policy, now_ms)
                &&& publication == Some(
                    final(state).publication_spec(
                        old(state).stream_fault_phase(policy, now_ms),
                        SnapshotBasis::FreshRead,
                        None,
                    ),
                )
            },
    {
        self.stream_open = false;
        if error.is_expired_cursor() {
            self.stream_start = ChainEventStreamStart::EarliestRetained;
            state.cursor_recovery_pending = true;
            None
        } else {
            Some(state.record_stream_fault(error.describe(), policy, now_ms))
        }
    }

    /// Whether a parked driver's hold has passed at `now_ms`.
    pub open spec fn reprobe_due(state: DriverState, now_ms: u64) -> bool {
        &&& state.parked_spec() matches Some(parked)
        &&& parked.reprobe_at_ms matches Some(reprobe_at_ms)
        &&& now_ms >= reprobe_at_ms
    }

    /// Whether the driver holds on its chain-event stream at `now_ms`.
    pub open spec fn stream_holds(self, state: DriverState, now_ms: u64) -> bool {
        !self.stream_open && match state.stream_reprobe {
            StreamReprobe::Inactive => false,
            StreamReprobe::ParkedWithoutDeadline => true,
            StreamReprobe::At(deadline) => now_ms < deadline,
        }
    }

    /// The driver state after a polling tick: a due reprobe re-arms the ladder, a passed stream
    /// hold forgets the interruptions, and a tick that syncs clears the sync an expired cursor
    /// left owed.
    pub open spec fn polled_state(self, state: DriverState, now_ms: u64) -> DriverState {
        if state.parked_spec() is Some {
            if Self::reprobe_due(state, now_ms) {
                DriverState { recovery: None, ..state }
            } else {
                state
            }
        } else if self.stream_holds(state, now_ms) {
            state
        } else {
            let revived = if !self.stream_open && state.stream_held() {
                state.with_healthy_stream()
            } else {
                state
            };
            DriverState { cursor_recovery_pending: false, ..revived }
        }
    }

    /// The loop after a polling tick: a sync is owed unless the driver holds.
    pub open spec fn polled_loop(self, state: DriverState, now_ms: u64) -> DriverLoop {
        DriverLoop {
            should_sync: if state.parked_spec() is Some {
                Self::reprobe_due(state, now_ms)
            } else {
                !self.stream_holds(state, now_ms)
            },
            ..self
        }
    }

    /// Handles one polling wakeup.
    ///
    /// While parked, the tick republishes the current snapshot so that observers keep receiving
    /// the parked reason, and re-arms the full ladder once the reprobe deadline passes. A driver
    /// that gave its chain-event stream up holds until the stream's own deadline and republishes
    /// its parked reason likewise. Any other tick leaves a sync owed, so that polling keeps the
    /// wallet in sync without chain events, and reopens a closed stream once its backoff has
    /// passed.
    pub fn poll_tick(&mut self, state: &mut DriverState, now_ms: u64) -> (step: PollStep)
        ensures
            *final(state) == old(self).polled_state(*old(state), now_ms),
            *final(self) == old(self).polled_loop(*old(state), now_ms),
            step.open_stream == (old(state).parked_spec() is None && !old(self).stream_open
                && !old(self).stream_holds(*old(state), now_ms) && now_ms
                >= final(state).stream_next_attempt_at_ms),
            step.publication == if old(state).parked_spec() is None {
                if old(self).stream_holds(*old(state), now_ms) {
                    Some(Publication::Republish { transition: None })
                } else {
                    None
                }
            } else if Self::reprobe_due(*old(state), now_ms) {
                Some(
                    final(state).publication_spec(
                        SyncDriverPhase::Waiting,
                        SnapshotBasis::FreshRead,
                        Some(DriverTransition::ParkReprobe),
                    ),
                )
            } else {
                Some(Publication::Republish { transition: None })
            },
    {
        if let Some(parked) = state.parked() {
            let due = match parked.reprobe_at_ms {
                Some(reprobe_at_ms) => now_ms >= reprobe_at_ms,
                None => false,
            };
            self.should_sync = due;
            if due {
                state.recovery = None;
                let publication = state.publication(
                    SyncDriverPhase::Waiting,
                    SnapshotBasis::FreshRead,
                    Some(DriverTransition::ParkReprobe),
                );
                return PollStep { publication: Some(publication), open_stream: false };
            }
            return PollStep {
                publication: Some(Publication::Republish { transition: None }),
                open_stream: false,
            };
        }
        let mut open_stream = false;
        if !self.stream_open {
            match state.stream_reprobe {
                StreamReprobe::ParkedWithoutDeadline => {
                    self.should_sync = false;
                    return PollStep {
                        publication: Some(Publication::Republish { transition: None }),
                        open_stream: false,
                    };
                },
                StreamReprobe::At(deadline) => {
                    if now_ms < deadline {
                        self.should_sync = false;
                        return PollStep {
                            publication: Some(Publication::Republish { transition: None }),
                            open_stream: false,
                        };
                    }
                    state.stream_reprobe = StreamReprobe::Inactive;
                    state.stream_consecutive_faults = 0;
                    state.stream_next_attempt_at_ms = 0;
                },
                StreamReprobe::Inactive => {},
            }
            open_stream = now_ms >= state.stream_next_attempt_at_ms;
        }
        state.cursor_recovery_pending = false;
        self.should_sync = true;
        PollStep { publication: None, open_stream }
    }

    /// Ends a polling tick that tried to open the stream. A stream given up on this tick holds
    /// the driver from now on; an expired cursor's sync is part of the tick.
    pub fn end_poll(&mut self, state: &mut DriverState)
        ensures
            *final(state) == (DriverState { cursor_recovery_pending: false, ..*old(state) }),
            *final(self) == (DriverLoop {
                should_sync: old(state).cursor_recovery_pending || (old(self).should_sync && !old(
                    state,
                ).stream_held()),
                ..*old(self)
            }),
    {
        let owed = state.cursor_recovery_pending;
        state.cursor_recovery_pending = false;
        let held = match state.stream_reprobe {
            StreamReprobe::Inactive => false,
            _ => true,
        };
        self.should_sync = owed || (self.should_sync && !held);
    }

    /// Takes in what the chain-event stream delivered. An event leaves a sync owed unless the
    /// driver is parked; a failed or ended stream is closed, and an expired cursor restarts at
    /// the earliest retained event.
    pub fn chain_event(
        &mut self,
        state: &mut DriverState,
        delivery: ChainEventDelivery,
        policy: SyncRecoveryPolicy,
        now_ms: u64,
    ) -> (publication: Option<Publication>)
        ensures
            match delivery {
                ChainEventDelivery::Envelope(cursor) => {
                    &&& *final(self) == (DriverLoop {
                        should_sync: old(state).parked_spec() is None,
                        stream_start: ChainEventStreamStart::AfterCursor(cursor),
                        ..*old(self)
                    })
                    &&& *final(state) == *old(state)
                    &&& publication is None
                },
                ChainEventDelivery::Failed(error) => if error.expired_at_earliest_retained() {
                    &&& *final(self) == (DriverLoop {
                        should_sync: old(state).parked_spec() is None,
                        stream_start: ChainEventStreamStart::EarliestRetained,
                        stream_open: false,
                    })
                    &&& *final(state) == *old(state)
                    &&& publication is None
                } else {
                    &&& *final(self) == (DriverLoop { stream_open: false, ..*old(self) })
                    &&& old(state).parked_spec() is Some ==> *final(state) == *old(state)
                        && publication is None
                    &&& old(state).parked_spec() is None ==> old(state).faulted_on_stream(
                        *final(state),
                        error,
                        policy,
                        now_ms,
                    ) && publication == Some(
                        final(state).publication_spec(
                            old(state).stream_fault_phase(policy, now_ms),
                            SnapshotBasis::FreshRead,
                            None,
                        ),
                    )
                },
                ChainEventDelivery::Ended => {
                    &&& *final(self) == (DriverLoop { stream_open: false, ..*old(self) })
                    &&& *final(state) == *old(state)
                    &&& publication is None
                },
            },
    {
        match delivery {
            ChainEventDelivery::Envelope(cursor) => {
                self.stream_start = ChainEventStreamStart::AfterCursor(cursor);
                self.should_sync = state.parked().is_none();
                None
            },
            ChainEventDelivery::Failed(error) => {
                self.stream_open = false;
                if error.is_expired_cursor() {
                    self.stream_start = ChainEventStreamStart::EarliestRetained;
                    self.should_sync = state.parked().is_none();
                    None
                } else if state.parked().is_none() {
                    Some(state.record_stream_fault(error.describe(), policy, now_ms))
                } else {
                    None
                }
            },
            ChainEventDelivery::Ended => {
                self.stream_open = false;
                None
            },
        }
    }
}

/// What a closing driver publishes, in order.
pub fn closing_publications(state: &DriverState) -> (publications: Vec<Publication>)
    ensures
        publications@ == seq![
            state.publication_spec(
                SyncDriverPhase::Closing,
                SnapshotBasis::FreshRead,
                Some(DriverTransition::Closing),
            ),
            state.publication_spec(
                SyncDriverPhase::Closed,
                SnapshotBasis::FreshRead,
                Some(DriverTransition::Closed),
            ),
        ],
{
    let mut publications: Vec<Publication> = Vec::new();
    publications.push(
        state.publication(
            SyncDriverPhase::Closing,
            SnapshotBasis::FreshRead,
            Some(DriverTransition::Closing),
        ),
    );
    publications.push(
        state.publication(
            SyncDriverPhase::Closed,
            SnapshotBasis::FreshRead,
            Some(DriverTransition::Closed),
        ),
    );
    publications
}

/// How a driver task ended.
#[derive(Debug)]
pub enum TaskEnd {
    /// The task returned.
    Finished,
    /// The task panicked.
    Panicked {
        /// Description of the panic.
        reason: String,
    },
    /// The task was cancelled.
    Cancelled,
}

/// What a task's end means to the caller that closes the driver.
pub open spec fn task_result(end: TaskEnd) -> Result<(), WalletError> {
    match end {
        TaskEnd::Finished | TaskEnd::Cancelled => Ok(()),
        TaskEnd::Panicked { reason } => Err(WalletError::SyncDriverFailed { reason }),
    }
}

/// Translates a task's end: neither task fails on its own, so the only close-time error is a
/// panic.
pub fn join_driver_task(end: TaskEnd) -> (result: Result<(), WalletError>)
    ensures
        result == task_result(end),
{
    match end {
        TaskEnd::Finished | TaskEnd::Cancelled => Ok(()),
        TaskEnd::Panicked { reason } => Err(WalletError::SyncDriverFailed { reason }),
    }
}

/// The result of closing a driver: the sync task's failure first, then the refresh task's.
pub fn close_result(sync_end: TaskEnd, refresh_end: TaskEnd) -> (result: Result<(), WalletError>)
    ensures
        result == if task_result(sync_end) is Err {
            task_result(sync_end)
        } else {
            task_result(refresh_end)
        },
{
    match join_driver_task(sync_end) {
        Err(error) => Err(error),
        Ok(()) => join_driver_task(refresh_end),
    }
}

/// A parked driver never wakes, and no tick before its reprobe deadline un-parks it; without a
/// deadline none ever does.
pub proof fn a_parked_driver_holds(driver_loop: DriverLoop, state: DriverState, now_ms: u64)
    requires
        state.parked_spec() is Some,
        !DriverLoop::reprobe_due(state, now_ms),
    ensures
        driver_loop.turn_spec(state) is Wait,
        driver_loop.polled_state(state, now_ms) == state,
        !driver_loop.polled_loop(state, now_ms).should_sync,
{
}

/// Polling keeps the wallet in sync without chain events: a tick of a driver that is parked
/// neither on its ladder nor on its stream leads to a wakeup.
pub proof fn polling_syncs_unless_parked(
    driver_loop: DriverLoop,
    state: DriverState,
    now_ms: u64,
)
    requires
        state.parked_spec() is None,
        !driver_loop.stream_holds(state, now_ms),
    ensures
        driver_loop.polled_loop(state, now_ms).turn_spec(
            driver_loop.polled_state(state, now_ms),
        ) is Wake,
{
}

/// At its reprobe deadline a parked driver forgets the whole ladder and syncs again.
pub proof fn a_due_reprobe_rearms_the_ladder(
    driver_loop: DriverLoop,
    state: DriverState,
    now_ms: u64,
)
    requires
        DriverLoop::reprobe_due(state, now_ms),
    ensures
        driver_loop.polled_state(state, now_ms).recovery is None,
        driver_loop.polled_loop(state, now_ms).turn_spec(
            driver_loop.polled_state(state, now_ms),
        ) is Wake,
{
}

} // verus!
