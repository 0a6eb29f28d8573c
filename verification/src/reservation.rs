//! Dispense reservations.

use crate::domain::{IdempotencyKey, Network, ReservationId, Zatoshis};
use vstd::prelude::*;

verus! {

/// Summary of what the wallet locked in one reservation.
#[derive(Clone, Copy, Debug, PartialEq, Eq, Structural)]
pub struct LockedNotesSummary {
    /// Number of shielded notes the wallet considered locked at reservation time.
    pub note_count: u32,
    /// Total value across those locked notes.
    pub total_locked_zat: Zatoshis,
}

impl LockedNotesSummary {
    /// Constructs a locked-notes summary.
    pub fn new(note_count: u32, total_locked_zat: Zatoshis) -> (summary: LockedNotesSummary)
        ensures
            summary == (LockedNotesSummary { note_count, total_locked_zat }),
    {
        LockedNotesSummary { note_count, total_locked_zat }
    }
}

/// A reservation that the wallet persisted and bound to the caller's request.
#[derive(Clone, Debug)]
pub struct DispenseReservation {
    /// Network the wallet is bound to.
    pub network: Network,
    /// Wallet-issued identifier of the reservation.
    pub reservation_id: ReservationId,
    /// Caller-supplied request identifier the reservation is bound to.
    pub request_id: IdempotencyKey,
    /// Caller-supplied idempotency key for the eventual broadcast.
    pub idempotency_key: IdempotencyKey,
    /// Amount reserved.
    pub amount_zat: Zatoshis,
    /// Summary of the shielded notes the wallet considered locked at reservation time.
    pub locked_notes_summary: LockedNotesSummary,
    /// Spendable amount the wallet would report if this reservation were released right now:
    /// the spendable view from before the reservation.
    pub available_after_release_zat: Zatoshis,
}

} // verus!
