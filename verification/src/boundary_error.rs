//! Errors that cross the wallet's pluggable boundaries: chain source, submitter, storage, seed
//! sealing, key derivation, and PCZT roles.
//!
//! Each boundary decides how a consumer may react to its failures, so an error carries its own
//! posture. Faults that the wallet itself raises about a malformed answer take the posture of
//! [`ChainSourceError::malformed`].

use crate::domain::{AccountId, BlockHeight, OutPoint, ShieldedPool, Zatoshis};
use crate::retry::IsRetryable;
use vstd::prelude::*;

verus! {

/// What a consumer may do about a failure.
#[derive(Clone, Copy, Debug, PartialEq, Eq, Structural)]
pub enum FailurePosture {
    /// The same call may succeed on retry.
    Retryable,
    /// The boundary the call ran under expired; a fresh attempt may succeed.
    Restartable,
    /// The same call fails the same way every time.
    NotRetryable,
    /// No call succeeds until an operator acts.
    RequiresOperator,
}

impl FailurePosture {
    /// Whether the posture permits another attempt.
    pub open spec fn permits_retry(self) -> bool {
        self is Retryable || self is Restartable
    }

    /// `true` when the same call may succeed on another attempt.
    pub fn allows_retry(self) -> (allowed: bool)
        ensures
            allowed == self.permits_retry(),
    {
        match self {
            FailurePosture::Retryable | FailurePosture::Restartable => true,
            FailurePosture::NotRetryable | FailurePosture::RequiresOperator => false,
        }
    }

    /// The stable text of a posture.
    pub open spec fn label_text(self) -> Seq<char> {
        match self {
            FailurePosture::Retryable => "retryable"@,
            FailurePosture::Restartable => "restartable"@,
            FailurePosture::NotRetryable => "not_retryable"@,
            FailurePosture::RequiresOperator => "requires_operator"@,
        }
    }

    /// Stable `snake_case` label for logs.
    pub fn label(self) -> (label: &'static str)
        ensures
            label@ == self.label_text(),
    {
        match self {
            FailurePosture::Retryable => "retryable",
            FailurePosture::Restartable => "restartable",
            FailurePosture::NotRetryable => "not_retryable",
            FailurePosture::RequiresOperator => "requires_operator",
        }
    }
}

/// The posture of a failure that only says whether it is retryable.
pub open spec fn posture_of_flag(is_retryable: bool) -> FailurePosture {
    if is_retryable {
        FailurePosture::Retryable
    } else {
        FailurePosture::NotRetryable
    }
}

/// Maps the two-state retry signal of a boundary error into a posture.
pub fn bool_to_posture(is_retryable: bool) -> (posture: FailurePosture)
    ensures
        posture == posture_of_flag(is_retryable),
{
    if is_retryable {
        FailurePosture::Retryable
    } else {
        FailurePosture::NotRetryable
    }
}

/// Where an expired chain-event cursor lets the consumer resume.
#[derive(Clone, Copy, Debug, PartialEq, Eq, Structural)]
pub enum ChainEventCursorRecovery {
    /// Reopen the stream at the earliest event the source still holds.
    EarliestRetained,
    /// The source names no position to resume from.
    Unspecified,
}

/// Why a chain-reported transparent UTXO set cannot be recorded.
#[derive(Clone, Copy, Debug)]
pub enum UtxoSetDefect {
    /// The outpoint is confirmed above the visible tip the walk is pinned to.
    ConfirmedAboveTip {
        /// The reported outpoint.
        outpoint: OutPoint,
        /// Height the source reports it confirmed at.
        confirmed_at_height: BlockHeight,
        /// Visible tip the walk is pinned to.
        visible_tip: BlockHeight,
    },
    /// The outpoint was already reported in this walk.
    Repeated {
        /// The reported outpoint.
        outpoint: OutPoint,
    },
    /// The outpoint's script is not the receiver's.
    ScriptMismatch {
        /// The reported outpoint.
        outpoint: OutPoint,
        /// Account that owns the receiver.
        account_id: AccountId,
    },
}

/// Kind of chain-source failure.
#[derive(Debug)]
pub enum ChainSourceErrorKind {
    /// The source cannot be reached.
    Unavailable {
        /// Description of the failure.
        reason: String,
    },
    /// A compact block or tree state could not be decoded.
    MalformedCompactBlock {
        /// Height of the block.
        block_height: BlockHeight,
        /// Description of the failure.
        reason: String,
    },
    /// A page of subtree roots does not answer its request.
    MalformedSubtreeRootPage {
        /// Pool the page was requested for.
        pool: ShieldedPool,
        /// Description of the failure.
        reason: String,
    },
    /// A transparent UTXO set does not answer its request.
    MalformedTransparentUtxoSet {
        /// What is wrong with the set.
        defect: UtxoSetDefect,
    },
    /// Compact blocks did not arrive in height order over the requested range.
    CompactBlockStreamOrder {
        /// Height the next block should have had.
        expected_height: BlockHeight,
        /// Height the block had, or `None` when the stream ended early.
        actual_height: Option<BlockHeight>,
    },
    /// A tree state was served for another height than the requested one.
    TreeStateAnchorHeightMismatch {
        /// Height that was requested.
        requested_height: BlockHeight,
        /// Height that was served.
        returned_height: BlockHeight,
    },
    /// The pinned chain epoch is no longer served.
    ChainEpochPinUnavailable,
    /// The chain-event cursor is no longer retained.
    ChainEventCursorExpired {
        /// Where the consumer may resume.
        recovery: ChainEventCursorRecovery,
    },
    /// Any other failure of the source.
    Other {
        /// Description of the failure.
        reason: String,
    },
}

/// Failure of a chain-source operation.
#[derive(Debug)]
pub struct ChainSourceError {
    /// What failed.
    pub kind: ChainSourceErrorKind,
    /// What a consumer may do about it.
    pub posture: FailurePosture,
}

impl ChainSourceError {
    /// A source that cannot be reached right now.
    pub fn unavailable(reason: String) -> (error: ChainSourceError)
        ensures
            error.kind == (ChainSourceErrorKind::Unavailable { reason }),
            error.posture == FailurePosture::Retryable,
    {
        ChainSourceError {
            kind: ChainSourceErrorKind::Unavailable { reason },
            posture: FailurePosture::Retryable,
        }
    }

    /// An answer that breaks the source's contract: no retry of the same read cures it, so an
    /// operator has to look at the source.
    pub fn malformed(kind: ChainSourceErrorKind) -> (error: ChainSourceError)
        ensures
            error.kind == kind,
            error.posture == FailurePosture::RequiresOperator,
    {
        ChainSourceError { kind, posture: FailurePosture::RequiresOperator }
    }

    /// A rotated chain epoch: the pin expired under a running attempt.
    pub fn epoch_pin_unavailable() -> (error: ChainSourceError)
        ensures
            error.kind == ChainSourceErrorKind::ChainEpochPinUnavailable,
            error.posture == FailurePosture::Restartable,
    {
        ChainSourceError {
            kind: ChainSourceErrorKind::ChainEpochPinUnavailable,
            posture: FailurePosture::Restartable,
        }
    }

    /// Whether the failure is a cursor that may resume at the earliest retained event.
    pub open spec fn expired_at_earliest_retained(&self) -> bool {
        self.kind matches ChainSourceErrorKind::ChainEventCursorExpired { recovery }
            && recovery is EarliestRetained
    }

    /// `true` when the chain-event stream may be reopened at the earliest retained event.
    pub fn is_expired_cursor(&self) -> (expired: bool)
        ensures
            expired == self.expired_at_earliest_retained(),
    {
        match self.kind {
            ChainSourceErrorKind::ChainEventCursorExpired {
                recovery: ChainEventCursorRecovery::EarliestRetained,
            } => true,
            _ => false,
        }
    }
}

impl IsRetryable for ChainSourceError {
    open spec fn earns_retry(&self) -> bool {
        self.posture.permits_retry()
    }

    fn is_retryable(&self) -> (retryable: bool) {
        self.posture.allows_retry()
    }
}

/// Failure of a submitter operation.
#[derive(Debug)]
pub struct SubmitterError {
    /// Description of the failure.
    pub reason: String,
    /// What a consumer may do about it.
    pub posture: FailurePosture,
}

impl SubmitterError {
    /// A submitter that cannot be reached right now.
    pub fn unavailable(reason: String) -> (error: SubmitterError)
        ensures
            error.reason == reason,
            error.posture == FailurePosture::Retryable,
    {
        SubmitterError { reason, posture: FailurePosture::Retryable }
    }
}

impl IsRetryable for SubmitterError {
    open spec fn earns_retry(&self) -> bool {
        self.posture.permits_retry()
    }

    fn is_retryable(&self) -> (retryable: bool) {
        self.posture.allows_retry()
    }
}

/// Kind of storage failure.
#[derive(Debug)]
pub enum StorageErrorKind {
    /// The storage has not been opened.
    NotOpened,
    /// No account matches.
    AccountNotFound,
    /// An account already exists.
    AccountAlreadyExists,
    /// The proposal needs more value than is available.
    InsufficientFunds {
        /// Value the proposal needs.
        required_zat: Zatoshis,
        /// Value that is available.
        available_zat: Zatoshis,
    },
    /// The proposal could not be built.
    ProposalBuildFailed {
        /// Description of the failure.
        reason: String,
    },
    /// A commitment tree disagrees with a recorded subtree root.
    CommitmentTreeConflict {
        /// Description of the failure.
        reason: String,
    },
    /// Scanned blocks do not connect to the recorded chain.
    ChainReorgDetected {
        /// Height at which the chain diverged.
        at_height: BlockHeight,
    },
    /// The storage work unwound before it replied.
    BlockingTaskFailed {
        /// Description of the failure.
        reason: String,
    },
    /// The scan frontier fell below the floor the write was pinned to.
    ScanFrontierReceded,
    /// Any other failure of the storage.
    Other {
        /// Description of the failure.
        reason: String,
    },
}

/// Failure of a storage operation.
#[derive(Debug)]
pub struct StorageError {
    /// What failed.
    pub kind: StorageErrorKind,
    /// What a consumer may do about it.
    pub posture: FailurePosture,
}

impl StorageError {
    /// The storage failure of `kind`, with the posture its backend gives it.
    pub fn new(kind: StorageErrorKind, posture: FailurePosture) -> (error: StorageError)
        ensures
            error.kind == kind,
            error.posture == posture,
    {
        StorageError { kind, posture }
    }

    /// A write whose scan-frontier floor no longer holds; a fresh walk may succeed.
    pub fn scan_frontier_receded() -> (error: StorageError)
        ensures
            error.kind == StorageErrorKind::ScanFrontierReceded,
            error.posture == FailurePosture::Restartable,
    {
        StorageError {
            kind: StorageErrorKind::ScanFrontierReceded,
            posture: FailurePosture::Restartable,
        }
    }
}

impl IsRetryable for StorageError {
    open spec fn earns_retry(&self) -> bool {
        self.posture.permits_retry()
    }

    fn is_retryable(&self) -> (retryable: bool) {
        self.posture.allows_retry()
    }
}

/// Kind of seed-sealing failure.
#[derive(Debug)]
pub enum SealingErrorKind {
    /// No sealed seed exists.
    NoSealedSeed,
    /// Any other failure of the sealing.
    Other {
        /// Description of the failure.
        reason: String,
    },
}

/// Failure of a seed-sealing operation.
#[derive(Debug)]
pub struct SealingError {
    /// What failed.
    pub kind: SealingErrorKind,
    /// Whether the same call may succeed on retry.
    pub is_retryable: bool,
}

impl SealingError {
    /// No sealed seed exists.
    pub fn no_sealed_seed() -> (error: SealingError)
        ensures
            error.kind is NoSealedSeed,
            !error.is_retryable,
    {
        SealingError { kind: SealingErrorKind::NoSealedSeed, is_retryable: false }
    }
}

impl IsRetryable for SealingError {
    open spec fn earns_retry(&self) -> bool {
        self.is_retryable
    }

    fn is_retryable(&self) -> (retryable: bool) {
        self.is_retryable
    }
}

/// Failure of a key derivation.
#[derive(Debug)]
pub struct KeyDerivationError {
    /// Description of the failure.
    pub reason: String,
    /// Whether the same call may succeed on retry.
    pub is_retryable: bool,
}

/// Kind of PCZT role failure.
#[derive(Debug)]
pub enum PcztErrorKind {
    /// The seed authorizes no spend in the PCZT.
    NoMatchingKeys,
    /// Any other failure of a role.
    Other {
        /// Description of the failure.
        reason: String,
    },
}

/// Failure of a PCZT role.
#[derive(Debug)]
pub struct PcztError {
    /// What failed.
    pub kind: PcztErrorKind,
    /// Whether the same call may succeed on retry.
    pub is_retryable: bool,
}

impl IsRetryable for PcztError {
    open spec fn earns_retry(&self) -> bool {
        self.is_retryable
    }

    fn is_retryable(&self) -> (retryable: bool) {
        self.is_retryable
    }
}

/// Kind of payment-disclosure export failure.
#[derive(Debug)]
pub enum PaymentDisclosureExportErrorKind {
    /// The recipient has no receiver that the profile can disclose.
    RecipientUnsupported,
    /// Any other failure of the export.
    Other {
        /// Description of the failure.
        reason: String,
    },
}

/// Failure of a payment-disclosure export.
#[derive(Debug)]
pub struct PaymentDisclosureExportError {
    /// What failed.
    pub kind: PaymentDisclosureExportErrorKind,
    /// What a consumer may do about it.
    pub posture: FailurePosture,
}

impl PaymentDisclosureExportError {
    /// The recipient has no receiver that the profile can disclose.
    pub fn recipient_unsupported() -> (error: PaymentDisclosureExportError)
        ensures
            error.kind is RecipientUnsupported,
            error.posture == FailurePosture::NotRetryable,
    {
        PaymentDisclosureExportError {
            kind: PaymentDisclosureExportErrorKind::RecipientUnsupported,
            posture: FailurePosture::NotRetryable,
        }
    }
}

/// Why a node refused a transaction.
#[derive(Clone, Copy, Debug, PartialEq, Eq, Structural)]
pub enum RejectionReason {
    /// The node's mempool is full.
    MempoolFull,
    /// The transaction breaks a consensus or policy rule.
    Invalid,
    /// The transaction's expiry height has passed.
    Expired,
    /// The node gave no reason the submitter understands.
    Unknown,
}

} // verus!
