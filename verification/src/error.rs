//! Operator-facing wallet error.

use crate::boundary_error::{
    bool_to_posture, ChainSourceError, FailurePosture, KeyDerivationError,
    PaymentDisclosureExportError, PcztError, RejectionReason, SealingError, StorageError,
    StorageErrorKind, SubmitterError,
};
use crate::domain::{BlockHeight, Network, TxId, Zatoshis};
use crate::retry::IsRetryable;
use vstd::prelude::*;

verus! {

/// Error returned by wallet operations.
#[derive(Debug)]
pub enum WalletError {
    /// A seed-sealing operation failed.
    Sealing(SealingError),
    /// A storage operation failed.
    Storage(StorageError),
    /// Key derivation failed.
    KeyDerivation(KeyDerivationError),
    /// The wallet was opened but no sealed seed exists. A human provisions the seed; no retry
    /// conjures one.
    NoSealedSeed,
    /// The wallet was created but an account already exists.
    AccountAlreadyExists,
    /// The unsealed seed does not match any account in storage.
    AccountNotFound,
    /// A boundary serves another network than the wallet.
    NetworkMismatch {
        /// Network of the storage or the wallet.
        storage: Network,
        /// Network that was requested.
        requested: Network,
    },
    /// A chain-source operation failed.
    ChainSource(ChainSourceError),
    /// A submitter operation failed.
    Submitter(SubmitterError),
    /// A memo was provided for a transparent recipient (ZIP-302).
    MemoOnTransparentRecipient,
    /// A constructed transaction both spends shielded notes and pays the TEX recipient
    /// (ZIP-320).
    ShieldedInputsOnTexRecipient,
    /// The wallet does not have enough spendable balance for the requested send.
    InsufficientBalance {
        /// Amount the caller asked to send.
        requested_zat: Zatoshis,
        /// Spendable balance reported by storage at proposal time.
        spendable_zat: Zatoshis,
    },
    /// A ZIP-321 payment-request URI could not be parsed.
    PaymentRequestParseFailed {
        /// Underlying parser error.
        reason: String,
    },
    /// The proposal could not be built.
    ProposalRejected {
        /// Underlying error description.
        reason: String,
    },
    /// The submitter rejected the transaction.
    SubmissionRejected {
        /// Typed rejection reason from the upstream node.
        reason: RejectionReason,
        /// Operator-facing detail describing the rejection.
        detail: String,
    },
    /// The submitter reported success for another transaction than the submitted one.
    SubmittedTransactionIdMismatch {
        /// Identifier of the submitted transaction.
        expected: TxId,
        /// Identifier the submitter returned.
        returned: TxId,
    },
    /// A PCZT role returned an error.
    Pczt(PcztError),
    /// The circuit breaker is open and short-circuited the call.
    CircuitBroken {
        /// Operation that observed the open circuit.
        operation: &'static str,
    },
    /// The target expiry height is at or below the wallet's observed chain tip.
    TargetExpiryStale {
        /// Height the caller asked the wallet to commit to.
        target: BlockHeight,
        /// Chain tip the wallet had observed at the time of the call.
        chain_tip: BlockHeight,
    },
    /// The signed transaction's expiry height is not the target.
    TargetExpiryMismatch {
        /// Height the caller asked the wallet to commit to.
        target: BlockHeight,
        /// Height the wallet actually signed.
        signed: BlockHeight,
    },
    /// The wallet's note-commitment tree roots disagree with the chain's at `height`.
    TreeRootsDiverged {
        /// Height whose chain tree state disagreed with the wallet's roots.
        height: BlockHeight,
    },
    /// A scanned chunk was committed but its comparison against the chain never finished.
    UnverifiedScanChunk {
        /// Highest block of the committed chunk.
        scanned_to: BlockHeight,
        /// What stopped the comparison.
        source: Box<WalletError>,
    },
    /// No finalized PCZT was retained for the transaction.
    PaymentDisclosureSourceMissing {
        /// Transaction whose payment was to be disclosed.
        transaction_id: TxId,
    },
    /// A payment disclosure could not be exported.
    PaymentDisclosureExport(PaymentDisclosureExportError),
    /// A driver task panicked.
    SyncDriverFailed {
        /// Underlying join-error description.
        reason: String,
    },
}

impl WalletError {
    /// The posture of a wallet error: the boundary's own posture where a boundary failed, a
    /// fixed one where the wallet itself refused, and that of what stopped the comparison for
    /// an unverified chunk.
    pub open spec fn posture_spec(&self) -> FailurePosture
        decreases self,
    {
        match self {
            WalletError::Sealing(e) => crate::boundary_error::posture_of_flag(e.is_retryable),
            WalletError::Storage(e) => e.posture,
            WalletError::KeyDerivation(e) => crate::boundary_error::posture_of_flag(
                e.is_retryable,
            ),
            WalletError::Pczt(e) => crate::boundary_error::posture_of_flag(e.is_retryable),
            WalletError::ChainSource(e) => e.posture,
            WalletError::Submitter(e) => e.posture,
            WalletError::PaymentDisclosureExport(e) => e.posture,
            WalletError::UnverifiedScanChunk { source, .. } => source.posture_spec(),
            WalletError::CircuitBroken { .. } => FailurePosture::Retryable,
            WalletError::NetworkMismatch { .. }
            | WalletError::NoSealedSeed
            | WalletError::AccountNotFound
            | WalletError::TargetExpiryMismatch { .. }
            | WalletError::SubmittedTransactionIdMismatch { .. }
            | WalletError::SyncDriverFailed { .. } => FailurePosture::RequiresOperator,
            WalletError::AccountAlreadyExists
            | WalletError::MemoOnTransparentRecipient
            | WalletError::ShieldedInputsOnTexRecipient
            | WalletError::InsufficientBalance { .. }
            | WalletError::PaymentRequestParseFailed { .. }
            | WalletError::ProposalRejected { .. }
            | WalletError::SubmissionRejected { .. }
            | WalletError::TargetExpiryStale { .. }
            | WalletError::PaymentDisclosureSourceMissing { .. }
            | WalletError::TreeRootsDiverged { .. } => FailurePosture::NotRetryable,
        }
    }

    /// Operator-facing posture describing what the consumer may do.
    pub fn posture(&self) -> (posture: FailurePosture)
        ensures
            posture == self.posture_spec(),
        decreases self,
    {
        match self {
            WalletError::Sealing(e) => bool_to_posture(e.is_retryable),
            WalletError::Storage(e) => e.posture,
            WalletError::KeyDerivation(e) => bool_to_posture(e.is_retryable),
            WalletError::Pczt(e) => bool_to_posture(e.is_retryable),
            WalletError::ChainSource(e) => e.posture,
            WalletError::Submitter(e) => e.posture,
            WalletError::PaymentDisclosureExport(e) => e.posture,
            WalletError::UnverifiedScanChunk { source, .. } => source.posture(),
            WalletError::CircuitBroken { .. } => FailurePosture::Retryable,
            WalletError::NetworkMismatch { .. }
            | WalletError::NoSealedSeed
            | WalletError::AccountNotFound
            | WalletError::TargetExpiryMismatch { .. }
            | WalletError::SubmittedTransactionIdMismatch { .. }
            | WalletError::SyncDriverFailed { .. } => FailurePosture::RequiresOperator,
            WalletError::AccountAlreadyExists
            | WalletError::MemoOnTransparentRecipient
            | WalletError::ShieldedInputsOnTexRecipient
            | WalletError::InsufficientBalance { .. }
            | WalletError::PaymentRequestParseFailed { .. }
            | WalletError::ProposalRejected { .. }
            | WalletError::SubmissionRejected { .. }
            | WalletError::TargetExpiryStale { .. }
            | WalletError::PaymentDisclosureSourceMissing { .. }
            | WalletError::TreeRootsDiverged { .. } => FailurePosture::NotRetryable,
        }
    }

    /// `true` when the same call may succeed on retry: the posture allows one.
    pub fn is_retryable(&self) -> (retryable: bool)
        ensures
            retryable == self.posture_spec().permits_retry(),
    {
        self.posture().allows_retry()
    }

    /// The error is a payment-request parse failure with this reason.
    pub open spec fn parse_failed_with(&self, reason: Seq<char>) -> bool {
        self matches WalletError::PaymentRequestParseFailed { reason: r } && r@ == reason
    }

    /// The error is a rejected proposal with this reason.
    pub open spec fn rejected_with(&self, reason: Seq<char>) -> bool {
        self matches WalletError::ProposalRejected { reason: r } && r@ == reason
    }

    /// The error is a chain-source error of this kind that the wallet raised about a malformed
    /// answer.
    pub open spec fn malformed_as(
        &self,
        kind: crate::boundary_error::ChainSourceErrorKind,
    ) -> bool {
        self matches WalletError::ChainSource(e) && e.kind == kind && e.posture
            == FailurePosture::RequiresOperator
    }
}

impl IsRetryable for WalletError {
    open spec fn earns_retry(&self) -> bool {
        self.posture_spec().permits_retry()
    }

    fn is_retryable(&self) -> (retryable: bool) {
        self.posture().allows_retry()
    }
}

/// How a storage failure surfaces from the wallet: account, balance, and proposal failures by
/// their own variants, every other one verbatim.
pub open spec fn lifted_storage_error(err: StorageError) -> WalletError {
    match err.kind {
        StorageErrorKind::AccountNotFound => WalletError::AccountNotFound,
        StorageErrorKind::AccountAlreadyExists => WalletError::AccountAlreadyExists,
        StorageErrorKind::InsufficientFunds { required_zat, available_zat } => {
            WalletError::InsufficientBalance {
                requested_zat: required_zat,
                spendable_zat: available_zat,
            }
        },
        StorageErrorKind::ProposalBuildFailed { reason } => WalletError::ProposalRejected {
            reason,
        },
        _ => WalletError::Storage(err),
    }
}

impl From<StorageError> for WalletError {
    fn from(err: StorageError) -> (error: Self) {
        let posture = err.posture;
        match err.kind {
            StorageErrorKind::AccountNotFound => WalletError::AccountNotFound,
            StorageErrorKind::AccountAlreadyExists => WalletError::AccountAlreadyExists,
            StorageErrorKind::InsufficientFunds { required_zat, available_zat } => {
                WalletError::InsufficientBalance {
                    requested_zat: required_zat,
                    spendable_zat: available_zat,
                }
            },
            StorageErrorKind::ProposalBuildFailed { reason } => WalletError::ProposalRejected {
                reason,
            },
            kind => WalletError::Storage(StorageError { kind, posture }),
        }
    }
}

impl vstd::std_specs::convert::FromSpecImpl<StorageError> for WalletError {
    open spec fn obeys_from_spec() -> bool {
        true
    }

    open spec fn from_spec(err: StorageError) -> Self {
        lifted_storage_error(err)
    }
}

impl From<SealingError> for WalletError {
    fn from(err: SealingError) -> (error: Self) {
        WalletError::Sealing(err)
    }
}

impl vstd::std_specs::convert::FromSpecImpl<SealingError> for WalletError {
    open spec fn obeys_from_spec() -> bool {
        true
    }

    open spec fn from_spec(err: SealingError) -> Self {
        WalletError::Sealing(err)
    }
}

impl From<KeyDerivationError> for WalletError {
    fn from(err: KeyDerivationError) -> (error: Self) {
        WalletError::KeyDerivation(err)
    }
}

impl vstd::std_specs::convert::FromSpecImpl<KeyDerivationError> for WalletError {
    open spec fn obeys_from_spec() -> bool {
        true
    }

    open spec fn from_spec(err: KeyDerivationError) -> Self {
        WalletError::KeyDerivation(err)
    }
}

impl From<ChainSourceError> for WalletError {
    fn from(err: ChainSourceError) -> (error: Self) {
        WalletError::ChainSource(err)
    }
}

impl vstd::std_specs::convert::FromSpecImpl<ChainSourceError> for WalletError {
    open spec fn obeys_from_spec() -> bool {
        true
    }

    open spec fn from_spec(err: ChainSourceError) -> Self {
        WalletError::ChainSource(err)
    }
}

impl From<SubmitterError> for WalletError {
    fn from(err: SubmitterError) -> (error: Self) {
        WalletError::Submitter(err)
    }
}

impl vstd::std_specs::convert::FromSpecImpl<SubmitterError> for WalletError {
    open spec fn obeys_from_spec() -> bool {
        true
    }

    open spec fn from_spec(err: SubmitterError) -> Self {
        WalletError::Submitter(err)
    }
}

impl From<PcztError> for WalletError {
    fn from(err: PcztError) -> (error: Self) {
        WalletError::Pczt(err)
    }
}

impl vstd::std_specs::convert::FromSpecImpl<PcztError> for WalletError {
    open spec fn obeys_from_spec() -> bool {
        true
    }

    open spec fn from_spec(err: PcztError) -> Self {
        WalletError::Pczt(err)
    }
}

impl From<PaymentDisclosureExportError> for WalletError {
    fn from(err: PaymentDisclosureExportError) -> (error: Self) {
        WalletError::PaymentDisclosureExport(err)
    }
}

impl vstd::std_specs::convert::FromSpecImpl<PaymentDisclosureExportError> for WalletError {
    open spec fn obeys_from_spec() -> bool {
        true
    }

    open spec fn from_spec(err: PaymentDisclosureExportError) -> Self {
        WalletError::PaymentDisclosureExport(err)
    }
}

} // verus!
