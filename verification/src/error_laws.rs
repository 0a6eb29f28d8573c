//! What an error means to those who react to it.

use crate::boundary_error::{
    ChainSourceError, ChainSourceErrorKind, FailurePosture, KeyDerivationError,
    PaymentDisclosureExportError, PcztError, SealingError, StorageError, StorageErrorKind,
    SubmitterError,
};
use crate::domain::BlockHeight;
use crate::error::WalletError;
use crate::retry::IsRetryable;
use crate::sync::ladder::SyncRepair;
use vstd::prelude::*;

verus! {

/// Exactly the retryable and the restartable postures permit another attempt.
pub proof fn only_two_postures_permit_a_retry()
    ensures
        FailurePosture::Retryable.permits_retry(),
        FailurePosture::Restartable.permits_retry(),
        !FailurePosture::NotRetryable.permits_retry(),
        !FailurePosture::RequiresOperator.permits_retry(),
        crate::boundary_error::posture_of_flag(true) is Retryable,
        crate::boundary_error::posture_of_flag(false) is NotRetryable,
{
}

/// A boundary's failure keeps the boundary's own posture; one that only says whether it is
/// retryable permits a retry exactly if it says so; an unverified chunk takes the posture of
/// what stopped its comparison.
pub proof fn a_boundary_failure_keeps_its_posture(
    storage: StorageError,
    source: ChainSourceError,
    submitter: SubmitterError,
    export: PaymentDisclosureExportError,
    sealing: SealingError,
    keys: KeyDerivationError,
    pczt: PcztError,
    scanned_to: BlockHeight,
    cause: WalletError,
)
    ensures
        WalletError::Storage(storage).posture_spec() == storage.posture,
        WalletError::ChainSource(source).posture_spec() == source.posture,
        WalletError::Submitter(submitter).posture_spec() == submitter.posture,
        WalletError::PaymentDisclosureExport(export).posture_spec() == export.posture,
        WalletError::Sealing(sealing).posture_spec().permits_retry() <==> sealing.is_retryable,
        WalletError::KeyDerivation(keys).posture_spec().permits_retry() <==> keys.is_retryable,
        WalletError::Pczt(pczt).posture_spec().permits_retry() <==> pczt.is_retryable,
        (WalletError::UnverifiedScanChunk { scanned_to, source: Box::new(cause) }).posture_spec()
            == cause.posture_spec(),
        storage.earns_retry() <==> storage.posture.permits_retry(),
        source.earns_retry() <==> source.posture.permits_retry(),
        submitter.earns_retry() <==> submitter.posture.permits_retry(),
        sealing.earns_retry() <==> sealing.is_retryable,
        pczt.earns_retry() <==> pczt.is_retryable,
        cause.earns_retry() <==> cause.posture_spec().permits_retry(),
{
    reveal_with_fuel(WalletError::posture_spec, 2);
}

/// What the wallet itself refuses is not cured by a retry: only an open breaker may be retried,
/// and mismatches, missing seeds and accounts, and panics wait for an operator.
pub proof fn the_wallet_s_own_refusals_are_final(error: WalletError)
    ensures
        error is CircuitBroken ==> error.posture_spec() is Retryable,
        error is NetworkMismatch || error is NoSealedSeed || error is AccountNotFound || error
            is TargetExpiryMismatch || error is SubmittedTransactionIdMismatch || error
            is SyncDriverFailed ==> error.posture_spec() is RequiresOperator,
        error is AccountAlreadyExists || error is MemoOnTransparentRecipient || error
            is ShieldedInputsOnTexRecipient || error is InsufficientBalance || error
            is PaymentRequestParseFailed || error is ProposalRejected || error
            is SubmissionRejected || error is TargetExpiryStale || error
            is PaymentDisclosureSourceMissing || error is TreeRootsDiverged
            ==> error.posture_spec() is NotRetryable,
{
}

/// Divergence rewinds: a tree conflict, a reorg, unwound storage work, or differing roots lead
/// to the rewind rung whatever their posture, an unverified chunk by what stopped it.
pub proof fn divergence_is_answered_with_a_rewind(
    storage: StorageError,
    height: BlockHeight,
    scanned_to: BlockHeight,
    cause: WalletError,
)
    requires
        !(cause is UnverifiedScanChunk),
    ensures
        storage.kind is CommitmentTreeConflict || storage.kind is ChainReorgDetected
            || storage.kind is BlockingTaskFailed ==> crate::sync::classify::repair_spec(
            WalletError::Storage(storage),
        ) is Rewind,
        crate::sync::classify::repair_spec(WalletError::TreeRootsDiverged { height }) is Rewind,
        crate::sync::classify::repair_spec(
            WalletError::UnverifiedScanChunk { scanned_to, source: Box::new(cause) },
        ) == crate::sync::classify::repair_spec(cause),
{
}

/// Every other fault goes by its posture: what may succeed again retries, what needs an
/// operator parks, and what fails the same way every time rewinds.
pub proof fn other_faults_go_by_their_posture(error: WalletError)
    requires
        !(error is UnverifiedScanChunk),
        !(error is TreeRootsDiverged),
        error matches WalletError::Storage(storage) ==> !(storage.kind is CommitmentTreeConflict)
            && !(storage.kind is ChainReorgDetected) && !(storage.kind is BlockingTaskFailed),
    ensures
        error.posture_spec() is Retryable || error.posture_spec() is Restartable
            <==> crate::sync::classify::repair_spec(error) is Retry,
        error.posture_spec() is RequiresOperator <==> crate::sync::classify::repair_spec(error)
            is Park,
        error.posture_spec() is NotRetryable <==> crate::sync::classify::repair_spec(error)
            is Rewind,
{
}

/// A first classification never rebuilds: the rebuild is only ever reached by escalation.
pub proof fn no_fault_is_classified_onto_the_rebuild(error: WalletError)
    ensures
        !(crate::sync::classify::repair_spec(error) is RescanFromBirthday),
{
}

/// The blocks of an attempt count as unchecked exactly if its comparison was cut short.
pub proof fn only_an_unverified_chunk_is_unchecked(error: WalletError)
    ensures
        crate::sync::classify::committed_chunk_spec(error) is Unchecked <==> error
            is UnverifiedScanChunk,
        crate::sync::classify::committed_chunk_spec(error) is Checked <==> !(error
            is UnverifiedScanChunk),
{
}

/// Storage failures that the wallet has a word for surface under it, with their own amounts and
/// reason; every other one surfaces as it is.
pub proof fn a_storage_failure_surfaces_under_its_own_word(err: StorageError)
    ensures
        ({
            let lifted = crate::error::lifted_storage_error(err);
            &&& err.kind is AccountNotFound ==> lifted is AccountNotFound
            &&& err.kind is AccountAlreadyExists ==> lifted is AccountAlreadyExists
            &&& err.kind matches StorageErrorKind::InsufficientFunds {
                required_zat,
                available_zat,
            } ==> lifted == (WalletError::InsufficientBalance {
                requested_zat: required_zat,
                spendable_zat: available_zat,
            })
            &&& err.kind matches StorageErrorKind::ProposalBuildFailed { reason } ==> lifted == (
            WalletError::ProposalRejected { reason })
            &&& !(err.kind is AccountNotFound) && !(err.kind is AccountAlreadyExists) && !(err.kind
                is InsufficientFunds) && !(err.kind is ProposalBuildFailed) ==> lifted
                == WalletError::Storage(err)
        }),
{
}

/// An error that crosses into the wallet is carried through whole.
pub proof fn a_boundary_error_is_carried_through(
    storage: StorageError,
    source: ChainSourceError,
    submitter: SubmitterError,
    export: PaymentDisclosureExportError,
    sealing: SealingError,
    keys: KeyDerivationError,
    pczt: PcztError,
)
    ensures
        <WalletError as vstd::std_specs::convert::FromSpec<StorageError>>::from_spec(storage)
            == crate::error::lifted_storage_error(storage),
        <WalletError as vstd::std_specs::convert::FromSpec<ChainSourceError>>::from_spec(source)
            == WalletError::ChainSource(source),
        <WalletError as vstd::std_specs::convert::FromSpec<SubmitterError>>::from_spec(submitter)
            == WalletError::Submitter(submitter),
        <WalletError as vstd::std_specs::convert::FromSpec<
            PaymentDisclosureExportError,
        >>::from_spec(export) == WalletError::PaymentDisclosureExport(export),
        <WalletError as vstd::std_specs::convert::FromSpec<SealingError>>::from_spec(sealing)
            == WalletError::Sealing(sealing),
        <WalletError as vstd::std_specs::convert::FromSpec<KeyDerivationError>>::from_spec(keys)
            == WalletError::KeyDerivation(keys),
        <WalletError as vstd::std_specs::convert::FromSpec<PcztError>>::from_spec(pczt)
            == WalletError::Pczt(pczt),
{
}

/// A refusal carries the reason it is stated with, and a malformed answer the kind it was found
/// to be; neither is retried.
pub proof fn a_refusal_carries_its_reason(
    error: WalletError,
    reason: Seq<char>,
    kind: ChainSourceErrorKind,
)
    ensures
        error.rejected_with(reason) <==> (error matches WalletError::ProposalRejected {
            reason: text,
        } && text@ == reason),
        error.parse_failed_with(reason) <==> (error matches
            WalletError::PaymentRequestParseFailed { reason: text } && text@ == reason),
        error.malformed_as(kind) <==> (error matches WalletError::ChainSource(source)
            && source.kind == kind && source.posture is RequiresOperator),
        error.rejected_with(reason) || error.parse_failed_with(reason) || error.malformed_as(kind)
            ==> !error.posture_spec().permits_retry(),
        error.malformed_as(kind) ==> crate::sync::classify::repair_spec(error)
            == SyncRepair::Park,
{
}

/// A stream may be reopened at the earliest event exactly if its cursor expired and the source
/// says so.
pub proof fn only_an_expired_cursor_reopens_at_the_earliest_event(error: ChainSourceError)
    ensures
        error.expired_at_earliest_retained() <==> (error.kind matches
            ChainSourceErrorKind::ChainEventCursorExpired { recovery } && recovery
            is EarliestRetained),
{
}

/// A storage description surfaces as a missing balance exactly if it speaks of one in either of
/// two words, and otherwise as a rejected proposal with the description itself.
pub proof fn a_description_surfaces_by_its_words(
    display: Seq<char>,
    lower: Seq<char>,
    error: WalletError,
)
    requires
        crate::pczt::lifts_to(display, lower, error),
    ensures
        ({
            let speaks = exists|at: int|
                crate::text::occurs_at(lower, "insufficient"@, at) || crate::text::occurs_at(
                    lower,
                    "balanceerror"@,
                    at,
                );
            &&& speaks <==> error is InsufficientBalance
            &&& !speaks ==> {
                &&& error matches WalletError::ProposalRejected { reason }
                &&& reason@ == display
            }
            &&& error matches WalletError::InsufficientBalance { requested_zat, spendable_zat }
                ==> requested_zat@ == 0 && spendable_zat@ == 0
        }),
{
    if crate::text::occurs_in(lower, "insufficient"@) {
        let at = choose|at: int| crate::text::occurs_at(lower, "insufficient"@, at);
        assert(crate::text::occurs_at(lower, "insufficient"@, at));
    }
    if crate::text::occurs_in(lower, "balanceerror"@) {
        let at = choose|at: int| crate::text::occurs_at(lower, "balanceerror"@, at);
        assert(crate::text::occurs_at(lower, "balanceerror"@, at));
    }
}

} // verus!
