//! Classification of faults onto the repair ladder.

use crate::boundary_error::{FailurePosture, StorageErrorKind};
use crate::error::WalletError;
use crate::sync::frontier::{CommittedChunk, SyncOutcome};
use crate::sync::ladder::SyncRepair;
use crate::sync::options::SyncDriverOptions;
use crate::text::decimal;
use vstd::prelude::*;

verus! {

/// A fault's rendered reason bundled with its ladder classification.
#[derive(Debug)]
pub struct ClassifiedFault {
    /// Description of the fault.
    pub reason: String,
    /// Rung the fault is classified onto.
    pub repair: SyncRepair,
    /// Whether the fault's posture is restartable.
    pub restartable: bool,
}

/// How one sync attempt ended.
#[derive(Debug)]
pub enum SyncRunAttempt {
    /// The attempt completed.
    Completed(SyncOutcome),
    /// The attempt faulted.
    Faulted {
        /// The classified fault.
        fault: ClassifiedFault,
        /// Whether the blocks the attempt committed were checked against the chain.
        committed: CommittedChunk,
    },
}

/// The error that classifies an error: what stopped the comparison, for an unverified chunk.
pub open spec fn classifying(error: WalletError) -> WalletError {
    match error {
        WalletError::UnverifiedScanChunk { source, .. } => *source,
        _ => error,
    }
}

/// Whether an error has a cure that its posture cannot express: commitment-tree conflicts,
/// scan-time reorg divergences, unwound storage work, and proven tree-root divergence rewind
/// below the divergence.
pub open spec fn has_named_rewind_cure(error: WalletError) -> bool {
    match error {
        WalletError::Storage(e) => e.kind is CommitmentTreeConflict || e.kind is ChainReorgDetected
            || e.kind is BlockingTaskFailed,
        WalletError::TreeRootsDiverged { .. } => true,
        _ => false,
    }
}

/// The rung an error is classified onto. The named cures rewind; every other error goes by its
/// posture: what may succeed again retries, what needs an operator parks, and the rest rewinds,
/// which is the self-healing default for unknown corruption.
pub open spec fn repair_spec(error: WalletError) -> SyncRepair {
    let deciding = classifying(error);
    if has_named_rewind_cure(deciding) {
        SyncRepair::Rewind
    } else {
        match deciding.posture_spec() {
            FailurePosture::Retryable | FailurePosture::Restartable => SyncRepair::Retry,
            FailurePosture::RequiresOperator => SyncRepair::Park,
            FailurePosture::NotRetryable => SyncRepair::Rewind,
        }
    }
}

/// Classifies a fault onto the repair ladder.
pub fn repair_for(error: &WalletError) -> (repair: SyncRepair)
    ensures
        repair == repair_spec(*error),
{
    let deciding: &WalletError = match error {
        WalletError::UnverifiedScanChunk { source, .. } => source,
        _ => error,
    };
    match deciding {
        WalletError::Storage(storage) => match storage.kind {
            // Unwound storage work is state-shaped, and repeating the same call proves nothing.
            StorageErrorKind::CommitmentTreeConflict { .. }
            | StorageErrorKind::ChainReorgDetected { .. }
            | StorageErrorKind::BlockingTaskFailed { .. } => {
                return SyncRepair::Rewind;
            },
            _ => {},
        },
        WalletError::TreeRootsDiverged { .. } => {
            return SyncRepair::Rewind;
        },
        _ => {},
    }
    match deciding.posture() {
        FailurePosture::Retryable | FailurePosture::Restartable => SyncRepair::Retry,
        FailurePosture::RequiresOperator => SyncRepair::Park,
        FailurePosture::NotRetryable => SyncRepair::Rewind,
    }
}

/// Whether a fault's posture is restartable: a rotated source boundary.
pub fn is_restartable_fault(error: &WalletError) -> (restartable: bool)
    ensures
        restartable == (error.posture_spec() is Restartable),
{
    match error.posture() {
        FailurePosture::Restartable => true,
        _ => false,
    }
}

/// Whether a faulted attempt left the wallet holding blocks it never compared to the chain.
pub open spec fn committed_chunk_spec(error: WalletError) -> CommittedChunk {
    if error is UnverifiedScanChunk {
        CommittedChunk::Unchecked
    } else {
        CommittedChunk::Checked
    }
}

/// Whether a faulted attempt left the wallet holding blocks it never compared to the chain.
pub fn committed_chunk_for(error: &WalletError) -> (committed: CommittedChunk)
    ensures
        committed == committed_chunk_spec(*error),
{
    match error {
        WalletError::UnverifiedScanChunk { .. } => CommittedChunk::Unchecked,
        _ => CommittedChunk::Checked,
    }
}

impl ClassifiedFault {
    /// Classifies `error`; the fault's reason is the error's text.
    pub fn from_error(error: &WalletError) -> (fault: ClassifiedFault)
        ensures
            fault.reason@ == error.described(),
            fault.repair == repair_spec(*error),
            fault.restartable == (error.posture_spec() is Restartable),
    {
        ClassifiedFault {
            reason: error.describe(),
            repair: repair_for(error),
            restartable: is_restartable_fault(error),
        }
    }
}

impl SyncRunAttempt {
    /// The attempt that ended in `error`.
    pub fn failed(error: &WalletError) -> (attempt: SyncRunAttempt)
        ensures
            attempt matches SyncRunAttempt::Faulted { fault, committed } && fault.reason@
                == error.described() && fault.repair == repair_spec(*error) && fault.restartable == (
            error.posture_spec() is Restartable) && committed == committed_chunk_spec(*error),
    {
        SyncRunAttempt::Faulted {
            fault: ClassifiedFault::from_error(error),
            committed: committed_chunk_for(error),
        }
    }

    /// The attempt that ran into its deadline.
    ///
    /// A deadline can cut between a chunk reaching storage and the comparison checking it, and
    /// a stuck deadline is not the self-healing shape of an expired boundary.
    pub fn timed_out(options: &SyncDriverOptions) -> (attempt: SyncRunAttempt)
        ensures
            attempt matches SyncRunAttempt::Faulted { fault, committed } && fault.reason@
                == "sync exceeded "@ + crate::text::decimal_text(
                options.sync_timeout_seconds as nat,
            ) + " seconds"@ && fault.repair is Retry && !fault.restartable
                && committed is Unchecked,
    {
        let seconds = decimal(options.sync_timeout_seconds);
        let reason = "sync exceeded ".to_owned().concat(seconds.as_str()).concat(" seconds");
        SyncRunAttempt::Faulted {
            fault: ClassifiedFault { reason, repair: SyncRepair::Retry, restartable: false },
            committed: CommittedChunk::Unchecked,
        }
    }
}

/// A fault that classifies onto the retry rung leaves the chance of a retry to its posture: it
/// is one that a further attempt may cure.
pub proof fn only_curable_faults_retry(error: WalletError)
    requires
        repair_spec(error) is Retry,
    ensures
        error.posture_spec().permits_retry(),
{
}

} // verus!
