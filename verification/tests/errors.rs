use zally_wallet::boundary_error::{
    bool_to_posture, ChainEventCursorRecovery, ChainSourceError, ChainSourceErrorKind,
    FailurePosture, KeyDerivationError, PaymentDisclosureExportError, PcztError, PcztErrorKind,
    RejectionReason, SealingError, SealingErrorKind, StorageError, StorageErrorKind,
    SubmitterError,
};
use zally_wallet::domain::{BlockHeight, Network, TxId, Zatoshis};
use zally_wallet::error::WalletError;
use zally_wallet::retry::IsRetryable;

fn malformed_block() -> WalletError {
    WalletError::ChainSource(ChainSourceError::malformed(
        ChainSourceErrorKind::MalformedCompactBlock {
            block_height: BlockHeight::from(1),
            reason: "x".into(),
        },
    ))
}

fn shared_variants() -> Vec<WalletError> {
    vec![
        WalletError::Sealing(SealingError::no_sealed_seed()),
        WalletError::Storage(StorageError::new(
            StorageErrorKind::NotOpened,
            FailurePosture::RequiresOperator,
        )),
        WalletError::KeyDerivation(KeyDerivationError {
            reason: "x".into(),
            is_retryable: false,
        }),
        WalletError::NoSealedSeed,
        WalletError::AccountAlreadyExists,
        WalletError::AccountNotFound,
        WalletError::NetworkMismatch {
            storage: Network::Mainnet,
            requested: Network::Testnet,
        },
        WalletError::ChainSource(ChainSourceError::unavailable("x".into())),
        WalletError::Submitter(SubmitterError::unavailable("x".into())),
        WalletError::MemoOnTransparentRecipient,
        WalletError::ShieldedInputsOnTexRecipient,
        WalletError::InsufficientBalance {
            requested_zat: Zatoshis::from_u64(10).unwrap_or(Zatoshis::zero()),
            spendable_zat: Zatoshis::zero(),
        },
        WalletError::PaymentRequestParseFailed { reason: "x".into() },
        WalletError::ProposalRejected { reason: "x".into() },
        WalletError::SubmissionRejected {
            reason: RejectionReason::Unknown,
            detail: "x".into(),
        },
        WalletError::Pczt(PcztError {
            kind: PcztErrorKind::NoMatchingKeys,
            is_retryable: false,
        }),
        WalletError::CircuitBroken { operation: "test" },
        WalletError::SyncDriverFailed { reason: "x".into() },
    ]
}

#[test]
fn error_wallet_error_posture_match_complete() {
    let mut variants = shared_variants();
    variants.push(WalletError::TargetExpiryStale {
        target: BlockHeight::from(10),
        chain_tip: BlockHeight::from(20),
    });
    variants.push(WalletError::TargetExpiryMismatch {
        target: BlockHeight::from(10),
        signed: BlockHeight::from(11),
    });
    variants.push(WalletError::TreeRootsDiverged {
        height: BlockHeight::from(12),
    });
    for e in variants {
        let _ = e.posture();
        assert_eq!(e.is_retryable(), e.posture().allows_retry());
    }
}

#[test]
fn wallet_error_wallet_error_posture_match_complete() {
    for e in shared_variants() {
        let _ = e.posture();
        let _ = e.is_retryable();
    }
}

#[test]
fn error_network_mismatch_requires_operator() {
    let err = WalletError::NetworkMismatch {
        storage: Network::Mainnet,
        requested: Network::Testnet,
    };
    assert_eq!(err.posture(), FailurePosture::RequiresOperator);
    assert!(!err.is_retryable());
}

#[test]
fn wallet_error_network_mismatch_requires_operator() {
    let err = WalletError::NetworkMismatch {
        storage: Network::Mainnet,
        requested: Network::Testnet,
    };
    assert_eq!(err.posture(), FailurePosture::RequiresOperator);
    assert!(!err.is_retryable());
}

#[test]
fn provisioning_dead_ends_require_operator() {
    for err in [WalletError::NoSealedSeed, WalletError::AccountNotFound] {
        assert_eq!(err.posture(), FailurePosture::RequiresOperator);
        assert!(!err.is_retryable());
    }
}

#[test]
fn error_chain_source_posture_delegates_to_inner() {
    assert_eq!(malformed_block().posture(), FailurePosture::RequiresOperator);
}

#[test]
fn wallet_error_chain_source_posture_delegates_to_inner() {
    assert_eq!(malformed_block().posture(), FailurePosture::RequiresOperator);
}

#[test]
fn sync_driver_failed_requires_operator() {
    let err = WalletError::SyncDriverFailed {
        reason: "panicked".into(),
    };
    assert_eq!(err.posture(), FailurePosture::RequiresOperator);
    assert!(!err.is_retryable());
}

#[test]
fn sync_driver_failed_posture_is_carried_through() {
    let err = WalletError::SyncDriverFailed {
        reason: "panicked".into(),
    };
    assert_eq!(err.posture(), FailurePosture::RequiresOperator);
    assert!(!err.is_retryable());
}

#[test]
fn tree_roots_diverged_is_not_retryable() {
    let err = WalletError::TreeRootsDiverged {
        height: BlockHeight::from(7),
    };
    assert_eq!(err.posture(), FailurePosture::NotRetryable);
    assert!(!err.is_retryable());
}

#[test]
fn postures_of_the_remaining_variants() {
    let source_missing = WalletError::PaymentDisclosureSourceMissing {
        transaction_id: TxId::from_bytes([3; 32]),
    };
    assert_eq!(source_missing.posture(), FailurePosture::NotRetryable);
    let mismatch = WalletError::SubmittedTransactionIdMismatch {
        expected: TxId::from_bytes([1; 32]),
        returned: TxId::from_bytes([2; 32]),
    };
    assert_eq!(mismatch.posture(), FailurePosture::RequiresOperator);
    let disclosure = WalletError::from(PaymentDisclosureExportError::recipient_unsupported());
    assert_eq!(disclosure.posture(), FailurePosture::NotRetryable);
    let unverified = WalletError::UnverifiedScanChunk {
        scanned_to: BlockHeight::from(5),
        source: Box::new(WalletError::ChainSource(
            ChainSourceError::epoch_pin_unavailable(),
        )),
    };
    assert_eq!(unverified.posture(), FailurePosture::Restartable);
    assert!(unverified.is_retryable());
    let sealing = WalletError::from(SealingError {
        kind: SealingErrorKind::Other {
            reason: "busy".into(),
        },
        is_retryable: true,
    });
    assert_eq!(sealing.posture(), FailurePosture::Retryable);
    let key = WalletError::from(KeyDerivationError {
        reason: "bad".into(),
        is_retryable: false,
    });
    assert_eq!(key.posture(), FailurePosture::NotRetryable);
}

#[test]
fn postures_have_labels_and_answers() {
    assert!(FailurePosture::Retryable.allows_retry());
    assert!(FailurePosture::Restartable.allows_retry());
    assert!(!FailurePosture::NotRetryable.allows_retry());
    assert!(!FailurePosture::RequiresOperator.allows_retry());
    assert_eq!(FailurePosture::Retryable.label(), "retryable");
    assert_eq!(bool_to_posture(true), FailurePosture::Retryable);
    assert_eq!(bool_to_posture(false), FailurePosture::NotRetryable);
}

#[test]
fn boundary_errors_say_whether_they_may_be_retried() {
    assert!(ChainSourceError::unavailable("x".into()).is_retryable());
    assert!(SubmitterError::unavailable("x".into()).is_retryable());
    assert!(StorageError::scan_frontier_receded().is_retryable());
    assert!(!SealingError::no_sealed_seed().is_retryable());
    let expired = ChainSourceError {
        kind: ChainSourceErrorKind::ChainEventCursorExpired {
            recovery: ChainEventCursorRecovery::EarliestRetained,
        },
        posture: FailurePosture::Retryable,
    };
    assert!(expired.is_expired_cursor());
    assert!(!ChainSourceError::epoch_pin_unavailable().is_expired_cursor());
}
