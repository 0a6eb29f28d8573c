use zally_wallet::boundary_error::{
    ChainSourceError, ChainSourceErrorKind, FailurePosture, KeyDerivationError,
    PaymentDisclosureExportError, PcztError, PcztErrorKind, RejectionReason, SealingError,
    StorageError, StorageErrorKind, SubmitterError, UtxoSetDefect,
};
use zally_wallet::domain::{
    AccountId, BlockHeight, Network, OutPoint, ShieldedPool, TxId, Zatoshis,
};
use zally_wallet::error::WalletError;
use zally_wallet::sync::classify::{ClassifiedFault, SyncRunAttempt};
use zally_wallet::sync::frontier::CommittedChunk;
use zally_wallet::sync::ladder::SyncRepair;
use zally_wallet::text::{decimal, decimal_wide, hex};

fn zat(value: u64) -> Zatoshis {
    Zatoshis::from_u64(value).expect("amount")
}

#[test]
fn numbers_and_bytes_are_written_out() {
    assert_eq!(decimal(0), "0");
    assert_eq!(decimal(u64::MAX), "18446744073709551615");
    assert_eq!(decimal_wide(u128::MAX), "340282366920938463463374607431768211455");
    let mut bytes = [0u8; 32];
    bytes[0] = 0xAF;
    bytes[31] = 0x09;
    let text = hex(&bytes);
    assert_eq!(text.len(), 64);
    assert!(text.starts_with("af00"));
    assert!(text.ends_with("0009"));
}

#[test]
fn wallet_errors_have_their_texts() {
    let cases = [
        (
            WalletError::Sealing(SealingError::no_sealed_seed()),
            "seed sealing error: no sealed seed",
        ),
        (
            WalletError::Storage(StorageError::new(
                StorageErrorKind::InsufficientFunds {
                    required_zat: zat(10),
                    available_zat: zat(3),
                },
                FailurePosture::NotRetryable,
            )),
            "storage error: insufficient funds: required 10, available 3",
        ),
        (
            WalletError::KeyDerivation(KeyDerivationError {
                reason: "bad path".into(),
                is_retryable: false,
            }),
            "key derivation error: bad path",
        ),
        (WalletError::NoSealedSeed, "no sealed seed found for wallet"),
        (
            WalletError::AccountAlreadyExists,
            "an account already exists at this wallet location",
        ),
        (
            WalletError::AccountNotFound,
            "no account in storage matches the unsealed seed",
        ),
        (
            WalletError::NetworkMismatch {
                storage: Network::Mainnet,
                requested: Network::Testnet,
            },
            "network mismatch: storage=Mainnet, requested=Testnet",
        ),
        (
            WalletError::Submitter(SubmitterError::unavailable("down".into())),
            "submitter error: down",
        ),
        (
            WalletError::MemoOnTransparentRecipient,
            "memos are not permitted on transparent recipients (ZIP-302)",
        ),
        (
            WalletError::ShieldedInputsOnTexRecipient,
            "TEX recipients (ZIP-320) require an all-transparent input set",
        ),
        (
            WalletError::InsufficientBalance {
                requested_zat: zat(5),
                spendable_zat: zat(4),
            },
            "insufficient spendable balance: requested 5, spendable 4",
        ),
        (
            WalletError::PaymentRequestParseFailed {
                reason: "no scheme".into(),
            },
            "payment request parse failed: no scheme",
        ),
        (
            WalletError::ProposalRejected {
                reason: "no anchor".into(),
            },
            "proposal rejected: no anchor",
        ),
        (
            WalletError::SubmissionRejected {
                reason: RejectionReason::Expired,
                detail: "too late".into(),
            },
            "submission rejected (Expired): too late",
        ),
        (
            WalletError::Pczt(PcztError {
                kind: PcztErrorKind::NoMatchingKeys,
                is_retryable: false,
            }),
            "pczt error: no matching keys",
        ),
        (
            WalletError::CircuitBroken { operation: "op" },
            "wallet circuit breaker is open; failures exceeded the configured threshold",
        ),
        (
            WalletError::TargetExpiryStale {
                target: BlockHeight::from(5),
                chain_tip: BlockHeight::from(7),
            },
            "target_expiry_height=BlockHeight(5) is at or below the wallet's observed tip=BlockHeight(7)",
        ),
        (
            WalletError::TargetExpiryMismatch {
                target: BlockHeight::from(5),
                signed: BlockHeight::from(7),
            },
            "signed transaction expiry_height=BlockHeight(7) does not match target_expiry_height=BlockHeight(5)",
        ),
        (
            WalletError::TreeRootsDiverged {
                height: BlockHeight::from(9),
            },
            "wallet commitment-tree roots diverge from the chain at height BlockHeight(9)",
        ),
        (
            WalletError::UnverifiedScanChunk {
                scanned_to: BlockHeight::from(12),
                source: Box::new(WalletError::NoSealedSeed),
            },
            "scanned chunk up to 12 could not be compared with the chain: no sealed seed found for wallet",
        ),
        (
            WalletError::PaymentDisclosureExport(
                PaymentDisclosureExportError::recipient_unsupported(),
            ),
            "payment disclosure error: recipient has no receiver that the profile can disclose",
        ),
        (
            WalletError::SyncDriverFailed {
                reason: "boom".into(),
            },
            "sync driver task panicked: boom",
        ),
    ];
    for (error, text) in cases {
        assert_eq!(error.describe(), text);
    }
    let mismatch = WalletError::SubmittedTransactionIdMismatch {
        expected: TxId::from_bytes([1; 32]),
        returned: TxId::from_bytes([2; 32]),
    };
    assert_eq!(
        mismatch.describe(),
        format!(
            "submitter answered for transaction {} instead of {}",
            "02".repeat(32),
            "01".repeat(32)
        )
    );
}

#[test]
fn chain_source_errors_have_their_texts() {
    let outpoint = OutPoint {
        tx_id: TxId::from_bytes([0xAB; 32]),
        output_index: 3,
    };
    let point = format!("{}:3", "ab".repeat(32));
    let cases = [
        (
            ChainSourceErrorKind::Unavailable {
                reason: "down".into(),
            },
            "chain source unavailable: down".to_owned(),
        ),
        (
            ChainSourceErrorKind::MalformedSubtreeRootPage {
                pool: ShieldedPool::Orchard,
                reason: "short".into(),
            },
            "malformed subtree-root page for Orchard: short".to_owned(),
        ),
        (
            ChainSourceErrorKind::CompactBlockStreamOrder {
                expected_height: BlockHeight::from(4),
                actual_height: Some(BlockHeight::from(6)),
            },
            "compact-block stream out of order: expected 4, received Some(6)".to_owned(),
        ),
        (
            ChainSourceErrorKind::CompactBlockStreamOrder {
                expected_height: BlockHeight::from(4),
                actual_height: None,
            },
            "compact-block stream out of order: expected 4, received None".to_owned(),
        ),
        (
            ChainSourceErrorKind::MalformedTransparentUtxoSet {
                defect: UtxoSetDefect::ConfirmedAboveTip {
                    outpoint,
                    confirmed_at_height: BlockHeight::from(8),
                    visible_tip: BlockHeight::from(7),
                },
            },
            format!(
                "malformed transparent UTXO set: outpoint {point} is confirmed at 8 above pinned visible tip 7"
            ),
        ),
        (
            ChainSourceErrorKind::MalformedTransparentUtxoSet {
                defect: UtxoSetDefect::ScriptMismatch {
                    outpoint,
                    account_id: AccountId(11),
                },
            },
            format!(
                "malformed transparent UTXO set: outpoint {point} script did not match wallet receiver for account AccountId(11)"
            ),
        ),
        (
            ChainSourceErrorKind::ChainEpochPinUnavailable,
            "the pinned chain epoch is no longer served".to_owned(),
        ),
    ];
    for (kind, text) in cases {
        let error = ChainSourceError::malformed(kind);
        assert_eq!(error.describe(), text);
        assert_eq!(
            WalletError::ChainSource(error).describe(),
            format!("chain source error: {text}")
        );
    }
}

#[test]
fn a_recorded_fault_carries_its_errors_text() {
    let error = WalletError::TreeRootsDiverged {
        height: BlockHeight::from(9),
    };
    let fault = ClassifiedFault::from_error(&error);
    assert_eq!(fault.reason, error.describe());
    assert_eq!(fault.repair, SyncRepair::Rewind);
    match SyncRunAttempt::failed(&error) {
        SyncRunAttempt::Faulted { fault, committed } => {
            assert_eq!(fault.reason, error.describe());
            assert_eq!(committed, CommittedChunk::Checked);
        }
        other => panic!("expected a fault, got {other:?}"),
    }
}
