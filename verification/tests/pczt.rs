use zally_wallet::boundary_error::{
    ChainSourceErrorKind, FailurePosture, RejectionReason, StorageError, StorageErrorKind,
    SubmitterError,
};
use zally_wallet::domain::{AccountId, BlockHeight, Network, TxId, Zatoshis};
use zally_wallet::error::WalletError;
use zally_wallet::payment::{Memo, PaymentRecipient};
use zally_wallet::pczt::{
    begin_pczt_proposal, lift_lowercased, lift_storage_error, map_submitter_error,
    translate_submit_outcome, validate_pczt_network, validate_proposal_plan, FeeStrategy,
    PcztBytes, PcztExtraction, PcztSigning,
};
use zally_wallet::spend::{PreparedTransaction, ProposalPlan, SubmitOutcome};

fn plan(recipient: PaymentRecipient, amount: u64, memo: Option<Memo>) -> ProposalPlan {
    ProposalPlan::conventional(
        AccountId(1),
        recipient,
        Zatoshis::from_u64(amount).expect("amount"),
        memo,
    )
}

fn shielded(network: Network) -> PaymentRecipient {
    PaymentRecipient::UnifiedAddress {
        encoded: "u1example".into(),
        network,
    }
}

fn rejected(error: WalletError) -> String {
    match error {
        WalletError::ProposalRejected { reason } => reason,
        other => panic!("expected a rejected proposal, got {other:?}"),
    }
}

#[test]
fn a_proposal_is_checked_in_order() {
    let mainnet = Network::Mainnet;
    assert!(matches!(
        validate_proposal_plan(
            &plan(shielded(Network::Testnet), 0, None),
            FeeStrategy::Other,
            mainnet
        ),
        Err(WalletError::NetworkMismatch {
            storage: Network::Mainnet,
            requested: Network::Testnet
        })
    ));
    let transparent = PaymentRecipient::TransparentAddress {
        encoded: "t1example".into(),
        network: mainnet,
    };
    let memo = Memo::from_bytes(&b"hi".to_vec()).expect("memo");
    assert!(matches!(
        validate_proposal_plan(
            &plan(transparent, 0, Some(memo)),
            FeeStrategy::Other,
            mainnet
        ),
        Err(WalletError::MemoOnTransparentRecipient)
    ));
    assert_eq!(
        rejected(
            validate_proposal_plan(&plan(shielded(mainnet), 0, None), FeeStrategy::Other, mainnet)
                .expect_err("zero")
        ),
        "amount must be positive"
    );
    assert_eq!(
        rejected(
            validate_proposal_plan(&plan(shielded(mainnet), 1, None), FeeStrategy::Other, mainnet)
                .expect_err("fee")
        ),
        "only ZIP-317 conventional fee is wired in v1"
    );
    let request = begin_pczt_proposal(
        &plan(shielded(mainnet), 1, None),
        FeeStrategy::Conventional,
        mainnet,
    )
    .expect("guards pass");
    assert_eq!(request.recipient_encoded, "u1example");
}

#[test]
fn a_pczt_stays_on_its_network() {
    assert!(validate_pczt_network(Network::Mainnet, Network::Mainnet).is_ok());
    let pczt = PcztBytes::from_serialized(vec![1, 2], Network::Testnet);
    assert_eq!(pczt.network(), Network::Testnet);
    assert!(matches!(
        PcztSigning::begin(pczt, Network::Mainnet),
        Err(WalletError::NetworkMismatch {
            storage: Network::Mainnet,
            requested: Network::Testnet
        })
    ));
    let pczt = PcztBytes::from_serialized(vec![1, 2], Network::Mainnet);
    let signing = PcztSigning::begin(pczt, Network::Mainnet).expect("same network");
    assert_eq!(signing.into_pczt().into_bytes(), vec![1, 2]);
}

fn storage_failure(reason: &str) -> StorageError {
    StorageError::new(
        StorageErrorKind::Other {
            reason: reason.to_owned(),
        },
        FailurePosture::NotRetryable,
    )
}

#[test]
fn missing_funds_are_recognised_in_either_case() {
    for text in ["InSuFFiCiEnt funds", "upstream BalanceError: overdrawn"] {
        assert!(matches!(
            lift_storage_error(&storage_failure(text)),
            WalletError::InsufficientBalance { .. }
        ));
    }
    assert_eq!(
        rejected(lift_storage_error(&storage_failure("Disk FULL"))),
        "Disk FULL"
    );
    assert!(matches!(
        lift_lowercased("X".to_owned(), "insufficient"),
        WalletError::InsufficientBalance { .. }
    ));
}

#[test]
fn submitter_failures_keep_their_retryability() {
    let retryable = map_submitter_error(SubmitterError::unavailable("down".into()));
    match retryable {
        WalletError::ChainSource(error) => {
            assert_eq!(error.posture, FailurePosture::Retryable);
            assert!(matches!(
                error.kind,
                ChainSourceErrorKind::Other { reason } if reason == "down"
            ));
        }
        other => panic!("expected a chain-source failure, got {other:?}"),
    }
    let permanent = map_submitter_error(SubmitterError {
        reason: "no".into(),
        posture: FailurePosture::RequiresOperator,
    });
    assert_eq!(permanent.posture(), FailurePosture::NotRetryable);
}

fn prepared() -> PreparedTransaction {
    PreparedTransaction {
        tx_id: TxId::from_bytes([1; 32]),
        raw_bytes: vec![9],
        transparent_inputs: Vec::new(),
        tx_expiry_height: BlockHeight::from(5),
        spends_shielded: true,
        pays_recipient: true,
    }
}

#[test]
fn a_duplicate_is_reported_by_the_wallets_own_identifier() {
    let pczt = PcztBytes::from_serialized(vec![7], Network::Mainnet);
    let extraction = PcztExtraction::begin(pczt, Network::Mainnet, Network::Mainnet)
        .expect("same networks");
    assert_eq!(extraction.bytes(), &vec![7]);
    let broadcast = extraction.extracted(Ok(prepared())).expect("extracted");
    assert_eq!(broadcast.raw_bytes(), &vec![9]);
    let outcome = broadcast
        .submitted(Ok(SubmitOutcome::Duplicate {
            tx_id: TxId::from_bytes([2; 32]),
        }))
        .expect("duplicate is success");
    assert_eq!(outcome.tx_id(), TxId::from_bytes([1; 32]));
    assert_eq!(outcome.broadcast.broadcast_at_height, BlockHeight::from(0));
}

#[test]
fn extraction_checks_both_networks_and_lifts_failures() {
    let pczt = || PcztBytes::from_serialized(vec![7], Network::Mainnet);
    assert!(matches!(
        PcztExtraction::begin(pczt(), Network::Testnet, Network::Mainnet),
        Err(WalletError::NetworkMismatch {
            storage: Network::Mainnet,
            requested: Network::Testnet
        })
    ));
    let extraction = PcztExtraction::begin(pczt(), Network::Mainnet, Network::Mainnet)
        .expect("same networks");
    assert!(matches!(
        extraction.extracted(Err(storage_failure("Insufficient funds"))),
        Err(WalletError::InsufficientBalance { .. })
    ));
}

#[test]
fn submit_outcomes_translate_one_by_one() {
    let own = TxId::from_bytes([1; 32]);
    let accepted = translate_submit_outcome(
        SubmitOutcome::Accepted {
            tx_id: TxId::from_bytes([3; 32]),
        },
        own,
    )
    .expect("accepted");
    assert_eq!(accepted.tx_id(), TxId::from_bytes([3; 32]));
    assert!(matches!(
        translate_submit_outcome(
            SubmitOutcome::Rejected {
                reason: RejectionReason::Invalid,
                detail: "bad".into()
            },
            own
        ),
        Err(WalletError::SubmissionRejected {
            reason: RejectionReason::Invalid,
            ..
        })
    ));
    for outcome in [
        SubmitOutcome::Queued { tx_id: own },
        SubmitOutcome::Unrecognised,
    ] {
        assert_eq!(
            rejected(translate_submit_outcome(outcome, own).expect_err("unrecognised")),
            "submitter returned an unrecognised outcome variant"
        );
    }
}
