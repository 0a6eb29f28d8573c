use zally_wallet::boundary_error::{RejectionReason, SubmitterError};
use zally_wallet::domain::{
    AccountId, BlockHeight, IdempotencyKey, Network, OutPoint, ProtocolPool, ShieldedPool, TxId,
    Zatoshis,
};
use zally_wallet::error::WalletError;
use zally_wallet::outpoint_set::OutPointSet;
use zally_wallet::payment::{classify_recipient, Memo, PaymentRecipient};
use zally_wallet::pending_transparent_inputs::{
    PendingTransparentInput, PendingTransparentInputs,
};
use zally_wallet::spend::{
    begin_proposal, excluded_outpoints, pending_broadcast_cutoff_ms, protocol_shielded_pool,
    resolve_send_outcome, resolve_shielding_request, tip_or_zero, validate_memo_against_recipient,
    validate_non_zero, validate_recipient_network, PreparedTransaction, Proposal, ProposalPlan,
    ProposalSummary, SendOutcome, SendPaymentPlan, ShieldTransparentPlan, SubmitOutcome,
};
use zally_wallet::spend_flow::{SpendEvent, SpendFlow, SpendRequest};

fn regtest() -> Network {
    Network::regtest()
}

fn zat(value: u64) -> Zatoshis {
    Zatoshis::from_u64(value).expect("zatoshis")
}

fn key(text: &str) -> IdempotencyKey {
    IdempotencyKey {
        text: text.to_owned(),
    }
}

fn memo(text: &str) -> Memo {
    Memo::from_bytes(&text.as_bytes().to_vec()).expect("memo")
}

#[test]
fn validate_memo_rejects_text_memo_on_transparent_recipient() -> Result<(), WalletError> {
    let recipient = PaymentRecipient::TransparentAddress {
        encoded: "t1example".into(),
        network: regtest(),
    };
    let memo = Memo::from_bytes(&b"hello".to_vec())
        .map_err(|reason| WalletError::PaymentRequestParseFailed { reason })?;
    let outcome = validate_memo_against_recipient(&Some(memo), &recipient);
    assert!(matches!(
        outcome,
        Err(WalletError::MemoOnTransparentRecipient)
    ));
    Ok(())
}

#[test]
fn validate_memo_accepts_empty_memo_on_transparent_recipient() {
    let recipient = PaymentRecipient::TransparentAddress {
        encoded: "t1example".into(),
        network: regtest(),
    };
    let memo = Memo::empty();
    assert!(validate_memo_against_recipient(&Some(memo), &recipient).is_ok());
}

#[test]
fn validate_memo_accepts_text_memo_on_shielded_recipient() -> Result<(), WalletError> {
    let recipient = PaymentRecipient::UnifiedAddress {
        encoded: "uregtest1example".into(),
        network: regtest(),
    };
    let memo = Memo::from_bytes(&b"invoice 1234".to_vec())
        .map_err(|reason| WalletError::PaymentRequestParseFailed { reason })?;
    validate_memo_against_recipient(&Some(memo), &recipient)?;
    Ok(())
}

#[test]
fn classify_recipient_recognizes_testnet_sapling_address() {
    let encoded = "ztestsapling12p79hg7sffq7j2ukmpur208cyy7cxdr4mkwnn8eh09w3hgnysv6dmtwuwy8z7e6lvgmngrxeh6g";
    let recipient = classify_recipient(encoded, Network::Testnet);

    assert!(matches!(
        recipient,
        PaymentRecipient::SaplingAddress {
            encoded: recipient_encoded,
            network: Network::Testnet,
        } if recipient_encoded == encoded
    ));
}

#[test]
fn classify_recipient_goes_by_the_prefix() {
    let classify = |encoded: &str| classify_recipient(encoded, Network::Mainnet);
    assert!(matches!(
        classify("tex1s2rt77ggv6q989lr49rkgzmh5slsksa9khdgte"),
        PaymentRecipient::TexAddress { .. }
    ));
    assert!(matches!(
        classify("t1Hsc1LR8yKnbbe3twRp88p6vFfC5t7DLbs"),
        PaymentRecipient::TransparentAddress { .. }
    ));
    assert!(matches!(
        classify("u1example"),
        PaymentRecipient::UnifiedAddress { .. }
    ));
    assert!(matches!(
        classify("zs1example"),
        PaymentRecipient::SaplingAddress { .. }
    ));
    assert!(classify("tex1example").is_transparent());
}

#[test]
fn memos_are_checked_and_kept_without_padding() {
    assert!(Memo::from_bytes(&vec![0x40, 0xc3, 0x28]).is_err());
    assert!(Memo::from_bytes(&vec![b'a'; 513]).is_err());
    assert_eq!(memo("hi").to_wire_bytes(), b"hi".to_vec());
    let padded = Memo::from_bytes(&vec![b'h', b'i', 0, 0]).expect("memo");
    assert_eq!(padded.to_wire_bytes(), b"hi".to_vec());
    assert!(!memo("hi").is_empty());
    assert!(Memo::empty().is_empty());
}

#[test]
fn validate_recipient_network_rejects_mismatch() {
    let recipient = PaymentRecipient::UnifiedAddress {
        encoded: "u1example".into(),
        network: Network::Mainnet,
    };
    let outcome = validate_recipient_network(&recipient, regtest());
    assert!(matches!(outcome, Err(WalletError::NetworkMismatch { .. })));
}

#[test]
fn validate_non_zero_rejects_zero_amount() {
    assert!(matches!(
        validate_non_zero(Zatoshis::zero()),
        Err(WalletError::ProposalRejected { .. })
    ));
}

#[test]
fn proposal_plan_can_restrict_the_source_pool() {
    let plan = ProposalPlan::conventional(
        AccountId(0),
        PaymentRecipient::SaplingAddress {
            encoded: "zregtestsapling1example".into(),
            network: regtest(),
        },
        zat(1),
        None,
    );

    assert_eq!(plan.source_pool(), None);
    assert_eq!(
        plan.with_source_pool(ShieldedPool::Sapling).source_pool(),
        Some(ShieldedPool::Sapling)
    );
}

#[test]
fn send_payment_plan_target_expiry_height_defaults_to_none() {
    let plan = SendPaymentPlan::conventional(
        AccountId(0),
        key("inert-builder-key"),
        PaymentRecipient::UnifiedAddress {
            encoded: "uregtest1example".into(),
            network: regtest(),
        },
        zat(1),
        regtest(),
    );
    assert!(
        plan.target_expiry_height.is_none(),
        "conventional() must not commit to any target expiry"
    );

    let with_target = plan.with_target_expiry_height(BlockHeight::from(123));
    assert_eq!(
        with_target.target_expiry_height,
        Some(BlockHeight::from(123))
    );
}

#[test]
fn shield_transparent_plan_selects_destination_pool() {
    let plan = ShieldTransparentPlan::new(
        AccountId(0),
        key("shield-builder-key"),
        zat(1),
        regtest(),
    );

    assert_eq!(plan.destination_pool(), None);
    let sapling_plan = plan.with_destination_pool(ShieldedPool::Sapling);
    assert_eq!(sapling_plan.destination_pool(), Some(ShieldedPool::Sapling));
    let storage_request = resolve_shielding_request(&sapling_plan).expect("Sapling is supported");
    assert_eq!(
        storage_request.destination_pool(),
        Some(ProtocolPool::Sapling)
    );
}

#[test]
fn unrecognised_pools_are_refused() {
    assert!(matches!(
        protocol_shielded_pool(ShieldedPool::Unrecognised),
        Err(WalletError::ProposalRejected { reason })
            if reason == "shielded pool is not supported by this release"
    ));
    assert!(matches!(
        protocol_shielded_pool(ShieldedPool::Ironwood),
        Ok(ProtocolPool::Ironwood)
    ));
}

#[test]
fn returns_accepted_tx_id() {
    let accepted_tx_id = TxId::from_bytes([7_u8; 32]);
    let outcome = SubmitOutcome::Accepted {
        tx_id: accepted_tx_id,
    };
    let tx_id = resolve_send_outcome(outcome, accepted_tx_id).expect("Accepted is Ok");
    assert_eq!(tx_id, accepted_tx_id);
}

#[test]
fn returns_canonical_tx_id_on_duplicate() {
    let expected_tx_id = TxId::from_bytes([1_u8; 32]);
    let outcome = SubmitOutcome::Duplicate {
        tx_id: expected_tx_id,
    };
    let tx_id = resolve_send_outcome(outcome, expected_tx_id).expect("Duplicate is Ok");
    assert_eq!(tx_id, expected_tx_id);
}

#[test]
fn returns_canonical_tx_id_on_queued() {
    let expected_tx_id = TxId::from_bytes([1_u8; 32]);
    let outcome = SubmitOutcome::Queued {
        tx_id: expected_tx_id,
    };
    let tx_id = resolve_send_outcome(outcome, expected_tx_id).expect("Queued is Ok");
    assert_eq!(tx_id, expected_tx_id);
}

#[test]
fn rejects_success_outcome_for_a_different_transaction() {
    let expected_tx_id = TxId::from_bytes([1_u8; 32]);
    let returned_tx_id = TxId::from_bytes([2_u8; 32]);
    let outcome = SubmitOutcome::Duplicate {
        tx_id: returned_tx_id,
    };

    let error = resolve_send_outcome(outcome, expected_tx_id)
        .expect_err("mismatched success txid must fail closed");

    assert!(matches!(
        error,
        WalletError::SubmittedTransactionIdMismatch {
            expected,
            returned,
        } if expected == expected_tx_id && returned == returned_tx_id
    ));
}

#[test]
fn maps_rejected_to_submission_rejected_with_typed_reason() {
    let fallback_tx_id = TxId::from_bytes([1_u8; 32]);
    let outcome = SubmitOutcome::Rejected {
        reason: RejectionReason::MempoolFull,
        detail: "queue at capacity".to_owned(),
    };
    let err = resolve_send_outcome(outcome, fallback_tx_id).expect_err("Rejected is Err");
    match err {
        WalletError::SubmissionRejected { reason, detail } => {
            assert_eq!(reason, RejectionReason::MempoolFull);
            assert_eq!(detail, "queue at capacity");
        }
        other => panic!("expected WalletError::SubmissionRejected with typed reason, got {other:?}"),
    }
}

#[test]
fn an_unrecognised_outcome_is_a_rejection() {
    let err = resolve_send_outcome(SubmitOutcome::Unrecognised, TxId::from_bytes([1; 32]))
        .expect_err("unknown outcomes are not success");
    assert!(matches!(
        err,
        WalletError::SubmissionRejected { reason: RejectionReason::Unknown, detail }
            if detail == "submitter returned an unrecognised outcome variant"
    ));
}

#[test]
fn proposals_report_the_storage_summary() {
    let proposal = Proposal::from_storage_summary(ProposalSummary {
        total_zat: zat(100),
        fee_zat: zat(10),
        min_target_height: BlockHeight::from(44),
        output_count: 2,
    });
    assert_eq!(proposal.total_zat(), zat(100));
    assert_eq!(proposal.fee_zat(), zat(10));
    assert_eq!(proposal.expiry_height(), BlockHeight::from(44));
    assert_eq!(proposal.output_count(), 2);
}

#[test]
fn a_proposal_passes_its_guards_in_order() {
    let shielded = |network| PaymentRecipient::SaplingAddress {
        encoded: "zregtestsapling1example".into(),
        network,
    };
    let foreign = ProposalPlan::conventional(
        AccountId(1),
        shielded(Network::Mainnet),
        Zatoshis::zero(),
        None,
    );
    assert!(matches!(
        begin_proposal(&foreign, regtest()),
        Err(WalletError::NetworkMismatch {
            storage: Network::Regtest,
            requested: Network::Mainnet
        })
    ));
    let empty =
        ProposalPlan::conventional(AccountId(1), shielded(regtest()), Zatoshis::zero(), None);
    assert!(matches!(
        begin_proposal(&empty, regtest()),
        Err(WalletError::ProposalRejected { .. })
    ));
    let plan = ProposalPlan::conventional(
        AccountId(1),
        shielded(regtest()),
        zat(5),
        Some(memo("thanks")),
    )
    .with_source_pool(ShieldedPool::Orchard);
    let request = begin_proposal(&plan, regtest()).expect("guards pass");
    assert_eq!(request.recipient_encoded, "zregtestsapling1example");
    assert_eq!(request.amount_zat, zat(5));
    assert_eq!(request.source_pool, Some(ProtocolPool::Orchard));
    assert_eq!(
        request.memo_bytes.expect("memo"),
        memo("thanks").to_wire_bytes()
    );
}

fn pending(tx_byte: u8, index: u32) -> PendingTransparentInput {
    PendingTransparentInput {
        outpoint: OutPoint {
            tx_id: TxId::from_bytes([tx_byte; 32]),
            output_index: index,
        },
        value_zat: zat(3),
        broadcast_tx_id: TxId::from_bytes([9; 32]),
        broadcast_at_ms: 5,
        broadcast_at_height: None,
    }
}

#[test]
fn pending_inputs_are_excluded_once_each() {
    let rows = vec![pending(1, 0), pending(1, 1), pending(1, 0)];
    let excluded = excluded_outpoints(&rows);
    assert_eq!(excluded.len(), 2);
    assert!(excluded.contains(&pending(1, 1).outpoint));
    assert!(!excluded.contains(&pending(2, 0).outpoint));
    assert_eq!(pending_broadcast_cutoff_ms(10_000, 7_000), 3_000);
    assert_eq!(pending_broadcast_cutoff_ms(10, 7_000), 0);
    let snapshot = PendingTransparentInputs::of_rows(
        regtest(),
        AccountId(4),
        rows,
        Some(BlockHeight::from(8)),
    );
    assert_eq!(snapshot.inputs.len(), 3);
    assert_eq!(snapshot.as_of_height, Some(BlockHeight::from(8)));
}

fn send_plan() -> SendPaymentPlan {
    SendPaymentPlan::conventional(
        AccountId(1),
        key("order-1"),
        PaymentRecipient::UnifiedAddress {
            encoded: "uregtest1example".into(),
            network: regtest(),
        },
        zat(5),
        regtest(),
    )
}

fn prepared(tx_byte: u8, expiry: u32, inputs: usize) -> PreparedTransaction {
    let mut transparent_inputs = Vec::new();
    for index in 0..inputs {
        transparent_inputs.push((
            OutPoint {
                tx_id: TxId::from_bytes([100 + tx_byte; 32]),
                output_index: index as u32,
            },
            zat(7),
        ));
    }
    PreparedTransaction {
        tx_id: TxId::from_bytes([tx_byte; 32]),
        raw_bytes: vec![tx_byte],
        transparent_inputs,
        tx_expiry_height: BlockHeight::from(expiry),
        spends_shielded: inputs == 0,
        pays_recipient: true,
    }
}

fn finished(request: SpendRequest) -> Result<SendOutcome, WalletError> {
    match request {
        SpendRequest::Finish(end) => end.into_result(),
        other => panic!("expected the end of the spend, got {other:?}"),
    }
}

#[test]
fn a_known_key_is_answered_without_a_submission() {
    let flow = SpendFlow::begin_send(&send_plan(), regtest()).expect("guards pass");
    let earlier = TxId::from_bytes([42; 32]);
    let (flow, request) = flow.step(SpendEvent::Prior(Some(earlier)), 0);
    assert!(matches!(request, SpendRequest::ReadTip));
    let (_, request) = flow.step(SpendEvent::Tip(Some(BlockHeight::from(90))), 0);
    let outcome = finished(request).expect("replayed");
    assert_eq!(outcome.tx_id(), earlier);
    assert_eq!(outcome.signed.tx_expiry_height, BlockHeight::from(0));
    assert_eq!(
        outcome.broadcast.broadcast_at_height,
        BlockHeight::from(90)
    );
}

#[test]
fn a_payment_is_recorded_submitted_and_remembered() {
    let flow = SpendFlow::begin_send(&send_plan(), regtest()).expect("guards pass");
    let (flow, request) = flow.step(SpendEvent::Prior(None), 0);
    assert!(matches!(request, SpendRequest::Unseal));
    let (flow, request) = flow.step(SpendEvent::Done, 0);
    assert!(matches!(request, SpendRequest::ListPending));
    let mut locked = OutPointSet::new();
    locked.insert(pending(1, 0).outpoint);
    let (flow, request) = flow.step(SpendEvent::PendingListed(locked), 0);
    match request {
        SpendRequest::PreparePayment { request, excluded } => {
            assert_eq!(request.account_id, AccountId(1));
            assert_eq!(request.recipient_encoded, "uregtest1example");
            assert_eq!(request.amount_zat, zat(5));
            assert_eq!(request.memo_bytes, None);
            assert_eq!(request.source_pool, None);
            assert_eq!(excluded.len(), 1);
        }
        other => panic!("expected the preparation, got {other:?}"),
    }
    let (flow, request) = flow.step(
        SpendEvent::Prepared(vec![prepared(1, 70, 2), prepared(2, 71, 0)]),
        0,
    );
    assert!(matches!(request, SpendRequest::ReadTip));
    let (flow, request) = flow.step(SpendEvent::Tip(Some(BlockHeight::from(60))), 555);
    assert!(matches!(request, SpendRequest::RecordPending));
    let record = flow.pending_record().expect("a row is to be recorded");
    assert_eq!(record.broadcast_tx_id, TxId::from_bytes([1; 32]));
    assert_eq!(record.broadcast_at_ms, 555);
    assert_eq!(record.broadcast_at_height, Some(BlockHeight::from(60)));
    assert_eq!(record.inputs.len(), 2);
    let (flow, request) = flow.step(SpendEvent::Done, 556);
    assert!(matches!(request, SpendRequest::Submit));
    assert_eq!(flow.current().expect("a transaction").raw_bytes, vec![1]);
    let (flow, request) = flow.step(
        SpendEvent::Submitted(Ok(SubmitOutcome::Accepted {
            tx_id: TxId::from_bytes([1; 32]),
        })),
        557,
    );
    assert!(
        matches!(request, SpendRequest::Submit),
        "a transaction that locks nothing needs no row"
    );
    let (flow, request) = flow.step(
        SpendEvent::Submitted(Ok(SubmitOutcome::Queued {
            tx_id: TxId::from_bytes([2; 32]),
        })),
        558,
    );
    assert!(matches!(
        request,
        SpendRequest::Remember { tx_id } if tx_id == TxId::from_bytes([1; 32])
    ));
    let (_, request) = flow.step(SpendEvent::Done, 559);
    let outcome = finished(request).expect("sent");
    assert_eq!(outcome.tx_id(), TxId::from_bytes([1; 32]));
    assert_eq!(outcome.signed.tx_expiry_height, BlockHeight::from(70));
    assert_eq!(outcome.signed.fee_zat, Zatoshis::zero());
}

fn at_submission(inputs: usize) -> SpendFlow {
    let flow = SpendFlow::begin_send(&send_plan(), regtest()).expect("guards pass");
    let (flow, _) = flow.step(SpendEvent::Prior(None), 0);
    let (flow, _) = flow.step(SpendEvent::Done, 0);
    let (flow, _) = flow.step(SpendEvent::PendingListed(OutPointSet::new()), 0);
    let (flow, _) = flow.step(SpendEvent::Prepared(vec![prepared(1, 70, inputs)]), 0);
    let (flow, request) = flow.step(SpendEvent::Tip(None), 0);
    if matches!(request, SpendRequest::RecordPending) {
        let (flow, request) = flow.step(SpendEvent::Done, 0);
        assert!(matches!(request, SpendRequest::Submit));
        flow
    } else {
        flow
    }
}

#[test]
fn a_failed_submission_clears_its_row_and_fails() {
    let (flow, request) = at_submission(1).step(
        SpendEvent::Submitted(Err(WalletError::Submitter(SubmitterError::unavailable(
            "down".into(),
        )))),
        0,
    );
    assert!(matches!(
        request,
        SpendRequest::ClearPending { tx_id } if tx_id == TxId::from_bytes([1; 32])
    ));
    let (_, request) = flow.step(SpendEvent::Failed(WalletError::AccountNotFound), 0);
    assert!(
        matches!(finished(request), Err(WalletError::Submitter(_))),
        "a failed clean-up does not hide the submission's failure"
    );
}

#[test]
fn a_rejected_submission_surfaces_its_reason() {
    let (flow, _) = at_submission(0).step(
        SpendEvent::Submitted(Ok(SubmitOutcome::Rejected {
            reason: RejectionReason::Expired,
            detail: "too late".into(),
        })),
        0,
    );
    let (_, request) = flow.step(SpendEvent::Done, 0);
    assert!(matches!(
        finished(request),
        Err(WalletError::SubmissionRejected { reason: RejectionReason::Expired, detail })
            if detail == "too late"
    ));
}

#[test]
fn a_submission_that_delivered_something_else_fails() {
    let ended = |outcome: SubmitOutcome| {
        let (flow, _) = at_submission(0).step(SpendEvent::Submitted(Ok(outcome)), 0);
        let (_, request) = flow.step(SpendEvent::Done, 0);
        finished(request)
    };
    let stray = TxId::from_bytes([9; 32]);
    for outcome in [
        SubmitOutcome::Accepted { tx_id: stray },
        SubmitOutcome::Duplicate { tx_id: stray },
        SubmitOutcome::Queued { tx_id: stray },
    ] {
        assert!(matches!(
            ended(outcome),
            Err(WalletError::SubmittedTransactionIdMismatch { expected, returned })
                if expected == TxId::from_bytes([1; 32]) && returned == stray
        ));
    }
    assert!(matches!(
        ended(SubmitOutcome::Unrecognised),
        Err(WalletError::SubmissionRejected { reason: RejectionReason::Unknown, detail })
            if detail == "submitter returned an unrecognised outcome variant"
    ));
}

#[test]
fn nothing_constructed_is_a_rejected_proposal() {
    let flow = SpendFlow::begin_send(&send_plan(), regtest()).expect("guards pass");
    let (flow, _) = flow.step(SpendEvent::Prior(None), 0);
    let (flow, _) = flow.step(SpendEvent::Done, 0);
    let (flow, _) = flow.step(SpendEvent::PendingListed(OutPointSet::new()), 0);
    let (flow, _) = flow.step(SpendEvent::Prepared(Vec::new()), 0);
    let (_, request) = flow.step(SpendEvent::Tip(None), 0);
    assert!(matches!(
        finished(request),
        Err(WalletError::ProposalRejected { reason })
            if reason == "transaction construction returned no transactions"
    ));
}

#[test]
fn a_target_expiry_is_checked_before_and_after_signing() {
    let plan = send_plan()
        .with_memo(memo("invoice"))
        .with_target_expiry_height(BlockHeight::from(100));
    let looked_up = |plan: &SendPaymentPlan| {
        let flow = SpendFlow::begin_send(plan, regtest()).expect("guards pass");
        let (flow, request) = flow.step(SpendEvent::Prior(None), 0);
        assert!(matches!(request, SpendRequest::ReadTip));
        flow
    };
    let (_, request) = looked_up(&plan).step(SpendEvent::Tip(Some(BlockHeight::from(100))), 0);
    assert!(matches!(
        finished(request),
        Err(WalletError::TargetExpiryStale { target, chain_tip })
            if target == BlockHeight::from(100) && chain_tip == BlockHeight::from(100)
    ));
    let (flow, request) = looked_up(&plan).step(SpendEvent::Tip(Some(BlockHeight::from(99))), 0);
    match request {
        SpendRequest::SignWithExpiry { request, target } => {
            assert_eq!(target, BlockHeight::from(100));
            assert_eq!(request.account_id, AccountId(1));
            assert_eq!(request.recipient_encoded, "uregtest1example");
            assert_eq!(request.amount_zat, zat(5));
            assert_eq!(request.memo_bytes, Some(b"invoice".to_vec()));
            assert_eq!(request.source_pool, None);
        }
        other => panic!("expected the signing, got {other:?}"),
    }
    let (_, request) = flow.step(SpendEvent::Prepared(vec![prepared(1, 101, 0)]), 0);
    assert!(matches!(
        finished(request),
        Err(WalletError::TargetExpiryMismatch { target, signed })
            if target == BlockHeight::from(100) && signed == BlockHeight::from(101)
    ));
}

#[test]
fn a_target_expiry_takes_exactly_one_transaction() {
    let signing = || {
        let plan = send_plan().with_target_expiry_height(BlockHeight::from(100));
        let flow = SpendFlow::begin_send(&plan, regtest()).expect("guards pass");
        let (flow, _) = flow.step(SpendEvent::Prior(None), 0);
        let (flow, _) = flow.step(SpendEvent::Tip(None), 0);
        flow
    };
    let reason_for = |prepared: Vec<PreparedTransaction>| {
        let (_, request) = signing().step(SpendEvent::Prepared(prepared), 0);
        match finished(request) {
            Err(WalletError::ProposalRejected { reason }) => reason,
            other => panic!("expected a rejected proposal, got {other:?}"),
        }
    };
    assert_eq!(
        reason_for(Vec::new()),
        "transaction construction returned no transactions"
    );
    assert_eq!(
        reason_for(vec![prepared(1, 100, 0), prepared(2, 100, 0)]),
        "a target expiry height takes exactly one transaction"
    );
    let (_, request) = signing().step(SpendEvent::Prepared(vec![prepared(1, 100, 0)]), 0);
    assert!(matches!(request, SpendRequest::ReadTip));
}

fn tex_plan() -> SendPaymentPlan {
    SendPaymentPlan::conventional(
        AccountId(1),
        key("order-1"),
        PaymentRecipient::TexAddress {
            encoded: "texregtest1example".into(),
            network: regtest(),
        },
        zat(5),
        regtest(),
    )
}

#[test]
fn a_shielded_input_never_pays_a_tex_recipient() {
    let preparing = |plan: &SendPaymentPlan| {
        let flow = SpendFlow::begin_send(plan, regtest()).expect("guards pass");
        let (flow, _) = flow.step(SpendEvent::Prior(None), 0);
        let (flow, _) = flow.step(SpendEvent::Done, 0);
        let (flow, _) = flow.step(SpendEvent::PendingListed(OutPointSet::new()), 0);
        flow
    };
    let shielded = prepared(1, 70, 0);
    assert!(shielded.spends_shielded && shielded.pays_recipient);
    let (flow, request) = preparing(&tex_plan()).step(SpendEvent::Prepared(vec![shielded]), 0);
    assert!(matches!(
        finished(request),
        Err(WalletError::ShieldedInputsOnTexRecipient)
    ));
    assert!(!flow.accepts(&SpendEvent::Done));

    // The first of two transactions may be shielded where it only funds the ephemeral address
    // that the second one pays from.
    let funding = PreparedTransaction {
        pays_recipient: false,
        ..prepared(1, 70, 0)
    };
    let (_, request) = preparing(&tex_plan())
        .step(SpendEvent::Prepared(vec![funding, prepared(2, 70, 1)]), 0);
    assert!(matches!(request, SpendRequest::ReadTip));

    let (_, request) =
        preparing(&send_plan()).step(SpendEvent::Prepared(vec![prepared(1, 70, 0)]), 0);
    assert!(matches!(request, SpendRequest::ReadTip));

    let plan = tex_plan().with_target_expiry_height(BlockHeight::from(100));
    let flow = SpendFlow::begin_send(&plan, regtest()).expect("guards pass");
    let (flow, _) = flow.step(SpendEvent::Prior(None), 0);
    let (flow, _) = flow.step(SpendEvent::Tip(None), 0);
    let (_, request) = flow.step(SpendEvent::Prepared(vec![prepared(1, 100, 0)]), 0);
    assert!(matches!(
        finished(request),
        Err(WalletError::ShieldedInputsOnTexRecipient)
    ));
}

#[test]
fn a_shielding_resolves_its_pool_after_the_pending_outpoints() {
    let plan = ShieldTransparentPlan::new(AccountId(1), key("sweep"), zat(9), regtest());
    let prepared_for = |plan: &ShieldTransparentPlan| {
        let flow = SpendFlow::begin_shield(plan, regtest()).expect("guards pass");
        let (flow, _) = flow.step(SpendEvent::Prior(None), 0);
        let (flow, _) = flow.step(SpendEvent::Done, 0);
        let (_, request) = flow.step(SpendEvent::PendingListed(OutPointSet::new()), 0);
        request
    };
    match prepared_for(&plan) {
        SpendRequest::PrepareShielding { request, .. } => {
            assert_eq!(request.shielding_threshold_zat, zat(9));
            assert_eq!(request.destination_pool, None);
        }
        other => panic!("expected the shielding, got {other:?}"),
    }
    let unknown = plan.with_destination_pool(ShieldedPool::Unrecognised);
    assert!(matches!(
        finished(prepared_for(&unknown)),
        Err(WalletError::ProposalRejected { reason })
            if reason == "shielded pool is not supported by this release"
    ));
}

#[test]
fn spends_check_the_submitter_network_last() {
    let mut plan = send_plan();
    plan.submitter_network = Network::Mainnet;
    assert!(matches!(
        SpendFlow::begin_send(&plan, regtest()),
        Err(WalletError::NetworkMismatch {
            storage: Network::Regtest,
            requested: Network::Mainnet
        })
    ));
    let nothing =
        ShieldTransparentPlan::new(AccountId(1), key("k"), Zatoshis::zero(), Network::Mainnet);
    assert!(matches!(
        SpendFlow::begin_shield(&nothing, regtest()),
        Err(WalletError::ProposalRejected { .. })
    ));
    let with_memo = send_plan().with_memo(memo("hello"));
    let flow = SpendFlow::begin_send(&with_memo, regtest()).expect("shielded memo");
    assert!(flow.accepts(&SpendEvent::Prior(None)));
    assert!(!flow.accepts(&SpendEvent::Done));
    assert_eq!(tip_or_zero(None), BlockHeight::from(0));
}
