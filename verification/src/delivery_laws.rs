//! What a spend asks of its surroundings at each step, and what its caller is told.

use crate::domain::{BlockHeight, Network, OutPoint, ProtocolPool, ShieldedPool, TxId, Zatoshis};
use crate::error::WalletError;
use crate::outpoint_set::OutPointSet;
use crate::payment::{Memo, PaymentRecipient};
use crate::pending_transparent_inputs::PendingTransparentInput;
use crate::spend::{
    PreparedTransaction, ProposalPaymentRequest, SendOutcome, SendPaymentPlan, SubmitOutcome,
};
use crate::spend_flow::{
    SpendEnd, SpendEvent, SpendFailure, SpendFlow, SpendIntent, SpendRequest, SpendStage,
    SubmissionRun,
};
use vstd::prelude::*;

verus! {

/// A delivered transaction always moves the spend forward. While another prepared transaction
/// is left it comes next: recorded first if it locks outpoints, submitted at once if not. After
/// the last one the first transaction's identifier is to be remembered. The spend never fails.
pub proof fn a_delivered_transaction_moves_the_spend_forward(
    flow: SpendFlow,
    run: SubmissionRun,
    outcome: SubmitOutcome,
    now_ms: u64,
)
    requires
        flow.wf(),
        flow.stage == (SpendStage::Submitting { run }),
        run.position + 1 <= usize::MAX,
        ({
            let expected = run.prepared@[run.position as int].tx_id;
            ||| outcome == (SubmitOutcome::Accepted { tx_id: expected })
            ||| outcome == (SubmitOutcome::Duplicate { tx_id: expected })
            ||| outcome == (SubmitOutcome::Queued { tx_id: expected })
        }),
    ensures
        ({
            let (stage, request) = flow.moved(SpendEvent::Submitted(Ok(outcome)), now_ms);
            let next = run.position + 1;
            &&& next < run.prepared@.len() ==> {
                let locks = run.prepared@[next].transparent_inputs@.len() > 0;
                &&& locks ==> request is RecordPending
                &&& !locks ==> request is Submit
                &&& locks ==> stage is Recording
                &&& !locks ==> stage is Submitting
                &&& match stage {
                    SpendStage::Recording { run: after } => after.prepared == run.prepared
                        && after.position == next && after.visible_tip == run.visible_tip
                        && after.broadcast_at_ms == run.broadcast_at_ms,
                    SpendStage::Submitting { run: after } => after.prepared == run.prepared
                        && after.position == next && after.visible_tip == run.visible_tip
                        && after.broadcast_at_ms == run.broadcast_at_ms,
                    _ => false,
                }
            }
            &&& next == run.prepared@.len() ==> {
                &&& request == (SpendRequest::Remember { tx_id: run.prepared@[0].tx_id })
                &&& stage == (SpendStage::Remembering {
                    tx_id: run.prepared@[0].tx_id,
                    tx_expiry_height: run.prepared@[0].tx_expiry_height,
                    visible_tip: run.visible_tip,
                })
            }
        }),
{
}

/// A spend that has delivered its last transaction ends as sent: once its submission is
/// remembered it reports the first transaction's identifier and expiry and the tip read at
/// submit time.
pub proof fn a_delivered_spend_ends_as_sent(
    flow: SpendFlow,
    run: SubmissionRun,
    outcome: SubmitOutcome,
    delivered_ms: u64,
    remembered_ms: u64,
)
    requires
        flow.wf(),
        flow.stage == (SpendStage::Submitting { run }),
        run.position + 1 == run.prepared@.len(),
        run.position + 1 <= usize::MAX,
        outcome == (SubmitOutcome::Accepted { tx_id: run.prepared@.last().tx_id }) || outcome == (
        SubmitOutcome::Duplicate { tx_id: run.prepared@.last().tx_id }) || outcome == (
        SubmitOutcome::Queued { tx_id: run.prepared@.last().tx_id }),
    ensures
        ({
            let remembering = SpendFlow {
                stage: flow.moved(SpendEvent::Submitted(Ok(outcome)), delivered_ms).0,
                ..flow
            };
            remembering.moved(SpendEvent::Done, remembered_ms) == (
                SpendStage::Finished,
                SpendRequest::Finish(
                    SpendEnd::Sent {
                        tx_id: run.prepared@[0].tx_id,
                        tx_expiry_height: run.prepared@[0].tx_expiry_height,
                        visible_tip: run.visible_tip,
                    },
                ),
            )
        }),
{
}

/// One transaction on its own: prepared, submitted under the tip that was read, delivered, and
/// remembered, it is what the spend reports.
pub proof fn a_single_payment_is_reported_as_it_was_sent(
    flow: SpendFlow,
    prepared: Vec<PreparedTransaction>,
    visible_tip: Option<BlockHeight>,
    now_ms: u64,
)
    requires
        flow.stage == (SpendStage::ReadingTip { prepared }),
        prepared@.len() == 1,
        prepared@[0].transparent_inputs@.len() == 0,
    ensures
        ({
            let tx_id = prepared@[0].tx_id;
            let submitting = SpendFlow {
                stage: flow.moved(SpendEvent::Tip(visible_tip), now_ms).0,
                ..flow
            };
            let delivered = SpendEvent::Submitted(Ok(SubmitOutcome::Accepted { tx_id }));
            let remembering = SpendFlow { stage: submitting.moved(delivered, now_ms).0, ..flow };
            &&& flow.moved(SpendEvent::Tip(visible_tip), now_ms).1 is Submit
            &&& submitting.moved(delivered, now_ms).1 == (SpendRequest::Remember { tx_id })
            &&& remembering.moved(SpendEvent::Done, now_ms).1 == SpendRequest::Finish(
                SpendEnd::Sent {
                    tx_id,
                    tx_expiry_height: prepared@[0].tx_expiry_height,
                    visible_tip,
                },
            )
        }),
{
}

/// What is submitted is what was prepared: the first transaction comes first, under the tip
/// that was read and at the time it was read, recorded if it locks outpoints. Where nothing was
/// prepared the spend fails and says so.
pub proof fn submission_begins_with_the_first_transaction(
    flow: SpendFlow,
    prepared: Vec<PreparedTransaction>,
    visible_tip: Option<BlockHeight>,
    now_ms: u64,
)
    requires
        flow.stage == (SpendStage::ReadingTip { prepared }),
    ensures
        ({
            let (stage, request) = flow.moved(SpendEvent::Tip(visible_tip), now_ms);
            let run = SubmissionRun {
                prepared,
                position: 0,
                visible_tip,
                broadcast_at_ms: now_ms,
                first: None,
            };
            &&& prepared@.len() == 0 ==> stage is Finished && request == SpendRequest::Finish(
                SpendEnd::Failed(SpendFailure::NothingConstructed),
            )
            &&& prepared@.len() > 0 && prepared@[0].transparent_inputs@.len() == 0 ==> stage == (
            SpendStage::Submitting { run }) && request is Submit
            &&& prepared@.len() > 0 && prepared@[0].transparent_inputs@.len() > 0 ==> stage == (
            SpendStage::Recording { run }) && request is RecordPending
        }),
{
}

/// A recorded transaction is submitted, the same one.
pub proof fn a_recorded_transaction_is_submitted(flow: SpendFlow, run: SubmissionRun, now_ms: u64)
    requires
        flow.stage == (SpendStage::Recording { run }),
    ensures
        flow.moved(SpendEvent::Done, now_ms) == (
            SpendStage::Submitting { run },
            SpendRequest::Submit,
        ),
        flow.expects(SpendEvent::Done),
{
}

/// The transaction at hand is the prepared one at the run's position, whether it is being
/// recorded or submitted; at no other stage is there one.
pub proof fn the_current_transaction_is_the_one_at_its_position(
    flow: SpendFlow,
    run: SubmissionRun,
)
    ensures
        flow.stage == (SpendStage::Recording { run }) || flow.stage == (SpendStage::Submitting {
            run,
        }) ==> flow.current_spec() == Some(run.prepared@[run.position as int]),
        flow.current_spec() is Some <==> flow.stage is Recording || flow.stage is Submitting,
        run.current() == run.prepared@[run.position as int],
{
}

/// What is shielded is what was planned: the shielding that storage is asked for names the
/// account the spend was begun for, the plan's threshold, the protocol's name of the plan's
/// destination pool, and excludes exactly the listed outpoints. A pool this release does not
/// know ends the spend.
pub proof fn what_is_shielded_is_what_was_planned(
    flow: SpendFlow,
    threshold: Zatoshis,
    pool: Option<ShieldedPool>,
    excluded: OutPointSet,
    looked_up_ms: u64,
    unsealed_ms: u64,
    listed_ms: u64,
)
    requires
        flow.stage == (SpendStage::LookingUp {
            intent: SpendIntent::Shield {
                shielding_threshold_zat: threshold,
                destination_pool: pool,
            },
        }),
    ensures
        ({
            let unsealing = SpendFlow {
                stage: flow.moved(SpendEvent::Prior(None), looked_up_ms).0,
                ..flow
            };
            let listing = SpendFlow {
                stage: unsealing.moved(SpendEvent::Done, unsealed_ms).0,
                ..flow
            };
            let (stage, request) = listing.moved(
                SpendEvent::PendingListed(excluded),
                listed_ms,
            );
            &&& flow.moved(SpendEvent::Prior(None), looked_up_ms).1 is Unseal
            &&& unsealing.moved(SpendEvent::Done, unsealed_ms).1 is ListPending
            &&& pool == Some(ShieldedPool::Unrecognised) ==> stage is Finished && request
                == SpendRequest::Finish(SpendEnd::Failed(SpendFailure::UnsupportedPool))
            &&& pool != Some(ShieldedPool::Unrecognised) ==> {
                &&& stage is Preparing
                &&& request matches SpendRequest::PrepareShielding {
                    request: asked,
                    excluded: kept_out,
                }
                &&& kept_out == excluded
                &&& asked.account_id == flow.account_id
                &&& asked.shielding_threshold_zat == threshold
                &&& pool is None <==> asked.destination_pool is None
                &&& pool == Some(ShieldedPool::Sapling) <==> asked.destination_pool == Some(
                    ProtocolPool::Sapling,
                )
                &&& pool == Some(ShieldedPool::Orchard) <==> asked.destination_pool == Some(
                    ProtocolPool::Orchard,
                )
                &&& pool == Some(ShieldedPool::Ironwood) <==> asked.destination_pool == Some(
                    ProtocolPool::Ironwood,
                )
            }
        }),
{
}

/// A payment without a target expiry is prepared as it was planned, excluding exactly the
/// listed outpoints, once its key is unknown, the seed unsealed, and the pending outpoints
/// listed.
pub proof fn a_plain_payment_is_prepared_as_planned(
    flow: SpendFlow,
    payment: ProposalPaymentRequest,
    excluded: OutPointSet,
    looked_up_ms: u64,
    unsealed_ms: u64,
    listed_ms: u64,
)
    requires
        flow.stage == (SpendStage::LookingUp {
            intent: SpendIntent::Pay { request: payment, target_expiry_height: None },
        }),
    ensures
        ({
            let unsealing = SpendFlow {
                stage: flow.moved(SpendEvent::Prior(None), looked_up_ms).0,
                ..flow
            };
            let listing = SpendFlow {
                stage: unsealing.moved(SpendEvent::Done, unsealed_ms).0,
                ..flow
            };
            &&& flow.moved(SpendEvent::Prior(None), looked_up_ms).1 is Unseal
            &&& unsealing.moved(SpendEvent::Done, unsealed_ms).1 is ListPending
            &&& listing.moved(SpendEvent::PendingListed(excluded), listed_ms) == (
                SpendStage::Preparing,
                SpendRequest::PreparePayment { request: payment, excluded },
            )
        }),
{
}

/// A payment with a target expiry is signed as it was planned and for that expiry, exactly if
/// the target lies above the visible tip; a tip that is not known counts as height zero.
pub proof fn a_targeted_payment_is_signed_as_planned(
    flow: SpendFlow,
    payment: ProposalPaymentRequest,
    target: BlockHeight,
    visible_tip: Option<BlockHeight>,
    looked_up_ms: u64,
    read_ms: u64,
)
    requires
        flow.stage == (SpendStage::LookingUp {
            intent: SpendIntent::Pay { request: payment, target_expiry_height: Some(target) },
        }),
    ensures
        ({
            let checking = SpendFlow {
                stage: flow.moved(SpendEvent::Prior(None), looked_up_ms).0,
                ..flow
            };
            let (stage, request) = checking.moved(SpendEvent::Tip(visible_tip), read_ms);
            let tip: u32 = match visible_tip {
                Some(height) => height.0,
                None => 0,
            };
            &&& flow.moved(SpendEvent::Prior(None), looked_up_ms).1 is ReadTip
            &&& target.0 > tip ==> stage == (SpendStage::Signing { target }) && request == (
            SpendRequest::SignWithExpiry { request: payment, target })
            &&& target.0 <= tip ==> stage is Finished && request == SpendRequest::Finish(
                SpendEnd::Failed(
                    SpendFailure::Error(
                        WalletError::TargetExpiryStale { target, chain_tip: BlockHeight(tip) },
                    ),
                ),
            )
        }),
{
}

/// What was prepared goes on to submission as it is, unless it would pay a TEX recipient from
/// shielded notes.
pub proof fn what_was_prepared_goes_on_to_submission(
    flow: SpendFlow,
    prepared: Vec<PreparedTransaction>,
    now_ms: u64,
)
    requires
        flow.stage is Preparing,
        !flow.pays_tex || forall|i: int|
            0 <= i < prepared@.len() ==> !((#[trigger] prepared@[i]).spends_shielded
                && prepared@[i].pays_recipient),
    ensures
        flow.moved(SpendEvent::Prepared(prepared), now_ms) == (
            SpendStage::ReadingTip { prepared },
            SpendRequest::ReadTip,
        ),
        flow.expects(SpendEvent::Prepared(prepared)),
{
    if flow.pays_tex_from_shielded(prepared@) {
        let i = choose|i: int|
            0 <= i < prepared@.len() && (#[trigger] prepared@[i]).spends_shielded
                && prepared@[i].pays_recipient;
        assert(prepared@[i].spends_shielded);
    }
}

/// A known key is answered with the earlier submission's identifier, an expiry of zero, and the
/// tip that was read, whatever the spend is for.
pub proof fn a_known_key_replays_the_earlier_submission(
    flow: SpendFlow,
    earlier: TxId,
    visible_tip: Option<BlockHeight>,
    found_ms: u64,
    read_ms: u64,
)
    requires
        flow.stage is LookingUp,
    ensures
        ({
            let replaying = SpendFlow {
                stage: flow.moved(SpendEvent::Prior(Some(earlier)), found_ms).0,
                ..flow
            };
            &&& flow.moved(SpendEvent::Prior(Some(earlier)), found_ms).1 is ReadTip
            &&& replaying.expects(SpendEvent::Tip(visible_tip))
            &&& replaying.moved(SpendEvent::Tip(visible_tip), read_ms) == (
                SpendStage::Finished,
                SpendRequest::Finish(
                    SpendEnd::Sent {
                        tx_id: earlier,
                        tx_expiry_height: BlockHeight(0),
                        visible_tip,
                    },
                ),
            )
        }),
{
}

/// A request that fails ends the spend with exactly that error; while a row is being cleared,
/// the submission's own failure is what the spend ends with.
pub proof fn a_failed_request_ends_the_spend_with_its_error(
    flow: SpendFlow,
    error: WalletError,
    now_ms: u64,
)
    requires
        !(flow.stage is Submitting),
        !(flow.stage is Finished),
    ensures
        flow.expects(SpendEvent::Failed(error)),
        flow.moved(SpendEvent::Failed(error), now_ms).0 is Finished,
        !(flow.stage is Clearing) ==> flow.moved(SpendEvent::Failed(error), now_ms).1
            == SpendRequest::Finish(SpendEnd::Failed(SpendFailure::Error(error))),
        flow.stage matches SpendStage::Clearing { failure } ==> flow.moved(
            SpendEvent::Failed(error),
            now_ms,
        ).1 == SpendRequest::Finish(SpendEnd::Failed(failure)),
{
}

/// A submission that failed, was rejected, or delivered another transaction is cleared under
/// the current transaction's identifier, and the spend then ends with what went wrong.
pub proof fn an_undelivered_transaction_fails_the_spend(
    flow: SpendFlow,
    run: SubmissionRun,
    submitted: Result<SubmitOutcome, WalletError>,
    now_ms: u64,
)
    requires
        flow.stage == (SpendStage::Submitting { run }),
        ({
            let expected = run.prepared@[run.position as int].tx_id;
            match submitted {
                Ok(SubmitOutcome::Accepted { tx_id }) => tx_id != expected,
                Ok(SubmitOutcome::Duplicate { tx_id }) => tx_id != expected,
                Ok(SubmitOutcome::Queued { tx_id }) => tx_id != expected,
                _ => true,
            }
        }),
    ensures
        ({
            let expected = run.prepared@[run.position as int].tx_id;
            let (stage, request) = flow.moved(SpendEvent::Submitted(submitted), now_ms);
            let failure = match submitted {
                Ok(outcome) => SpendFailure::Undelivered { outcome, expected },
                Err(error) => SpendFailure::Error(error),
            };
            &&& request == (SpendRequest::ClearPending { tx_id: expected })
            &&& stage == (SpendStage::Clearing { failure })
            &&& (SpendFlow { stage, ..flow }).moved(SpendEvent::Done, now_ms)
                == (
                SpendStage::Finished,
                SpendRequest::Finish(SpendEnd::Failed(failure)),
            )
        }),
{
}

/// A spend takes in what it asked for: at every stage the answer to its request is expected.
pub proof fn every_spend_request_can_be_answered(
    flow: SpendFlow,
    prior: Option<TxId>,
    tip: Option<BlockHeight>,
    excluded: OutPointSet,
    prepared: Vec<PreparedTransaction>,
    submitted: Result<SubmitOutcome, WalletError>,
)
    ensures
        flow.expects(SpendEvent::Prior(prior)) <==> flow.stage is LookingUp,
        flow.expects(SpendEvent::Tip(tip)) <==> flow.stage is Replaying || flow.stage
            is CheckingTarget || flow.stage is ReadingTip,
        flow.expects(SpendEvent::Done) <==> flow.stage is Unsealing || flow.stage is Recording
            || flow.stage is Clearing || flow.stage is Remembering,
        flow.expects(SpendEvent::PendingListed(excluded)) <==> flow.stage is ListingPending,
        flow.expects(SpendEvent::Prepared(prepared)) <==> flow.stage is Preparing || flow.stage
            is Signing,
        flow.expects(SpendEvent::Submitted(submitted)) <==> flow.stage is Submitting,
        flow.stage is LookingUp ==> flow.wf(),
{
}

/// What the caller of a spend is told names the transaction in both phases, its expiry, no fee,
/// and the tip at submit time, or height zero where none was known.
pub proof fn an_outcome_names_what_was_sent(
    outcome: SendOutcome,
    tx_id: TxId,
    tx_expiry_height: BlockHeight,
    visible_tip: Option<BlockHeight>,
)
    requires
        outcome.reports(tx_id, tx_expiry_height, visible_tip),
    ensures
        outcome.signed.tx_id == tx_id,
        outcome.broadcast.tx_id == tx_id,
        outcome.signed.tx_expiry_height == tx_expiry_height,
        outcome.signed.fee_zat@ == 0,
        visible_tip matches Some(tip) ==> outcome.broadcast.broadcast_at_height == tip,
        visible_tip is None ==> outcome.broadcast.broadcast_at_height == BlockHeight(0),
{
}

/// What storage is asked to pay is the plan's payment, field by field: the account that funds
/// it, the recipient's address as it was given, the amount, the memo's own bytes or none, and
/// the pool.
pub proof fn a_request_asks_for_the_planned_payment(
    request: ProposalPaymentRequest,
    account_id: crate::domain::AccountId,
    recipient: PaymentRecipient,
    amount_zat: Zatoshis,
    memo: Option<Memo>,
    source_pool: Option<ProtocolPool>,
)
    requires
        request.asks_for(account_id, recipient, amount_zat, memo, source_pool),
    ensures
        request.account_id == account_id,
        request.amount_zat == amount_zat,
        request.source_pool == source_pool,
        match recipient {
            PaymentRecipient::UnifiedAddress { encoded, .. } => request.recipient_encoded@
                == encoded@,
            PaymentRecipient::SaplingAddress { encoded, .. } => request.recipient_encoded@
                == encoded@,
            PaymentRecipient::TransparentAddress { encoded, .. } => request.recipient_encoded@
                == encoded@,
            PaymentRecipient::TexAddress { encoded, .. } => request.recipient_encoded@
                == encoded@,
        },
        memo is None ==> request.memo_bytes is None,
        memo matches Some(m) ==> {
            &&& request.memo_bytes matches Some(bytes)
            &&& bytes@ == m@
        },
{
}

/// A payment passes its guards exactly if the recipient is on the wallet's network, something
/// is paid, and no memo that says something goes to a transparent or TEX address.
pub proof fn a_payment_passes_on_its_own_network_with_an_amount(
    recipient: PaymentRecipient,
    memo: Option<Memo>,
    amount_zat: Zatoshis,
    wallet_network: Network,
)
    ensures
        crate::spend::payment_passes(recipient, memo, amount_zat, wallet_network) <==> {
            let says_something = memo matches Some(m) && m@ != seq![0xF6u8];
            &&& amount_zat@ != 0
            &&& match recipient {
                PaymentRecipient::UnifiedAddress { network, .. } => network == wallet_network,
                PaymentRecipient::SaplingAddress { network, .. } => network == wallet_network,
                PaymentRecipient::TransparentAddress { network, .. } => network == wallet_network
                    && !says_something,
                PaymentRecipient::TexAddress { network, .. } => network == wallet_network
                    && !says_something,
            }
        },
{
}

/// A refused payment is refused for the first guard it fails: its network, then its memo, then
/// its amount. The error names the two networks, or the rule.
pub proof fn a_refused_payment_names_its_first_defect(
    recipient: PaymentRecipient,
    memo: Option<Memo>,
    amount_zat: Zatoshis,
    wallet_network: Network,
    error: WalletError,
)
    requires
        !crate::spend::payment_passes(recipient, memo, amount_zat, wallet_network),
        crate::spend::payment_guard_fails(recipient, memo, amount_zat, wallet_network, error),
    ensures
        ({
            let network = match recipient {
                PaymentRecipient::UnifiedAddress { network, .. } => network,
                PaymentRecipient::SaplingAddress { network, .. } => network,
                PaymentRecipient::TransparentAddress { network, .. } => network,
                PaymentRecipient::TexAddress { network, .. } => network,
            };
            &&& network != wallet_network ==> error == (WalletError::NetworkMismatch {
                storage: wallet_network,
                requested: network,
            })
            &&& network == wallet_network ==> error is MemoOnTransparentRecipient || error
                is ProposalRejected
            &&& error is MemoOnTransparentRecipient ==> memo is Some && (recipient
                is TransparentAddress || recipient is TexAddress)
            &&& network == wallet_network && crate::spend::memo_forbidden(memo, recipient) ==> error
                is MemoOnTransparentRecipient
            &&& error is ProposalRejected ==> amount_zat@ == 0 && error.rejected_with(
                "amount must be greater than zero zatoshis"@,
            )
        }),
{
}

/// A submission delivered a transaction exactly if it was accepted, known already, or queued.
pub proof fn only_a_successful_submission_delivers(outcome: SubmitOutcome, expected: TxId)
    ensures
        crate::spend::submitted_tx_id(outcome) == Some(expected) <==> (outcome == (
        SubmitOutcome::Accepted { tx_id: expected }) || outcome == (SubmitOutcome::Duplicate {
            tx_id: expected,
        }) || outcome == (SubmitOutcome::Queued { tx_id: expected })),
{
}

/// An undelivered submission surfaces as what went wrong: a rejection with the submitter's own
/// reason and detail, or the two identifiers where another transaction was delivered.
pub proof fn an_undelivered_submission_names_its_cause(
    outcome: SubmitOutcome,
    expected: TxId,
    error: WalletError,
)
    requires
        crate::spend::is_submit_error(outcome, expected, error),
    ensures
        match outcome {
            SubmitOutcome::Rejected { reason, detail } => error == (
            WalletError::SubmissionRejected { reason, detail }),
            SubmitOutcome::Unrecognised => error is SubmissionRejected,
            SubmitOutcome::Accepted { tx_id } => error == (
            WalletError::SubmittedTransactionIdMismatch { expected, returned: tx_id }),
            SubmitOutcome::Duplicate { tx_id } => error == (
            WalletError::SubmittedTransactionIdMismatch { expected, returned: tx_id }),
            SubmitOutcome::Queued { tx_id } => error == (
            WalletError::SubmittedTransactionIdMismatch { expected, returned: tx_id }),
        },
        (SpendFailure::Undelivered { outcome, expected }).surfaces_as(error),
{
}

/// An error that stopped a spend surfaces as itself, and a spend that constructed nothing, too
/// much, or for an unknown pool surfaces as a rejected proposal.
pub proof fn a_failure_surfaces_as_its_own_error(failure: SpendFailure, error: WalletError)
    requires
        failure.surfaces_as(error),
    ensures
        match failure {
            SpendFailure::Error(cause) => error == cause,
            SpendFailure::Undelivered { outcome, expected } => crate::spend::is_submit_error(
                outcome,
                expected,
                error,
            ),
            _ => error is ProposalRejected,
        },
{
}

/// The outpoints that a new spend must not select are those of the pending rows, all of them
/// and no others.
pub proof fn every_pending_outpoint_is_excluded(rows: Seq<PendingTransparentInput>)
    ensures
        ({
            let excluded = crate::outpoint_set::joined(
                Seq::empty(),
                crate::spend::row_outpoints(rows),
            );
            &&& forall|i: int| 0 <= i < rows.len() ==> excluded.contains((#[trigger] rows[i]).outpoint)
            &&& forall|point: OutPoint| #[trigger]
                excluded.contains(point) ==> exists|i: int|
                    0 <= i < rows.len() && (#[trigger] rows[i]).outpoint == point
        }),
    decreases rows.len(),
{
    let points = crate::spend::row_outpoints(rows);
    let excluded = crate::outpoint_set::joined(Seq::empty(), points);
    if rows.len() > 0 {
        let fewer = rows.drop_last();
        every_pending_outpoint_is_excluded(fewer);
        assert(crate::spend::row_outpoints(fewer) =~= points.drop_last());
        let before = crate::outpoint_set::joined(Seq::empty(), points.drop_last());
        assert(points.last() == rows.last().outpoint);
        assert forall|i: int| 0 <= i < rows.len() implies excluded.contains(
            (#[trigger] rows[i]).outpoint,
        ) by {
            if i < fewer.len() {
                assert(fewer[i] == rows[i]);
                assert(before.contains(fewer[i].outpoint));
                let k = choose|k: int| 0 <= k < before.len() && before[k] == rows[i].outpoint;
                assert(excluded[k] == rows[i].outpoint);
            } else if !before.contains(points.last()) {
                assert(excluded[before.len() as int] == points.last());
            }
        }
        assert forall|point: OutPoint| #[trigger] excluded.contains(point) implies exists|i: int|
            0 <= i < rows.len() && (#[trigger] rows[i]).outpoint == point by {
            if before.contains(point) {
                let i = choose|i: int| 0 <= i < fewer.len() && (#[trigger] fewer[i]).outpoint == point;
                assert(rows[i].outpoint == point);
            } else {
                assert(point == rows.last().outpoint);
                assert(rows[rows.len() - 1].outpoint == point);
            }
        }
    }
}

/// A pending broadcast counts as in flight for exactly the window: the cutoff lies the window
/// before now, or at the epoch where the clock is not that far.
pub proof fn the_inflight_window_is_kept_in_full(now_ms: u64, window_ms: u64)
    ensures
        now_ms >= window_ms ==> crate::spend::cutoff_spec(now_ms, window_ms) + window_ms == now_ms,
        now_ms < window_ms ==> crate::spend::cutoff_spec(now_ms, window_ms) == 0,
{
}

/// The protocol's name and the chain source's name of a pool lead back to each other, and only
/// an unrecognised pool has no protocol name.
pub proof fn pool_names_lead_back_to_each_other(pool: ShieldedPool, protocol: ProtocolPool)
    ensures
        crate::spend::protocol_pool_of(pool) is None <==> pool is Unrecognised,
        crate::spend::protocol_pool_of(pool) == Some(protocol)
            <==> crate::domain::shielded_pool_of(protocol) == pool,
        protocol is Sapling <==> crate::domain::shielded_pool_of(protocol) is Sapling,
        protocol is Orchard <==> crate::domain::shielded_pool_of(protocol) is Orchard,
        protocol is Ironwood <==> crate::domain::shielded_pool_of(protocol) is Ironwood,
{
}

/// A send is refused for its payment first, and for its submitter only where the payment
/// passes: the error then sets the wallet's network against the submitter's.
pub proof fn a_refused_send_names_its_payment_or_its_submitter(
    plan: SendPaymentPlan,
    wallet_network: Network,
    error: WalletError,
)
    requires
        crate::spend_flow::send_guard_fails(plan, wallet_network, error),
    ensures
        plan.recipient.network_spec() != wallet_network ==> error == (
        WalletError::NetworkMismatch {
            storage: wallet_network,
            requested: plan.recipient.network_spec(),
        }),
        plan.recipient.network_spec() == wallet_network && crate::spend::memo_forbidden(
            plan.memo,
            plan.recipient,
        ) ==> error is MemoOnTransparentRecipient,
        plan.recipient.network_spec() == wallet_network && !crate::spend::memo_forbidden(
            plan.memo,
            plan.recipient,
        ) && plan.amount_zat@ == 0 ==> error is ProposalRejected,
        plan.recipient.network_spec() == wallet_network && !crate::spend::memo_forbidden(
            plan.memo,
            plan.recipient,
        ) && plan.amount_zat@ != 0 ==> error == (WalletError::NetworkMismatch {
            storage: wallet_network,
            requested: plan.submitter_network,
        }),
{
}

} // verus!
