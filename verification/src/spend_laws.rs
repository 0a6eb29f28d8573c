//! What holds of every spend.

use crate::domain::BlockHeight;
use crate::error::WalletError;
use crate::spend::{PreparedTransaction, ProposalPaymentRequest};
use crate::spend_flow::{
    SpendEnd, SpendEvent, SpendFailure, SpendFlow, SpendRequest, SpendStage,
};
use vstd::prelude::*;

verus! {

/// A spend whose idempotency key is known is answered with the earlier submission: after the
/// lookup only the tip is read, whatever the tip read gives the spend ends, and if it succeeds
/// it reports the earlier transaction. Nothing is unsealed, prepared, recorded, or submitted.
pub proof fn a_known_key_is_never_sent_again(
    flow: SpendFlow,
    event: SpendEvent,
    reply: SpendEvent,
    now_ms: u64,
)
    requires
        flow.expects(event),
        event matches SpendEvent::Prior(Some(_)),
        (SpendFlow { stage: flow.moved(event, now_ms).0, ..flow }).expects(reply),
    ensures
        flow.moved(event, now_ms).1 is ReadTip,
        ({
            let replaying = SpendFlow { stage: flow.moved(event, now_ms).0, ..flow };
            &&& replaying.moved(reply, now_ms).0 is Finished
            &&& replaying.moved(reply, now_ms).1 is Finish
            &&& replaying.moved(reply, now_ms).1 matches SpendRequest::Finish(
                SpendEnd::Sent { tx_id, tx_expiry_height, .. },
            ) ==> event == SpendEvent::Prior(Some(tx_id)) && tx_expiry_height == BlockHeight(0)
        }),
{
}

/// A transaction is submitted only if it locks no transparent outpoint or its
/// pending-broadcast row was persisted right before.
pub proof fn outpoints_are_locked_before_the_submission(
    flow: SpendFlow,
    event: SpendEvent,
    now_ms: u64,
)
    requires
        flow.wf(),
        flow.expects(event),
        flow.moved(event, now_ms).1 is Submit,
    ensures
        flow.moved(event, now_ms).0 matches SpendStage::Submitting { run } && (
        run.current().transparent_inputs@.len() == 0 || (event is Done && flow.stage
            == SpendStage::Recording { run })),
{
}

/// After a failed submission the transaction's row is removed, and whatever comes of that the
/// spend ends with the failure and is not remembered.
pub proof fn a_failed_submission_frees_its_outpoints(
    flow: SpendFlow,
    event: SpendEvent,
    reply: SpendEvent,
    now_ms: u64,
)
    requires
        flow.wf(),
        flow.stage is Submitting,
        flow.expects(event),
        match event {
            SpendEvent::Submitted(Ok(outcome)) => crate::spend::submitted_tx_id(outcome) != Some(
                flow.current_spec()->Some_0.tx_id,
            ),
            _ => true,
        },
        (SpendFlow { stage: flow.moved(event, now_ms).0, ..flow }).expects(reply),
    ensures
        flow.moved(event, now_ms).1 == (SpendRequest::ClearPending {
            tx_id: flow.current_spec()->Some_0.tx_id,
        }),
        (SpendFlow { stage: flow.moved(event, now_ms).0, ..flow }).moved(reply, now_ms).1 matches
            SpendRequest::Finish(SpendEnd::Failed(_)),
{
}

/// A submission is remembered only right after the submitter delivered the last prepared
/// transaction, and it is remembered by the first one's identifier.
pub proof fn only_a_delivered_spend_is_remembered(flow: SpendFlow, event: SpendEvent, now_ms: u64)
    requires
        flow.wf(),
        flow.expects(event),
        flow.moved(event, now_ms).1 is Remember,
    ensures
        flow.stage matches SpendStage::Submitting { run } && {
            &&& event matches SpendEvent::Submitted(Ok(outcome))
            &&& crate::spend::submitted_tx_id(outcome) == Some(run.current().tx_id)
            &&& run.position + 1 == run.prepared@.len()
            &&& flow.moved(event, now_ms).1 == (SpendRequest::Remember {
                tx_id: run.prepared@[0].tx_id,
            })
        },
{
}

/// What is paid is what was planned: a payment that waits to be prepared is kept as it is, or
/// handed over as it is to be prepared or signed, or dropped because the key was known or the
/// spend ended. A spend in which no payment waits asks for none.
pub proof fn what_is_paid_is_what_was_planned(flow: SpendFlow, event: SpendEvent, now_ms: u64)
    requires
        flow.expects(event),
    ensures
        ({
            let next = SpendFlow { stage: flow.moved(event, now_ms).0, ..flow };
            let request = flow.moved(event, now_ms).1;
            match flow.payment() {
                Some(payment) => {
                    ||| next.payment() == Some(payment) && request.payment() is None
                    ||| next.payment() is None && request.payment() == Some(payment)
                    ||| next.payment() is None && request.payment() is None && (next.stage
                        is Replaying || next.stage is Finished)
                },
                None => next.payment() is None && request.payment() is None,
            }
        }),
{
}

/// A target expiry at or below the visible tip is refused before anything is signed; one above
/// it is signed.
pub proof fn a_stale_target_is_never_signed(
    flow: SpendFlow,
    request: ProposalPaymentRequest,
    target: BlockHeight,
    visible_tip: Option<BlockHeight>,
    now_ms: u64,
)
    requires
        flow.stage == (SpendStage::CheckingTarget { request, target }),
    ensures
        flow.moved(SpendEvent::Tip(visible_tip), now_ms).1 is SignWithExpiry <==> target.0
            > crate::spend::tip_or_zero_spec(visible_tip).0,
        !(flow.moved(SpendEvent::Tip(visible_tip), now_ms).1 is SignWithExpiry) ==> flow.moved(
            SpendEvent::Tip(visible_tip),
            now_ms,
        ).1 is Finish,
{
}

/// What is signed for a target expiry goes on to submission exactly when it is one transaction
/// that commits to that expiry and does not pay a TEX recipient from shielded notes; anything
/// else ends the spend.
pub proof fn a_stray_expiry_is_never_submitted(
    flow: SpendFlow,
    target: BlockHeight,
    prepared: Vec<PreparedTransaction>,
    now_ms: u64,
)
    requires
        flow.stage == (SpendStage::Signing { target }),
    ensures
        ({
            let (stage, request) = flow.moved(SpendEvent::Prepared(prepared), now_ms);
            &&& stage is ReadingTip <==> prepared@.len() == 1 && prepared@[0].tx_expiry_height
                == target && !flow.pays_tex_from_shielded(prepared@)
            &&& stage is ReadingTip ==> stage == (SpendStage::ReadingTip { prepared })
            &&& !(stage is ReadingTip) ==> request matches SpendRequest::Finish(
                SpendEnd::Failed(_),
            )
        }),
{
}

/// A shielded input never pays a TEX address (ZIP-320): transactions of which one pays the TEX
/// recipient and spends shielded notes end the spend with that refusal, whichever way they
/// were prepared, so none of them is recorded or submitted.
pub proof fn shielded_inputs_never_pay_a_tex_recipient(
    flow: SpendFlow,
    prepared: Vec<PreparedTransaction>,
    paying: int,
    now_ms: u64,
)
    requires
        flow.expects(SpendEvent::Prepared(prepared)),
        flow.pays_tex,
        0 <= paying < prepared@.len(),
        prepared@[paying].spends_shielded,
        prepared@[paying].pays_recipient,
    ensures
        flow.moved(SpendEvent::Prepared(prepared), now_ms).0 is Finished,
        flow.moved(SpendEvent::Prepared(prepared), now_ms).1 == SpendRequest::Finish(
            SpendEnd::Failed(SpendFailure::Error(WalletError::ShieldedInputsOnTexRecipient)),
        ),
        forall|event: SpendEvent|
            !(SpendFlow {
                stage: flow.moved(SpendEvent::Prepared(prepared), now_ms).0,
                ..flow
            }).expects(event),
{
    assert(flow.pays_tex_from_shielded(prepared@));
}

/// A transaction that is recorded or submitted for a TEX recipient either spends no shielded
/// note or does not pay the recipient.
pub proof fn what_pays_a_tex_recipient_is_transparent(
    flow: SpendFlow,
    event: SpendEvent,
    now_ms: u64,
)
    requires
        flow.wf(),
        flow.expects(event),
        flow.pays_tex,
        flow.moved(event, now_ms).1 is RecordPending || flow.moved(event, now_ms).1 is Submit,
    ensures
        ({
            let next = SpendFlow { stage: flow.moved(event, now_ms).0, ..flow };
            &&& next.current_spec() matches Some(current)
            &&& !current.spends_shielded || !current.pays_recipient
        }),
{
    let next = SpendFlow { stage: flow.moved(event, now_ms).0, ..flow };
    match next.stage {
        SpendStage::Recording { run } => {
            assert(!next.pays_tex_from_shielded(run.prepared@));
            assert(run.prepared@[run.position as int] == run.current());
        },
        SpendStage::Submitting { run } => {
            assert(!next.pays_tex_from_shielded(run.prepared@));
            assert(run.prepared@[run.position as int] == run.current());
        },
        _ => {},
    }
}

} // verus!
