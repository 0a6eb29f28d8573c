//! One spend, from its guards to the remembered submission.
//!
//! A spend whose idempotency key is known already is answered from the earlier submission. Any
//! other is prepared, and each of its transactions is recorded in the pending-broadcast filter
//! before it is submitted, so that a crash between the submitter's accept and the row's
//! persistence cannot leave an in-flight broadcast unrecorded. On a failed submission the
//! just-recorded row is removed, so that the outpoints become spendable again.
//!
//! [`SpendFlow`] decides; its caller performs each [`SpendRequest`] and hands back the
//! [`SpendEvent`] it led to.

use crate::boundary_error::RejectionReason;
use crate::domain::{AccountId, BlockHeight, IdempotencyKey, Network, OutPoint, TxId, Zatoshis};
use crate::domain::ShieldedPool;
use crate::error::WalletError;
use crate::outpoint_set::OutPointSet;
use crate::spend::{
    protocol_shielded_pool, tip_or_zero, validate_non_zero, validate_payment,
    PendingBroadcastRecord, PreparedTransaction, ProposalPaymentRequest, SendOutcome,
    SendPaymentPlan, ShieldTransparentPlan, ShieldTransparentRequest, SubmitOutcome,
};
use crate::sync::attempt::require_same_network;
use vstd::prelude::*;

verus! {

/// What a spend is for.
#[derive(Debug)]
pub enum SpendIntent {
    /// A payment.
    Pay {
        /// What is paid.
        request: ProposalPaymentRequest,
        /// Expiry height to commit to, if the caller gave one.
        target_expiry_height: Option<BlockHeight>,
    },
    /// A shielding of transparent funds.
    Shield {
        /// Minimum total transparent input value to shield.
        shielding_threshold_zat: Zatoshis,
        /// Pool that receives the funds, if one was selected.
        destination_pool: Option<ShieldedPool>,
    },
}

/// Why a spend failed.
#[derive(Debug)]
pub enum SpendFailure {
    /// A boundary or a guard failed.
    Error(WalletError),
    /// The submitter did not deliver the transaction.
    Undelivered {
        /// What the submitter made of it.
        outcome: SubmitOutcome,
        /// Identifier of the transaction.
        expected: TxId,
    },
    /// The destination pool is unknown to this release.
    UnsupportedPool,
    /// No transaction was constructed.
    NothingConstructed,
    /// Several transactions were constructed for one target expiry.
    SeveralConstructed,
}

impl SpendFailure {
    /// The error that the failure surfaces as.
    pub open spec fn surfaces_as(self, error: WalletError) -> bool {
        match self {
            SpendFailure::Error(cause) => error == cause,
            SpendFailure::Undelivered { outcome, expected } => crate::spend::is_submit_error(
                outcome,
                expected,
                error,
            ),
            SpendFailure::UnsupportedPool => error.rejected_with(
                "shielded pool is not supported by this release"@,
            ),
            SpendFailure::NothingConstructed => error.rejected_with(
                "transaction construction returned no transactions"@,
            ),
            SpendFailure::SeveralConstructed => error.rejected_with(
                "a target expiry height takes exactly one transaction"@,
            ),
        }
    }
}

/// How a spend ended.
#[derive(Debug)]
pub enum SpendEnd {
    /// The transaction was delivered, now or under the same key before.
    Sent {
        /// Identifier of the (first) transaction.
        tx_id: TxId,
        /// Its expiry height; zero for an earlier submission.
        tx_expiry_height: BlockHeight,
        /// Visible tip at submit time, if known.
        visible_tip: Option<BlockHeight>,
    },
    /// The spend failed.
    Failed(SpendFailure),
}

impl SpendEnd {
    /// A transaction that counts as undelivered was not delivered.
    pub open spec fn is_real_failure(self) -> bool {
        self matches SpendEnd::Failed(SpendFailure::Undelivered { outcome, expected })
            ==> crate::spend::submitted_tx_id(outcome) != Some(expected)
    }

    /// The result that the caller sees.
    pub fn into_result(self) -> (result: Result<SendOutcome, WalletError>)
        requires
            self.is_real_failure(),
        ensures
            match self {
                SpendEnd::Sent { tx_id, tx_expiry_height, visible_tip } => result matches Ok(
                    outcome,
                ) && outcome.reports(tx_id, tx_expiry_height, visible_tip),
                SpendEnd::Failed(failure) => result matches Err(error) && failure.surfaces_as(
                    error,
                ),
            },
    {
        match self {
            SpendEnd::Sent { tx_id, tx_expiry_height, visible_tip } => Ok(
                SendOutcome::of(tx_id, tx_expiry_height, visible_tip),
            ),
            SpendEnd::Failed(SpendFailure::Error(cause)) => Err(cause),
            SpendEnd::Failed(SpendFailure::Undelivered { outcome, expected }) => match outcome {
                SubmitOutcome::Rejected { reason, detail } => Err(
                    WalletError::SubmissionRejected { reason, detail },
                ),
                SubmitOutcome::Unrecognised => Err(
                    WalletError::SubmissionRejected {
                        reason: RejectionReason::Unknown,
                        detail: "submitter returned an unrecognised outcome variant".to_owned(),
                    },
                ),
                SubmitOutcome::Accepted { tx_id }
                | SubmitOutcome::Duplicate { tx_id }
                | SubmitOutcome::Queued { tx_id } => Err(
                    WalletError::SubmittedTransactionIdMismatch { expected, returned: tx_id },
                ),
            },
            SpendEnd::Failed(SpendFailure::UnsupportedPool) => Err(
                WalletError::ProposalRejected {
                    reason: "shielded pool is not supported by this release".to_owned(),
                },
            ),
            SpendEnd::Failed(SpendFailure::NothingConstructed) => Err(
                WalletError::ProposalRejected {
                    reason: "transaction construction returned no transactions".to_owned(),
                },
            ),
            SpendEnd::Failed(SpendFailure::SeveralConstructed) => Err(
                WalletError::ProposalRejected {
                    reason: "a target expiry height takes exactly one transaction".to_owned(),
                },
            ),
        }
    }
}

/// What a spend asks its caller to do next.
#[derive(Debug)]
pub enum SpendRequest {
    /// Look up the idempotency key.
    FindPrior,
    /// Read the wallet's visible tip.
    ReadTip,
    /// Unseal the seed.
    Unseal,
    /// List the outpoints that pending broadcasts lock.
    ListPending,
    /// Propose, build, and sign the payment, selecting none of the excluded outpoints.
    PreparePayment {
        /// What to pay.
        request: ProposalPaymentRequest,
        /// Outpoints that must not be selected.
        excluded: OutPointSet,
    },
    /// Propose, build, and sign the shielding, selecting none of the excluded outpoints.
    PrepareShielding {
        /// What to shield.
        request: ShieldTransparentRequest,
        /// Outpoints that must not be selected.
        excluded: OutPointSet,
    },
    /// Propose the payment as a PCZT with this expiry, then prove, sign, and extract it.
    SignWithExpiry {
        /// What to pay.
        request: ProposalPaymentRequest,
        /// Expiry height to commit to.
        target: BlockHeight,
    },
    /// Persist the pending-broadcast row of the current transaction.
    RecordPending,
    /// Submit the current transaction.
    Submit,
    /// Remove the pending-broadcast row of this transaction; a failure to do so is ignored.
    ClearPending {
        /// Identifier of the transaction.
        tx_id: TxId,
    },
    /// Remember the submission under the idempotency key.
    Remember {
        /// Identifier of the (first) transaction.
        tx_id: TxId,
    },
    /// The spend is over.
    Finish(SpendEnd),
}

/// What came of a request.
#[derive(Debug)]
pub enum SpendEvent {
    /// The submission known under the idempotency key, if any.
    Prior(Option<TxId>),
    /// The wallet's visible tip, if any.
    Tip(Option<BlockHeight>),
    /// The request was done.
    Done,
    /// The outpoints that pending broadcasts lock.
    PendingListed(OutPointSet),
    /// The signed transactions.
    Prepared(Vec<PreparedTransaction>),
    /// What the submitter, behind the breaker and its retries, made of the transaction.
    Submitted(Result<SubmitOutcome, WalletError>),
    /// The request failed.
    Failed(WalletError),
}

/// Submission of signed transactions, one after the other.
#[derive(Debug)]
pub struct SubmissionRun {
    /// The transactions.
    pub prepared: Vec<PreparedTransaction>,
    /// Position of the current transaction.
    pub position: usize,
    /// Visible tip at submit time, if known.
    pub visible_tip: Option<BlockHeight>,
    /// Unix milliseconds of the broadcast.
    pub broadcast_at_ms: u64,
    /// Identifier and expiry of the first delivered transaction.
    pub first: Option<(TxId, BlockHeight)>,
}

impl SpendRequest {
    /// The payment that is to be prepared or signed.
    pub open spec fn payment(self) -> Option<ProposalPaymentRequest> {
        match self {
            SpendRequest::PreparePayment { request, .. } => Some(request),
            SpendRequest::SignWithExpiry { request, .. } => Some(request),
            _ => None,
        }
    }
}

/// Where a spend stands between two events.
#[derive(Debug)]
pub enum SpendStage {
    /// Waiting for the lookup of the idempotency key.
    LookingUp {
        /// What the spend is for.
        intent: SpendIntent,
    },
    /// Waiting for the tip to report an earlier submission with.
    Replaying {
        /// Identifier of the earlier submission.
        tx_id: TxId,
    },
    /// Waiting for the tip to check the target expiry against.
    CheckingTarget {
        /// What is paid.
        request: ProposalPaymentRequest,
        /// Expiry height to commit to.
        target: BlockHeight,
    },
    /// Waiting for the seed.
    Unsealing {
        /// What the spend is for.
        intent: SpendIntent,
    },
    /// Waiting for the pending outpoints.
    ListingPending {
        /// What the spend is for.
        intent: SpendIntent,
    },
    /// Waiting for the signed transactions.
    Preparing,
    /// Waiting for the transaction signed with a target expiry.
    Signing {
        /// Expiry height committed to.
        target: BlockHeight,
    },
    /// Waiting for the tip to submit under.
    ReadingTip {
        /// The signed transactions.
        prepared: Vec<PreparedTransaction>,
    },
    /// Waiting for the current transaction's row to be persisted.
    Recording {
        /// The submission.
        run: SubmissionRun,
    },
    /// Waiting for the submitter.
    Submitting {
        /// The submission.
        run: SubmissionRun,
    },
    /// Waiting for the current transaction's row to be removed.
    Clearing {
        /// Why the spend fails.
        failure: SpendFailure,
    },
    /// Waiting for the submission to be remembered.
    Remembering {
        /// Identifier of the (first) transaction.
        tx_id: TxId,
        /// Its expiry height.
        tx_expiry_height: BlockHeight,
        /// Visible tip at submit time, if known.
        visible_tip: Option<BlockHeight>,
    },
    /// The spend is over.
    Finished,
}

/// One spend.
#[derive(Debug)]
pub struct SpendFlow {
    /// Account that funds the spend.
    pub account_id: AccountId,
    /// Key under which the submission is remembered.
    pub idempotency: IdempotencyKey,
    /// Whether the spend pays a TEX address.
    pub pays_tex: bool,
    /// Where the spend stands.
    pub stage: SpendStage,
}

impl SubmissionRun {
    /// The current transaction exists.
    pub open spec fn is_under_way(self) -> bool {
        self.position < self.prepared@.len()
    }

    /// Once a transaction was delivered, the first one is kept.
    pub open spec fn keeps_the_first(self) -> bool {
        self.first == if self.position == 0 {
            None
        } else {
            Some((self.prepared@[0].tx_id, self.prepared@[0].tx_expiry_height))
        }
    }

    /// The current transaction.
    pub open spec fn current(self) -> PreparedTransaction
        recommends
            self.is_under_way(),
    {
        self.prepared@[self.position as int]
    }

    /// The submission after the current transaction was delivered.
    pub open spec fn delivered(self) -> SubmissionRun {
        SubmissionRun {
            position: (self.position + 1) as usize,
            first: match self.first {
                Some(first) => Some(first),
                None => Some((self.current().tx_id, self.current().tx_expiry_height)),
            },
            ..self
        }
    }

    /// Where the spend goes with this submission: the current transaction is recorded if it
    /// locks outpoints and submitted if it locks none; after the last one, the submission is
    /// remembered.
    pub open spec fn proceeds(self) -> (SpendStage, SpendRequest) {
        if self.is_under_way() {
            if self.current().transparent_inputs@.len() == 0 {
                (SpendStage::Submitting { run: self }, SpendRequest::Submit)
            } else {
                (SpendStage::Recording { run: self }, SpendRequest::RecordPending)
            }
        } else {
            match self.first {
                Some(first) => (
                    SpendStage::Remembering {
                        tx_id: first.0,
                        tx_expiry_height: first.1,
                        visible_tip: self.visible_tip,
                    },
                    SpendRequest::Remember { tx_id: first.0 },
                ),
                None => (
                    SpendStage::Finished,
                    SpendRequest::Finish(SpendEnd::Failed(SpendFailure::NothingConstructed)),
                ),
            }
        }
    }

    fn proceed(self) -> (next: (SpendStage, SpendRequest))
        ensures
            next == self.proceeds(),
    {
        if self.position < self.prepared.len() {
            if self.prepared[self.position].transparent_inputs.len() == 0 {
                (SpendStage::Submitting { run: self }, SpendRequest::Submit)
            } else {
                (SpendStage::Recording { run: self }, SpendRequest::RecordPending)
            }
        } else {
            match self.first {
                Some((tx_id, tx_expiry_height)) => (
                    SpendStage::Remembering {
                        tx_id,
                        tx_expiry_height,
                        visible_tip: self.visible_tip,
                    },
                    SpendRequest::Remember { tx_id },
                ),
                None => (
                    SpendStage::Finished,
                    SpendRequest::Finish(SpendEnd::Failed(SpendFailure::NothingConstructed)),
                ),
            }
        }
    }
}

/// The guards of a spend passed, or `error` is the first that did not.
pub open spec fn send_guard_fails(
    plan: SendPaymentPlan,
    wallet_network: Network,
    error: WalletError,
) -> bool {
    if !crate::spend::payment_passes(plan.recipient, plan.memo, plan.amount_zat, wallet_network) {
        crate::spend::payment_guard_fails(
            plan.recipient,
            plan.memo,
            plan.amount_zat,
            wallet_network,
            error,
        )
    } else {
        error == (WalletError::NetworkMismatch {
            storage: wallet_network,
            requested: plan.submitter_network,
        })
    }
}

impl SpendFlow {
    /// The payment that waits to be prepared or signed.
    pub open spec fn payment(self) -> Option<ProposalPaymentRequest> {
        match self.stage {
            SpendStage::LookingUp { intent: SpendIntent::Pay { request, .. } } => Some(request),
            SpendStage::CheckingTarget { request, .. } => Some(request),
            SpendStage::Unsealing { intent: SpendIntent::Pay { request, .. } } => Some(request),
            SpendStage::ListingPending { intent: SpendIntent::Pay { request, .. } } => Some(
                request,
            ),
            _ => None,
        }
    }

    /// Begins a payment: recipient network, memo, amount, and submitter network are checked, in
    /// this order, before anything else happens.
    pub fn begin_send(plan: &SendPaymentPlan, wallet_network: Network) -> (flow: Result<
        SpendFlow,
        WalletError,
    >)
        ensures
            flow is Ok <==> crate::spend::payment_passes(
                plan.recipient,
                plan.memo,
                plan.amount_zat,
                wallet_network,
            ) && plan.submitter_network == wallet_network,
            flow matches Err(error) ==> send_guard_fails(*plan, wallet_network, error),
            flow matches Ok(f) ==> {
                &&& f.stage matches SpendStage::LookingUp {
                    intent: SpendIntent::Pay { request, target_expiry_height },
                }
                &&& request.asks_for(
                    plan.account_id,
                    plan.recipient,
                    plan.amount_zat,
                    plan.memo,
                    None,
                )
                &&& target_expiry_height == plan.target_expiry_height
                &&& f == (SpendFlow {
                    account_id: plan.account_id,
                    idempotency: plan.idempotency,
                    pays_tex: plan.recipient.kind_spec() is Tex,
                    stage: f.stage,
                })
            },
    {
        match validate_payment(&plan.recipient, &plan.memo, plan.amount_zat, wallet_network) {
            Ok(()) => {},
            Err(error) => return Err(error),
        }
        match require_same_network(wallet_network, plan.submitter_network) {
            Ok(()) => {},
            Err(error) => return Err(error),
        }
        Ok(
            SpendFlow {
                account_id: plan.account_id,
                idempotency: plan.idempotency.clone(),
                pays_tex: plan.recipient.is_tex(),
                stage: SpendStage::LookingUp {
                    intent: SpendIntent::Pay {
                        request: ProposalPaymentRequest::for_payment(
                            plan.account_id,
                            &plan.recipient,
                            plan.amount_zat,
                            &plan.memo,
                            None,
                        ),
                        target_expiry_height: plan.target_expiry_height,
                    },
                },
            },
        )
    }

    /// Begins a shielding: threshold and submitter network are checked, in this order.
    pub fn begin_shield(plan: &ShieldTransparentPlan, wallet_network: Network) -> (flow: Result<
        SpendFlow,
        WalletError,
    >)
        ensures
            flow is Ok <==> plan.shielding_threshold_zat@ != 0 && plan.submitter_network
                == wallet_network,
            flow matches Err(error) ==> if plan.shielding_threshold_zat@ == 0 {
                error.rejected_with("amount must be greater than zero zatoshis"@)
            } else {
                error == (WalletError::NetworkMismatch {
                    storage: wallet_network,
                    requested: plan.submitter_network,
                })
            },
            flow matches Ok(f) ==> f == (SpendFlow {
                account_id: plan.account_id,
                idempotency: plan.idempotency,
                pays_tex: false,
                stage: SpendStage::LookingUp {
                    intent: SpendIntent::Shield {
                        shielding_threshold_zat: plan.shielding_threshold_zat,
                        destination_pool: plan.destination_pool,
                    },
                },
            }),
    {
        match validate_non_zero(plan.shielding_threshold_zat) {
            Ok(()) => {},
            Err(error) => return Err(error),
        }
        match require_same_network(wallet_network, plan.submitter_network) {
            Ok(()) => {},
            Err(error) => return Err(error),
        }
        Ok(
            SpendFlow {
                account_id: plan.account_id,
                idempotency: plan.idempotency.clone(),
                pays_tex: false,
                stage: SpendStage::LookingUp {
                    intent: SpendIntent::Shield {
                        shielding_threshold_zat: plan.shielding_threshold_zat,
                        destination_pool: plan.destination_pool,
                    },
                },
            },
        )
    }

    /// Whether the spend waits for an event of this kind.
    pub open spec fn expects(self, event: SpendEvent) -> bool {
        match event {
            SpendEvent::Prior(_) => self.stage is LookingUp,
            SpendEvent::Tip(_) => self.stage is Replaying || self.stage is CheckingTarget
                || self.stage is ReadingTip,
            SpendEvent::Done => self.stage is Unsealing || self.stage is Recording
                || self.stage is Clearing || self.stage is Remembering,
            SpendEvent::PendingListed(_) => self.stage is ListingPending,
            SpendEvent::Prepared(_) => self.stage is Preparing || self.stage is Signing,
            SpendEvent::Submitted(_) => self.stage is Submitting,
            SpendEvent::Failed(_) => !(self.stage is Submitting) && !(self.stage is Finished),
        }
    }

    /// Whether the spend waits for an event of this kind.
    pub fn accepts(&self, event: &SpendEvent) -> (accepted: bool)
        ensures
            accepted == self.expects(*event),
    {
        match (&self.stage, event) {
            (SpendStage::Submitting { .. }, SpendEvent::Submitted(_)) => true,
            (SpendStage::Submitting { .. }, _) => false,
            (SpendStage::Finished, _) => false,
            (_, SpendEvent::Failed(_)) => true,
            (SpendStage::LookingUp { .. }, SpendEvent::Prior(_)) => true,
            (SpendStage::Replaying { .. }, SpendEvent::Tip(_)) => true,
            (SpendStage::CheckingTarget { .. }, SpendEvent::Tip(_)) => true,
            (SpendStage::ReadingTip { .. }, SpendEvent::Tip(_)) => true,
            (SpendStage::Unsealing { .. }, SpendEvent::Done) => true,
            (SpendStage::Recording { .. }, SpendEvent::Done) => true,
            (SpendStage::Clearing { .. }, SpendEvent::Done) => true,
            (SpendStage::Remembering { .. }, SpendEvent::Done) => true,
            (SpendStage::ListingPending { .. }, SpendEvent::PendingListed(_)) => true,
            (SpendStage::Preparing, SpendEvent::Prepared(_)) => true,
            (SpendStage::Signing { .. }, SpendEvent::Prepared(_)) => true,
            _ => false,
        }
    }

    /// A submission under way has a current transaction and remembers the first one, what is
    /// submitted pays no TEX recipient from shielded notes, and what is cleared was not
    /// delivered.
    pub open spec fn wf(self) -> bool {
        match self.stage {
            SpendStage::ReadingTip { prepared } => !self.pays_tex_from_shielded(prepared@),
            SpendStage::Recording { run } => run.is_under_way() && run.keeps_the_first()
                && !self.pays_tex_from_shielded(run.prepared@),
            SpendStage::Submitting { run } => run.is_under_way() && run.keeps_the_first()
                && !self.pays_tex_from_shielded(run.prepared@),
            SpendStage::Clearing { failure } => SpendEnd::Failed(failure).is_real_failure(),
            _ => true,
        }
    }

    /// Whether these transactions break ZIP-320: the recipient is a TEX address, and one of
    /// them pays it while it spends shielded notes.
    pub open spec fn pays_tex_from_shielded(self, prepared: Seq<PreparedTransaction>) -> bool {
        &&& self.pays_tex
        &&& exists|i: int|
            0 <= i < prepared.len() && (#[trigger] prepared[i]).spends_shielded
                && prepared[i].pays_recipient
    }

    /// The stage and request that an event leads to.
    pub open spec fn moved(self, event: SpendEvent, now_ms: u64) -> (SpendStage, SpendRequest) {
        match (self.stage, event) {
            (SpendStage::Clearing { failure }, _) => (
                SpendStage::Finished,
                SpendRequest::Finish(SpendEnd::Failed(failure)),
            ),
            (_, SpendEvent::Failed(error)) => failing(SpendFailure::Error(error)),
            (SpendStage::LookingUp { .. }, SpendEvent::Prior(Some(tx_id))) => (
                SpendStage::Replaying { tx_id },
                SpendRequest::ReadTip,
            ),
            (SpendStage::LookingUp { intent }, SpendEvent::Prior(None)) => match intent {
                SpendIntent::Pay { request, target_expiry_height: Some(target) } => (
                    SpendStage::CheckingTarget { request, target },
                    SpendRequest::ReadTip,
                ),
                intent => (SpendStage::Unsealing { intent }, SpendRequest::Unseal),
            },
            (SpendStage::Replaying { tx_id }, SpendEvent::Tip(visible_tip)) => (
                SpendStage::Finished,
                SpendRequest::Finish(
                    SpendEnd::Sent { tx_id, tx_expiry_height: BlockHeight(0), visible_tip },
                ),
            ),
            (SpendStage::CheckingTarget { request, target }, SpendEvent::Tip(visible_tip)) => {
                let chain_tip = crate::spend::tip_or_zero_spec(visible_tip);
                if target.0 <= chain_tip.0 {
                    failing(
                        SpendFailure::Error(
                            WalletError::TargetExpiryStale { target, chain_tip },
                        ),
                    )
                } else {
                    (
                        SpendStage::Signing { target },
                        SpendRequest::SignWithExpiry { request, target },
                    )
                }
            },
            (SpendStage::Unsealing { intent }, SpendEvent::Done) => (
                SpendStage::ListingPending { intent },
                SpendRequest::ListPending,
            ),
            (SpendStage::ListingPending { intent }, SpendEvent::PendingListed(excluded)) => {
                match intent {
                    SpendIntent::Pay { request, .. } => (
                        SpendStage::Preparing,
                        SpendRequest::PreparePayment { request, excluded },
                    ),
                    SpendIntent::Shield { shielding_threshold_zat, destination_pool } => {
                        let protocol = match destination_pool {
                            Some(pool) => crate::spend::protocol_pool_of(pool),
                            None => None,
                        };
                        if destination_pool is Some && protocol is None {
                            failing(SpendFailure::UnsupportedPool)
                        } else {
                            (
                                SpendStage::Preparing,
                                SpendRequest::PrepareShielding {
                                    request: ShieldTransparentRequest {
                                        account_id: self.account_id,
                                        shielding_threshold_zat,
                                        destination_pool: protocol,
                                    },
                                    excluded,
                                },
                            )
                        }
                    },
                }
            },
            (SpendStage::Preparing, SpendEvent::Prepared(prepared)) => {
                if self.pays_tex_from_shielded(prepared@) {
                    failing(SpendFailure::Error(WalletError::ShieldedInputsOnTexRecipient))
                } else {
                    (SpendStage::ReadingTip { prepared }, SpendRequest::ReadTip)
                }
            },
            (SpendStage::Signing { target }, SpendEvent::Prepared(prepared)) => {
                if self.pays_tex_from_shielded(prepared@) {
                    failing(SpendFailure::Error(WalletError::ShieldedInputsOnTexRecipient))
                } else if prepared@.len() == 0 {
                    failing(SpendFailure::NothingConstructed)
                } else if prepared@.len() > 1 {
                    failing(SpendFailure::SeveralConstructed)
                } else if prepared@[0].tx_expiry_height != target {
                    failing(
                        SpendFailure::Error(
                            WalletError::TargetExpiryMismatch {
                                target,
                                signed: prepared@[0].tx_expiry_height,
                            },
                        ),
                    )
                } else {
                    (SpendStage::ReadingTip { prepared }, SpendRequest::ReadTip)
                }
            },
            (SpendStage::ReadingTip { prepared }, SpendEvent::Tip(visible_tip)) => {
                (SubmissionRun {
                    prepared,
                    position: 0,
                    visible_tip,
                    broadcast_at_ms: now_ms,
                    first: None,
                }).proceeds()
            },
            (SpendStage::Recording { run }, SpendEvent::Done) => (
                SpendStage::Submitting { run },
                SpendRequest::Submit,
            ),
            (SpendStage::Submitting { run }, SpendEvent::Submitted(Err(error))) => clearing(
                SpendFailure::Error(error),
                run.current().tx_id,
            ),
            (SpendStage::Submitting { run }, SpendEvent::Submitted(Ok(outcome))) => {
                let expected = run.current().tx_id;
                if crate::spend::submitted_tx_id(outcome) == Some(expected) {
                    run.delivered().proceeds()
                } else {
                    clearing(SpendFailure::Undelivered { outcome, expected }, expected)
                }
            },
            (
                SpendStage::Remembering { tx_id, tx_expiry_height, visible_tip },
                SpendEvent::Done,
            ) => (
                SpendStage::Finished,
                SpendRequest::Finish(SpendEnd::Sent { tx_id, tx_expiry_height, visible_tip }),
            ),
            (stage, _) => (stage, SpendRequest::FindPrior),
        }
    }

    /// Takes in an event and decides what follows.
    pub fn step(self, event: SpendEvent, now_ms: u64) -> (next: (SpendFlow, SpendRequest))
        requires
            self.expects(event),
            self.wf(),
        ensures
            next.0 == (SpendFlow { stage: self.moved(event, now_ms).0, ..self }),
            next.1 == self.moved(event, now_ms).1,
            next.0.wf(),
            next.1 matches SpendRequest::Finish(end) ==> end.is_real_failure(),
    {
        let account_id = self.account_id;
        let pays_tex = self.pays_tex;
        let idempotency = self.idempotency;
        let (stage, request) = match (self.stage, event) {
            (SpendStage::Clearing { failure }, _) => finish(SpendEnd::Failed(failure)),
            (_, SpendEvent::Failed(error)) => finish(SpendEnd::Failed(SpendFailure::Error(error))),
            (SpendStage::LookingUp { .. }, SpendEvent::Prior(Some(tx_id))) => (
                SpendStage::Replaying { tx_id },
                SpendRequest::ReadTip,
            ),
            (SpendStage::LookingUp { intent }, SpendEvent::Prior(None)) => match intent {
                SpendIntent::Pay { request, target_expiry_height: Some(target) } => (
                    SpendStage::CheckingTarget { request, target },
                    SpendRequest::ReadTip,
                ),
                intent => (SpendStage::Unsealing { intent }, SpendRequest::Unseal),
            },
            (SpendStage::Replaying { tx_id }, SpendEvent::Tip(visible_tip)) => finish(
                SpendEnd::Sent { tx_id, tx_expiry_height: BlockHeight(0), visible_tip },
            ),
            (SpendStage::CheckingTarget { request, target }, SpendEvent::Tip(visible_tip)) => {
                let chain_tip = tip_or_zero(visible_tip);
                if target.0 <= chain_tip.0 {
                    finish(
                        SpendEnd::Failed(
                            SpendFailure::Error(
                                WalletError::TargetExpiryStale { target, chain_tip },
                            ),
                        ),
                    )
                } else {
                    (
                        SpendStage::Signing { target },
                        SpendRequest::SignWithExpiry { request, target },
                    )
                }
            },
            (SpendStage::Unsealing { intent }, SpendEvent::Done) => (
                SpendStage::ListingPending { intent },
                SpendRequest::ListPending,
            ),
            (
                SpendStage::ListingPending { intent },
                SpendEvent::PendingListed(excluded),
            ) => match intent {
                SpendIntent::Pay { request, .. } => (
                    SpendStage::Preparing,
                    SpendRequest::PreparePayment { request, excluded },
                ),
                SpendIntent::Shield { shielding_threshold_zat, destination_pool } => {
                    let protocol = match destination_pool {
                        Some(pool) => match protocol_shielded_pool(pool) {
                            Ok(protocol) => Ok(Some(protocol)),
                            Err(_) => Err(SpendFailure::UnsupportedPool),
                        },
                        None => Ok(None),
                    };
                    match protocol {
                        Ok(destination_pool) => (
                            SpendStage::Preparing,
                            SpendRequest::PrepareShielding {
                                request: ShieldTransparentRequest {
                                    account_id,
                                    shielding_threshold_zat,
                                    destination_pool,
                                },
                                excluded,
                            },
                        ),
                        Err(failure) => finish(SpendEnd::Failed(failure)),
                    }
                },
            },
            (SpendStage::Preparing, SpendEvent::Prepared(prepared)) => {
                if pays_tex && pays_from_shielded(&prepared) {
                    finish(
                        SpendEnd::Failed(
                            SpendFailure::Error(WalletError::ShieldedInputsOnTexRecipient),
                        ),
                    )
                } else {
                    (SpendStage::ReadingTip { prepared }, SpendRequest::ReadTip)
                }
            },
            (SpendStage::Signing { target }, SpendEvent::Prepared(prepared)) => {
                if pays_tex && pays_from_shielded(&prepared) {
                    finish(
                        SpendEnd::Failed(
                            SpendFailure::Error(WalletError::ShieldedInputsOnTexRecipient),
                        ),
                    )
                } else if prepared.len() == 0 {
                    finish(SpendEnd::Failed(SpendFailure::NothingConstructed))
                } else if prepared.len() > 1 {
                    finish(SpendEnd::Failed(SpendFailure::SeveralConstructed))
                } else if prepared[0].tx_expiry_height != target {
                    finish(
                        SpendEnd::Failed(
                            SpendFailure::Error(
                                WalletError::TargetExpiryMismatch {
                                    target,
                                    signed: prepared[0].tx_expiry_height,
                                },
                            ),
                        ),
                    )
                } else {
                    (SpendStage::ReadingTip { prepared }, SpendRequest::ReadTip)
                }
            },
            (SpendStage::ReadingTip { prepared }, SpendEvent::Tip(visible_tip)) => {
                let run = SubmissionRun {
                    prepared,
                    position: 0,
                    visible_tip,
                    broadcast_at_ms: now_ms,
                    first: None,
                };
                run.proceed()
            },
            (SpendStage::Recording { run }, SpendEvent::Done) => (
                SpendStage::Submitting { run },
                SpendRequest::Submit,
            ),
            (SpendStage::Submitting { run }, SpendEvent::Submitted(submitted)) => take_submission(
                run,
                submitted,
            ),
            (
                SpendStage::Remembering { tx_id, tx_expiry_height, visible_tip },
                SpendEvent::Done,
            ) => finish(SpendEnd::Sent { tx_id, tx_expiry_height, visible_tip }),
            (stage, _) => (stage, SpendRequest::FindPrior),
        };
        (SpendFlow { account_id, idempotency, pays_tex, stage }, request)
    }

    /// The transaction being recorded or submitted, if one is.
    pub open spec fn current_spec(self) -> Option<PreparedTransaction> {
        match self.stage {
            SpendStage::Recording { run } => Some(run.current()),
            SpendStage::Submitting { run } => Some(run.current()),
            _ => None,
        }
    }

    /// The transaction being recorded or submitted, if one is.
    pub fn current(&self) -> (current: Option<&PreparedTransaction>)
        requires
            self.wf(),
        ensures
            match (current, self.current_spec()) {
                (Some(transaction), Some(spec)) => *transaction == spec,
                (None, None) => true,
                _ => false,
            },
    {
        match &self.stage {
            SpendStage::Recording { run } => Some(&run.prepared[run.position]),
            SpendStage::Submitting { run } => Some(&run.prepared[run.position]),
            _ => None,
        }
    }

    /// The pending-broadcast row of the transaction being recorded.
    pub fn pending_record(&self) -> (record: Option<PendingBroadcastRecord>)
        requires
            self.wf(),
        ensures
            match (record, self.stage) {
                (Some(row), SpendStage::Recording { run }) => {
                    &&& row.broadcast_tx_id == run.current().tx_id
                    &&& row.account_id == self.account_id
                    &&& row.broadcast_at_ms == run.broadcast_at_ms
                    &&& row.broadcast_at_height == run.visible_tip
                    &&& row.inputs@ == run.current().transparent_inputs@
                },
                (None, stage) => !(stage is Recording),
                _ => false,
            },
    {
        match &self.stage {
            SpendStage::Recording { run } => {
                let transaction = &run.prepared[run.position];
                Some(
                    PendingBroadcastRecord {
                        broadcast_tx_id: transaction.tx_id,
                        account_id: self.account_id,
                        broadcast_at_ms: run.broadcast_at_ms,
                        broadcast_at_height: run.visible_tip,
                        inputs: copy_inputs(&transaction.transparent_inputs),
                    },
                )
            },
            _ => None,
        }
    }
}

fn copy_inputs(inputs: &Vec<(OutPoint, Zatoshis)>) -> (copy: Vec<(OutPoint, Zatoshis)>)
    ensures
        copy@ == inputs@,
{
    let mut copy: Vec<(OutPoint, Zatoshis)> = Vec::new();
    let mut index: usize = 0;
    while index < inputs.len()
        invariant
            index <= inputs@.len(),
            copy@ == inputs@.take(index as int),
        decreases inputs@.len() - index,
    {
        copy.push(inputs[index]);
        index += 1;
        assert(inputs@.take(index as int) =~= inputs@.take(index - 1).push(inputs@[index - 1]));
    }
    assert(inputs@.take(inputs@.len() as int) =~= inputs@);
    copy
}

/// The move of a spend that fails.
pub open spec fn failing(failure: SpendFailure) -> (SpendStage, SpendRequest) {
    (SpendStage::Finished, SpendRequest::Finish(SpendEnd::Failed(failure)))
}

/// The move of a spend whose submission failed: its row is removed first.
pub open spec fn clearing(failure: SpendFailure, tx_id: TxId) -> (SpendStage, SpendRequest) {
    (SpendStage::Clearing { failure }, SpendRequest::ClearPending { tx_id })
}

fn finish(end: SpendEnd) -> (next: (SpendStage, SpendRequest))
    ensures
        next == (SpendStage::Finished, SpendRequest::Finish(end)),
{
    (SpendStage::Finished, SpendRequest::Finish(end))
}

fn pays_from_shielded(prepared: &Vec<PreparedTransaction>) -> (found: bool)
    ensures
        found == exists|i: int|
            0 <= i < prepared@.len() && (#[trigger] prepared@[i]).spends_shielded
                && prepared@[i].pays_recipient,
{
    let mut index: usize = 0;
    while index < prepared.len()
        invariant
            index <= prepared@.len(),
            forall|i: int|
                0 <= i < index ==> !((#[trigger] prepared@[i]).spends_shielded
                    && prepared@[i].pays_recipient),
        decreases prepared@.len() - index,
    {
        if prepared[index].spends_shielded && prepared[index].pays_recipient {
            assert(prepared@[index as int].spends_shielded);
            return true;
        }
        index += 1;
    }
    false
}

fn take_submission(run: SubmissionRun, submitted: Result<SubmitOutcome, WalletError>) -> (next: (
    SpendStage,
    SpendRequest,
))
    requires
        run.is_under_way(),
    ensures
        run.prepared@.len() <= usize::MAX,
        match submitted {
            Err(error) => next == clearing(SpendFailure::Error(error), run.current().tx_id),
            Ok(outcome) => next == if crate::spend::submitted_tx_id(outcome) == Some(
                run.current().tx_id,
            ) {
                run.delivered().proceeds()
            } else {
                clearing(
                    SpendFailure::Undelivered { outcome, expected: run.current().tx_id },
                    run.current().tx_id,
                )
            },
        },
{
    let count: usize = run.prepared.len();
    assert(run.position < count);
    let expected = run.prepared[run.position].tx_id;
    let tx_expiry_height = run.prepared[run.position].tx_expiry_height;
    let outcome = match submitted {
        Err(error) => {
            return (
                SpendStage::Clearing { failure: SpendFailure::Error(error) },
                SpendRequest::ClearPending { tx_id: expected },
            );
        },
        Ok(outcome) => outcome,
    };
    let delivered = match &outcome {
        SubmitOutcome::Accepted { tx_id } => *tx_id == expected,
        SubmitOutcome::Duplicate { tx_id } => *tx_id == expected,
        SubmitOutcome::Queued { tx_id } => *tx_id == expected,
        _ => false,
    };
    if delivered {
        let first = match run.first {
            Some(first) => Some(first),
            None => Some((expected, tx_expiry_height)),
        };
        let advanced = SubmissionRun {
            prepared: run.prepared,
            position: run.position + 1,
            visible_tip: run.visible_tip,
            broadcast_at_ms: run.broadcast_at_ms,
            first,
        };
        advanced.proceed()
    } else {
        (
            SpendStage::Clearing { failure: SpendFailure::Undelivered { outcome, expected } },
            SpendRequest::ClearPending { tx_id: expected },
        )
    }
}

} // verus!
