//! Spend plans, their guards, and what a spend yields.

use crate::boundary_error::RejectionReason;
use crate::domain::{
    AccountId, BlockHeight, IdempotencyKey, Network, OutPoint, ProtocolPool, ShieldedPool, TxId,
    Zatoshis,
};
use crate::error::WalletError;
use crate::outpoint_set::OutPointSet;
use crate::payment::{Memo, PaymentRecipient};
use crate::pending_transparent_inputs::PendingTransparentInput;
use vstd::prelude::*;

verus! {

/// A spend proposal built by storage, as the caller sees it.
#[derive(Clone, Copy, Debug)]
pub struct Proposal {
    total_zat: Zatoshis,
    fee_zat: Zatoshis,
    expiry_height: BlockHeight,
    output_count: usize,
}

/// A spend proposal as storage summarises it.
#[derive(Clone, Copy, Debug)]
pub struct ProposalSummary {
    /// Sum of recipient amounts.
    pub total_zat: Zatoshis,
    /// Fee of the proposal.
    pub fee_zat: Zatoshis,
    /// Lowest height the proposal targets.
    pub min_target_height: BlockHeight,
    /// Number of recipient outputs.
    pub output_count: usize,
}

impl Proposal {
    /// The proposal of a storage summary.
    pub closed spec fn summarises(&self, summary: ProposalSummary) -> bool {
        &&& self.total_zat == summary.total_zat
        &&& self.fee_zat == summary.fee_zat
        &&& self.expiry_height == summary.min_target_height
        &&& self.output_count == summary.output_count
    }

    /// Reads a proposal off a storage summary.
    pub fn from_storage_summary(summary: ProposalSummary) -> (proposal: Proposal)
        ensures
            proposal.summarises(summary),
            proposal.total_spec() == summary.total_zat,
            proposal.fee_spec() == summary.fee_zat,
            proposal.expiry_spec() == summary.min_target_height,
            proposal.output_count_spec() == summary.output_count,
    {
        Proposal {
            total_zat: summary.total_zat,
            fee_zat: summary.fee_zat,
            expiry_height: summary.min_target_height,
            output_count: summary.output_count,
        }
    }

    /// Total value transferred.
    pub closed spec fn total_spec(&self) -> Zatoshis {
        self.total_zat
    }

    /// Fee paid.
    pub closed spec fn fee_spec(&self) -> Zatoshis {
        self.fee_zat
    }

    /// Expiry height chosen.
    pub closed spec fn expiry_spec(&self) -> BlockHeight {
        self.expiry_height
    }

    /// Number of recipient outputs.
    pub closed spec fn output_count_spec(&self) -> usize {
        self.output_count
    }

    /// Total value transferred by this proposal (sum of recipient amounts).
    pub fn total_zat(&self) -> (total: Zatoshis)
        ensures
            total == self.total_spec(),
    {
        self.total_zat
    }

    /// Fee paid by this proposal.
    pub fn fee_zat(&self) -> (fee: Zatoshis)
        ensures
            fee == self.fee_spec(),
    {
        self.fee_zat
    }

    /// Expiry height chosen by the proposal (ZIP-203).
    pub fn expiry_height(&self) -> (height: BlockHeight)
        ensures
            height == self.expiry_spec(),
    {
        self.expiry_height
    }

    /// Number of recipient outputs.
    pub fn output_count(&self) -> (count: usize)
        ensures
            count == self.output_count_spec(),
    {
        self.output_count
    }
}

/// Facts of a fully signed transaction.
#[derive(Clone, Copy, Debug)]
pub struct SignedPczt {
    /// Transaction identifier of the signed transaction.
    pub tx_id: TxId,
    /// Fee allocated by the proposal builder. Zero where the fee is not threaded through.
    pub fee_zat: Zatoshis,
    /// Block height at which consensus will reject this transaction if it has not been mined.
    pub tx_expiry_height: BlockHeight,
}

/// Facts of a successful broadcast.
#[derive(Clone, Copy, Debug)]
pub struct BroadcastOutcome {
    /// Transaction identifier as confirmed by the broadcast plane.
    pub tx_id: TxId,
    /// Height at which the broadcast was observed. Zero when no tip was known at submit time.
    pub broadcast_at_height: BlockHeight,
}

/// Composed result of a spend: signed and broadcast facts.
#[derive(Clone, Copy, Debug)]
pub struct SendOutcome {
    /// Sign-phase facts.
    pub signed: SignedPczt,
    /// Broadcast-phase facts.
    pub broadcast: BroadcastOutcome,
}

impl SendOutcome {
    /// Both phases speak of this transaction, no fee is reported, and a missing tip reads as
    /// height zero.
    pub open spec fn reports(
        self,
        tx_id: TxId,
        tx_expiry_height: BlockHeight,
        visible_tip: Option<BlockHeight>,
    ) -> bool {
        &&& self.signed.tx_id == tx_id
        &&& self.signed.fee_zat@ == 0
        &&& self.signed.tx_expiry_height == tx_expiry_height
        &&& self.broadcast.tx_id == tx_id
        &&& self.broadcast.broadcast_at_height == tip_or_zero_spec(visible_tip)
    }

    /// The outcome of a spend of this transaction.
    pub fn of(
        tx_id: TxId,
        tx_expiry_height: BlockHeight,
        visible_tip: Option<BlockHeight>,
    ) -> (outcome: SendOutcome)
        ensures
            outcome.reports(tx_id, tx_expiry_height, visible_tip),
    {
        SendOutcome {
            signed: SignedPczt { tx_id, fee_zat: Zatoshis::zero(), tx_expiry_height },
            broadcast: BroadcastOutcome {
                tx_id,
                broadcast_at_height: tip_or_zero(visible_tip),
            },
        }
    }

    /// Convenience accessor for the transaction id common to both phases.
    pub fn tx_id(&self) -> (tx_id: TxId)
        ensures
            tx_id == self.signed.tx_id,
    {
        self.signed.tx_id
    }
}

/// A known tip, or height zero.
pub open spec fn tip_or_zero_spec(visible_tip: Option<BlockHeight>) -> BlockHeight {
    match visible_tip {
        Some(tip) => tip,
        None => BlockHeight(0),
    }
}

/// A known tip, or height zero.
pub fn tip_or_zero(visible_tip: Option<BlockHeight>) -> (tip: BlockHeight)
    ensures
        tip == tip_or_zero_spec(visible_tip),
{
    match visible_tip {
        Some(tip) => tip,
        None => BlockHeight(0),
    }
}

/// Inputs to a proposal.
#[derive(Clone, Debug)]
pub struct ProposalPlan {
    /// Account that funds the proposal.
    pub account_id: AccountId,
    /// Payment recipient.
    pub recipient: PaymentRecipient,
    /// Amount to send.
    pub amount_zat: Zatoshis,
    /// Optional memo (rejected for transparent recipients).
    pub memo: Option<Memo>,
    /// Shielded pool from which inputs may be selected. `None` permits the wallet's default
    /// multi-pool selection policy.
    pub source_pool: Option<ShieldedPool>,
}

impl ProposalPlan {
    /// Constructs a ZIP-317 conventional-fee proposal plan.
    pub fn conventional(
        account_id: AccountId,
        recipient: PaymentRecipient,
        amount_zat: Zatoshis,
        memo: Option<Memo>,
    ) -> (plan: ProposalPlan)
        ensures
            plan == (ProposalPlan { account_id, recipient, amount_zat, memo, source_pool: None }),
    {
        ProposalPlan { account_id, recipient, amount_zat, memo, source_pool: None }
    }

    /// Restricts shielded input selection to `source_pool`.
    pub fn with_source_pool(self, source_pool: ShieldedPool) -> (plan: ProposalPlan)
        ensures
            plan == (ProposalPlan { source_pool: Some(source_pool), ..self }),
    {
        ProposalPlan { source_pool: Some(source_pool), ..self }
    }

    /// Shielded pool from which inputs may be selected, if restricted.
    pub fn source_pool(&self) -> (pool: Option<ShieldedPool>)
        ensures
            pool == self.source_pool,
    {
        self.source_pool
    }
}

/// Inputs to a send.
#[derive(Debug)]
pub struct SendPaymentPlan {
    /// Account that funds the send.
    pub account_id: AccountId,
    /// Caller-supplied idempotency key.
    pub idempotency: IdempotencyKey,
    /// Payment recipient.
    pub recipient: PaymentRecipient,
    /// Amount to send.
    pub amount_zat: Zatoshis,
    /// Optional memo (rejected for transparent recipients).
    pub memo: Option<Memo>,
    /// Caller-supplied expiry height to commit to. `None` leaves the expiry to the wallet.
    pub target_expiry_height: Option<BlockHeight>,
    /// Network of the submitter that delivers the signed transaction.
    pub submitter_network: Network,
}

impl SendPaymentPlan {
    /// Constructs a ZIP-317 conventional-fee send plan with no memo and no target expiry.
    pub fn conventional(
        account_id: AccountId,
        idempotency: IdempotencyKey,
        recipient: PaymentRecipient,
        amount_zat: Zatoshis,
        submitter_network: Network,
    ) -> (plan: SendPaymentPlan)
        ensures
            plan == (SendPaymentPlan {
                account_id,
                idempotency,
                recipient,
                amount_zat,
                memo: None,
                target_expiry_height: None,
                submitter_network,
            }),
    {
        SendPaymentPlan {
            account_id,
            idempotency,
            recipient,
            amount_zat,
            memo: None,
            target_expiry_height: None,
            submitter_network,
        }
    }

    /// Returns the plan with `memo` attached.
    pub fn with_memo(self, memo: Memo) -> (plan: SendPaymentPlan)
        ensures
            plan == (SendPaymentPlan { memo: Some(memo), ..self }),
    {
        SendPaymentPlan { memo: Some(memo), ..self }
    }

    /// Returns the plan with `target_expiry_height` set.
    pub fn with_target_expiry_height(self, height: BlockHeight) -> (plan: SendPaymentPlan)
        ensures
            plan == (SendPaymentPlan { target_expiry_height: Some(height), ..self }),
    {
        SendPaymentPlan { target_expiry_height: Some(height), ..self }
    }
}

/// Inputs to a shielding of transparent funds.
#[derive(Debug)]
pub struct ShieldTransparentPlan {
    /// Account whose transparent UTXOs are shielded.
    pub account_id: AccountId,
    /// Caller-supplied idempotency key.
    pub idempotency: IdempotencyKey,
    /// Minimum total transparent input value to shield.
    pub shielding_threshold_zat: Zatoshis,
    /// Shielded pool that receives the swept funds. `None` preserves the wallet's default.
    pub destination_pool: Option<ShieldedPool>,
    /// Network of the submitter that delivers the signed transaction.
    pub submitter_network: Network,
}

impl ShieldTransparentPlan {
    /// Constructs a transparent shielding plan.
    pub fn new(
        account_id: AccountId,
        idempotency: IdempotencyKey,
        shielding_threshold_zat: Zatoshis,
        submitter_network: Network,
    ) -> (plan: ShieldTransparentPlan)
        ensures
            plan == (ShieldTransparentPlan {
                account_id,
                idempotency,
                shielding_threshold_zat,
                destination_pool: None,
                submitter_network,
            }),
    {
        ShieldTransparentPlan {
            account_id,
            idempotency,
            shielding_threshold_zat,
            destination_pool: None,
            submitter_network,
        }
    }

    /// Returns the plan with an explicit shielded destination pool.
    pub fn with_destination_pool(self, destination_pool: ShieldedPool) -> (plan:
        ShieldTransparentPlan)
        ensures
            plan == (ShieldTransparentPlan {
                destination_pool: Some(destination_pool),
                ..self
            }),
    {
        ShieldTransparentPlan { destination_pool: Some(destination_pool), ..self }
    }

    /// Returns the explicit shielded destination pool, if one was selected.
    pub fn destination_pool(&self) -> (pool: Option<ShieldedPool>)
        ensures
            pool == self.destination_pool,
    {
        self.destination_pool
    }
}

/// Fails closed on a recipient of another network.
pub fn validate_recipient_network(recipient: &PaymentRecipient, wallet_network: Network) -> (
checked: Result<(), WalletError>)
    ensures
        recipient.network_spec() == wallet_network ==> checked is Ok,
        recipient.network_spec() != wallet_network ==> checked == Err::<(), WalletError>(
            WalletError::NetworkMismatch {
                storage: wallet_network,
                requested: recipient.network_spec(),
            },
        ),
{
    let network = recipient.network();
    if network == wallet_network {
        Ok(())
    } else {
        Err(WalletError::NetworkMismatch { storage: wallet_network, requested: network })
    }
}

/// Whether a memo may not go to a recipient: it says something, and the output is transparent.
pub open spec fn memo_forbidden(memo: Option<Memo>, recipient: PaymentRecipient) -> bool {
    memo matches Some(m) && m@ != crate::payment::no_memo() && recipient.pays_transparently()
}

/// Refuses a memo on a transparent recipient (ZIP-302). A memo that says that there is none is
/// fine anywhere.
pub fn validate_memo_against_recipient(memo: &Option<Memo>, recipient: &PaymentRecipient) -> (
checked: Result<(), WalletError>)
    ensures
        checked is Ok <==> !memo_forbidden(*memo, *recipient),
        checked matches Err(error) ==> error is MemoOnTransparentRecipient,
{
    match memo {
        None => Ok(()),
        Some(memo) => if memo.is_empty() || !recipient.is_transparent() {
            Ok(())
        } else {
            Err(WalletError::MemoOnTransparentRecipient)
        },
    }
}

/// Refuses an amount of nothing.
pub fn validate_non_zero(amount_zat: Zatoshis) -> (checked: Result<(), WalletError>)
    ensures
        checked is Ok <==> amount_zat@ != 0,
        checked matches Err(error) ==> error.rejected_with(
            "amount must be greater than zero zatoshis"@,
        ),
{
    if amount_zat.as_u64() == 0 {
        Err(
            WalletError::ProposalRejected {
                reason: "amount must be greater than zero zatoshis".to_owned(),
            },
        )
    } else {
        Ok(())
    }
}

/// The protocol's name of a pool, where this release knows the pool.
pub open spec fn protocol_pool_of(pool: ShieldedPool) -> Option<ProtocolPool> {
    match pool {
        ShieldedPool::Sapling => Some(ProtocolPool::Sapling),
        ShieldedPool::Orchard => Some(ProtocolPool::Orchard),
        ShieldedPool::Ironwood => Some(ProtocolPool::Ironwood),
        ShieldedPool::Unrecognised => None,
    }
}

/// Translates a pool into the protocol's name of it.
pub fn protocol_shielded_pool(source_pool: ShieldedPool) -> (protocol: Result<
    ProtocolPool,
    WalletError,
>)
    ensures
        match protocol_pool_of(source_pool) {
            Some(pool) => protocol == Ok::<ProtocolPool, WalletError>(pool),
            None => protocol matches Err(error) && error.rejected_with(
                "shielded pool is not supported by this release"@,
            ),
        },
{
    match source_pool {
        ShieldedPool::Sapling => Ok(ProtocolPool::Sapling),
        ShieldedPool::Orchard => Ok(ProtocolPool::Orchard),
        ShieldedPool::Ironwood => Ok(ProtocolPool::Ironwood),
        ShieldedPool::Unrecognised => Err(
            WalletError::ProposalRejected {
                reason: "shielded pool is not supported by this release".to_owned(),
            },
        ),
    }
}

/// What storage is asked to shield.
#[derive(Clone, Copy, Debug)]
pub struct ShieldTransparentRequest {
    /// Account whose transparent UTXOs are shielded.
    pub account_id: AccountId,
    /// Minimum total transparent input value to shield.
    pub shielding_threshold_zat: Zatoshis,
    /// Pool that receives the swept funds, if one was selected.
    pub destination_pool: Option<ProtocolPool>,
}

impl ShieldTransparentRequest {
    /// Pool that receives the swept funds, if one was selected.
    pub fn destination_pool(&self) -> (pool: Option<ProtocolPool>)
        ensures
            pool == self.destination_pool,
    {
        self.destination_pool
    }
}

/// Translates a shielding plan into the storage request. A destination pool that this release
/// does not know is refused.
pub fn resolve_shielding_request(plan: &ShieldTransparentPlan) -> (request: Result<
    ShieldTransparentRequest,
    WalletError,
>)
    ensures
        match plan.destination_pool {
            Some(pool) => match protocol_pool_of(pool) {
                Some(protocol) => request == Ok::<ShieldTransparentRequest, WalletError>(
                    ShieldTransparentRequest {
                        account_id: plan.account_id,
                        shielding_threshold_zat: plan.shielding_threshold_zat,
                        destination_pool: Some(protocol),
                    },
                ),
                None => request matches Err(error) && error.rejected_with(
                    "shielded pool is not supported by this release"@,
                ),
            },
            None => request == Ok::<ShieldTransparentRequest, WalletError>(
                ShieldTransparentRequest {
                    account_id: plan.account_id,
                    shielding_threshold_zat: plan.shielding_threshold_zat,
                    destination_pool: None,
                },
            ),
        },
{
    let destination_pool = match plan.destination_pool {
        Some(pool) => match protocol_shielded_pool(pool) {
            Ok(protocol) => Some(protocol),
            Err(error) => return Err(error),
        },
        None => None,
    };
    Ok(
        ShieldTransparentRequest {
            account_id: plan.account_id,
            shielding_threshold_zat: plan.shielding_threshold_zat,
            destination_pool,
        },
    )
}

/// What storage is asked to propose or pay.
#[derive(Debug)]
pub struct ProposalPaymentRequest {
    /// Account that funds the payment.
    pub account_id: AccountId,
    /// Encoded recipient address.
    pub recipient_encoded: String,
    /// Amount to send.
    pub amount_zat: Zatoshis,
    /// Memo as wire bytes without padding.
    pub memo_bytes: Option<Vec<u8>>,
    /// Pool from which inputs may be selected, if restricted.
    pub source_pool: Option<ProtocolPool>,
}

impl ProposalPaymentRequest {
    /// The request asks for this payment.
    pub open spec fn asks_for(
        self,
        account_id: AccountId,
        recipient: PaymentRecipient,
        amount_zat: Zatoshis,
        memo: Option<Memo>,
        source_pool: Option<ProtocolPool>,
    ) -> bool {
        &&& self.account_id == account_id
        &&& self.recipient_encoded@ == recipient.encoded_text()
        &&& self.amount_zat == amount_zat
        &&& match (self.memo_bytes, memo) {
            (Some(bytes), Some(m)) => bytes@ == m@,
            (None, None) => true,
            _ => false,
        }
        &&& self.source_pool == source_pool
    }

    /// The request for a payment.
    pub fn for_payment(
        account_id: AccountId,
        recipient: &PaymentRecipient,
        amount_zat: Zatoshis,
        memo: &Option<Memo>,
        source_pool: Option<ProtocolPool>,
    ) -> (request: ProposalPaymentRequest)
        ensures
            request.asks_for(account_id, *recipient, amount_zat, *memo, source_pool),
    {
        ProposalPaymentRequest {
            account_id,
            recipient_encoded: recipient.encoded().to_owned(),
            amount_zat,
            memo_bytes: match memo {
                Some(memo) => Some(memo.to_wire_bytes()),
                None => None,
            },
            source_pool,
        }
    }
}

/// Translates a proposal plan into the storage request. A source pool that this release does
/// not know is refused.
pub fn storage_proposal_request(plan: &ProposalPlan) -> (request: Result<
    ProposalPaymentRequest,
    WalletError,
>)
    ensures
        match plan.source_pool {
            Some(pool) => match protocol_pool_of(pool) {
                Some(protocol) => request matches Ok(r) && r.asks_for(
                    plan.account_id,
                    plan.recipient,
                    plan.amount_zat,
                    plan.memo,
                    Some(protocol),
                ),
                None => request matches Err(error) && error.rejected_with(
                    "shielded pool is not supported by this release"@,
                ),
            },
            None => request matches Ok(r) && r.asks_for(
                plan.account_id,
                plan.recipient,
                plan.amount_zat,
                plan.memo,
                None,
            ),
        },
{
    let source_pool = match plan.source_pool {
        Some(pool) => match protocol_shielded_pool(pool) {
            Ok(protocol) => Some(protocol),
            Err(error) => return Err(error),
        },
        None => None,
    };
    Ok(
        ProposalPaymentRequest::for_payment(
            plan.account_id,
            &plan.recipient,
            plan.amount_zat,
            &plan.memo,
            source_pool,
        ),
    )
}

/// Whether `error` is that of the first guard a payment fails, in order: recipient network,
/// memo, amount.
pub open spec fn payment_guard_fails(
    recipient: PaymentRecipient,
    memo: Option<Memo>,
    amount_zat: Zatoshis,
    wallet_network: Network,
    error: WalletError,
) -> bool {
    if recipient.network_spec() != wallet_network {
        error == (WalletError::NetworkMismatch {
            storage: wallet_network,
            requested: recipient.network_spec(),
        })
    } else if memo_forbidden(memo, recipient) {
        error is MemoOnTransparentRecipient
    } else {
        amount_zat@ == 0 && error.rejected_with("amount must be greater than zero zatoshis"@)
    }
}

/// A payment passes its guards.
pub open spec fn payment_passes(
    recipient: PaymentRecipient,
    memo: Option<Memo>,
    amount_zat: Zatoshis,
    wallet_network: Network,
) -> bool {
    recipient.network_spec() == wallet_network && !memo_forbidden(memo, recipient)
        && amount_zat@ != 0
}

/// Checks the guards of a payment: recipient network, memo, and amount, in this order.
pub fn validate_payment(
    recipient: &PaymentRecipient,
    memo: &Option<Memo>,
    amount_zat: Zatoshis,
    wallet_network: Network,
) -> (checked: Result<(), WalletError>)
    ensures
        checked is Ok <==> payment_passes(*recipient, *memo, amount_zat, wallet_network),
        checked matches Err(error) ==> payment_guard_fails(
            *recipient,
            *memo,
            amount_zat,
            wallet_network,
            error,
        ),
{
    match validate_recipient_network(recipient, wallet_network) {
        Ok(()) => {},
        Err(error) => return Err(error),
    }
    match validate_memo_against_recipient(memo, recipient) {
        Ok(()) => {},
        Err(error) => return Err(error),
    }
    validate_non_zero(amount_zat)
}

/// Checks a proposal plan and translates it into the storage request.
pub fn begin_proposal(plan: &ProposalPlan, wallet_network: Network) -> (request: Result<
    ProposalPaymentRequest,
    WalletError,
>)
    ensures
        !payment_passes(plan.recipient, plan.memo, plan.amount_zat, wallet_network) ==> {
            &&& request matches Err(error)
            &&& payment_guard_fails(
                plan.recipient,
                plan.memo,
                plan.amount_zat,
                wallet_network,
                error,
            )
        },
        payment_passes(plan.recipient, plan.memo, plan.amount_zat, wallet_network) ==> {
            let protocol = match plan.source_pool {
                Some(pool) => protocol_pool_of(pool),
                None => None,
            };
            if plan.source_pool is Some && protocol is None {
                &&& request matches Err(error)
                &&& error.rejected_with("shielded pool is not supported by this release"@)
            } else {
                &&& request matches Ok(r)
                &&& r.asks_for(
                    plan.account_id,
                    plan.recipient,
                    plan.amount_zat,
                    plan.memo,
                    protocol,
                )
            }
        },
{
    match validate_payment(&plan.recipient, &plan.memo, plan.amount_zat, wallet_network) {
        Ok(()) => {},
        Err(error) => return Err(error),
    }
    storage_proposal_request(plan)
}

/// What a submitter made of a transaction.
#[derive(Debug)]
pub enum SubmitOutcome {
    /// The transaction was accepted.
    Accepted {
        /// Its identifier.
        tx_id: TxId,
    },
    /// The transaction was known already.
    Duplicate {
        /// Its identifier.
        tx_id: TxId,
    },
    /// The transaction was queued.
    Queued {
        /// Its identifier.
        tx_id: TxId,
    },
    /// The transaction was rejected.
    Rejected {
        /// Typed reason.
        reason: RejectionReason,
        /// Operator-facing detail.
        detail: String,
    },
    /// An outcome that this release does not know.
    Unrecognised,
}

/// The identifier that a successful submission carries.
pub open spec fn submitted_tx_id(outcome: SubmitOutcome) -> Option<TxId> {
    match outcome {
        SubmitOutcome::Accepted { tx_id } => Some(tx_id),
        SubmitOutcome::Duplicate { tx_id } => Some(tx_id),
        SubmitOutcome::Queued { tx_id } => Some(tx_id),
        SubmitOutcome::Rejected { .. } | SubmitOutcome::Unrecognised => None,
    }
}

/// The error of a submission that did not deliver `expected`.
pub open spec fn is_submit_error(
    outcome: SubmitOutcome,
    expected: TxId,
    error: WalletError,
) -> bool {
    match outcome {
        SubmitOutcome::Rejected { reason, detail } => error == (WalletError::SubmissionRejected {
            reason,
            detail,
        }),
        SubmitOutcome::Unrecognised => error matches WalletError::SubmissionRejected {
            reason,
            detail,
        } && reason is Unknown && detail@
            == "submitter returned an unrecognised outcome variant"@,
        _ => error == (WalletError::SubmittedTransactionIdMismatch {
            expected,
            returned: submitted_tx_id(outcome)->Some_0,
        }),
    }
}

/// Resolves what a submitter made of the transaction `expected_tx_id`. Success for another
/// transaction fails closed.
pub fn resolve_send_outcome(outcome: SubmitOutcome, expected_tx_id: TxId) -> (resolved: Result<
    TxId,
    WalletError,
>)
    ensures
        submitted_tx_id(outcome) == Some(expected_tx_id) ==> resolved == Ok::<TxId, WalletError>(
            expected_tx_id,
        ),
        submitted_tx_id(outcome) != Some(expected_tx_id) ==> {
            &&& resolved matches Err(error)
            &&& is_submit_error(outcome, expected_tx_id, error)
        },
{
    match outcome {
        SubmitOutcome::Accepted { tx_id }
        | SubmitOutcome::Duplicate { tx_id }
        | SubmitOutcome::Queued { tx_id } => {
            if tx_id != expected_tx_id {
                return Err(
                    WalletError::SubmittedTransactionIdMismatch {
                        expected: expected_tx_id,
                        returned: tx_id,
                    },
                );
            }
            Ok(tx_id)
        },
        SubmitOutcome::Rejected { reason, detail } => Err(
            WalletError::SubmissionRejected { reason, detail },
        ),
        SubmitOutcome::Unrecognised => Err(
            WalletError::SubmissionRejected {
                reason: RejectionReason::Unknown,
                detail: "submitter returned an unrecognised outcome variant".to_owned(),
            },
        ),
    }
}

/// A signed transaction ready for broadcast.
#[derive(Debug)]
pub struct PreparedTransaction {
    /// Identifier of the transaction.
    pub tx_id: TxId,
    /// Encoded transaction.
    pub raw_bytes: Vec<u8>,
    /// Transparent inputs it spends, with their values.
    pub transparent_inputs: Vec<(OutPoint, Zatoshis)>,
    /// Height at which consensus rejects it.
    pub tx_expiry_height: BlockHeight,
    /// Whether it spends shielded notes.
    pub spends_shielded: bool,
    /// Whether it pays the recipient it was built for. A transaction that only funds an
    /// ephemeral address, which the next one pays the recipient from, does not.
    pub pays_recipient: bool,
}

/// A pending-broadcast row to persist before a transaction is submitted.
#[derive(Debug)]
pub struct PendingBroadcastRecord {
    /// Identifier of the broadcast.
    pub broadcast_tx_id: TxId,
    /// Account that owns the broadcast.
    pub account_id: AccountId,
    /// Unix milliseconds of the broadcast.
    pub broadcast_at_ms: u64,
    /// Tip at broadcast time, if known.
    pub broadcast_at_height: Option<BlockHeight>,
    /// Outpoints the broadcast locks, with their values.
    pub inputs: Vec<(OutPoint, Zatoshis)>,
}

/// The outpoints of pending rows.
pub open spec fn row_outpoints(rows: Seq<PendingTransparentInput>) -> Seq<OutPoint> {
    rows.map_values(|row: PendingTransparentInput| row.outpoint)
}

/// The set of outpoints that pending broadcasts lock, which a new spend must not select.
pub fn excluded_outpoints(rows: &Vec<PendingTransparentInput>) -> (excluded: OutPointSet)
    ensures
        excluded@ == crate::outpoint_set::joined(Seq::empty(), row_outpoints(rows@)),
{
    let mut excluded = OutPointSet::new();
    let mut index: usize = 0;
    assert(row_outpoints(rows@.take(0)) =~= Seq::empty());
    while index < rows.len()
        invariant
            index <= rows@.len(),
            excluded@ == crate::outpoint_set::joined(
                Seq::empty(),
                row_outpoints(rows@.take(index as int)),
            ),
        decreases rows@.len() - index,
    {
        let _is_new = excluded.insert(rows[index].outpoint);
        index += 1;
        assert(row_outpoints(rows@.take(index as int)).drop_last() =~= row_outpoints(
            rows@.take(index - 1),
        ));
        assert(row_outpoints(rows@.take(index as int)).last() == rows@[index - 1].outpoint);
    }
    assert(rows@.take(rows@.len() as int) =~= rows@);
    excluded
}

/// Unix millisecond before which a pending broadcast no longer counts as in flight.
pub open spec fn cutoff_spec(now_ms: u64, window_ms: u64) -> u64 {
    if now_ms >= window_ms {
        (now_ms - window_ms) as u64
    } else {
        0
    }
}

/// Unix millisecond cutoff used by every pending-broadcast read: rows older than this fall
/// outside the operator-configured inflight window.
pub fn pending_broadcast_cutoff_ms(now_ms: u64, window_ms: u64) -> (cutoff_ms: u64)
    ensures
        cutoff_ms == cutoff_spec(now_ms, window_ms),
{
    now_ms.saturating_sub(window_ms)
}

} // verus!
