//! PCZT (partially created Zcash transaction) roles bound to a wallet.
//!
//! A proposed PCZT carries the wallet's network and must be authorised before submission; a
//! finalised one is extracted, persisted, and broadcast.

use crate::boundary_error::{
    bool_to_posture, ChainSourceError, ChainSourceErrorKind, StorageError,
    SubmitterError,
};
use crate::domain::{BlockHeight, Network, TxId, Zatoshis};
use crate::error::WalletError;
use crate::retry::IsRetryable;
use crate::spend::{
    storage_proposal_request, validate_memo_against_recipient, validate_recipient_network,
    PreparedTransaction, ProposalPaymentRequest, ProposalPlan, SendOutcome, SubmitOutcome,
};
use crate::sync::attempt::require_same_network;
use crate::text::contains;
use vstd::prelude::*;

verus! {

/// Serialised PCZT plus the network on which it is valid.
#[derive(Debug)]
pub struct PcztBytes {
    bytes: Vec<u8>,
    network: Network,
}

impl PcztBytes {
    /// The serialised form.
    pub closed spec fn bytes_spec(&self) -> Vec<u8> {
        self.bytes
    }

    /// The network on which the PCZT is valid.
    pub closed spec fn network_spec(&self) -> Network {
        self.network
    }

    /// Tags serialised bytes with their network.
    pub fn from_serialized(bytes: Vec<u8>, network: Network) -> (pczt: PcztBytes)
        ensures
            pczt.bytes_spec() == bytes,
            pczt.network_spec() == network,
    {
        PcztBytes { bytes, network }
    }

    /// The network on which the PCZT is valid.
    pub fn network(&self) -> (network: Network)
        ensures
            network == self.network_spec(),
    {
        self.network
    }

    /// The serialised form.
    pub fn into_bytes(self) -> (bytes: Vec<u8>)
        ensures
            bytes == self.bytes_spec(),
    {
        self.bytes
    }
}

/// How the fee of a transaction is chosen.
#[derive(Clone, Copy, Debug, PartialEq, Eq, Structural)]
pub enum FeeStrategy {
    /// The ZIP-317 conventional fee.
    Conventional,
    /// Any other choice.
    Other,
}

/// The first guard of a PCZT proposal that fails: recipient network, memo, amount, fee.
pub open spec fn proposal_guard_fails(
    plan: ProposalPlan,
    fee: FeeStrategy,
    wallet_network: Network,
    error: WalletError,
) -> bool {
    if plan.recipient.network_spec() != wallet_network {
        error == (WalletError::NetworkMismatch {
            storage: wallet_network,
            requested: plan.recipient.network_spec(),
        })
    } else if crate::spend::memo_forbidden(plan.memo, plan.recipient) {
        error is MemoOnTransparentRecipient
    } else if plan.amount_zat@ == 0 {
        error.rejected_with("amount must be positive"@)
    } else {
        fee is Other && error.rejected_with("only ZIP-317 conventional fee is wired in v1"@)
    }
}

/// Checks a proposal: recipient network, memo, amount, and fee, in this order.
pub fn validate_proposal_plan(plan: &ProposalPlan, fee: FeeStrategy, wallet_network: Network) -> (
    checked: Result<(), WalletError>)
    ensures
        checked is Ok <==> crate::spend::payment_passes(
            plan.recipient,
            plan.memo,
            plan.amount_zat,
            wallet_network,
        ) && fee is Conventional,
        checked matches Err(error) ==> proposal_guard_fails(*plan, fee, wallet_network, error),
{
    match validate_recipient_network(&plan.recipient, wallet_network) {
        Ok(()) => {},
        Err(error) => return Err(error),
    }
    match validate_memo_against_recipient(&plan.memo, &plan.recipient) {
        Ok(()) => {},
        Err(error) => return Err(error),
    }
    if plan.amount_zat.as_u64() == 0 {
        return Err(WalletError::ProposalRejected { reason: "amount must be positive".to_owned() });
    }
    match fee {
        FeeStrategy::Conventional => Ok(()),
        FeeStrategy::Other => Err(
            WalletError::ProposalRejected {
                reason: "only ZIP-317 conventional fee is wired in v1".to_owned(),
            },
        ),
    }
}

/// Checks a proposal and translates it into the storage request that builds the PCZT.
pub fn begin_pczt_proposal(plan: &ProposalPlan, fee: FeeStrategy, wallet_network: Network) -> (
    request: Result<ProposalPaymentRequest, WalletError>)
    ensures
        !(crate::spend::payment_passes(
            plan.recipient,
            plan.memo,
            plan.amount_zat,
            wallet_network,
        ) && fee is Conventional) ==> {
            &&& request matches Err(error)
            &&& proposal_guard_fails(*plan, fee, wallet_network, error)
        },
        crate::spend::payment_passes(
            plan.recipient,
            plan.memo,
            plan.amount_zat,
            wallet_network,
        ) && fee is Conventional ==> {
            let protocol = match plan.source_pool {
                Some(pool) => crate::spend::protocol_pool_of(pool),
                None => None,
            };
            if plan.source_pool is Some && protocol is None {
                &&& request matches Err(error)
                &&& error.rejected_with("shielded pool is not supported by this release"@)
            } else {
                &&& request matches Ok(storage_request)
                &&& storage_request.asks_for(
                    plan.account_id,
                    plan.recipient,
                    plan.amount_zat,
                    plan.memo,
                    protocol,
                )
            }
        },
{
    match validate_proposal_plan(plan, fee, wallet_network) {
        Ok(()) => {},
        Err(error) => return Err(error),
    }
    storage_proposal_request(plan)
}

/// Fails closed when a PCZT is valid on another network than the wallet's.
pub fn validate_pczt_network(pczt_network: Network, wallet_network: Network) -> (checked: Result<
    (),
    WalletError,
>)
    ensures
        pczt_network == wallet_network ==> checked is Ok,
        pczt_network != wallet_network ==> checked == Err::<(), WalletError>(
            WalletError::NetworkMismatch { storage: wallet_network, requested: pczt_network },
        ),
{
    require_same_network(wallet_network, pczt_network)
}

/// The lowercase form of a text, as `str::to_lowercase` gives it.
pub uninterp spec fn lowercased(text: Seq<char>) -> Seq<char>;

/// Calls `str::to_lowercase`.
///
/// Claimed of it: the lowercase form depends on the text alone.
#[verifier::external_body]
fn lowercase(text: &str) -> (lower: String)
    ensures
        lower@ == lowercased(text@),
{
    text.to_lowercase()
}

/// A lowercase storage description speaks of missing funds.
pub open spec fn speaks_of_missing_funds(lower: Seq<char>) -> bool {
    ||| crate::text::occurs_in(lower, "insufficient"@)
    ||| crate::text::occurs_in(lower, "balanceerror"@)
}

/// The error that a storage description with this lowercase form surfaces as.
pub open spec fn lifts_to(display: Seq<char>, lower: Seq<char>, error: WalletError) -> bool {
    if speaks_of_missing_funds(lower) {
        error matches WalletError::InsufficientBalance { requested_zat, spendable_zat }
            && requested_zat@ == 0 && spendable_zat@ == 0
    } else {
        error.rejected_with(display)
    }
}

/// Surfaces a storage failure by its description: as a missing balance where the description
/// speaks of one, in either case of letters, and as a rejected proposal otherwise.
pub fn lift_storage_error(err: &StorageError) -> (error: WalletError)
    ensures
        lifts_to(err.described(), lowercased(err.described()), error),
{
    let display = err.describe();
    let lower = lowercase(display.as_str());
    lift_lowercased(display, lower.as_str())
}

/// Surfaces a storage failure by its description and the description's lowercase form.
pub fn lift_lowercased(display: String, lower: &str) -> (error: WalletError)
    ensures
        lifts_to(display@, lower@, error),
{
    if contains(lower, "insufficient") || contains(lower, "balanceerror") {
        return WalletError::InsufficientBalance {
            requested_zat: Zatoshis::zero(),
            spendable_zat: Zatoshis::zero(),
        };
    }
    WalletError::ProposalRejected { reason: display }
}

/// Surfaces a submitter failure as a chain-source failure that is retryable where the
/// submitter's is.
pub fn map_submitter_error(err: SubmitterError) -> (error: WalletError)
    ensures
        error matches WalletError::ChainSource(source) && source.kind == (
        ChainSourceErrorKind::Other { reason: err.reason }) && source.posture
            == crate::boundary_error::posture_of_flag(err.posture.permits_retry()),
{
    let posture = bool_to_posture(err.is_retryable());
    WalletError::ChainSource(
        ChainSourceError { kind: ChainSourceErrorKind::Other { reason: err.reason }, posture },
    )
}

/// Translates what the submitter made of an extracted transaction: an accepted one is reported
/// by the submitter's identifier, a duplicate by the wallet's own.
pub fn translate_submit_outcome(outcome: SubmitOutcome, fallback_tx_id: TxId) -> (sent: Result<
    SendOutcome,
    WalletError,
>)
    ensures
        match outcome {
            SubmitOutcome::Accepted { tx_id } => sent matches Ok(o) && o.reports(
                tx_id,
                BlockHeight(0),
                None,
            ),
            SubmitOutcome::Duplicate { .. } => sent matches Ok(o) && o.reports(
                fallback_tx_id,
                BlockHeight(0),
                None,
            ),
            SubmitOutcome::Rejected { reason, detail } => sent == Err::<SendOutcome, WalletError>(
                WalletError::SubmissionRejected { reason, detail },
            ),
            SubmitOutcome::Queued { .. } | SubmitOutcome::Unrecognised => sent matches Err(error)
                && error.rejected_with("submitter returned an unrecognised outcome variant"@),
        },
{
    match outcome {
        SubmitOutcome::Accepted { tx_id } => Ok(SendOutcome::of(tx_id, BlockHeight(0), None)),
        SubmitOutcome::Duplicate { .. } => Ok(
            SendOutcome::of(fallback_tx_id, BlockHeight(0), None),
        ),
        SubmitOutcome::Rejected { reason, detail } => Err(
            WalletError::SubmissionRejected { reason, detail },
        ),
        SubmitOutcome::Queued { .. } | SubmitOutcome::Unrecognised => Err(
            WalletError::ProposalRejected {
                reason: "submitter returned an unrecognised outcome variant".to_owned(),
            },
        ),
    }
}

/// Signing of a PCZT, once its network was checked.
#[derive(Debug)]
pub struct PcztSigning {
    pczt: PcztBytes,
}

impl PcztSigning {
    /// The PCZT to authorise.
    pub closed spec fn pczt_spec(&self) -> PcztBytes {
        self.pczt
    }

    /// Checks the PCZT's network. The seed is unsealed only for a PCZT that passed.
    pub fn begin(pczt: PcztBytes, wallet_network: Network) -> (signing: Result<
        PcztSigning,
        WalletError,
    >)
        ensures
            pczt.network_spec() == wallet_network ==> {
                &&& signing matches Ok(s)
                &&& s.pczt_spec() == pczt
            },
            pczt.network_spec() != wallet_network ==> signing == Err::<PcztSigning, WalletError>(
                WalletError::NetworkMismatch {
                    storage: wallet_network,
                    requested: pczt.network_spec(),
                },
            ),
    {
        match validate_pczt_network(pczt.network(), wallet_network) {
            Ok(()) => Ok(PcztSigning { pczt }),
            Err(error) => Err(error),
        }
    }

    /// The PCZT to authorise with the unsealed seed.
    pub fn into_pczt(self) -> (pczt: PcztBytes)
        ensures
            pczt == self.pczt_spec(),
    {
        self.pczt
    }
}

/// A PCZT submission that passed its network checks.
#[derive(Debug)]
pub struct PcztExtraction {
    bytes: Vec<u8>,
}

/// A PCZT submission whose transaction was extracted and persisted.
#[derive(Debug)]
pub struct PcztBroadcast {
    prepared: PreparedTransaction,
}

impl PcztExtraction {
    /// The finalised PCZT to extract.
    pub closed spec fn bytes_spec(&self) -> Vec<u8> {
        self.bytes
    }

    /// Checks the PCZT's network and the submitter's, in this order.
    pub fn begin(pczt: PcztBytes, submitter_network: Network, wallet_network: Network) -> (
        extraction: Result<PcztExtraction, WalletError>)
        ensures
            extraction is Ok <==> pczt.network_spec() == wallet_network && submitter_network
                == wallet_network,
            extraction matches Ok(e) ==> e.bytes_spec() == pczt.bytes_spec(),
            extraction matches Err(error) ==> error == (WalletError::NetworkMismatch {
                storage: wallet_network,
                requested: if pczt.network_spec() != wallet_network {
                    pczt.network_spec()
                } else {
                    submitter_network
                },
            }),
    {
        match validate_pczt_network(pczt.network(), wallet_network) {
            Ok(()) => {},
            Err(error) => return Err(error),
        }
        match require_same_network(wallet_network, submitter_network) {
            Ok(()) => {},
            Err(error) => return Err(error),
        }
        Ok(PcztExtraction { bytes: pczt.into_bytes() })
    }

    /// The finalised PCZT to extract.
    pub fn bytes(&self) -> (bytes: &Vec<u8>)
        ensures
            *bytes == self.bytes_spec(),
    {
        &self.bytes
    }

    /// Takes in what storage made of it: the extracted transaction, or the failure.
    pub fn extracted(self, extracted: Result<PreparedTransaction, StorageError>) -> (broadcast:
        Result<PcztBroadcast, WalletError>)
        ensures
            match extracted {
                Ok(prepared) => broadcast matches Ok(b) && b.prepared_spec() == prepared,
                Err(err) => broadcast matches Err(error) && lifts_to(
                    err.described(),
                    lowercased(err.described()),
                    error,
                ),
            },
    {
        match extracted {
            Ok(prepared) => Ok(PcztBroadcast { prepared }),
            Err(err) => Err(lift_storage_error(&err)),
        }
    }
}

impl PcztBroadcast {
    /// The transaction to submit.
    pub closed spec fn prepared_spec(&self) -> PreparedTransaction {
        self.prepared
    }

    /// The bytes to submit.
    pub fn raw_bytes(&self) -> (bytes: &Vec<u8>)
        ensures
            *bytes == self.prepared_spec().raw_bytes,
    {
        &self.prepared.raw_bytes
    }

    /// Takes in what the submitter, behind the breaker and its retries, made of it.
    pub fn submitted(self, submitted: Result<SubmitOutcome, WalletError>) -> (sent: Result<
        SendOutcome,
        WalletError,
    >)
        ensures
            match submitted {
                Err(error) => sent == Err::<SendOutcome, WalletError>(error),
                Ok(SubmitOutcome::Accepted { tx_id }) => sent matches Ok(o) && o.reports(
                    tx_id,
                    BlockHeight(0),
                    None,
                ),
                Ok(SubmitOutcome::Duplicate { .. }) => sent matches Ok(o) && o.reports(
                    self.prepared_spec().tx_id,
                    BlockHeight(0),
                    None,
                ),
                Ok(SubmitOutcome::Rejected { reason, detail }) => sent == Err::<
                    SendOutcome,
                    WalletError,
                >(WalletError::SubmissionRejected { reason, detail }),
                Ok(_) => sent matches Err(error) && error.rejected_with(
                    "submitter returned an unrecognised outcome variant"@,
                ),
            },
    {
        match submitted {
            Ok(outcome) => translate_submit_outcome(outcome, self.prepared.tx_id),
            Err(error) => Err(error),
        }
    }
}

} // verus!
