//! What the text of an error tells its reader.

use crate::boundary_error::{
    ChainSourceError, ChainSourceErrorKind, FailurePosture, StorageError, StorageErrorKind,
    UtxoSetDefect,
};
use crate::domain::{AccountId, BlockHeight, Network, OutPoint, TxId};
use crate::error::WalletError;
use vstd::prelude::*;

verus! {

/// The text ends in this part.
pub open spec fn ends_in(text: Seq<char>, part: Seq<char>) -> bool {
    part.len() <= text.len() && text.skip(text.len() - part.len()) == part
}

proof fn a_sum_ends_in_its_last_part(head: Seq<char>, part: Seq<char>)
    ensures
        ends_in(head + part, part),
{
    assert((head + part).skip(head.len() as int) =~= part);
}

/// A text holds these two parts, the first before the second.
pub open spec fn holds_in_order(text: Seq<char>, first: Seq<char>, second: Seq<char>) -> bool {
    exists|before: Seq<char>, between: Seq<char>, after: Seq<char>|
        text == #[trigger] (before + first + between + second + after)
}

proof fn a_sum_holds_its_parts(
    before: Seq<char>,
    first: Seq<char>,
    between: Seq<char>,
    second: Seq<char>,
)
    ensures
        holds_in_order(before + first + between + second, first, second),
{
    let text = before + first + between + second;
    assert(text =~= before + first + between + second + Seq::<char>::empty());
}

/// The text of a boundary's failure ends in the boundary's own text, whichever boundary failed;
/// a refusal's ends in its reason, and an unverified chunk's in what stopped the comparison.
pub proof fn an_error_ends_in_its_cause(error: WalletError)
    ensures
        match error {
            WalletError::Sealing(e) => ends_in(error.described(), e.described()),
            WalletError::Storage(e) => ends_in(error.described(), e.described()),
            WalletError::KeyDerivation(e) => ends_in(error.described(), e.reason@),
            WalletError::ChainSource(e) => ends_in(error.described(), e.described()),
            WalletError::Submitter(e) => ends_in(error.described(), e.reason@),
            WalletError::Pczt(e) => ends_in(error.described(), e.described()),
            WalletError::PaymentDisclosureExport(e) => ends_in(error.described(), e.described()),
            WalletError::PaymentRequestParseFailed { reason } => ends_in(
                error.described(),
                reason@,
            ),
            WalletError::ProposalRejected { reason } => ends_in(error.described(), reason@),
            WalletError::SubmissionRejected { detail, .. } => ends_in(error.described(), detail@),
            WalletError::SyncDriverFailed { reason } => ends_in(error.described(), reason@),
            WalletError::UnverifiedScanChunk { source, .. } => ends_in(
                error.described(),
                source.described(),
            ),
            _ => true,
        },
{
    match error {
        WalletError::Sealing(e) => {
            a_sum_ends_in_its_last_part("seed sealing error: "@, e.described());
        },
        WalletError::Storage(e) => {
            a_sum_ends_in_its_last_part("storage error: "@, e.described());
        },
        WalletError::KeyDerivation(e) => {
            a_sum_ends_in_its_last_part("key derivation error: "@, e.reason@);
        },
        WalletError::ChainSource(e) => {
            a_sum_ends_in_its_last_part("chain source error: "@, e.described());
        },
        WalletError::Submitter(e) => {
            a_sum_ends_in_its_last_part("submitter error: "@, e.reason@);
        },
        WalletError::Pczt(e) => {
            a_sum_ends_in_its_last_part("pczt error: "@, e.described());
        },
        WalletError::PaymentDisclosureExport(e) => {
            a_sum_ends_in_its_last_part("payment disclosure error: "@, e.described());
        },
        WalletError::PaymentRequestParseFailed { reason } => {
            a_sum_ends_in_its_last_part("payment request parse failed: "@, reason@);
        },
        WalletError::ProposalRejected { reason } => {
            a_sum_ends_in_its_last_part("proposal rejected: "@, reason@);
        },
        WalletError::SubmissionRejected { reason, detail } => {
            a_sum_ends_in_its_last_part(
                "submission rejected ("@ + reason.name_text() + "): "@,
                detail@,
            );
        },
        WalletError::SyncDriverFailed { reason } => {
            a_sum_ends_in_its_last_part("sync driver task panicked: "@, reason@);
        },
        WalletError::UnverifiedScanChunk { scanned_to, source } => {
            a_sum_ends_in_its_last_part(
                "scanned chunk up to "@ + crate::describe::height_text(scanned_to)
                    + " could not be compared with the chain: "@,
                source.described(),
            );
        },
        _ => {},
    }
}

/// An error that sets two things against each other names both, in the order of its sentence:
/// networks, amounts in zatoshis, heights, and transactions.
pub proof fn a_mismatch_names_both_sides(error: WalletError)
    ensures
        match error {
            WalletError::NetworkMismatch { storage, requested } => holds_in_order(
                error.described(),
                storage.name_text(),
                requested.name_text(),
            ),
            WalletError::InsufficientBalance { requested_zat, spendable_zat } => holds_in_order(
                error.described(),
                crate::text::decimal_text(requested_zat@ as nat),
                crate::text::decimal_text(spendable_zat@ as nat),
            ),
            WalletError::SubmittedTransactionIdMismatch { expected, returned } => holds_in_order(
                error.described(),
                crate::text::hex_text(returned@),
                crate::text::hex_text(expected@),
            ),
            WalletError::TargetExpiryStale { target, chain_tip } => holds_in_order(
                error.described(),
                crate::describe::tagged_height_text(target),
                crate::describe::tagged_height_text(chain_tip),
            ),
            WalletError::TargetExpiryMismatch { target, signed } => holds_in_order(
                error.described(),
                crate::describe::tagged_height_text(signed),
                crate::describe::tagged_height_text(target),
            ),
            WalletError::TreeRootsDiverged { height } => ends_in(
                error.described(),
                crate::describe::tagged_height_text(height),
            ),
            WalletError::PaymentDisclosureSourceMissing { transaction_id } => ends_in(
                error.described(),
                crate::text::hex_text(transaction_id@),
            ),
            _ => true,
        },
{
    match error {
        WalletError::NetworkMismatch { storage, requested } => {
            a_sum_holds_its_parts(
                "network mismatch: storage="@,
                storage.name_text(),
                ", requested="@,
                requested.name_text(),
            );
        },
        WalletError::InsufficientBalance { requested_zat, spendable_zat } => {
            a_sum_holds_its_parts(
                "insufficient spendable balance: requested "@,
                crate::text::decimal_text(requested_zat@ as nat),
                ", spendable "@,
                crate::text::decimal_text(spendable_zat@ as nat),
            );
        },
        WalletError::SubmittedTransactionIdMismatch { expected, returned } => {
            a_sum_holds_its_parts(
                "submitter answered for transaction "@,
                crate::text::hex_text(returned@),
                " instead of "@,
                crate::text::hex_text(expected@),
            );
        },
        WalletError::TargetExpiryStale { target, chain_tip } => {
            a_sum_holds_its_parts(
                "target_expiry_height="@,
                crate::describe::tagged_height_text(target),
                " is at or below the wallet's observed tip="@,
                crate::describe::tagged_height_text(chain_tip),
            );
        },
        WalletError::TargetExpiryMismatch { target, signed } => {
            a_sum_holds_its_parts(
                "signed transaction expiry_height="@,
                crate::describe::tagged_height_text(signed),
                " does not match target_expiry_height="@,
                crate::describe::tagged_height_text(target),
            );
        },
        WalletError::TreeRootsDiverged { height } => {
            a_sum_ends_in_its_last_part(
                "wallet commitment-tree roots diverge from the chain at height "@,
                crate::describe::tagged_height_text(height),
            );
        },
        WalletError::PaymentDisclosureSourceMissing { transaction_id } => {
            a_sum_ends_in_its_last_part(
                "no finalized PCZT is retained for transaction "@,
                crate::text::hex_text(transaction_id@),
            );
        },
        _ => {},
    }
}

/// A height's text is its number in decimal, in every form it is written in.
pub proof fn a_height_is_written_as_its_number(height: BlockHeight)
    ensures
        crate::describe::height_text(height) == crate::text::decimal_text(height.0 as nat),
        crate::describe::tagged_height_text(height) == "BlockHeight("@
            + crate::text::decimal_text(height.0 as nat) + ")"@,
        crate::describe::optional_height_text(Some(height)) == "Some("@
            + crate::text::decimal_text(height.0 as nat) + ")"@,
        crate::describe::optional_height_text(None) == "None"@,
{
}

/// An outpoint's text is its transaction in hexadecimal and its position; an account's is its
/// number.
pub proof fn an_outpoint_is_written_as_its_place(tx_id: TxId, output_index: u32, account: u128)
    ensures
        crate::describe::outpoint_text(OutPoint { tx_id, output_index }) == crate::text::hex_text(
            tx_id@,
        ) + ":"@ + crate::text::decimal_text(output_index as nat),
        crate::describe::account_text(AccountId(account)) == "AccountId("@
            + crate::text::decimal_text(account as nat) + ")"@,
{
}

/// The three networks have three names.
pub proof fn a_network_is_told_by_its_name(a: Network, b: Network)
    ensures
        a.name_text() == b.name_text() ==> a == b,
        Network::Mainnet.name_text() == "Mainnet"@,
        Network::Testnet.name_text() == "Testnet"@,
        Network::Regtest.name_text() == "Regtest"@,
{
    reveal_strlit("Mainnet");
    reveal_strlit("Testnet");
    reveal_strlit("Regtest");
    assert("Mainnet"@[0] != "Testnet"@[0]);
    assert("Mainnet"@[0] != "Regtest"@[0]);
    assert("Testnet"@[0] != "Regtest"@[0]);
}

/// A chain source's failure names the height, pool, or defect it is about, and ends in the
/// reason it was given.
pub proof fn a_source_failure_names_what_it_is_about(error: ChainSourceError)
    ensures
        match error.kind {
            ChainSourceErrorKind::Unavailable { reason } => ends_in(error.described(), reason@),
            ChainSourceErrorKind::MalformedCompactBlock { block_height, reason } => {
                holds_in_order(
                    error.described(),
                    crate::text::decimal_text(block_height.0 as nat),
                    reason@,
                )
            },
            ChainSourceErrorKind::MalformedSubtreeRootPage { pool, reason } => holds_in_order(
                error.described(),
                pool.name_text(),
                reason@,
            ),
            ChainSourceErrorKind::MalformedTransparentUtxoSet { defect } => ends_in(
                error.described(),
                defect.described(),
            ),
            ChainSourceErrorKind::CompactBlockStreamOrder { expected_height, actual_height } => {
                holds_in_order(
                    error.described(),
                    crate::text::decimal_text(expected_height.0 as nat),
                    crate::describe::optional_height_text(actual_height),
                )
            },
            ChainSourceErrorKind::TreeStateAnchorHeightMismatch {
                requested_height,
                returned_height,
            } => holds_in_order(
                error.described(),
                crate::text::decimal_text(requested_height.0 as nat),
                crate::text::decimal_text(returned_height.0 as nat),
            ),
            ChainSourceErrorKind::Other { reason } => error.described() == reason@,
            _ => true,
        },
        forall|posture: FailurePosture| #[trigger]
            (ChainSourceError { posture, ..error }).described() == error.described(),
{
    match error.kind {
        ChainSourceErrorKind::Unavailable { reason } => {
            a_sum_ends_in_its_last_part("chain source unavailable: "@, reason@);
        },
        ChainSourceErrorKind::MalformedCompactBlock { block_height, reason } => {
            a_sum_holds_its_parts(
                "malformed compact block at "@,
                crate::describe::height_text(block_height),
                ": "@,
                reason@,
            );
        },
        ChainSourceErrorKind::MalformedSubtreeRootPage { pool, reason } => {
            a_sum_holds_its_parts(
                "malformed subtree-root page for "@,
                pool.name_text(),
                ": "@,
                reason@,
            );
        },
        ChainSourceErrorKind::MalformedTransparentUtxoSet { defect } => {
            a_sum_ends_in_its_last_part("malformed transparent UTXO set: "@, defect.described());
        },
        ChainSourceErrorKind::CompactBlockStreamOrder { expected_height, actual_height } => {
            a_sum_holds_its_parts(
                "compact-block stream out of order: expected "@,
                crate::describe::height_text(expected_height),
                ", received "@,
                crate::describe::optional_height_text(actual_height),
            );
        },
        ChainSourceErrorKind::TreeStateAnchorHeightMismatch {
            requested_height,
            returned_height,
        } => {
            a_sum_holds_its_parts(
                "tree state requested at "@,
                crate::describe::height_text(requested_height),
                " was served at "@,
                crate::describe::height_text(returned_height),
            );
        },
        _ => {},
    }
}

/// A storage failure names the amounts or the height it is about, and ends in the reason it was
/// given.
pub proof fn a_storage_failure_names_what_it_is_about(error: StorageError)
    ensures
        match error.kind {
            StorageErrorKind::InsufficientFunds { required_zat, available_zat } => holds_in_order(
                error.described(),
                crate::text::decimal_text(required_zat@ as nat),
                crate::text::decimal_text(available_zat@ as nat),
            ),
            StorageErrorKind::ProposalBuildFailed { reason } => ends_in(
                error.described(),
                reason@,
            ),
            StorageErrorKind::CommitmentTreeConflict { reason } => ends_in(
                error.described(),
                reason@,
            ),
            StorageErrorKind::ChainReorgDetected { at_height } => ends_in(
                error.described(),
                crate::text::decimal_text(at_height.0 as nat),
            ),
            StorageErrorKind::BlockingTaskFailed { reason } => ends_in(
                error.described(),
                reason@,
            ),
            StorageErrorKind::Other { reason } => error.described() == reason@,
            _ => true,
        },
{
    match error.kind {
        StorageErrorKind::InsufficientFunds { required_zat, available_zat } => {
            a_sum_holds_its_parts(
                "insufficient funds: required "@,
                crate::text::decimal_text(required_zat@ as nat),
                ", available "@,
                crate::text::decimal_text(available_zat@ as nat),
            );
        },
        StorageErrorKind::ProposalBuildFailed { reason } => {
            a_sum_ends_in_its_last_part("proposal build failed: "@, reason@);
        },
        StorageErrorKind::CommitmentTreeConflict { reason } => {
            a_sum_ends_in_its_last_part("commitment-tree conflict: "@, reason@);
        },
        StorageErrorKind::ChainReorgDetected { at_height } => {
            a_sum_ends_in_its_last_part(
                "chain reorg detected at "@,
                crate::describe::height_text(at_height),
            );
        },
        StorageErrorKind::BlockingTaskFailed { reason } => {
            a_sum_ends_in_its_last_part("storage task failed: "@, reason@);
        },
        _ => {},
    }
}

/// A defect names the output it was found at, and the two heights or the account it is about.
pub proof fn a_defect_names_its_output(defect: UtxoSetDefect)
    ensures
        match defect {
            UtxoSetDefect::ConfirmedAboveTip { outpoint, confirmed_at_height, visible_tip } => {
                &&& holds_in_order(
                    defect.described(),
                    crate::text::decimal_text(confirmed_at_height.0 as nat),
                    crate::text::decimal_text(visible_tip.0 as nat),
                )
                &&& holds_in_order(
                    defect.described(),
                    crate::describe::outpoint_text(outpoint),
                    crate::text::decimal_text(visible_tip.0 as nat),
                )
            },
            UtxoSetDefect::Repeated { outpoint } => crate::text::occurs_at(
                defect.described(),
                crate::describe::outpoint_text(outpoint),
                9,
            ),
            UtxoSetDefect::ScriptMismatch { outpoint, account_id } => holds_in_order(
                defect.described(),
                crate::describe::outpoint_text(outpoint),
                crate::describe::account_text(account_id),
            ),
        },
{
    match defect {
        UtxoSetDefect::ConfirmedAboveTip { outpoint, confirmed_at_height, visible_tip } => {
            a_sum_holds_its_parts(
                "outpoint "@ + crate::describe::outpoint_text(outpoint) + " is confirmed at "@,
                crate::describe::height_text(confirmed_at_height),
                " above pinned visible tip "@,
                crate::describe::height_text(visible_tip),
            );
            let between = " is confirmed at "@ + crate::describe::height_text(confirmed_at_height)
                + " above pinned visible tip "@;
            a_sum_holds_its_parts(
                "outpoint "@,
                crate::describe::outpoint_text(outpoint),
                between,
                crate::describe::height_text(visible_tip),
            );
            assert(defect.described() =~= "outpoint "@ + crate::describe::outpoint_text(outpoint)
                + between + crate::describe::height_text(visible_tip));
        },
        UtxoSetDefect::Repeated { outpoint } => {
            reveal_strlit("outpoint ");
            let point = crate::describe::outpoint_text(outpoint);
            assert(defect.described().subrange(9, (9 + point.len()) as int) =~= point);
        },
        UtxoSetDefect::ScriptMismatch { outpoint, account_id } => {
            a_sum_holds_its_parts(
                "outpoint "@,
                crate::describe::outpoint_text(outpoint),
                " script did not match wallet receiver for account "@,
                crate::describe::account_text(account_id),
            );
        },
    }
}

} // verus!
