//! Texts of errors, safe for logs and status pages.

use crate::boundary_error::{
    ChainSourceError, ChainSourceErrorKind, KeyDerivationError, PaymentDisclosureExportError,
    PaymentDisclosureExportErrorKind, PcztError, PcztErrorKind, RejectionReason, SealingError,
    SealingErrorKind, StorageError, StorageErrorKind, SubmitterError, UtxoSetDefect,
};
use crate::domain::{AccountId, BlockHeight, Network, OutPoint, ShieldedPool, TxId, Zatoshis};
use crate::error::WalletError;
use crate::text::{decimal, decimal_wide, hex};
use vstd::prelude::*;

verus! {

impl Network {
    /// The network's name.
    pub open spec fn name_text(self) -> Seq<char> {
        match self {
            Network::Mainnet => "Mainnet"@,
            Network::Testnet => "Testnet"@,
            Network::Regtest => "Regtest"@,
        }
    }

    fn name(self) -> (name: &'static str)
        ensures
            name@ == self.name_text(),
    {
        match self {
            Network::Mainnet => "Mainnet",
            Network::Testnet => "Testnet",
            Network::Regtest => "Regtest",
        }
    }
}

impl ShieldedPool {
    /// The pool's name.
    pub open spec fn name_text(self) -> Seq<char> {
        match self {
            ShieldedPool::Sapling => "Sapling"@,
            ShieldedPool::Orchard => "Orchard"@,
            ShieldedPool::Ironwood => "Ironwood"@,
            ShieldedPool::Unrecognised => "Unrecognised"@,
        }
    }

    fn name(self) -> (name: &'static str)
        ensures
            name@ == self.name_text(),
    {
        match self {
            ShieldedPool::Sapling => "Sapling",
            ShieldedPool::Orchard => "Orchard",
            ShieldedPool::Ironwood => "Ironwood",
            ShieldedPool::Unrecognised => "Unrecognised",
        }
    }
}

impl RejectionReason {
    /// The reason's name.
    pub open spec fn name_text(self) -> Seq<char> {
        match self {
            RejectionReason::MempoolFull => "MempoolFull"@,
            RejectionReason::Invalid => "Invalid"@,
            RejectionReason::Expired => "Expired"@,
            RejectionReason::Unknown => "Unknown"@,
        }
    }

    fn name(self) -> (name: &'static str)
        ensures
            name@ == self.name_text(),
    {
        match self {
            RejectionReason::MempoolFull => "MempoolFull",
            RejectionReason::Invalid => "Invalid",
            RejectionReason::Expired => "Expired",
            RejectionReason::Unknown => "Unknown",
        }
    }
}

/// A height as a number.
pub open spec fn height_text(height: BlockHeight) -> Seq<char> {
    crate::text::decimal_text(height.0 as nat)
}

fn height_number(height: BlockHeight) -> (text: String)
    ensures
        text@ == height_text(height),
{
    decimal(height.0 as u64)
}

/// A height with the name of its type.
pub open spec fn tagged_height_text(height: BlockHeight) -> Seq<char> {
    "BlockHeight("@ + height_text(height) + ")"@
}

fn tagged_height(height: BlockHeight) -> (text: String)
    ensures
        text@ == tagged_height_text(height),
{
    "BlockHeight(".to_owned().concat(height_number(height).as_str()).concat(")")
}

/// A height that may be missing.
pub open spec fn optional_height_text(height: Option<BlockHeight>) -> Seq<char> {
    match height {
        Some(height) => "Some("@ + height_text(height) + ")"@,
        None => "None"@,
    }
}

fn optional_height(height: Option<BlockHeight>) -> (text: String)
    ensures
        text@ == optional_height_text(height),
{
    match height {
        Some(height) => "Some(".to_owned().concat(height_number(height).as_str()).concat(")"),
        None => "None".to_owned(),
    }
}

fn amount(value: Zatoshis) -> (text: String)
    ensures
        text@ == crate::text::decimal_text(value@ as nat),
{
    decimal(value.as_u64())
}

fn tx_text(tx_id: TxId) -> (text: String)
    ensures
        text@ == crate::text::hex_text(tx_id@),
{
    hex(&tx_id.to_bytes())
}

/// An account with the name of its type.
pub open spec fn account_text(account_id: AccountId) -> Seq<char> {
    "AccountId("@ + crate::text::decimal_text(account_id.0 as nat) + ")"@
}

fn account(account_id: AccountId) -> (text: String)
    ensures
        text@ == account_text(account_id),
{
    "AccountId(".to_owned().concat(decimal_wide(account_id.0).as_str()).concat(")")
}

/// An outpoint: the transaction in hexadecimal and the position.
pub open spec fn outpoint_text(outpoint: OutPoint) -> Seq<char> {
    crate::text::hex_text(outpoint.tx_id@) + ":"@ + crate::text::decimal_text(
        outpoint.output_index as nat,
    )
}

fn point(outpoint: &OutPoint) -> (text: String)
    ensures
        text@ == outpoint_text(*outpoint),
{
    tx_text(outpoint.tx_id).concat(":").concat(decimal(outpoint.output_index as u64).as_str())
}

impl UtxoSetDefect {
    /// The defect's text.
    pub open spec fn described(self) -> Seq<char> {
        match self {
            UtxoSetDefect::ConfirmedAboveTip { outpoint, confirmed_at_height, visible_tip } => {
                "outpoint "@ + outpoint_text(outpoint) + " is confirmed at "@ + height_text(
                    confirmed_at_height,
                ) + " above pinned visible tip "@ + height_text(visible_tip)
            },
            UtxoSetDefect::Repeated { outpoint } => {
                "outpoint "@ + outpoint_text(outpoint) + " appears more than once"@
            },
            UtxoSetDefect::ScriptMismatch { outpoint, account_id } => {
                "outpoint "@ + outpoint_text(outpoint)
                    + " script did not match wallet receiver for account "@ + account_text(
                    account_id,
                )
            },
        }
    }

    /// Describes the defect.
    pub fn describe(&self) -> (text: String)
        ensures
            text@ == self.described(),
    {
        match self {
            UtxoSetDefect::ConfirmedAboveTip { outpoint, confirmed_at_height, visible_tip } => {
                "outpoint ".to_owned().concat(point(outpoint).as_str()).concat(
                    " is confirmed at ",
                ).concat(height_number(*confirmed_at_height).as_str()).concat(
                    " above pinned visible tip ",
                ).concat(height_number(*visible_tip).as_str())
            },
            UtxoSetDefect::Repeated { outpoint } => {
                "outpoint ".to_owned().concat(point(outpoint).as_str()).concat(
                    " appears more than once",
                )
            },
            UtxoSetDefect::ScriptMismatch { outpoint, account_id } => {
                "outpoint ".to_owned().concat(point(outpoint).as_str()).concat(
                    " script did not match wallet receiver for account ",
                ).concat(account(*account_id).as_str())
            },
        }
    }
}

impl ChainSourceError {
    /// The failure's text.
    pub open spec fn described(self) -> Seq<char> {
        match self.kind {
            ChainSourceErrorKind::Unavailable { reason } => {
                "chain source unavailable: "@ + reason@
            },
            ChainSourceErrorKind::MalformedCompactBlock { block_height, reason } => {
                "malformed compact block at "@ + height_text(block_height) + ": "@ + reason@
            },
            ChainSourceErrorKind::MalformedSubtreeRootPage { pool, reason } => {
                "malformed subtree-root page for "@ + pool.name_text() + ": "@ + reason@
            },
            ChainSourceErrorKind::MalformedTransparentUtxoSet { defect } => {
                "malformed transparent UTXO set: "@ + defect.described()
            },
            ChainSourceErrorKind::CompactBlockStreamOrder { expected_height, actual_height } => {
                "compact-block stream out of order: expected "@ + height_text(expected_height)
                    + ", received "@ + optional_height_text(actual_height)
            },
            ChainSourceErrorKind::TreeStateAnchorHeightMismatch {
                requested_height,
                returned_height,
            } => {
                "tree state requested at "@ + height_text(requested_height) + " was served at "@
                    + height_text(returned_height)
            },
            ChainSourceErrorKind::ChainEpochPinUnavailable => {
                "the pinned chain epoch is no longer served"@
            },
            ChainSourceErrorKind::ChainEventCursorExpired { .. } => {
                "the chain-event cursor is no longer retained"@
            },
            ChainSourceErrorKind::Other { reason } => reason@,
        }
    }

    /// Describes the failure.
    pub fn describe(&self) -> (text: String)
        ensures
            text@ == self.described(),
    {
        match &self.kind {
            ChainSourceErrorKind::Unavailable { reason } => {
                "chain source unavailable: ".to_owned().concat(reason.as_str())
            },
            ChainSourceErrorKind::MalformedCompactBlock { block_height, reason } => {
                "malformed compact block at ".to_owned().concat(
                    height_number(*block_height).as_str(),
                ).concat(": ").concat(reason.as_str())
            },
            ChainSourceErrorKind::MalformedSubtreeRootPage { pool, reason } => {
                "malformed subtree-root page for ".to_owned().concat(pool.name()).concat(
                    ": ",
                ).concat(reason.as_str())
            },
            ChainSourceErrorKind::MalformedTransparentUtxoSet { defect } => {
                "malformed transparent UTXO set: ".to_owned().concat(defect.describe().as_str())
            },
            ChainSourceErrorKind::CompactBlockStreamOrder { expected_height, actual_height } => {
                "compact-block stream out of order: expected ".to_owned().concat(
                    height_number(*expected_height).as_str(),
                ).concat(", received ").concat(optional_height(*actual_height).as_str())
            },
            ChainSourceErrorKind::TreeStateAnchorHeightMismatch {
                requested_height,
                returned_height,
            } => {
                "tree state requested at ".to_owned().concat(
                    height_number(*requested_height).as_str(),
                ).concat(" was served at ").concat(height_number(*returned_height).as_str())
            },
            ChainSourceErrorKind::ChainEpochPinUnavailable => {
                "the pinned chain epoch is no longer served".to_owned()
            },
            ChainSourceErrorKind::ChainEventCursorExpired { .. } => {
                "the chain-event cursor is no longer retained".to_owned()
            },
            ChainSourceErrorKind::Other { reason } => reason.clone(),
        }
    }
}

impl SubmitterError {
    /// The failure's text.
    pub open spec fn described(self) -> Seq<char> {
        self.reason@
    }

    /// Describes the failure.
    pub fn describe(&self) -> (text: String)
        ensures
            text@ == self.described(),
    {
        self.reason.clone()
    }
}

impl StorageError {
    /// The failure's text.
    pub open spec fn described(self) -> Seq<char> {
        match self.kind {
            StorageErrorKind::NotOpened => "storage is not opened"@,
            StorageErrorKind::AccountNotFound => "account not found"@,
            StorageErrorKind::AccountAlreadyExists => "account already exists"@,
            StorageErrorKind::InsufficientFunds { required_zat, available_zat } => {
                "insufficient funds: required "@ + crate::text::decimal_text(
                    required_zat@ as nat,
                ) + ", available "@ + crate::text::decimal_text(available_zat@ as nat)
            },
            StorageErrorKind::ProposalBuildFailed { reason } => {
                "proposal build failed: "@ + reason@
            },
            StorageErrorKind::CommitmentTreeConflict { reason } => {
                "commitment-tree conflict: "@ + reason@
            },
            StorageErrorKind::ChainReorgDetected { at_height } => {
                "chain reorg detected at "@ + height_text(at_height)
            },
            StorageErrorKind::BlockingTaskFailed { reason } => "storage task failed: "@ + reason@,
            StorageErrorKind::ScanFrontierReceded => {
                "the scan frontier receded below the pinned floor"@
            },
            StorageErrorKind::Other { reason } => reason@,
        }
    }

    /// Describes the failure.
    pub fn describe(&self) -> (text: String)
        ensures
            text@ == self.described(),
    {
        match &self.kind {
            StorageErrorKind::NotOpened => "storage is not opened".to_owned(),
            StorageErrorKind::AccountNotFound => "account not found".to_owned(),
            StorageErrorKind::AccountAlreadyExists => "account already exists".to_owned(),
            StorageErrorKind::InsufficientFunds { required_zat, available_zat } => {
                "insufficient funds: required ".to_owned().concat(
                    amount(*required_zat).as_str(),
                ).concat(", available ").concat(amount(*available_zat).as_str())
            },
            StorageErrorKind::ProposalBuildFailed { reason } => {
                "proposal build failed: ".to_owned().concat(reason.as_str())
            },
            StorageErrorKind::CommitmentTreeConflict { reason } => {
                "commitment-tree conflict: ".to_owned().concat(reason.as_str())
            },
            StorageErrorKind::ChainReorgDetected { at_height } => {
                "chain reorg detected at ".to_owned().concat(height_number(*at_height).as_str())
            },
            StorageErrorKind::BlockingTaskFailed { reason } => {
                "storage task failed: ".to_owned().concat(reason.as_str())
            },
            StorageErrorKind::ScanFrontierReceded => {
                "the scan frontier receded below the pinned floor".to_owned()
            },
            StorageErrorKind::Other { reason } => reason.clone(),
        }
    }
}

impl SealingError {
    /// The failure's text.
    pub open spec fn described(self) -> Seq<char> {
        match self.kind {
            SealingErrorKind::NoSealedSeed => "no sealed seed"@,
            SealingErrorKind::Other { reason } => reason@,
        }
    }

    /// Describes the failure.
    pub fn describe(&self) -> (text: String)
        ensures
            text@ == self.described(),
    {
        match &self.kind {
            SealingErrorKind::NoSealedSeed => "no sealed seed".to_owned(),
            SealingErrorKind::Other { reason } => reason.clone(),
        }
    }
}

impl KeyDerivationError {
    /// The failure's text.
    pub open spec fn described(self) -> Seq<char> {
        self.reason@
    }

    /// Describes the failure.
    pub fn describe(&self) -> (text: String)
        ensures
            text@ == self.described(),
    {
        self.reason.clone()
    }
}

impl PcztError {
    /// The failure's text.
    pub open spec fn described(self) -> Seq<char> {
        match self.kind {
            PcztErrorKind::NoMatchingKeys => "no matching keys"@,
            PcztErrorKind::Other { reason } => reason@,
        }
    }

    /// Describes the failure.
    pub fn describe(&self) -> (text: String)
        ensures
            text@ == self.described(),
    {
        match &self.kind {
            PcztErrorKind::NoMatchingKeys => "no matching keys".to_owned(),
            PcztErrorKind::Other { reason } => reason.clone(),
        }
    }
}

impl PaymentDisclosureExportError {
    /// The failure's text.
    pub open spec fn described(self) -> Seq<char> {
        match self.kind {
            PaymentDisclosureExportErrorKind::RecipientUnsupported => {
                "recipient has no receiver that the profile can disclose"@
            },
            PaymentDisclosureExportErrorKind::Other { reason } => reason@,
        }
    }

    /// Describes the failure.
    pub fn describe(&self) -> (text: String)
        ensures
            text@ == self.described(),
    {
        match &self.kind {
            PaymentDisclosureExportErrorKind::RecipientUnsupported => {
                "recipient has no receiver that the profile can disclose".to_owned()
            },
            PaymentDisclosureExportErrorKind::Other { reason } => reason.clone(),
        }
    }
}

impl WalletError {
    /// The error's text.
    pub open spec fn described(self) -> Seq<char>
        decreases self,
    {
        match self {
            WalletError::Sealing(e) => "seed sealing error: "@ + e.described(),
            WalletError::Storage(e) => "storage error: "@ + e.described(),
            WalletError::KeyDerivation(e) => "key derivation error: "@ + e.described(),
            WalletError::NoSealedSeed => "no sealed seed found for wallet"@,
            WalletError::AccountAlreadyExists => {
                "an account already exists at this wallet location"@
            },
            WalletError::AccountNotFound => "no account in storage matches the unsealed seed"@,
            WalletError::NetworkMismatch { storage, requested } => {
                "network mismatch: storage="@ + storage.name_text() + ", requested="@
                    + requested.name_text()
            },
            WalletError::ChainSource(e) => "chain source error: "@ + e.described(),
            WalletError::Submitter(e) => "submitter error: "@ + e.described(),
            WalletError::MemoOnTransparentRecipient => {
                "memos are not permitted on transparent recipients (ZIP-302)"@
            },
            WalletError::ShieldedInputsOnTexRecipient => {
                "TEX recipients (ZIP-320) require an all-transparent input set"@
            },
            WalletError::InsufficientBalance { requested_zat, spendable_zat } => {
                "insufficient spendable balance: requested "@ + crate::text::decimal_text(
                    requested_zat@ as nat,
                ) + ", spendable "@ + crate::text::decimal_text(spendable_zat@ as nat)
            },
            WalletError::PaymentRequestParseFailed { reason } => {
                "payment request parse failed: "@ + reason@
            },
            WalletError::ProposalRejected { reason } => "proposal rejected: "@ + reason@,
            WalletError::SubmissionRejected { reason, detail } => {
                "submission rejected ("@ + reason.name_text() + "): "@ + detail@
            },
            WalletError::SubmittedTransactionIdMismatch { expected, returned } => {
                "submitter answered for transaction "@ + crate::text::hex_text(returned@)
                    + " instead of "@ + crate::text::hex_text(expected@)
            },
            WalletError::Pczt(e) => "pczt error: "@ + e.described(),
            WalletError::CircuitBroken { .. } => {
                "wallet circuit breaker is open; failures exceeded the configured threshold"@
            },
            WalletError::TargetExpiryStale { target, chain_tip } => {
                "target_expiry_height="@ + tagged_height_text(target)
                    + " is at or below the wallet's observed tip="@ + tagged_height_text(chain_tip)
            },
            WalletError::TargetExpiryMismatch { target, signed } => {
                "signed transaction expiry_height="@ + tagged_height_text(signed)
                    + " does not match target_expiry_height="@ + tagged_height_text(target)
            },
            WalletError::TreeRootsDiverged { height } => {
                "wallet commitment-tree roots diverge from the chain at height "@
                    + tagged_height_text(height)
            },
            WalletError::UnverifiedScanChunk { scanned_to, source } => {
                "scanned chunk up to "@ + height_text(scanned_to)
                    + " could not be compared with the chain: "@ + source.described()
            },
            WalletError::PaymentDisclosureSourceMissing { transaction_id } => {
                "no finalized PCZT is retained for transaction "@ + crate::text::hex_text(
                    transaction_id@,
                )
            },
            WalletError::PaymentDisclosureExport(e) => {
                "payment disclosure error: "@ + e.described()
            },
            WalletError::SyncDriverFailed { reason } => "sync driver task panicked: "@ + reason@,
        }
    }

    /// Describes the error.
    pub fn describe(&self) -> (text: String)
        ensures
            text@ == self.described(),
        decreases self,
    {
        match self {
            WalletError::Sealing(e) => {
                "seed sealing error: ".to_owned().concat(e.describe().as_str())
            },
            WalletError::Storage(e) => "storage error: ".to_owned().concat(e.describe().as_str()),
            WalletError::KeyDerivation(e) => {
                "key derivation error: ".to_owned().concat(e.describe().as_str())
            },
            WalletError::NoSealedSeed => "no sealed seed found for wallet".to_owned(),
            WalletError::AccountAlreadyExists => {
                "an account already exists at this wallet location".to_owned()
            },
            WalletError::AccountNotFound => {
                "no account in storage matches the unsealed seed".to_owned()
            },
            WalletError::NetworkMismatch { storage, requested } => {
                "network mismatch: storage=".to_owned().concat(storage.name()).concat(
                    ", requested=",
                ).concat(requested.name())
            },
            WalletError::ChainSource(e) => {
                "chain source error: ".to_owned().concat(e.describe().as_str())
            },
            WalletError::Submitter(e) => {
                "submitter error: ".to_owned().concat(e.describe().as_str())
            },
            WalletError::MemoOnTransparentRecipient => {
                "memos are not permitted on transparent recipients (ZIP-302)".to_owned()
            },
            WalletError::ShieldedInputsOnTexRecipient => {
                "TEX recipients (ZIP-320) require an all-transparent input set".to_owned()
            },
            WalletError::InsufficientBalance { requested_zat, spendable_zat } => {
                "insufficient spendable balance: requested ".to_owned().concat(
                    amount(*requested_zat).as_str(),
                ).concat(", spendable ").concat(amount(*spendable_zat).as_str())
            },
            WalletError::PaymentRequestParseFailed { reason } => {
                "payment request parse failed: ".to_owned().concat(reason.as_str())
            },
            WalletError::ProposalRejected { reason } => {
                "proposal rejected: ".to_owned().concat(reason.as_str())
            },
            WalletError::SubmissionRejected { reason, detail } => {
                "submission rejected (".to_owned().concat(reason.name()).concat("): ").concat(
                    detail.as_str(),
                )
            },
            WalletError::SubmittedTransactionIdMismatch { expected, returned } => {
                "submitter answered for transaction ".to_owned().concat(
                    tx_text(*returned).as_str(),
                ).concat(" instead of ").concat(tx_text(*expected).as_str())
            },
            WalletError::Pczt(e) => "pczt error: ".to_owned().concat(e.describe().as_str()),
            WalletError::CircuitBroken { .. } => {
                "wallet circuit breaker is open; failures exceeded the configured threshold".to_owned()
            },
            WalletError::TargetExpiryStale { target, chain_tip } => {
                "target_expiry_height=".to_owned().concat(
                    tagged_height(*target).as_str(),
                ).concat(" is at or below the wallet's observed tip=").concat(
                    tagged_height(*chain_tip).as_str(),
                )
            },
            WalletError::TargetExpiryMismatch { target, signed } => {
                "signed transaction expiry_height=".to_owned().concat(
                    tagged_height(*signed).as_str(),
                ).concat(" does not match target_expiry_height=").concat(
                    tagged_height(*target).as_str(),
                )
            },
            WalletError::TreeRootsDiverged { height } => {
                "wallet commitment-tree roots diverge from the chain at height ".to_owned().concat(
                    tagged_height(*height).as_str(),
                )
            },
            WalletError::UnverifiedScanChunk { scanned_to, source } => {
                "scanned chunk up to ".to_owned().concat(
                    height_number(*scanned_to).as_str(),
                ).concat(" could not be compared with the chain: ").concat(
                    source.describe().as_str(),
                )
            },
            WalletError::PaymentDisclosureSourceMissing { transaction_id } => {
                "no finalized PCZT is retained for transaction ".to_owned().concat(
                    tx_text(*transaction_id).as_str(),
                )
            },
            WalletError::PaymentDisclosureExport(e) => {
                "payment disclosure error: ".to_owned().concat(e.describe().as_str())
            },
            WalletError::SyncDriverFailed { reason } => {
                "sync driver task panicked: ".to_owned().concat(reason.as_str())
            },
        }
    }
}

} // verus!
