//! Payment-disclosure export bound to a network-tagged wallet.
//!
//! The sealed seed is unsealed only after the source PCZT was found and the recipient's network
//! was matched: each stage of an export is a type of its own that only the stage before it
//! yields.

use crate::boundary_error::PaymentDisclosureExportError;
use crate::domain::{Network, TxId, Zatoshis};
use crate::error::WalletError;
use crate::payment::PaymentRecipient;
use crate::pczt::PcztBytes;
use crate::sync::attempt::require_same_network;
use vstd::prelude::*;
use zcash_address::ZcashAddress;
use zcash_keys::address::Address;
use zcash_protocol::consensus::NetworkType;

verus! {

/// Immutable disclosure profile.
#[derive(Clone, Copy, Debug, PartialEq, Eq, Structural)]
pub enum PaymentDisclosureProfile {
    /// Sapling disclosure, first draft of ZIP-311.
    Zip311Draft1,
    /// Ironwood disclosure.
    ZallyIronwood,
}

/// Inputs to a disclosure export.
#[derive(Clone, Debug)]
pub struct ExportPaymentDisclosurePlan {
    /// Transaction whose payment is disclosed.
    pub transaction_id: TxId,
    /// External recipient selected from the retained finalized PCZT.
    pub recipient: PaymentRecipient,
    /// Exact payment amount selected from the retained finalized PCZT.
    pub amount_zat: Zatoshis,
    /// Caller-supplied message or interactive challenge.
    pub message: Vec<u8>,
    /// Disclosure profile to produce.
    pub profile: PaymentDisclosureProfile,
}

impl ExportPaymentDisclosurePlan {
    /// Constructs a payment-disclosure export plan.
    pub fn new(
        transaction_id: TxId,
        recipient: PaymentRecipient,
        amount_zat: Zatoshis,
        message: Vec<u8>,
        profile: PaymentDisclosureProfile,
    ) -> (plan: ExportPaymentDisclosurePlan)
        ensures
            plan == (ExportPaymentDisclosurePlan {
                transaction_id,
                recipient,
                amount_zat,
                message,
                profile,
            }),
    {
        ExportPaymentDisclosurePlan { transaction_id, recipient, amount_zat, message, profile }
    }
}

/// Portable payment disclosure, in the canonical bytes of its profile, plus the network on
/// which it is valid. It has no debug rendering: its bytes are never logged.
#[derive(Clone, PartialEq, Eq)]
pub struct PaymentDisclosure {
    network: Network,
    profile: PaymentDisclosureProfile,
    transaction_id: TxId,
    portable: Vec<u8>,
}

impl PaymentDisclosure {
    /// The network on which this disclosure is valid.
    pub closed spec fn network_spec(&self) -> Network {
        self.network
    }

    /// The profile that the disclosure was produced under.
    pub closed spec fn profile_spec(&self) -> PaymentDisclosureProfile {
        self.profile
    }

    /// The transaction whose payment is disclosed.
    pub closed spec fn transaction_id_spec(&self) -> TxId {
        self.transaction_id
    }

    /// The canonical bytes.
    pub closed spec fn portable_spec(&self) -> Seq<u8> {
        self.portable@
    }

    /// The network on which this disclosure is valid.
    pub fn network(&self) -> (network: Network)
        ensures
            network == self.network_spec(),
    {
        self.network
    }

    /// The profile that the disclosure was produced under.
    pub fn profile(&self) -> (profile: PaymentDisclosureProfile)
        ensures
            profile == self.profile_spec(),
    {
        self.profile
    }

    /// The transaction whose payment is disclosed.
    pub fn transaction_id(&self) -> (tx_id: TxId)
        ensures
            tx_id == self.transaction_id_spec(),
    {
        self.transaction_id
    }

    /// The portable disclosure, for verification.
    pub fn portable(&self) -> (portable: &Vec<u8>)
        ensures
            portable@ == self.portable_spec(),
    {
        &self.portable
    }

    /// The portable disclosure in its canonical profile format.
    pub fn to_bytes(&self) -> (bytes: Vec<u8>)
        ensures
            bytes@ == self.portable_spec(),
    {
        let bytes = self.portable.clone();
        assert(bytes@ =~= self.portable@);
        bytes
    }
}

/// Receivers of a decoded recipient that a profile can disclose.
#[derive(Clone, Copy, Debug, PartialEq, Eq, Structural)]
pub struct DisclosableReceivers {
    /// The address is a Sapling address or a unified one with a Sapling receiver.
    pub has_sapling: bool,
    /// The address is a unified one with an Orchard receiver.
    pub has_unified_orchard: bool,
}

impl View for DisclosableReceivers {
    type V = (bool, bool);

    open spec fn view(&self) -> (bool, bool) {
        (self.has_sapling, self.has_unified_orchard)
    }
}

/// What `zcash_keys` makes of an encoded address on a network: whether it has a Sapling
/// receiver, and whether it is a unified address with an Orchard receiver; `None` when it is no
/// address of that network.
pub uninterp spec fn decoded_receivers(network: Network, encoded: Seq<char>) -> Option<
    (bool, bool),
>;

/// Calls `zcash_address::ZcashAddress`'s `from_str` and `convert_if_network` into
/// `zcash_keys::address::Address`, which together are `Address::decode`, and reads the receivers
/// off the address: `Address::to_sapling_address`, `UnifiedAddress::orchard`.
///
/// Claimed of them: the receivers depend on the network and the text alone.
#[verifier::external_body]
fn read_receivers(network: Network, encoded: &str) -> (receivers: Option<DisclosableReceivers>)
    ensures
        match (receivers, decoded_receivers(network, encoded@)) {
            (Some(found), Some(view)) => found@ == view,
            (None, None) => true,
            _ => false,
        },
{
    let network_type = match network {
        Network::Mainnet => NetworkType::Main,
        Network::Testnet => NetworkType::Test,
        Network::Regtest => NetworkType::Regtest,
    };
    let parsed = encoded.parse::<ZcashAddress>().ok()?;
    let address: Address = parsed.convert_if_network(network_type).ok()?;
    let has_sapling = address.to_sapling_address().is_some();
    let has_unified_orchard = match address {
        Address::Sapling(_) => false,
        Address::Transparent(_) => false,
        Address::Unified(unified) => unified.orchard().is_some(),
        Address::Tex(_) => false,
    };
    Some(DisclosableReceivers { has_sapling, has_unified_orchard })
}

/// The profile can disclose a payment to a recipient with these receivers.
pub open spec fn has_profile_receiver(
    profile: PaymentDisclosureProfile,
    receivers: Option<(bool, bool)>,
) -> bool {
    match receivers {
        Some((has_sapling, has_unified_orchard)) => match profile {
            PaymentDisclosureProfile::Zip311Draft1 => has_sapling,
            PaymentDisclosureProfile::ZallyIronwood => has_unified_orchard,
        },
        None => false,
    }
}

/// The receivers as plain values.
pub open spec fn receivers_view(receivers: Option<DisclosableReceivers>) -> Option<(bool, bool)> {
    match receivers {
        Some(found) => Some(found@),
        None => None,
    }
}

/// An export whose recipient passed: the source PCZT is to be found.
#[derive(Debug)]
pub struct DisclosureSearch {
    plan: ExportPaymentDisclosurePlan,
    network: Network,
}

/// An export whose source PCZT was found: the seed may be unsealed. It has no debug rendering:
/// the retained PCZT is never logged.
pub struct DisclosureExport {
    plan: ExportPaymentDisclosurePlan,
    network: Network,
    finalized_pczt: PcztBytes,
}

impl DisclosureSearch {
    #[verifier::type_invariant]
    closed spec fn is_on_the_wallet_network(self) -> bool {
        self.plan.recipient.network_spec() == self.network
    }

    /// The export's inputs.
    pub closed spec fn plan_spec(&self) -> ExportPaymentDisclosurePlan {
        self.plan
    }

    /// The wallet's network.
    pub closed spec fn network_spec(&self) -> Network {
        self.network
    }

    /// Begins an export: the recipient must be on the wallet's network and have a receiver that
    /// the profile can disclose.
    pub fn begin(plan: ExportPaymentDisclosurePlan, wallet_network: Network) -> (search: Result<
        DisclosureSearch,
        WalletError,
    >)
        ensures
            plan.recipient.network_spec() != wallet_network ==> search == Err::<
                DisclosureSearch,
                WalletError,
            >(
                WalletError::NetworkMismatch {
                    storage: wallet_network,
                    requested: plan.recipient.network_spec(),
                },
            ),
            plan.recipient.network_spec() == wallet_network ==> begins(
                search,
                plan,
                wallet_network,
                decoded_receivers(wallet_network, plan.recipient.encoded_text()),
            ),
    {
        match require_same_network(wallet_network, plan.recipient.network()) {
            Ok(()) => {},
            Err(error) => return Err(error),
        }
        let receivers = read_receivers(wallet_network, plan.recipient.encoded());
        Self::begin_with(plan, wallet_network, receivers)
    }

    /// Begins an export to a recipient that decoded to `receivers`.
    pub fn begin_with(
        plan: ExportPaymentDisclosurePlan,
        wallet_network: Network,
        receivers: Option<DisclosableReceivers>,
    ) -> (search: Result<DisclosureSearch, WalletError>)
        ensures
            plan.recipient.network_spec() != wallet_network ==> search == Err::<
                DisclosureSearch,
                WalletError,
            >(
                WalletError::NetworkMismatch {
                    storage: wallet_network,
                    requested: plan.recipient.network_spec(),
                },
            ),
            plan.recipient.network_spec() == wallet_network ==> begins(
                search,
                plan,
                wallet_network,
                receivers_view(receivers),
            ),
    {
        match require_same_network(wallet_network, plan.recipient.network()) {
            Ok(()) => {},
            Err(error) => return Err(error),
        }
        let supported = match receivers {
            Some(found) => match plan.profile {
                PaymentDisclosureProfile::Zip311Draft1 => found.has_sapling,
                PaymentDisclosureProfile::ZallyIronwood => found.has_unified_orchard,
            },
            None => false,
        };
        if !supported {
            return Err(
                WalletError::PaymentDisclosureExport(
                    PaymentDisclosureExportError::recipient_unsupported(),
                ),
            );
        }
        Ok(DisclosureSearch { plan, network: wallet_network })
    }

    /// Transaction whose finalized PCZT is to be found.
    pub fn transaction_id(&self) -> (tx_id: TxId)
        ensures
            tx_id == self.plan_spec().transaction_id,
    {
        self.plan.transaction_id
    }

    /// Takes in the retained PCZT, if storage holds one.
    pub fn found(self, finalized_pczt: Option<Vec<u8>>) -> (export: Result<
        DisclosureExport,
        WalletError,
    >)
        ensures
            match finalized_pczt {
                Some(bytes) => {
                    &&& export matches Ok(e)
                    &&& e.plan_spec() == self.plan_spec()
                    &&& e.network_spec() == self.network_spec()
                    &&& e.pczt_spec().bytes_spec() == bytes
                    &&& e.pczt_spec().network_spec() == self.network_spec()
                },
                None => export == Err::<DisclosureExport, WalletError>(
                    WalletError::PaymentDisclosureSourceMissing {
                        transaction_id: self.plan_spec().transaction_id,
                    },
                ),
            },
    {
        match finalized_pczt {
            Some(bytes) => {
                proof {
                    use_type_invariant(&self);
                }
                let network = self.network;
                Ok(
                    DisclosureExport {
                        plan: self.plan,
                        network,
                        finalized_pczt: PcztBytes::from_serialized(bytes, network),
                    },
                )
            },
            None => Err(
                WalletError::PaymentDisclosureSourceMissing {
                    transaction_id: self.plan.transaction_id,
                },
            ),
        }
    }
}

/// How an export on the recipient's own network begins.
pub open spec fn begins(
    search: Result<DisclosureSearch, WalletError>,
    plan: ExportPaymentDisclosurePlan,
    wallet_network: Network,
    receivers: Option<(bool, bool)>,
) -> bool {
    if has_profile_receiver(plan.profile, receivers) {
        &&& search matches Ok(s)
        &&& s.plan_spec() == plan
        &&& s.network_spec() == wallet_network
    } else {
        &&& search matches Err(WalletError::PaymentDisclosureExport(error))
        &&& error.kind is RecipientUnsupported
        &&& error.posture is NotRetryable
    }
}

impl DisclosureExport {
    #[verifier::type_invariant]
    closed spec fn is_on_the_wallet_network(self) -> bool {
        &&& self.plan.recipient.network_spec() == self.network
        &&& self.finalized_pczt.network_spec() == self.network
    }

    /// The export's inputs.
    pub closed spec fn plan_spec(&self) -> ExportPaymentDisclosurePlan {
        self.plan
    }

    /// The wallet's network.
    pub closed spec fn network_spec(&self) -> Network {
        self.network
    }

    /// The retained PCZT.
    pub closed spec fn pczt_spec(&self) -> PcztBytes {
        self.finalized_pczt
    }

    /// The export's inputs: what the unsealed seed is to disclose.
    pub fn plan(&self) -> (plan: &ExportPaymentDisclosurePlan)
        ensures
            *plan == self.plan_spec(),
            plan.recipient.network_spec() == self.network_spec(),
    {
        proof {
            use_type_invariant(self);
        }
        &self.plan
    }

    /// The retained PCZT to disclose from.
    pub fn finalized_pczt(&self) -> (pczt: &PcztBytes)
        ensures
            *pczt == self.pczt_spec(),
            pczt.network_spec() == self.network_spec(),
    {
        proof {
            use_type_invariant(self);
        }
        &self.finalized_pczt
    }

    /// Takes in the exported disclosure's canonical bytes and binds them to the network.
    pub fn exported(self, portable: Vec<u8>) -> (disclosure: PaymentDisclosure)
        ensures
            disclosure.network_spec() == self.network_spec(),
            disclosure.profile_spec() == self.plan_spec().profile,
            disclosure.transaction_id_spec() == self.plan_spec().transaction_id,
            disclosure.portable_spec() == portable@,
    {
        PaymentDisclosure {
            network: self.network,
            profile: self.plan.profile,
            transaction_id: self.plan.transaction_id,
            portable,
        }
    }
}

} // verus!
