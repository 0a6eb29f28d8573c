use zally_wallet::boundary_error::PaymentDisclosureExportErrorKind;
use zally_wallet::disclosure::{
    DisclosableReceivers, DisclosureSearch, ExportPaymentDisclosurePlan, PaymentDisclosureProfile,
};
use zally_wallet::domain::{Network, TxId, Zatoshis};
use zally_wallet::error::WalletError;
use zally_wallet::payment::{classify_recipient, PaymentRecipient};

const SAPLING: &str =
    "zs1z7rejlpsa98s2rrrfkwmaxu53e4ue0ulcrw0h4x5g8jl04tak0d3mm47vdtahatqrlkngh9slya";
const UNIFIED_BOTH: &str = "u1ay3aawlldjrmxqnjf5medr5ma6p3acnet464ht8lmwplq5cd3ugytcmlf96rrmtgwldc75x94qn4n8pgen36y8tywlq6yjk7lkf3fa8wzjrav8z2xpxqnrnmjxh8tmz6jhfh425t7f3vy6p4pd3zmqayq49efl2c4xydc0gszg660q9p";
const UNIFIED_ORCHARD: &str = "u1ddnjsdcpm36r6aq79n3s68shjweksnmwtdltrh046s8m6xcws9ygyawalxx8n6hg6vegk0wh8zjnafxgh6msppjsljvyt0ynece3lvm0";
const TRANSPARENT: &str = "t1Hsc1LR8yKnbbe3twRp88p6vFfC5t7DLbs";

fn plan(encoded: &str, profile: PaymentDisclosureProfile) -> ExportPaymentDisclosurePlan {
    ExportPaymentDisclosurePlan::new(
        TxId::from_bytes([5; 32]),
        classify_recipient(encoded, Network::Mainnet),
        Zatoshis::from_u64(3).expect("amount"),
        vec![1],
        profile,
    )
}

fn is_unsupported(search: Result<DisclosureSearch, WalletError>) -> bool {
    matches!(
        search,
        Err(WalletError::PaymentDisclosureExport(error))
            if matches!(error.kind, PaymentDisclosureExportErrorKind::RecipientUnsupported)
    )
}

#[test]
fn a_profile_needs_its_receiver() {
    let begin = |encoded: &str, profile| {
        DisclosureSearch::begin(plan(encoded, profile), Network::Mainnet)
    };
    let sapling = PaymentDisclosureProfile::Zip311Draft1;
    let ironwood = PaymentDisclosureProfile::ZallyIronwood;
    assert!(begin(SAPLING, sapling).is_ok());
    assert!(is_unsupported(begin(SAPLING, ironwood)));
    assert!(begin(UNIFIED_BOTH, sapling).is_ok());
    assert!(begin(UNIFIED_BOTH, ironwood).is_ok());
    assert!(is_unsupported(begin(UNIFIED_ORCHARD, sapling)));
    assert!(begin(UNIFIED_ORCHARD, ironwood).is_ok());
    assert!(is_unsupported(begin(TRANSPARENT, sapling)));
    assert!(is_unsupported(begin("zs1nonsense", sapling)));
}

#[test]
fn a_recipient_of_another_network_is_refused_first() {
    let mut foreign = plan(SAPLING, PaymentDisclosureProfile::Zip311Draft1);
    foreign.recipient = PaymentRecipient::SaplingAddress {
        encoded: SAPLING.into(),
        network: Network::Testnet,
    };
    assert!(matches!(
        DisclosureSearch::begin(foreign, Network::Mainnet),
        Err(WalletError::NetworkMismatch {
            storage: Network::Mainnet,
            requested: Network::Testnet
        })
    ));
    let mut misplaced = plan(SAPLING, PaymentDisclosureProfile::Zip311Draft1);
    misplaced.recipient = PaymentRecipient::SaplingAddress {
        encoded: SAPLING.into(),
        network: Network::Testnet,
    };
    assert!(
        is_unsupported(DisclosureSearch::begin(misplaced, Network::Testnet)),
        "a mainnet address decodes to nothing on the test network"
    );
}

#[test]
fn the_source_must_be_retained() {
    let search = DisclosureSearch::begin(
        plan(SAPLING, PaymentDisclosureProfile::Zip311Draft1),
        Network::Mainnet,
    )
    .expect("supported");
    assert_eq!(search.transaction_id(), TxId::from_bytes([5; 32]));
    assert!(matches!(
        search.found(None),
        Err(WalletError::PaymentDisclosureSourceMissing { transaction_id })
            if transaction_id == TxId::from_bytes([5; 32])
    ));
}

#[test]
fn an_export_is_bound_to_the_wallet_network() {
    let receivers = Some(DisclosableReceivers {
        has_sapling: false,
        has_unified_orchard: true,
    });
    let search = DisclosureSearch::begin_with(
        plan("u1example", PaymentDisclosureProfile::ZallyIronwood),
        Network::Mainnet,
        receivers,
    )
    .expect("supported");
    let export = search.found(Some(vec![4, 5])).expect("retained");
    assert_eq!(export.plan().message, vec![1]);
    assert_eq!(export.finalized_pczt().network(), Network::Mainnet);
    let disclosure = export.exported(vec![8, 9]);
    assert_eq!(disclosure.network(), Network::Mainnet);
    assert_eq!(disclosure.profile(), PaymentDisclosureProfile::ZallyIronwood);
    assert_eq!(disclosure.transaction_id(), TxId::from_bytes([5; 32]));
    assert!(disclosure == disclosure.clone());
    assert_eq!(disclosure.portable(), &vec![8, 9]);
    assert_eq!(disclosure.to_bytes(), vec![8, 9]);
}
