//! What a payment request, its recipient, and its memo say.

use crate::disclosure::{
    DisclosableReceivers, DisclosureSearch, ExportPaymentDisclosurePlan, PaymentDisclosureProfile,
};
use crate::domain::Network;
use crate::error::WalletError;
use crate::payment::PaymentRecipient;
use crate::payment_uri::{
    AddressFacts, AddressView, ParsedPayment, ParsedView, PaymentView, RequestedPayment,
};
use crate::pczt::FeeStrategy;
use crate::spend::ProposalPlan;
use vstd::prelude::*;

verus! {

/// A recipient's text, network, and shape are those of its address, whichever shape it has.
pub proof fn a_recipient_is_its_address(encoded: String, network: Network)
    ensures
        ({
            let unified = PaymentRecipient::UnifiedAddress { encoded, network };
            &&& unified.encoded_text() == encoded@
            &&& unified.network_spec() == network
            &&& unified.kind_spec() is Unified
            &&& !unified.pays_transparently()
        }),
        ({
            let sapling = PaymentRecipient::SaplingAddress { encoded, network };
            &&& sapling.encoded_text() == encoded@
            &&& sapling.network_spec() == network
            &&& sapling.kind_spec() is Sapling
            &&& !sapling.pays_transparently()
        }),
        ({
            let transparent = PaymentRecipient::TransparentAddress { encoded, network };
            &&& transparent.encoded_text() == encoded@
            &&& transparent.network_spec() == network
            &&& transparent.kind_spec() is Transparent
            &&& transparent.pays_transparently()
        }),
        ({
            let tex = PaymentRecipient::TexAddress { encoded, network };
            &&& tex.encoded_text() == encoded@
            &&& tex.network_spec() == network
            &&& tex.kind_spec() is Tex
            &&& tex.pays_transparently()
        }),
{
}

/// An address is told by how it starts: a TEX address with `tex`, a unified one with `u`, a
/// Sapling one with the prefix of one of the three networks, and any other is transparent.
pub proof fn an_address_is_told_by_how_it_starts(encoded: Seq<char>, rest: Seq<char>)
    ensures
        encoded == "tex"@ + rest ==> crate::payment::kind_by_prefix(encoded) is Tex,
        encoded == "u"@ + rest ==> crate::payment::kind_by_prefix(encoded) is Unified,
        encoded == "zs"@ + rest ==> crate::payment::kind_by_prefix(encoded) is Sapling,
        encoded == "ztestsapling"@ + rest ==> crate::payment::kind_by_prefix(encoded) is Sapling,
        encoded == "zregtestsapling"@ + rest ==> crate::payment::kind_by_prefix(encoded)
            is Sapling,
        encoded.len() > 0 && encoded[0] != 't' && encoded[0] != 'u' && encoded[0] != 'z'
            ==> crate::payment::kind_by_prefix(encoded) is Transparent,
        encoded.len() > 1 && encoded[0] == 't' && encoded[1] != 'e'
            ==> crate::payment::kind_by_prefix(encoded) is Transparent,
        encoded.len() == 0 ==> crate::payment::kind_by_prefix(encoded) is Transparent,
        crate::payment::kind_by_prefix(encoded) is Unified <==> encoded.len() > 0 && encoded[0]
            == 'u',
{
    reveal_strlit("tex");
    reveal_strlit("u");
    reveal_strlit("zs");
    reveal_strlit("ztestsapling");
    reveal_strlit("zregtestsapling");
    assert(("tex"@ + rest).take(3) =~= "tex"@);
    assert(("u"@ + rest).take(1) =~= "u"@);
    assert(("zs"@ + rest).take(2) =~= "zs"@);
    assert(("ztestsapling"@ + rest).take(12) =~= "ztestsapling"@);
    assert(("zregtestsapling"@ + rest).take(15) =~= "zregtestsapling"@);
    if encoded.len() >= 3 {
        assert(encoded.take(3)[0] == encoded[0]);
        assert(encoded.take(3)[1] == encoded[1]);
    }
    if encoded.len() >= 1 {
        assert(encoded.take(1)[0] == encoded[0]);
        assert(encoded[0] == 'u' ==> encoded.take(1) =~= "u"@);
    }
    if encoded.len() >= 2 {
        assert(encoded.take(2)[0] == encoded[0]);
    }
    if encoded.len() >= 12 {
        assert(encoded.take(12)[0] == encoded[0]);
    }
    if encoded.len() >= 15 {
        assert(encoded.take(15)[0] == encoded[0]);
    }
}

/// Unpadding takes off the zeros at the end and nothing else: what is left does not end in a
/// zero, and followed by as many zeros as were taken off it is what was given.
pub proof fn unpadding_takes_off_only_padding(bytes: Seq<u8>)
    ensures
        ({
            let kept = crate::payment::unpadded(bytes);
            &&& kept.len() <= bytes.len()
            &&& kept == bytes.take(kept.len() as int)
            &&& kept.len() > 0 ==> kept.last() != 0
            &&& forall|i: int| kept.len() <= i < bytes.len() ==> #[trigger] bytes[i] == 0
        }),
    decreases bytes.len(),
{
    let kept = crate::payment::unpadded(bytes);
    if bytes.len() > 0 && bytes.last() == 0 {
        let fewer = bytes.drop_last();
        unpadding_takes_off_only_padding(fewer);
        assert(fewer.take(kept.len() as int) =~= bytes.take(kept.len() as int));
        assert forall|i: int| kept.len() <= i < bytes.len() implies #[trigger] bytes[i] == 0 by {
            if i < fewer.len() {
                assert(fewer[i] == bytes[i]);
            }
        }
    } else {
        assert(bytes.take(bytes.len() as int) =~= bytes);
    }
}

/// Bytes are a memo exactly if they fit the five hundred and twelve bytes of the field and,
/// where they announce a text, are one.
pub proof fn a_memo_fits_its_field(bytes: Seq<u8>)
    ensures
        ({
            let kept = crate::payment::unpadded(bytes);
            let announces_text = kept.len() > 0 && kept[0] <= 0xF4;
            crate::payment::is_memo(bytes) <==> bytes.len() <= 512 && (announces_text
                ==> vstd::utf8::valid_utf8(kept))
        }),
        crate::payment::no_memo() == seq![0xF6u8],
        crate::payment::is_memo(seq![0xF6u8]),
        bytes.len() > 512 ==> crate::payment::memo_defect_text(bytes) == "Memo length "@
            + crate::text::decimal_text(bytes.len()) + " is larger than maximum of 512"@,
        bytes.len() <= 512 ==> crate::payment::memo_defect_text(bytes)
            == crate::payment::invalid_memo_text(bytes),
{
}

/// What a requested payment says is what its fields hold.
pub proof fn a_requested_payment_says_its_fields(payment: RequestedPayment)
    ensures
        payment@.0 == payment.recipient@,
        payment@.1 == payment.amount,
        payment@.2 is Some <==> payment.memo is Some,
        payment.memo matches Some(memo) ==> payment@.2 == Some(memo@),
        payment@.3 is Some <==> payment.label is Some,
        payment.label matches Some(label) ==> payment@.3 == Some(label@),
        payment@.4 is Some <==> payment.message is Some,
        payment.message matches Some(message) ==> payment@.4 == Some(message@),
{
}

/// What a parsed payment says is what its fields hold, and it always states an amount.
pub proof fn a_parsed_payment_says_its_fields(payment: ParsedPayment)
    requires
        0 <= payment.amount@ <= u64::MAX,
    ensures
        payment@.0 == payment.recipient.kind_spec(),
        payment@.1 == payment.recipient.network_spec(),
        payment@.2.0 == payment.recipient.encoded_text(),
        payment@.2.1 matches Some(amount) && amount == payment.amount@,
        payment@.2.2 is Some <==> payment.memo is Some,
        payment.memo matches Some(memo) ==> payment@.2.2 == Some(memo@),
        payment@.2.3 is Some <==> payment.label is Some,
        payment.label matches Some(label) ==> payment@.2.3 == Some(label@),
        payment@.2.4 is Some <==> payment.message is Some,
        payment.message matches Some(message) ==> payment@.2.4 == Some(message@),
{
}

/// What an address is, is what was read off it.
pub proof fn an_address_says_its_facts(facts: AddressFacts, receivers: DisclosableReceivers)
    ensures
        facts@.0 == facts.canonical@,
        facts@.1 == facts.is_sprout,
        facts@.2 == facts.can_receive_memo,
        facts@.3 == facts.is_transparent_only,
        receivers@.0 == receivers.has_sapling,
        receivers@.1 == receivers.has_unified_orchard,
{
}

/// A requested payment is parsed to what it states: the same recipient, amount, label, and
/// message, its memo without padding, on the network at hand. It is refused exactly if it
/// states no amount, more than can exist, or bytes that are no memo.
pub proof fn a_payment_is_parsed_to_what_it_states(payment: PaymentView, network: Network)
    ensures
        ({
            let parsed = crate::payment_uri::parsed_view(payment, network);
            let payable = payment.1 is Some && payment.1->Some_0 <= 2_100_000_000_000_000 && (
            payment.2 matches Some(memo) ==> crate::payment::is_memo(memo));
            &&& parsed is Ok <==> payable
            &&& parsed matches Ok(view) ==> {
                &&& view.0 == crate::payment::kind_by_prefix(payment.0)
                &&& view.1 == network
                &&& view.2.0 == payment.0
                &&& view.2.1 == payment.1
                &&& view.2.2 is Some <==> payment.2 is Some
                &&& payment.2 matches Some(memo) ==> view.2.2 == Some(
                    crate::payment::unpadded(memo),
                )
                &&& view.2.3 == payment.3
                &&& view.2.4 == payment.4
            }
            &&& payment.1 is None ==> parsed == Err::<ParsedView, Seq<char>>(
                "payment is missing an amount"@,
            )
        }),
{
}

/// Requested payments are parsed one for one and in order, and all of them or none: the first
/// that cannot be paid decides why.
pub proof fn payments_are_parsed_one_for_one(
    payments: Seq<PaymentView>,
    network: Network,
    index: int,
)
    requires
        0 <= index < payments.len(),
    ensures
        ({
            let parsed = crate::payment_uri::parsed_views(payments, network);
            &&& parsed matches Ok(views) ==> {
                &&& views.len() == payments.len()
                &&& crate::payment_uri::parsed_view(payments[index], network) == Ok::<
                    ParsedView,
                    Seq<char>,
                >(views[index])
            }
            &&& crate::payment_uri::parsed_view(payments[index], network) is Err ==> parsed is Err
        }),
    decreases payments.len(),
{
    let fewer = payments.drop_last();
    if index < fewer.len() {
        payments_are_parsed_one_for_one(fewer, network, index);
        assert(fewer[index] == payments[index]);
    } else if fewer.len() > 0 {
        payments_are_parsed_one_for_one(fewer, network, 0);
    } else {
        assert(fewer =~= Seq::empty());
    }
}

/// A URI requests the payments it parses to; one that does not parse requests none, for the
/// parser's own reason.
pub proof fn a_uri_requests_what_it_parses_to(uri: Seq<char>, network: Network)
    ensures
        match crate::payment_uri::zip321_parsed(uri) {
            Ok(payments) => crate::payment_uri::requested_by(uri, network)
                == crate::payment_uri::parsed_views(payments, network),
            Err(description) => crate::payment_uri::requested_by(uri, network) == Err::<
                Seq<ParsedView>,
                Seq<char>,
            >(description),
        },
        crate::payment_uri::parsed_views(Seq::empty(), network) is Ok,
{
}

/// An address takes a payment unless it is a Sprout address, is to carry a memo it cannot
/// receive, or would be a transparent output of no value.
pub proof fn an_address_takes_what_it_can_carry(
    address: AddressView,
    amount: Option<u64>,
    has_memo: bool,
)
    ensures
        crate::payment_uri::refusal(address, amount, has_memo) is None <==> !address.1 && !(has_memo
            && !address.2) && !(address.3 && amount == Some(0u64)),
        address.1 ==> crate::payment_uri::refusal(address, amount, has_memo) == Some(
            "Sprout recipients are not supported in payment requests (ZIP 321)"@,
        ),
        !address.1 && has_memo && !address.2 ==> crate::payment_uri::refusal(
            address,
            amount,
            has_memo,
        ) == Some("Cannot send a memo to a transparent recipient address"@),
{
}

/// A payment that parses back to itself can be stated in a URI and is recovered whole.
pub proof fn a_stated_payment_is_recovered_whole(payment: ParsedView, network: Network)
    requires
        crate::payment_uri::round_trips(payment, network),
    ensures
        crate::payment_uri::parsed_view(payment.2, network) == Ok::<ParsedView, Seq<char>>(
            payment,
        ),
        crate::payment_uri::acceptable(payment.2),
        crate::payment_uri::parsed_address(payment.2.0) matches Ok(address) && address.0
            == payment.2.0 && crate::payment_uri::refusal(
            address,
            payment.2.1,
            payment.2.2 is Some,
        ) is None,
        payment.2.1 matches Some(amount) ==> amount <= 2_100_000_000_000_000,
        payment.2.2 matches Some(memo) ==> memo.len() <= 512,
        payment.1 == network,
{
    a_payment_is_parsed_to_what_it_states(payment.2, network);
}

/// What a list of payments says is what each of them says, one for one, and up to nine thousand
/// nine hundred and ninety-nine of them fit one URI.
pub proof fn a_list_says_what_each_payment_says(
    requested: Seq<RequestedPayment>,
    parsed: Seq<ParsedPayment>,
    views: Seq<ParsedView>,
    index: int,
)
    ensures
        0 <= index < requested.len() ==> crate::payment_uri::payment_views(requested).len()
            == requested.len() && crate::payment_uri::payment_views(requested)[index]
            == requested[index]@,
        0 <= index < parsed.len() ==> crate::payment_uri::parsed_payment_views(parsed).len()
            == parsed.len() && crate::payment_uri::parsed_payment_views(parsed)[index]
            == parsed[index]@,
        0 <= index < views.len() ==> crate::payment_uri::stated_views(views).len() == views.len()
            && crate::payment_uri::stated_views(views)[index] == views[index].2,
        crate::payment_uri::MAX_URI_PAYMENTS == 9_999,
{
}

/// A PCZT proposal is refused for the first guard it fails: network, memo, amount, fee.
pub proof fn a_refused_proposal_names_its_first_defect(
    plan: ProposalPlan,
    fee: FeeStrategy,
    wallet_network: Network,
    error: WalletError,
)
    requires
        crate::pczt::proposal_guard_fails(plan, fee, wallet_network, error),
    ensures
        ({
            let network = plan.recipient.network_spec();
            &&& network != wallet_network ==> error == (WalletError::NetworkMismatch {
                storage: wallet_network,
                requested: network,
            })
            &&& network == wallet_network ==> error is MemoOnTransparentRecipient || error
                is ProposalRejected
            &&& error is MemoOnTransparentRecipient ==> crate::spend::memo_forbidden(
                plan.memo,
                plan.recipient,
            )
            &&& network == wallet_network && crate::spend::memo_forbidden(plan.memo, plan.recipient)
                ==> error is MemoOnTransparentRecipient
            &&& error is ProposalRejected && plan.amount_zat@ == 0 ==> error.rejected_with(
                "amount must be positive"@,
            )
            &&& error is ProposalRejected && plan.amount_zat@ != 0 ==> fee is Other
                && error.rejected_with("only ZIP-317 conventional fee is wired in v1"@)
        }),
{
}

/// A memo is forbidden exactly where it says something and the output is transparent.
pub proof fn only_a_speaking_memo_is_forbidden(
    memo: Option<crate::payment::Memo>,
    recipient: PaymentRecipient,
)
    ensures
        crate::spend::memo_forbidden(memo, recipient) <==> (memo matches Some(m) && m@
            != seq![0xF6u8]) && (recipient is TransparentAddress || recipient is TexAddress),
{
}

/// A payment can be disclosed exactly if the recipient has the receiver its profile needs: a
/// Sapling one, or a unified address's Orchard one.
pub proof fn a_profile_discloses_its_own_receiver(has_sapling: bool, has_unified_orchard: bool)
    ensures
        crate::disclosure::has_profile_receiver(
            PaymentDisclosureProfile::Zip311Draft1,
            Some((has_sapling, has_unified_orchard)),
        ) <==> has_sapling,
        crate::disclosure::has_profile_receiver(
            PaymentDisclosureProfile::ZallyIronwood,
            Some((has_sapling, has_unified_orchard)),
        ) <==> has_unified_orchard,
        !crate::disclosure::has_profile_receiver(PaymentDisclosureProfile::Zip311Draft1, None),
        !crate::disclosure::has_profile_receiver(PaymentDisclosureProfile::ZallyIronwood, None),
        crate::disclosure::receivers_view(
            Some(DisclosableReceivers { has_sapling, has_unified_orchard }),
        ) == Some((has_sapling, has_unified_orchard)),
        crate::disclosure::receivers_view(None) is None,
{
}

/// An export begins with its own plan on the wallet's network exactly if the profile can
/// disclose the recipient, and is refused for good otherwise.
pub proof fn an_export_begins_with_its_own_plan(
    search: Result<DisclosureSearch, WalletError>,
    plan: ExportPaymentDisclosurePlan,
    wallet_network: Network,
    receivers: Option<(bool, bool)>,
)
    requires
        crate::disclosure::begins(search, plan, wallet_network, receivers),
    ensures
        search is Ok <==> match (plan.profile, receivers) {
            (PaymentDisclosureProfile::Zip311Draft1, Some((has_sapling, _))) => has_sapling,
            (PaymentDisclosureProfile::ZallyIronwood, Some((_, has_orchard))) => has_orchard,
            (_, None) => false,
        },
        search matches Ok(begun) ==> begun.plan_spec() == plan && begun.network_spec()
            == wallet_network,
        search matches Err(error) ==> error is PaymentDisclosureExport
            && !error.posture_spec().permits_retry(),
{
}

} // verus!
