//! ZIP-321 payment requests.

use crate::domain::{Network, Zatoshis};
use crate::error::WalletError;
use crate::payment::{classify_recipient, Memo, PaymentRecipient, RecipientKind};
use vstd::prelude::*;
use zcash_address::ZcashAddress;
use zcash_protocol::memo::MemoBytes;

verus! {

/// What a payment request says of one payment, as plain values: recipient, amount in zatoshis,
/// memo without padding, label, and message.
pub type PaymentView = (
    Seq<char>,
    Option<u64>,
    Option<Seq<u8>>,
    Option<Seq<char>>,
    Option<Seq<char>>,
);

/// What an address is, as plain values: its canonical encoding, and whether it is a Sprout
/// address, can receive a memo, and has only transparent receivers.
pub type AddressView = (Seq<char>, bool, bool, bool);

/// One payment as a ZIP-321 URI states it.
#[derive(Debug)]
pub struct RequestedPayment {
    /// Canonical encoding of the recipient address.
    pub recipient: String,
    /// Amount in zatoshis, if the URI states one.
    pub amount: Option<u64>,
    /// Memo bytes without padding, if the URI states a memo.
    pub memo: Option<Vec<u8>>,
    /// Human-readable label.
    pub label: Option<String>,
    /// Human-readable message.
    pub message: Option<String>,
}

/// The text of an optional string.
pub open spec fn text_of(text: Option<String>) -> Option<Seq<char>> {
    match text {
        Some(text) => Some(text@),
        None => None,
    }
}

impl View for RequestedPayment {
    type V = PaymentView;

    open spec fn view(&self) -> PaymentView {
        (
            self.recipient@,
            self.amount,
            match self.memo {
                Some(bytes) => Some(bytes@),
                None => None,
            },
            text_of(self.label),
            text_of(self.message),
        )
    }
}

/// What an address is, as far as payments depend on it.
#[derive(Debug)]
pub struct AddressFacts {
    /// Canonical encoding of the address.
    pub canonical: String,
    /// Whether it is a Sprout address.
    pub is_sprout: bool,
    /// Whether it can receive a memo.
    pub can_receive_memo: bool,
    /// Whether its only recognized receivers are transparent.
    pub is_transparent_only: bool,
}

impl View for AddressFacts {
    type V = AddressView;

    open spec fn view(&self) -> AddressView {
        (self.canonical@, self.is_sprout, self.can_receive_memo, self.is_transparent_only)
    }
}

/// What `zcash_address` makes of an encoded address: what the address is, or the description of
/// why it is none.
pub uninterp spec fn parsed_address(encoded: Seq<char>) -> Result<AddressView, Seq<char>>;

/// What `zip321` makes of a URI: the payments in index order, or the description of why it is
/// no payment request.
pub uninterp spec fn zip321_parsed(uri: Seq<char>) -> Result<Seq<PaymentView>, Seq<char>>;

/// The URI by which `zip321` writes payments.
pub uninterp spec fn zip321_uri(payments: Seq<PaymentView>) -> Seq<char>;

/// A parse succeeded with this address.
pub open spec fn yields_address(
    parsed: Result<AddressView, Seq<char>>,
    address: AddressView,
) -> bool {
    parsed matches Ok(view) && view == address
}

/// A parse succeeded with these payments.
pub open spec fn yields_payments(
    parsed: Result<Seq<PaymentView>, Seq<char>>,
    payments: Seq<PaymentView>,
) -> bool {
    parsed matches Ok(views) && views == payments
}

/// Most payments that one URI can be written for.
pub const MAX_URI_PAYMENTS: usize = 9_999;

/// Why an address with these properties cannot take this payment, if it cannot: Sprout is not
/// supported, transparent outputs carry no memo, and none of them is of zero value.
pub open spec fn refusal(
    address: AddressView,
    amount: Option<u64>,
    has_memo: bool,
) -> Option<Seq<char>> {
    if address.1 {
        Some("Sprout recipients are not supported in payment requests (ZIP 321)"@)
    } else if has_memo && !address.2 {
        Some("Cannot send a memo to a transparent recipient address"@)
    } else if address.3 && amount == Some(0u64) {
        Some("Zero-valued transparent outputs are disallowed by consensus"@)
    } else {
        None
    }
}

/// A payment that a URI can state: a canonically encoded address that takes it, an amount that
/// can exist, and a memo that fits.
pub open spec fn acceptable(payment: PaymentView) -> bool {
    &&& parsed_address(payment.0) matches Ok(address)
    &&& address.0 == payment.0
    &&& refusal(address, payment.1, payment.2 is Some) is None
    &&& payment.1 matches Some(amount) ==> amount <= crate::domain::MAX_MONEY
    &&& payment.2 matches Some(memo) ==> memo.len() <= crate::payment::MEMO_CAPACITY
        && crate::payment::unpadded(memo) == memo
}

/// An encoded address that can receive a memo starts like a Sapling or a unified address.
pub open spec fn starts_like_shielded(encoded: Seq<char>) -> bool {
    ||| crate::text::has_prefix(encoded, "u"@)
    ||| crate::text::has_prefix(encoded, "zu"@)
    ||| crate::text::has_prefix(encoded, "tu"@)
    ||| crate::text::has_prefix(encoded, "zs"@)
    ||| crate::text::has_prefix(encoded, "ztestsapling"@)
    ||| crate::text::has_prefix(encoded, "zregtestsapling"@)
}

/// The payments of a parsed URI.
pub open spec fn payment_views(payments: Seq<RequestedPayment>) -> Seq<PaymentView> {
    payments.map_values(|payment: RequestedPayment| payment@)
}

/// Calls `<zcash_address::ZcashAddress as FromStr>::from_str` and reads the address off:
/// `encode`, `is_sprout`, `can_receive_memo`, `is_transparent_only`.
///
/// Claimed of it: the outcome, with the description of a failure, depends on the text alone,
/// and a canonical encoding parses to the same address again.
#[verifier::external_body]
fn read_address(encoded: &str) -> (facts: Result<AddressFacts, String>)
    ensures
        match (facts, parsed_address(encoded@)) {
            (Ok(address), Ok(view)) => address@ == view,
            (Err(text), Err(description)) => text@ == description,
            _ => false,
        },
        facts matches Ok(address) ==> yields_address(
            parsed_address(address.canonical@),
            address@,
        ),
{
    let address = encoded.parse::<ZcashAddress>().map_err(|e| e.to_string())?;
    Ok(AddressFacts {
        canonical: address.encode(),
        is_sprout: address.is_sprout(),
        can_receive_memo: address.can_receive_memo(),
        is_transparent_only: address.is_transparent_only(),
    })
}

/// Calls `zip321::TransactionRequest::from_uri` and reads the payments off, in index order.
///
/// Claimed of it: the outcome, with the description of a failure, depends on the URI alone;
/// every payment it returns has a canonically encoded address that takes it, an amount of at
/// most the money supply, and an unpadded memo of at most 512 bytes, which only goes to an
/// address that starts like a shielded one.
#[verifier::external_body]
fn read_uri(uri: &str) -> (payments: Result<Vec<RequestedPayment>, String>)
    ensures
        match (payments, zip321_parsed(uri@)) {
            (Ok(list), Ok(views)) => payment_views(list@) == views,
            (Err(text), Err(description)) => text@ == description,
            _ => false,
        },
        payments matches Ok(list) ==> forall|i: int|
            0 <= i < list@.len() ==> acceptable(#[trigger] list@[i]@) && (list@[i].memo is Some
                ==> starts_like_shielded(list@[i].recipient@)),
{
    let request = zip321::TransactionRequest::from_uri(uri).map_err(|e| e.to_string())?;
    Ok(request.payments().values().map(|payment| RequestedPayment {
        recipient: payment.recipient_address().encode(),
        amount: payment.amount().map(|amount| amount.into_u64()),
        memo: payment.memo().map(|memo| memo.as_slice().to_vec()),
        label: payment.label().cloned(),
        message: payment.message().cloned(),
    }).collect())
}

/// Calls `zip321::Payment::new` on the address, the amount, and the memo.
///
/// Claimed of it: it refuses Sprout recipients, memos to recipients that cannot receive one,
/// and zero-valued payments to recipients with only transparent receivers, each with its fixed
/// description, in this order, and takes every other payment.
#[verifier::external_body]
fn try_payment(payment: &RequestedPayment) -> (refused: Option<String>)
    requires
        parsed_address(payment.recipient@) is Ok,
        payment.amount matches Some(amount) ==> amount <= crate::domain::MAX_MONEY,
        payment.memo matches Some(memo) ==> memo@.len() <= crate::payment::MEMO_CAPACITY,
    ensures
        text_of(refused) == refusal(
            parsed_address(payment.recipient@)->Ok_0,
            payment.amount,
            payment.memo is Some,
        ),
{
    let address = payment.recipient.parse::<ZcashAddress>().ok()?;
    let amount = payment.amount.and_then(|a| zcash_protocol::value::Zatoshis::from_u64(a).ok());
    let memo = payment.memo.as_ref().and_then(|bytes| {
        MemoBytes::from_bytes(bytes).ok()
    });
    zip321::Payment::new(address, amount, memo, None, None, Vec::new())
        .err()
        .map(|e| e.to_string())
}

/// Calls `zip321::TransactionRequest::new` and `to_uri` on payments that a URI can state.
///
/// Claimed of them: more than 9999 payments are refused with a fixed description that holds
/// their number; any others are written as a URI that depends on the payments alone and parses
/// to the same payments again.
#[verifier::external_body]
fn write_uri(payments: &Vec<RequestedPayment>) -> (uri: Result<String, String>)
    requires
        forall|i: int| 0 <= i < payments@.len() ==> acceptable(#[trigger] payments@[i]@),
    ensures
        uri is Ok <==> payments@.len() <= MAX_URI_PAYMENTS,
        uri matches Ok(text) ==> text@ == zip321_uri(payment_views(payments@)) && yields_payments(
            zip321_parsed(text@),
            payment_views(payments@),
        ),
        uri matches Err(text) ==> text@ == too_many_payments_text(payments@.len()),
{
    let list = payments.iter().map(|p| {
        let address = p.recipient.parse::<ZcashAddress>().map_err(|e| e.to_string())?;
        let amount = p.amount.and_then(|a| zcash_protocol::value::Zatoshis::from_u64(a).ok());
        let memo = p.memo.as_ref().and_then(|b| MemoBytes::from_bytes(b).ok());
        zip321::Payment::new(address, amount, memo, p.label.clone(), p.message.clone(), Vec::new())
            .map_err(|e| e.to_string())
    }).collect::<Result<Vec<zip321::Payment>, String>>()?;
    zip321::TransactionRequest::new(list).map(|r| r.to_uri()).map_err(|e| e.to_string())
}

/// The description of a request that holds more payments than a URI can.
pub open spec fn too_many_payments_text(count: nat) -> Seq<char> {
    "Cannot create a Zcash transaction containing "@ + crate::text::decimal_text(count)
        + " payments"@
}

/// One payment within a [`PaymentRequest`].
#[derive(Debug)]
pub struct ParsedPayment {
    /// Recipient address.
    pub recipient: PaymentRecipient,
    /// Amount to send.
    pub amount: Zatoshis,
    /// Memo, if any.
    pub memo: Option<Memo>,
    /// Optional human-readable label from the URI.
    pub label: Option<String>,
    /// Optional human-readable message from the URI.
    pub message: Option<String>,
}

/// What a parsed payment says, as plain values: the shape and network of its recipient, and
/// what a URI would state.
pub type ParsedView = (RecipientKind, Network, PaymentView);

impl View for ParsedPayment {
    type V = ParsedView;

    open spec fn view(&self) -> ParsedView {
        (
            self.recipient.kind_spec(),
            self.recipient.network_spec(),
            (
                self.recipient.encoded_text(),
                Some(self.amount@ as u64),
                match self.memo {
                    Some(memo) => Some(memo@),
                    None => None,
                },
                text_of(self.label),
                text_of(self.message),
            ),
        )
    }
}

/// What a requested payment parses to on `network`, or the description of why it cannot be
/// paid: it states no amount, more than can exist, or bytes that are no memo.
pub open spec fn parsed_view(payment: PaymentView, network: Network) -> Result<
    ParsedView,
    Seq<char>,
> {
    match payment.1 {
        None => Err("payment is missing an amount"@),
        Some(amount) => if amount > crate::domain::MAX_MONEY {
            Err("amount is larger than the money supply"@)
        } else {
            match payment.2 {
                Some(memo) => if crate::payment::is_memo(memo) {
                    Ok(
                        (
                            crate::payment::kind_by_prefix(payment.0),
                            network,
                            (
                                payment.0,
                                Some(amount),
                                Some(crate::payment::unpadded(memo)),
                                payment.3,
                                payment.4,
                            ),
                        ),
                    )
                } else {
                    Err(crate::payment::memo_defect_text(memo))
                },
                None => Ok((crate::payment::kind_by_prefix(payment.0), network, payment)),
            }
        },
    }
}

/// What requested payments parse to on `network`, or the description of why the first that
/// cannot be paid cannot.
pub open spec fn parsed_views(payments: Seq<PaymentView>, network: Network) -> Result<
    Seq<ParsedView>,
    Seq<char>,
>
    decreases payments.len(),
{
    if payments.len() == 0 {
        Ok(Seq::empty())
    } else {
        match parsed_views(payments.drop_last(), network) {
            Err(description) => Err(description),
            Ok(views) => match parsed_view(payments.last(), network) {
                Err(description) => Err(description),
                Ok(view) => Ok(views.push(view)),
            },
        }
    }
}

/// The payments that a URI requests on `network`, or the description of why it requests none.
pub open spec fn requested_by(uri: Seq<char>, network: Network) -> Result<
    Seq<ParsedView>,
    Seq<char>,
> {
    match zip321_parsed(uri) {
        Err(description) => Err(description),
        Ok(payments) => parsed_views(payments, network),
    }
}

fn copy_text(text: &Option<String>) -> (copy: Option<String>)
    ensures
        copy == *text,
{
    match text {
        Some(text) => Some(text.clone()),
        None => None,
    }
}

fn parse_failure(reason: String) -> (error: WalletError)
    ensures
        error.parse_failed_with(reason@),
{
    WalletError::PaymentRequestParseFailed { reason }
}

impl ParsedPayment {
    /// Parses a requested payment for `network`.
    pub fn from_requested(requested: &RequestedPayment, network: Network) -> (parsed: Result<
        ParsedPayment,
        WalletError,
    >)
        ensures
            match (parsed, parsed_view(requested@, network)) {
                (Ok(payment), Ok(view)) => payment@ == view,
                (Err(error), Err(description)) => error.parse_failed_with(description),
                _ => false,
            },
            parsed matches Ok(payment) ==> payment.holds_a_payable(),
    {
        let recipient = classify_recipient(requested.recipient.as_str(), network);
        let stated = match requested.amount {
            Some(amount) => amount,
            None => return Err(parse_failure("payment is missing an amount".to_owned())),
        };
        let amount = match Zatoshis::from_u64(stated) {
            Some(amount) => amount,
            None => {
                return Err(parse_failure("amount is larger than the money supply".to_owned()));
            },
        };
        let memo = match &requested.memo {
            Some(bytes) => match Memo::from_bytes(bytes) {
                Ok(memo) => {
                    proof {
                        crate::payment::unpadding_is_idempotent(bytes@);
                    }
                    Some(memo)
                },
                Err(text) => return Err(parse_failure(text)),
            },
            None => None,
        };
        Ok(
            ParsedPayment {
                recipient,
                amount,
                memo,
                label: copy_text(&requested.label),
                message: copy_text(&requested.message),
            },
        )
    }

    /// The amount can exist and the memo is one.
    pub open spec fn holds_a_payable(&self) -> bool {
        &&& 0 <= self.amount@ <= crate::domain::MAX_MONEY
        &&& self.memo matches Some(memo) ==> crate::payment::is_memo(memo@)
            && crate::payment::unpadded(memo@) == memo@
    }

    /// What a URI would state of the payment.
    pub fn to_requested(&self) -> (requested: RequestedPayment)
        ensures
            requested@ == self@.2,
            self.holds_a_payable(),
    {
        let memo = match &self.memo {
            Some(memo) => Some(memo.to_wire_bytes()),
            None => None,
        };
        RequestedPayment {
            recipient: self.recipient.encoded().to_owned(),
            amount: Some(self.amount.as_u64()),
            memo,
            label: copy_text(&self.label),
            message: copy_text(&self.message),
        }
    }

    /// Checks that a URI can state the payment: its recipient is an address, and the address
    /// takes the payment.
    pub fn check(&self) -> (checked: Result<(), WalletError>)
        ensures
            match parsed_address(self.recipient.encoded_text()) {
                Err(description) => checked matches Err(error) && error.parse_failed_with(
                    description,
                ),
                Ok(address) => match refusal(address, self@.2.1, self.memo is Some) {
                    Some(description) => checked matches Err(error) && error.parse_failed_with(
                        description,
                    ),
                    None => checked is Ok,
                },
            },
    {
        match read_address(self.recipient.encoded()) {
            Err(text) => return Err(parse_failure(text)),
            Ok(_) => {},
        }
        match try_payment(&self.to_requested()) {
            Some(text) => Err(parse_failure(text)),
            None => Ok(()),
        }
    }
}

impl Clone for ParsedPayment {
    fn clone(&self) -> (copy: ParsedPayment)
        ensures
            copy@ == self@,
            copy.recipient == self.recipient,
            copy.amount == self.amount,
            self.holds_a_payable() ==> copy.holds_a_payable(),
    {
        ParsedPayment {
            recipient: self.recipient.clone(),
            amount: self.amount,
            memo: match &self.memo {
                Some(memo) => Some(memo.clone()),
                None => None,
            },
            label: copy_text(&self.label),
            message: copy_text(&self.message),
        }
    }
}

/// Parsed ZIP-321 payment request.
#[derive(Debug)]
pub struct PaymentRequest {
    payments: Vec<ParsedPayment>,
    network: Network,
}

/// A payment that a URI can state and that parses back to itself.
pub open spec fn round_trips(payment: ParsedView, network: Network) -> bool {
    &&& acceptable(payment.2)
    &&& parsed_view(payment.2, network) == Ok::<ParsedView, Seq<char>>(payment)
}

/// What parsed payments say.
pub open spec fn parsed_payment_views(payments: Seq<ParsedPayment>) -> Seq<ParsedView> {
    payments.map_values(|payment: ParsedPayment| payment@)
}

/// What a URI would state of parsed payments.
pub open spec fn stated_views(payments: Seq<ParsedView>) -> Seq<PaymentView> {
    payments.map_values(|payment: ParsedView| payment.2)
}

/// Payments that each parse back to themselves parse back to themselves together.
proof fn payments_parse_back(payments: Seq<ParsedView>, network: Network)
    requires
        forall|i: int| 0 <= i < payments.len() ==> round_trips(#[trigger] payments[i], network),
    ensures
        parsed_views(stated_views(payments), network) == Ok::<Seq<ParsedView>, Seq<char>>(
            payments,
        ),
    decreases payments.len(),
{
    if payments.len() == 0 {
        assert(stated_views(payments) =~= Seq::empty());
        assert(payments =~= Seq::empty());
    } else {
        assert forall|i: int| 0 <= i < payments.drop_last().len() implies round_trips(
            #[trigger] payments.drop_last()[i],
            network,
        ) by {
            assert(round_trips(payments[i], network));
        }
        payments_parse_back(payments.drop_last(), network);
        assert(stated_views(payments).drop_last() =~= stated_views(payments.drop_last()));
        assert(round_trips(payments[payments.len() - 1], network));
        assert(payments.drop_last().push(payments.last()) =~= payments);
    }
}

impl View for PaymentRequest {
    type V = Seq<ParsedView>;

    closed spec fn view(&self) -> Seq<ParsedView> {
        parsed_payment_views(self.payments@)
    }
}

impl Clone for PaymentRequest {
    fn clone(&self) -> (copy: PaymentRequest)
        ensures
            copy@ == self@,
            copy.network_spec() == self.network_spec(),
    {
        proof {
            use_type_invariant(self);
        }
        let mut payments: Vec<ParsedPayment> = Vec::new();
        let mut index: usize = 0;
        while index < self.payments.len()
            invariant
                index <= self.payments@.len(),
                payments@.len() == index,
                forall|i: int| 0 <= i < index ==> (#[trigger] payments@[i])@ == self.payments@[i]@,
            decreases self.payments@.len() - index,
        {
            payments.push(self.payments[index].clone());
            index += 1;
        }
        assert(parsed_payment_views(payments@) =~= parsed_payment_views(self.payments@));
        PaymentRequest { payments, network: self.network }
    }
}

impl PaymentRequest {
    /// Network the request is bound to.
    pub closed spec fn network_spec(&self) -> Network {
        self.network
    }

    #[verifier::type_invariant]
    closed spec fn parses_back(self) -> bool {
        forall|i: int|
            0 <= i < self.payments@.len() ==> round_trips(
                (#[trigger] self.payments@[i])@,
                self.network,
            )
    }

    /// Parses `uri` into a payment request on `network`. A memo only ever goes to a recipient
    /// whose address starts like a shielded one, so a transparent recipient never has one,
    /// unified addresses of a newer revision, which the prefix rule calls transparent, aside.
    pub fn from_uri(uri: &str, network: Network) -> (request: Result<PaymentRequest, WalletError>)
        ensures
            match (request, requested_by(uri@, network)) {
                (Ok(parsed), Ok(views)) => parsed@ == views && parsed.network_spec() == network,
                (Err(error), Err(description)) => error.parse_failed_with(description),
                _ => false,
            },
            request matches Ok(parsed) ==> forall|i: int|
                0 <= i < parsed@.len() ==> ((#[trigger] parsed@[i]).2.2 is Some
                    ==> starts_like_shielded(parsed@[i].2.0)),
            request matches Ok(parsed) ==> forall|i: int|
                0 <= i < parsed@.len() && ((#[trigger] parsed@[i]).0 is Transparent
                    || parsed@[i].0 is Tex) && !unified_of_newer_revision(parsed@[i].2.0)
                    ==> parsed@[i].2.2 is None,
    {
        let requested = match read_uri(uri) {
            Ok(requested) => requested,
            Err(text) => return Err(parse_failure(text)),
        };
        let ghost views = payment_views(requested@);
        let mut payments: Vec<ParsedPayment> = Vec::new();
        let mut index: usize = 0;
        assert(views.take(0) =~= Seq::empty());
        assert(parsed_payment_views(payments@) =~= Seq::empty());
        while index < requested.len()
            invariant
                index <= requested@.len(),
                views == payment_views(requested@),
                yields_payments(zip321_parsed(uri@), views),
                forall|i: int|
                    0 <= i < requested@.len() ==> acceptable(#[trigger] requested@[i]@) && (
                    requested@[i].memo is Some ==> starts_like_shielded(
                        requested@[i].recipient@,
                    )),
                payments@.len() == index,
                parsed_views(views.take(index as int), network) == Ok::<
                    Seq<ParsedView>,
                    Seq<char>,
                >(parsed_payment_views(payments@)),
                forall|i: int|
                    0 <= i < index ==> round_trips((#[trigger] payments@[i])@, network),
                forall|i: int|
                    0 <= i < index ==> ((#[trigger] payments@[i])@.2.2 is Some
                        ==> starts_like_shielded(payments@[i]@.2.0)),
            decreases requested@.len() - index,
        {
            let ghost next = views.take(index + 1);
            assert(next.drop_last() =~= views.take(index as int));
            assert(next.last() == requested@[index as int]@);
            let ghost earlier = payments@;
            match ParsedPayment::from_requested(&requested[index], network) {
                Ok(payment) => {
                    proof {
                        assert(acceptable(requested@[index as int]@));
                        assert(payment@.2 == requested@[index as int]@);
                        assert(parsed_payment_views(earlier.push(payment))
                            =~= parsed_payment_views(earlier).push(payment@));
                    }
                    payments.push(payment);
                },
                Err(error) => {
                    proof {
                        first_failure_decides(views, network, index + 1);
                    }
                    return Err(error);
                },
            }
            index += 1;
        }
        assert(views.take(views.len() as int) =~= views);
        proof {
            assert forall|i: int|
                0 <= i < payments@.len() && (payments@[i]@.0 is Transparent || payments@[i]@.0 is Tex)
                    && !unified_of_newer_revision(payments@[i]@.2.0) implies (
            #[trigger] payments@[i])@.2.2 is None by {
                assert(round_trips(payments@[i]@, network));
                if payments@[i]@.2.2 is Some {
                    transparent_recipients_carry_no_memo(payments@[i]@.2.0);
                }
            }
        }
        Ok(PaymentRequest { payments, network })
    }

    /// Serialises this payment request as a ZIP-321 URI, which [`PaymentRequest::from_uri`]
    /// parses back to the same payments. Only a request of more payments than a URI can hold
    /// has none.
    pub fn to_uri(&self) -> (uri: Result<String, WalletError>)
        ensures
            uri is Ok <==> self@.len() <= MAX_URI_PAYMENTS,
            uri matches Ok(text) ==> text@ == zip321_uri(stated_views(self@)) && requested_by(
                text@,
                self.network_spec(),
            ) == Ok::<Seq<ParsedView>, Seq<char>>(self@),
            uri matches Err(error) ==> error.parse_failed_with(
                too_many_payments_text(self@.len()),
            ),
    {
        proof {
            use_type_invariant(self);
        }
        let mut stated: Vec<RequestedPayment> = Vec::new();
        let mut index: usize = 0;
        while index < self.payments.len()
            invariant
                index <= self.payments@.len(),
                stated@.len() == index,
                forall|i: int|
                    0 <= i < index ==> (#[trigger] stated@[i])@ == self.payments@[i]@.2,
            decreases self.payments@.len() - index,
        {
            stated.push(self.payments[index].to_requested());
            index += 1;
        }
        assert(payment_views(stated@) =~= stated_views(self@));
        proof {
            assert forall|i: int| 0 <= i < stated@.len() implies acceptable(
                #[trigger] stated@[i]@,
            ) by {
                assert(round_trips(self.payments@[i]@, self.network));
            }
            assert forall|i: int| 0 <= i < self@.len() implies round_trips(
                #[trigger] self@[i],
                self.network,
            ) by {
                assert(self@[i] == self.payments@[i]@);
            }
            payments_parse_back(self@, self.network);
        }
        match write_uri(&stated) {
            Ok(text) => Ok(text),
            Err(text) => Err(parse_failure(text)),
        }
    }

    /// All payments declared in the request.
    pub fn payments(&self) -> (payments: &[ParsedPayment])
        ensures
            parsed_payment_views(payments@) == self@,
    {
        self.payments.as_slice()
    }

    /// Network the request is bound to.
    pub fn network(&self) -> (network: Network)
        ensures
            network == self.network_spec(),
    {
        self.network
    }
}

/// Where a prefix of the requested payments cannot be paid, neither can all of them, for the
/// same reason.
proof fn first_failure_decides(payments: Seq<PaymentView>, network: Network, count: int)
    requires
        0 <= count <= payments.len(),
        parsed_views(payments.take(count), network) is Err,
    ensures
        parsed_views(payments, network) == parsed_views(payments.take(count), network),
    decreases payments.len(),
{
    if count == payments.len() {
        assert(payments.take(count) =~= payments);
    } else {
        assert(payments.drop_last().take(count) =~= payments.take(count));
        first_failure_decides(payments.drop_last(), network, count);
    }
}

/// A unified address of a newer revision, by its prefix.
pub open spec fn unified_of_newer_revision(encoded: Seq<char>) -> bool {
    crate::text::has_prefix(encoded, "zu"@) || crate::text::has_prefix(encoded, "tu"@)
}

/// A memo-carrying recipient that the prefix rule calls transparent is a unified address of a
/// newer revision, which starts with `zu` or `tu`; every other recipient it calls transparent
/// carries no memo.
pub proof fn transparent_recipients_carry_no_memo(encoded: Seq<char>)
    requires
        starts_like_shielded(encoded),
        crate::payment::kind_by_prefix(encoded) is Transparent
            || crate::payment::kind_by_prefix(encoded) is Tex,
    ensures
        unified_of_newer_revision(encoded),
{
    if crate::payment::kind_by_prefix(encoded) is Tex {
        reveal_strlit("tex");
        reveal_strlit("u");
        reveal_strlit("zs");
        reveal_strlit("ztestsapling");
        reveal_strlit("zregtestsapling");
        assert(encoded[0] == encoded.take(3)[0]);
        assert(crate::text::has_prefix(encoded, "u"@) ==> encoded[0] == encoded.take(1)[0]);
        assert(crate::text::has_prefix(encoded, "zs"@) ==> encoded[0] == encoded.take(2)[0]);
        assert(crate::text::has_prefix(encoded, "ztestsapling"@) ==> encoded[0] == encoded.take(
            12,
        )[0]);
        assert(crate::text::has_prefix(encoded, "zregtestsapling"@) ==> encoded[0]
            == encoded.take(15)[0]);
    }
}

} // verus!
