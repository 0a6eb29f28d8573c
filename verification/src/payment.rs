//! Payment recipients and memos.

use crate::domain::Network;
use crate::text::starts_with;
use vstd::prelude::*;

verus! {

/// Recipient of a payment, by the shape of its address.
#[derive(Debug)]
pub enum PaymentRecipient {
    /// ZIP-316 unified address.
    UnifiedAddress {
        /// The encoded address.
        encoded: String,
        /// Network the address belongs to.
        network: Network,
    },
    /// Sapling address.
    SaplingAddress {
        /// The encoded address.
        encoded: String,
        /// Network the address belongs to.
        network: Network,
    },
    /// Transparent address.
    TransparentAddress {
        /// The encoded address.
        encoded: String,
        /// Network the address belongs to.
        network: Network,
    },
    /// ZIP-320 TEX address: transparent, and payable from transparent inputs only.
    TexAddress {
        /// The encoded address.
        encoded: String,
        /// Network the address belongs to.
        network: Network,
    },
}

impl Clone for PaymentRecipient {
    fn clone(&self) -> (copy: PaymentRecipient)
        ensures
            copy == *self,
    {
        match self {
            PaymentRecipient::UnifiedAddress { encoded, network } => {
                PaymentRecipient::UnifiedAddress { encoded: encoded.clone(), network: *network }
            },
            PaymentRecipient::SaplingAddress { encoded, network } => {
                PaymentRecipient::SaplingAddress { encoded: encoded.clone(), network: *network }
            },
            PaymentRecipient::TransparentAddress { encoded, network } => {
                PaymentRecipient::TransparentAddress {
                    encoded: encoded.clone(),
                    network: *network,
                }
            },
            PaymentRecipient::TexAddress { encoded, network } => PaymentRecipient::TexAddress {
                encoded: encoded.clone(),
                network: *network,
            },
        }
    }
}

/// Shape of a recipient's address.
#[derive(Clone, Copy, Debug, PartialEq, Eq, Structural)]
pub enum RecipientKind {
    /// ZIP-316 unified address.
    Unified,
    /// Sapling address.
    Sapling,
    /// Transparent address.
    Transparent,
    /// ZIP-320 TEX address.
    Tex,
}

impl PaymentRecipient {
    /// The text of the encoded address.
    pub open spec fn encoded_text(&self) -> Seq<char> {
        match self {
            PaymentRecipient::UnifiedAddress { encoded, .. } => encoded@,
            PaymentRecipient::SaplingAddress { encoded, .. } => encoded@,
            PaymentRecipient::TransparentAddress { encoded, .. } => encoded@,
            PaymentRecipient::TexAddress { encoded, .. } => encoded@,
        }
    }

    /// The network of the address.
    pub open spec fn network_spec(&self) -> Network {
        match self {
            PaymentRecipient::UnifiedAddress { network, .. } => *network,
            PaymentRecipient::SaplingAddress { network, .. } => *network,
            PaymentRecipient::TransparentAddress { network, .. } => *network,
            PaymentRecipient::TexAddress { network, .. } => *network,
        }
    }

    /// The shape of the address.
    pub open spec fn kind_spec(&self) -> RecipientKind {
        match self {
            PaymentRecipient::UnifiedAddress { .. } => RecipientKind::Unified,
            PaymentRecipient::SaplingAddress { .. } => RecipientKind::Sapling,
            PaymentRecipient::TransparentAddress { .. } => RecipientKind::Transparent,
            PaymentRecipient::TexAddress { .. } => RecipientKind::Tex,
        }
    }

    /// The encoded address.
    pub fn encoded(&self) -> (encoded: &str)
        ensures
            encoded@ == self.encoded_text(),
    {
        match self {
            PaymentRecipient::UnifiedAddress { encoded, .. } => encoded.as_str(),
            PaymentRecipient::SaplingAddress { encoded, .. } => encoded.as_str(),
            PaymentRecipient::TransparentAddress { encoded, .. } => encoded.as_str(),
            PaymentRecipient::TexAddress { encoded, .. } => encoded.as_str(),
        }
    }

    /// The network of the address.
    pub fn network(&self) -> (network: Network)
        ensures
            network == self.network_spec(),
    {
        match self {
            PaymentRecipient::UnifiedAddress { network, .. } => *network,
            PaymentRecipient::SaplingAddress { network, .. } => *network,
            PaymentRecipient::TransparentAddress { network, .. } => *network,
            PaymentRecipient::TexAddress { network, .. } => *network,
        }
    }

    /// `true` for a TEX address, which only transparent funds may pay (ZIP-320).
    pub fn is_tex(&self) -> (tex: bool)
        ensures
            tex == (self.kind_spec() is Tex),
    {
        match self {
            PaymentRecipient::TexAddress { .. } => true,
            _ => false,
        }
    }

    /// Whether a payment to the recipient is a transparent output.
    pub open spec fn pays_transparently(&self) -> bool {
        self.kind_spec() is Transparent || self.kind_spec() is Tex
    }

    /// `true` when a payment to the recipient is a transparent output, which carries no memo.
    pub fn is_transparent(&self) -> (transparent: bool)
        ensures
            transparent == self.pays_transparently(),
    {
        match self {
            PaymentRecipient::TransparentAddress { .. } | PaymentRecipient::TexAddress { .. } => {
                true
            },
            PaymentRecipient::UnifiedAddress { .. } | PaymentRecipient::SaplingAddress { .. } => {
                false
            },
        }
    }
}

/// The shape that an encoded address has by its prefix.
pub open spec fn kind_by_prefix(encoded: Seq<char>) -> RecipientKind {
    if crate::text::has_prefix(encoded, "tex"@) {
        RecipientKind::Tex
    } else if crate::text::has_prefix(encoded, "u"@) {
        RecipientKind::Unified
    } else if crate::text::has_prefix(encoded, "zs"@) || crate::text::has_prefix(
        encoded,
        "ztestsapling"@,
    ) || crate::text::has_prefix(encoded, "zregtestsapling"@) {
        RecipientKind::Sapling
    } else {
        RecipientKind::Transparent
    }
}

/// Classifies an encoded address by its prefix. Authoritative disambiguation happens when a
/// proposal is built; the guards here distinguish the four shapes by the prefix.
pub fn classify_recipient(encoded: &str, network: Network) -> (recipient: PaymentRecipient)
    ensures
        recipient.encoded_text() == encoded@,
        recipient.network_spec() == network,
        recipient.kind_spec() == kind_by_prefix(encoded@),
{
    if starts_with(encoded, "tex") {
        PaymentRecipient::TexAddress { encoded: encoded.to_owned(), network }
    } else if starts_with(encoded, "u") {
        PaymentRecipient::UnifiedAddress { encoded: encoded.to_owned(), network }
    } else if starts_with(encoded, "zs") || starts_with(encoded, "ztestsapling") || starts_with(
        encoded,
        "zregtestsapling",
    ) {
        PaymentRecipient::SaplingAddress { encoded: encoded.to_owned(), network }
    } else {
        PaymentRecipient::TransparentAddress { encoded: encoded.to_owned(), network }
    }
}

/// Most bytes a memo holds.
pub const MEMO_CAPACITY: usize = 512;

/// First byte of the memo that says that there is none.
pub const NO_MEMO_BYTE: u8 = 0xF6;

/// Greatest first byte of a text memo.
pub const TEXT_MEMO_BOUND: u8 = 0xF4;

/// `bytes` without the null padding at its end.
pub open spec fn unpadded(bytes: Seq<u8>) -> Seq<u8>
    decreases bytes.len(),
{
    if bytes.len() > 0 && bytes.last() == 0 {
        unpadded(bytes.drop_last())
    } else {
        bytes
    }
}

/// `bytes` are a ZIP-302 memo: they fit the memo field and, where their first byte announces a
/// text, are one.
pub open spec fn is_memo(bytes: Seq<u8>) -> bool {
    &&& bytes.len() <= MEMO_CAPACITY
    &&& unpadded(bytes).len() > 0 && unpadded(bytes)[0] <= TEXT_MEMO_BOUND
        ==> vstd::utf8::valid_utf8(unpadded(bytes))
}

/// How `zcash_protocol` describes bytes that announce a text but are not one.
pub uninterp spec fn invalid_memo_text(bytes: Seq<u8>) -> Seq<char>;

/// The description of bytes that do not fit the memo field.
pub open spec fn memo_length_text(bytes: Seq<u8>) -> Seq<char> {
    "Memo length "@ + crate::text::decimal_text(bytes.len()) + " is larger than maximum of 512"@
}

/// The description of why `bytes` are no memo.
pub open spec fn memo_defect_text(bytes: Seq<u8>) -> Seq<char> {
    if bytes.len() > MEMO_CAPACITY {
        memo_length_text(bytes)
    } else {
        invalid_memo_text(bytes)
    }
}

/// Calls `zcash_protocol::memo::Memo::from_bytes` and writes the memo back as wire bytes.
///
/// Claimed of it: bytes of at most 512 are a memo unless their first byte announces a text and
/// the bytes before the padding are not UTF-8; a memo's wire bytes without padding are the
/// given bytes without padding; longer bytes are refused with a fixed text that holds their
/// length, and text that is not UTF-8 with a text that depends on the bytes alone.
#[verifier::external_body]
fn read_memo(bytes: &Vec<u8>) -> (wire: Result<Vec<u8>, String>)
    ensures
        wire is Ok <==> is_memo(bytes@),
        wire matches Ok(w) ==> w@ == unpadded(bytes@),
        wire matches Err(text) ==> text@ == if bytes@.len() > MEMO_CAPACITY {
            memo_length_text(bytes@)
        } else {
            invalid_memo_text(bytes@)
        },
{
    zcash_protocol::memo::Memo::from_bytes(bytes)
        .map(|memo| zcash_protocol::memo::MemoBytes::from(&memo).as_slice().to_vec())
        .map_err(|error| error.to_string())
}

/// ZIP-302 memo, as its wire bytes without padding.
#[derive(Debug)]
pub struct Memo {
    bytes: Vec<u8>,
}

impl View for Memo {
    type V = Seq<u8>;

    closed spec fn view(&self) -> Seq<u8> {
        self.bytes@
    }
}

impl Clone for Memo {
    fn clone(&self) -> (copy: Memo)
        ensures
            copy@ == self@,
    {
        proof {
            use_type_invariant(self);
        }
        Memo { bytes: self.to_wire_bytes() }
    }
}

/// The memo that says that there is none.
pub open spec fn no_memo() -> Seq<u8> {
    seq![NO_MEMO_BYTE]
}

impl Memo {
    #[verifier::type_invariant]
    closed spec fn is_unpadded_memo(self) -> bool {
        is_memo(self.bytes@) && unpadded(self.bytes@) == self.bytes@
    }

    /// The memo that says that there is none.
    pub fn empty() -> (memo: Memo)
        ensures
            memo@ == no_memo(),
    {
        let mut bytes: Vec<u8> = Vec::new();
        bytes.push(NO_MEMO_BYTE);
        Memo { bytes }
    }

    /// Parses a memo from its ZIP-302 serialization, padded or not. On failure the error
    /// describes the defect.
    pub fn from_bytes(bytes: &Vec<u8>) -> (memo: Result<Memo, String>)
        ensures
            memo is Ok <==> is_memo(bytes@),
            memo matches Ok(m) ==> m@ == unpadded(bytes@),
            memo matches Err(text) ==> text@ == memo_defect_text(bytes@),
    {
        match read_memo(bytes) {
            Ok(wire) => {
                proof {
                    unpadding_is_idempotent(bytes@);
                }
                Ok(Memo { bytes: wire })
            },
            Err(text) => Err(text),
        }
    }

    /// Whether the memo says that there is none.
    pub fn is_empty(&self) -> (empty: bool)
        ensures
            empty == (self@ == no_memo()),
    {
        if self.bytes.len() == 1 && self.bytes[0] == NO_MEMO_BYTE {
            assert(self.bytes@ =~= no_memo());
            true
        } else {
            false
        }
    }

    /// The memo as its wire bytes without padding, which parse to the memo itself.
    pub fn to_wire_bytes(&self) -> (bytes: Vec<u8>)
        ensures
            bytes@ == self@,
            is_memo(bytes@),
            unpadded(bytes@) == bytes@,
    {
        proof {
            use_type_invariant(self);
        }
        let mut copy: Vec<u8> = Vec::new();
        let mut index: usize = 0;
        while index < self.bytes.len()
            invariant
                index <= self.bytes@.len(),
                copy@ == self.bytes@.take(index as int),
            decreases self.bytes@.len() - index,
        {
            copy.push(self.bytes[index]);
            index += 1;
            assert(self.bytes@.take(index as int) =~= self.bytes@.take(index - 1).push(
                self.bytes@[index - 1],
            ));
        }
        assert(self.bytes@.take(self.bytes@.len() as int) =~= self.bytes@);
        copy
    }
}

/// Unpadding removes all the padding there is, and changes nothing about what a memo says.
pub proof fn unpadding_is_idempotent(bytes: Seq<u8>)
    ensures
        unpadded(unpadded(bytes)) == unpadded(bytes),
        unpadded(bytes).len() <= bytes.len(),
        is_memo(bytes) ==> is_memo(unpadded(bytes)),
    decreases bytes.len(),
{
    if bytes.len() > 0 && bytes.last() == 0 {
        unpadding_is_idempotent(bytes.drop_last());
    }
}

} // verus!
