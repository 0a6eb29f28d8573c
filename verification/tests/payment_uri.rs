use zally_wallet::domain::{Network, Zatoshis};
use zally_wallet::error::WalletError;
use zally_wallet::payment::{Memo, PaymentRecipient};
use zally_wallet::payment_uri::{ParsedPayment, PaymentRequest};

/// Mainnet Sapling address from the `zcash_address` rustdoc example.
const ROUND_TRIP_SAPLING_ADDRESS: &str =
    "zs1z7rejlpsa98s2rrrfkwmaxu53e4ue0ulcrw0h4x5g8jl04tak0d3mm47vdtahatqrlkngh9slya";

const TRANSPARENT_ADDRESS: &str = "t1Hsc1LR8yKnbbe3twRp88p6vFfC5t7DLbs";

#[test]
fn to_uri_round_trip_preserves_recipient_and_amount() -> Result<(), WalletError> {
    let original_uri =
        format!("zcash:{ROUND_TRIP_SAPLING_ADDRESS}?amount=0.0001&message=invoice%20one");
    let parsed = PaymentRequest::from_uri(&original_uri, Network::Mainnet)?;
    let regenerated_uri = parsed.to_uri()?;
    let reparsed = PaymentRequest::from_uri(&regenerated_uri, Network::Mainnet)?;

    assert_eq!(parsed.payments().len(), 1);
    assert_eq!(reparsed.payments().len(), 1);
    let original_payment = &parsed.payments()[0];
    let round_tripped_payment = &reparsed.payments()[0];
    assert_eq!(
        original_payment.recipient.encoded(),
        round_tripped_payment.recipient.encoded()
    );
    assert_eq!(original_payment.amount, round_tripped_payment.amount);
    assert_eq!(original_payment.message, round_tripped_payment.message);
    assert_eq!(original_payment.amount, Zatoshis::from_u64(10_000).expect("amount"));
    assert_eq!(original_payment.message.as_deref(), Some("invoice one"));
    Ok(())
}

#[test]
fn to_uri_rejects_oversize_zatoshis() -> Result<(), WalletError> {
    let original_uri = format!("zcash:{ROUND_TRIP_SAPLING_ADDRESS}?amount=0.00000001");
    let parsed = PaymentRequest::from_uri(&original_uri, Network::Mainnet)?;
    let regenerated_uri = parsed.to_uri()?;
    assert!(regenerated_uri.starts_with("zcash:"));
    Ok(())
}

#[test]
fn a_memo_survives_the_round_trip() -> Result<(), WalletError> {
    let uri = format!("zcash:{ROUND_TRIP_SAPLING_ADDRESS}?amount=1&memo=VGhhbmtz&label=Shop");
    let parsed = PaymentRequest::from_uri(&uri, Network::Mainnet)?;
    let payment = &parsed.payments()[0];
    let memo = payment.memo.as_ref().expect("memo");
    assert_eq!(&memo.to_wire_bytes()[..6], b"Thanks");
    assert_eq!(payment.label.as_deref(), Some("Shop"));
    let again = PaymentRequest::from_uri(&parsed.to_uri()?, Network::Mainnet)?;
    assert_eq!(
        again.payments()[0].memo.as_ref().expect("memo").to_wire_bytes(),
        memo.to_wire_bytes()
    );
    assert_eq!(parsed.network(), Network::Mainnet);
    Ok(())
}

#[test]
fn several_payments_keep_their_order() -> Result<(), WalletError> {
    let uri = format!(
        "zcash:?address={ROUND_TRIP_SAPLING_ADDRESS}&amount=1&address.1={TRANSPARENT_ADDRESS}&amount.1=2"
    );
    let parsed = PaymentRequest::from_uri(&uri, Network::Mainnet)?;
    assert_eq!(parsed.payments().len(), 2);
    assert!(matches!(
        parsed.payments()[0].recipient,
        PaymentRecipient::SaplingAddress { .. }
    ));
    assert!(parsed.payments()[1].recipient.is_transparent());
    assert_eq!(
        parsed.payments()[1].amount,
        Zatoshis::from_u64(200_000_000).expect("amount")
    );
    Ok(())
}

#[test]
fn what_is_no_request_is_refused_with_the_parser_text() {
    for uri in ["bitcoin:xyz", "zcash:notanaddress?amount=1", ""] {
        let error = PaymentRequest::from_uri(uri, Network::Mainnet).expect_err("no request");
        match error {
            WalletError::PaymentRequestParseFailed { reason } => {
                assert!(!reason.is_empty());
                assert_ne!(reason, uri);
            }
            other => panic!("expected a parse failure, got {other:?}"),
        }
    }
}

#[test]
fn a_memo_to_a_transparent_address_is_no_request() {
    let uri = format!("zcash:{TRANSPARENT_ADDRESS}?amount=1&memo=VGhhbmtz");
    assert!(matches!(
        PaymentRequest::from_uri(&uri, Network::Mainnet),
        Err(WalletError::PaymentRequestParseFailed { .. })
    ));
}

fn payment(recipient: PaymentRecipient, amount: u64, memo: Option<Memo>) -> ParsedPayment {
    ParsedPayment {
        recipient,
        amount: Zatoshis::from_u64(amount).expect("amount"),
        memo,
        label: None,
        message: None,
    }
}

#[test]
fn a_payment_that_no_uri_can_state_fails_its_check() {
    let transparent = || PaymentRecipient::TransparentAddress {
        encoded: TRANSPARENT_ADDRESS.into(),
        network: Network::Mainnet,
    };
    let memo = Memo::from_bytes(&b"hi".to_vec()).expect("memo");
    let reason_of = |payment: &ParsedPayment| match payment.check() {
        Err(WalletError::PaymentRequestParseFailed { reason }) => reason,
        other => panic!("expected a refusal, got {other:?}"),
    };
    assert_eq!(
        reason_of(&payment(transparent(), 1, Some(memo))),
        "Cannot send a memo to a transparent recipient address"
    );
    assert_eq!(
        reason_of(&payment(transparent(), 0, None)),
        "Zero-valued transparent outputs are disallowed by consensus"
    );
    let sprout = PaymentRecipient::SaplingAddress {
        encoded: "zc8E5gYid86n4bo2Usdq1cpr7PpfoJGzttwBHEEgGhGkLUg7SPPVFNB2AkRFXZ7usfphup5426dt1buMmY3fkYeRrQGLa8y".into(),
        network: Network::Mainnet,
    };
    assert_eq!(
        reason_of(&payment(sprout, 1, None)),
        "Sprout recipients are not supported in payment requests (ZIP 321)"
    );
    assert!(payment(transparent(), 1, None).check().is_ok());
    let unreadable = PaymentRecipient::TransparentAddress {
        encoded: "t1nonsense".into(),
        network: Network::Mainnet,
    };
    assert!(payment(unreadable, 1, None).check().is_err());
}
