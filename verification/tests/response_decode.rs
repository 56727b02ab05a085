use adyen::{Action, DecodeError, RefusalReason, Response, Scheme};

#[test]
fn authorised_without_additional_data() {
    let text = r#"{
        "resultCode": "Authorised",
        "pspReference": "881234567890",
        "merchantReference": "order-42"
    }"#;
    let r = Response::decode(text).unwrap();
    assert_eq!(
        r,
        Response::Authorised {
            additional_data: None,
            psp_reference: String::from("881234567890"),
            merchant_reference: String::from("order-42"),
        }
    );
}

#[test]
fn authorised_with_additional_data() {
    let text = r#"{
        "resultCode": "Authorised",
        "additionalData": {
            "cardHolderName": "J. Doe",
            "issuerCountry": "NO",
            "cardSummary": "1142",
            "expiryDate": "3/2030",
            "paymentMethod": "visa",
            "recurring.recurringDetailReference": "REF123"
        },
        "pspReference": "881234567890",
        "merchantReference": "order-42"
    }"#;
    let r = Response::decode(text).unwrap();
    match r {
        Response::Authorised {
            additional_data: Some(ad),
            psp_reference,
            merchant_reference,
        } => {
            assert_eq!(ad.card_holder_name, "J. Doe");
            assert_eq!(ad.issuer_country, "NO");
            assert_eq!(ad.card_summary, "1142");
            assert_eq!(ad.expiry_date, "3/2030");
            assert_eq!(ad.payment_method, "visa");
            assert_eq!(ad.recurring_detail_reference, Some(String::from("REF123")));
            assert_eq!(psp_reference, "881234567890");
            assert_eq!(merchant_reference, "order-42");
        }
        other => panic!("expected Authorised with additional data, got {:?}", other),
    }
}

#[test]
fn redirect_shopper_with_scheme_redirect_action() {
    let text = r#"{
        "resultCode": "RedirectShopper",
        "action": {
            "paymentMethodType": "scheme",
            "type": "redirect",
            "url": "https://example.test/3ds",
            "method": "POST",
            "data": {
                "MD": "md-token",
                "PaReq": "pa-req-token"
            }
        }
    }"#;
    let r = Response::decode(text).unwrap();
    match r {
        Response::RedirectShopper {
            action: Action::Scheme(Scheme::Redirect { url, data, method }),
        } => {
            assert_eq!(url, "https://example.test/3ds");
            assert_eq!(method, "POST");
            assert_eq!(data.m_d, "md-token");
            assert_eq!(data.pa_req, "pa-req-token");
            // TermUrl was absent from the input: it stays absent, not a
            // defaulted empty string.
            assert_eq!(data.term_url, None);
        }
        other => panic!("expected a scheme redirect, got {:?}", other),
    }
}

#[test]
fn scheme_redirect_keeps_term_url_when_present() {
    let text = r#"{
        "resultCode": "RedirectShopper",
        "action": {
            "paymentMethodType": "scheme",
            "type": "redirect",
            "url": "https://example.test/3ds",
            "method": "GET",
            "data": {
                "MD": "md",
                "PaReq": "pareq",
                "TermUrl": "https://shop.test/return"
            }
        }
    }"#;
    match Response::decode(text).unwrap() {
        Response::RedirectShopper {
            action: Action::Scheme(Scheme::Redirect { data, .. }),
        } => {
            assert_eq!(data.term_url, Some(String::from("https://shop.test/return")));
        }
        other => panic!("expected a scheme redirect, got {:?}", other),
    }
}

#[test]
fn three_ds2_action_decodes() {
    let text = r#"{
        "resultCode": "ChallengeShopper",
        "action": {
            "paymentMethodType": "scheme",
            "type": "threeDS2",
            "paymentData": "pd",
            "subtype": "challenge",
            "token": "tok"
        }
    }"#;
    match Response::decode(text).unwrap() {
        Response::ChallengeShopper {
            action: Action::Scheme(Scheme::ThreeDS2 { payment_data, subtype, token }),
        } => {
            assert_eq!(payment_data, "pd");
            assert_eq!(subtype, "challenge");
            assert_eq!(token, "tok");
        }
        other => panic!("expected a 3-D Secure 2 challenge, got {:?}", other),
    }
}

#[test]
fn swish_and_vipps_actions_decode() {
    let text = r#"{
        "resultCode": "Pending",
        "action": {
            "paymentMethodType": "swish",
            "qrCodeData": "qr",
            "type": "qrCode",
            "paymentData": "pd",
            "url": "swish://x"
        }
    }"#;
    match Response::decode(text).unwrap() {
        Response::Pending { action: Action::Swish { qr_code_data, kind, payment_data, url } } => {
            assert_eq!(qr_code_data, "qr");
            assert_eq!(kind, "qrCode");
            assert_eq!(payment_data, "pd");
            assert_eq!(url, "swish://x");
        }
        other => panic!("expected a Swish action, got {:?}", other),
    }
    let text = r#"{
        "resultCode": "RedirectShopper",
        "action": {
            "paymentMethodType": "vipps",
            "method": "GET",
            "url": "https://vipps.test",
            "type": "redirect"
        }
    }"#;
    match Response::decode(text).unwrap() {
        Response::RedirectShopper { action: Action::Vipps { method, url, kind } } => {
            assert_eq!(method, "GET");
            assert_eq!(url, "https://vipps.test");
            assert_eq!(kind, "redirect");
        }
        other => panic!("expected a Vipps action, got {:?}", other),
    }
}

#[test]
fn unknown_result_code_is_unknown_variant() {
    let text = r#"{"resultCode": "SomethingNew", "pspReference": "X"}"#;
    assert_eq!(
        Response::decode(text),
        Err(DecodeError::UnknownVariant(String::from("SomethingNew")))
    );
}

#[test]
fn refused_and_error_carry_reason_and_reference() {
    let text = r#"{"resultCode": "Refused", "refusalReasonCode": "6", "pspReference": "P1"}"#;
    assert_eq!(
        Response::decode(text),
        Ok(Response::Refused {
            refusal_reason: RefusalReason::ExpiredCard,
            psp_reference: String::from("P1"),
        })
    );
    let text = r#"{"resultCode": "Error", "refusalReasonCode": "4", "pspReference": "P2"}"#;
    assert_eq!(
        Response::decode(text),
        Ok(Response::Error {
            refusal_reason: RefusalReason::AcquirerError,
            psp_reference: String::from("P2"),
        })
    );
}

#[test]
fn unknown_refusal_code_in_payload_is_unknown_code() {
    let text = r#"{"resultCode": "Refused", "refusalReasonCode": "99", "pspReference": "P"}"#;
    assert_eq!(
        Response::decode(text),
        Err(DecodeError::UnknownCode(String::from("99")))
    );
}

#[test]
fn cancelled_reason_is_optional() {
    let text = r#"{"resultCode": "Cancelled", "pspReference": "P"}"#;
    assert_eq!(
        Response::decode(text),
        Ok(Response::Cancelled { refusal_reason: None, psp_reference: String::from("P") })
    );
    let text = r#"{"resultCode": "Cancelled", "refusalReasonCode": "16", "pspReference": "P"}"#;
    assert_eq!(
        Response::decode(text),
        Ok(Response::Cancelled {
            refusal_reason: Some(RefusalReason::ShopperCancelled),
            psp_reference: String::from("P"),
        })
    );
}

#[test]
fn empty_variants_decode_from_result_code_alone() {
    for (tag, expected) in [
        ("AuthenticationFinished", Response::AuthenticationFinished {}),
        ("AuthenticationNotRequired", Response::AuthenticationNotRequired {}),
        ("PartiallyAuthorised", Response::PartiallyAuthorised {}),
        ("PresentToShopper", Response::PresentToShopper {}),
        ("Received", Response::Received {}),
    ] {
        let text = format!("{{\"resultCode\": \"{}\"}}", tag);
        assert_eq!(Response::decode(&text), Ok(expected));
    }
}

#[test]
fn missing_required_field_is_malformed() {
    // Authorised without pspReference.
    let text = r#"{"resultCode": "Authorised", "merchantReference": "o"}"#;
    assert_eq!(Response::decode(text), Err(DecodeError::MalformedField));
    // Refused without a reason code.
    let text = r#"{"resultCode": "Refused", "pspReference": "P"}"#;
    assert_eq!(Response::decode(text), Err(DecodeError::MalformedField));
    // An action variant without an action.
    let text = r#"{"resultCode": "RedirectShopper"}"#;
    assert_eq!(Response::decode(text), Err(DecodeError::MalformedField));
    // A result code of the wrong shape.
    let text = r#"{"resultCode": 7}"#;
    assert_eq!(Response::decode(text), Err(DecodeError::MalformedField));
    // No result code at all.
    let text = r#"{"pspReference": "P"}"#;
    assert_eq!(Response::decode(text), Err(DecodeError::MalformedField));
}

#[test]
fn unknown_inner_action_tags_fail() {
    let text = r#"{
        "resultCode": "RedirectShopper",
        "action": {"paymentMethodType": "cheque"}
    }"#;
    assert_eq!(
        Response::decode(text),
        Err(DecodeError::UnknownVariant(String::from("cheque")))
    );
    let text = r#"{
        "resultCode": "RedirectShopper",
        "action": {"paymentMethodType": "scheme", "type": "telepathy"}
    }"#;
    assert_eq!(
        Response::decode(text),
        Err(DecodeError::UnknownVariant(String::from("telepathy")))
    );
}

#[test]
fn non_json_response_is_a_syntax_error() {
    assert_eq!(Response::decode("not json"), Err(DecodeError::Syntax));
    assert_eq!(Response::decode(""), Err(DecodeError::Syntax));
    assert_eq!(Response::decode("{\"resultCode\""), Err(DecodeError::Syntax));
}

#[test]
fn fields_outside_the_matched_variant_are_ignored() {
    let text = r#"{
        "resultCode": "Received",
        "pspReference": "kept but unused",
        "someFutureField": [1, 2, {"x": null}]
    }"#;
    assert_eq!(Response::decode(text), Ok(Response::Received {}));
}

#[test]
fn ignored_fields_are_not_validated() {
    // Fractional, signed and huge numbers, and escaped text, in fields
    // no variant reads: the payload still decodes.
    let text = "{\
        \"resultCode\": \"Received\",\
        \"fraudResult\": {\"accountScore\": -1.5e10},\
        \"surcharge\": 10.50,\
        \"big\": 99999999999999999999999999,\
        \"note\": \"\\uD83D\\uDE00 fine\"\
    }";
    assert_eq!(Response::decode(text), Ok(Response::Received {}));
}

#[test]
fn a_read_field_rejects_a_number_outside_u64() {
    // The webhook amount's value is read: a fractional number there is
    // a malformed field, not a silent coercion.
    let text = r#"{
        "live": "false",
        "notificationItems": [{
            "eventCode": "AUTHORISATION",
            "additionalData": {"hmacSignature": "s"},
            "success": "true",
            "eventDate": "d",
            "merchantAccountCode": "m",
            "pspReference": "X",
            "merchantReference": "Y",
            "amount": {"value": 10.5, "currency": "EUR"}
        }]
    }"#;
    assert_eq!(
        adyen::Webhook::decode(text),
        Err(DecodeError::MalformedField)
    );
}
