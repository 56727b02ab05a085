use adyen::webhook::{NotificationRequestItem, Webhook};
use adyen::{Amount, Currency, DecodeError};

#[test]
fn webhook_with_authorisation_and_refund_items() {
    let text = r#"{
        "live": "false",
        "notificationItems": [
            {
                "eventCode": "AUTHORISATION",
                "additionalData": {"hmacSignature": "sig=="},
                "success": "true",
                "eventDate": "2021-01-01T01:00:00+01:00",
                "merchantAccountCode": "MyAccount",
                "pspReference": "X",
                "merchantReference": "Y",
                "amount": {"value": 1000, "currency": "EUR"}
            },
            {"eventCode": "REFUND"}
        ]
    }"#;
    let w = Webhook::decode(text).unwrap();
    assert_eq!(w.live, "false");
    assert_eq!(w.notification_items.len(), 2);
    assert_eq!(
        w.notification_items[0],
        NotificationRequestItem::Authorisation {
            additional_data: adyen::webhook::AdditionalData {
                hmac_signature: String::from("sig=="),
            },
            success: String::from("true"),
            event_date: String::from("2021-01-01T01:00:00+01:00"),
            merchant_account_code: String::from("MyAccount"),
            psp_reference: String::from("X"),
            merchant_reference: String::from("Y"),
            amount: Amount { value: 1000, currency: Currency::EUR },
        }
    );
    assert_eq!(w.notification_items[1], NotificationRequestItem::Refund {});
}

#[test]
fn item_order_is_preserved() {
    let text = r#"{
        "live": "true",
        "notificationItems": [
            {"eventCode": "CAPTURE"},
            {"eventCode": "CANCELLATION"},
            {"eventCode": "CHARGEBACK"}
        ]
    }"#;
    let w = Webhook::decode(text).unwrap();
    assert_eq!(
        w.notification_items,
        vec![
            NotificationRequestItem::Capture {},
            NotificationRequestItem::Cancellation {},
            NotificationRequestItem::Chargeback {},
        ]
    );
}

#[test]
fn every_marker_event_code_decodes() {
    let cases = [
        ("AUTHORISATION_ADJUSTMENT", NotificationRequestItem::AuthorisationAdjustment {}),
        ("CANCELLATION", NotificationRequestItem::Cancellation {}),
        ("CANCEL_OR_REFUND", NotificationRequestItem::CancelOrRefund {}),
        ("CAPTURE", NotificationRequestItem::Capture {}),
        ("CAPTURE_FAILED", NotificationRequestItem::CaptureFailed {}),
        ("EXPIRE", NotificationRequestItem::Expire {}),
        ("HANDLED_EXTERNALLY", NotificationRequestItem::HandledExternally {}),
        ("ORDER_OPENED", NotificationRequestItem::OrderOpened {}),
        ("ORDER_CLOSED", NotificationRequestItem::OrderClosed {}),
        ("REFUND", NotificationRequestItem::Refund {}),
        ("REFUND_FAILED", NotificationRequestItem::RefundFailed {}),
        ("REFUNDED_REVERSED", NotificationRequestItem::RefundedReversed {}),
        ("REFUND_WITH_DATA", NotificationRequestItem::RefundWithData {}),
        ("REPORT_AVAILABLE", NotificationRequestItem::ReportAvailable {}),
        ("VOID_PENDING_REFUND", NotificationRequestItem::VoidPendingRefund {}),
        ("CHARGEBACK", NotificationRequestItem::Chargeback {}),
        ("CHARGEBACK_REVERSED", NotificationRequestItem::ChargebackReversed {}),
        ("NOTIFICATION_OF_CHARGEBACK", NotificationRequestItem::NotificationOfChargeback {}),
        ("NOTIFICATION_OF_FRAUD", NotificationRequestItem::NotificationOfFraud {}),
        ("PREARBITRATION_LOST", NotificationRequestItem::PrearbitrationLost {}),
        ("PREARBITRATION_WON", NotificationRequestItem::PrearbitrationWon {}),
        ("REQUEST_FOR_INFORMATION", NotificationRequestItem::RequestForInformation {}),
        ("SECOND_CHARGEBACK", NotificationRequestItem::SecondChargeback {}),
        ("PAYOUT_EXPIRE", NotificationRequestItem::PayoutExpire {}),
        ("PAYOUT_DECLINE", NotificationRequestItem::PayoutDecline {}),
        ("PAYOUT_THIRDPARTY", NotificationRequestItem::PayoutThirdparty {}),
        ("PAIDOUT_REVERSED", NotificationRequestItem::PaidoutReversed {}),
        ("OFFER_CLOSED", NotificationRequestItem::OfferClosed {}),
        ("RECURRING_CONTRACT", NotificationRequestItem::RecurringContract {}),
        ("POSTPONED_REFUND", NotificationRequestItem::PostponedRefund {}),
        ("AUTHENTICATION", NotificationRequestItem::Authentication {}),
        ("MANUAL_REVIEW_ACCEPT", NotificationRequestItem::ManualReviewAccept {}),
        ("MANUAL_REVIEW_REJECT", NotificationRequestItem::ManualReviewReject {}),
    ];
    for (code, expected) in cases {
        let text = format!(
            "{{\"live\": \"true\", \"notificationItems\": [{{\"eventCode\": \"{}\"}}]}}",
            code
        );
        let w = Webhook::decode(&text).unwrap();
        assert_eq!(w.notification_items, vec![expected]);
    }
}

#[test]
fn unknown_event_code_fails_the_whole_decode() {
    let text = r#"{
        "live": "true",
        "notificationItems": [
            {"eventCode": "CAPTURE"},
            {"eventCode": "SOMETHING_NEW"}
        ]
    }"#;
    assert_eq!(
        Webhook::decode(text),
        Err(DecodeError::UnknownVariant(String::from("SOMETHING_NEW")))
    );
}

#[test]
fn authorisation_item_with_missing_field_is_malformed() {
    // No amount.
    let text = r#"{
        "live": "false",
        "notificationItems": [{
            "eventCode": "AUTHORISATION",
            "additionalData": {"hmacSignature": "s"},
            "success": "true",
            "eventDate": "d",
            "merchantAccountCode": "m",
            "pspReference": "X",
            "merchantReference": "Y"
        }]
    }"#;
    assert_eq!(Webhook::decode(text), Err(DecodeError::MalformedField));
}

#[test]
fn webhook_amount_with_unknown_currency_fails() {
    let text = r#"{
        "live": "false",
        "notificationItems": [{
            "eventCode": "AUTHORISATION",
            "additionalData": {"hmacSignature": "s"},
            "success": "true",
            "eventDate": "d",
            "merchantAccountCode": "m",
            "pspReference": "X",
            "merchantReference": "Y",
            "amount": {"value": 5, "currency": "XTS"}
        }]
    }"#;
    assert_eq!(
        Webhook::decode(text),
        Err(DecodeError::UnknownVariant(String::from("XTS")))
    );
}

#[test]
fn empty_item_list_decodes() {
    let text = r#"{"live": "true", "notificationItems": []}"#;
    let w = Webhook::decode(text).unwrap();
    assert_eq!(w.notification_items, vec![]);
}

#[test]
fn webhook_without_live_marker_is_malformed() {
    let text = r#"{"notificationItems": []}"#;
    assert_eq!(Webhook::decode(text), Err(DecodeError::MalformedField));
}
