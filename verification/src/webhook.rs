use vstd::prelude::*;

use crate::amount::Amount;
use crate::error::DecodeError;
use crate::error::DecodeErrorV;
use crate::json::arr_view;
use crate::json::lemma_arr_view_props;
use crate::json::obj_get;
use crate::json::parse_json;
use crate::json::spec_obj_get;
use crate::json::spec_parse_json;
use crate::json::Json;
use crate::json::JsonV;

verus! {

/// The authenticity data attached to an authorisation notification.
#[derive(Clone, Debug, PartialEq)]
pub struct AdditionalData {
    pub hmac_signature: String,
}

/// The ghost image of an [`AdditionalData`].
pub struct AdditionalDataV {
    pub hmac_signature: Seq<char>,
}

impl DeepView for AdditionalData {
    type V = AdditionalDataV;

    open spec fn deep_view(&self) -> AdditionalDataV {
        AdditionalDataV { hmac_signature: self.hmac_signature@ }
    }
}

/// One asynchronous event record, discriminated on the wire by
/// `eventCode`. Only an authorisation carries a decoded payload; every
/// other event decodes to an empty marker recording that the event
/// occurred. The vocabulary is closed: an event code outside it is a
/// decode failure, never a catch-all.
#[derive(Clone, Debug, PartialEq)]
pub enum NotificationRequestItem {
    /// The outcome of a payment request.
    Authorisation {
        additional_data: AdditionalData,
        success: String,
        event_date: String,
        merchant_account_code: String,
        psp_reference: String,
        merchant_reference: String,
        amount: Amount,
    },
    /// The outcome of a request to adjust the authorised amount.
    AuthorisationAdjustment {},
    /// The outcome of a request to cancel a payment.
    Cancellation {},
    /// The outcome of a request to cancel or refund a payment.
    CancelOrRefund {},
    /// The outcome of a request to capture a payment.
    Capture {},
    /// The capture failed due to rejection by the card scheme.
    CaptureFailed {},
    /// The original payment has expired on the processor's platform.
    Expire {},
    /// The payment has been handled outside the processor's platform.
    HandledExternally {},
    /// The first payment of a partial-payment order opened the order.
    OrderOpened {},
    /// The outcome of the shopper's last partial payment for an order.
    OrderClosed {},
    /// The outcome of a request to refund a payment.
    Refund {},
    /// The refund failed due to a rejection by the card scheme.
    RefundFailed {},
    /// The refunded amount has been returned and is back in the account.
    RefundedReversed {},
    /// The outcome of a request to refund with data.
    RefundWithData {},
    /// A new report is available.
    ReportAvailable {},
    /// The outcome of a request to cancel an unreferenced POS refund.
    VoidPendingRefund {},
    /// A payment was charged back and the funds were deducted.
    Chargeback {},
    /// A chargeback has been defended towards the issuing bank.
    ChargebackReversed {},
    /// The dispute process has opened.
    NotificationOfChargeback {},
    /// A fraud alert passed on by issuers to schemes and processors.
    NotificationOfFraud {},
    /// The pre-arbitration case was declined by the cardholder's bank.
    PrearbitrationLost {},
    /// The pre-arbitration case was accepted by the cardholder's bank.
    PrearbitrationWon {},
    /// A shopper opened a request-for-information case with the bank.
    RequestForInformation {},
    /// The issuing bank declined the chargeback defense material.
    SecondChargeback {},
    /// The payout has expired.
    PayoutExpire {},
    /// The user reviewing the payout declined it.
    PayoutDecline {},
    /// The outcome of a payout request.
    PayoutThirdparty {},
    /// The financial institution rejected the payout.
    PaidoutReversed {},
    /// The offer has expired.
    OfferClosed {},
    /// A recurring contract has been created.
    RecurringContract {},
    /// The refund will be performed after the payment is captured.
    PostponedRefund {},
    /// An authentication-only flow was performed.
    Authentication {},
    /// The manual review triggered by risk rules was accepted.
    ManualReviewAccept {},
    /// The manual review triggered by risk rules was rejected.
    ManualReviewReject {},
}

/// The ghost image of a [`NotificationRequestItem`].
pub enum NotificationRequestItemV {
    Authorisation {
        additional_data: AdditionalDataV,
        success: Seq<char>,
        event_date: Seq<char>,
        merchant_account_code: Seq<char>,
        psp_reference: Seq<char>,
        merchant_reference: Seq<char>,
        amount: Amount,
    },
    AuthorisationAdjustment {},
    Cancellation {},
    CancelOrRefund {},
    Capture {},
    CaptureFailed {},
    Expire {},
    HandledExternally {},
    OrderOpened {},
    OrderClosed {},
    Refund {},
    RefundFailed {},
    RefundedReversed {},
    RefundWithData {},
    ReportAvailable {},
    VoidPendingRefund {},
    Chargeback {},
    ChargebackReversed {},
    NotificationOfChargeback {},
    NotificationOfFraud {},
    PrearbitrationLost {},
    PrearbitrationWon {},
    RequestForInformation {},
    SecondChargeback {},
    PayoutExpire {},
    PayoutDecline {},
    PayoutThirdparty {},
    PaidoutReversed {},
    OfferClosed {},
    RecurringContract {},
    PostponedRefund {},
    Authentication {},
    ManualReviewAccept {},
    ManualReviewReject {},
}

impl DeepView for NotificationRequestItem {
    type V = NotificationRequestItemV;

    open spec fn deep_view(&self) -> NotificationRequestItemV {
        match self {
            NotificationRequestItem::Authorisation {
                additional_data,
                success,
                event_date,
                merchant_account_code,
                psp_reference,
                merchant_reference,
                amount,
            } => NotificationRequestItemV::Authorisation {
                additional_data: additional_data.deep_view(),
                success: success@,
                event_date: event_date@,
                merchant_account_code: merchant_account_code@,
                psp_reference: psp_reference@,
                merchant_reference: merchant_reference@,
                amount: *amount,
            },
            NotificationRequestItem::AuthorisationAdjustment {} => NotificationRequestItemV::AuthorisationAdjustment {},
            NotificationRequestItem::Cancellation {} => NotificationRequestItemV::Cancellation {},
            NotificationRequestItem::CancelOrRefund {} => NotificationRequestItemV::CancelOrRefund {},
            NotificationRequestItem::Capture {} => NotificationRequestItemV::Capture {},
            NotificationRequestItem::CaptureFailed {} => NotificationRequestItemV::CaptureFailed {},
            NotificationRequestItem::Expire {} => NotificationRequestItemV::Expire {},
            NotificationRequestItem::HandledExternally {} => NotificationRequestItemV::HandledExternally {},
            NotificationRequestItem::OrderOpened {} => NotificationRequestItemV::OrderOpened {},
            NotificationRequestItem::OrderClosed {} => NotificationRequestItemV::OrderClosed {},
            NotificationRequestItem::Refund {} => NotificationRequestItemV::Refund {},
            NotificationRequestItem::RefundFailed {} => NotificationRequestItemV::RefundFailed {},
            NotificationRequestItem::RefundedReversed {} => NotificationRequestItemV::RefundedReversed {},
            NotificationRequestItem::RefundWithData {} => NotificationRequestItemV::RefundWithData {},
            NotificationRequestItem::ReportAvailable {} => NotificationRequestItemV::ReportAvailable {},
            NotificationRequestItem::VoidPendingRefund {} => NotificationRequestItemV::VoidPendingRefund {},
            NotificationRequestItem::Chargeback {} => NotificationRequestItemV::Chargeback {},
            NotificationRequestItem::ChargebackReversed {} => NotificationRequestItemV::ChargebackReversed {},
            NotificationRequestItem::NotificationOfChargeback {} => NotificationRequestItemV::NotificationOfChargeback {},
            NotificationRequestItem::NotificationOfFraud {} => NotificationRequestItemV::NotificationOfFraud {},
            NotificationRequestItem::PrearbitrationLost {} => NotificationRequestItemV::PrearbitrationLost {},
            NotificationRequestItem::PrearbitrationWon {} => NotificationRequestItemV::PrearbitrationWon {},
            NotificationRequestItem::RequestForInformation {} => NotificationRequestItemV::RequestForInformation {},
            NotificationRequestItem::SecondChargeback {} => NotificationRequestItemV::SecondChargeback {},
            NotificationRequestItem::PayoutExpire {} => NotificationRequestItemV::PayoutExpire {},
            NotificationRequestItem::PayoutDecline {} => NotificationRequestItemV::PayoutDecline {},
            NotificationRequestItem::PayoutThirdparty {} => NotificationRequestItemV::PayoutThirdparty {},
            NotificationRequestItem::PaidoutReversed {} => NotificationRequestItemV::PaidoutReversed {},
            NotificationRequestItem::OfferClosed {} => NotificationRequestItemV::OfferClosed {},
            NotificationRequestItem::RecurringContract {} => NotificationRequestItemV::RecurringContract {},
            NotificationRequestItem::PostponedRefund {} => NotificationRequestItemV::PostponedRefund {},
            NotificationRequestItem::Authentication {} => NotificationRequestItemV::Authentication {},
            NotificationRequestItem::ManualReviewAccept {} => NotificationRequestItemV::ManualReviewAccept {},
            NotificationRequestItem::ManualReviewReject {} => NotificationRequestItemV::ManualReviewReject {},
        }
    }
}

/// One webhook delivery: whether it came from the live environment, and
/// its ordered sequence of notification items.
#[derive(Clone, Debug, PartialEq)]
pub struct Webhook {
    pub live: String,
    pub notification_items: Vec<NotificationRequestItem>,
}

/// The ghost image of a [`Webhook`].
pub struct WebhookV {
    pub live: Seq<char>,
    pub notification_items: Seq<NotificationRequestItemV>,
}

impl DeepView for Webhook {
    type V = WebhookV;

    open spec fn deep_view(&self) -> WebhookV {
        WebhookV { live: self.live@, notification_items: self.notification_items.deep_view() }
    }
}

impl AdditionalData {
    /// The authenticity data an `additionalData` object denotes: the
    /// `hmacSignature` member, required.
    pub open spec fn spec_decode(j: JsonV) -> Result<AdditionalDataV, DecodeErrorV> {
        match j {
            JsonV::Obj(fields) => match spec_obj_get(fields, "hmacSignature"@) {
                Some(JsonV::Str(hmac_signature)) => Ok(AdditionalDataV { hmac_signature }),
                Some(_) => Err(DecodeErrorV::MalformedField),
                None => Err(DecodeErrorV::MalformedField),
            },
            _ => Err(DecodeErrorV::MalformedField),
        }
    }

    /// Decode a notification's `additionalData` object.
    pub fn decode_json(j: &Json) -> (r: Result<AdditionalData, DecodeError>)
        ensures
            match r {
                Ok(a) => Self::spec_decode(j.deep_view()) == Ok::<_, DecodeErrorV>(a.deep_view()),
                Err(e) => Self::spec_decode(j.deep_view()) == Err::<AdditionalDataV, _>(e.deep_view()),
            },
    {
        match j {
            Json::Obj(fields) => match obj_get(fields, "hmacSignature") {
                Some(Json::Str(hmac_signature)) => Ok(AdditionalData {
                    hmac_signature: hmac_signature.clone(),
                }),
                Some(_) => Err(DecodeError::MalformedField),
                None => Err(DecodeError::MalformedField),
            },
            _ => Err(DecodeError::MalformedField),
        }
    }
}

impl NotificationRequestItem {
    /// The fully decoded payload of an authorisation notification: its
    /// authenticity data, outcome, date, account, references and amount,
    /// all required.
    pub open spec fn spec_authorisation_of(fields: Seq<(Seq<char>, JsonV)>) -> Result<NotificationRequestItemV, DecodeErrorV> {
        match spec_obj_get(fields, "additionalData"@) {
            Some(a) => match AdditionalData::spec_decode(a) {
                Ok(additional_data) => match spec_obj_get(fields, "success"@) {
                    Some(JsonV::Str(success)) => match spec_obj_get(fields, "eventDate"@) {
                        Some(JsonV::Str(event_date)) => match spec_obj_get(fields, "merchantAccountCode"@) {
                            Some(JsonV::Str(merchant_account_code)) => match spec_obj_get(fields, "pspReference"@) {
                                Some(JsonV::Str(psp_reference)) => match spec_obj_get(fields, "merchantReference"@) {
                                    Some(JsonV::Str(merchant_reference)) => match spec_obj_get(fields, "amount"@) {
                                        Some(am) => match Amount::spec_decode(am) {
                                            Ok(amount) => Ok(NotificationRequestItemV::Authorisation {
                                                additional_data,
                                                success,
                                                event_date,
                                                merchant_account_code,
                                                psp_reference,
                                                merchant_reference,
                                                amount,
                                            }),
                                            Err(e) => Err(e),
                                        },
                                        None => Err(DecodeErrorV::MalformedField),
                                    },
                                    Some(_) => Err(DecodeErrorV::MalformedField),
                                    None => Err(DecodeErrorV::MalformedField),
                                },
                                Some(_) => Err(DecodeErrorV::MalformedField),
                                None => Err(DecodeErrorV::MalformedField),
                            },
                            Some(_) => Err(DecodeErrorV::MalformedField),
                            None => Err(DecodeErrorV::MalformedField),
                        },
                        Some(_) => Err(DecodeErrorV::MalformedField),
                        None => Err(DecodeErrorV::MalformedField),
                    },
                    Some(_) => Err(DecodeErrorV::MalformedField),
                    None => Err(DecodeErrorV::MalformedField),
                },
                Err(e) => Err(e),
            },
            None => Err(DecodeErrorV::MalformedField),
        }
    }

    /// The notification an item object denotes, discriminated by its
    /// `eventCode`: an authorisation is decoded in full, every other
    /// known event to its empty marker. An event code outside the closed
    /// vocabulary is an `UnknownVariant`, never a catch-all.
    pub open spec fn spec_decode(j: JsonV) -> Result<NotificationRequestItemV, DecodeErrorV> {
        match j {
            JsonV::Obj(fields) => match spec_obj_get(fields, "eventCode"@) {
                Some(JsonV::Str(tag)) => if tag == "AUTHORISATION"@ {
                    Self::spec_authorisation_of(fields)

                } else if tag == "AUTHORISATION_ADJUSTMENT"@ {
                    Ok(NotificationRequestItemV::AuthorisationAdjustment {})
                } else if tag == "CANCELLATION"@ {
                    Ok(NotificationRequestItemV::Cancellation {})
                } else if tag == "CANCEL_OR_REFUND"@ {
                    Ok(NotificationRequestItemV::CancelOrRefund {})
                } else if tag == "CAPTURE"@ {
                    Ok(NotificationRequestItemV::Capture {})
                } else if tag == "CAPTURE_FAILED"@ {
                    Ok(NotificationRequestItemV::CaptureFailed {})
                } else if tag == "EXPIRE"@ {
                    Ok(NotificationRequestItemV::Expire {})
                } else if tag == "HANDLED_EXTERNALLY"@ {
                    Ok(NotificationRequestItemV::HandledExternally {})
                } else if tag == "ORDER_OPENED"@ {
                    Ok(NotificationRequestItemV::OrderOpened {})
                } else if tag == "ORDER_CLOSED"@ {
                    Ok(NotificationRequestItemV::OrderClosed {})
                } else if tag == "REFUND"@ {
                    Ok(NotificationRequestItemV::Refund {})
                } else if tag == "REFUND_FAILED"@ {
                    Ok(NotificationRequestItemV::RefundFailed {})
                } else if tag == "REFUNDED_REVERSED"@ {
                    Ok(NotificationRequestItemV::RefundedReversed {})
                } else if tag == "REFUND_WITH_DATA"@ {
                    Ok(NotificationRequestItemV::RefundWithData {})
                } else if tag == "REPORT_AVAILABLE"@ {
                    Ok(NotificationRequestItemV::ReportAvailable {})
                } else if tag == "VOID_PENDING_REFUND"@ {
                    Ok(NotificationRequestItemV::VoidPendingRefund {})
                } else if tag == "CHARGEBACK"@ {
                    Ok(NotificationRequestItemV::Chargeback {})
                } else if tag == "CHARGEBACK_REVERSED"@ {
                    Ok(NotificationRequestItemV::ChargebackReversed {})
                } else if tag == "NOTIFICATION_OF_CHARGEBACK"@ {
                    Ok(NotificationRequestItemV::NotificationOfChargeback {})
                } else if tag == "NOTIFICATION_OF_FRAUD"@ {
                    Ok(NotificationRequestItemV::NotificationOfFraud {})
                } else if tag == "PREARBITRATION_LOST"@ {
                    Ok(NotificationRequestItemV::PrearbitrationLost {})
                } else if tag == "PREARBITRATION_WON"@ {
                    Ok(NotificationRequestItemV::PrearbitrationWon {})
                } else if tag == "REQUEST_FOR_INFORMATION"@ {
                    Ok(NotificationRequestItemV::RequestForInformation {})
                } else if tag == "SECOND_CHARGEBACK"@ {
                    Ok(NotificationRequestItemV::SecondChargeback {})
                } else if tag == "PAYOUT_EXPIRE"@ {
                    Ok(NotificationRequestItemV::PayoutExpire {})
                } else if tag == "PAYOUT_DECLINE"@ {
                    Ok(NotificationRequestItemV::PayoutDecline {})
                } else if tag == "PAYOUT_THIRDPARTY"@ {
                    Ok(NotificationRequestItemV::PayoutThirdparty {})
                } else if tag == "PAIDOUT_REVERSED"@ {
                    Ok(NotificationRequestItemV::PaidoutReversed {})
                } else if tag == "OFFER_CLOSED"@ {
                    Ok(NotificationRequestItemV::OfferClosed {})
                } else if tag == "RECURRING_CONTRACT"@ {
                    Ok(NotificationRequestItemV::RecurringContract {})
                } else if tag == "POSTPONED_REFUND"@ {
                    Ok(NotificationRequestItemV::PostponedRefund {})
                } else if tag == "AUTHENTICATION"@ {
                    Ok(NotificationRequestItemV::Authentication {})
                } else if tag == "MANUAL_REVIEW_ACCEPT"@ {
                    Ok(NotificationRequestItemV::ManualReviewAccept {})
                } else if tag == "MANUAL_REVIEW_REJECT"@ {
                    Ok(NotificationRequestItemV::ManualReviewReject {})
                } else {
                    Err(DecodeErrorV::UnknownVariant(tag))
                },
                Some(_) => Err(DecodeErrorV::MalformedField),
                None => Err(DecodeErrorV::MalformedField),
            },
            _ => Err(DecodeErrorV::MalformedField),
        }
    }

    fn authorisation_of(fields: &Vec<(String, Json)>) -> (r: Result<NotificationRequestItem, DecodeError>)
        ensures
            match r {
                Ok(it) => Self::spec_authorisation_of(crate::json::obj_view(fields@)) == Ok::<_, DecodeErrorV>(it.deep_view()),
                Err(e) => Self::spec_authorisation_of(crate::json::obj_view(fields@)) == Err::<NotificationRequestItemV, _>(e.deep_view()),
            },
    {
        match obj_get(fields, "additionalData") {
            Some(a) => match AdditionalData::decode_json(a) {
                Ok(additional_data) => match obj_get(fields, "success") {
                    Some(Json::Str(success)) => match obj_get(fields, "eventDate") {
                        Some(Json::Str(event_date)) => match obj_get(fields, "merchantAccountCode") {
                            Some(Json::Str(merchant_account_code)) => match obj_get(fields, "pspReference") {
                                Some(Json::Str(psp_reference)) => match obj_get(fields, "merchantReference") {
                                    Some(Json::Str(merchant_reference)) => match obj_get(fields, "amount") {
                                        Some(am) => match Amount::decode_json(am) {
                                            Ok(amount) => Ok(NotificationRequestItem::Authorisation {
                                                additional_data,
                                                success: success.clone(),
                                                event_date: event_date.clone(),
                                                merchant_account_code: merchant_account_code.clone(),
                                                psp_reference: psp_reference.clone(),
                                                merchant_reference: merchant_reference.clone(),
                                                amount,
                                            }),
                                            Err(e) => Err(e),
                                        },
                                        None => Err(DecodeError::MalformedField),
                                    },
                                    Some(_) => Err(DecodeError::MalformedField),
                                    None => Err(DecodeError::MalformedField),
                                },
                                Some(_) => Err(DecodeError::MalformedField),
                                None => Err(DecodeError::MalformedField),
                            },
                            Some(_) => Err(DecodeError::MalformedField),
                            None => Err(DecodeError::MalformedField),
                        },
                        Some(_) => Err(DecodeError::MalformedField),
                        None => Err(DecodeError::MalformedField),
                    },
                    Some(_) => Err(DecodeError::MalformedField),
                    None => Err(DecodeError::MalformedField),
                },
                Err(e) => Err(e),
            },
            None => Err(DecodeError::MalformedField),
        }
    }

    /// Decode one notification item object by its `eventCode`.
    pub fn decode_json(j: &Json) -> (r: Result<NotificationRequestItem, DecodeError>)
        ensures
            match r {
                Ok(it) => Self::spec_decode(j.deep_view()) == Ok::<_, DecodeErrorV>(it.deep_view()),
                Err(e) => Self::spec_decode(j.deep_view()) == Err::<NotificationRequestItemV, _>(e.deep_view()),
            },
    {
        match j {
            Json::Obj(fields) => match obj_get(fields, "eventCode") {
                Some(Json::Str(tag)) => {
                    if tag.eq(&String::from_str("AUTHORISATION")) {
                        Self::authorisation_of(fields)

                    } else if tag.eq(&String::from_str("AUTHORISATION_ADJUSTMENT")) {
                        Ok(NotificationRequestItem::AuthorisationAdjustment {})
                    } else if tag.eq(&String::from_str("CANCELLATION")) {
                        Ok(NotificationRequestItem::Cancellation {})
                    } else if tag.eq(&String::from_str("CANCEL_OR_REFUND")) {
                        Ok(NotificationRequestItem::CancelOrRefund {})
                    } else if tag.eq(&String::from_str("CAPTURE")) {
                        Ok(NotificationRequestItem::Capture {})
                    } else if tag.eq(&String::from_str("CAPTURE_FAILED")) {
                        Ok(NotificationRequestItem::CaptureFailed {})
                    } else if tag.eq(&String::from_str("EXPIRE")) {
                        Ok(NotificationRequestItem::Expire {})
                    } else if tag.eq(&String::from_str("HANDLED_EXTERNALLY")) {
                        Ok(NotificationRequestItem::HandledExternally {})
                    } else if tag.eq(&String::from_str("ORDER_OPENED")) {
                        Ok(NotificationRequestItem::OrderOpened {})
                    } else if tag.eq(&String::from_str("ORDER_CLOSED")) {
                        Ok(NotificationRequestItem::OrderClosed {})
                    } else if tag.eq(&String::from_str("REFUND")) {
                        Ok(NotificationRequestItem::Refund {})
                    } else if tag.eq(&String::from_str("REFUND_FAILED")) {
                        Ok(NotificationRequestItem::RefundFailed {})
                    } else if tag.eq(&String::from_str("REFUNDED_REVERSED")) {
                        Ok(NotificationRequestItem::RefundedReversed {})
                    } else if tag.eq(&String::from_str("REFUND_WITH_DATA")) {
                        Ok(NotificationRequestItem::RefundWithData {})
                    } else if tag.eq(&String::from_str("REPORT_AVAILABLE")) {
                        Ok(NotificationRequestItem::ReportAvailable {})
                    } else if tag.eq(&String::from_str("VOID_PENDING_REFUND")) {
                        Ok(NotificationRequestItem::VoidPendingRefund {})
                    } else if tag.eq(&String::from_str("CHARGEBACK")) {
                        Ok(NotificationRequestItem::Chargeback {})
                    } else if tag.eq(&String::from_str("CHARGEBACK_REVERSED")) {
                        Ok(NotificationRequestItem::ChargebackReversed {})
                    } else if tag.eq(&String::from_str("NOTIFICATION_OF_CHARGEBACK")) {
                        Ok(NotificationRequestItem::NotificationOfChargeback {})
                    } else if tag.eq(&String::from_str("NOTIFICATION_OF_FRAUD")) {
                        Ok(NotificationRequestItem::NotificationOfFraud {})
                    } else if tag.eq(&String::from_str("PREARBITRATION_LOST")) {
                        Ok(NotificationRequestItem::PrearbitrationLost {})
                    } else if tag.eq(&String::from_str("PREARBITRATION_WON")) {
                        Ok(NotificationRequestItem::PrearbitrationWon {})
                    } else if tag.eq(&String::from_str("REQUEST_FOR_INFORMATION")) {
                        Ok(NotificationRequestItem::RequestForInformation {})
                    } else if tag.eq(&String::from_str("SECOND_CHARGEBACK")) {
                        Ok(NotificationRequestItem::SecondChargeback {})
                    } else if tag.eq(&String::from_str("PAYOUT_EXPIRE")) {
                        Ok(NotificationRequestItem::PayoutExpire {})
                    } else if tag.eq(&String::from_str("PAYOUT_DECLINE")) {
                        Ok(NotificationRequestItem::PayoutDecline {})
                    } else if tag.eq(&String::from_str("PAYOUT_THIRDPARTY")) {
                        Ok(NotificationRequestItem::PayoutThirdparty {})
                    } else if tag.eq(&String::from_str("PAIDOUT_REVERSED")) {
                        Ok(NotificationRequestItem::PaidoutReversed {})
                    } else if tag.eq(&String::from_str("OFFER_CLOSED")) {
                        Ok(NotificationRequestItem::OfferClosed {})
                    } else if tag.eq(&String::from_str("RECURRING_CONTRACT")) {
                        Ok(NotificationRequestItem::RecurringContract {})
                    } else if tag.eq(&String::from_str("POSTPONED_REFUND")) {
                        Ok(NotificationRequestItem::PostponedRefund {})
                    } else if tag.eq(&String::from_str("AUTHENTICATION")) {
                        Ok(NotificationRequestItem::Authentication {})
                    } else if tag.eq(&String::from_str("MANUAL_REVIEW_ACCEPT")) {
                        Ok(NotificationRequestItem::ManualReviewAccept {})
                    } else if tag.eq(&String::from_str("MANUAL_REVIEW_REJECT")) {
                        Ok(NotificationRequestItem::ManualReviewReject {})
                    } else {
                        Err(DecodeError::UnknownVariant(tag.clone()))
                    }
                },
                Some(_) => Err(DecodeError::MalformedField),
                None => Err(DecodeError::MalformedField),
            },
            _ => Err(DecodeError::MalformedField),
        }
    }
}

/// The notifications a sequence of item documents denotes, from position
/// `i` on: each item decoded in order, the first failure ending the
/// whole decode.
pub open spec fn decode_items_from(s: Seq<JsonV>, i: int) -> Result<Seq<NotificationRequestItemV>, DecodeErrorV>
    decreases s.len() - i,
{
    if i < 0 || i >= s.len() {
        Ok(Seq::empty())
    } else {
        match NotificationRequestItem::spec_decode(s[i]) {
            Err(e) => Err(e),
            Ok(it) => match decode_items_from(s, i + 1) {
                Err(e) => Err(e),
                Ok(rest) => Ok(seq![it] + rest),
            },
        }
    }
}

impl Webhook {
    /// The webhook a document denotes: the `live` marker string and the
    /// ordered sequence of notification items, each discriminated by its
    /// own `eventCode`.
    pub open spec fn spec_decode(j: JsonV) -> Result<WebhookV, DecodeErrorV> {
        match j {
            JsonV::Obj(fields) => match spec_obj_get(fields, "live"@) {
                Some(JsonV::Str(live)) => match spec_obj_get(fields, "notificationItems"@) {
                    Some(JsonV::Arr(items)) => match decode_items_from(items, 0) {
                        Ok(notification_items) => Ok(WebhookV { live, notification_items }),
                        Err(e) => Err(e),
                    },
                    Some(_) => Err(DecodeErrorV::MalformedField),
                    None => Err(DecodeErrorV::MalformedField),
                },
                Some(_) => Err(DecodeErrorV::MalformedField),
                None => Err(DecodeErrorV::MalformedField),
            },
            _ => Err(DecodeErrorV::MalformedField),
        }
    }

    /// The webhook a delivery text denotes: text that is not a document
    /// of the accepted grammar is a `Syntax` error; a document is
    /// decoded as a webhook.
    pub open spec fn spec_decode_text(s: Seq<char>) -> Result<WebhookV, DecodeErrorV> {
        match spec_parse_json(s) {
            Some(j) => Self::spec_decode(j),
            None => Err(DecodeErrorV::Syntax),
        }
    }

    fn decode_items(arr: &Vec<Json>) -> (r: Result<Vec<NotificationRequestItem>, DecodeError>)
        ensures
            match r {
                Ok(its) => decode_items_from(arr_view(arr@), 0) == Ok::<_, DecodeErrorV>(its.deep_view()),
                Err(e) => decode_items_from(arr_view(arr@), 0) == Err::<Seq<NotificationRequestItemV>, _>(e.deep_view()),
            },
    {
        let ghost sv = arr_view(arr@);
        let mut out: Vec<NotificationRequestItem> = Vec::new();
        let mut i: usize = 0;
        proof {
            lemma_arr_view_props(arr@);
            assert(out.deep_view() =~= Seq::<NotificationRequestItemV>::empty());
            let first = decode_items_from(sv, 0);
            if first is Ok {
                assert(out.deep_view() + first->Ok_0 =~= first->Ok_0);
            }
        }
        while i < arr.len()
            invariant
                sv == arr_view(arr@),
                sv.len() == arr@.len(),
                forall|t: int| 0 <= t < arr@.len() ==> #[trigger] arr_view(arr@)[t] == arr@[t].deep_view(),
                i <= arr.len(),
                decode_items_from(sv, 0) == match decode_items_from(sv, i as int) {
                    Ok(rest) => Ok::<_, DecodeErrorV>(out.deep_view() + rest),
                    Err(e) => Err::<Seq<NotificationRequestItemV>, _>(e),
                },
            decreases arr.len() - i,
        {
            let ghost old_dv = out.deep_view();
            proof {
                assert(sv[i as int] == arr@[i as int].deep_view());
            }
            match NotificationRequestItem::decode_json(&arr[i]) {
                Ok(it) => {
                    let ghost itv = it.deep_view();
                    out.push(it);
                    proof {
                        assert(out.deep_view() =~= old_dv.push(itv));
                        let next = decode_items_from(sv, i as int + 1);
                        if next is Ok {
                            assert(old_dv + (seq![itv] + next->Ok_0) =~= out.deep_view()
                                + next->Ok_0);
                        }
                    }
                },
                Err(e) => {
                    return Err(e);
                },
            }
            i = i + 1;
        }
        proof {
            assert(out.deep_view() + Seq::<NotificationRequestItemV>::empty() =~= out.deep_view());
        }
        Ok(out)
    }

    /// Decode a webhook document.
    pub fn decode_json(j: &Json) -> (r: Result<Webhook, DecodeError>)
        ensures
            match r {
                Ok(w) => Self::spec_decode(j.deep_view()) == Ok::<_, DecodeErrorV>(w.deep_view()),
                Err(e) => Self::spec_decode(j.deep_view()) == Err::<WebhookV, _>(e.deep_view()),
            },
    {
        match j {
            Json::Obj(fields) => match obj_get(fields, "live") {
                Some(Json::Str(live)) => match obj_get(fields, "notificationItems") {
                    Some(Json::Arr(items)) => match Self::decode_items(items) {
                        Ok(notification_items) => Ok(Webhook { live: live.clone(), notification_items }),
                        Err(e) => Err(e),
                    },
                    Some(_) => Err(DecodeError::MalformedField),
                    None => Err(DecodeError::MalformedField),
                },
                Some(_) => Err(DecodeError::MalformedField),
                None => Err(DecodeError::MalformedField),
            },
            _ => Err(DecodeError::MalformedField),
        }
    }

    /// Decode a webhook delivery: parse the text as a JSON document of
    /// the accepted grammar, then decode it as a webhook.
    pub fn decode(text: &str) -> (r: Result<Webhook, DecodeError>)
        ensures
            match r {
                Ok(w) => Self::spec_decode_text(text@) == Ok::<_, DecodeErrorV>(w.deep_view()),
                Err(e) => Self::spec_decode_text(text@) == Err::<WebhookV, _>(e.deep_view()),
            },
    {
        match parse_json(text) {
            Some(j) => Self::decode_json(&j),
            None => Err(DecodeError::Syntax),
        }
    }
}

} // verus!
