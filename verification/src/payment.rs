use vstd::prelude::*;

use crate::action::Action;
use crate::action::ActionV;
use crate::error::DecodeError;
use crate::error::DecodeErrorV;
use crate::json::obj_get;
use crate::json::parse_json;
use crate::json::spec_obj_get;
use crate::json::spec_parse_json;
use crate::json::Json;
use crate::json::JsonV;

verus! {

/// Card details the processor may attach to an authorised payment.
#[derive(Clone, Debug, PartialEq)]
pub struct AdditionalData {
    pub card_holder_name: String,
    pub issuer_country: String,
    pub card_summary: String,
    /// The expiry date on the card (M/yyyy).
    pub expiry_date: String,
    /// The card scheme: visa, mastercard, and so on.
    pub payment_method: String,
    pub recurring_detail_reference: Option<String>,
}

/// The ghost image of an [`AdditionalData`].
pub struct AdditionalDataV {
    pub card_holder_name: Seq<char>,
    pub issuer_country: Seq<char>,
    pub card_summary: Seq<char>,
    pub expiry_date: Seq<char>,
    pub payment_method: Seq<char>,
    pub recurring_detail_reference: Option<Seq<char>>,
}

impl DeepView for AdditionalData {
    type V = AdditionalDataV;

    open spec fn deep_view(&self) -> AdditionalDataV {
        AdditionalDataV {
            card_holder_name: self.card_holder_name@,
            issuer_country: self.issuer_country@,
            card_summary: self.card_summary@,
            expiry_date: self.expiry_date@,
            payment_method: self.payment_method@,
            recurring_detail_reference: match self.recurring_detail_reference {
                Some(ref s) => Some(s@),
                None => None,
            },
        }
    }
}

/// The outcome of one payment attempt, discriminated on the wire by
/// `resultCode`. Exactly one variant is active per response; each carries
/// only the fields meaningful for that outcome.
#[derive(Clone, Debug, PartialEq)]
pub enum Response {
    /// The payment was successfully authenticated with 3-D Secure 2;
    /// returned for authentication-only transactions.
    AuthenticationFinished {},
    /// The transaction does not require 3-D Secure authentication.
    AuthenticationNotRequired {},
    /// The payment was authorised. A final state.
    Authorised {
        additional_data: Option<AdditionalData>,
        psp_reference: String,
        merchant_reference: String,
    },
    /// The payment was cancelled before processing completed. A final
    /// state.
    Cancelled { refusal_reason: Option<RefusalReason>, psp_reference: String },
    /// The issuer requires further shopper interaction (a 3-D Secure 2
    /// challenge) before the payment can be authenticated.
    ChallengeShopper { action: Action },
    /// The payment failed while being processed; the reason is in
    /// `refusal_reason`. A final state.
    Error { refusal_reason: RefusalReason, psp_reference: String },
    /// The issuer requires the shopper's device fingerprint before the
    /// payment can be authenticated.
    IdentifyShopper { action: Action },
    /// The payment was authorised for a partial amount.
    PartiallyAuthorised {},
    /// The final status of the payment is not yet known.
    Pending { action: Action },
    /// The response holds information to present to the shopper so they
    /// can complete the payment.
    PresentToShopper {},
    /// The payment was received and will be processed. The initial state
    /// of every payment.
    Received {},
    /// The shopper must be redirected to an external page or app to
    /// complete authorisation.
    RedirectShopper { action: Action },
    /// The payment was refused; the reason is in `refusal_reason`. A
    /// final state.
    Refused { refusal_reason: RefusalReason, psp_reference: String },
}

/// The ghost image of a [`Response`].
pub enum ResponseV {
    AuthenticationFinished {},
    AuthenticationNotRequired {},
    Authorised {
        additional_data: Option<AdditionalDataV>,
        psp_reference: Seq<char>,
        merchant_reference: Seq<char>,
    },
    Cancelled { refusal_reason: Option<RefusalReason>, psp_reference: Seq<char> },
    ChallengeShopper { action: ActionV },
    Error { refusal_reason: RefusalReason, psp_reference: Seq<char> },
    IdentifyShopper { action: ActionV },
    PartiallyAuthorised {},
    Pending { action: ActionV },
    PresentToShopper {},
    Received {},
    RedirectShopper { action: ActionV },
    Refused { refusal_reason: RefusalReason, psp_reference: Seq<char> },
}

impl DeepView for Response {
    type V = ResponseV;

    open spec fn deep_view(&self) -> ResponseV {
        match self {
            Response::AuthenticationFinished {} => ResponseV::AuthenticationFinished {},
            Response::AuthenticationNotRequired {} => ResponseV::AuthenticationNotRequired {},
            Response::Authorised { additional_data, psp_reference, merchant_reference } => {
                ResponseV::Authorised {
                    additional_data: match additional_data {
                        Some(a) => Some(a.deep_view()),
                        None => None,
                    },
                    psp_reference: psp_reference@,
                    merchant_reference: merchant_reference@,
                }
            },
            Response::Cancelled { refusal_reason, psp_reference } => ResponseV::Cancelled {
                refusal_reason: *refusal_reason,
                psp_reference: psp_reference@,
            },
            Response::ChallengeShopper { action } => ResponseV::ChallengeShopper {
                action: action.deep_view(),
            },
            Response::Error { refusal_reason, psp_reference } => ResponseV::Error {
                refusal_reason: *refusal_reason,
                psp_reference: psp_reference@,
            },
            Response::IdentifyShopper { action } => ResponseV::IdentifyShopper {
                action: action.deep_view(),
            },
            Response::PartiallyAuthorised {} => ResponseV::PartiallyAuthorised {},
            Response::Pending { action } => ResponseV::Pending { action: action.deep_view() },
            Response::PresentToShopper {} => ResponseV::PresentToShopper {},
            Response::Received {} => ResponseV::Received {},
            Response::RedirectShopper { action } => ResponseV::RedirectShopper {
                action: action.deep_view(),
            },
            Response::Refused { refusal_reason, psp_reference } => ResponseV::Refused {
                refusal_reason: *refusal_reason,
                psp_reference: psp_reference@,
            },
        }
    }
}

/// Why a transaction was declined. Each reason corresponds to exactly one
/// numeric code in the processor's flat, gappy code table; the table, not
/// arithmetic on positions, is the unit of encoding and decoding.
#[derive(Clone, Copy, Debug, PartialEq, Eq, Structural)]
pub enum RefusalReason {
    /// The transaction was outright refused.
    Refused,
    /// The transaction needs a referral.
    Referral,
    /// An error occurred on the acquirer's end.
    AcquirerError,
    /// The card used is blocked and cannot be used for transactions.
    BlockedCard,
    /// The card has expired.
    ExpiredCard,
    /// The amount provided in the transaction does not match the expected amount.
    InvalidAmount,
    /// The card number provided is invalid.
    InvalidCardNumber,
    /// Could not contact the issuer to authorize the transaction.
    IssuerUnavailable,
    /// The type of transaction is not supported by the shopper's bank.
    NotSupported,
    /// 3-D Secure authentication was not performed or failed.
    ThreeDNotAuthenticated,
    /// Insufficient funds in the account to cover the transaction.
    NotEnoughBalance,
    /// Possible fraud detected by the acquirer.
    AcquirerFraud,
    /// The transaction was cancelled by the system.
    Cancelled,
    /// The transaction was cancelled by the shopper.
    ShopperCancelled,
    /// The PIN entered is invalid.
    InvalidPin,
    /// The PIN was entered incorrectly too many times.
    PinTriesExceeded,
    /// The PIN could not be validated.
    PinValidationNotPossible,
    /// The transaction was flagged as fraudulent due to risk checks.
    Fraud,
    /// The transaction was not submitted correctly for processing.
    NotSubmitted,
    /// The transaction was flagged as fraudulent after both pre and post
    /// authorization checks.
    FraudCancelled,
    /// The transaction is not permitted based on various conditions.
    TransactionNotPermitted,
    /// The Card Verification Code was declined.
    CvcDeclined,
    /// The card has restrictions or is invalid for the transaction context.
    RestrictedCard,
    /// The authorization for recurring transactions was revoked.
    RevocationOfAuth,
    /// A generic decline where the specific reason cannot be mapped accurately.
    DeclinedNonGeneric,
    /// The amount withdrawn exceeds the card's limit.
    WithdrawalAmountExceeded,
    /// The number of withdrawals exceeds the card's limit.
    WithdrawalCountExceeded,
    /// The issuer suspects fraud in the transaction.
    IssuerSuspectedFraud,
    /// Address verification failed.
    AvsDeclined,
    /// The card requires an online PIN for the transaction.
    CardRequiresOnlinePin,
    /// The card does not have a checking account linked.
    NoCheckingAccountAvailable,
    /// The card does not have a savings account linked.
    NoSavingsAccountAvailable,
    /// A mobile PIN is required for the transaction.
    MobilePinRequired,
    /// The shopper abandoned the transaction after a contactless payment
    /// attempt failed.
    ContactlessFallback,
    /// Authentication is required for the transaction.
    AuthenticationRequired,
    /// The RReq was not received from the directory server during the
    /// 3-D Secure flow.
    RReqNotReceived,
    /// The current application identifier is in the penalty box.
    CurrentAidInPenaltyBox,
    /// A card verification method such as PIN or signature is required.
    CvmRequiredRestartPayment,
    /// An error occurred during 3-D Secure authentication.
    ThreeDsAuthenticationError,
    /// Transaction blocked by the processor to prevent excessive retry fees.
    TransactionBlockedByAdyen,
}

impl RefusalReason {
    /// The numeric string code of this reason, as sent on the wire.
    pub open spec fn spec_encode(self) -> Seq<char> {
        match self {
            RefusalReason::Refused => "2"@,
            RefusalReason::Referral => "3"@,
            RefusalReason::AcquirerError => "4"@,
            RefusalReason::BlockedCard => "5"@,
            RefusalReason::ExpiredCard => "6"@,
            RefusalReason::InvalidAmount => "7"@,
            RefusalReason::InvalidCardNumber => "8"@,
            RefusalReason::IssuerUnavailable => "9"@,
            RefusalReason::NotSupported => "10"@,
            RefusalReason::ThreeDNotAuthenticated => "11"@,
            RefusalReason::NotEnoughBalance => "12"@,
            RefusalReason::AcquirerFraud => "14"@,
            RefusalReason::Cancelled => "15"@,
            RefusalReason::ShopperCancelled => "16"@,
            RefusalReason::InvalidPin => "17"@,
            RefusalReason::PinTriesExceeded => "18"@,
            RefusalReason::PinValidationNotPossible => "19"@,
            RefusalReason::Fraud => "20"@,
            RefusalReason::NotSubmitted => "21"@,
            RefusalReason::FraudCancelled => "22"@,
            RefusalReason::TransactionNotPermitted => "23"@,
            RefusalReason::CvcDeclined => "24"@,
            RefusalReason::RestrictedCard => "25"@,
            RefusalReason::RevocationOfAuth => "26"@,
            RefusalReason::DeclinedNonGeneric => "27"@,
            RefusalReason::WithdrawalAmountExceeded => "28"@,
            RefusalReason::WithdrawalCountExceeded => "29"@,
            RefusalReason::IssuerSuspectedFraud => "31"@,
            RefusalReason::AvsDeclined => "32"@,
            RefusalReason::CardRequiresOnlinePin => "33"@,
            RefusalReason::NoCheckingAccountAvailable => "34"@,
            RefusalReason::NoSavingsAccountAvailable => "35"@,
            RefusalReason::MobilePinRequired => "36"@,
            RefusalReason::ContactlessFallback => "37"@,
            RefusalReason::AuthenticationRequired => "38"@,
            RefusalReason::RReqNotReceived => "39"@,
            RefusalReason::CurrentAidInPenaltyBox => "40"@,
            RefusalReason::CvmRequiredRestartPayment => "41"@,
            RefusalReason::ThreeDsAuthenticationError => "42"@,
            RefusalReason::TransactionBlockedByAdyen => "46"@,
        }
    }

    /// The reason named by a numeric string code, if the code is in the
    /// table.
    pub open spec fn spec_decode(s: Seq<char>) -> Option<RefusalReason> {
        if s == "2"@ {
            Some(RefusalReason::Refused)
        } else if s == "3"@ {
            Some(RefusalReason::Referral)
        } else if s == "4"@ {
            Some(RefusalReason::AcquirerError)
        } else if s == "5"@ {
            Some(RefusalReason::BlockedCard)
        } else if s == "6"@ {
            Some(RefusalReason::ExpiredCard)
        } else if s == "7"@ {
            Some(RefusalReason::InvalidAmount)
        } else if s == "8"@ {
            Some(RefusalReason::InvalidCardNumber)
        } else if s == "9"@ {
            Some(RefusalReason::IssuerUnavailable)
        } else if s == "10"@ {
            Some(RefusalReason::NotSupported)
        } else if s == "11"@ {
            Some(RefusalReason::ThreeDNotAuthenticated)
        } else if s == "12"@ {
            Some(RefusalReason::NotEnoughBalance)
        } else if s == "14"@ {
            Some(RefusalReason::AcquirerFraud)
        } else if s == "15"@ {
            Some(RefusalReason::Cancelled)
        } else if s == "16"@ {
            Some(RefusalReason::ShopperCancelled)
        } else if s == "17"@ {
            Some(RefusalReason::InvalidPin)
        } else if s == "18"@ {
            Some(RefusalReason::PinTriesExceeded)
        } else if s == "19"@ {
            Some(RefusalReason::PinValidationNotPossible)
        } else if s == "20"@ {
            Some(RefusalReason::Fraud)
        } else if s == "21"@ {
            Some(RefusalReason::NotSubmitted)
        } else if s == "22"@ {
            Some(RefusalReason::FraudCancelled)
        } else if s == "23"@ {
            Some(RefusalReason::TransactionNotPermitted)
        } else if s == "24"@ {
            Some(RefusalReason::CvcDeclined)
        } else if s == "25"@ {
            Some(RefusalReason::RestrictedCard)
        } else if s == "26"@ {
            Some(RefusalReason::RevocationOfAuth)
        } else if s == "27"@ {
            Some(RefusalReason::DeclinedNonGeneric)
        } else if s == "28"@ {
            Some(RefusalReason::WithdrawalAmountExceeded)
        } else if s == "29"@ {
            Some(RefusalReason::WithdrawalCountExceeded)
        } else if s == "31"@ {
            Some(RefusalReason::IssuerSuspectedFraud)
        } else if s == "32"@ {
            Some(RefusalReason::AvsDeclined)
        } else if s == "33"@ {
            Some(RefusalReason::CardRequiresOnlinePin)
        } else if s == "34"@ {
            Some(RefusalReason::NoCheckingAccountAvailable)
        } else if s == "35"@ {
            Some(RefusalReason::NoSavingsAccountAvailable)
        } else if s == "36"@ {
            Some(RefusalReason::MobilePinRequired)
        } else if s == "37"@ {
            Some(RefusalReason::ContactlessFallback)
        } else if s == "38"@ {
            Some(RefusalReason::AuthenticationRequired)
        } else if s == "39"@ {
            Some(RefusalReason::RReqNotReceived)
        } else if s == "40"@ {
            Some(RefusalReason::CurrentAidInPenaltyBox)
        } else if s == "41"@ {
            Some(RefusalReason::CvmRequiredRestartPayment)
        } else if s == "42"@ {
            Some(RefusalReason::ThreeDsAuthenticationError)
        } else if s == "46"@ {
            Some(RefusalReason::TransactionBlockedByAdyen)
        } else {
            None
        }
    }

    /// Encode this reason as its wire code. Total: every reason has a
    /// code.
    pub fn encode(&self) -> (r: &'static str)
        ensures
            r@ == self.spec_encode(),
    {
        match self {
            RefusalReason::Refused => "2",
            RefusalReason::Referral => "3",
            RefusalReason::AcquirerError => "4",
            RefusalReason::BlockedCard => "5",
            RefusalReason::ExpiredCard => "6",
            RefusalReason::InvalidAmount => "7",
            RefusalReason::InvalidCardNumber => "8",
            RefusalReason::IssuerUnavailable => "9",
            RefusalReason::NotSupported => "10",
            RefusalReason::ThreeDNotAuthenticated => "11",
            RefusalReason::NotEnoughBalance => "12",
            RefusalReason::AcquirerFraud => "14",
            RefusalReason::Cancelled => "15",
            RefusalReason::ShopperCancelled => "16",
            RefusalReason::InvalidPin => "17",
            RefusalReason::PinTriesExceeded => "18",
            RefusalReason::PinValidationNotPossible => "19",
            RefusalReason::Fraud => "20",
            RefusalReason::NotSubmitted => "21",
            RefusalReason::FraudCancelled => "22",
            RefusalReason::TransactionNotPermitted => "23",
            RefusalReason::CvcDeclined => "24",
            RefusalReason::RestrictedCard => "25",
            RefusalReason::RevocationOfAuth => "26",
            RefusalReason::DeclinedNonGeneric => "27",
            RefusalReason::WithdrawalAmountExceeded => "28",
            RefusalReason::WithdrawalCountExceeded => "29",
            RefusalReason::IssuerSuspectedFraud => "31",
            RefusalReason::AvsDeclined => "32",
            RefusalReason::CardRequiresOnlinePin => "33",
            RefusalReason::NoCheckingAccountAvailable => "34",
            RefusalReason::NoSavingsAccountAvailable => "35",
            RefusalReason::MobilePinRequired => "36",
            RefusalReason::ContactlessFallback => "37",
            RefusalReason::AuthenticationRequired => "38",
            RefusalReason::RReqNotReceived => "39",
            RefusalReason::CurrentAidInPenaltyBox => "40",
            RefusalReason::CvmRequiredRestartPayment => "41",
            RefusalReason::ThreeDsAuthenticationError => "42",
            RefusalReason::TransactionBlockedByAdyen => "46",
        }
    }

    /// Decode a wire code into its reason. A code outside the table is
    /// an `UnknownCode` error carrying the offending code: the table is
    /// owned by the processor and may grow, so an unknown code must stay
    /// recognizable and must never be guessed at.
    pub fn decode(code: &str) -> (r: Result<RefusalReason, DecodeError>)
        ensures
            match r {
                Ok(reason) => Self::spec_decode(code@) == Some(reason),
                Err(e) => Self::spec_decode(code@) is None && e.deep_view()
                    == DecodeErrorV::UnknownCode(code@),
            },
    {
        let c = String::from_str(code);
        if c.eq(&String::from_str("2")) {
            Ok(RefusalReason::Refused)
        } else if c.eq(&String::from_str("3")) {
            Ok(RefusalReason::Referral)
        } else if c.eq(&String::from_str("4")) {
            Ok(RefusalReason::AcquirerError)
        } else if c.eq(&String::from_str("5")) {
            Ok(RefusalReason::BlockedCard)
        } else if c.eq(&String::from_str("6")) {
            Ok(RefusalReason::ExpiredCard)
        } else if c.eq(&String::from_str("7")) {
            Ok(RefusalReason::InvalidAmount)
        } else if c.eq(&String::from_str("8")) {
            Ok(RefusalReason::InvalidCardNumber)
        } else if c.eq(&String::from_str("9")) {
            Ok(RefusalReason::IssuerUnavailable)
        } else if c.eq(&String::from_str("10")) {
            Ok(RefusalReason::NotSupported)
        } else if c.eq(&String::from_str("11")) {
            Ok(RefusalReason::ThreeDNotAuthenticated)
        } else if c.eq(&String::from_str("12")) {
            Ok(RefusalReason::NotEnoughBalance)
        } else if c.eq(&String::from_str("14")) {
            Ok(RefusalReason::AcquirerFraud)
        } else if c.eq(&String::from_str("15")) {
            Ok(RefusalReason::Cancelled)
        } else if c.eq(&String::from_str("16")) {
            Ok(RefusalReason::ShopperCancelled)
        } else if c.eq(&String::from_str("17")) {
            Ok(RefusalReason::InvalidPin)
        } else if c.eq(&String::from_str("18")) {
            Ok(RefusalReason::PinTriesExceeded)
        } else if c.eq(&String::from_str("19")) {
            Ok(RefusalReason::PinValidationNotPossible)
        } else if c.eq(&String::from_str("20")) {
            Ok(RefusalReason::Fraud)
        } else if c.eq(&String::from_str("21")) {
            Ok(RefusalReason::NotSubmitted)
        } else if c.eq(&String::from_str("22")) {
            Ok(RefusalReason::FraudCancelled)
        } else if c.eq(&String::from_str("23")) {
            Ok(RefusalReason::TransactionNotPermitted)
        } else if c.eq(&String::from_str("24")) {
            Ok(RefusalReason::CvcDeclined)
        } else if c.eq(&String::from_str("25")) {
            Ok(RefusalReason::RestrictedCard)
        } else if c.eq(&String::from_str("26")) {
            Ok(RefusalReason::RevocationOfAuth)
        } else if c.eq(&String::from_str("27")) {
            Ok(RefusalReason::DeclinedNonGeneric)
        } else if c.eq(&String::from_str("28")) {
            Ok(RefusalReason::WithdrawalAmountExceeded)
        } else if c.eq(&String::from_str("29")) {
            Ok(RefusalReason::WithdrawalCountExceeded)
        } else if c.eq(&String::from_str("31")) {
            Ok(RefusalReason::IssuerSuspectedFraud)
        } else if c.eq(&String::from_str("32")) {
            Ok(RefusalReason::AvsDeclined)
        } else if c.eq(&String::from_str("33")) {
            Ok(RefusalReason::CardRequiresOnlinePin)
        } else if c.eq(&String::from_str("34")) {
            Ok(RefusalReason::NoCheckingAccountAvailable)
        } else if c.eq(&String::from_str("35")) {
            Ok(RefusalReason::NoSavingsAccountAvailable)
        } else if c.eq(&String::from_str("36")) {
            Ok(RefusalReason::MobilePinRequired)
        } else if c.eq(&String::from_str("37")) {
            Ok(RefusalReason::ContactlessFallback)
        } else if c.eq(&String::from_str("38")) {
            Ok(RefusalReason::AuthenticationRequired)
        } else if c.eq(&String::from_str("39")) {
            Ok(RefusalReason::RReqNotReceived)
        } else if c.eq(&String::from_str("40")) {
            Ok(RefusalReason::CurrentAidInPenaltyBox)
        } else if c.eq(&String::from_str("41")) {
            Ok(RefusalReason::CvmRequiredRestartPayment)
        } else if c.eq(&String::from_str("42")) {
            Ok(RefusalReason::ThreeDsAuthenticationError)
        } else if c.eq(&String::from_str("46")) {
            Ok(RefusalReason::TransactionBlockedByAdyen)
        } else {
            Err(DecodeError::UnknownCode(c))
        }
    }
}

/// Decoding a reason's own code gives back that reason: the code table is
/// a bijection between the defined reasons and their codes.
pub proof fn lemma_refusal_reason_round_trip(r: RefusalReason)
    ensures
        RefusalReason::spec_decode(r.spec_encode()) == Some(r),
{
    reveal_strlit("2");
    reveal_strlit("3");
    reveal_strlit("4");
    reveal_strlit("5");
    reveal_strlit("6");
    reveal_strlit("7");
    reveal_strlit("8");
    reveal_strlit("9");
    reveal_strlit("10");
    reveal_strlit("11");
    reveal_strlit("12");
    reveal_strlit("14");
    reveal_strlit("15");
    reveal_strlit("16");
    reveal_strlit("17");
    reveal_strlit("18");
    reveal_strlit("19");
    reveal_strlit("20");
    reveal_strlit("21");
    reveal_strlit("22");
    reveal_strlit("23");
    reveal_strlit("24");
    reveal_strlit("25");
    reveal_strlit("26");
    reveal_strlit("27");
    reveal_strlit("28");
    reveal_strlit("29");
    reveal_strlit("31");
    reveal_strlit("32");
    reveal_strlit("33");
    reveal_strlit("34");
    reveal_strlit("35");
    reveal_strlit("36");
    reveal_strlit("37");
    reveal_strlit("38");
    reveal_strlit("39");
    reveal_strlit("40");
    reveal_strlit("41");
    reveal_strlit("42");
    reveal_strlit("46");
    assert("2"@.len() == 1 && "2"@.index(0) == '2');
    assert("3"@.len() == 1 && "3"@.index(0) == '3');
    assert("4"@.len() == 1 && "4"@.index(0) == '4');
    assert("5"@.len() == 1 && "5"@.index(0) == '5');
    assert("6"@.len() == 1 && "6"@.index(0) == '6');
    assert("7"@.len() == 1 && "7"@.index(0) == '7');
    assert("8"@.len() == 1 && "8"@.index(0) == '8');
    assert("9"@.len() == 1 && "9"@.index(0) == '9');
    assert("10"@.len() == 2 && "10"@.index(0) == '1' && "10"@.index(1) == '0');
    assert("11"@.len() == 2 && "11"@.index(0) == '1' && "11"@.index(1) == '1');
    assert("12"@.len() == 2 && "12"@.index(0) == '1' && "12"@.index(1) == '2');
    assert("14"@.len() == 2 && "14"@.index(0) == '1' && "14"@.index(1) == '4');
    assert("15"@.len() == 2 && "15"@.index(0) == '1' && "15"@.index(1) == '5');
    assert("16"@.len() == 2 && "16"@.index(0) == '1' && "16"@.index(1) == '6');
    assert("17"@.len() == 2 && "17"@.index(0) == '1' && "17"@.index(1) == '7');
    assert("18"@.len() == 2 && "18"@.index(0) == '1' && "18"@.index(1) == '8');
    assert("19"@.len() == 2 && "19"@.index(0) == '1' && "19"@.index(1) == '9');
    assert("20"@.len() == 2 && "20"@.index(0) == '2' && "20"@.index(1) == '0');
    assert("21"@.len() == 2 && "21"@.index(0) == '2' && "21"@.index(1) == '1');
    assert("22"@.len() == 2 && "22"@.index(0) == '2' && "22"@.index(1) == '2');
    assert("23"@.len() == 2 && "23"@.index(0) == '2' && "23"@.index(1) == '3');
    assert("24"@.len() == 2 && "24"@.index(0) == '2' && "24"@.index(1) == '4');
    assert("25"@.len() == 2 && "25"@.index(0) == '2' && "25"@.index(1) == '5');
    assert("26"@.len() == 2 && "26"@.index(0) == '2' && "26"@.index(1) == '6');
    assert("27"@.len() == 2 && "27"@.index(0) == '2' && "27"@.index(1) == '7');
    assert("28"@.len() == 2 && "28"@.index(0) == '2' && "28"@.index(1) == '8');
    assert("29"@.len() == 2 && "29"@.index(0) == '2' && "29"@.index(1) == '9');
    assert("31"@.len() == 2 && "31"@.index(0) == '3' && "31"@.index(1) == '1');
    assert("32"@.len() == 2 && "32"@.index(0) == '3' && "32"@.index(1) == '2');
    assert("33"@.len() == 2 && "33"@.index(0) == '3' && "33"@.index(1) == '3');
    assert("34"@.len() == 2 && "34"@.index(0) == '3' && "34"@.index(1) == '4');
    assert("35"@.len() == 2 && "35"@.index(0) == '3' && "35"@.index(1) == '5');
    assert("36"@.len() == 2 && "36"@.index(0) == '3' && "36"@.index(1) == '6');
    assert("37"@.len() == 2 && "37"@.index(0) == '3' && "37"@.index(1) == '7');
    assert("38"@.len() == 2 && "38"@.index(0) == '3' && "38"@.index(1) == '8');
    assert("39"@.len() == 2 && "39"@.index(0) == '3' && "39"@.index(1) == '9');
    assert("40"@.len() == 2 && "40"@.index(0) == '4' && "40"@.index(1) == '0');
    assert("41"@.len() == 2 && "41"@.index(0) == '4' && "41"@.index(1) == '1');
    assert("42"@.len() == 2 && "42"@.index(0) == '4' && "42"@.index(1) == '2');
    assert("46"@.len() == 2 && "46"@.index(0) == '4' && "46"@.index(1) == '6');
    match r {
        RefusalReason::Refused => {
            assert(RefusalReason::spec_decode("2"@) == Some(RefusalReason::Refused));
        },
        RefusalReason::Referral => {
            assert(RefusalReason::spec_decode("3"@) == Some(RefusalReason::Referral));
        },
        RefusalReason::AcquirerError => {
            assert(RefusalReason::spec_decode("4"@) == Some(RefusalReason::AcquirerError));
        },
        RefusalReason::BlockedCard => {
            assert(RefusalReason::spec_decode("5"@) == Some(RefusalReason::BlockedCard));
        },
        RefusalReason::ExpiredCard => {
            assert(RefusalReason::spec_decode("6"@) == Some(RefusalReason::ExpiredCard));
        },
        RefusalReason::InvalidAmount => {
            assert(RefusalReason::spec_decode("7"@) == Some(RefusalReason::InvalidAmount));
        },
        RefusalReason::InvalidCardNumber => {
            assert(RefusalReason::spec_decode("8"@) == Some(RefusalReason::InvalidCardNumber));
        },
        RefusalReason::IssuerUnavailable => {
            assert(RefusalReason::spec_decode("9"@) == Some(RefusalReason::IssuerUnavailable));
        },
        RefusalReason::NotSupported => {
            assert(RefusalReason::spec_decode("10"@) == Some(RefusalReason::NotSupported));
        },
        RefusalReason::ThreeDNotAuthenticated => {
            assert(RefusalReason::spec_decode("11"@) == Some(RefusalReason::ThreeDNotAuthenticated));
        },
        RefusalReason::NotEnoughBalance => {
            assert(RefusalReason::spec_decode("12"@) == Some(RefusalReason::NotEnoughBalance));
        },
        RefusalReason::AcquirerFraud => {
            assert(RefusalReason::spec_decode("14"@) == Some(RefusalReason::AcquirerFraud));
        },
        RefusalReason::Cancelled => {
            assert(RefusalReason::spec_decode("15"@) == Some(RefusalReason::Cancelled));
        },
        RefusalReason::ShopperCancelled => {
            assert(RefusalReason::spec_decode("16"@) == Some(RefusalReason::ShopperCancelled));
        },
        RefusalReason::InvalidPin => {
            assert(RefusalReason::spec_decode("17"@) == Some(RefusalReason::InvalidPin));
        },
        RefusalReason::PinTriesExceeded => {
            assert(RefusalReason::spec_decode("18"@) == Some(RefusalReason::PinTriesExceeded));
        },
        RefusalReason::PinValidationNotPossible => {
            assert(RefusalReason::spec_decode("19"@) == Some(RefusalReason::PinValidationNotPossible));
        },
        RefusalReason::Fraud => {
            assert(RefusalReason::spec_decode("20"@) == Some(RefusalReason::Fraud));
        },
        RefusalReason::NotSubmitted => {
            assert(RefusalReason::spec_decode("21"@) == Some(RefusalReason::NotSubmitted));
        },
        RefusalReason::FraudCancelled => {
            assert(RefusalReason::spec_decode("22"@) == Some(RefusalReason::FraudCancelled));
        },
        RefusalReason::TransactionNotPermitted => {
            assert(RefusalReason::spec_decode("23"@) == Some(RefusalReason::TransactionNotPermitted));
        },
        RefusalReason::CvcDeclined => {
            assert(RefusalReason::spec_decode("24"@) == Some(RefusalReason::CvcDeclined));
        },
        RefusalReason::RestrictedCard => {
            assert(RefusalReason::spec_decode("25"@) == Some(RefusalReason::RestrictedCard));
        },
        RefusalReason::RevocationOfAuth => {
            assert(RefusalReason::spec_decode("26"@) == Some(RefusalReason::RevocationOfAuth));
        },
        RefusalReason::DeclinedNonGeneric => {
            assert(RefusalReason::spec_decode("27"@) == Some(RefusalReason::DeclinedNonGeneric));
        },
        RefusalReason::WithdrawalAmountExceeded => {
            assert(RefusalReason::spec_decode("28"@) == Some(RefusalReason::WithdrawalAmountExceeded));
        },
        RefusalReason::WithdrawalCountExceeded => {
            assert(RefusalReason::spec_decode("29"@) == Some(RefusalReason::WithdrawalCountExceeded));
        },
        RefusalReason::IssuerSuspectedFraud => {
            assert(RefusalReason::spec_decode("31"@) == Some(RefusalReason::IssuerSuspectedFraud));
        },
        RefusalReason::AvsDeclined => {
            assert(RefusalReason::spec_decode("32"@) == Some(RefusalReason::AvsDeclined));
        },
        RefusalReason::CardRequiresOnlinePin => {
            assert(RefusalReason::spec_decode("33"@) == Some(RefusalReason::CardRequiresOnlinePin));
        },
        RefusalReason::NoCheckingAccountAvailable => {
            assert(RefusalReason::spec_decode("34"@) == Some(RefusalReason::NoCheckingAccountAvailable));
        },
        RefusalReason::NoSavingsAccountAvailable => {
            assert(RefusalReason::spec_decode("35"@) == Some(RefusalReason::NoSavingsAccountAvailable));
        },
        RefusalReason::MobilePinRequired => {
            assert(RefusalReason::spec_decode("36"@) == Some(RefusalReason::MobilePinRequired));
        },
        RefusalReason::ContactlessFallback => {
            assert(RefusalReason::spec_decode("37"@) == Some(RefusalReason::ContactlessFallback));
        },
        RefusalReason::AuthenticationRequired => {
            assert(RefusalReason::spec_decode("38"@) == Some(RefusalReason::AuthenticationRequired));
        },
        RefusalReason::RReqNotReceived => {
            assert(RefusalReason::spec_decode("39"@) == Some(RefusalReason::RReqNotReceived));
        },
        RefusalReason::CurrentAidInPenaltyBox => {
            assert(RefusalReason::spec_decode("40"@) == Some(RefusalReason::CurrentAidInPenaltyBox));
        },
        RefusalReason::CvmRequiredRestartPayment => {
            assert(RefusalReason::spec_decode("41"@) == Some(RefusalReason::CvmRequiredRestartPayment));
        },
        RefusalReason::ThreeDsAuthenticationError => {
            assert(RefusalReason::spec_decode("42"@) == Some(RefusalReason::ThreeDsAuthenticationError));
        },
        RefusalReason::TransactionBlockedByAdyen => {
            assert(RefusalReason::spec_decode("46"@) == Some(RefusalReason::TransactionBlockedByAdyen));
        },
    }
}


impl AdditionalData {
    /// The card details an `additionalData` object denotes: holder name,
    /// issuer country, card summary, expiry date and payment method all
    /// required, the recurring-detail reference kept only when present.
    pub open spec fn spec_decode(j: JsonV) -> Result<AdditionalDataV, DecodeErrorV> {
        match j {
            JsonV::Obj(fields) => match spec_obj_get(fields, "cardHolderName"@) {
                Some(JsonV::Str(card_holder_name)) => match spec_obj_get(fields, "issuerCountry"@) {
                    Some(JsonV::Str(issuer_country)) => match spec_obj_get(fields, "cardSummary"@) {
                        Some(JsonV::Str(card_summary)) => match spec_obj_get(fields, "expiryDate"@) {
                            Some(JsonV::Str(expiry_date)) => match spec_obj_get(fields, "paymentMethod"@) {
                                Some(JsonV::Str(payment_method)) => match spec_obj_get(fields, "recurring.recurringDetailReference"@) {
                                    Some(JsonV::Str(r)) => Ok(AdditionalDataV {
                                        card_holder_name,
                                        issuer_country,
                                        card_summary,
                                        expiry_date,
                                        payment_method,
                                        recurring_detail_reference: Some(r),
                                    }),
                                    Some(_) => Err(DecodeErrorV::MalformedField),
                                    None => Ok(AdditionalDataV {
                                        card_holder_name,
                                        issuer_country,
                                        card_summary,
                                        expiry_date,
                                        payment_method,
                                        recurring_detail_reference: None,
                                    }),
                                },
                                Some(_) => Err(DecodeErrorV::MalformedField),
                                None => Err(DecodeErrorV::MalformedField),
                            },
                            Some(_) => Err(DecodeErrorV::MalformedField),
                            None => Err(DecodeErrorV::MalformedField),
                        },
                        Some(_) => Err(DecodeErrorV::MalformedField),
                        None => Err(DecodeErrorV::MalformedField),
                    },
                    Some(_) => Err(DecodeErrorV::MalformedField),
                    None => Err(DecodeErrorV::MalformedField),
                },
                Some(_) => Err(DecodeErrorV::MalformedField),
                None => Err(DecodeErrorV::MalformedField),
            },
            _ => Err(DecodeErrorV::MalformedField),
        }
    }

    /// Decode an `additionalData` object.
    pub fn decode_json(j: &Json) -> (r: Result<AdditionalData, DecodeError>)
        ensures
            match r {
                Ok(a) => Self::spec_decode(j.deep_view()) == Ok::<_, DecodeErrorV>(a.deep_view()),
                Err(e) => Self::spec_decode(j.deep_view()) == Err::<AdditionalDataV, _>(e.deep_view()),
            },
    {
        match j {
            Json::Obj(fields) => match obj_get(fields, "cardHolderName") {
                Some(Json::Str(card_holder_name)) => match obj_get(fields, "issuerCountry") {
                    Some(Json::Str(issuer_country)) => match obj_get(fields, "cardSummary") {
                        Some(Json::Str(card_summary)) => match obj_get(fields, "expiryDate") {
                            Some(Json::Str(expiry_date)) => match obj_get(fields, "paymentMethod") {
                                Some(Json::Str(payment_method)) => match obj_get(fields, "recurring.recurringDetailReference") {
                                    Some(Json::Str(r)) => Ok(AdditionalData {
                                        card_holder_name: card_holder_name.clone(),
                                        issuer_country: issuer_country.clone(),
                                        card_summary: card_summary.clone(),
                                        expiry_date: expiry_date.clone(),
                                        payment_method: payment_method.clone(),
                                        recurring_detail_reference: Some(r.clone()),
                                    }),
                                    Some(_) => Err(DecodeError::MalformedField),
                                    None => Ok(AdditionalData {
                                        card_holder_name: card_holder_name.clone(),
                                        issuer_country: issuer_country.clone(),
                                        card_summary: card_summary.clone(),
                                        expiry_date: expiry_date.clone(),
                                        payment_method: payment_method.clone(),
                                        recurring_detail_reference: None,
                                    }),
                                },
                                Some(_) => Err(DecodeError::MalformedField),
                                None => Err(DecodeError::MalformedField),
                            },
                            Some(_) => Err(DecodeError::MalformedField),
                            None => Err(DecodeError::MalformedField),
                        },
                        Some(_) => Err(DecodeError::MalformedField),
                        None => Err(DecodeError::MalformedField),
                    },
                    Some(_) => Err(DecodeError::MalformedField),
                    None => Err(DecodeError::MalformedField),
                },
                Some(_) => Err(DecodeError::MalformedField),
                None => Err(DecodeError::MalformedField),
            },
            _ => Err(DecodeError::MalformedField),
        }
    }
}

impl Response {
    /// The action object required by an intermediate result: the `action`
    /// member, decoded as a shopper interaction.
    pub open spec fn spec_action_of(fields: Seq<(Seq<char>, JsonV)>) -> Result<ActionV, DecodeErrorV> {
        match spec_obj_get(fields, "action"@) {
            Some(a) => Action::spec_decode(a),
            None => Err(DecodeErrorV::MalformedField),
        }
    }

    /// The reference and reason of a final failure: `pspReference`
    /// required, `refusalReasonCode` required and inside the code table.
    pub open spec fn spec_refusal_of(fields: Seq<(Seq<char>, JsonV)>) -> Result<(RefusalReason, Seq<char>), DecodeErrorV> {
        match spec_obj_get(fields, "pspReference"@) {
            Some(JsonV::Str(psp_reference)) => match spec_obj_get(fields, "refusalReasonCode"@) {
                Some(JsonV::Str(code)) => match RefusalReason::spec_decode(code) {
                    Some(reason) => Ok((reason, psp_reference)),
                    None => Err(DecodeErrorV::UnknownCode(code)),
                },
                Some(_) => Err(DecodeErrorV::MalformedField),
                None => Err(DecodeErrorV::MalformedField),
            },
            Some(_) => Err(DecodeErrorV::MalformedField),
            None => Err(DecodeErrorV::MalformedField),
        }
    }

    /// The outcome an `Authorised` payload denotes.
    pub open spec fn spec_authorised_of(fields: Seq<(Seq<char>, JsonV)>) -> Result<ResponseV, DecodeErrorV> {
        match spec_obj_get(fields, "pspReference"@) {
            Some(JsonV::Str(psp_reference)) => match spec_obj_get(fields, "merchantReference"@) {
                Some(JsonV::Str(merchant_reference)) => match spec_obj_get(fields, "additionalData"@) {
                    Some(a) => match AdditionalData::spec_decode(a) {
                        Ok(ad) => Ok(ResponseV::Authorised {
                            additional_data: Some(ad),
                            psp_reference,
                            merchant_reference,
                        }),
                        Err(e) => Err(e),
                    },
                    None => Ok(ResponseV::Authorised {
                        additional_data: None,
                        psp_reference,
                        merchant_reference,
                    }),
                },
                Some(_) => Err(DecodeErrorV::MalformedField),
                None => Err(DecodeErrorV::MalformedField),
            },
            Some(_) => Err(DecodeErrorV::MalformedField),
            None => Err(DecodeErrorV::MalformedField),
        }
    }

    /// The outcome a `Cancelled` payload denotes: `pspReference`
    /// required, the refusal reason kept only when present.
    pub open spec fn spec_cancelled_of(fields: Seq<(Seq<char>, JsonV)>) -> Result<ResponseV, DecodeErrorV> {
        match spec_obj_get(fields, "pspReference"@) {
            Some(JsonV::Str(psp_reference)) => match spec_obj_get(fields, "refusalReasonCode"@) {
                Some(JsonV::Str(code)) => match RefusalReason::spec_decode(code) {
                    Some(reason) => Ok(ResponseV::Cancelled {
                        refusal_reason: Some(reason),
                        psp_reference,
                    }),
                    None => Err(DecodeErrorV::UnknownCode(code)),
                },
                Some(_) => Err(DecodeErrorV::MalformedField),
                None => Ok(ResponseV::Cancelled { refusal_reason: None, psp_reference }),
            },
            Some(_) => Err(DecodeErrorV::MalformedField),
            None => Err(DecodeErrorV::MalformedField),
        }
    }

    /// The outcome a response document denotes, discriminated by its
    /// `resultCode`: one of the thirteen known result codes, with the
    /// fields of the matched variant and no others decoded. A result
    /// code outside the closed set is an `UnknownVariant`, never a
    /// fallback variant.
    pub open spec fn spec_decode(j: JsonV) -> Result<ResponseV, DecodeErrorV> {
        match j {
            JsonV::Obj(fields) => match spec_obj_get(fields, "resultCode"@) {
                Some(JsonV::Str(tag)) => if tag == "AuthenticationFinished"@ {
                    Ok(ResponseV::AuthenticationFinished {})
                } else if tag == "AuthenticationNotRequired"@ {
                    Ok(ResponseV::AuthenticationNotRequired {})
                } else if tag == "Authorised"@ {
                    Self::spec_authorised_of(fields)
                } else if tag == "Cancelled"@ {
                    Self::spec_cancelled_of(fields)
                } else if tag == "ChallengeShopper"@ {
                    match Self::spec_action_of(fields) {
                        Ok(action) => Ok(ResponseV::ChallengeShopper { action }),
                        Err(e) => Err(e),
                    }
                } else if tag == "Error"@ {
                    match Self::spec_refusal_of(fields) {
                        Ok((refusal_reason, psp_reference)) => Ok(ResponseV::Error { refusal_reason, psp_reference }),
                        Err(e) => Err(e),
                    }
                } else if tag == "IdentifyShopper"@ {
                    match Self::spec_action_of(fields) {
                        Ok(action) => Ok(ResponseV::IdentifyShopper { action }),
                        Err(e) => Err(e),
                    }
                } else if tag == "PartiallyAuthorised"@ {
                    Ok(ResponseV::PartiallyAuthorised {})
                } else if tag == "Pending"@ {
                    match Self::spec_action_of(fields) {
                        Ok(action) => Ok(ResponseV::Pending { action }),
                        Err(e) => Err(e),
                    }
                } else if tag == "PresentToShopper"@ {
                    Ok(ResponseV::PresentToShopper {})
                } else if tag == "Received"@ {
                    Ok(ResponseV::Received {})
                } else if tag == "RedirectShopper"@ {
                    match Self::spec_action_of(fields) {
                        Ok(action) => Ok(ResponseV::RedirectShopper { action }),
                        Err(e) => Err(e),
                    }
                } else if tag == "Refused"@ {
                    match Self::spec_refusal_of(fields) {
                        Ok((refusal_reason, psp_reference)) => Ok(ResponseV::Refused { refusal_reason, psp_reference }),
                        Err(e) => Err(e),
                    }
                } else {
                    Err(DecodeErrorV::UnknownVariant(tag))
                },
                Some(_) => Err(DecodeErrorV::MalformedField),
                None => Err(DecodeErrorV::MalformedField),
            },
            _ => Err(DecodeErrorV::MalformedField),
        }
    }

    /// The outcome a response text denotes: text that is not a document
    /// of the accepted grammar is a `Syntax` error; a document is
    /// decoded by `resultCode`.
    pub open spec fn spec_decode_text(s: Seq<char>) -> Result<ResponseV, DecodeErrorV> {
        match spec_parse_json(s) {
            Some(j) => Self::spec_decode(j),
            None => Err(DecodeErrorV::Syntax),
        }
    }

    fn action_of(fields: &Vec<(String, Json)>) -> (r: Result<Action, DecodeError>)
        ensures
            match r {
                Ok(a) => Self::spec_action_of(crate::json::obj_view(fields@)) == Ok::<_, DecodeErrorV>(a.deep_view()),
                Err(e) => Self::spec_action_of(crate::json::obj_view(fields@)) == Err::<ActionV, _>(e.deep_view()),
            },
    {
        match obj_get(fields, "action") {
            Some(a) => Action::decode_json(a),
            None => Err(DecodeError::MalformedField),
        }
    }

    fn refusal_of(fields: &Vec<(String, Json)>) -> (r: Result<(RefusalReason, String), DecodeError>)
        ensures
            match r {
                Ok(p) => Self::spec_refusal_of(crate::json::obj_view(fields@)) == Ok::<_, DecodeErrorV>((p.0, p.1@)),
                Err(e) => Self::spec_refusal_of(crate::json::obj_view(fields@)) == Err::<(RefusalReason, Seq<char>), _>(e.deep_view()),
            },
    {
        match obj_get(fields, "pspReference") {
            Some(Json::Str(psp_reference)) => match obj_get(fields, "refusalReasonCode") {
                Some(Json::Str(code)) => match RefusalReason::decode(code.as_str()) {
                    Ok(reason) => Ok((reason, psp_reference.clone())),
                    Err(e) => Err(e),
                },
                Some(_) => Err(DecodeError::MalformedField),
                None => Err(DecodeError::MalformedField),
            },
            Some(_) => Err(DecodeError::MalformedField),
            None => Err(DecodeError::MalformedField),
        }
    }

    fn authorised_of(fields: &Vec<(String, Json)>) -> (r: Result<Response, DecodeError>)
        ensures
            match r {
                Ok(resp) => Self::spec_authorised_of(crate::json::obj_view(fields@)) == Ok::<_, DecodeErrorV>(resp.deep_view()),
                Err(e) => Self::spec_authorised_of(crate::json::obj_view(fields@)) == Err::<ResponseV, _>(e.deep_view()),
            },
    {
        match obj_get(fields, "pspReference") {
            Some(Json::Str(psp_reference)) => match obj_get(fields, "merchantReference") {
                Some(Json::Str(merchant_reference)) => match obj_get(fields, "additionalData") {
                    Some(a) => match AdditionalData::decode_json(a) {
                        Ok(ad) => Ok(Response::Authorised {
                            additional_data: Some(ad),
                            psp_reference: psp_reference.clone(),
                            merchant_reference: merchant_reference.clone(),
                        }),
                        Err(e) => Err(e),
                    },
                    None => Ok(Response::Authorised {
                        additional_data: None,
                        psp_reference: psp_reference.clone(),
                        merchant_reference: merchant_reference.clone(),
                    }),
                },
                Some(_) => Err(DecodeError::MalformedField),
                None => Err(DecodeError::MalformedField),
            },
            Some(_) => Err(DecodeError::MalformedField),
            None => Err(DecodeError::MalformedField),
        }
    }

    fn cancelled_of(fields: &Vec<(String, Json)>) -> (r: Result<Response, DecodeError>)
        ensures
            match r {
                Ok(resp) => Self::spec_cancelled_of(crate::json::obj_view(fields@)) == Ok::<_, DecodeErrorV>(resp.deep_view()),
                Err(e) => Self::spec_cancelled_of(crate::json::obj_view(fields@)) == Err::<ResponseV, _>(e.deep_view()),
            },
    {
        match obj_get(fields, "pspReference") {
            Some(Json::Str(psp_reference)) => match obj_get(fields, "refusalReasonCode") {
                Some(Json::Str(code)) => match RefusalReason::decode(code.as_str()) {
                    Ok(reason) => Ok(Response::Cancelled {
                        refusal_reason: Some(reason),
                        psp_reference: psp_reference.clone(),
                    }),
                    Err(e) => Err(e),
                },
                Some(_) => Err(DecodeError::MalformedField),
                None => Ok(Response::Cancelled {
                    refusal_reason: None,
                    psp_reference: psp_reference.clone(),
                }),
            },
            Some(_) => Err(DecodeError::MalformedField),
            None => Err(DecodeError::MalformedField),
        }
    }

    /// Decode a response document by its `resultCode`.
    pub fn decode_json(j: &Json) -> (r: Result<Response, DecodeError>)
        ensures
            match r {
                Ok(resp) => Self::spec_decode(j.deep_view()) == Ok::<_, DecodeErrorV>(resp.deep_view()),
                Err(e) => Self::spec_decode(j.deep_view()) == Err::<ResponseV, _>(e.deep_view()),
            },
    {
        match j {
            Json::Obj(fields) => match obj_get(fields, "resultCode") {
                Some(Json::Str(tag)) => {
                    if tag.eq(&String::from_str("AuthenticationFinished")) {
                        Ok(Response::AuthenticationFinished {})
                    } else if tag.eq(&String::from_str("AuthenticationNotRequired")) {
                        Ok(Response::AuthenticationNotRequired {})
                    } else if tag.eq(&String::from_str("Authorised")) {
                        Self::authorised_of(fields)
                    } else if tag.eq(&String::from_str("Cancelled")) {
                        Self::cancelled_of(fields)
                    } else if tag.eq(&String::from_str("ChallengeShopper")) {
                        match Self::action_of(fields) {
                            Ok(action) => Ok(Response::ChallengeShopper { action }),
                            Err(e) => Err(e),
                        }
                    } else if tag.eq(&String::from_str("Error")) {
                        match Self::refusal_of(fields) {
                            Ok(p) => Ok(Response::Error { refusal_reason: p.0, psp_reference: p.1 }),
                            Err(e) => Err(e),
                        }
                    } else if tag.eq(&String::from_str("IdentifyShopper")) {
                        match Self::action_of(fields) {
                            Ok(action) => Ok(Response::IdentifyShopper { action }),
                            Err(e) => Err(e),
                        }
                    } else if tag.eq(&String::from_str("PartiallyAuthorised")) {
                        Ok(Response::PartiallyAuthorised {})
                    } else if tag.eq(&String::from_str("Pending")) {
                        match Self::action_of(fields) {
                            Ok(action) => Ok(Response::Pending { action }),
                            Err(e) => Err(e),
                        }
                    } else if tag.eq(&String::from_str("PresentToShopper")) {
                        Ok(Response::PresentToShopper {})
                    } else if tag.eq(&String::from_str("Received")) {
                        Ok(Response::Received {})
                    } else if tag.eq(&String::from_str("RedirectShopper")) {
                        match Self::action_of(fields) {
                            Ok(action) => Ok(Response::RedirectShopper { action }),
                            Err(e) => Err(e),
                        }
                    } else if tag.eq(&String::from_str("Refused")) {
                        match Self::refusal_of(fields) {
                            Ok(p) => Ok(Response::Refused { refusal_reason: p.0, psp_reference: p.1 }),
                            Err(e) => Err(e),
                        }
                    } else {
                        Err(DecodeError::UnknownVariant(tag.clone()))
                    }
                },
                Some(_) => Err(DecodeError::MalformedField),
                None => Err(DecodeError::MalformedField),
            },
            _ => Err(DecodeError::MalformedField),
        }
    }

    /// Decode a response text: parse it as a JSON document of the
    /// accepted grammar, then decode the document by its `resultCode`.
    pub fn decode(text: &str) -> (r: Result<Response, DecodeError>)
        ensures
            match r {
                Ok(resp) => Self::spec_decode_text(text@) == Ok::<_, DecodeErrorV>(resp.deep_view()),
                Err(e) => Self::spec_decode_text(text@) == Err::<ResponseV, _>(e.deep_view()),
            },
    {
        match parse_json(text) {
            Some(j) => Self::decode_json(&j),
            None => Err(DecodeError::Syntax),
        }
    }
}

/// Two different reasons never share a code: the decoding direction of
/// the table tells every pair of defined reasons apart.
pub proof fn lemma_refusal_codes_distinct(a: RefusalReason, b: RefusalReason)
    requires
        a != b,
    ensures
        a.spec_encode() != b.spec_encode(),
{
    lemma_refusal_reason_round_trip(a);
    lemma_refusal_reason_round_trip(b);
}

} // verus!
