use adyen::{DecodeError, RefusalReason};

fn all_reasons() -> Vec<RefusalReason> {
    vec![
        RefusalReason::Refused,
        RefusalReason::Referral,
        RefusalReason::AcquirerError,
        RefusalReason::BlockedCard,
        RefusalReason::ExpiredCard,
        RefusalReason::InvalidAmount,
        RefusalReason::InvalidCardNumber,
        RefusalReason::IssuerUnavailable,
        RefusalReason::NotSupported,
        RefusalReason::ThreeDNotAuthenticated,
        RefusalReason::NotEnoughBalance,
        RefusalReason::AcquirerFraud,
        RefusalReason::Cancelled,
        RefusalReason::ShopperCancelled,
        RefusalReason::InvalidPin,
        RefusalReason::PinTriesExceeded,
        RefusalReason::PinValidationNotPossible,
        RefusalReason::Fraud,
        RefusalReason::NotSubmitted,
        RefusalReason::FraudCancelled,
        RefusalReason::TransactionNotPermitted,
        RefusalReason::CvcDeclined,
        RefusalReason::RestrictedCard,
        RefusalReason::RevocationOfAuth,
        RefusalReason::DeclinedNonGeneric,
        RefusalReason::WithdrawalAmountExceeded,
        RefusalReason::WithdrawalCountExceeded,
        RefusalReason::IssuerSuspectedFraud,
        RefusalReason::AvsDeclined,
        RefusalReason::CardRequiresOnlinePin,
        RefusalReason::NoCheckingAccountAvailable,
        RefusalReason::NoSavingsAccountAvailable,
        RefusalReason::MobilePinRequired,
        RefusalReason::ContactlessFallback,
        RefusalReason::AuthenticationRequired,
        RefusalReason::RReqNotReceived,
        RefusalReason::CurrentAidInPenaltyBox,
        RefusalReason::CvmRequiredRestartPayment,
        RefusalReason::ThreeDsAuthenticationError,
        RefusalReason::TransactionBlockedByAdyen,
    ]
}

#[test]
fn every_reason_round_trips_through_its_code() {
    let reasons = all_reasons();
    assert_eq!(reasons.len(), 40);
    for r in reasons {
        let code = r.encode();
        assert_eq!(RefusalReason::decode(code), Ok(r));
    }
}

#[test]
fn codes_are_distinct() {
    let reasons = all_reasons();
    for (i, a) in reasons.iter().enumerate() {
        for b in reasons.iter().skip(i + 1) {
            assert_ne!(a.encode(), b.encode());
        }
    }
}

#[test]
fn expected_codes_in_the_table() {
    assert_eq!(RefusalReason::Refused.encode(), "2");
    assert_eq!(RefusalReason::ExpiredCard.encode(), "6");
    assert_eq!(RefusalReason::Fraud.encode(), "20");
    assert_eq!(RefusalReason::ThreeDNotAuthenticated.encode(), "11");
    assert_eq!(RefusalReason::TransactionBlockedByAdyen.encode(), "46");
}

#[test]
fn unknown_code_is_a_distinguishable_error() {
    // "99" is outside the table.
    assert_eq!(
        RefusalReason::decode("99"),
        Err(DecodeError::UnknownCode(String::from("99")))
    );
    // The table has historical gaps: these numbers never map to a reason.
    for gap in ["13", "30", "43", "44", "45"] {
        assert_eq!(
            RefusalReason::decode(gap),
            Err(DecodeError::UnknownCode(String::from(gap)))
        );
    }
    // Not a bare integer namespace: only the exact decimal strings decode.
    assert!(RefusalReason::decode("02").is_err());
    assert!(RefusalReason::decode("").is_err());
    assert!(RefusalReason::decode("Refused").is_err());
}
