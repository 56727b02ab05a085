use adyen::{convert_decimal_into_minor_units, Currency, Decimal, Error};

fn currencies() -> Vec<Currency> {
    vec![
        Currency::NOK,
        Currency::SEK,
        Currency::DKK,
        Currency::ISK,
        Currency::GBP,
        Currency::EUR,
    ]
}

#[test]
fn minor_units_round_trip_for_every_currency() {
    // m / 10^e, written with the currency's own exponent, converts back
    // to exactly m.
    let samples: Vec<u64> = vec![0, 1, 99, 100, 1050, 123456789, u64::MAX];
    for c in currencies() {
        let e = c.minor_unit_exponent();
        for m in &samples {
            let d = Decimal::new(false, *m as u128, e).unwrap();
            assert_eq!(convert_decimal_into_minor_units(&d, &c), Ok(*m));
        }
    }
}

#[test]
fn ten_euros_fifty_is_1050_cents() {
    // 10.50 EUR: mantissa 1050, scale 2.
    let d = Decimal::new(false, 1050, 2).unwrap();
    assert_eq!(convert_decimal_into_minor_units(&d, &Currency::EUR), Ok(1050));
}

#[test]
fn icelandic_krona_has_no_minor_unit() {
    // 250 ISK stays 250: the exponent is 0.
    let d = Decimal::new(false, 250, 0).unwrap();
    assert_eq!(convert_decimal_into_minor_units(&d, &Currency::ISK), Ok(250));
    // 250.75 ISK truncates to 250 whole kronur.
    let d = Decimal::new(false, 25075, 2).unwrap();
    assert_eq!(convert_decimal_into_minor_units(&d, &Currency::ISK), Ok(250));
}

#[test]
fn sub_minor_unit_digits_truncate() {
    // 1.005 EUR is 100.5 cents; the converter truncates toward zero.
    let d = Decimal::new(false, 1005, 3).unwrap();
    assert_eq!(convert_decimal_into_minor_units(&d, &Currency::EUR), Ok(100));
}

#[test]
fn negative_amount_fails() {
    let d = Decimal::new(true, 1050, 2).unwrap();
    let r = convert_decimal_into_minor_units(&d, &Currency::EUR);
    assert!(matches!(r, Err(Error::ConversionError(_))));
    // The smallest strictly negative amount fails too.
    let d = Decimal::new(true, 1, 28).unwrap();
    let r = convert_decimal_into_minor_units(&d, &Currency::EUR);
    assert!(matches!(r, Err(Error::ConversionError(_))));
}

#[test]
fn sign_flagged_zero_is_zero() {
    // A zero with the sign flag set is not a negative amount: it
    // converts to zero, whatever the scale.
    for c in currencies() {
        let d = Decimal::new(true, 0, 0).unwrap();
        assert_eq!(convert_decimal_into_minor_units(&d, &c), Ok(0));
        let d = Decimal::new(true, 0, 5).unwrap();
        assert_eq!(convert_decimal_into_minor_units(&d, &c), Ok(0));
    }
}

#[test]
fn amount_beyond_u64_fails() {
    // u64::MAX + 1 minor units does not fit.
    let d = Decimal::new(false, u64::MAX as u128 + 1, 0).unwrap();
    let r = convert_decimal_into_minor_units(&d, &Currency::EUR);
    assert!(matches!(r, Err(Error::ConversionError(_))));
    // u64::MAX itself still converts.
    let d = Decimal::new(false, u64::MAX as u128, 2).unwrap();
    assert_eq!(
        convert_decimal_into_minor_units(&d, &Currency::EUR),
        Ok(u64::MAX)
    );
}

#[test]
fn decimal_construction_checks_ranges() {
    assert!(Decimal::new(false, 1, 29).is_err());
    assert!(Decimal::new(false, 1u128 << 96, 0).is_err());
    assert!(Decimal::new(false, (1u128 << 96) - 1, 28).is_ok());
}

#[test]
fn decimals_write_out_exactly() {
    assert_eq!(Decimal::new(false, 1050, 2).unwrap().to_text(), "10.50");
    assert_eq!(Decimal::new(true, 5, 1).unwrap().to_text(), "-0.5");
    assert_eq!(Decimal::new(false, 7, 0).unwrap().to_text(), "7");
    assert_eq!(Decimal::new(false, 7, 3).unwrap().to_text(), "0.007");
    assert_eq!(Decimal::new(false, 0, 0).unwrap().to_text(), "0");
    assert_eq!(
        Decimal::new(false, 123456789, 4).unwrap().to_text(),
        "12345.6789"
    );
}

#[test]
fn conversion_error_carries_the_decimal() {
    let d = Decimal::new(true, 1050, 2).unwrap();
    match convert_decimal_into_minor_units(&d, &Currency::EUR) {
        Err(Error::ConversionError(msg)) => {
            assert_eq!(msg, "could not convert -10.50 to u64");
        }
        other => panic!("expected a conversion error, got {:?}", other),
    }
}

#[test]
fn currency_codes_parse_and_print() {
    for c in currencies() {
        assert_eq!(Currency::try_from(c.code()), Ok(c));
    }
    assert_eq!(Currency::try_from("USD"), Err(()));
    assert_eq!(Currency::try_from("eur"), Err(()));
    assert_eq!(Currency::try_from(""), Err(()));
    assert_eq!(Currency::EUR.code(), "EUR");
    assert_eq!(Currency::ISK.minor_unit_exponent(), 0);
    assert_eq!(Currency::NOK.minor_unit_exponent(), 2);
}
