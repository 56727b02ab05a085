use adyen::{applepay_merchant_id, Error};

#[test]
fn merchant_id_of_the_applepay_entry() {
    let methods = vec![
        (String::from("scheme"), None),
        (String::from("applepay"), Some(String::from("merchant.com.shop"))),
        (String::from("swish"), None),
    ];
    assert_eq!(
        applepay_merchant_id(&methods),
        Ok(String::from("merchant.com.shop"))
    );
}

#[test]
fn listing_without_applepay_is_unsupported() {
    let methods = vec![
        (String::from("scheme"), Some(String::from("x"))),
        (String::from("swish"), None),
    ];
    assert_eq!(
        applepay_merchant_id(&methods),
        Err(Error::UnsupportedPaymentMethod)
    );
    assert_eq!(
        applepay_merchant_id(&vec![]),
        Err(Error::UnsupportedPaymentMethod)
    );
}

#[test]
fn applepay_entry_without_configuration_is_unsupported() {
    let methods = vec![(String::from("applepay"), None)];
    assert_eq!(
        applepay_merchant_id(&methods),
        Err(Error::UnsupportedPaymentMethod)
    );
}

#[test]
fn the_first_applepay_entry_decides() {
    // As in the processor's listing: only the first entry of the type
    // is consulted, even if a later one carries an identifier.
    let methods = vec![
        (String::from("applepay"), None),
        (String::from("applepay"), Some(String::from("late"))),
    ];
    assert_eq!(
        applepay_merchant_id(&methods),
        Err(Error::UnsupportedPaymentMethod)
    );
}
