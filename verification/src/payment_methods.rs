use vstd::prelude::*;

use crate::error::Error;
use crate::error::ErrorV;

verus! {

/// The configuration of the first `applepay` entry in a payment-methods
/// listing, searched from position `i`: `None` when no entry has that
/// type, `Some(None)` when the first such entry carries no merchant
/// identifier.
pub open spec fn first_applepay_from(
    methods: Seq<(Seq<char>, Option<Seq<char>>)>,
    i: int,
) -> Option<Option<Seq<char>>>
    decreases methods.len() - i,
{
    if i < 0 || i >= methods.len() {
        None
    } else if methods[i].0 == "applepay"@ {
        Some(methods[i].1)
    } else {
        first_applepay_from(methods, i + 1)
    }
}

/// The view of a payment-methods listing: each entry's wire type and
/// its merchant identifier, if its configuration names one.
pub open spec fn methods_view(methods: Seq<(String, Option<String>)>) -> Seq<
    (Seq<char>, Option<Seq<char>>),
> {
    Seq::new(
        methods.len(),
        |i: int|
            (
                methods[i].0@,
                match methods[i].1 {
                    Some(m) => Some(m@),
                    None => None,
                },
            ),
    )
}

/// Pick the Apple Pay merchant identifier out of a payment-methods
/// listing: the identifier of the first entry whose type is `applepay`.
/// A listing without such an entry, or whose first such entry carries
/// no identifier, does not offer the method.
pub fn applepay_merchant_id(methods: &Vec<(String, Option<String>)>) -> (r: Result<String, Error>)
    ensures
        match r {
            Ok(id) => first_applepay_from(methods_view(methods@), 0) == Some(Some(id@)),
            Err(e) => (match first_applepay_from(methods_view(methods@), 0) {
                Some(c) => c is None,
                None => true,
            }) && e.deep_view() == ErrorV::UnsupportedPaymentMethod,
        },
{
    let key = String::from_str("applepay");
    let ghost mv = methods_view(methods@);
    let mut i: usize = 0;
    while i < methods.len()
        invariant
            key@ == "applepay"@,
            mv == methods_view(methods@),
            i <= methods.len(),
            first_applepay_from(mv, 0) == first_applepay_from(mv, i as int),
        decreases methods.len() - i,
    {
        let m = &methods[i];
        if m.0.eq(&key) {
            match &m.1 {
                Some(id) => {
                    return Ok(id.clone());
                },
                None => {
                    return Err(Error::UnsupportedPaymentMethod);
                },
            }
        }
        i = i + 1;
    }
    Err(Error::UnsupportedPaymentMethod)
}

} // verus!
