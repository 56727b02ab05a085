use vstd::prelude::*;

use crate::currency::Currency;
use crate::error::DecodeError;
use crate::error::DecodeErrorV;
use crate::json::obj_get;
use crate::json::spec_obj_get;
use crate::json::Json;
use crate::json::JsonV;

verus! {

/// A monetary amount: an integer count of the currency's minor units
/// (cents, øre), never a fractional major-unit number.
#[derive(Clone, Copy, Debug, PartialEq, Eq, Structural)]
pub struct Amount {
    pub value: u64,
    pub currency: Currency,
}

impl Amount {
    /// The amount an `{value, currency}` object denotes: the minor-unit
    /// integer under `value` and the three-letter code under `currency`.
    /// An unrecognized currency code is an `UnknownVariant`; anything
    /// else missing or of the wrong shape is a `MalformedField`.
    pub open spec fn spec_decode(j: JsonV) -> Result<Amount, DecodeErrorV> {
        match j {
            JsonV::Obj(fields) => match spec_obj_get(fields, "value"@) {
                Some(JsonV::Num(v)) => match spec_obj_get(fields, "currency"@) {
                    Some(JsonV::Str(code)) => match Currency::spec_from_code(code) {
                        Some(c) => Ok(Amount { value: v, currency: c }),
                        None => Err(DecodeErrorV::UnknownVariant(code)),
                    },
                    Some(_) => Err(DecodeErrorV::MalformedField),
                    None => Err(DecodeErrorV::MalformedField),
                },
                Some(_) => Err(DecodeErrorV::MalformedField),
                None => Err(DecodeErrorV::MalformedField),
            },
            _ => Err(DecodeErrorV::MalformedField),
        }
    }

    /// Decode an `{value, currency}` object.
    pub fn decode_json(j: &Json) -> (r: Result<Amount, DecodeError>)
        ensures
            match r {
                Ok(a) => Self::spec_decode(j.deep_view()) == Ok::<Amount, DecodeErrorV>(a),
                Err(e) => Self::spec_decode(j.deep_view()) == Err::<Amount, DecodeErrorV>(
                    e.deep_view(),
                ),
            },
    {
        match j {
            Json::Obj(fields) => match obj_get(fields, "value") {
                Some(Json::Num(v)) => match obj_get(fields, "currency") {
                    Some(Json::Str(code)) => match Currency::try_from(code.as_str()) {
                        Ok(c) => Ok(Amount { value: *v, currency: c }),
                        Err(()) => Err(DecodeError::UnknownVariant(code.clone())),
                    },
                    Some(_) => Err(DecodeError::MalformedField),
                    None => Err(DecodeError::MalformedField),
                },
                Some(_) => Err(DecodeError::MalformedField),
                None => Err(DecodeError::MalformedField),
            },
            _ => Err(DecodeError::MalformedField),
        }
    }
}

} // verus!
