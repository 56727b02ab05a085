use vstd::prelude::*;

use crate::error::DecodeError;
use crate::error::DecodeErrorV;
use crate::json::obj_get;
use crate::json::spec_obj_get;
use crate::json::Json;
use crate::json::JsonV;

verus! {

/// The redirect data of a legacy card-scheme redirect: the MD and PaReq
/// tokens, and an optional terminal URL.
#[derive(Clone, Debug, PartialEq, Eq)]
pub struct SchemeRedirectData {
    pub m_d: String,
    pub pa_req: String,
    pub term_url: Option<String>,
}

/// The ghost image of a [`SchemeRedirectData`].
pub struct SchemeRedirectDataV {
    pub m_d: Seq<char>,
    pub pa_req: Seq<char>,
    pub term_url: Option<Seq<char>>,
}

impl DeepView for SchemeRedirectData {
    type V = SchemeRedirectDataV;

    open spec fn deep_view(&self) -> SchemeRedirectDataV {
        SchemeRedirectDataV {
            m_d: self.m_d@,
            pa_req: self.pa_req@,
            term_url: match self.term_url {
                Some(ref u) => Some(u@),
                None => None,
            },
        }
    }
}

/// A card-scheme continuation, discriminated on the wire by its `type`
/// field: a browser redirect, or a native 3-D Secure 2 challenge.
#[derive(Clone, Debug, PartialEq, Eq)]
pub enum Scheme {
    Redirect { url: String, data: SchemeRedirectData, method: String },
    ThreeDS2 { payment_data: String, subtype: String, token: String },
}

/// The ghost image of a [`Scheme`].
pub enum SchemeV {
    Redirect { url: Seq<char>, data: SchemeRedirectDataV, method: Seq<char> },
    ThreeDS2 { payment_data: Seq<char>, subtype: Seq<char>, token: Seq<char> },
}

impl DeepView for Scheme {
    type V = SchemeV;

    open spec fn deep_view(&self) -> SchemeV {
        match self {
            Scheme::Redirect { url, data, method } => SchemeV::Redirect {
                url: url@,
                data: data.deep_view(),
                method: method@,
            },
            Scheme::ThreeDS2 { payment_data, subtype, token } => SchemeV::ThreeDS2 {
                payment_data: payment_data@,
                subtype: subtype@,
                token: token@,
            },
        }
    }
}

/// A shopper interaction required to complete the payment, discriminated
/// on the wire by `paymentMethodType`.
#[derive(Clone, Debug, PartialEq, Eq)]
pub enum Action {
    Scheme(Scheme),
    /// A Swish app hand-off; `kind` holds the wire field `type`.
    Swish { qr_code_data: String, kind: String, payment_data: String, url: String },
    /// A Vipps app hand-off; `kind` holds the wire field `type`.
    Vipps { method: String, url: String, kind: String },
}

/// The ghost image of an [`Action`].
pub enum ActionV {
    Scheme(SchemeV),
    Swish { qr_code_data: Seq<char>, kind: Seq<char>, payment_data: Seq<char>, url: Seq<char> },
    Vipps { method: Seq<char>, url: Seq<char>, kind: Seq<char> },
}

impl DeepView for Action {
    type V = ActionV;

    open spec fn deep_view(&self) -> ActionV {
        match self {
            Action::Scheme(s) => ActionV::Scheme(s.deep_view()),
            Action::Swish { qr_code_data, kind, payment_data, url } => ActionV::Swish {
                qr_code_data: qr_code_data@,
                kind: kind@,
                payment_data: payment_data@,
                url: url@,
            },
            Action::Vipps { method, url, kind } => ActionV::Vipps {
                method: method@,
                url: url@,
                kind: kind@,
            },
        }
    }
}

impl SchemeRedirectData {
    /// The redirect data an object denotes: `MD` and `PaReq` required,
    /// `TermUrl` kept only when present.
    pub open spec fn spec_decode(j: JsonV) -> Result<SchemeRedirectDataV, DecodeErrorV> {
        match j {
            JsonV::Obj(fields) => match spec_obj_get(fields, "MD"@) {
                Some(JsonV::Str(m_d)) => match spec_obj_get(fields, "PaReq"@) {
                    Some(JsonV::Str(pa_req)) => match spec_obj_get(fields, "TermUrl"@) {
                        Some(JsonV::Str(u)) => Ok(
                            SchemeRedirectDataV { m_d, pa_req, term_url: Some(u) },
                        ),
                        Some(_) => Err(DecodeErrorV::MalformedField),
                        None => Ok(SchemeRedirectDataV { m_d, pa_req, term_url: None }),
                    },
                    Some(_) => Err(DecodeErrorV::MalformedField),
                    None => Err(DecodeErrorV::MalformedField),
                },
                Some(_) => Err(DecodeErrorV::MalformedField),
                None => Err(DecodeErrorV::MalformedField),
            },
            _ => Err(DecodeErrorV::MalformedField),
        }
    }

    /// Decode the redirect data object of a legacy card-scheme redirect.
    pub fn decode_json(j: &Json) -> (r: Result<SchemeRedirectData, DecodeError>)
        ensures
            match r {
                Ok(d) => Self::spec_decode(j.deep_view()) == Ok::<_, DecodeErrorV>(d.deep_view()),
                Err(e) => Self::spec_decode(j.deep_view()) == Err::<SchemeRedirectDataV, _>(
                    e.deep_view(),
                ),
            },
    {
        match j {
            Json::Obj(fields) => match obj_get(fields, "MD") {
                Some(Json::Str(m_d)) => match obj_get(fields, "PaReq") {
                    Some(Json::Str(pa_req)) => match obj_get(fields, "TermUrl") {
                        Some(Json::Str(u)) => Ok(
                            SchemeRedirectData {
                                m_d: m_d.clone(),
                                pa_req: pa_req.clone(),
                                term_url: Some(u.clone()),
                            },
                        ),
                        Some(_) => Err(DecodeError::MalformedField),
                        None => Ok(
                            SchemeRedirectData {
                                m_d: m_d.clone(),
                                pa_req: pa_req.clone(),
                                term_url: None,
                            },
                        ),
                    },
                    Some(_) => Err(DecodeError::MalformedField),
                    None => Err(DecodeError::MalformedField),
                },
                Some(_) => Err(DecodeError::MalformedField),
                None => Err(DecodeError::MalformedField),
            },
            _ => Err(DecodeError::MalformedField),
        }
    }
}

impl Action {
    /// The card-scheme continuation the fields of an action object
    /// denote, discriminated by the inner `type` tag: `redirect` or
    /// `threeDS2`. Any other tag is an `UnknownVariant`.
    pub open spec fn spec_decode_scheme(fields: Seq<(Seq<char>, JsonV)>) -> Result<
        ActionV,
        DecodeErrorV,
    > {
        match spec_obj_get(fields, "type"@) {
            Some(JsonV::Str(t)) => if t == "redirect"@ {
                match spec_obj_get(fields, "url"@) {
                    Some(JsonV::Str(url)) => match spec_obj_get(fields, "method"@) {
                        Some(JsonV::Str(method)) => match spec_obj_get(fields, "data"@) {
                            Some(data_json) => match SchemeRedirectData::spec_decode(data_json) {
                                Ok(data) => Ok(
                                    ActionV::Scheme(SchemeV::Redirect { url, data, method }),
                                ),
                                Err(e) => Err(e),
                            },
                            None => Err(DecodeErrorV::MalformedField),
                        },
                        Some(_) => Err(DecodeErrorV::MalformedField),
                        None => Err(DecodeErrorV::MalformedField),
                    },
                    Some(_) => Err(DecodeErrorV::MalformedField),
                    None => Err(DecodeErrorV::MalformedField),
                }
            } else if t == "threeDS2"@ {
                match spec_obj_get(fields, "paymentData"@) {
                    Some(JsonV::Str(payment_data)) => match spec_obj_get(fields, "subtype"@) {
                        Some(JsonV::Str(subtype)) => match spec_obj_get(fields, "token"@) {
                            Some(JsonV::Str(token)) => Ok(
                                ActionV::Scheme(
                                    SchemeV::ThreeDS2 { payment_data, subtype, token },
                                ),
                            ),
                            Some(_) => Err(DecodeErrorV::MalformedField),
                            None => Err(DecodeErrorV::MalformedField),
                        },
                        Some(_) => Err(DecodeErrorV::MalformedField),
                        None => Err(DecodeErrorV::MalformedField),
                    },
                    Some(_) => Err(DecodeErrorV::MalformedField),
                    None => Err(DecodeErrorV::MalformedField),
                }
            } else {
                Err(DecodeErrorV::UnknownVariant(t))
            },
            Some(_) => Err(DecodeErrorV::MalformedField),
            None => Err(DecodeErrorV::MalformedField),
        }
    }

    /// The continuation an action object denotes, discriminated by its
    /// `paymentMethodType` tag: `scheme`, `swish` or `vipps`. Any other
    /// tag is an `UnknownVariant`.
    pub open spec fn spec_decode(j: JsonV) -> Result<ActionV, DecodeErrorV> {
        match j {
            JsonV::Obj(fields) => match spec_obj_get(fields, "paymentMethodType"@) {
                Some(JsonV::Str(pmt)) => if pmt == "scheme"@ {
                    Self::spec_decode_scheme(fields)
                } else if pmt == "swish"@ {
                    match spec_obj_get(fields, "qrCodeData"@) {
                        Some(JsonV::Str(qr_code_data)) => match spec_obj_get(fields, "type"@) {
                            Some(JsonV::Str(kind)) => match spec_obj_get(fields, "paymentData"@) {
                                Some(JsonV::Str(payment_data)) => match spec_obj_get(
                                    fields,
                                    "url"@,
                                ) {
                                    Some(JsonV::Str(url)) => Ok(
                                        ActionV::Swish { qr_code_data, kind, payment_data, url },
                                    ),
                                    Some(_) => Err(DecodeErrorV::MalformedField),
                                    None => Err(DecodeErrorV::MalformedField),
                                },
                                Some(_) => Err(DecodeErrorV::MalformedField),
                                None => Err(DecodeErrorV::MalformedField),
                            },
                            Some(_) => Err(DecodeErrorV::MalformedField),
                            None => Err(DecodeErrorV::MalformedField),
                        },
                        Some(_) => Err(DecodeErrorV::MalformedField),
                        None => Err(DecodeErrorV::MalformedField),
                    }
                } else if pmt == "vipps"@ {
                    match spec_obj_get(fields, "method"@) {
                        Some(JsonV::Str(method)) => match spec_obj_get(fields, "url"@) {
                            Some(JsonV::Str(url)) => match spec_obj_get(fields, "type"@) {
                                Some(JsonV::Str(kind)) => Ok(ActionV::Vipps { method, url, kind }),
                                Some(_) => Err(DecodeErrorV::MalformedField),
                                None => Err(DecodeErrorV::MalformedField),
                            },
                            Some(_) => Err(DecodeErrorV::MalformedField),
                            None => Err(DecodeErrorV::MalformedField),
                        },
                        Some(_) => Err(DecodeErrorV::MalformedField),
                        None => Err(DecodeErrorV::MalformedField),
                    }
                } else {
                    Err(DecodeErrorV::UnknownVariant(pmt))
                },
                Some(_) => Err(DecodeErrorV::MalformedField),
                None => Err(DecodeErrorV::MalformedField),
            },
            _ => Err(DecodeErrorV::MalformedField),
        }
    }

    /// Decode an action object into the shopper interaction it asks for.
    pub fn decode_json(j: &Json) -> (r: Result<Action, DecodeError>)
        ensures
            match r {
                Ok(a) => Self::spec_decode(j.deep_view()) == Ok::<_, DecodeErrorV>(a.deep_view()),
                Err(e) => Self::spec_decode(j.deep_view()) == Err::<ActionV, _>(e.deep_view()),
            },
    {
        match j {
            Json::Obj(fields) => match obj_get(fields, "paymentMethodType") {
                Some(Json::Str(pmt)) => {
                    if pmt.eq(&String::from_str("scheme")) {
                        Self::decode_scheme_json(fields)
                    } else if pmt.eq(&String::from_str("swish")) {
                        match obj_get(fields, "qrCodeData") {
                            Some(Json::Str(qr_code_data)) => match obj_get(fields, "type") {
                                Some(Json::Str(kind)) => match obj_get(fields, "paymentData") {
                                    Some(Json::Str(payment_data)) => match obj_get(fields, "url") {
                                        Some(Json::Str(url)) => Ok(
                                            Action::Swish {
                                                qr_code_data: qr_code_data.clone(),
                                                kind: kind.clone(),
                                                payment_data: payment_data.clone(),
                                                url: url.clone(),
                                            },
                                        ),
                                        Some(_) => Err(DecodeError::MalformedField),
                                        None => Err(DecodeError::MalformedField),
                                    },
                                    Some(_) => Err(DecodeError::MalformedField),
                                    None => Err(DecodeError::MalformedField),
                                },
                                Some(_) => Err(DecodeError::MalformedField),
                                None => Err(DecodeError::MalformedField),
                            },
                            Some(_) => Err(DecodeError::MalformedField),
                            None => Err(DecodeError::MalformedField),
                        }
                    } else if pmt.eq(&String::from_str("vipps")) {
                        match obj_get(fields, "method") {
                            Some(Json::Str(method)) => match obj_get(fields, "url") {
                                Some(Json::Str(url)) => match obj_get(fields, "type") {
                                    Some(Json::Str(kind)) => Ok(
                                        Action::Vipps {
                                            method: method.clone(),
                                            url: url.clone(),
                                            kind: kind.clone(),
                                        },
                                    ),
                                    Some(_) => Err(DecodeError::MalformedField),
                                    None => Err(DecodeError::MalformedField),
                                },
                                Some(_) => Err(DecodeError::MalformedField),
                                None => Err(DecodeError::MalformedField),
                            },
                            Some(_) => Err(DecodeError::MalformedField),
                            None => Err(DecodeError::MalformedField),
                        }
                    } else {
                        Err(DecodeError::UnknownVariant(pmt.clone()))
                    }
                },
                Some(_) => Err(DecodeError::MalformedField),
                None => Err(DecodeError::MalformedField),
            },
            _ => Err(DecodeError::MalformedField),
        }
    }

    fn decode_scheme_json(fields: &Vec<(String, Json)>) -> (r: Result<Action, DecodeError>)
        ensures
            match r {
                Ok(a) => Self::spec_decode_scheme(crate::json::obj_view(fields@)) == Ok::<
                    _,
                    DecodeErrorV,
                >(a.deep_view()),
                Err(e) => Self::spec_decode_scheme(crate::json::obj_view(fields@)) == Err::<
                    ActionV,
                    _,
                >(e.deep_view()),
            },
    {
        match obj_get(fields, "type") {
            Some(Json::Str(t)) => {
                if t.eq(&String::from_str("redirect")) {
                    match obj_get(fields, "url") {
                        Some(Json::Str(url)) => match obj_get(fields, "method") {
                            Some(Json::Str(method)) => match obj_get(fields, "data") {
                                Some(data_json) => match SchemeRedirectData::decode_json(
                                    data_json,
                                ) {
                                    Ok(data) => Ok(
                                        Action::Scheme(
                                            Scheme::Redirect {
                                                url: url.clone(),
                                                data,
                                                method: method.clone(),
                                            },
                                        ),
                                    ),
                                    Err(e) => Err(e),
                                },
                                None => Err(DecodeError::MalformedField),
                            },
                            Some(_) => Err(DecodeError::MalformedField),
                            None => Err(DecodeError::MalformedField),
                        },
                        Some(_) => Err(DecodeError::MalformedField),
                        None => Err(DecodeError::MalformedField),
                    }
                } else if t.eq(&String::from_str("threeDS2")) {
                    match obj_get(fields, "paymentData") {
                        Some(Json::Str(payment_data)) => match obj_get(fields, "subtype") {
                            Some(Json::Str(subtype)) => match obj_get(fields, "token") {
                                Some(Json::Str(token)) => Ok(
                                    Action::Scheme(
                                        Scheme::ThreeDS2 {
                                            payment_data: payment_data.clone(),
                                            subtype: subtype.clone(),
                                            token: token.clone(),
                                        },
                                    ),
                                ),
                                Some(_) => Err(DecodeError::MalformedField),
                                None => Err(DecodeError::MalformedField),
                            },
                            Some(_) => Err(DecodeError::MalformedField),
                            None => Err(DecodeError::MalformedField),
                        },
                        Some(_) => Err(DecodeError::MalformedField),
                        None => Err(DecodeError::MalformedField),
                    }
                } else {
                    Err(DecodeError::UnknownVariant(t.clone()))
                }
            },
            Some(_) => Err(DecodeError::MalformedField),
            None => Err(DecodeError::MalformedField),
        }
    }
}

} // verus!
