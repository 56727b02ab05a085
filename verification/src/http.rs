use vstd::prelude::*;

use crate::error::ApiError;
use crate::error::ApiErrorV;
use crate::error::DecodeError;
use crate::error::DecodeErrorV;
use crate::error::Error;
use crate::error::ErrorV;
use crate::json::obj_get;
use crate::json::parse_json;
use crate::json::spec_obj_get;
use crate::json::spec_parse_json;
use crate::json::Json;
use crate::json::JsonV;
use crate::payment::Response;
use crate::payment::ResponseV;

verus! {

/// The structured error a non-2xx body denotes: the `status` number
/// (within 16 bits), `errorCode`, `message` and `errorType` required,
/// the `pspReference` kept only when present.
pub open spec fn spec_decode_api_error(j: JsonV) -> Result<ApiErrorV, DecodeErrorV> {
    match j {
        JsonV::Obj(fields) => match spec_obj_get(fields, "status"@) {
            Some(JsonV::Num(status)) => if status > u16::MAX {
                Err(DecodeErrorV::MalformedField)
            } else {
                match spec_obj_get(fields, "errorCode"@) {
                    Some(JsonV::Str(error_code)) => match spec_obj_get(fields, "message"@) {
                        Some(JsonV::Str(message)) => match spec_obj_get(fields, "errorType"@) {
                            Some(JsonV::Str(error_type)) => match spec_obj_get(
                                fields,
                                "pspReference"@,
                            ) {
                                Some(JsonV::Str(p)) => Ok(
                                    ApiErrorV::Other {
                                        status: status as u16,
                                        error_code,
                                        message,
                                        error_type,
                                        psp_reference: Some(p),
                                    },
                                ),
                                Some(_) => Err(DecodeErrorV::MalformedField),
                                None => Ok(
                                    ApiErrorV::Other {
                                        status: status as u16,
                                        error_code,
                                        message,
                                        error_type,
                                        psp_reference: None,
                                    },
                                ),
                            },
                            Some(_) => Err(DecodeErrorV::MalformedField),
                            None => Err(DecodeErrorV::MalformedField),
                        },
                        Some(_) => Err(DecodeErrorV::MalformedField),
                        None => Err(DecodeErrorV::MalformedField),
                    },
                    Some(_) => Err(DecodeErrorV::MalformedField),
                    None => Err(DecodeErrorV::MalformedField),
                }
            },
            Some(_) => Err(DecodeErrorV::MalformedField),
            None => Err(DecodeErrorV::MalformedField),
        },
        _ => Err(DecodeErrorV::MalformedField),
    }
}

/// Decode a non-2xx body as the processor's error schema.
pub fn decode_api_error(j: &Json) -> (r: Result<ApiError, crate::error::DecodeError>)
    ensures
        match r {
            Ok(a) => spec_decode_api_error(j.deep_view()) == Ok::<_, DecodeErrorV>(a.deep_view()),
            Err(e) => spec_decode_api_error(j.deep_view()) == Err::<ApiErrorV, _>(e.deep_view()),
        },
{
    match j {
        Json::Obj(fields) => match obj_get(fields, "status") {
            Some(Json::Num(status)) => {
                if *status > 65535 {
                    Err(crate::error::DecodeError::MalformedField)
                } else {
                    match obj_get(fields, "errorCode") {
                        Some(Json::Str(error_code)) => match obj_get(fields, "message") {
                            Some(Json::Str(message)) => match obj_get(fields, "errorType") {
                                Some(Json::Str(error_type)) => match obj_get(
                                    fields,
                                    "pspReference",
                                ) {
                                    Some(Json::Str(p)) => Ok(
                                        ApiError::Other {
                                            status: *status as u16,
                                            error_code: error_code.clone(),
                                            message: message.clone(),
                                            error_type: error_type.clone(),
                                            psp_reference: Some(p.clone()),
                                        },
                                    ),
                                    Some(_) => Err(crate::error::DecodeError::MalformedField),
                                    None => Ok(
                                        ApiError::Other {
                                            status: *status as u16,
                                            error_code: error_code.clone(),
                                            message: message.clone(),
                                            error_type: error_type.clone(),
                                            psp_reference: None,
                                        },
                                    ),
                                },
                                Some(_) => Err(crate::error::DecodeError::MalformedField),
                                None => Err(crate::error::DecodeError::MalformedField),
                            },
                            Some(_) => Err(crate::error::DecodeError::MalformedField),
                            None => Err(crate::error::DecodeError::MalformedField),
                        },
                        Some(_) => Err(crate::error::DecodeError::MalformedField),
                        None => Err(crate::error::DecodeError::MalformedField),
                    }
                }
            },
            Some(_) => Err(crate::error::DecodeError::MalformedField),
            None => Err(crate::error::DecodeError::MalformedField),
        },
        _ => Err(crate::error::DecodeError::MalformedField),
    }
}

/// What went wrong, in words, for a serialization failure's message.
pub open spec fn spec_decode_failure_reason(e: DecodeErrorV) -> Seq<char> {
    match e {
        DecodeErrorV::Syntax => "not a json document"@,
        DecodeErrorV::MalformedField => "malformed field"@,
        DecodeErrorV::UnknownVariant(t) => "unknown variant "@ + t,
        DecodeErrorV::UnknownCode(t) => "unknown code "@ + t,
    }
}

/// The message carried when a 2xx body does not decode as a response:
/// the diagnostic, then the raw text.
pub open spec fn spec_response_failure_text(e: DecodeErrorV, body: Seq<char>) -> Seq<char> {
    "could not deserialize response ("@ + spec_decode_failure_reason(e) + "): "@ + body
}

/// The message carried when a non-2xx body does not decode as the error
/// schema: the diagnostic, then the raw text.
pub open spec fn spec_api_error_failure_text(e: DecodeErrorV, body: Seq<char>) -> Seq<char> {
    "could not parse api error ("@ + spec_decode_failure_reason(e) + "): "@ + body
}

fn decode_failure_reason(e: &DecodeError) -> (r: String)
    ensures
        r@ == spec_decode_failure_reason(e.deep_view()),
{
    match e {
        DecodeError::Syntax => String::from_str("not a json document"),
        DecodeError::MalformedField => String::from_str("malformed field"),
        DecodeError::UnknownVariant(t) => {
            let mut s = String::from_str("unknown variant ");
            s.append(t.as_str());
            s
        },
        DecodeError::UnknownCode(t) => {
            let mut s = String::from_str("unknown code ");
            s.append(t.as_str());
            s
        },
    }
}

/// What a finished HTTP exchange means, given its status code and body
/// text. The status range is the single branch point:
/// - a status in 200..300 must carry a payment response; a body that
///   does not decode as one is a `SerializationError` carrying the raw
///   text;
/// - any other status must carry the processor's error schema, decoded
///   into an `ApiError`; a body that does not match it is a
///   `SerializationError` carrying the raw text.
pub open spec fn spec_decode_http_response(status: u16, body: Seq<char>) -> Result<
    ResponseV,
    ErrorV,
> {
    if 200 <= status && status < 300 {
        match spec_parse_json(body) {
            Some(j) => match Response::spec_decode(j) {
                Ok(resp) => Ok(resp),
                Err(e) => Err(ErrorV::SerializationError(spec_response_failure_text(e, body))),
            },
            None => Err(
                ErrorV::SerializationError(
                    spec_response_failure_text(DecodeErrorV::Syntax, body),
                ),
            ),
        }
    } else {
        match spec_parse_json(body) {
            Some(j) => match spec_decode_api_error(j) {
                Ok(a) => Err(ErrorV::ApiError(a)),
                Err(e) => Err(ErrorV::SerializationError(spec_api_error_failure_text(e, body))),
            },
            None => Err(
                ErrorV::SerializationError(
                    spec_api_error_failure_text(DecodeErrorV::Syntax, body),
                ),
            ),
        }
    }
}

/// Turn a finished HTTP exchange into a payment response or an error.
/// Transport failures never reach this function: they are a
/// `NetworkError` raised before a status code exists.
pub fn decode_http_response(status: u16, body: &str) -> (r: Result<Response, Error>)
    ensures
        match r {
            Ok(resp) => spec_decode_http_response(status, body@) == Ok::<_, ErrorV>(
                resp.deep_view(),
            ),
            Err(e) => spec_decode_http_response(status, body@) == Err::<ResponseV, _>(
                e.deep_view(),
            ),
        },
{
    if 200 <= status && status < 300 {
        match parse_json(body) {
            Some(j) => match Response::decode_json(&j) {
                Ok(resp) => Ok(resp),
                Err(e) => Err(Error::SerializationError(response_failure_text(&e, body))),
            },
            None => Err(
                Error::SerializationError(response_failure_text(&DecodeError::Syntax, body)),
            ),
        }
    } else {
        match parse_json(body) {
            Some(j) => match decode_api_error(&j) {
                Ok(a) => Err(Error::ApiError(a)),
                Err(e) => Err(Error::SerializationError(api_error_failure_text(&e, body))),
            },
            None => Err(
                Error::SerializationError(api_error_failure_text(&DecodeError::Syntax, body)),
            ),
        }
    }
}

fn response_failure_text(e: &DecodeError, body: &str) -> (r: String)
    ensures
        r@ == spec_response_failure_text(e.deep_view(), body@),
{
    let mut text = String::from_str("could not deserialize response (");
    let reason = decode_failure_reason(e);
    text.append(reason.as_str());
    text.append("): ");
    text.append(body);
    text
}

fn api_error_failure_text(e: &DecodeError, body: &str) -> (r: String)
    ensures
        r@ == spec_api_error_failure_text(e.deep_view(), body@),
{
    let mut text = String::from_str("could not parse api error (");
    let reason = decode_failure_reason(e);
    text.append(reason.as_str());
    text.append("): ");
    text.append(body);
    text
}

} // verus!
