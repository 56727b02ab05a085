use vstd::prelude::*;

verus! {

/// A structured non-2xx response body, as the processor reports it.
/// Distinct from a transport failure (no response at all) and from a
/// serialization failure (a response that does not parse).
#[derive(Clone, Debug, PartialEq)]
pub enum ApiError {
    Other {
        status: u16,
        error_code: String,
        message: String,
        error_type: String,
        psp_reference: Option<String>,
    },
}

/// The ghost image of an [`ApiError`], with strings as character sequences.
pub enum ApiErrorV {
    Other {
        status: u16,
        error_code: Seq<char>,
        message: Seq<char>,
        error_type: Seq<char>,
        psp_reference: Option<Seq<char>>,
    },
}

impl DeepView for ApiError {
    type V = ApiErrorV;

    open spec fn deep_view(&self) -> ApiErrorV {
        match self {
            ApiError::Other { status, error_code, message, error_type, psp_reference } => {
                ApiErrorV::Other {
                    status: *status,
                    error_code: error_code@,
                    message: message@,
                    error_type: error_type@,
                    psp_reference: match psp_reference {
                        Some(p) => Some(p@),
                        None => None,
                    },
                }
            },
        }
    }
}

impl From<(u16, String, String, String, Option<String>)> for ApiError {
    fn from(err: (u16, String, String, String, Option<String>)) -> (r: ApiError) {
        let (status, error_code, message, error_type, psp_reference) = err;
        ApiError::Other { status, error_code, message, error_type, psp_reference }
    }
}

impl vstd::std_specs::convert::FromSpecImpl<(u16, String, String, String, Option<String>)> for ApiError {
    open spec fn obeys_from_spec() -> bool {
        true
    }

    open spec fn from_spec(err: (u16, String, String, String, Option<String>)) -> ApiError {
        ApiError::Other {
            status: err.0,
            error_code: err.1,
            message: err.2,
            error_type: err.3,
            psp_reference: err.4,
        }
    }
}

/// Everything that can go wrong between sending a request and holding a
/// decoded response.
#[derive(Clone, Debug, PartialEq)]
pub enum Error {
    /// A failure that fits no other category.
    Unspecified(String),
    /// A body (success or error path) that does not match the expected
    /// schema; carries the offending text.
    SerializationError(String),
    /// The request could not be sent, or no response was received.
    NetworkError(String),
    /// A response was received, its status was outside 200..300, and its
    /// body parsed as the processor's error schema.
    ApiError(ApiError),
    /// A decimal amount that has no exact unsigned 64-bit minor-unit value.
    ConversionError(String),
    /// The processor does not offer the requested payment method.
    UnsupportedPaymentMethod,
}

/// The ghost image of an [`Error`].
pub enum ErrorV {
    Unspecified(Seq<char>),
    SerializationError(Seq<char>),
    NetworkError(Seq<char>),
    ApiError(ApiErrorV),
    ConversionError(Seq<char>),
    UnsupportedPaymentMethod,
}

impl DeepView for Error {
    type V = ErrorV;

    open spec fn deep_view(&self) -> ErrorV {
        match self {
            Error::Unspecified(g) => ErrorV::Unspecified(g@),
            Error::SerializationError(g) => ErrorV::SerializationError(g@),
            Error::NetworkError(g) => ErrorV::NetworkError(g@),
            Error::ApiError(e) => ErrorV::ApiError(e.deep_view()),
            Error::ConversionError(g) => ErrorV::ConversionError(g@),
            Error::UnsupportedPaymentMethod => ErrorV::UnsupportedPaymentMethod,
        }
    }
}

impl Error {
    /// The text shown for this error.
    pub open spec fn spec_message(self) -> Seq<char> {
        match self {
            Error::Unspecified(g) => g@,
            Error::SerializationError(g) => g@,
            Error::NetworkError(g) => g@,
            Error::ApiError(ApiError::Other { message, .. }) => message@,
            Error::ConversionError(g) => g@,
            Error::UnsupportedPaymentMethod => "unsupported payment method"@,
        }
    }

    /// A human-readable description of the error.
    pub fn message(&self) -> (r: String)
        ensures
            r@ == self.spec_message(),
    {
        match self {
            Error::Unspecified(g) => g.clone(),
            Error::SerializationError(g) => g.clone(),
            Error::NetworkError(g) => g.clone(),
            Error::ApiError(ApiError::Other { message, .. }) => message.clone(),
            Error::ConversionError(g) => g.clone(),
            Error::UnsupportedPaymentMethod => String::from_str("unsupported payment method"),
        }
    }
}

/// Why a JSON document could not be decoded into one of the library's
/// wire models.
#[derive(Clone, Debug, PartialEq)]
pub enum DecodeError {
    /// The text is not a JSON document this library's reader accepts.
    Syntax,
    /// A required field of the matched variant is absent or has the
    /// wrong shape.
    MalformedField,
    /// A discriminant (result code, event code, currency code) outside
    /// the closed vocabulary; carries the unrecognized tag.
    UnknownVariant(String),
    /// A refusal-reason code outside the fixed numeric table; carries
    /// the unrecognized code.
    UnknownCode(String),
}

/// The ghost image of a [`DecodeError`].
pub enum DecodeErrorV {
    Syntax,
    MalformedField,
    UnknownVariant(Seq<char>),
    UnknownCode(Seq<char>),
}

impl DeepView for DecodeError {
    type V = DecodeErrorV;

    open spec fn deep_view(&self) -> DecodeErrorV {
        match self {
            DecodeError::Syntax => DecodeErrorV::Syntax,
            DecodeError::MalformedField => DecodeErrorV::MalformedField,
            DecodeError::UnknownVariant(t) => DecodeErrorV::UnknownVariant(t@),
            DecodeError::UnknownCode(t) => DecodeErrorV::UnknownCode(t@),
        }
    }
}

} // verus!
