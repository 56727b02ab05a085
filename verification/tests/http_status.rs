use adyen::{decode_http_response, ApiError, Error, Response};

#[test]
fn http_422_with_error_schema_is_an_api_error() {
    let body = r#"{
        "status": 422,
        "errorCode": "100",
        "message": "Required field 'reference' is not provided.",
        "errorType": "validation",
        "pspReference": "861234567890"
    }"#;
    let r = decode_http_response(422, body);
    assert_eq!(
        r,
        Err(Error::ApiError(ApiError::Other {
            status: 422,
            error_code: String::from("100"),
            message: String::from("Required field 'reference' is not provided."),
            error_type: String::from("validation"),
            psp_reference: Some(String::from("861234567890")),
        }))
    );
}

#[test]
fn api_error_psp_reference_is_optional() {
    let body = r#"{"status": 401, "errorCode": "000", "message": "denied", "errorType": "security"}"#;
    match decode_http_response(401, body) {
        Err(Error::ApiError(ApiError::Other { status, psp_reference, .. })) => {
            assert_eq!(status, 401);
            assert_eq!(psp_reference, None);
        }
        other => panic!("expected an api error, got {:?}", other),
    }
}

#[test]
fn http_500_with_non_json_body_is_a_serialization_error() {
    let body = "Internal Server Error";
    match decode_http_response(500, body) {
        Err(Error::SerializationError(text)) => {
            // The raw body text is carried for diagnosis.
            assert!(text.contains("Internal Server Error"));
        }
        other => panic!("expected a serialization error, got {:?}", other),
    }
}

#[test]
fn error_body_not_matching_the_schema_is_a_serialization_error() {
    // Valid JSON, but not the error schema.
    let body = r#"{"status": "not a number"}"#;
    match decode_http_response(503, body) {
        Err(Error::SerializationError(text)) => {
            assert!(text.contains("not a number"));
        }
        other => panic!("expected a serialization error, got {:?}", other),
    }
}

#[test]
fn success_status_decodes_the_response_body() {
    let body = r#"{"resultCode": "Received"}"#;
    assert_eq!(decode_http_response(200, body), Ok(Response::Received {}));
    assert_eq!(decode_http_response(299, body), Ok(Response::Received {}));
}

#[test]
fn success_status_with_undecodable_body_is_a_serialization_error() {
    let body = r#"{"resultCode": "SomethingNew"}"#;
    match decode_http_response(200, body) {
        Err(Error::SerializationError(text)) => {
            // The message carries the diagnostic and the raw text.
            assert!(text.contains("unknown variant SomethingNew"));
            assert!(text.contains(body));
        }
        other => panic!("expected a serialization error, got {:?}", other),
    }
    match decode_http_response(204, "not json at all") {
        Err(Error::SerializationError(text)) => {
            assert!(text.contains("not a json document"));
            assert!(text.contains("not json at all"));
        }
        other => panic!("expected a serialization error, got {:?}", other),
    }
}

#[test]
fn the_status_range_is_the_single_branch_point() {
    // 199 and 300 take the error path even with a response-shaped body.
    let body = r#"{"resultCode": "Received"}"#;
    assert!(matches!(
        decode_http_response(199, body),
        Err(Error::SerializationError(_))
    ));
    assert!(matches!(
        decode_http_response(300, body),
        Err(Error::SerializationError(_))
    ));
}

#[test]
fn error_messages_read_back() {
    let e = Error::UnsupportedPaymentMethod;
    assert_eq!(e.message(), "unsupported payment method");
    let e = Error::NetworkError(String::from("connection refused"));
    assert_eq!(e.message(), "connection refused");
    let e = Error::ApiError(ApiError::Other {
        status: 403,
        error_code: String::from("901"),
        message: String::from("Invalid Merchant Account"),
        error_type: String::from("security"),
        psp_reference: None,
    });
    assert_eq!(e.message(), "Invalid Merchant Account");
}

#[test]
fn api_error_builds_from_its_parts() {
    let e = ApiError::from((
        422u16,
        String::from("100"),
        String::from("msg"),
        String::from("validation"),
        None,
    ));
    assert_eq!(
        e,
        ApiError::Other {
            status: 422,
            error_code: String::from("100"),
            message: String::from("msg"),
            error_type: String::from("validation"),
            psp_reference: None,
        }
    );
}
