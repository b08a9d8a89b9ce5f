use planchet::classify_response;
use planchet::parse_api_error;
use planchet::BodyDecode;
use planchet::status_is_success;
use planchet::Error;
use planchet::KnownApiError;

#[test]
fn known_api_error_mapping_test() {
    assert_eq!(
        KnownApiError::from_status(400),
        Some(KnownApiError::InvalidParameter)
    );
    assert_eq!(
        KnownApiError::from_status(401),
        Some(KnownApiError::Unauthorized)
    );
    assert_eq!(KnownApiError::from_status(404), Some(KnownApiError::NotFound));
    assert_eq!(
        KnownApiError::from_status(429),
        Some(KnownApiError::RateLimitExceeded)
    );
    assert_eq!(
        KnownApiError::from_status(501),
        Some(KnownApiError::NoUserAssociatedWithApiKey)
    );
    assert_eq!(KnownApiError::from_status(500), None);
    assert_eq!(KnownApiError::from_status(418), None);
    assert_eq!(KnownApiError::from_status(403), None);
}

#[test]
fn parse_api_error_known_kinds_test() {
    for (status, kind) in [
        (400u16, KnownApiError::InvalidParameter),
        (401, KnownApiError::Unauthorized),
        (404, KnownApiError::NotFound),
        (429, KnownApiError::RateLimitExceeded),
        (501, KnownApiError::NoUserAssociatedWithApiKey),
    ] {
        let e = parse_api_error(status, "boom".to_string());
        match e {
            Error::ApiError(a) => {
                assert_eq!(a.status, status);
                assert_eq!(a.message, "boom");
                assert_eq!(a.kind, Some(kind));
            }
            _ => panic!("expected an ApiError"),
        }
    }
}

#[test]
fn parse_api_error_generic_test() {
    let e = parse_api_error(500, "Internal Server Error".to_string());
    match e {
        Error::ApiError(a) => {
            assert_eq!(a.status, 500);
            assert_eq!(a.message, "Internal Server Error");
            assert_eq!(a.kind, None);
        }
        _ => panic!("expected an ApiError"),
    }

    let e = parse_api_error(418, "teapot".to_string());
    match e {
        Error::ApiError(a) => {
            assert_eq!(a.status, 418);
            assert_eq!(a.message, "teapot");
            assert_eq!(a.kind, None);
        }
        _ => panic!("expected an ApiError"),
    }
}

#[test]
fn api_error_predicates_test() {
    let invalid = match parse_api_error(400, "bad".to_string()) {
        Error::ApiError(a) => a,
        _ => panic!("expected an ApiError"),
    };
    assert!(invalid.is_invalid_parameter());
    assert!(!invalid.is_unauthorized());
    assert!(!invalid.is_not_found());
    assert!(!invalid.is_rate_limit_exceeded());
    assert!(!invalid.is_no_user_associated_with_api_key());

    let unauthorized = match parse_api_error(401, "no".to_string()) {
        Error::ApiError(a) => a,
        _ => panic!("expected an ApiError"),
    };
    assert!(unauthorized.is_unauthorized());

    let not_found = match parse_api_error(404, "gone".to_string()) {
        Error::ApiError(a) => a,
        _ => panic!("expected an ApiError"),
    };
    assert!(not_found.is_not_found());

    let rate_limited = match parse_api_error(429, "slow down".to_string()) {
        Error::ApiError(a) => a,
        _ => panic!("expected an ApiError"),
    };
    assert!(rate_limited.is_rate_limit_exceeded());

    let no_user = match parse_api_error(501, "no user".to_string()) {
        Error::ApiError(a) => a,
        _ => panic!("expected an ApiError"),
    };
    assert!(no_user.is_no_user_associated_with_api_key());
}

#[test]
fn status_is_success_test() {
    assert!(status_is_success(200));
    assert!(status_is_success(204));
    assert!(status_is_success(299));
    assert!(!status_is_success(199));
    assert!(!status_is_success(300));
    assert!(!status_is_success(404));
    assert!(!status_is_success(0));
}

#[test]
fn error_display_string_test() {
    assert_eq!(
        Error::ApiKeyMissing.display_string(),
        "Numista API key is required"
    );
    assert_eq!(
        Error::Request("connection refused".to_string()).display_string(),
        "Request error: connection refused"
    );
    assert_eq!(
        Error::Json("expected value".to_string()).display_string(),
        "JSON error: expected value"
    );
    let e = parse_api_error(404, "Not found".to_string());
    assert_eq!(e.display_string(), "API error (status 404): Not found");
}

#[test]
fn classify_response_success_test() {
    let r: Result<i64, Error> = classify_response(200, BodyDecode::Expected(Ok(42)));
    assert_eq!(r.unwrap(), 42);

    let r: Result<i64, Error> =
        classify_response(200, BodyDecode::Expected(Err("expected value".to_string())));
    assert_eq!(r.unwrap_err(), Error::Json("expected value".to_string()));
}

#[test]
fn classify_response_failure_test() {
    let r: Result<i64, Error> =
        classify_response(429, BodyDecode::ErrorMessage(Ok("slow down".to_string())));
    match r.unwrap_err() {
        Error::ApiError(a) => {
            assert_eq!(a.status, 429);
            assert_eq!(a.message, "slow down");
            assert_eq!(a.kind, Some(KnownApiError::RateLimitExceeded));
        }
        _ => panic!("expected an ApiError"),
    }

    let r: Result<i64, Error> =
        classify_response(500, BodyDecode::ErrorMessage(Err("bad envelope".to_string())));
    assert_eq!(r.unwrap_err(), Error::Json("bad envelope".to_string()));
}
