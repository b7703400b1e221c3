use blc::api::{login_token, return_response};
use blc::error::ClientError;
use blc::response::{classify, outcome_message, Outcome, Response};

fn envelope(code: &str) -> Response<()> {
    Response::new(code.to_string(), None)
}

#[test]
fn success_code_classifies_as_success() {
    let r = envelope("OK");
    assert_eq!(r.outcome(), Outcome::Success);
    assert_eq!(r.message(), "OK");
    assert_eq!(r.code(), "OK");
}

#[test]
fn named_codes_have_fixed_messages() {
    let cases = [
        ("UNIMPLEMENTED", Outcome::Unimplemented, "This feature has not been implemented yet, and the operation is not supported."),
        ("UNAUTHORISED", Outcome::Unauthorised, "The user is not authorized to perform this action."),
        ("INTERNAL_SERVICE_ERROR", Outcome::InternalServiceError, "An internal system error occurred. Please try again later."),
        ("INVALID_PARAMETERS", Outcome::InvalidParameters, "The request contains invalid parameters."),
        ("INVALID_ACTION", Outcome::InvalidAction, "The action is invalid or unsupported."),
        ("RESOURCE_NOT_EXIST", Outcome::ResourceNotExist, "The requested resource does not exist."),
    ];
    for (code, outcome, message) in cases {
        assert_eq!(classify(&code.to_string()), outcome);
        assert_eq!(envelope(code).message(), message);
        assert_eq!(outcome_message(outcome), message);
    }
}

#[test]
fn unknown_code_is_failure_with_empty_message() {
    assert_eq!(classify(&"ok".to_string()), Outcome::Unknown);
    assert_eq!(envelope("TEAPOT").message(), "");
    assert_eq!(envelope("").outcome(), Outcome::Unknown);
}

#[test]
fn data_is_kept() {
    let r = Response::new("OK".to_string(), Some(5u32));
    assert_eq!(r.data(), &Some(5));
    assert_eq!(r.into_data(), Some(5));
}

#[test]
fn return_response_passes_success() {
    let r = return_response(Response::new("OK".to_string(), Some(1u8))).unwrap();
    assert_eq!(r.data(), &Some(1));
}

#[test]
fn return_response_rejects_failure_code() {
    match return_response(envelope("RESOURCE_NOT_EXIST")) {
        Err(ClientError::ResponseError { code, message }) => {
            assert_eq!(code, "RESOURCE_NOT_EXIST");
            assert_eq!(message, "The requested resource does not exist.");
        }
        other => panic!("unexpected {:?}", other),
    }
    match return_response(envelope("WHAT")) {
        Err(ClientError::ResponseError { code, message }) => {
            assert_eq!(code, "WHAT");
            assert_eq!(message, "");
        }
        other => panic!("unexpected {:?}", other),
    }
}

#[test]
fn login_success_without_header_is_service_error() {
    let r = login_token(envelope("OK"), None);
    assert!(matches!(r, Err(ClientError::ServiceError)));
}

#[test]
fn login_success_with_header_gives_token() {
    let r = login_token(envelope("OK"), Some("tok123".to_string()));
    assert_eq!(r.unwrap(), "tok123");
}

#[test]
fn login_rejected_reports_code() {
    let r = login_token(envelope("UNAUTHORISED"), Some("tok".to_string()));
    assert!(matches!(r, Err(ClientError::ResponseError { .. })));
}

#[test]
fn error_messages() {
    assert_eq!(ClientError::UnAuth.message(), "You must login first.\n");
    assert_eq!(
        ClientError::ServiceError.message(),
        "The api response is OK, but the response header lacks necessary data."
    );
    let e = ClientError::ResponseError { code: "X".to_string(), message: "boom".to_string() };
    assert_eq!(e.message(), "boom");
    let io = ClientError::from(std::io::Error::new(std::io::ErrorKind::Other, "disk"));
    assert_eq!(io.message(), "io error: disk");
}
