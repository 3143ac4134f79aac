use std::collections::HashMap;

use papyrus_storage::client::{
    absent_on, final_error, uses_default_compiled_class, get_retry_error_code, response_kind, should_retry, ClientError, RequestFailure,
    ResponseKind, RetryErrorCode, StarknetError, StarknetErrorCode,
};
use papyrus_storage::converters::{parse_optional_map, serialize_optional_map, split_str};
use papyrus_storage::types::{ClassHash, StarkHash};

fn status(code: u16) -> ClientError {
    ClientError::BadResponseStatus { code, message: String::from("m") }
}

fn failure(is_timeout: bool, is_request: bool, is_connect: bool, is_redirect: bool) -> ClientError {
    ClientError::RequestError {
        failure: RequestFailure { is_timeout, is_request, is_connect, is_redirect },
        message: String::from("m"),
    }
}

#[test]
fn status_codes_that_may_be_retried() {
    assert_eq!(get_retry_error_code(&status(307)), Some(RetryErrorCode::Redirect));
    assert_eq!(get_retry_error_code(&status(408)), Some(RetryErrorCode::Timeout));
    assert_eq!(get_retry_error_code(&status(504)), Some(RetryErrorCode::Timeout));
    assert_eq!(get_retry_error_code(&status(429)), Some(RetryErrorCode::TooManyRequests));
    assert_eq!(get_retry_error_code(&status(503)), Some(RetryErrorCode::ServiceUnavailable));
    assert_eq!(get_retry_error_code(&status(404)), None);
    assert_eq!(get_retry_error_code(&status(500)), None);
}

#[test]
fn request_failures_that_may_be_retried() {
    assert_eq!(get_retry_error_code(&failure(true, true, true, true)), Some(RetryErrorCode::Timeout));
    assert_eq!(get_retry_error_code(&failure(false, true, true, true)), None);
    assert_eq!(
        get_retry_error_code(&failure(false, false, true, true)),
        Some(RetryErrorCode::Disconnect)
    );
    assert_eq!(
        get_retry_error_code(&failure(false, false, false, true)),
        Some(RetryErrorCode::Redirect)
    );
    assert_eq!(get_retry_error_code(&failure(false, false, false, false)), None);
}

#[test]
fn other_errors_are_not_retried() {
    let e = ClientError::StarknetError(StarknetError {
        code: StarknetErrorCode::BlockNotFound,
        message: String::from("no block"),
    });
    assert!(!should_retry(&e));
    assert!(should_retry(&status(503)));
    assert!(!should_retry(&ClientError::SerdeError { message: String::new() }));
}

#[test]
fn final_error_wraps_retryable_errors() {
    match final_error(status(429), String::from("too many")) {
        ClientError::RetryError { code, message } => {
            assert_eq!(code, RetryErrorCode::TooManyRequests);
            assert_eq!(message, "too many");
        }
        other => panic!("unexpected {other:?}"),
    }
    match final_error(status(404), String::from("gone")) {
        ClientError::BadResponseStatus { code, .. } => assert_eq!(code, 404),
        other => panic!("unexpected {other:?}"),
    }
}

#[test]
fn response_kinds() {
    assert_eq!(response_kind(200), ResponseKind::Success);
    assert_eq!(response_kind(400), ResponseKind::GatewayError);
    assert_eq!(response_kind(500), ResponseKind::GatewayError);
    assert_eq!(response_kind(404), ResponseKind::BadStatus);
}

#[test]
fn optional_map_serialization() {
    assert_eq!(serialize_optional_map(&None), "");
    let mut m = HashMap::new();
    assert_eq!(serialize_optional_map(&Some(m.clone())), "");
    m.insert(String::from("a"), String::from("1"));
    assert_eq!(serialize_optional_map(&Some(m.clone())), "a:1");
    m.insert(String::from("b"), String::from("2"));
    let s = serialize_optional_map(&Some(m));
    assert!(s == "a:1 b:2" || s == "b:2 a:1", "{s}");
}

#[test]
fn optional_map_parsing() {
    assert_eq!(parse_optional_map(""), Ok(None));
    assert_eq!(
        parse_optional_map("a:1 b:2"),
        Ok(Some(vec![
            (String::from("a"), String::from("1")),
            (String::from("b"), String::from("2"))
        ]))
    );
    assert_eq!(parse_optional_map("k:"), Ok(Some(vec![(String::from("k"), String::new())])));
    assert_eq!(parse_optional_map("a:1 b"), Err(String::from("b")));
    assert_eq!(parse_optional_map("a:1:2 b"), Err(String::from("a:1:2")));
    assert_eq!(parse_optional_map("a:1  b:2"), Err(String::new()));
}

#[test]
fn split_keeps_empty_pieces() {
    assert_eq!(split_str("", ' '), vec![String::new()]);
    assert_eq!(split_str(" x ", ' '), vec![String::new(), String::from("x"), String::new()]);
    assert_eq!(split_str("aé:b", ':'), vec![String::from("aé"), String::from("b")]);
}

#[test]
fn lookups_that_find_nothing() {
    assert_eq!(
        absent_on(Ok(String::from("{}")), StarknetErrorCode::BlockNotFound).unwrap(),
        Some(String::from("{}"))
    );
    let missing = ClientError::StarknetError(StarknetError {
        code: StarknetErrorCode::BlockNotFound,
        message: String::new(),
    });
    assert_eq!(absent_on(Err(missing), StarknetErrorCode::BlockNotFound).unwrap(), None);
    let other = ClientError::StarknetError(StarknetError {
        code: StarknetErrorCode::UndeclaredClass,
        message: String::new(),
    });
    match absent_on(Err(other), StarknetErrorCode::BlockNotFound) {
        Err(ClientError::StarknetError(e)) => assert_eq!(e.code, StarknetErrorCode::UndeclaredClass),
        other => panic!("unexpected {other:?}"),
    }
    assert!(absent_on(Err(status(503)), StarknetErrorCode::UndeclaredClass).is_err());
}

#[test]
fn default_compiled_classes() {
    let h = ClassHash(StarkHash(
        0x00d6916ff38c93f8,
        0x34e7223a95b41d45,
        0x42152d8288ff388b,
        0x5d3dcdf8126a784a,
    ));
    assert!(uses_default_compiled_class(&h));
    assert!(!uses_default_compiled_class(&ClassHash(StarkHash(0, 0, 0, 1))));
}
