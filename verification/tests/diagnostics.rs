//! The messages of the five kinds of failure, and the decimal notation that
//! one of them holds.

use rpc_errors::decimal::{append_decimal, decimal};
use rpc_errors::diagnostics::{
    HTTP_RESPONSE_PREFIX, JSON_PARSE_PREFIX, MESSAGE_PREFIX, SEPARATOR, STATUS_LABEL, TCP_PREFIX,
    UNEXPECTED_PREFIX,
};
use rpc_errors::issuer::{
    TimeoutConfig, TransportError, DEFAULT_CONNECT_TIMEOUT_SECS, DEFAULT_OVERALL_TIMEOUT_SECS,
};
use rpc_errors::nicer_error_handling::{
    AppError, ErrorKind, ParseError, StatusError, NEITHER_RESULT_NOR_ERROR,
};

fn one_of_each() -> Vec<AppError> {
    vec![
        AppError::Tcp(TransportError { detail: "connection refused".to_string() }),
        AppError::HttpResponse(StatusError { status_code: 404 }),
        AppError::JsonParse(ParseError { detail: "expected value".to_string() }),
        AppError::Message("bad params".to_string()),
        AppError::Unexpected(NEITHER_RESULT_NOR_ERROR.to_string()),
    ]
}

#[test]
fn tcp_message() {
    let error = AppError::Tcp(TransportError { detail: "connection refused".to_string() });
    assert_eq!(error.message(), "Unexpected TCP error:\nconnection refused");
}

#[test]
fn http_response_message() {
    let error = AppError::HttpResponse(StatusError { status_code: 404 });
    assert_eq!(
        error.message(),
        "Request came back with HTTP error response code:\nHTTP status 404"
    );
}

#[test]
fn json_parse_message() {
    let error = AppError::JsonParse(ParseError { detail: "expected value".to_string() });
    assert_eq!(error.message(), "Could not parse JSON response:\nexpected value");
}

#[test]
fn server_message() {
    let error = AppError::Message("bad params".to_string());
    assert_eq!(error.message(), "Error message in JSON response:\nbad params");
}

#[test]
fn unexpected_message() {
    let error = AppError::Unexpected(NEITHER_RESULT_NOR_ERROR.to_string());
    assert_eq!(
        error.message(),
        "An unexpected error occurred:\nExpected either a result or an error in the RPC response object and found neither"
    );
}

#[test]
fn causes_without_prefix() {
    let causes: Vec<String> = one_of_each().iter().map(AppError::cause).collect();
    assert_eq!(
        causes,
        vec![
            "connection refused",
            "HTTP status 404",
            "expected value",
            "bad params",
            "Expected either a result or an error in the RPC response object and found neither",
        ]
    );
}

#[test]
fn message_is_prefix_separator_cause() {
    for error in one_of_each() {
        let expected = format!("{}{}{}", error.kind().prefix(), SEPARATOR, error.cause());
        assert_eq!(error.message(), expected);
    }
}

#[test]
fn message_with_empty_cause() {
    assert_eq!(AppError::Message(String::new()).message(), "Error message in JSON response:\n");
}

#[test]
fn kinds_follow_the_variants() {
    let kinds: Vec<ErrorKind> = one_of_each().iter().map(AppError::kind).collect();
    assert_eq!(
        kinds,
        vec![
            ErrorKind::Tcp,
            ErrorKind::HttpResponse,
            ErrorKind::JsonParse,
            ErrorKind::Message,
            ErrorKind::Unexpected,
        ]
    );
}

#[test]
fn prefixes_are_fixed() {
    assert_eq!(ErrorKind::Tcp.prefix(), "Unexpected TCP error");
    assert_eq!(
        ErrorKind::HttpResponse.prefix(),
        "Request came back with HTTP error response code"
    );
    assert_eq!(ErrorKind::JsonParse.prefix(), "Could not parse JSON response");
    assert_eq!(ErrorKind::Message.prefix(), "Error message in JSON response");
    assert_eq!(ErrorKind::Unexpected.prefix(), "An unexpected error occurred");
    assert_eq!(TCP_PREFIX, ErrorKind::Tcp.prefix());
    assert_eq!(HTTP_RESPONSE_PREFIX, ErrorKind::HttpResponse.prefix());
    assert_eq!(JSON_PARSE_PREFIX, ErrorKind::JsonParse.prefix());
    assert_eq!(MESSAGE_PREFIX, ErrorKind::Message.prefix());
    assert_eq!(UNEXPECTED_PREFIX, ErrorKind::Unexpected.prefix());
    assert_eq!(SEPARATOR, ":\n");
    assert_eq!(STATUS_LABEL, "HTTP status ");
}

#[test]
fn message_tells_the_kind() {
    let all = [
        ErrorKind::Tcp,
        ErrorKind::HttpResponse,
        ErrorKind::JsonParse,
        ErrorKind::Message,
        ErrorKind::Unexpected,
    ];
    for error in one_of_each() {
        let message = error.message();
        for kind in all {
            assert_eq!(message.starts_with(kind.prefix()), kind == error.kind());
        }
    }
}

#[test]
fn message_of_one_kind_can_quote_another() {
    let error = AppError::Message("Unexpected TCP error:\nfake".to_string());
    let message = error.message();
    assert!(message.starts_with(MESSAGE_PREFIX));
    assert!(!message.starts_with(TCP_PREFIX));
}

#[test]
fn status_error_describes_itself() {
    assert_eq!(StatusError { status_code: 400 }.describe(), "HTTP status 400");
    assert_eq!(StatusError { status_code: 503 }.describe(), "HTTP status 503");
    assert_eq!(StatusError { status_code: 65535 }.describe(), "HTTP status 65535");
}

#[test]
fn decimal_of_small_and_large() {
    assert_eq!(decimal(0), "0");
    assert_eq!(decimal(7), "7");
    assert_eq!(decimal(9), "9");
    assert_eq!(decimal(10), "10");
    assert_eq!(decimal(99), "99");
    assert_eq!(decimal(100), "100");
    assert_eq!(decimal(404), "404");
    assert_eq!(decimal(1000), "1000");
    assert_eq!(decimal(12345), "12345");
    assert_eq!(decimal(60009), "60009");
    assert_eq!(decimal(u16::MAX), "65535");
}

#[test]
fn decimal_agrees_with_std_everywhere() {
    for n in 0..=u16::MAX {
        assert_eq!(decimal(n), n.to_string());
    }
}

#[test]
fn append_decimal_keeps_what_was_there() {
    let mut text = String::from("code ");
    append_decimal(&mut text, 429);
    append_decimal(&mut text, 0);
    assert_eq!(text, "code 4290");
}

#[test]
fn default_timeouts() {
    let config = TimeoutConfig::default();
    assert_eq!(config, TimeoutConfig { connect_secs: 10, overall_secs: 30 });
    assert_eq!(DEFAULT_CONNECT_TIMEOUT_SECS, 10);
    assert_eq!(DEFAULT_OVERALL_TIMEOUT_SECS, 30);
}
