//! Reading an answer whose result is a text, and the payload shape that
//! never decodes.

use rpc_errors::error_in_response::{Outcome, RpcRequest, RpcResponse, RpcResponseError};
use rpc_errors::fail_to_parse::Todo;

fn reported(message: &str) -> Option<RpcResponseError> {
    Some(RpcResponseError { message: message.to_string() })
}

#[test]
fn text_request_is_the_fixed_call() {
    let request = RpcRequest::new();
    assert_eq!(request.method, "unknown");
    assert_eq!(request.params.0, "123abc");
    assert_eq!(request.params.1, "987xyz");
}

#[test]
fn error_alone_is_a_server_error() {
    let answer = RpcResponse { result: None, error: reported("Method not found") };
    assert_eq!(answer.outcome(), Outcome::ServerError("Method not found".to_string()));
}

#[test]
fn error_counts_before_result() {
    let answer = RpcResponse { result: Some("ok".to_string()), error: reported("bad params") };
    assert_eq!(answer.outcome(), Outcome::ServerError("bad params".to_string()));
}

#[test]
fn result_alone_is_the_result() {
    let answer = RpcResponse { result: Some("ok".to_string()), error: None };
    assert_eq!(answer.outcome(), Outcome::Result("ok".to_string()));
}

#[test]
fn neither_is_told_apart() {
    let answer = RpcResponse { result: None, error: None };
    assert_eq!(answer.outcome(), Outcome::Neither);
}

#[test]
fn outcome_leaves_the_answer_in_place() {
    let answer = RpcResponse { result: Some("ok".to_string()), error: None };
    let first = answer.outcome();
    let second = answer.outcome();
    assert_eq!(first, second);
    assert_eq!(answer.result.as_deref(), Some("ok"));
}

#[test]
fn todo_holds_its_flag() {
    let todo = Todo { cannot_parse: true };
    assert!(todo.cannot_parse);
    assert_ne!(todo, Todo { cannot_parse: false });
}
