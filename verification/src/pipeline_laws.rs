//! What holds of every run of the pipeline, stated over the contract of
//! [`handle_request`](crate::nicer_error_handling::handle_request).
//!
//! A run is given by the issuer's outcome, the decoder and the result; the
//! decoder is known only through what it may return on a body.

use crate::issuer::{RawResponse, TransportError};
use crate::nicer_error_handling::{
    classification, handled, payload_outcome, viewed, AppError, AppErrorView, ErrorKind,
    ParseError, RpcResponse, FIRST_ERROR_STATUS, NEITHER_RESULT_NOR_ERROR,
};
use vstd::prelude::*;

verus! {

/// Whether two outcomes of the issuer are the same but for the text of a
/// transport failure.
pub open spec fn same_but_for_cause(
    first: Result<RawResponse, TransportError>,
    second: Result<RawResponse, TransportError>,
) -> bool {
    match (first, second) {
        (Err(_), Err(_)) => true,
        (Ok(one), Ok(other)) => one == other,
        _ => false,
    }
}

/// Whether `decode`, called twice on one body, fails both times or returns
/// the same answer both times.
pub open spec fn repeatable<T, D>(decode: D) -> bool where
    D: FnOnce(Vec<u8>) -> Result<RpcResponse<T>, ParseError>,
 {
    forall|
        body: Vec<u8>,
        one: Result<RpcResponse<T>, ParseError>,
        other: Result<RpcResponse<T>, ParseError>,
    |
        #[trigger] decode.ensures((body,), one) && #[trigger] decode.ensures((body,), other)
            ==> one == other || (one is Err && other is Err)
}

/// When the issuer fails before an answer exists, the run ends in `Tcp`
/// with the issuer's cause, whatever the decoder is.
pub proof fn lemma_transport_failure_is_tcp<T, D>(
    cause: TransportError,
    decode: D,
    result: Result<T, AppError>,
) where D: FnOnce(Vec<u8>) -> Result<RpcResponse<T>, ParseError>
    requires
        handled(Err(cause), decode, result),
    ensures
        viewed(result) == Err::<T, AppErrorView>(AppErrorView::Tcp(cause.detail@)),
        classification(viewed(result)) == Some(ErrorKind::Tcp),
{
}

/// An answer with a status code of 400 or more ends the run in
/// `HttpResponse` with that code, whatever the body and the decoder are.
pub proof fn lemma_error_status_is_http_response<T, D>(
    response: RawResponse,
    decode: D,
    result: Result<T, AppError>,
) where D: FnOnce(Vec<u8>) -> Result<RpcResponse<T>, ParseError>
    requires
        response.status_code >= FIRST_ERROR_STATUS,
        handled(Ok(response), decode, result),
    ensures
        viewed(result) == Err::<T, AppErrorView>(AppErrorView::HttpResponse(response.status_code)),
        classification(viewed(result)) == Some(ErrorKind::HttpResponse),
{
}

/// Under a status code of 400 or more the body plays no part: two answers
/// with the same such code end alike, with different bodies and different
/// decoders.
pub proof fn lemma_error_status_ignores_body<T, D, E>(
    first: RawResponse,
    second: RawResponse,
    decode_first: D,
    decode_second: E,
    result_first: Result<T, AppError>,
    result_second: Result<T, AppError>,
) where
    D: FnOnce(Vec<u8>) -> Result<RpcResponse<T>, ParseError>,
    E: FnOnce(Vec<u8>) -> Result<RpcResponse<T>, ParseError>,

    requires
        first.status_code >= FIRST_ERROR_STATUS,
        first.status_code == second.status_code,
        handled(Ok(first), decode_first, result_first),
        handled(Ok(second), decode_second, result_second),
    ensures
        viewed(result_first) == viewed(result_second),
{
}

/// When the status code passes and the decoder can only fail on the body,
/// the run ends in `JsonParse`, with a cause that the decoder gave.
pub proof fn lemma_undecodable_body_is_json_parse<T, D>(
    response: RawResponse,
    decode: D,
    result: Result<T, AppError>,
) where D: FnOnce(Vec<u8>) -> Result<RpcResponse<T>, ParseError>
    requires
        response.status_code < FIRST_ERROR_STATUS,
        forall|decoded: Result<RpcResponse<T>, ParseError>| #[trigger]
            decode.ensures((response.body_bytes,), decoded) ==> decoded is Err,
        handled(Ok(response), decode, result),
    ensures
        classification(viewed(result)) == Some(ErrorKind::JsonParse),
        exists|cause: ParseError| #[trigger]
            decode.ensures((response.body_bytes,), Err::<RpcResponse<T>, ParseError>(cause))
                && viewed(result) == Err::<T, AppErrorView>(
                AppErrorView::JsonParse(cause.detail@),
            ),
{
}

/// When the status code passes and the decoded answer holds an error, the
/// run ends in `Message` with the text of that error, whether or not the
/// answer holds a result as well.
pub proof fn lemma_reported_error_is_message<T, D>(
    response: RawResponse,
    decode: D,
    message: Seq<char>,
    result: Result<T, AppError>,
) where D: FnOnce(Vec<u8>) -> Result<RpcResponse<T>, ParseError>
    requires
        response.status_code < FIRST_ERROR_STATUS,
        forall|decoded: Result<RpcResponse<T>, ParseError>| #[trigger]
            decode.ensures((response.body_bytes,), decoded) ==> {
                &&& decoded matches Ok(answer)
                &&& answer.error matches Some(error)
                &&& error.message@ == message
            },
        handled(Ok(response), decode, result),
    ensures
        viewed(result) == Err::<T, AppErrorView>(AppErrorView::Message(message)),
{
}

/// When the status code passes and the decoded answer holds a result and no
/// error, the run succeeds with that result.
pub proof fn lemma_result_alone_is_success<T, D>(
    response: RawResponse,
    decode: D,
    value: T,
    result: Result<T, AppError>,
) where D: FnOnce(Vec<u8>) -> Result<RpcResponse<T>, ParseError>
    requires
        response.status_code < FIRST_ERROR_STATUS,
        forall|decoded: Result<RpcResponse<T>, ParseError>| #[trigger]
            decode.ensures((response.body_bytes,), decoded) ==> {
                &&& decoded matches Ok(answer)
                &&& answer.error is None
                &&& answer.result == Some(value)
            },
        handled(Ok(response), decode, result),
    ensures
        result == Ok::<T, AppError>(value),
{
}

/// When the status code passes and the decoded answer holds neither a
/// result nor an error, the run ends in `Unexpected` with the fixed
/// diagnostic.
pub proof fn lemma_empty_answer_is_unexpected<T, D>(
    response: RawResponse,
    decode: D,
    result: Result<T, AppError>,
) where D: FnOnce(Vec<u8>) -> Result<RpcResponse<T>, ParseError>
    requires
        response.status_code < FIRST_ERROR_STATUS,
        forall|decoded: Result<RpcResponse<T>, ParseError>| #[trigger]
            decode.ensures((response.body_bytes,), decoded) ==> {
                &&& decoded matches Ok(answer)
                &&& answer.error is None
                &&& answer.result is None
            },
        handled(Ok(response), decode, result),
    ensures
        viewed(result) == Err::<T, AppErrorView>(
            AppErrorView::Unexpected(NEITHER_RESULT_NOR_ERROR@),
        ),
{
}

/// Which terminal state the payload stage reaches depends only on which of
/// the two fields are filled: success when the result alone is, `Message`
/// whenever the error is, `Unexpected` when neither is. An answer that keeps
/// the contract of exactly one filled field therefore never ends in
/// `Unexpected`.
pub proof fn lemma_payload_follows_fields<T>(answer: RpcResponse<T>)
    ensures
        payload_outcome(answer) is Ok <==> answer.result is Some && answer.error is None,
        classification(payload_outcome(answer)) == Some(ErrorKind::Message)
            <==> answer.error is Some,
        classification(payload_outcome(answer)) == Some(ErrorKind::Unexpected)
            <==> answer.result is None && answer.error is None,
        answer.keeps_contract() ==> classification(payload_outcome(answer)) != Some(
            ErrorKind::Unexpected,
        ),
{
}

/// Two runs on the same input, with a decoder that is repeatable, end in
/// the same terminal state. The issuer and the decoder may word a failure
/// differently each time: only under `Tcp` and `JsonParse` can the two
/// results differ, and then only in the text of the cause.
pub proof fn lemma_repeated_run_classifies_alike<T, D>(
    outcome_first: Result<RawResponse, TransportError>,
    outcome_second: Result<RawResponse, TransportError>,
    decode: D,
    result_first: Result<T, AppError>,
    result_second: Result<T, AppError>,
) where D: FnOnce(Vec<u8>) -> Result<RpcResponse<T>, ParseError>
    requires
        same_but_for_cause(outcome_first, outcome_second),
        repeatable(decode),
        handled(outcome_first, decode, result_first),
        handled(outcome_second, decode, result_second),
    ensures
        classification(viewed(result_first)) == classification(viewed(result_second)),
        classification(viewed(result_first)) != Some(ErrorKind::Tcp) && classification(
            viewed(result_first),
        ) != Some(ErrorKind::JsonParse) ==> viewed(result_first) == viewed(result_second),
{
}

} // verus!
