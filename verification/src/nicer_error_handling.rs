//! The typed response handler: one pipeline of four stages that turns the
//! outcome of a request into the expected payload or into one [`AppError`].
//!
//! The stages run strictly in order and the first failure ends the run:
//! transport, HTTP status, decoding of the body, meaning of the payload.
//! Sending the request and decoding JSON are left to the caller: the pipeline
//! takes what the request issuer returned, and a decoder that it calls on the
//! body once the status code has passed.

use crate::issuer::{RawResponse, TransportError};
use vstd::prelude::*;
use vstd::string::StringExecFns;

verus! {

/// The body of an outgoing call: a method name and two parameters.
#[derive(Debug, Clone, Copy, PartialEq, Eq)]
pub struct RpcRequest {
    pub method: &'static str,
    pub params: (&'static str, &'static str),
}

impl RpcRequest {
    /// The fixed request of the demonstration: a method that the server does
    /// not know, with two opaque parameters.
    pub fn new() -> (request: Self)
        ensures
            request.method@ == "unknown"@,
            request.params.0@ == "123abc"@,
            request.params.1@ == "987xyz"@,
    {
        Self { method: "unknown", params: ("123abc", "987xyz") }
    }
}

/// The error that a server reports inside a well-formed answer.
#[derive(Debug, Clone, PartialEq, Eq)]
pub struct RpcResponseError {
    pub message: String,
}

/// A decoded answer. A server that keeps its contract fills exactly one of
/// the two fields; the wire format does not force it to.
#[derive(Debug, Clone, PartialEq, Eq)]
pub struct RpcResponse<T> {
    pub result: Option<T>,
    pub error: Option<RpcResponseError>,
}

impl<T> RpcResponse<T> {
    /// Whether the server kept its contract: exactly one of the two fields
    /// is filled.
    pub open spec fn keeps_contract(self) -> bool {
        (self.result is Some) != (self.error is Some)
    }
}

/// An answer whose status code signals a client or server error.
#[derive(Debug, Clone, Copy, PartialEq, Eq, Structural)]
pub struct StatusError {
    pub status_code: u16,
}

/// Why a body could not be decoded into the expected shape, as the decoder
/// describes it.
#[derive(Debug, Clone, PartialEq, Eq)]
pub struct ParseError {
    pub detail: String,
}

/// Every way in which the pipeline can fail, one variant per layer.
#[derive(Debug, Clone, PartialEq, Eq)]
pub enum AppError {
    /// No HTTP answer was obtained.
    Tcp(TransportError),
    /// An answer was obtained, with a status code of 400 or more.
    HttpResponse(StatusError),
    /// The body did not decode into the expected shape.
    JsonParse(ParseError),
    /// The server reported an error of its own inside a well-formed answer.
    Message(String),
    /// The answer was well-formed and held neither a result nor an error.
    Unexpected(String),
}

/// The layer at which a run failed: the variant of an [`AppError`] without
/// what it carries.
#[derive(Debug, Clone, Copy, PartialEq, Eq, Structural)]
pub enum ErrorKind {
    Tcp,
    HttpResponse,
    JsonParse,
    Message,
    Unexpected,
}

/// An [`AppError`] as a mathematical value: texts as sequences of characters.
pub enum AppErrorView {
    Tcp(Seq<char>),
    HttpResponse(u16),
    JsonParse(Seq<char>),
    Message(Seq<char>),
    Unexpected(Seq<char>),
}

impl AppErrorView {
    /// The layer that this error belongs to.
    pub open spec fn kind(self) -> ErrorKind {
        match self {
            AppErrorView::Tcp(_) => ErrorKind::Tcp,
            AppErrorView::HttpResponse(_) => ErrorKind::HttpResponse,
            AppErrorView::JsonParse(_) => ErrorKind::JsonParse,
            AppErrorView::Message(_) => ErrorKind::Message,
            AppErrorView::Unexpected(_) => ErrorKind::Unexpected,
        }
    }
}

impl View for AppError {
    type V = AppErrorView;

    open spec fn view(&self) -> AppErrorView {
        match *self {
            AppError::Tcp(cause) => AppErrorView::Tcp(cause.detail@),
            AppError::HttpResponse(cause) => AppErrorView::HttpResponse(cause.status_code),
            AppError::JsonParse(cause) => AppErrorView::JsonParse(cause.detail@),
            AppError::Message(text) => AppErrorView::Message(text@),
            AppError::Unexpected(text) => AppErrorView::Unexpected(text@),
        }
    }
}

impl AppError {
    /// The layer at which the run failed.
    pub fn kind(&self) -> (kind: ErrorKind)
        ensures
            kind == self@.kind(),
    {
        match self {
            AppError::Tcp(_) => ErrorKind::Tcp,
            AppError::HttpResponse(_) => ErrorKind::HttpResponse,
            AppError::JsonParse(_) => ErrorKind::JsonParse,
            AppError::Message(_) => ErrorKind::Message,
            AppError::Unexpected(_) => ErrorKind::Unexpected,
        }
    }
}

/// The first status code that counts as a failure.
pub const FIRST_ERROR_STATUS: u16 = 400;

/// The diagnostic of an answer that holds neither a result nor an error.
pub const NEITHER_RESULT_NOR_ERROR: &'static str =
    "Expected either a result or an error in the RPC response object and found neither";

/// A result of the pipeline with its error, if any, taken by its view.
pub open spec fn viewed<T>(result: Result<T, AppError>) -> Result<T, AppErrorView> {
    match result {
        Ok(value) => Ok(value),
        Err(error) => Err(error@),
    }
}

/// The terminal state of a run: `None` for the one success state, else the
/// layer that failed.
pub open spec fn classification<T>(outcome: Result<T, AppErrorView>) -> Option<ErrorKind> {
    match outcome {
        Ok(_) => None,
        Err(error) => Some(error.kind()),
    }
}

/// What the transport stage makes of the issuer's outcome.
pub open spec fn transport_outcome<R>(outcome: Result<R, TransportError>) -> Result<
    R,
    AppErrorView,
> {
    match outcome {
        Err(cause) => Err(AppErrorView::Tcp(cause.detail@)),
        Ok(answer) => Ok(answer),
    }
}

/// What the status stage makes of a status code: 400 and above fail.
pub open spec fn status_outcome(status_code: u16) -> Result<(), AppErrorView> {
    if status_code >= FIRST_ERROR_STATUS {
        Err(AppErrorView::HttpResponse(status_code))
    } else {
        Ok(())
    }
}

/// What the parse stage makes of the decoder's outcome.
pub open spec fn parse_outcome<V>(decoded: Result<V, ParseError>) -> Result<V, AppErrorView> {
    match decoded {
        Err(cause) => Err(AppErrorView::JsonParse(cause.detail@)),
        Ok(value) => Ok(value),
    }
}

/// What the payload stage makes of a decoded answer.
pub open spec fn payload_outcome<T>(answer: RpcResponse<T>) -> Result<T, AppErrorView> {
    match (answer.error, answer.result) {
        (Some(error), _) => Err(AppErrorView::Message(error.message@)),
        (None, Some(value)) => Ok(value),
        (None, None) => Err(AppErrorView::Unexpected(NEITHER_RESULT_NOR_ERROR@)),
    }
}

/// What the last two stages make of the decoder's outcome.
pub open spec fn decoded_outcome<T>(decoded: Result<RpcResponse<T>, ParseError>) -> Result<
    T,
    AppErrorView,
> {
    match parse_outcome(decoded) {
        Err(error) => Err(error),
        Ok(answer) => payload_outcome(answer),
    }
}

/// Whether `result` is what the pipeline owes for the issuer's `outcome`
/// and the decoder `decode`: the transport failure, else the failing status,
/// else what the last two stages make of something that `decode` may return
/// on the body.
pub open spec fn handled<T, D>(
    outcome: Result<RawResponse, TransportError>,
    decode: D,
    result: Result<T, AppError>,
) -> bool where D: FnOnce(Vec<u8>) -> Result<RpcResponse<T>, ParseError> {
    match outcome {
        Err(cause) => viewed(result) == Err::<T, AppErrorView>(AppErrorView::Tcp(cause.detail@)),
        Ok(response) => if response.status_code >= FIRST_ERROR_STATUS {
            viewed(result) == Err::<T, AppErrorView>(
                AppErrorView::HttpResponse(response.status_code),
            )
        } else {
            exists|decoded: Result<RpcResponse<T>, ParseError>|
                #[trigger] decode.ensures((response.body_bytes,), decoded) && viewed(result)
                    == decoded_outcome(decoded)
        },
    }
}

/// Transport stage: a failure of the issuer becomes [`AppError::Tcp`] with
/// its cause; an answer passes unchanged, whatever its status.
pub fn transport_stage<R>(outcome: Result<R, TransportError>) -> (result: Result<R, AppError>)
    ensures
        viewed(result) == transport_outcome(outcome),
{
    match outcome {
        Err(cause) => Err(AppError::Tcp(cause)),
        Ok(answer) => Ok(answer),
    }
}

/// Status stage: a status code of 400 or more becomes
/// [`AppError::HttpResponse`] with that code; any other code passes.
pub fn status_stage(status_code: u16) -> (result: Result<(), AppError>)
    ensures
        viewed(result) == status_outcome(status_code),
{
    if status_code >= FIRST_ERROR_STATUS {
        Err(AppError::HttpResponse(StatusError { status_code }))
    } else {
        Ok(())
    }
}

/// Parse stage: a failure of the decoder becomes [`AppError::JsonParse`]
/// with its cause; a decoded value passes unchanged.
pub fn parse_stage<V>(decoded: Result<V, ParseError>) -> (result: Result<V, AppError>)
    ensures
        viewed(result) == parse_outcome(decoded),
{
    match decoded {
        Err(cause) => Err(AppError::JsonParse(cause)),
        Ok(value) => Ok(value),
    }
}

/// Payload stage: a reported error counts before any result, a result alone
/// is the success value, and an answer with neither is an anomaly.
pub fn payload_stage<T>(answer: RpcResponse<T>) -> (result: Result<T, AppError>)
    ensures
        viewed(result) == payload_outcome(answer),
{
    if let Some(error) = answer.error {
        Err(AppError::Message(error.message))
    } else if let Some(value) = answer.result {
        Ok(value)
    } else {
        Err(AppError::Unexpected(String::from_str(NEITHER_RESULT_NOR_ERROR)))
    }
}

/// Runs the four stages on the issuer's outcome and returns the payload or
/// the first failure.
///
/// `decode` turns a body into an answer or says why it cannot. It is called
/// at most once, on the body of an answer whose status code has passed: that
/// is the only call for which its precondition is asked, so after a transport
/// failure or a failing status the body is never looked at.
pub fn handle_request<T, D>(outcome: Result<RawResponse, TransportError>, decode: D) -> (result:
    Result<T, AppError>) where D: FnOnce(Vec<u8>) -> Result<RpcResponse<T>, ParseError>
    requires
        outcome matches Ok(response) ==> response.status_code < FIRST_ERROR_STATUS
            ==> decode.requires((response.body_bytes,)),
    ensures
        handled(outcome, decode, result),
{
    let response = transport_stage(outcome)?;
    status_stage(response.status_code)?;
    let answer = parse_stage(decode(response.body_bytes))?;
    payload_stage(answer)
}

} // verus!
