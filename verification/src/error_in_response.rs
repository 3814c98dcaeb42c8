//! The request and the answer of the RPC exchange, with the rule that reads
//! an answer: a reported error counts before a result, and an answer with
//! neither is an anomaly of its own.

use vstd::prelude::*;

verus! {

/// The body of an outgoing call: a method name and two parameters.
#[derive(Debug, Clone, Copy, PartialEq, Eq)]
pub struct RpcRequest {
    pub method: &'static str,
    pub params: (&'static str, &'static str),
}

impl RpcRequest {
    /// The fixed request of the demonstration: a method that the server does
    /// not know, with two opaque parameters.
    pub fn new() -> (request: Self)
        ensures
            request.method@ == "unknown"@,
            request.params.0@ == "123abc"@,
            request.params.1@ == "987xyz"@,
    {
        Self { method: "unknown", params: ("123abc", "987xyz") }
    }
}

/// The error that a server reports inside a well-formed answer.
#[derive(Debug, Clone, PartialEq, Eq)]
pub struct RpcResponseError {
    pub message: String,
}

/// A decoded answer whose result, if any, is a text.
#[derive(Debug, Clone, PartialEq, Eq)]
pub struct RpcResponse {
    pub result: Option<String>,
    pub error: Option<RpcResponseError>,
}

/// What an answer amounts to.
#[derive(Debug, Clone, PartialEq, Eq)]
pub enum Outcome {
    /// The server reported an error, with this message.
    ServerError(String),
    /// The server reported no error and sent this result.
    Result(String),
    /// The answer holds neither an error nor a result.
    Neither,
}

impl RpcResponse {
    /// What this answer amounts to: a reported error counts before any
    /// result, and an answer with neither is told apart from both.
    pub open spec fn outcome_of(self) -> Outcome {
        match (self.error, self.result) {
            (Some(error), _) => Outcome::ServerError(error.message),
            (None, Some(result)) => Outcome::Result(result),
            (None, None) => Outcome::Neither,
        }
    }

    /// Reads the answer as [`RpcResponse::outcome_of`] says.
    pub fn outcome(&self) -> (outcome: Outcome)
        ensures
            outcome == self.outcome_of(),
    {
        if let Some(error) = &self.error {
            Outcome::ServerError(error.message.clone())
        } else if let Some(result) = &self.result {
            Outcome::Result(result.clone())
        } else {
            Outcome::Neither
        }
    }
}

} // verus!
