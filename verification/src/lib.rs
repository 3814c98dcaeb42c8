//! Layered error handling for a client that sends a request over HTTP and
//! expects a JSON-RPC style answer.
//!
//! Four layers can fail independently: the transport, the HTTP status, the
//! decoding of the body, and the server's own answer inside a well-formed
//! body. [`nicer_error_handling::handle_request`] walks through them in that
//! order and reports the first failure as one [`nicer_error_handling::AppError`].
//!
//! - [`issuer`]: what the collaborator that performs the network call is
//!   configured with and hands back.
//! - [`nicer_error_handling`]: the error taxonomy, the four stages and the
//!   pipeline.
//! - [`pipeline_laws`]: what holds of every run of the pipeline.
//! - [`diagnostics`]: the message of each error, and [`decimal`] for the
//!   status code in it.
//! - [`error_in_response`]: reading an answer whose result is a text.
//! - [`fail_to_parse`]: a payload shape that never decodes.

pub mod decimal;
pub mod diagnostics;
pub mod error_in_response;
pub mod fail_to_parse;
pub mod issuer;
pub mod nicer_error_handling;
pub mod pipeline_laws;
