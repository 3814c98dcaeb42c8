//! The message of an [`AppError`]: a fixed prefix that names the layer, a
//! separator, and the cause. The prefixes are chosen so that a message alone
//! tells the layer.

use crate::decimal::{append_decimal, digits};
use crate::nicer_error_handling::{AppError, AppErrorView, ErrorKind, StatusError};
use vstd::prelude::*;
use vstd::string::StringExecFns;

verus! {

/// The prefix of a transport failure.
pub const TCP_PREFIX: &'static str = "Unexpected TCP error";

/// The prefix of a failing status code.
pub const HTTP_RESPONSE_PREFIX: &'static str = "Request came back with HTTP error response code";

/// The prefix of a body that did not decode.
pub const JSON_PARSE_PREFIX: &'static str = "Could not parse JSON response";

/// The prefix of an error that the server reported.
pub const MESSAGE_PREFIX: &'static str = "Error message in JSON response";

/// The prefix of an answer with neither result nor error.
pub const UNEXPECTED_PREFIX: &'static str = "An unexpected error occurred";

/// What stands between the prefix and the cause.
pub const SEPARATOR: &'static str = ":\n";

/// What stands before the status code in the cause of a failing status.
pub const STATUS_LABEL: &'static str = "HTTP status ";

/// The cause of a failing status as text: the label and the code in decimal.
pub open spec fn status_text(status_code: u16) -> Seq<char> {
    STATUS_LABEL@ + digits(status_code as nat)
}

impl ErrorKind {
    /// The prefix of every message of this layer.
    pub open spec fn prefix_text(self) -> Seq<char> {
        match self {
            ErrorKind::Tcp => TCP_PREFIX@,
            ErrorKind::HttpResponse => HTTP_RESPONSE_PREFIX@,
            ErrorKind::JsonParse => JSON_PARSE_PREFIX@,
            ErrorKind::Message => MESSAGE_PREFIX@,
            ErrorKind::Unexpected => UNEXPECTED_PREFIX@,
        }
    }

    /// The prefix of every message of this layer.
    pub fn prefix(self) -> (text: &'static str)
        ensures
            text@ == self.prefix_text(),
    {
        match self {
            ErrorKind::Tcp => TCP_PREFIX,
            ErrorKind::HttpResponse => HTTP_RESPONSE_PREFIX,
            ErrorKind::JsonParse => JSON_PARSE_PREFIX,
            ErrorKind::Message => MESSAGE_PREFIX,
            ErrorKind::Unexpected => UNEXPECTED_PREFIX,
        }
    }
}

impl AppErrorView {
    /// The wrapped cause as text.
    pub open spec fn cause_text(self) -> Seq<char> {
        match self {
            AppErrorView::Tcp(detail) => detail,
            AppErrorView::HttpResponse(status_code) => status_text(status_code),
            AppErrorView::JsonParse(detail) => detail,
            AppErrorView::Message(text) => text,
            AppErrorView::Unexpected(text) => text,
        }
    }

    /// The whole message: prefix, separator, cause.
    pub open spec fn message(self) -> Seq<char> {
        self.kind().prefix_text() + SEPARATOR@ + self.cause_text()
    }
}

impl StatusError {
    /// The failing status as text.
    pub fn describe(&self) -> (text: String)
        ensures
            text@ == status_text(self.status_code),
    {
        let mut text = String::from_str(STATUS_LABEL);
        append_decimal(&mut text, self.status_code);
        text
    }
}

impl AppError {
    /// The cause that this error wraps, as text.
    pub fn cause(&self) -> (text: String)
        ensures
            text@ == self@.cause_text(),
    {
        match self {
            AppError::Tcp(cause) => cause.detail.clone(),
            AppError::HttpResponse(cause) => cause.describe(),
            AppError::JsonParse(cause) => cause.detail.clone(),
            AppError::Message(reported) => reported.clone(),
            AppError::Unexpected(diagnostic) => diagnostic.clone(),
        }
    }

    /// The message to show for this error: the prefix of its layer, the
    /// separator, and the cause that it wraps.
    pub fn message(&self) -> (text: String)
        ensures
            text@ == self@.message(),
    {
        let mut text = String::from_str(self.kind().prefix());
        text.append(SEPARATOR);
        let cause = self.cause();
        text.append(cause.as_str());
        text
    }
}

/// A message begins with the prefix of its own layer and with that of no
/// other, so the message alone tells at which layer the run failed.
pub proof fn lemma_message_tells_kind(error: AppErrorView, kind: ErrorKind)
    ensures
        kind.prefix_text().is_prefix_of(error.message()) <==> kind == error.kind(),
{
    reveal_strlit("Unexpected TCP error");
    reveal_strlit("Request came back with HTTP error response code");
    reveal_strlit("Could not parse JSON response");
    reveal_strlit("Error message in JSON response");
    reveal_strlit("An unexpected error occurred");
    let own = error.kind().prefix_text();
    let other = kind.prefix_text();
    let message = error.message();
    assert(message.subrange(0, own.len() as int) =~= own);
    assert(message[0] == own[0]);
    if other.is_prefix_of(message) {
        assert(message.subrange(0, other.len() as int)[0] == message[0]);
    }
}

} // verus!
