//! What the pipeline expects of the request issuer, the collaborator that
//! performs the network call: the timeouts it is configured with, and the
//! two things it can hand back.

use vstd::prelude::*;

verus! {

/// The connect timeout in seconds, unless configured otherwise.
pub const DEFAULT_CONNECT_TIMEOUT_SECS: u64 = 10;

/// The overall timeout in seconds, unless configured otherwise.
pub const DEFAULT_OVERALL_TIMEOUT_SECS: u64 = 30;

/// The two limits that the issuer enforces on one call. When either is
/// exceeded the issuer reports a [`TransportError`]; it never retries.
#[derive(Debug, Clone, Copy, PartialEq, Eq, Structural)]
pub struct TimeoutConfig {
    /// Seconds allowed for establishing the connection.
    pub connect_secs: u64,
    /// Seconds allowed for the whole call.
    pub overall_secs: u64,
}

impl Default for TimeoutConfig {
    fn default() -> (config: Self)
        ensures
            config.connect_secs == DEFAULT_CONNECT_TIMEOUT_SECS,
            config.overall_secs == DEFAULT_OVERALL_TIMEOUT_SECS,
    {
        TimeoutConfig {
            connect_secs: DEFAULT_CONNECT_TIMEOUT_SECS,
            overall_secs: DEFAULT_OVERALL_TIMEOUT_SECS,
        }
    }
}

/// What the issuer hands over when the server answered.
#[derive(Debug, Clone, PartialEq, Eq)]
pub struct RawResponse {
    pub status_code: u16,
    pub body_bytes: Vec<u8>,
}

/// Why no answer was obtained: name resolution, connection, timeout or any
/// other fault below HTTP, as the issuer describes it.
#[derive(Debug, Clone, PartialEq, Eq)]
pub struct TransportError {
    pub detail: String,
}

} // verus!
