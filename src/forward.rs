use vstd::prelude::*;

verus! {

#[verifier::external_type_specification]
#[verifier::external_body]
pub struct ExReqwestError(reqwest::Error);

/// Whether `e` arose while connecting: a connect error of the HTTP client's
/// connector stands in its chain of sources.
pub uninterp spec fn connect_of(e: reqwest::Error) -> bool;

/// Whether `e` is a timeout: a timeout error stands in its chain of sources.
pub uninterp spec fn timeout_of(e: reqwest::Error) -> bool;

/// Relies on `reqwest::Error::is_connect`: it walks the error's own chain of
/// sources, so the answer depends on the error alone.
pub assume_specification[ reqwest::Error::is_connect ](e: &reqwest::Error) -> (r: bool)
    ensures
        r == connect_of(*e),
;

/// Relies on `reqwest::Error::is_timeout`: it walks the error's own chain of
/// sources, so the answer depends on the error alone.
pub assume_specification[ reqwest::Error::is_timeout ](e: &reqwest::Error) -> (r: bool)
    ensures
        r == timeout_of(*e),
;

/// Why a single upstream attempt failed. Failures are never retried.
#[derive(Debug, Clone, Copy, PartialEq, Eq, Structural)]
pub enum ForwardError {
    /// The upstream was unreachable or refused the connection.
    ConnectFailed,
    /// The upstream did not answer in time.
    UpstreamTimeout,
    /// The upstream's response was malformed, or the exchange broke off.
    UpstreamProtocolError,
}

/// Classification of a failed attempt: a failed connection first (an
/// unreachable upstream whose connect attempt timed out is still a connect
/// failure), then a timeout; anything else is a protocol error.
pub open spec fn classify_spec(connect: bool, timeout: bool) -> ForwardError {
    if connect {
        ForwardError::ConnectFailed
    } else if timeout {
        ForwardError::UpstreamTimeout
    } else {
        ForwardError::UpstreamProtocolError
    }
}

pub fn classify(connect: bool, timeout: bool) -> (r: ForwardError)
    ensures
        r == classify_spec(connect, timeout),
{
    if connect {
        ForwardError::ConnectFailed
    } else if timeout {
        ForwardError::UpstreamTimeout
    } else {
        ForwardError::UpstreamProtocolError
    }
}

impl ForwardError {
    /// Classifies an error of the HTTP client by asking it whether it was a
    /// timeout or a connection failure.
    pub fn from_reqwest(e: &reqwest::Error) -> (r: ForwardError)
        ensures
            r == classify_spec(connect_of(*e), timeout_of(*e)),
    {
        let timeout = e.is_timeout();
        let connect = e.is_connect();
        classify(connect, timeout)
    }
}

} // verus!
