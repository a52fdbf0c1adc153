//! The unified error taxonomy and the pure classifier that decides retry
//! eligibility.
//!
//! Every terminal failure of an execution is one of three categories:
//! a transport-level fault (`Reqwest`), a structured-body decode fault
//! (`Json`), or a non-success HTTP status (`StatusError`). The classifier
//! answers four independent boolean questions about an error and extracts
//! the numeric status code when one is present.

use vstd::prelude::*;

verus! {

/// Classification facts of a transport-level failure, as plain values.
///
/// The transport collaborator reports whether the fault was a failure to
/// establish a connection, a timeout, a malformed request, and the HTTP
/// status code if the fault was derived from one.
#[derive(Clone, Copy, PartialEq, Eq, Debug)]
pub struct TransportError {
    /// The connection could not be established.
    pub connect: bool,
    /// The request or a retry delay exceeded its deadline.
    pub timeout: bool,
    /// The request itself was malformed or could not be built.
    pub request: bool,
    /// The status code the fault was derived from, if any.
    pub status: Option<u16>,
}

/// The unified error value returned by every terminal operation.
#[derive(Clone, Copy, PartialEq, Eq, Debug)]
pub enum Error {
    /// A structured-body decode failure. Never retry-eligible and carries
    /// no status.
    Json,
    /// A transport-level fault.
    Reqwest(TransportError),
    /// A response arrived with a non-success status code.
    StatusError(u16),
}

/// A status code in the server-error range.
pub open spec fn spec_is_server_error(status: u16) -> bool {
    500 <= status <= 599
}

/// A status code in the client-error range.
pub open spec fn spec_is_client_error(status: u16) -> bool {
    400 <= status <= 499
}

/// A status code in the success range.
pub open spec fn spec_is_success(status: u16) -> bool {
    200 <= status <= 299
}

/// Whether `status` is a server error (5xx).
pub fn is_server_error(status: u16) -> (r: bool)
    ensures
        r == spec_is_server_error(status),
{
    500 <= status && status <= 599
}

/// Whether `status` is a client error (4xx).
pub fn is_client_error(status: u16) -> (r: bool)
    ensures
        r == spec_is_client_error(status),
{
    400 <= status && status <= 499
}

/// Whether `status` is in the success range (2xx).
pub fn is_success(status: u16) -> (r: bool)
    ensures
        r == spec_is_success(status),
{
    200 <= status && status <= 299
}

impl Error {
    /// The error is a connection-establishment failure.
    pub open spec fn spec_is_connect(self) -> bool {
        match self {
            Error::Reqwest(t) => t.connect,
            _ => false,
        }
    }

    /// The error is a timeout.
    pub open spec fn spec_is_timeout(self) -> bool {
        match self {
            Error::Reqwest(t) => t.timeout,
            _ => false,
        }
    }

    /// The error is a client-originated malformed-request failure.
    pub open spec fn spec_is_request(self) -> bool {
        match self {
            Error::Json => false,
            Error::Reqwest(t) => t.request,
            Error::StatusError(s) => spec_is_client_error(s),
        }
    }

    /// The error was derived from a response status.
    pub open spec fn spec_is_status(self) -> bool {
        match self {
            Error::Json => false,
            Error::Reqwest(t) => t.status is Some,
            Error::StatusError(_) => true,
        }
    }

    /// The status code carried by the error, if any.
    pub open spec fn spec_status(self) -> Option<u16> {
        match self {
            Error::Json => None,
            Error::Reqwest(t) => t.status,
            Error::StatusError(s) => Some(s),
        }
    }

    /// Whether this is a connection-establishment failure.
    pub fn is_connect(&self) -> (r: bool)
        ensures
            r == self.spec_is_connect(),
    {
        match self {
            Error::Reqwest(t) => t.connect,
            _ => false,
        }
    }

    /// Whether this is a timeout.
    pub fn is_timeout(&self) -> (r: bool)
        ensures
            r == self.spec_is_timeout(),
    {
        match self {
            Error::Reqwest(t) => t.timeout,
            _ => false,
        }
    }

    /// Whether this is a client-originated malformed-request failure.
    pub fn is_request(&self) -> (r: bool)
        ensures
            r == self.spec_is_request(),
    {
        match self {
            Error::Json => false,
            Error::Reqwest(t) => t.request,
            Error::StatusError(s) => is_client_error(*s),
        }
    }

    /// Whether this error was derived from a response status.
    pub fn is_status(&self) -> (r: bool)
        ensures
            r == self.spec_is_status(),
    {
        match self {
            Error::Json => false,
            Error::Reqwest(t) => t.status.is_some(),
            Error::StatusError(_) => true,
        }
    }

    /// The status code carried by the error, if any.
    pub fn status(&self) -> (r: Option<u16>)
        ensures
            r == self.spec_status(),
    {
        match self {
            Error::Json => None,
            Error::Reqwest(t) => t.status,
            Error::StatusError(s) => Some(*s),
        }
    }
}

/// The retry-eligibility rule shared by both retry strategies: an attempt
/// may be retried iff it failed to connect, timed out, or carries a status
/// code in the server-error range. Any other failure is terminal.
pub open spec fn spec_retry_eligible(e: Error) -> bool {
    ||| e.spec_is_connect()
    ||| e.spec_is_timeout()
    ||| match e.spec_status() {
        Some(s) => spec_is_server_error(s),
        None => false,
    }
}

/// Whether `e` may be retried, per the shared eligibility rule.
pub fn is_retry_eligible(e: &Error) -> (r: bool)
    ensures
        r == spec_retry_eligible(*e),
{
    if e.is_connect() || e.is_timeout() {
        true
    } else {
        match e.status() {
            Some(s) => is_server_error(s),
            None => false,
        }
    }
}

/// Retry eligibility is monotone under the classifier: every connect
/// failure, every timeout, and every server-error status is retry-eligible,
/// while a client-error status and a decode failure never are.
pub proof fn lemma_retry_eligibility_monotone(e: Error)
    ensures
        e.spec_is_connect() ==> spec_retry_eligible(e),
        e.spec_is_timeout() ==> spec_retry_eligible(e),
        (e matches Error::StatusError(s) && spec_is_server_error(s)) ==> spec_retry_eligible(e),
        (e matches Error::StatusError(s) && spec_is_client_error(s) && !e.spec_is_connect()
            && !e.spec_is_timeout()) ==> !spec_retry_eligible(e),
        e is Json ==> !spec_retry_eligible(e),
{
}

} // verus!
