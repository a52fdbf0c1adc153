//! Settling the terminal operations on a wrapped response.
//!
//! A response is owned together with its span and consumed exactly once
//! by a terminal read. Reading the body is the transport collaborator's
//! asynchronous work; its outcome arrives here as plain values, and the
//! functions in this module decide what is recorded on the span, how a
//! failure is classified, and what the caller receives. Diagnostic
//! previews are bounded: the error description kept for a status failure
//! holds at most the first 1024 characters of the body, and the logged
//! text preview at most the first 256.

use vstd::prelude::*;

use crate::error::Error;
use crate::error::TransportError;
use crate::error::spec_is_success;
use crate::trace_client::TraceSpan;
use crate::utils::spec_truncate_chars;
use crate::utils::truncate_chars;

verus! {

/// A body read that failed at the transport level: the classification
/// facts and the rendered description of the fault.
#[derive(Clone, PartialEq, Eq, Debug)]
pub struct TransportFailure {
    /// Classification facts of the fault.
    pub error: TransportError,
    /// The fault rendered as text, recorded on the span.
    pub description: String,
}

/// Settles a full body read: hands the bytes through on success, and on
/// failure records the fault on the span and classifies it as a
/// transport error.
pub fn settle_bytes(span: &mut TraceSpan, read: Result<Vec<u8>, TransportFailure>) -> (r: Result<
    Vec<u8>,
    Error,
>)
    requires
        old(span).error is None,
        old(span).error_description is None,
    ensures
        (read matches Ok(b) ==> r matches Ok(rb) && rb == b),
        read is Ok ==> *final(span) == *old(span),
        (read matches Err(f) ==> r == Err::<Vec<u8>, Error>(Error::Reqwest(f.error)) && final(span).error
            == Some(true) && final(span).error_description == Some(f.description)),
        final(span).method == old(span).method,
        final(span).url == old(span).url,
        final(span).status == old(span).status,
{
    match read {
        Ok(b) => Ok(b),
        Err(f) => {
            span.record_error_flag();
            span.record_error_description(f.description);
            Err(Error::Reqwest(f.error))
        },
    }
}

/// Settles a body read decoded as text: hands the text through on
/// success, and on failure records the fault on the span and classifies
/// it as a transport error.
pub fn settle_text(span: &mut TraceSpan, read: Result<String, TransportFailure>) -> (r: Result<
    String,
    Error,
>)
    requires
        old(span).error is None,
        old(span).error_description is None,
    ensures
        (read matches Ok(t) ==> r matches Ok(rt) && rt == t),
        read is Ok ==> *final(span) == *old(span),
        (read matches Err(f) ==> r == Err::<String, Error>(Error::Reqwest(f.error)) && final(span).error
            == Some(true) && final(span).error_description == Some(f.description)),
        final(span).method == old(span).method,
        final(span).url == old(span).url,
        final(span).status == old(span).status,
{
    match read {
        Ok(t) => Ok(t),
        Err(f) => {
            span.record_error_flag();
            span.record_error_description(f.description);
            Err(Error::Reqwest(f.error))
        },
    }
}

/// The bounded preview of a successfully read text body, as the
/// diagnostic event logs it: at most its first 256 characters.
pub fn text_preview(s: &str) -> (r: String)
    ensures
        r@ == spec_truncate_chars(s@, 256),
{
    truncate_chars(s, 256)
}

/// How a non-success response settles once its body was read for the
/// error description: a status error carrying the code, unless reading
/// the body itself failed, in which case the body-read failure takes
/// precedence and a transport error is returned instead.
pub open spec fn spec_settle_status_failure(
    status: u16,
    read: Result<String, TransportFailure>,
) -> Error {
    match read {
        Ok(_) => Error::StatusError(status),
        Err(f) => Error::Reqwest(f.error),
    }
}

/// Settles a response whose status is outside the success range: marks
/// the span failed, records as the error description the body text
/// truncated to its first 1024 characters — or the description of the
/// body-read failure — and returns the classified error.
pub fn settle_status_failure(
    span: &mut TraceSpan,
    status: u16,
    read: Result<String, TransportFailure>,
) -> (e: Error)
    requires
        !spec_is_success(status),
        old(span).error is None,
        old(span).error_description is None,
    ensures
        e == spec_settle_status_failure(status, read),
        (read matches Ok(t) ==> final(span).error_description matches Some(d) && d@
            == spec_truncate_chars(t@, 1024)),
        (read matches Err(f) ==> final(span).error_description == Some(f.description)),
        final(span).error == Some(true),
        final(span).method == old(span).method,
        final(span).url == old(span).url,
        final(span).status == old(span).status,
{
    span.record_error_flag();
    match read {
        Ok(t) => {
            span.record_error_description(truncate_chars(t.as_str(), 1024));
            Error::StatusError(status)
        },
        Err(f) => {
            span.record_error_description(f.description);
            Error::Reqwest(f.error)
        },
    }
}

/// Settles a structured decode of a fully read body: hands the decoded
/// value through untouched on success, and on decode failure records the
/// fault on the span and returns a decode error — never a partially
/// decoded value.
pub fn settle_json<T>(span: &mut TraceSpan, decode: Result<T, String>) -> (r: Result<T, Error>)
    requires
        old(span).error is None,
        old(span).error_description is None,
    ensures
        (decode matches Ok(v) ==> r matches Ok(w) && w == v),
        decode is Ok ==> *final(span) == *old(span),
        (decode matches Err(d) ==> r matches Err(e) && e == Error::Json && final(span).error
            == Some(true) && final(span).error_description == Some(d)),
        final(span).method == old(span).method,
        final(span).url == old(span).url,
        final(span).status == old(span).status,
{
    match decode {
        Ok(v) => Ok(v),
        Err(d) => {
            span.record_error_flag();
            span.record_error_description(d);
            Err(Error::Json)
        },
    }
}

} // verus!
