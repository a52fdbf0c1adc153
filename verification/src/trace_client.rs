//! The span lifecycle around a single execution.
//!
//! Every execution is wrapped in a structured trace span whose `method`
//! and `url` fields are fixed at creation and whose `error`,
//! `error_description` and `status` fields are written at most once, when
//! the outcome of the attempt is known. The asynchronous transport call
//! itself is the collaborator's; its outcome is handed here as plain
//! values, and [`settle_execution`] decides what is recorded on the span
//! and what the caller receives.

use vstd::prelude::*;
use vstd::string::StringExecFns;

use crate::error::Error;
use crate::error::TransportError;
use crate::utils::spec_text_repr;
use crate::utils::text_repr;

verus! {

/// The mutable field set of one logical execution attempt's trace span.
///
/// `method` and `url` are fixed at creation; the other fields start empty
/// and are written once, then final, for the attempt.
#[derive(Clone, PartialEq, Eq, Debug)]
pub struct TraceSpan {
    /// The request's method, fixed at creation.
    pub method: String,
    /// The request's URL, fixed at creation.
    pub url: String,
    /// Whether the attempt failed; empty until the outcome is known.
    pub error: Option<bool>,
    /// Description of the failure, if one was recorded.
    pub error_description: Option<String>,
    /// The response's status code, recorded on transport success.
    pub status: Option<u16>,
}

impl TraceSpan {
    /// No outcome field has been written yet.
    pub open spec fn pending(self) -> bool {
        self.error is None && self.error_description is None && self.status is None
    }

    /// Opens the span for one attempt: `method` and `url` fixed, outcome
    /// fields empty.
    pub fn new(method: String, url: String) -> (r: Self)
        ensures
            r.method == method,
            r.url == url,
            r.pending(),
    {
        TraceSpan { method, url, error: None, error_description: None, status: None }
    }

    /// Records the response's status code. Write-once.
    pub fn record_status(&mut self, status: u16)
        requires
            old(self).status is None,
        ensures
            final(self).status == Some(status),
            final(self).method == old(self).method,
            final(self).url == old(self).url,
            final(self).error == old(self).error,
            final(self).error_description == old(self).error_description,
    {
        self.status = Some(status);
    }

    /// Marks the attempt as failed. Write-once.
    pub fn record_error_flag(&mut self)
        requires
            old(self).error is None,
        ensures
            final(self).error == Some(true),
            final(self).method == old(self).method,
            final(self).url == old(self).url,
            final(self).error_description == old(self).error_description,
            final(self).status == old(self).status,
    {
        self.error = Some(true);
    }

    /// Records the failure's description. Write-once.
    pub fn record_error_description(&mut self, description: String)
        requires
            old(self).error_description is None,
        ensures
            final(self).error_description == Some(description),
            final(self).method == old(self).method,
            final(self).url == old(self).url,
            final(self).error == old(self).error,
            final(self).status == old(self).status,
    {
        self.error_description = Some(description);
    }
}

/// A request body, as the outbound diagnostic event sees it: fully
/// buffered bytes, or an opaque one-shot stream whose content cannot be
/// read for logging.
#[derive(Clone, PartialEq, Eq, Debug)]
pub enum RequestBody {
    /// A body fully materialized in memory.
    Buffered(Vec<u8>),
    /// A streaming body; its content is never rendered.
    Streaming,
}

/// How the outbound diagnostic event renders the request body: the
/// bounded text representation of a buffered body, or a fixed placeholder
/// for a streaming or absent one.
pub fn request_body_repr(body: &Option<RequestBody>) -> (r: String)
    ensures
        (body matches Some(RequestBody::Buffered(b)) ==> r@ == spec_text_repr(b@)),
        (body matches Some(RequestBody::Streaming) ==> r@ == "<streaming>"@),
        body is None ==> r@ == "<none>"@,
{
    match body {
        Some(RequestBody::Buffered(b)) => text_repr(b.as_slice()),
        Some(RequestBody::Streaming) => String::from_str("<streaming>"),
        None => String::from_str("<none>"),
    }
}

/// What one transport call came back with: a response's status code, or a
/// failure's classification facts and rendered description.
#[derive(Clone, PartialEq, Eq, Debug)]
pub enum TransportOutcome {
    /// A response arrived, whatever its status.
    Arrived(u16),
    /// The transport failed before a response arrived.
    Failed(TransportError, String),
}

/// What an execution returns for each transport outcome: the status on
/// arrival, the classified transport failure otherwise.
pub open spec fn spec_settle_execution(outcome: TransportOutcome) -> Result<u16, Error> {
    match outcome {
        TransportOutcome::Arrived(s) => Ok(s),
        TransportOutcome::Failed(t, _) => Err(Error::Reqwest(t)),
    }
}

/// Settles one execution attempt: records the outcome onto the span —
/// the status on success, the error flag and description on failure —
/// and returns what the caller sees.
pub fn settle_execution(span: &mut TraceSpan, outcome: TransportOutcome) -> (r: Result<
    u16,
    Error,
>)
    requires
        old(span).pending(),
    ensures
        r == spec_settle_execution(outcome),
        final(span).method == old(span).method,
        final(span).url == old(span).url,
        (outcome matches TransportOutcome::Arrived(s) ==> final(span).status == Some(s)
            && final(span).error is None && final(span).error_description is None),
        (outcome matches TransportOutcome::Failed(t, d) ==> final(span).error == Some(true)
            && final(span).error_description == Some(d) && final(span).status is None),
{
    match outcome {
        TransportOutcome::Arrived(s) => {
            span.record_status(s);
            Ok(s)
        },
        TransportOutcome::Failed(t, d) => {
            span.record_error_flag();
            span.record_error_description(d);
            Err(Error::Reqwest(t))
        },
    }
}

/// Every execution has exactly one terminal outcome: the settled result
/// is a success iff the transport call arrived, and otherwise it is
/// exactly the classified transport failure.
pub proof fn lemma_execution_single_outcome(outcome: TransportOutcome)
    ensures
        (spec_settle_execution(outcome) is Ok) <==> (outcome is Arrived),
        (spec_settle_execution(outcome) is Err) <==> (outcome is Failed),
        (outcome matches TransportOutcome::Arrived(s) ==> spec_settle_execution(outcome) == Ok::<
            u16,
            Error,
        >(s)),
        (outcome matches TransportOutcome::Failed(t, d) ==> spec_settle_execution(outcome)
            == Err::<u16, Error>(Error::Reqwest(t))),
{
}

} // verus!
