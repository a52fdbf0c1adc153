//! Instrumentation and resilience layer around an outbound HTTP
//! request/response lifecycle.
//!
//! The verified core of the library is the execution-and-retry subsystem:
//! classification of failures into retryable and terminal categories, the
//! span-field bookkeeping around a single execution, the two retry
//! strategies (bounded-count retry and single-shot conditional retry), and
//! the bounded text and header representations used for diagnostics.
//!
//! The transport itself (connection handling, TLS, the asynchronous call)
//! is an external collaborator: callers perform the call and hand its
//! outcome to the functions here as plain values, which decide what is
//! recorded, what is returned, and whether a retry may be attempted.

mod error;
mod trace_client;
mod trace_request_builder;
mod trace_response;
mod utils;

pub use error::Error;
pub use error::TransportError;
pub use error::is_client_error;
pub use error::is_retry_eligible;
pub use error::is_server_error;
pub use error::is_success;
pub use error::lemma_retry_eligibility_monotone;
pub use error::spec_is_client_error;
pub use error::spec_is_server_error;
pub use error::spec_is_success;
pub use error::spec_retry_eligible;

pub use trace_client::RequestBody;
pub use trace_client::TraceSpan;
pub use trace_client::TransportOutcome;
pub use trace_client::lemma_execution_single_outcome;
pub use trace_client::request_body_repr;
pub use trace_client::settle_execution;
pub use trace_client::spec_settle_execution;

pub use trace_request_builder::Duration;
pub use trace_request_builder::RetryArgs;
pub use trace_request_builder::RetryDecision;
pub use trace_request_builder::RetryState;
pub use trace_request_builder::capture_single_retry;
pub use trace_request_builder::decide_single_retry;
pub use trace_request_builder::lemma_send_and_retry_bounded;
pub use trace_request_builder::lemma_single_retry_executions_bounded;
pub use trace_request_builder::lemma_state_machine_executions;
pub use trace_request_builder::spec_capture_single_retry;
pub use trace_request_builder::spec_decide_single_retry;
pub use trace_request_builder::spec_executions_from;
pub use trace_request_builder::spec_retry_executions;
pub use trace_request_builder::spec_send_and_retry_executions;
pub use trace_request_builder::spec_single_retry_executions;

pub use trace_response::TransportFailure;
pub use trace_response::settle_bytes;
pub use trace_response::settle_json;
pub use trace_response::settle_status_failure;
pub use trace_response::settle_text;
pub use trace_response::spec_settle_status_failure;
pub use trace_response::text_preview;

pub use utils::Header;
pub use utils::headers_repr;
pub use utils::lemma_sensitive_header_redacted;
pub use utils::spec_header_line;
pub use utils::spec_headers_repr;
pub use utils::spec_strip_utf8_bom;
pub use utils::spec_take_only_n_bytes;
pub use utils::spec_text_repr;
pub use utils::spec_truncate_chars;
pub use utils::strip_utf8_bom;
pub use utils::take_only_n_bytes;
pub use utils::text_repr;
pub use utils::truncate_chars;
pub use utils::utf8_lossy_of;
