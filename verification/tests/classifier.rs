use reqwest_trace::{
    is_client_error, is_retry_eligible, is_server_error, is_success, Error, TransportError,
};

fn connect_failure() -> Error {
    Error::Reqwest(TransportError {
        connect: true,
        timeout: false,
        request: false,
        status: None,
    })
}

fn timeout_failure() -> Error {
    Error::Reqwest(TransportError {
        connect: false,
        timeout: true,
        request: false,
        status: None,
    })
}

#[test]
fn connect_failure_is_classified_and_retryable() {
    let e = connect_failure();
    assert!(e.is_connect());
    assert!(!e.is_timeout());
    assert!(!e.is_request());
    assert!(!e.is_status());
    assert_eq!(e.status(), None);
    assert!(is_retry_eligible(&e));
}

#[test]
fn timeout_failure_is_classified_and_retryable() {
    let e = timeout_failure();
    assert!(!e.is_connect());
    assert!(e.is_timeout());
    assert_eq!(e.status(), None);
    assert!(is_retry_eligible(&e));
}

#[test]
fn server_error_statuses_are_retryable() {
    for status in [500u16, 502, 503] {
        let e = Error::StatusError(status);
        assert!(e.is_status());
        assert_eq!(e.status(), Some(status));
        assert!(is_retry_eligible(&e), "status {status} must be retryable");
    }
}

#[test]
fn not_found_is_terminal() {
    let e = Error::StatusError(404);
    assert!(e.is_status());
    assert!(e.is_request());
    assert_eq!(e.status(), Some(404));
    assert!(!is_retry_eligible(&e));
}

#[test]
fn decode_failure_is_terminal_and_carries_no_status() {
    let e = Error::Json;
    assert!(!e.is_connect());
    assert!(!e.is_timeout());
    assert!(!e.is_request());
    assert!(!e.is_status());
    assert_eq!(e.status(), None);
    assert!(!is_retry_eligible(&e));
}

#[test]
fn transport_error_derived_from_status_reports_it() {
    let e = Error::Reqwest(TransportError {
        connect: false,
        timeout: false,
        request: false,
        status: Some(503),
    });
    assert!(e.is_status());
    assert_eq!(e.status(), Some(503));
    assert!(is_retry_eligible(&e));

    let terminal = Error::Reqwest(TransportError {
        connect: false,
        timeout: false,
        request: true,
        status: Some(400),
    });
    assert!(terminal.is_request());
    assert!(!is_retry_eligible(&terminal));
}

#[test]
fn status_range_helpers_match_their_ranges() {
    assert!(is_success(200));
    assert!(is_success(299));
    assert!(!is_success(199));
    assert!(!is_success(300));
    assert!(is_client_error(400));
    assert!(is_client_error(499));
    assert!(!is_client_error(500));
    assert!(is_server_error(500));
    assert!(is_server_error(599));
    assert!(!is_server_error(499));
    assert!(!is_server_error(600));
}
