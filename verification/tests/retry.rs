use reqwest_trace::{
    capture_single_retry, decide_single_retry, Duration, Error, RetryArgs, RetryDecision,
    RetryState, TransportError,
};

fn connect_failure() -> Error {
    Error::Reqwest(TransportError {
        connect: true,
        timeout: false,
        request: false,
        status: None,
    })
}

#[test]
fn default_policy_is_three_retries_thirty_seconds_apart() {
    let args = RetryArgs::default();
    assert_eq!(args.count, 3);
    assert_eq!(args.sleep_before_retry, Duration::from_secs(30));
}

#[test]
fn setters_replace_one_field_and_keep_the_other() {
    let args = RetryArgs::default()
        .set_count(5)
        .set_sleep_before_retry(Duration::from_millis(1500));
    assert_eq!(args.count, 5);
    assert_eq!(args.sleep_before_retry.secs, 1);
    assert_eq!(args.sleep_before_retry.nanos, 500_000_000);

    let args2 = args.set_count(0);
    assert_eq!(args2.count, 0);
    assert_eq!(args2.sleep_before_retry, args.sleep_before_retry);
}

#[test]
fn duration_zero_check() {
    assert!(Duration::from_secs(0).is_zero());
    assert!(Duration::from_millis(0).is_zero());
    assert!(!Duration::from_millis(1).is_zero());
    assert!(!Duration::from_secs(1).is_zero());
    assert_eq!(Duration::from_secs(7).as_secs(), 7);
}

#[test]
fn bounded_retry_performs_at_most_one_plus_count_executions() {
    // Budget of 2 retries: three eligible failures in a row use the budget
    // and then stop, so at most 1 + 2 executions happen.
    let args = RetryArgs::default()
        .set_count(2)
        .set_sleep_before_retry(Duration::from_secs(1));
    let mut st = RetryState::new(args, true);
    let e = connect_failure();

    let mut executions = 1; // the initial execution failed with `e`
    loop {
        match st.on_failure(&e) {
            RetryDecision::RetryAfter(delay) => {
                assert_eq!(delay, Duration::from_secs(1));
                executions += 1;
            }
            RetryDecision::Stop => break,
        }
    }
    assert_eq!(executions, 3);
    assert_eq!(st.count, 2);
}

#[test]
fn bounded_retry_stops_immediately_on_terminal_failure() {
    let args = RetryArgs::default().set_count(5);
    let mut st = RetryState::new(args, true);
    let terminal = Error::StatusError(404);
    assert_eq!(st.on_failure(&terminal), RetryDecision::Stop);
    assert_eq!(st.count, 0);

    let decode = Error::Json;
    assert_eq!(st.on_failure(&decode), RetryDecision::Stop);
    assert_eq!(st.count, 0);
}

#[test]
fn bounded_retry_with_unclonable_request_never_retries() {
    let args = RetryArgs::default().set_count(5);
    let mut st = RetryState::new(args, false);
    assert_eq!(st.on_failure(&connect_failure()), RetryDecision::Stop);
    assert_eq!(st.count, 0);
}

#[test]
fn bounded_retry_resumes_on_server_error_then_stops_on_client_error() {
    let args = RetryArgs::default().set_count(3);
    let mut st = RetryState::new(args, true);
    assert!(matches!(
        st.on_failure(&Error::StatusError(503)),
        RetryDecision::RetryAfter(_)
    ));
    assert_eq!(st.count, 1);
    assert_eq!(st.on_failure(&Error::StatusError(400)), RetryDecision::Stop);
    assert_eq!(st.count, 1);
}

#[test]
fn single_retry_without_delay_is_never_captured() {
    assert_eq!(capture_single_retry(None, true), None);
    assert_eq!(capture_single_retry(None, false), None);
}

#[test]
fn single_retry_on_streaming_request_is_not_captured() {
    // A non-replayable streaming body: no clone, hence no second execution
    // even for a retry-eligible failure.
    let captured = capture_single_retry(Some(Duration::from_secs(2)), false);
    assert_eq!(captured, None);
    assert_eq!(decide_single_retry(&captured, &connect_failure()), None);
}

#[test]
fn single_retry_executes_once_more_only_on_eligible_failure() {
    let captured = capture_single_retry(Some(Duration::from_secs(2)), true);
    assert_eq!(captured, Some(Duration::from_secs(2)));

    assert_eq!(
        decide_single_retry(&captured, &connect_failure()),
        Some(Duration::from_secs(2))
    );
    assert_eq!(
        decide_single_retry(&captured, &Error::StatusError(500)),
        Some(Duration::from_secs(2))
    );
    assert_eq!(decide_single_retry(&captured, &Error::StatusError(404)), None);
    assert_eq!(decide_single_retry(&captured, &Error::Json), None);
}
