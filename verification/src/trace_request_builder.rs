//! The two retry strategies: bounded-count retry and single-shot
//! conditional retry.
//!
//! Executing a request is an asynchronous call into the transport
//! collaborator, so the loops themselves are driven by the caller. What is
//! verified here is every decision those loops take: whether a failed
//! attempt may be executed again, how long to sleep first, and how many
//! executions a run can perform in total. The caller executes, classifies
//! the failure, and asks the state machine what to do next.

use vstd::prelude::*;

use crate::error::Error;
use crate::error::spec_retry_eligible;
use crate::error::is_retry_eligible;

verus! {

/// A non-negative span of time, held as whole seconds plus a sub-second
/// nanosecond part.
#[derive(Clone, Copy, PartialEq, Eq, Debug)]
pub struct Duration {
    /// Whole seconds.
    pub secs: u64,
    /// Sub-second part, in nanoseconds.
    pub nanos: u32,
}

impl Duration {
    /// The nanosecond part never reaches a whole second.
    pub open spec fn wf(self) -> bool {
        self.nanos < 1_000_000_000
    }

    /// The span is zero.
    pub open spec fn spec_is_zero(self) -> bool {
        self.secs == 0 && self.nanos == 0
    }

    /// A span of `secs` whole seconds.
    pub fn from_secs(secs: u64) -> (r: Self)
        ensures
            r.secs == secs,
            r.nanos == 0,
            r.wf(),
    {
        Duration { secs, nanos: 0 }
    }

    /// A span of `millis` milliseconds.
    pub fn from_millis(millis: u64) -> (r: Self)
        ensures
            r.secs == millis / 1000,
            r.nanos == (millis % 1000) * 1_000_000,
            r.wf(),
    {
        Duration { secs: millis / 1000, nanos: (millis % 1000) as u32 * 1_000_000 }
    }

    /// Whether the span is zero.
    pub fn is_zero(&self) -> (r: bool)
        ensures
            r == self.spec_is_zero(),
    {
        self.secs == 0 && self.nanos == 0
    }

    /// The whole-second part of the span.
    pub fn as_secs(&self) -> (r: u64)
        ensures
            r == self.secs,
    {
        self.secs
    }
}

/// The policy of the bounded-count retry strategy: how many retries may
/// follow the initial execution, and how long to sleep between attempts.
#[derive(Clone, Copy, PartialEq, Eq, Debug)]
pub struct RetryArgs {
    /// Number of retries allowed after the initial execution.
    pub count: usize,
    /// Fixed delay slept before each retry.
    pub sleep_before_retry: Duration,
}

impl RetryArgs {
    /// Replaces the retry budget.
    pub fn set_count(self, val: usize) -> (r: Self)
        ensures
            r.count == val,
            r.sleep_before_retry == self.sleep_before_retry,
    {
        RetryArgs { count: val, ..self }
    }

    /// Replaces the delay slept before each retry.
    pub fn set_sleep_before_retry(self, val: Duration) -> (r: Self)
        ensures
            r.count == self.count,
            r.sleep_before_retry == val,
    {
        RetryArgs { sleep_before_retry: val, ..self }
    }
}

impl Default for RetryArgs {
    /// Three retries, thirty seconds apart.
    fn default() -> (r: Self)
        ensures
            r.count == 3,
            r.sleep_before_retry.secs == 30,
            r.sleep_before_retry.nanos == 0,
    {
        RetryArgs { count: 3, sleep_before_retry: Duration::from_secs(30) }
    }
}

/// What the bounded-count retry loop does after a failed execution.
#[derive(Clone, Copy, PartialEq, Eq, Debug)]
pub enum RetryDecision {
    /// Sleep for the given delay, then execute again.
    RetryAfter(Duration),
    /// Return the failure to the caller; it is terminal or the budget is
    /// spent.
    Stop,
}

/// The state of one bounded-count retry run.
///
/// The driver executes the request once, and after every failure hands the
/// classified error to [`RetryState::on_failure`]; the decision says
/// whether to sleep and execute again or to return the failure. A success
/// always ends the run.
#[derive(Clone, Copy, PartialEq, Eq, Debug)]
pub struct RetryState {
    /// The policy this run was started with.
    pub args: RetryArgs,
    /// Whether the request parameters could be duplicated for re-issue.
    /// A request whose body is a one-shot stream cannot be cloned, and the
    /// run then degrades to a single attempt.
    pub clonable: bool,
    /// Retries taken so far.
    pub count: usize,
}

impl RetryState {
    /// Starts a run: no retries taken yet.
    pub fn new(args: RetryArgs, clonable: bool) -> (r: Self)
        ensures
            r.args == args,
            r.clonable == clonable,
            r.count == 0,
    {
        RetryState { args, clonable, count: 0 }
    }

    /// A failed execution is followed by another iff the request could be
    /// cloned, budget remains, and the failure is retry-eligible.
    pub open spec fn spec_should_retry(self, e: Error) -> bool {
        self.clonable && self.count < self.args.count && spec_retry_eligible(e)
    }

    /// Decides what follows a failed execution, and charges the budget
    /// when a retry is taken.
    pub fn on_failure(&mut self, e: &Error) -> (d: RetryDecision)
        ensures
            (d matches RetryDecision::RetryAfter(delay) ==> delay
                == old(self).args.sleep_before_retry),
            (d is RetryAfter) == old(self).spec_should_retry(*e),
            old(self).spec_should_retry(*e) ==> final(self).count == old(self).count + 1,
            !old(self).spec_should_retry(*e) ==> *final(self) == *old(self),
            final(self).args == old(self).args,
            final(self).clonable == old(self).clonable,
    {
        if self.clonable && self.count < self.args.count && is_retry_eligible(e) {
            self.count = self.count + 1;
            RetryDecision::RetryAfter(self.args.sleep_before_retry)
        } else {
            RetryDecision::Stop
        }
    }
}

/// Number of executions a bounded run performs when it has `budget`
/// retries left and the next executions would fail with `failures` in
/// order; an execution past the end of `failures` succeeds and ends the
/// run.
pub open spec fn spec_retry_executions(budget: nat, failures: Seq<Error>) -> nat
    decreases failures.len(),
{
    if failures.len() == 0 {
        1
    } else if budget > 0 && spec_retry_eligible(failures[0]) {
        1 + spec_retry_executions((budget - 1) as nat, failures.drop_first())
    } else {
        1
    }
}

/// Number of executions a whole bounded-count run performs under `args`,
/// given whether the request could be cloned and the failures successive
/// executions would yield.
pub open spec fn spec_send_and_retry_executions(
    args: RetryArgs,
    clonable: bool,
    failures: Seq<Error>,
) -> nat {
    if clonable {
        spec_retry_executions(args.count as nat, failures)
    } else {
        1
    }
}

proof fn lemma_retry_executions_bounded(budget: nat, failures: Seq<Error>)
    ensures
        spec_retry_executions(budget, failures) <= 1 + budget,
    decreases failures.len(),
{
    if failures.len() > 0 && budget > 0 && spec_retry_eligible(failures[0]) {
        lemma_retry_executions_bounded((budget - 1) as nat, failures.drop_first());
    }
}

/// The bounded-count strategy performs at most `1 + args.count`
/// executions, never re-issues a request that could not be cloned, and
/// stops immediately on the first failure that is not retry-eligible.
pub proof fn lemma_send_and_retry_bounded(args: RetryArgs, clonable: bool, failures: Seq<Error>)
    ensures
        spec_send_and_retry_executions(args, clonable, failures) <= 1 + args.count,
        !clonable ==> spec_send_and_retry_executions(args, clonable, failures) == 1,
        failures.len() > 0 && !spec_retry_eligible(failures[0])
            ==> spec_send_and_retry_executions(args, clonable, failures) == 1,
{
    if clonable {
        lemma_retry_executions_bounded(args.count as nat, failures);
    }
}

/// Number of executions a run performs from state `st` onward, when the
/// executions still to come would fail with `failures` in order: one more
/// execution follows a failure exactly when the state machine decides to
/// retry, as [`RetryState::on_failure`] does.
pub open spec fn spec_executions_from(st: RetryState, failures: Seq<Error>) -> nat
    decreases failures.len(),
{
    if failures.len() == 0 {
        1
    } else if st.spec_should_retry(failures[0]) {
        1 + spec_executions_from(
            RetryState { count: (st.count + 1) as usize, args: st.args, clonable: st.clonable },
            failures.drop_first(),
        )
    } else {
        1
    }
}

/// Walking the state machine along any failure sequence performs exactly
/// as many executions as the fold over the remaining budget says; from a
/// fresh state that is the whole run's count. So the bound of
/// [`lemma_send_and_retry_bounded`] holds of every run the state machine
/// drives.
pub proof fn lemma_state_machine_executions(st: RetryState, failures: Seq<Error>)
    requires
        st.count <= st.args.count,
    ensures
        st.clonable ==> spec_executions_from(st, failures) == spec_retry_executions(
            (st.args.count - st.count) as nat,
            failures,
        ),
        !st.clonable ==> spec_executions_from(st, failures) == 1,
        st.count == 0 ==> spec_executions_from(st, failures) == spec_send_and_retry_executions(
            st.args,
            st.clonable,
            failures,
        ),
    decreases failures.len(),
{
    if failures.len() > 0 && st.spec_should_retry(failures[0]) {
        lemma_state_machine_executions(
            RetryState { count: (st.count + 1) as usize, args: st.args, clonable: st.clonable },
            failures.drop_first(),
        );
    }
}

/// Decides whether the single-shot strategy captures a retry at all: one
/// is captured iff the caller supplied a delay and the finalized request
/// could be cloned. A request whose body is a one-shot stream yields no
/// capture, and the run then performs exactly one execution.
pub fn capture_single_retry(retry_if: Option<Duration>, request_clonable: bool) -> (r: Option<
    Duration,
>)
    ensures
        r == spec_capture_single_retry(retry_if, request_clonable),
{
    match retry_if {
        Some(d) => if request_clonable {
            Some(d)
        } else {
            None
        },
        None => None,
    }
}

/// The retry captured by the single-shot strategy, if any.
pub open spec fn spec_capture_single_retry(
    retry_if: Option<Duration>,
    request_clonable: bool,
) -> Option<Duration> {
    match retry_if {
        Some(d) => if request_clonable {
            Some(d)
        } else {
            None
        },
        None => None,
    }
}

/// After the first execution failed with `e`, decides whether the cloned
/// request is executed once more: it is iff a retry was captured and `e`
/// is retry-eligible. The returned delay is slept first; a zero delay
/// skips the sleep.
pub fn decide_single_retry(captured: &Option<Duration>, e: &Error) -> (r: Option<Duration>)
    ensures
        r == spec_decide_single_retry(*captured, *e),
{
    match captured {
        Some(d) => if is_retry_eligible(e) {
            Some(*d)
        } else {
            None
        },
        None => None,
    }
}

/// Whether (and with what delay) the single-shot strategy re-executes
/// after the first failure.
pub open spec fn spec_decide_single_retry(captured: Option<Duration>, e: Error) -> Option<
    Duration,
> {
    match captured {
        Some(d) => if spec_retry_eligible(e) {
            Some(d)
        } else {
            None
        },
        None => None,
    }
}

/// Number of executions the single-shot strategy performs, given the
/// caller's delay, whether the finalized request could be cloned, and the
/// failure of the first execution if it failed.
pub open spec fn spec_single_retry_executions(
    retry_if: Option<Duration>,
    request_clonable: bool,
    first_failure: Option<Error>,
) -> nat {
    match first_failure {
        None => 1,
        Some(e) => match spec_decide_single_retry(
            spec_capture_single_retry(retry_if, request_clonable),
            e,
        ) {
            Some(_) => 2,
            None => 1,
        },
    }
}

/// The single-shot strategy performs at most two executions; exactly one
/// when no delay was supplied, and exactly one when the request body is a
/// non-replayable stream, whatever the first outcome was.
pub proof fn lemma_single_retry_executions_bounded(
    retry_if: Option<Duration>,
    request_clonable: bool,
    first_failure: Option<Error>,
)
    ensures
        1 <= spec_single_retry_executions(retry_if, request_clonable, first_failure) <= 2,
        retry_if is None ==> spec_single_retry_executions(retry_if, request_clonable, first_failure)
            == 1,
        !request_clonable ==> spec_single_retry_executions(
            retry_if,
            request_clonable,
            first_failure,
        ) == 1,
{
}

} // verus!
