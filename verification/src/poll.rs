use vstd::prelude::*;
use crate::config::{Config, Error, Failure};
use crate::span::{Span, NANOS_PER_SEC};

verus! {

/// Seconds between attempts where the configuration names no interval.
pub const DEFAULT_INTERVAL_SECS: u64 = 10;

/// Seconds that an attempt is given at the least when failures are fatal.
pub const FLOOR_SECS: u64 = 10;

/// The status of an agent that is ready.
pub const STATUS_READY: u16 = 200;

/// The status of an agent that is up but not ready yet.
pub const STATUS_NOT_READY: u16 = 500;

/// What one attempt came to.
#[derive(Debug, PartialEq, Eq)]
pub enum Outcome {
    /// The agent answered that it is ready.
    Success,
    /// The agent answered that it is not ready yet.
    NotReadyYet,
    /// The agent answered with another status.
    OtherStatus(u16),
    /// No answer came: the cause, in words.
    TransportFailure(String),
}

/// What the loop does after an attempt.
#[derive(Debug, PartialEq, Eq)]
pub enum Decision {
    /// Try again.
    Continue,
    /// Stop: the agent is ready.
    TerminateSuccess,
    /// Stop: the attempt failed and failures are not retried.
    TerminateFatal(Failure),
    /// Stop: the budget is used up, after this much time.
    TerminateTimedOut(Span),
}

/// One completed attempt: what it came to, and the time since the loop began
/// at the moment it completed.
#[derive(Debug, PartialEq, Eq)]
pub struct Attempt {
    pub outcome: Outcome,
    pub elapsed: Span,
}

/// The least timeout of an attempt, in nanoseconds.
pub open spec fn floor_nanos(reconnect: bool) -> int {
    if reconnect { 0 } else { FLOOR_SECS * NANOS_PER_SEC }
}

/// The spacing of attempts, in nanoseconds.
pub open spec fn interval_nanos(interval: Option<u64>) -> int {
    match interval {
        Some(secs) => secs * NANOS_PER_SEC,
        None => DEFAULT_INTERVAL_SECS * NANOS_PER_SEC,
    }
}

/// What is left of a budget of `budget_secs` seconds after `elapsed`
/// nanoseconds, and zero once it is used up.
pub open spec fn remaining_nanos(budget_secs: u64, elapsed: int) -> int {
    if budget_secs * NANOS_PER_SEC >= elapsed { budget_secs * NANOS_PER_SEC - elapsed } else { 0 }
}

/// The timeout of the next attempt, in nanoseconds: the interval, cut down to
/// what is left of the budget where there is one, and raised to the floor.
pub open spec fn attempt_timeout_nanos(
    timeout: Option<u64>,
    interval: Option<u64>,
    reconnect: bool,
    elapsed: int,
) -> int {
    let spacing = interval_nanos(interval);
    let wanted = match timeout {
        Some(budget) => if remaining_nanos(budget, elapsed) <= spacing {
            remaining_nanos(budget, elapsed)
        } else {
            spacing
        },
        None => spacing,
    };
    if wanted >= floor_nanos(reconnect) { wanted } else { floor_nanos(reconnect) }
}

/// The timeout of the attempt that begins `elapsed` after the loop began.
/// It is never under the floor, so without reconnect tolerance it may reach
/// past the end of the budget.
pub fn attempt_timeout(config: &Config, elapsed: Span) -> (timeout: Span)
    ensures
        timeout.nanos == attempt_timeout_nanos(
            config.timeout,
            config.interval,
            config.reconnect,
            elapsed.nanos as int,
        ),
        timeout.nanos >= floor_nanos(config.reconnect),
{
    let spacing = match config.interval {
        Some(secs) => Span::from_secs(secs),
        None => Span::from_secs(DEFAULT_INTERVAL_SECS),
    };
    let wanted = match config.timeout {
        Some(budget) => {
            let left = match Span::from_secs(budget).checked_sub(elapsed) {
                Some(left) => left,
                None => Span::from_secs(0),
            };
            left.min(spacing)
        },
        None => spacing,
    };
    let floor = if config.reconnect { Span::from_secs(0) } else { Span::from_secs(FLOOR_SECS) };
    wanted.max(floor)
}

/// What a status stands for.
pub open spec fn outcome_of_status(status: u16) -> Outcome {
    if status == STATUS_READY {
        Outcome::Success
    } else if status == STATUS_NOT_READY {
        Outcome::NotReadyYet
    } else {
        Outcome::OtherStatus(status)
    }
}

/// Sorts the status of an answer: 200 is success, 500 is not ready yet, and
/// every other status is kept as it is.
pub fn classify(status: u16) -> (outcome: Outcome)
    ensures
        outcome == outcome_of_status(status),
{
    if status == STATUS_READY {
        Outcome::Success
    } else if status == STATUS_NOT_READY {
        Outcome::NotReadyYet
    } else {
        Outcome::OtherStatus(status)
    }
}

/// What follows from an outcome, the budget left aside.
pub open spec fn decision_for(reconnect: bool, outcome: Outcome) -> Decision {
    match outcome {
        Outcome::Success => Decision::TerminateSuccess,
        Outcome::NotReadyYet => Decision::Continue,
        Outcome::OtherStatus(status) => if reconnect {
            Decision::Continue
        } else {
            Decision::TerminateFatal(Failure::Status(status))
        },
        Outcome::TransportFailure(cause) => if reconnect {
            Decision::Continue
        } else {
            Decision::TerminateFatal(Failure::Transport(cause))
        },
    }
}

/// Decides on an outcome: success ends the loop, "not ready yet" is always
/// retried, and anything else is retried with reconnect tolerance and fatal
/// without it.
pub fn decide(reconnect: bool, outcome: &Outcome) -> (decision: Decision)
    ensures
        decision == decision_for(reconnect, *outcome),
{
    match outcome {
        Outcome::Success => Decision::TerminateSuccess,
        Outcome::NotReadyYet => Decision::Continue,
        Outcome::OtherStatus(status) => if reconnect {
            Decision::Continue
        } else {
            Decision::TerminateFatal(Failure::Status(*status))
        },
        Outcome::TransportFailure(cause) => if reconnect {
            Decision::Continue
        } else {
            Decision::TerminateFatal(Failure::Transport(cause.clone()))
        },
    }
}

/// Whether `elapsed` nanoseconds are more than the budget allows. Without a
/// budget nothing is.
pub open spec fn spent(timeout: Option<u64>, elapsed: int) -> bool {
    match timeout {
        Some(budget) => elapsed > budget * NANOS_PER_SEC,
        None => false,
    }
}

/// Whether the budget is used up `elapsed` after the loop began.
pub fn budget_spent(timeout: Option<u64>, elapsed: Span) -> (over: bool)
    ensures
        over == spent(timeout, elapsed.nanos as int),
{
    match timeout {
        Some(budget) => elapsed.nanos > Span::from_secs(budget).nanos,
        None => false,
    }
}

/// The decision after an attempt that completed `elapsed` after the loop
/// began: that of the outcome, but a retry with the budget used up is a
/// timeout.
pub open spec fn verdict(
    timeout: Option<u64>,
    reconnect: bool,
    outcome: Outcome,
    elapsed: Span,
) -> Decision {
    let first = decision_for(reconnect, outcome);
    if first is Continue && spent(timeout, elapsed.nanos as int) {
        Decision::TerminateTimedOut(elapsed)
    } else {
        first
    }
}

/// Decides what the loop does after an attempt. The budget is looked at only
/// after the outcome, and only where the outcome asks for another attempt.
pub fn after_attempt(config: &Config, outcome: &Outcome, elapsed: Span) -> (decision: Decision)
    ensures
        decision == verdict(config.timeout, config.reconnect, *outcome, elapsed),
{
    let first = decide(config.reconnect, outcome);
    match first {
        Decision::Continue => if budget_spent(config.timeout, elapsed) {
            Decision::TerminateTimedOut(elapsed)
        } else {
            Decision::Continue
        },
        other => other,
    }
}

/// How long to rest before the next attempt: what the last attempt left of
/// its timeout, and `None` where it left nothing.
pub fn pause(timeout: Span, taken: Span) -> (rest: Option<Span>)
    ensures
        timeout.nanos > taken.nanos ==> rest == Some(
            Span { nanos: (timeout.nanos - taken.nanos) as u128 },
        ),
        timeout.nanos <= taken.nanos ==> rest.is_none(),
{
    if timeout.nanos > taken.nanos {
        timeout.checked_sub(taken)
    } else {
        None
    }
}

/// Where the loop stands after the attempts of `trace`, taken in order, and
/// how many of them it made: it stops at the first attempt whose verdict is
/// not to continue.
pub open spec fn run(timeout: Option<u64>, reconnect: bool, trace: Seq<Attempt>) -> (Decision, nat)
    decreases trace.len(),
{
    if trace.len() == 0 {
        (Decision::Continue, 0)
    } else {
        let now = verdict(timeout, reconnect, trace[0].outcome, trace[0].elapsed);
        if now is Continue {
            let later = run(timeout, reconnect, trace.skip(1));
            (later.0, later.1 + 1)
        } else {
            (now, 1)
        }
    }
}

/// Runs the loop over recorded attempts in place of live ones, and returns
/// the decision it ends with and the number of attempts made. `Continue`
/// means that the loop would go on after the last of them.
pub fn replay(config: &Config, trace: &Vec<Attempt>) -> (end: (Decision, usize))
    ensures
        end.0 == run(config.timeout, config.reconnect, trace@).0,
        end.1 == run(config.timeout, config.reconnect, trace@).1,
{
    let mut done: usize = 0;
    assert(trace@.skip(0) =~= trace@);
    while done < trace.len()
        invariant
            done <= trace.len(),
            run(config.timeout, config.reconnect, trace@).0 == run(
                config.timeout,
                config.reconnect,
                trace@.skip(done as int),
            ).0,
            run(config.timeout, config.reconnect, trace@).1 == run(
                config.timeout,
                config.reconnect,
                trace@.skip(done as int),
            ).1 + done,
        decreases trace.len() - done,
    {
        let attempt = &trace[done];
        let decision = after_attempt(config, &attempt.outcome, attempt.elapsed);
        assert(trace@.skip(done as int).skip(1) =~= trace@.skip(done + 1));
        assert(trace@.skip(done as int)[0] == trace@[done as int]);
        match decision {
            Decision::Continue => {
                done = done + 1;
            },
            other => {
                return (other, done + 1);
            },
        }
    }
    (Decision::Continue, done)
}

/// How the probe ends on a decision, and `None` where it does not end.
pub open spec fn ending(decision: Decision) -> Option<Result<(), Error>> {
    match decision {
        Decision::Continue => None,
        Decision::TerminateSuccess => Some(Ok(())),
        Decision::TerminateFatal(failure) => Some(Err(Error::Request(failure))),
        Decision::TerminateTimedOut(elapsed) => Some(Err(Error::Timeout(elapsed))),
    }
}

/// Turns a decision into the probe's result: nothing yet for `Continue`,
/// success, the request's failure, or the timeout with the time it took.
pub fn finish(decision: Decision) -> (end: Option<Result<(), Error>>)
    ensures
        end == ending(decision),
{
    match decision {
        Decision::Continue => None,
        Decision::TerminateSuccess => Some(Ok(())),
        Decision::TerminateFatal(failure) => Some(Err(Error::Request(failure))),
        Decision::TerminateTimedOut(elapsed) => Some(Err(Error::Timeout(elapsed))),
    }
}

/// Whether the budget is used up when one of the attempts completes.
pub open spec fn spent_within(timeout: Option<u64>, trace: Seq<Attempt>) -> bool {
    exists|i: int| 0 <= i < trace.len() && spent(timeout, #[trigger] trace[i].elapsed.nanos as int)
}

/// An agent that only ever answers "not ready yet" never makes the loop fail
/// for good, with reconnect tolerance or without, and never makes it
/// succeed: the loop goes on until the budget is used up, and then it times
/// out.
pub proof fn not_ready_never_fatal(timeout: Option<u64>, reconnect: bool, trace: Seq<Attempt>)
    requires
        forall|i: int| 0 <= i < trace.len() ==> #[trigger] trace[i].outcome is NotReadyYet,
    ensures
        !(run(timeout, reconnect, trace).0 is TerminateFatal),
        !(run(timeout, reconnect, trace).0 is TerminateSuccess),
        run(timeout, reconnect, trace).0 is TerminateTimedOut <==> spent_within(timeout, trace),
        run(timeout, reconnect, trace).0 is Continue ==> run(timeout, reconnect, trace).1
            == trace.len(),
    decreases trace.len(),
{
    if trace.len() > 0 {
        let rest = trace.skip(1);
        assert forall|i: int| 0 <= i < rest.len() implies #[trigger] rest[i].outcome
            is NotReadyYet by {
            assert(rest[i] == trace[i + 1]);
        }
        not_ready_never_fatal(timeout, reconnect, rest);
        if spent(timeout, trace[0].elapsed.nanos as int) {
            assert(spent_within(timeout, trace));
        } else {
            if spent_within(timeout, rest) {
                let k = choose|i: int|
                    0 <= i < rest.len() && spent(timeout, #[trigger] rest[i].elapsed.nanos as int);
                assert(rest[k] == trace[k + 1]);
                assert(spent(timeout, trace[k + 1].elapsed.nanos as int));
            }
            if spent_within(timeout, trace) {
                let k = choose|i: int|
                    0 <= i < trace.len() && spent(
                        timeout,
                        #[trigger] trace[i].elapsed.nanos as int,
                    );
                assert(k > 0);
                assert(rest[k - 1] == trace[k]);
                assert(spent(timeout, rest[k - 1].elapsed.nanos as int));
            }
        }
    }
}

/// Without reconnect tolerance, a first answer with a status other than 200
/// and 500 ends the loop at once: it fails for good with that status, after
/// one attempt, whatever the budget and whatever would have come next.
pub proof fn other_status_fatal_at_once(timeout: Option<u64>, trace: Seq<Attempt>, status: u16)
    requires
        trace.len() > 0,
        status != STATUS_READY,
        status != STATUS_NOT_READY,
        trace[0].outcome == outcome_of_status(status),
    ensures
        run(timeout, false, trace) == (Decision::TerminateFatal(Failure::Status(status)), 1nat),
{
}

/// With reconnect tolerance, any number of attempts that fail in transport
/// while the budget lasts, followed by an answer that the agent is ready,
/// ends the loop in success at that answer.
pub proof fn failures_then_success(timeout: Option<u64>, trace: Seq<Attempt>, failures: nat)
    requires
        failures < trace.len(),
        forall|i: int|
            0 <= i < failures ==> (#[trigger] trace[i]).outcome is TransportFailure && !spent(
                timeout,
                trace[i].elapsed.nanos as int,
            ),
        trace[failures as int].outcome is Success,
    ensures
        run(timeout, true, trace) == (Decision::TerminateSuccess, failures + 1),
    decreases failures,
{
    if failures > 0 {
        let rest = trace.skip(1);
        assert forall|i: int| 0 <= i < failures - 1 implies (#[trigger] rest[i]).outcome
            is TransportFailure && !spent(timeout, rest[i].elapsed.nanos as int) by {
            assert(rest[i] == trace[i + 1]);
        }
        assert(rest[failures - 1] == trace[failures as int]);
        failures_then_success(timeout, rest, (failures - 1) as nat);
        assert(trace[0].outcome is TransportFailure);
    }
}

/// The timeout of an attempt is never under the floor: ten seconds without
/// reconnect tolerance, nothing with it. It is never over the longer of the
/// interval and the floor either.
pub proof fn timeout_within_bounds(
    timeout: Option<u64>,
    interval: Option<u64>,
    reconnect: bool,
    elapsed: int,
)
    ensures
        attempt_timeout_nanos(timeout, interval, reconnect, elapsed) >= floor_nanos(reconnect),
        attempt_timeout_nanos(timeout, interval, reconnect, elapsed) <= interval_nanos(interval)
            || attempt_timeout_nanos(timeout, interval, reconnect, elapsed) == floor_nanos(
            reconnect,
        ),
{
}

/// An attempt reaches past the end of the budget by the floor at most: with
/// reconnect tolerance not at all, without it by up to ten seconds.
pub proof fn overrun_at_most_floor(
    budget: u64,
    interval: Option<u64>,
    reconnect: bool,
    elapsed: int,
)
    ensures
        attempt_timeout_nanos(Some(budget), interval, reconnect, elapsed) <= remaining_nanos(
            budget,
            elapsed,
        ) + floor_nanos(reconnect),
        reconnect ==> attempt_timeout_nanos(Some(budget), interval, reconnect, elapsed)
            <= remaining_nanos(budget, elapsed),
{
}

/// An attempt that outlasts the budget and would be retried ends the loop
/// in a timeout that reports the time gone by, however long the attempt was
/// allowed to take.
pub proof fn retry_beyond_budget_times_out(
    budget: u64,
    reconnect: bool,
    outcome: Outcome,
    elapsed: Span,
)
    requires
        decision_for(reconnect, outcome) is Continue,
        elapsed.nanos > budget * NANOS_PER_SEC,
    ensures
        verdict(Some(budget), reconnect, outcome, elapsed) == Decision::TerminateTimedOut(elapsed),
{
}

} // verus!
