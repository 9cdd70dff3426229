use consul_online::{
    after_attempt, attempt_timeout, budget_spent, classify, decide, exit_code, finish, pause,
    replay, Attempt, Config, Decision, Error, Failure, Outcome, Span,
};

fn config(timeout: Option<u64>, interval: Option<u64>, reconnect: bool) -> Config {
    Config {
        http_addr: "localhost:8500".to_owned(),
        http_ssl: false,
        timeout,
        interval,
        reconnect,
        skip_verify: false,
        ca_cert: None,
        client_cert: None,
        client_key: None,
        http_token: None,
        http_token_file: None,
    }
}

fn secs(s: u64) -> Span {
    Span::from_secs(s)
}

fn attempt(outcome: Outcome, elapsed_secs: u64) -> Attempt {
    Attempt { outcome, elapsed: secs(elapsed_secs) }
}

#[test]
fn span_from_secs_counts_nanoseconds() {
    assert_eq!(Span::from_secs(0).nanos, 0);
    assert_eq!(Span::from_secs(3).nanos, 3_000_000_000);
    assert_eq!(Span::from_secs(u64::MAX).nanos, 18_446_744_073_709_551_615_000_000_000);
    assert_eq!(Span::new(2, 500_000_000).nanos, 2_500_000_000);
}

#[test]
fn span_parts() {
    let span = Span::new(7, 123_456_789);
    assert_eq!(span.whole_secs(), 7);
    assert_eq!(span.subsec_nanos(), 123_456_789);
    assert_eq!(span.as_millis(), 7_123);
}

#[test]
fn span_checked_sub_min_max() {
    assert_eq!(secs(5).checked_sub(secs(2)), Some(secs(3)));
    assert_eq!(secs(5).checked_sub(secs(5)), Some(secs(0)));
    assert_eq!(secs(2).checked_sub(secs(5)), None);
    assert_eq!(secs(2).min(secs(5)), secs(2));
    assert_eq!(secs(2).max(secs(5)), secs(5));
}

#[test]
fn timeout_is_never_under_the_floor() {
    let budgets = [None, Some(0), Some(1), Some(5), Some(10), Some(11), Some(3600), Some(u64::MAX)];
    let intervals = [None, Some(0), Some(1), Some(9), Some(10), Some(11), Some(u64::MAX)];
    let elapsed = [Span::from_secs(0), Span::new(0, 1), secs(4), secs(10), secs(100_000)];
    for budget in budgets {
        for interval in intervals {
            for gone in elapsed {
                let tolerant = attempt_timeout(&config(budget, interval, true), gone);
                let strict = attempt_timeout(&config(budget, interval, false), gone);
                assert!(strict.nanos >= 10_000_000_000);
                assert!(tolerant.nanos <= strict.nanos);
            }
        }
    }
}

#[test]
fn timeout_follows_the_formula() {
    assert_eq!(attempt_timeout(&config(Some(5), Some(10), false), secs(0)), secs(10));
    assert_eq!(attempt_timeout(&config(Some(5), Some(10), true), secs(0)), secs(5));
    assert_eq!(
        attempt_timeout(&config(Some(5), Some(10), true), Span::new(3, 500_000_000)),
        Span::new(1, 500_000_000)
    );
    assert_eq!(attempt_timeout(&config(Some(5), Some(10), true), secs(7)), secs(0));
    assert_eq!(attempt_timeout(&config(Some(5), Some(10), true), secs(5)), secs(0));
    assert_eq!(attempt_timeout(&config(Some(100), Some(30), false), secs(0)), secs(30));
    assert_eq!(attempt_timeout(&config(Some(100), Some(30), false), secs(80)), secs(20));
    assert_eq!(attempt_timeout(&config(Some(100), Some(30), false), secs(95)), secs(10));
    assert_eq!(attempt_timeout(&config(Some(100), Some(3), true), secs(0)), secs(3));
}

#[test]
fn timeout_without_budget_is_the_interval() {
    assert_eq!(attempt_timeout(&config(None, Some(3), true), secs(1000)), secs(3));
    assert_eq!(attempt_timeout(&config(None, Some(3), false), secs(1000)), secs(10));
    assert_eq!(attempt_timeout(&config(None, Some(30), false), secs(0)), secs(30));
    assert_eq!(attempt_timeout(&config(None, None, false), secs(0)), secs(10));
    assert_eq!(attempt_timeout(&config(None, None, true), secs(0)), secs(10));
}

#[test]
fn timeout_with_the_largest_values() {
    let all = config(Some(u64::MAX), Some(u64::MAX), true);
    assert_eq!(attempt_timeout(&all, secs(0)), secs(u64::MAX));
    assert_eq!(attempt_timeout(&all, Span { nanos: u128::MAX }), secs(0));
}

#[test]
fn classify_sorts_statuses() {
    assert_eq!(classify(200), Outcome::Success);
    assert_eq!(classify(500), Outcome::NotReadyYet);
    assert_eq!(classify(404), Outcome::OtherStatus(404));
    assert_eq!(classify(204), Outcome::OtherStatus(204));
    assert_eq!(classify(503), Outcome::OtherStatus(503));
    assert_eq!(classify(0), Outcome::OtherStatus(0));
}

#[test]
fn decide_on_each_outcome() {
    for reconnect in [false, true] {
        assert_eq!(decide(reconnect, &Outcome::Success), Decision::TerminateSuccess);
        assert_eq!(decide(reconnect, &Outcome::NotReadyYet), Decision::Continue);
    }
    assert_eq!(decide(true, &Outcome::OtherStatus(404)), Decision::Continue);
    assert_eq!(
        decide(false, &Outcome::OtherStatus(404)),
        Decision::TerminateFatal(Failure::Status(404))
    );
    let refused = Outcome::TransportFailure("connection refused".to_owned());
    assert_eq!(decide(true, &refused), Decision::Continue);
    assert_eq!(
        decide(false, &refused),
        Decision::TerminateFatal(Failure::Transport("connection refused".to_owned()))
    );
}

#[test]
fn budget_is_spent_only_beyond_it() {
    assert!(!budget_spent(None, Span { nanos: u128::MAX }));
    assert!(!budget_spent(Some(5), secs(4)));
    assert!(!budget_spent(Some(5), secs(5)));
    assert!(budget_spent(Some(5), Span::new(5, 1)));
    assert!(budget_spent(Some(0), Span::new(0, 1)));
    assert!(!budget_spent(Some(0), secs(0)));
}

#[test]
fn budget_is_checked_after_the_outcome() {
    let strict = config(Some(5), Some(10), false);
    assert_eq!(after_attempt(&strict, &Outcome::Success, secs(60)), Decision::TerminateSuccess);
    assert_eq!(
        after_attempt(&strict, &Outcome::OtherStatus(403), secs(60)),
        Decision::TerminateFatal(Failure::Status(403))
    );
    assert_eq!(
        after_attempt(&strict, &Outcome::NotReadyYet, secs(60)),
        Decision::TerminateTimedOut(secs(60))
    );
    assert_eq!(after_attempt(&strict, &Outcome::NotReadyYet, secs(5)), Decision::Continue);
    let tolerant = config(Some(5), Some(10), true);
    assert_eq!(
        after_attempt(&tolerant, &Outcome::TransportFailure("timed out".to_owned()), secs(6)),
        Decision::TerminateTimedOut(secs(6))
    );
    assert_eq!(
        after_attempt(&tolerant, &Outcome::OtherStatus(404), secs(1)),
        Decision::Continue
    );
}

#[test]
fn attempt_may_outlast_the_budget_and_then_times_out() {
    let cfg = config(Some(5), Some(10), false);
    let timeout = attempt_timeout(&cfg, secs(0));
    assert_eq!(timeout, secs(10));
    assert!(timeout.nanos > secs(5).nanos);
    let decision = after_attempt(&cfg, &Outcome::NotReadyYet, secs(10));
    assert_eq!(decision, Decision::TerminateTimedOut(secs(10)));
    assert_eq!(exit_code(&finish(decision).unwrap()), 2);
}

#[test]
fn pause_is_what_the_attempt_left() {
    assert_eq!(pause(secs(10), secs(3)), Some(secs(7)));
    assert_eq!(pause(secs(10), Span::new(9, 999_999_999)), Some(Span::new(0, 1)));
    assert_eq!(pause(secs(10), secs(10)), None);
    assert_eq!(pause(secs(10), secs(12)), None);
    assert_eq!(pause(secs(0), secs(0)), None);
}

#[test]
fn not_ready_alone_is_never_fatal() {
    let trace: Vec<Attempt> = (1..=20).map(|i| attempt(Outcome::NotReadyYet, i * 10)).collect();
    let unbounded = config(None, None, false);
    assert_eq!(replay(&unbounded, &trace), (Decision::Continue, 20));
    let bounded = config(Some(45), None, false);
    assert_eq!(replay(&bounded, &trace), (Decision::TerminateTimedOut(secs(50)), 5));
    let tolerant = config(Some(45), None, true);
    assert_eq!(replay(&tolerant, &trace), (Decision::TerminateTimedOut(secs(50)), 5));
}

#[test]
fn other_status_is_fatal_after_one_attempt() {
    let trace = vec![
        attempt(Outcome::OtherStatus(404), 1),
        attempt(Outcome::Success, 2),
    ];
    for budget in [None, Some(0), Some(100)] {
        assert_eq!(
            replay(&config(budget, None, false), &trace),
            (Decision::TerminateFatal(Failure::Status(404)), 1)
        );
    }
    let classified = vec![Attempt { outcome: classify(302), elapsed: secs(1) }];
    assert_eq!(
        replay(&config(None, None, false), &classified),
        (Decision::TerminateFatal(Failure::Status(302)), 1)
    );
}

#[test]
fn failures_then_success_with_reconnect() {
    for failures in [0u64, 1, 2, 17] {
        let mut trace: Vec<Attempt> = (0..failures)
            .map(|i| attempt(Outcome::TransportFailure("connection refused".to_owned()), i))
            .collect();
        trace.push(attempt(classify(200), failures));
        trace.push(attempt(Outcome::OtherStatus(404), failures + 1));
        let end = replay(&config(Some(3600), Some(1), true), &trace);
        assert_eq!(end, (Decision::TerminateSuccess, failures as usize + 1));
        let end = replay(&config(None, None, true), &trace);
        assert_eq!(end, (Decision::TerminateSuccess, failures as usize + 1));
    }
}

#[test]
fn failures_beyond_the_budget_time_out_before_success() {
    let trace = vec![
        attempt(Outcome::TransportFailure("connection refused".to_owned()), 4),
        attempt(Outcome::TransportFailure("connection refused".to_owned()), 8),
        attempt(Outcome::Success, 9),
    ];
    assert_eq!(
        replay(&config(Some(5), Some(1), true), &trace),
        (Decision::TerminateTimedOut(secs(8)), 2)
    );
}

#[test]
fn transport_failure_without_reconnect_is_fatal() {
    let trace = vec![attempt(Outcome::TransportFailure("handshake failed".to_owned()), 1)];
    assert_eq!(
        replay(&config(None, None, false), &trace),
        (Decision::TerminateFatal(Failure::Transport("handshake failed".to_owned())), 1)
    );
}

#[test]
fn replay_of_nothing_goes_on() {
    assert_eq!(replay(&config(Some(0), None, false), &Vec::new()), (Decision::Continue, 0));
}

#[test]
fn finish_gives_the_result() {
    assert!(finish(Decision::Continue).is_none());
    assert!(matches!(finish(Decision::TerminateSuccess), Some(Ok(()))));
    assert!(matches!(
        finish(Decision::TerminateFatal(Failure::Status(404))),
        Some(Err(Error::Request(Failure::Status(404))))
    ));
    match finish(Decision::TerminateTimedOut(secs(12))) {
        Some(Err(Error::Timeout(elapsed))) => assert_eq!(elapsed, secs(12)),
        other => panic!("unexpected: {:?}", other),
    }
}

#[test]
fn exit_codes() {
    assert_eq!(exit_code(&Ok(())), 0);
    assert_eq!(exit_code(&Err(Error::UnixSocketUnsupported)), 1);
    assert_eq!(exit_code(&Err(Error::MissingClientKey)), 1);
    assert_eq!(exit_code(&Err(Error::MissingClientCert)), 1);
    assert_eq!(exit_code(&Err(Error::InvalidBool("yes".to_owned()))), 1);
    assert_eq!(exit_code(&Err(Error::Timeout(secs(5)))), 2);
    assert_eq!(exit_code(&Err(Error::Request(Failure::Status(404)))), 3);
    assert_eq!(exit_code(&Err(Error::Request(Failure::Transport("refused".to_owned())))), 3);
}
