use serp_sdk::retry::DEFAULT_MAX_RETRIES;
use serp_sdk::{Pause, RequestFailure, RetryPolicy, RetryStep, SerpError};

fn policy(max_retries: usize) -> RetryPolicy {
    RetryPolicy::new(max_retries)
        .with_base_delay(100)
        .with_max_delay(10_000)
        .with_backoff_multiplier(2000)
}

fn transport(timeout: bool, connect: bool, request: bool) -> SerpError {
    SerpError::RequestFailed(RequestFailure {
        is_timeout: timeout,
        is_connect: connect,
        is_request: request,
        message: "boom".to_string(),
    })
}

#[test]
fn backoff_example_values() {
    let p = policy(5);
    assert_eq!(p.backoff_duration(0), 100);
    assert_eq!(p.backoff_duration(1), 200);
    assert_eq!(p.backoff_duration(4), 1600);
    assert_eq!(p.backoff_duration(10), 10_000);
}

#[test]
fn backoff_is_monotone_and_bounded() {
    let p = policy(5);
    let mut last = 0;
    for a in 0..200 {
        let d = p.backoff_duration(a);
        assert!(d >= last);
        assert!(d <= 10_000);
        last = d;
    }
}

#[test]
fn backoff_truncates_once_after_the_power() {
    let p = policy(5).with_backoff_multiplier(1500);
    assert_eq!(p.backoff_duration(4), 506);
    let slow = policy(5).with_base_delay(10).with_backoff_multiplier(1050);
    assert_eq!(slow.backoff_duration(1), 10);
    assert_eq!(slow.backoff_duration(20), 26);
}

#[test]
fn backoff_zero_base_and_zero_factor() {
    assert_eq!(policy(1).with_base_delay(0).backoff_duration(7), 0);
    assert_eq!(policy(1).with_backoff_multiplier(0).backoff_duration(0), 100);
    assert_eq!(policy(1).with_backoff_multiplier(0).backoff_duration(1), 0);
    assert_eq!(policy(1).with_base_delay(50_000).with_backoff_multiplier(1000).backoff_duration(3), 10_000);
}

#[test]
fn backoff_fractional_multiplier() {
    let p = policy(1).with_base_delay(1000).with_backoff_multiplier(1500);
    assert_eq!(p.backoff_duration(1), 1500);
    assert_eq!(p.backoff_duration(2), 2250);
    assert_eq!(p.backoff_duration(3), 3375);
}

#[test]
fn backoff_shrinking_multiplier() {
    let p = policy(1).with_base_delay(1000).with_backoff_multiplier(500);
    assert_eq!(p.backoff_duration(1), 500);
    assert_eq!(p.backoff_duration(3), 125);
    assert_eq!(p.backoff_duration(100), 0);
}

#[test]
fn backoff_large_attempt_terminates() {
    let p = policy(1).with_max_delay(u64::MAX).with_base_delay(1);
    assert_eq!(p.backoff_duration(usize::MAX), u64::MAX);
    let flat = policy(1).with_backoff_multiplier(1000);
    assert_eq!(flat.backoff_duration(usize::MAX), 100);
}

#[test]
fn default_policy_values() {
    let p = RetryPolicy::default();
    assert_eq!(p.max_retries, DEFAULT_MAX_RETRIES);
    assert_eq!(p.base_delay_ms, 100);
    assert_eq!(p.max_delay_ms, 10_000);
    assert_eq!(p.backoff_multiplier_milli, 2000);
}

/// Runs the executor's decisions over scripted outcomes; returns the number
/// of attempts, the waits taken and the final result.
fn run(p: &RetryPolicy, mut outcomes: Vec<Result<u32, SerpError>>) -> (usize, Vec<Pause>, Result<u32, SerpError>) {
    outcomes.reverse();
    let mut attempt = 0usize;
    let mut waits = Vec::new();
    loop {
        let outcome = outcomes.pop().expect("script ran out");
        match p.next_step(attempt, outcome) {
            RetryStep::Finish(r) => return (attempt + 1, waits, r),
            RetryStep::Retry(w) => {
                waits.push(w);
                attempt += 1;
            }
        }
    }
}

#[test]
fn success_finishes_at_once() {
    let (n, waits, r) = run(&policy(3), vec![Ok(7)]);
    assert_eq!(n, 1);
    assert!(waits.is_empty());
    assert_eq!(r.unwrap(), 7);
}

#[test]
fn transient_errors_exhaust_budget_and_return_last_error() {
    let outcomes = vec![
        Err(SerpError::Timeout),
        Err(transport(false, true, false)),
        Err(SerpError::ApiError { code: 503, message: "last".to_string() }),
        Ok(1),
    ];
    let (n, waits, r) = run(&policy(2), outcomes);
    assert_eq!(n, 3);
    assert_eq!(waits, vec![Pause::Millis(100), Pause::Millis(200)]);
    match r {
        Err(SerpError::ApiError { code, message }) => {
            assert_eq!(code, 503);
            assert_eq!(message, "last");
        }
        other => panic!("unexpected {:?}", other),
    }
}

#[test]
fn retries_then_succeeds() {
    let outcomes = vec![Err(SerpError::Network("dns".to_string())), Ok(5)];
    let (n, waits, r) = run(&policy(3), outcomes);
    assert_eq!(n, 2);
    assert_eq!(waits, vec![Pause::Millis(100)]);
    assert_eq!(r.unwrap(), 5);
}

#[test]
fn rate_limit_waits_server_time() {
    let p = policy(3).with_base_delay(1).with_max_delay(2);
    let step = p.next_step::<u32>(0, Err(SerpError::RateLimited { retry_after: 60 }));
    assert!(matches!(step, RetryStep::Retry(Pause::Seconds(60))));
}

#[test]
fn rate_limit_after_budget_is_returned() {
    let step = policy(1).next_step::<u32>(1, Err(SerpError::RateLimited { retry_after: 60 }));
    assert!(matches!(step, RetryStep::Finish(Err(SerpError::RateLimited { retry_after: 60 }))));
}

#[test]
fn client_error_is_never_retried() {
    let outcomes = vec![Err(SerpError::ApiError { code: 404, message: "nf".to_string() }), Ok(1)];
    let (n, waits, r) = run(&policy(5), outcomes);
    assert_eq!(n, 1);
    assert!(waits.is_empty());
    assert!(matches!(r, Err(SerpError::ApiError { code: 404, .. })));
}

#[test]
fn final_errors_are_not_retried() {
    let p = policy(5);
    let finals = vec![
        SerpError::InvalidResponse("bad json".to_string()),
        SerpError::MissingApiKey,
        SerpError::InvalidParameter("x".to_string()),
        SerpError::ApiError { code: 429, message: String::new() },
        SerpError::ApiError { code: 600, message: String::new() },
        transport(false, false, false),
    ];
    for e in finals {
        assert!(matches!(p.next_step::<u32>(0, Err(e)), RetryStep::Finish(Err(_))));
    }
}

#[test]
fn transient_classification() {
    assert!(transport(true, false, false).is_transient());
    assert!(transport(false, true, false).is_transient());
    assert!(transport(false, false, true).is_transient());
    assert!(!transport(false, false, false).is_transient());
    assert!(SerpError::ApiError { code: 500, message: String::new() }.is_transient());
    assert!(SerpError::ApiError { code: 599, message: String::new() }.is_transient());
    assert!(!SerpError::ApiError { code: 499, message: String::new() }.is_transient());
    assert!(SerpError::Timeout.is_transient());
    assert!(!SerpError::RateLimited { retry_after: 1 }.is_transient());
}

#[test]
fn zero_retries_means_one_attempt() {
    let (n, _, r) = run(&policy(0), vec![Err(SerpError::Timeout), Ok(1)]);
    assert_eq!(n, 1);
    assert!(matches!(r, Err(SerpError::Timeout)));
}
