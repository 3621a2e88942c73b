use mpipe::retry::{
    decide_attempt, is_retryable_request_error, is_retryable_status, retry_delay, run_attempts,
    HttpOutcome, NetErrorKind, RequestFailure, RetryConfig, RetryDecision,
};

#[test]
fn retry_delay_uses_exponential_backoff() {
    assert_eq!(retry_delay(0, 200), 200);
    assert_eq!(retry_delay(1, 200), 400);
    assert_eq!(retry_delay(2, 200), 800);
}

#[test]
fn retry_delay_caps_at_thirty_seconds() {
    assert_eq!(retry_delay(10, 500), 30_000);
    assert_eq!(retry_delay(30, 5_000), 30_000);
}

#[test]
fn retry_delay_with_base_five_hundred_caps_at_attempt_ten() {
    assert_eq!(retry_delay(0, 500), 500);
    assert_eq!(retry_delay(5, 500), 16_000);
    assert_eq!(retry_delay(6, 500), 30_000);
    assert_eq!(retry_delay(0, 0), 0);
    assert_eq!(retry_delay(200, 0), 0);
    assert_eq!(retry_delay(63, 1), 30_000);
    assert_eq!(retry_delay(64, u64::MAX), 30_000);
}

#[test]
fn retryable_statuses_match_policy() {
    assert!(is_retryable_status(429));
    assert!(is_retryable_status(500));
    assert!(is_retryable_status(502));

    assert!(!is_retryable_status(400));
    assert!(!is_retryable_status(401));
    assert!(!is_retryable_status(404));
}

#[test]
fn five_xx_and_rate_limit_are_retryable_and_other_codes_are_not() {
    assert!(is_retryable_status(503));
    assert!(is_retryable_status(599));
    assert!(!is_retryable_status(200));
    assert!(!is_retryable_status(301));
    assert!(!is_retryable_status(418));
    assert!(!is_retryable_status(600));
}

#[test]
fn network_error_kinds_classify_as_documented() {
    assert!(is_retryable_request_error(NetErrorKind::Timeout));
    assert!(is_retryable_request_error(NetErrorKind::Connect));
    assert!(is_retryable_request_error(NetErrorKind::Request));
    assert!(!is_retryable_request_error(NetErrorKind::Redirect));
    assert!(!is_retryable_request_error(NetErrorKind::Body));
    assert!(!is_retryable_request_error(NetErrorKind::Decode));
    assert!(!is_retryable_request_error(NetErrorKind::Other));
}

fn config(retries: u32, delay: u64) -> RetryConfig {
    RetryConfig {
        timeout_secs: None,
        retries,
        retry_delay_ms: delay,
    }
}

#[test]
fn two_retries_allow_a_third_attempt_to_succeed() {
    let script = vec![
        HttpOutcome::Response {
            status: 500,
            body: String::from("first failure"),
        },
        HttpOutcome::Response {
            status: 500,
            body: String::from("second failure"),
        },
        HttpOutcome::Response {
            status: 200,
            body: String::from("third answer"),
        },
    ];
    let (result, attempts) = run_attempts(script, &config(2, 200));
    assert_eq!(attempts, 3);
    match result {
        Ok(body) => assert_eq!(body, "third answer"),
        Err(_) => panic!("the third attempt should have succeeded"),
    }
}

#[test]
fn zero_retries_stop_after_one_attempt_even_when_retryable() {
    let script = vec![HttpOutcome::Response {
        status: 500,
        body: String::from("server trouble"),
    }];
    let (result, attempts) = run_attempts(script, &config(0, 200));
    assert_eq!(attempts, 1);
    match result {
        Err(RequestFailure::Api { status, body }) => {
            assert_eq!(status, 500);
            assert_eq!(body, "server trouble");
        }
        _ => panic!("a server error with no budget must surface as an API failure"),
    }
}

#[test]
fn zero_retries_stop_after_one_attempt_on_fatal_failure() {
    let script = vec![HttpOutcome::Response {
        status: 400,
        body: String::from("bad request"),
    }];
    let (result, attempts) = run_attempts(script, &config(0, 200));
    assert_eq!(attempts, 1);
    assert!(matches!(result, Err(RequestFailure::Api { status: 400, .. })));
}

#[test]
fn fatal_status_stops_at_once_with_budget_left() {
    let script = vec![
        HttpOutcome::Response {
            status: 404,
            body: String::from("missing"),
        },
        HttpOutcome::Response {
            status: 200,
            body: String::from("never reached"),
        },
        HttpOutcome::Response {
            status: 200,
            body: String::from("never reached"),
        },
    ];
    let (result, attempts) = run_attempts(script, &config(2, 200));
    assert_eq!(attempts, 1);
    assert!(matches!(result, Err(RequestFailure::Api { status: 404, .. })));
}

#[test]
fn exhausted_budget_surfaces_the_last_failure() {
    let script = vec![
        HttpOutcome::Response {
            status: 503,
            body: String::from("first"),
        },
        HttpOutcome::NetError {
            kind: NetErrorKind::Timeout,
            message: String::from("timed out at last"),
        },
    ];
    let (result, attempts) = run_attempts(script, &config(1, 100));
    assert_eq!(attempts, 2);
    match result {
        Err(RequestFailure::Request { kind, message }) => {
            assert_eq!(kind, NetErrorKind::Timeout);
            assert_eq!(message, "timed out at last");
        }
        _ => panic!("the last attempt's failure should surface"),
    }
}

#[test]
fn decide_attempt_waits_with_exponential_backoff() {
    let outcome = HttpOutcome::Response {
        status: 429,
        body: String::from("slow down"),
    };
    match decide_attempt(outcome, 1, &config(3, 200)) {
        RetryDecision::Retry { delay_ms } => assert_eq!(delay_ms, 400),
        _ => panic!("a rate limit within budget should retry"),
    }
}

#[test]
fn decide_attempt_returns_success_body() {
    let outcome = HttpOutcome::Response {
        status: 204,
        body: String::from(""),
    };
    assert!(matches!(
        decide_attempt(outcome, 0, &config(0, 200)),
        RetryDecision::Success { .. }
    ));
}
