//! Retry and backoff policy for provider HTTP attempts.
//!
//! One invocation makes up to `retries + 1` sequential attempts. A failed
//! attempt is either retryable (rate limiting, server errors, transient
//! network trouble) or fatal; before a retry the caller sleeps for an
//! exponentially growing delay capped at thirty seconds.

use vstd::prelude::*;
use vstd::arithmetic::power2::pow2;

verus! {

/// Upper bound, in milliseconds, on the delay between two attempts.
pub const MAX_BACKOFF_MS: u64 = 30000;

/// The delay before retrying after the failed attempt with 0-based index
/// `attempt`: `base_ms * 2^attempt`, capped at [`MAX_BACKOFF_MS`].
pub open spec fn backoff_ms(attempt: nat, base_ms: nat) -> nat {
    if base_ms * pow2(attempt) > MAX_BACKOFF_MS as nat {
        MAX_BACKOFF_MS as nat
    } else {
        base_ms * pow2(attempt)
    }
}

/// Computes the backoff delay in milliseconds for the given 0-based attempt
/// index, saturating at [`MAX_BACKOFF_MS`] instead of overflowing.
pub fn retry_delay(attempt: u32, base_ms: u64) -> (delay_ms: u64)
    ensures
        delay_ms == backoff_ms(attempt as nat, base_ms as nat),
{
    if base_ms == 0 {
        0
    } else if attempt >= 15 {
        proof {
            vstd::arithmetic::power2::lemma2_to64();
            if attempt > 15 {
                vstd::arithmetic::power2::lemma_pow2_strictly_increases(15, attempt as nat);
            }
            assert(base_ms * pow2(attempt as nat) >= pow2(attempt as nat)) by (nonlinear_arith)
                requires base_ms >= 1;
        }
        MAX_BACKOFF_MS
    } else {
        let factor: u64 = 1u64 << (attempt as u64);
        proof {
            vstd::arithmetic::power2::lemma2_to64();
            if attempt < 14 {
                vstd::arithmetic::power2::lemma_pow2_strictly_increases(attempt as nat, 14);
            }
            vstd::bits::lemma_u64_shl_is_mul(1u64, attempt as u64);
        }
        match base_ms.checked_mul(factor) {
            Some(product) => {
                if product > MAX_BACKOFF_MS {
                    MAX_BACKOFF_MS
                } else {
                    product
                }
            },
            None => MAX_BACKOFF_MS,
        }
    }
}

/// Whether an HTTP status calls for another attempt: rate limiting (429) or
/// any server error (5xx).
pub open spec fn spec_retryable_status(status: u16) -> bool {
    status == 429 || (500 <= status && status <= 599)
}

/// Executable test for [`spec_retryable_status`].
pub fn is_retryable_status(status: u16) -> (r: bool)
    ensures
        r == spec_retryable_status(status),
{
    status == 429 || (500 <= status && status <= 599)
}

/// The category of a network-level failure, as the transport reports it.
#[derive(Debug, Clone, Copy, PartialEq, Eq, Structural)]
pub enum NetErrorKind {
    /// The attempt's timeout elapsed.
    Timeout,
    /// The connection could not be established.
    Connect,
    /// The request failed before or while being sent.
    Request,
    /// The redirect policy was exhausted or violated.
    Redirect,
    /// The response body could not be read.
    Body,
    /// The response body could not be decoded.
    Decode,
    /// Anything else.
    Other,
}

/// Whether a network-level failure calls for another attempt: timeouts,
/// connection failures and generic pre-send request errors do.
pub open spec fn spec_retryable_net(kind: NetErrorKind) -> bool {
    kind == NetErrorKind::Timeout || kind == NetErrorKind::Connect || kind
        == NetErrorKind::Request
}

/// Executable test for [`spec_retryable_net`].
pub fn is_retryable_request_error(kind: NetErrorKind) -> (r: bool)
    ensures
        r == spec_retryable_net(kind),
{
    match kind {
        NetErrorKind::Timeout => true,
        NetErrorKind::Connect => true,
        NetErrorKind::Request => true,
        _ => false,
    }
}

/// What governs the retry loop: the per-attempt timeout, the retry budget,
/// and the base backoff delay.
#[derive(Debug, Clone, Copy)]
pub struct RetryConfig {
    pub timeout_secs: Option<u64>,
    pub retries: u32,
    pub retry_delay_ms: u64,
}

/// What one HTTP attempt produced: a response with status and body, or a
/// network-level failure.
#[derive(Debug)]
pub enum HttpOutcome {
    Response { status: u16, body: String },
    NetError { kind: NetErrorKind, message: String },
}

/// A failed request after the retry loop gives up: the last attempt's
/// network-level failure or non-success response.
#[derive(Debug)]
pub enum RequestFailure {
    Request { kind: NetErrorKind, message: String },
    Api { status: u16, body: String },
}

/// What the retry loop does after one attempt.
#[derive(Debug)]
pub enum RetryDecision {
    /// The attempt succeeded: stop and hand the body on.
    Success { body: String },
    /// The failure is transient and budget remains: sleep, then try again.
    Retry { delay_ms: u64 },
    /// The failure is fatal or the budget is spent: stop with it.
    Fail { failure: RequestFailure },
}

/// Whether an attempt succeeded: a response with a 2xx status.
pub open spec fn spec_outcome_success(o: HttpOutcome) -> bool {
    match o {
        HttpOutcome::Response { status, .. } => 200 <= status && status <= 299,
        HttpOutcome::NetError { .. } => false,
    }
}

/// Whether a failed attempt is transient.
pub open spec fn spec_outcome_retryable(o: HttpOutcome) -> bool {
    match o {
        HttpOutcome::Response { status, .. } => spec_retryable_status(status),
        HttpOutcome::NetError { kind, .. } => spec_retryable_net(kind),
    }
}

/// The failure reported when the loop stops on an outcome.
pub open spec fn spec_failure_of(o: HttpOutcome) -> RequestFailure {
    match o {
        HttpOutcome::Response { status, body } => RequestFailure::Api { status, body },
        HttpOutcome::NetError { kind, message } => RequestFailure::Request { kind, message },
    }
}

/// Decides what follows the attempt with 0-based index `attempt`: success
/// stops with the body; a transient failure within the budget of
/// `retries + 1` total attempts waits for the exponential backoff delay and
/// retries; anything else stops with the failure.
pub fn decide_attempt(outcome: HttpOutcome, attempt: u32, config: &RetryConfig) -> (d:
    RetryDecision)
    ensures
        spec_outcome_success(outcome) ==> (d matches RetryDecision::Success { body } && (
        outcome matches HttpOutcome::Response { body: b, .. } && body == b)),
        !spec_outcome_success(outcome) && spec_outcome_retryable(outcome) && attempt
            < config.retries ==> d == (RetryDecision::Retry {
            delay_ms: backoff_ms(attempt as nat, config.retry_delay_ms as nat) as u64,
        }),
        !spec_outcome_success(outcome) && !(spec_outcome_retryable(outcome) && attempt
            < config.retries) ==> d == (RetryDecision::Fail {
            failure: spec_failure_of(outcome),
        }),
{
    match outcome {
        HttpOutcome::Response { status, body } => {
            if 200 <= status && status <= 299 {
                RetryDecision::Success { body }
            } else if is_retryable_status(status) && attempt < config.retries {
                RetryDecision::Retry { delay_ms: retry_delay(attempt, config.retry_delay_ms) }
            } else {
                RetryDecision::Fail { failure: RequestFailure::Api { status, body } }
            }
        },
        HttpOutcome::NetError { kind, message } => {
            if is_retryable_request_error(kind) && attempt < config.retries {
                RetryDecision::Retry { delay_ms: retry_delay(attempt, config.retry_delay_ms) }
            } else {
                RetryDecision::Fail { failure: RequestFailure::Request { kind, message } }
            }
        },
    }
}

/// The 0-based index of the attempt on which the loop stops, for a scripted
/// sequence of outcomes and a retry budget: the first outcome that is a
/// success or a fatal failure, or the one that exhausts the budget.
pub open spec fn spec_stop_index(script: Seq<HttpOutcome>, retries: nat) -> nat
    decreases script.len(),
{
    if script.len() == 0 {
        0
    } else if spec_outcome_success(script[0]) || !spec_outcome_retryable(script[0]) || retries
        == 0 {
        0
    } else {
        1 + spec_stop_index(script.drop_first(), (retries - 1) as nat)
    }
}

/// Runs the retry state machine over a scripted sequence of attempt
/// outcomes, one outcome per attempt, and reports the result together with
/// the number of attempts made. With a budget of `retries`, at most
/// `retries + 1` attempts are made; a success or fatal failure stops the
/// loop at once.
pub fn run_attempts(script: Vec<HttpOutcome>, config: &RetryConfig) -> (r: (Result<
    String,
    RequestFailure,
>, u64))
    requires
        script@.len() > config.retries,
    ensures
        ({
            let idx = spec_stop_index(script@, config.retries as nat) as int;
            &&& r.1 == idx + 1
            &&& (spec_outcome_success(script@[idx]) ==> (r.0 matches Ok(body) && (
            script@[idx] matches HttpOutcome::Response { body: b, .. } && body == b)))
            &&& (!spec_outcome_success(script@[idx]) ==> r.0 == Err::<String, RequestFailure>(
                spec_failure_of(script@[idx]),
            ))
        }),
{
    let ghost orig = script@;
    let mut rest = script;
    let mut attempt: u32 = 0;
    loop
        invariant
            orig == script@,
            attempt <= config.retries,
            rest@ == orig.skip(attempt as int),
            orig.len() > config.retries,
            spec_stop_index(orig, config.retries as nat) == attempt + spec_stop_index(
                rest@,
                (config.retries - attempt) as nat,
            ),
            forall|j: int| 0 <= j < attempt ==> !spec_outcome_success(orig[j]),
        decreases config.retries - attempt,
    {
        proof {
            assert(rest@.len() == orig.len() - attempt);
        }
        let ghost pre = rest@;
        let ghost budget = (config.retries - attempt) as nat;
        let outcome = rest.remove(0);
        proof {
            assert(pre[0] == orig[attempt as int]);
        }
        match decide_attempt(outcome, attempt, config) {
            RetryDecision::Success { body } => {
                proof {
                    assert(spec_stop_index(pre, budget) == 0);
                    assert(spec_stop_index(orig, config.retries as nat) == attempt as nat);
                }
                return (Ok(body), attempt as u64 + 1);
            },
            RetryDecision::Fail { failure } => {
                proof {
                    assert(!spec_outcome_success(pre[0]));
                    assert(!(spec_outcome_retryable(pre[0]) && attempt < config.retries));
                    if !spec_outcome_retryable(pre[0]) {
                        assert(spec_stop_index(pre, budget) == 0);
                    } else {
                        assert(attempt == config.retries);
                        assert(budget == 0);
                        assert(spec_stop_index(pre, budget) == 0);
                    }
                    assert(spec_stop_index(orig, config.retries as nat) == attempt as nat);
                    assert(failure == spec_failure_of(orig[attempt as int]));
                }
                return (Err(failure), attempt as u64 + 1);
            },
            RetryDecision::Retry { .. } => {
                proof {
                    assert(spec_stop_index(pre, budget) == 1 + spec_stop_index(
                        pre.drop_first(),
                        (budget - 1) as nat,
                    ));
                    assert(pre.drop_first() =~= rest@);
                    assert(rest@ =~= orig.skip(attempt + 1));
                }
                attempt = attempt + 1;
            },
        }
    }
}

/// With a retry budget of two and a script whose first two attempts fail
/// with HTTP status 500 while the third succeeds, the loop stops on the
/// third attempt: by the contract of [`run_attempts`], exactly three
/// attempts are made and the third response's body is returned.
pub proof fn lemma_two_retries_third_success(script: Seq<HttpOutcome>)
    requires
        script.len() == 3,
        script[0] matches HttpOutcome::Response { status, .. } && status == 500,
        script[1] matches HttpOutcome::Response { status, .. } && status == 500,
        spec_outcome_success(script[2]),
    ensures
        spec_stop_index(script, 2) == 2,
{
    assert(script.drop_first()[0] == script[1]);
    assert(script.drop_first().drop_first()[0] == script[2]);
    assert(spec_stop_index(script, 2) == 1 + spec_stop_index(script.drop_first(), 1));
    assert(spec_stop_index(script.drop_first(), 1) == 1 + spec_stop_index(
        script.drop_first().drop_first(),
        0,
    ));
    assert(spec_stop_index(script.drop_first().drop_first(), 0) == 0);
}

/// With a retry budget of zero, the loop stops on the first attempt
/// whatever its outcome: by the contract of [`run_attempts`], exactly one
/// attempt is made.
pub proof fn lemma_zero_retries_single_attempt(script: Seq<HttpOutcome>)
    requires
        script.len() >= 1,
    ensures
        spec_stop_index(script, 0) == 0,
{
}

} // verus!

