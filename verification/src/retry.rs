use vstd::arithmetic::power2::lemma2_to64;
use vstd::arithmetic::power2::lemma_pow2_pos;
use vstd::arithmetic::power2::lemma_pow2_strictly_increases;
use vstd::arithmetic::power2::lemma_pow2_unfold;
use vstd::arithmetic::power2::pow2;
use vstd::prelude::*;

verus! {

// ---------------------------------------------------------------------------
// Transport errors and the retry policy
// ---------------------------------------------------------------------------

/// How a request failed. `status` is an HTTP status code (100 through 999);
/// `headers` are the response's header entries (name, value).
#[derive(Debug, Clone)]
pub enum TransportError {
    Http { status: u16, url: Option<String>, headers: Option<Vec<(String, String)>>, body: Option<String> },
    RetryLimit,
    Timeout,
    Network(String),
    Build(String),
}

/// A status code as `http::StatusCode` holds one.
pub open spec fn valid_status(err: TransportError) -> bool {
    err matches TransportError::Http { status, .. } ==> 100 <= status <= 999
}

#[derive(Debug, Clone)]
pub struct RetryOn {
    pub retry_429: bool,
    pub retry_5xx: bool,
    pub retry_transport: bool,
}

/// How often and how fast a request is retried; `base_delay_ms` is the
/// first delay in milliseconds.
#[derive(Debug, Clone)]
pub struct RetryPolicy {
    pub max_attempts: u64,
    pub base_delay_ms: u64,
    pub retry_on: RetryOn,
}

pub open spec fn is_server_error_code(status: int) -> bool {
    500 <= status < 600
}

pub open spec fn should_retry_spec(
    on: RetryOn,
    err: TransportError,
    attempt: int,
    max_attempts: int,
) -> bool {
    attempt < max_attempts && match err {
        TransportError::Http { status, .. } => (on.retry_429 && status == 429) || (on.retry_5xx
            && is_server_error_code(status as int)),
        TransportError::Timeout => on.retry_transport,
        TransportError::Network(_) => on.retry_transport,
        _ => false,
    }
}

/// `http::StatusCode::is_server_error` on the status code `code`: whether it
/// lies in 500..600 (the crate's source tests `(500..600).contains(..)`).
#[verifier::external_body]
fn status_is_server_error(code: u16) -> (r: bool)
    requires
        100 <= code <= 999,
    ensures
        r == is_server_error_code(code as int),
{
    match http::StatusCode::from_u16(code) {
        Ok(status) => status.is_server_error(),
        Err(_) => false,
    }
}

impl RetryOn {
    /// Whether a request that failed with `err` on attempt `attempt` is tried
    /// again: never once `attempt` reaches `max_attempts`; HTTP 429 and 5xx
    /// answers as configured; timeouts and network failures when transport
    /// retries are on; nothing else.
    pub fn should_retry(&self, err: &TransportError, attempt: u64, max_attempts: u64) -> (r: bool)
        requires
            valid_status(*err),
        ensures
            r == should_retry_spec(*self, *err, attempt as int, max_attempts as int),
    {
        if attempt >= max_attempts {
            return false;
        }
        match err {
            TransportError::Http { status, .. } => {
                (self.retry_429 && *status == 429) || (self.retry_5xx && status_is_server_error(
                    *status,
                ))
            },
            TransportError::Timeout => self.retry_transport,
            TransportError::Network(_) => self.retry_transport,
            _ => false,
        }
    }
}

// ---------------------------------------------------------------------------
// Exponential backoff
// ---------------------------------------------------------------------------

pub open spec fn min_u64(x: int) -> int {
    if x > u64::MAX {
        u64::MAX as int
    } else {
        x
    }
}

/// The delay before retry number `attempt`: the base delay for attempt 0,
/// else the base delay times 2^(attempt - 1), where the attempt is counted
/// in 32 bits, clamped to `u64::MAX`.
pub open spec fn backoff_spec(base_ms: int, attempt: int) -> int {
    if attempt == 0 {
        base_ms
    } else {
        min_u64(base_ms * pow2((attempt % 0x1_0000_0000 - 1) as nat))
    }
}

proof fn lemma_pow2_monotone(a: nat, b: nat)
    requires
        a <= b,
    ensures
        pow2(a) <= pow2(b),
        pow2(a) >= 1,
{
    lemma_pow2_pos(a);
    if a < b {
        lemma_pow2_strictly_increases(a, b);
    }
}

/// The delay in milliseconds before retry number `attempt` when the first
/// delay is `base_ms` (`attempt` counted in 32 bits, so it may not be a
/// nonzero multiple of 2^32).
pub fn backoff(base_ms: u64, attempt: u64) -> (r: u64)
    requires
        attempt == 0 || attempt % 0x1_0000_0000 != 0,
    ensures
        r == backoff_spec(base_ms as int, attempt as int),
{
    if attempt == 0 {
        return base_ms;
    }
    let e: u64 = attempt % 0x1_0000_0000 - 1;
    // 2^e, clamped to u64::MAX
    proof {
        lemma2_to64();
    }
    let mut exp: u64 = 1;
    let mut i: u64 = 0;
    let mut saturated = false;
    while i < e
        invariant
            i <= e,
            e < 0x1_0000_0000,
            saturated ==> pow2(i as nat) > u64::MAX && exp == u64::MAX,
            !saturated ==> exp == pow2(i as nat),
        decreases e - i,
    {
        proof {
            lemma_pow2_unfold((i + 1) as nat);
            lemma_pow2_pos(i as nat);
        }
        if !saturated {
            match exp.checked_mul(2) {
                Some(v) => {
                    exp = v;
                },
                None => {
                    exp = u64::MAX;
                    saturated = true;
                },
            }
        }
        i = i + 1;
    }
    let ghost p = pow2(e as nat);
    proof {
        lemma_pow2_monotone(0, e as nat);
    }
    let raw = match base_ms.checked_mul(exp) {
        Some(v) => v,
        None => u64::MAX,
    };
    proof {
        if saturated {
            if base_ms == 0 {
                assert(base_ms * p == 0);
            } else {
                assert(base_ms * p >= p) by (nonlinear_arith)
                    requires
                        base_ms >= 1,
                        p >= 0,
                ;
                assert(base_ms * exp >= exp) by (nonlinear_arith)
                    requires
                        base_ms >= 1,
                        exp >= 0,
                ;
            }
        }
    }
    raw
}

// ---------------------------------------------------------------------------
// One step of the retry loop
// ---------------------------------------------------------------------------

/// What the retry loop does after a failed attempt.
#[derive(Debug, Clone)]
pub enum RetryAction {
    /// Wait `delay_ms` milliseconds, then make attempt `next_attempt`.
    Retry { delay_ms: u64, next_attempt: u64 },
    /// Stop and report the error.
    GiveUp(TransportError),
}

/// The decision after attempt `attempt` failed with `err`: retry after the
/// backoff for the next attempt when the policy says so, else give up with
/// `err` itself.
pub fn retry_step(policy: &RetryPolicy, attempt: u64, err: TransportError) -> (r: RetryAction)
    requires
        valid_status(err),
        should_retry_spec(policy.retry_on, err, attempt as int, policy.max_attempts as int) ==> (
        attempt + 1) % 0x1_0000_0000 != 0,
    ensures
        should_retry_spec(policy.retry_on, err, attempt as int, policy.max_attempts as int) ==> r
            == (RetryAction::Retry {
            delay_ms: backoff_spec(policy.base_delay_ms as int, attempt + 1) as u64,
            next_attempt: (attempt + 1) as u64,
        }),
        !should_retry_spec(policy.retry_on, err, attempt as int, policy.max_attempts as int) ==> r
            == RetryAction::GiveUp(err),
{
    if policy.retry_on.should_retry(&err, attempt, policy.max_attempts) {
        let next = attempt + 1;
        RetryAction::Retry { delay_ms: backoff(policy.base_delay_ms, next), next_attempt: next }
    } else {
        RetryAction::GiveUp(err)
    }
}

} // verus!
