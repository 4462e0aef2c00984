//! Decisions of the rate-limited, retrying Reddit API client.
use vstd::prelude::*;
use crate::error::{Error, HttpFailure};
use crate::text::{push_str, parsed_u64, parse_u64};

verus! {

/// The number of attempts made for one API request.
pub const MAX_ATTEMPTS: u32 = 3;

/// The least gap between two API requests, in nanoseconds (one second).
pub const MIN_REQUEST_GAP_NANOS: u128 = 1_000_000_000;

/// The wait, in seconds, when a 429 response gives no usable `Retry-After`.
pub const DEFAULT_RETRY_AFTER_SECS: u64 = 60;

/// Whether an HTTP status code marks a transient failure worth retrying.
pub open spec fn transient_status(status: u16) -> bool {
    status == 429 || status == 500 || status == 502 || status == 503 || status == 504
}

/// Returns true if this HTTP status code is a transient error that warrants a retry.
pub fn is_transient_status(status: u16) -> (r: bool)
    ensures
        r == transient_status(status),
{
    status == 429 || status == 500 || status == 502 || status == 503 || status == 504
}

/// Returns true if the failure is a transient network condition: a timeout or
/// a failed connection.
pub fn is_transient_network_error(e: &HttpFailure) -> (r: bool)
    ensures
        r == (e.is_timeout || e.is_connect),
{
    e.is_timeout || e.is_connect
}

/// The full URL of an API path.
pub open spec fn api_url_spec(path: Seq<char>) -> Seq<char> {
    "https://oauth.reddit.com"@ + path
}

/// The full URL of an API path.
pub fn api_url(path: &str) -> (r: String)
    ensures
        r@ == api_url_spec(path@),
{
    let mut u = String::from_str("https://oauth.reddit.com");
    push_str(&mut u, path);
    u
}

/// How long to wait before the next request so that requests are at least a
/// second apart, given the time since the previous one (if any).
pub open spec fn rate_limit_wait(elapsed_nanos: Option<u128>) -> u128 {
    match elapsed_nanos {
        Some(e) => if e < MIN_REQUEST_GAP_NANOS {
            (MIN_REQUEST_GAP_NANOS - e) as u128
        } else {
            0
        },
        None => 0,
    }
}

/// The wait before the next API request, in nanoseconds.
pub fn rate_limit_delay(elapsed_nanos: Option<u128>) -> (r: u128)
    ensures
        r == rate_limit_wait(elapsed_nanos),
        r <= MIN_REQUEST_GAP_NANOS,
{
    match elapsed_nanos {
        Some(e) => if e < MIN_REQUEST_GAP_NANOS {
            MIN_REQUEST_GAP_NANOS - e
        } else {
            0
        },
        None => 0,
    }
}

/// The number of seconds a `Retry-After` header asks for: its value as a
/// number, or 60 when it is missing or not a number.
pub open spec fn retry_after_secs(header: Option<Seq<char>>) -> u64 {
    match header {
        Some(h) => match parsed_u64(h) {
            Some(n) => n,
            None => DEFAULT_RETRY_AFTER_SECS,
        },
        None => DEFAULT_RETRY_AFTER_SECS,
    }
}

/// Reads the `Retry-After` header of a 429 response.
pub fn retry_after_from_header(header: Option<&str>) -> (r: u64)
    ensures
        r == retry_after_secs(
            match header {
                Some(h) => Some(h@),
                None => None,
            },
        ),
{
    match header {
        Some(h) => match parse_u64(h) {
            Some(n) => n,
            None => DEFAULT_RETRY_AFTER_SECS,
        },
        None => DEFAULT_RETRY_AFTER_SECS,
    }
}

/// What came back from one attempt of an API request.
#[derive(Debug, Clone, Copy, PartialEq, Eq)]
pub enum Outcome {
    /// The request failed before a response; `transient` for a timeout or a
    /// failed connection.
    NetworkError { transient: bool },
    /// A response with this status. `retry_after` is the wait a 429 response
    /// asks for.
    Status { code: u16, retry_after: u64 },
}

/// What the client does next.
#[derive(Debug, Clone, Copy, PartialEq, Eq)]
pub enum Step {
    /// The response succeeded: parse its body.
    ParseBody,
    /// Refresh the token, then make the next attempt.
    RefreshAndRetry,
    /// Wait this many seconds, then make the next attempt.
    WaitAndRetry { secs: u64 },
    /// Report the network failure.
    FailNetwork,
    /// Report that the API kept answering 429.
    FailRateLimited { retry_after: u64 },
    /// Report the unexpected status.
    FailStatus,
}

/// The exponential backoff before attempt `attempt + 1`: `2^attempt` seconds.
pub open spec fn backoff_secs(attempt: u32) -> u64 {
    if attempt == 0 {
        1
    } else if attempt == 1 {
        2
    } else {
        4
    }
}

/// The client's decision after attempt `attempt` (from zero) ended with
/// `outcome`, when `token_refreshed` tells whether this request already
/// refreshed the token:
/// - a transient network failure is retried after `2^attempt` seconds while
///   attempts remain; any other network failure is reported;
/// - a 2xx response is parsed;
/// - a 401 refreshes the token once per request and retries;
/// - a 429 is retried after the wait it asks for while attempts remain, and
///   reported as rate limiting otherwise;
/// - a 500, 502, 503 or 504 is retried after `2^attempt` seconds while
///   attempts remain;
/// - any other status is reported.
pub open spec fn next_step_spec(attempt: u32, token_refreshed: bool, outcome: Outcome) -> Step {
    let more = attempt + 1 < MAX_ATTEMPTS;
    match outcome {
        Outcome::NetworkError { transient } => if transient && more {
            Step::WaitAndRetry { secs: backoff_secs(attempt) }
        } else {
            Step::FailNetwork
        },
        Outcome::Status { code, retry_after } => if 200 <= code <= 299 {
            Step::ParseBody
        } else if code == 401 && !token_refreshed {
            Step::RefreshAndRetry
        } else if code == 429 {
            if more {
                Step::WaitAndRetry { secs: retry_after }
            } else {
                Step::FailRateLimited { retry_after }
            }
        } else if transient_status(code) && more {
            Step::WaitAndRetry { secs: backoff_secs(attempt) }
        } else {
            Step::FailStatus
        },
    }
}

/// Decides what follows attempt `attempt` of an API request.
pub fn next_step(attempt: u32, token_refreshed: bool, outcome: Outcome) -> (r: Step)
    requires
        attempt < MAX_ATTEMPTS,
    ensures
        r == next_step_spec(attempt, token_refreshed, outcome),
{
    let more = attempt + 1 < MAX_ATTEMPTS;
    let backoff: u64 = if attempt == 0 {
        1
    } else if attempt == 1 {
        2
    } else {
        4
    };
    match outcome {
        Outcome::NetworkError { transient } => if transient && more {
            Step::WaitAndRetry { secs: backoff }
        } else {
            Step::FailNetwork
        },
        Outcome::Status { code, retry_after } => if 200 <= code && code <= 299 {
            Step::ParseBody
        } else if code == 401 && !token_refreshed {
            Step::RefreshAndRetry
        } else if code == 429 {
            if more {
                Step::WaitAndRetry { secs: retry_after }
            } else {
                Step::FailRateLimited { retry_after }
            }
        } else if is_transient_status(code) && more {
            Step::WaitAndRetry { secs: backoff }
        } else {
            Step::FailStatus
        },
    }
}

/// A server error (500, 502, 503 or 504) is retried, whatever the token state
/// and any `Retry-After`, after 1 second following the first attempt and 2
/// seconds following the second (the backoff doubles), and is reported after
/// the last attempt.
pub proof fn lemma_server_errors_retried(code: u16, token_refreshed: bool, retry_after: u64)
    requires
        code == 500 || code == 502 || code == 503 || code == 504,
    ensures
        next_step_spec(0, token_refreshed, (Outcome::Status { code, retry_after }))
            == (Step::WaitAndRetry { secs: 1 }),
        next_step_spec(1, token_refreshed, (Outcome::Status { code, retry_after }))
            == (Step::WaitAndRetry { secs: 2 }),
        next_step_spec(2, token_refreshed, (Outcome::Status { code, retry_after })) == Step::FailStatus,
{
}

/// A success (2xx) is parsed at every attempt; a 429 is retried after the
/// wait it asks for while attempts remain, and reported as rate limiting,
/// with that wait, after the last attempt.
pub proof fn lemma_success_and_rate_limit(
    attempt: u32,
    code: u16,
    token_refreshed: bool,
    retry_after: u64,
)
    requires
        attempt < MAX_ATTEMPTS,
    ensures
        200 <= code <= 299 ==> next_step_spec(attempt, token_refreshed, (Outcome::Status { code, retry_after }))
            == Step::ParseBody,
        attempt < 2 ==> next_step_spec(
            attempt,
            token_refreshed,
            (Outcome::Status { code: 429, retry_after }),
        ) == (Step::WaitAndRetry { secs: retry_after }),
        next_step_spec(2, token_refreshed, (Outcome::Status { code: 429, retry_after }))
            == (Step::FailRateLimited { retry_after }),
{
}

/// A 401 is answered by a refresh at most once per request: once the token
/// was refreshed, a 401 is not retried by refreshing again.
pub proof fn lemma_refresh_at_most_once(attempt: u32, retry_after: u64)
    ensures
        next_step_spec(attempt, true, Outcome::Status { code: 401, retry_after })
            != Step::RefreshAndRetry,
{
}

/// No request is retried after its last attempt.
pub proof fn lemma_no_retry_after_last_attempt(token_refreshed: bool, outcome: Outcome)
    ensures
        match next_step_spec((MAX_ATTEMPTS - 1) as u32, token_refreshed, outcome) {
            Step::WaitAndRetry { .. } => false,
            _ => true,
        },
{
}

/// The error for a status the client does not retry.
pub open spec fn unexpected_status_message(status_text: Seq<char>, url: Seq<char>) -> Seq<char> {
    "Unexpected HTTP status "@ + status_text + " for "@ + url
}

/// The error reported for a status the client does not retry. `status_text`
/// is how the status is displayed, such as `404 Not Found`.
pub fn unexpected_status_error(status_text: &str, url: &str) -> (r: Error)
    ensures
        match r {
            Error::Other(msg) => msg@ == unexpected_status_message(status_text@, url@),
            _ => false,
        },
{
    let mut msg = String::from_str("Unexpected HTTP status ");
    push_str(&mut msg, status_text);
    push_str(&mut msg, " for ");
    push_str(&mut msg, url);
    Error::Other(msg)
}

/// The error reported once every attempt has been used.
pub fn attempts_exhausted_error(url: &str) -> (r: Error)
    ensures
        match r {
            Error::Other(msg) => msg@ == "All 3 attempts failed for "@ + url@,
            _ => false,
        },
{
    let mut msg = String::from_str("All 3 attempts failed for ");
    push_str(&mut msg, url);
    Error::Other(msg)
}

} // verus!
