//! The OAuth access token and the checks on a token response.
use vstd::prelude::*;
use crate::error::Error;
use crate::text::{push_str};
use crate::time::{utc_now_nanos, MAX_DELTA_SECS, MAX_UTC_NANOS, MIN_UTC_NANOS, NANOS_PER_SEC};

verus! {

/// How long before its expiry, in seconds, a token is treated as expired.
pub const EXPIRY_MARGIN_SECS: i64 = 60;

/// An OAuth access token.
#[derive(Debug, Clone)]
pub struct AuthToken {
    pub access_token: String,
    /// The instant the token expires, in nanoseconds since the Unix epoch.
    pub expires_at: i128,
}

/// The expiry margin in nanoseconds.
pub open spec fn expiry_margin_nanos() -> int {
    EXPIRY_MARGIN_SECS * NANOS_PER_SEC
}

impl AuthToken {
    /// A token is treated as expired from a minute before its expiry on.
    pub open spec fn expired_at(&self, now: int) -> bool {
        now >= self.expires_at - expiry_margin_nanos()
    }

    /// Whether the token counts as expired at `now`, in nanoseconds since the
    /// Unix epoch.
    pub fn is_expired_at(&self, now: i128) -> (r: bool)
        ensures
            r == self.expired_at(now as int),
    {
        let margin: i128 = 60000000000;
        if self.expires_at < i128::MIN + margin {
            return true;
        }
        now >= self.expires_at - margin
    }

    /// Whether the token counts as expired now. Where the clock cannot be
    /// read as a time (before the Unix epoch, where `chrono::Utc::now` would
    /// panic, or past the latest instant a `chrono::DateTime<Utc>` holds), the
    /// token counts as expired, so that a new one is fetched.
    pub fn is_expired(&self) -> (r: bool)
        ensures
            r || exists|now: int| 0 <= now <= MAX_UTC_NANOS && !self.expired_at(now),
    {
        match utc_now_nanos() {
            Some(now) => self.is_expired_at(now),
            None => true,
        }
    }
}

/// `expires_in as i64`: the 64-bit pattern read as a signed number.
pub open spec fn as_signed(x: u64) -> int {
    if x <= i64::MAX {
        x as int
    } else {
        x - 0x1_0000_0000_0000_0000
    }
}

/// A token response can be turned into a token at `now` (in nanoseconds)
/// without leaving the ranges of `chrono::TimeDelta` and
/// `chrono::DateTime<Utc>`.
pub open spec fn expiry_in_range(expires_in: u64, now: i128) -> bool {
    &&& -MAX_DELTA_SECS <= as_signed(expires_in) <= MAX_DELTA_SECS
    &&& MIN_UTC_NANOS <= now + as_signed(expires_in) * NANOS_PER_SEC <= MAX_UTC_NANOS
}

/// Whether a token expiring `expires_in` seconds after `now` stays within
/// the ranges of `chrono`.
pub fn expiry_in_range_exec(expires_in: u64, now: i128) -> (r: bool)
    ensures
        r == expiry_in_range(expires_in, now),
{
    let delta: i128 = if expires_in <= 9223372036854775807 {
        expires_in as i128
    } else {
        expires_in as i128 - 0x1_0000_0000_0000_0000
    };
    if delta < -(MAX_DELTA_SECS as i128) || delta > MAX_DELTA_SECS as i128 {
        return false;
    }
    // An instant this far out stays out of range after any accepted span.
    if now < -100000000000000000000000000000 || now > 100000000000000000000000000000 {
        return false;
    }
    let later = now + delta * NANOS_PER_SEC;
    MIN_UTC_NANOS <= later && later <= MAX_UTC_NANOS
}

/// The outcome of a token response: an API error, a failed status and an
/// empty token are refused in that order; otherwise the token expires
/// `expires_in` seconds after `now` (in nanoseconds).
pub open spec fn token_outcome(
    status: u16,
    status_text: Seq<char>,
    error: Option<Seq<char>>,
    access_token: Seq<char>,
    expires_in: u64,
    now: i128,
) -> Result<(Seq<char>, int), Seq<char>> {
    match error {
        Some(e) => Err("Reddit API error: "@ + e),
        None => if !(200 <= status <= 299) {
            Err("HTTP "@ + status_text)
        } else if access_token.len() == 0 {
            Err("Empty access token received"@)
        } else {
            Ok((access_token, now + as_signed(expires_in) * NANOS_PER_SEC))
        },
    }
}

/// Turns the token endpoint's response into a token, at time `now` in
/// nanoseconds since the Unix epoch.
/// `status_text` is how the status is displayed, such as `401 Unauthorized`.
pub fn token_from_response(
    status: u16,
    status_text: &str,
    error: Option<String>,
    access_token: String,
    expires_in: u64,
    now: i128,
) -> (r: Result<AuthToken, Error>)
    requires
        (error is None && 200 <= status <= 299 && access_token@.len() > 0) ==> expiry_in_range(
            expires_in,
            now,
        ),
    ensures
        match r {
            Ok(t) => token_outcome(
                status,
                status_text@,
                match error {
                    Some(e) => Some(e@),
                    None => None,
                },
                access_token@,
                expires_in,
                now,
            ) == Ok::<(Seq<char>, int), Seq<char>>((t.access_token@, t.expires_at as int)),
            Err(Error::Auth(msg)) => token_outcome(
                status,
                status_text@,
                match error {
                    Some(e) => Some(e@),
                    None => None,
                },
                access_token@,
                expires_in,
                now,
            ) == Err::<(Seq<char>, int), Seq<char>>(msg@),
            Err(_) => false,
        },
{
    if let Some(e) = error {
        let mut msg = String::from_str("Reddit API error: ");
        push_str(&mut msg, e.as_str());
        return Err(Error::Auth(msg));
    }
    if !(200 <= status && status <= 299) {
        let mut msg = String::from_str("HTTP ");
        push_str(&mut msg, status_text);
        return Err(Error::Auth(msg));
    }
    if access_token.as_str().unicode_len() == 0 {
        return Err(Error::Auth(String::from_str("Empty access token received")));
    }
    let delta: i128 = if expires_in <= 9223372036854775807 {
        expires_in as i128
    } else {
        expires_in as i128 - 0x1_0000_0000_0000_0000
    };
    Ok(AuthToken { access_token, expires_at: now + delta * NANOS_PER_SEC })
}

/// A token just issued for longer than the expiry margin does not count as
/// expired at the time it was issued.
pub proof fn lemma_new_token_not_expired(
    status: u16,
    status_text: Seq<char>,
    error: Option<Seq<char>>,
    access_token: Seq<char>,
    expires_in: u64,
    now: i128,
)
    requires
        as_signed(expires_in) > EXPIRY_MARGIN_SECS,
    ensures
        token_outcome(status, status_text, error, access_token, expires_in, now) matches Ok(
            (_, expires_at),
        ) ==> now < expires_at - expiry_margin_nanos(),
{
}

} // verus!
