//! Wall-clock time, in nanoseconds since the Unix epoch.
use vstd::prelude::*;

verus! {

/// Nanoseconds in a second.
pub const NANOS_PER_SEC: i128 = 1000000000;

/// The earliest instant `chrono::DateTime<Utc>` can hold (1 January 262143
/// BCE), in nanoseconds since the Unix epoch.
pub const MIN_UTC_NANOS: i128 = -8334601315200000000000;

/// The latest instant `chrono::DateTime<Utc>` can hold (the last nanosecond of
/// 31 December 262142 CE), in nanoseconds since the Unix epoch.
pub const MAX_UTC_NANOS: i128 = 8210266876799999999999;

/// The longest span, in seconds, that `chrono::TimeDelta::seconds` accepts.
pub const MAX_DELTA_SECS: i64 = 9223372036854775;

/// The time elapsed from the Unix epoch to the system clock's present
/// reading, `std::time::SystemTime::now().duration_since(UNIX_EPOCH)`, as its
/// whole seconds and the nanoseconds beyond them; `None` where the clock reads
/// before the epoch. It depends on the clock, so only what `Duration`
/// documents is stated: the nanoseconds beyond the seconds are less than a
/// second.
#[verifier::external_body]
fn system_since_epoch() -> (r: Option<(u64, u32)>)
    ensures
        r matches Some((_, nanos)) ==> nanos < 1000000000,
{
    std::time::SystemTime::now().duration_since(std::time::UNIX_EPOCH).ok().map(
        |d| (d.as_secs(), d.subsec_nanos()),
    )
}

/// The current time in nanoseconds since the Unix epoch, or `None` where the
/// clock reads before the epoch or past the latest instant a
/// `chrono::DateTime<Utc>` can hold.
pub(crate) fn utc_now_nanos() -> (r: Option<i128>)
    ensures
        r matches Some(t) ==> 0 <= t <= MAX_UTC_NANOS,
{
    match system_since_epoch() {
        Some((secs, nanos)) => if secs <= 8210266876799 {
            Some(secs as i128 * NANOS_PER_SEC + nanos as i128)
        } else {
            None
        },
        None => None,
    }
}

} // verus!
