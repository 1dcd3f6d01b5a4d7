//! The wall clock, the monotonic clock and spans of time, as std provides them.
//!
//! Readings of a clock depend on when they are taken, so nothing is promised of
//! them; the callers state what holds whatever came back.

use vstd::prelude::*;
use std::time::{Duration, Instant, SystemTime, SystemTimeError, UNIX_EPOCH};

verus! {

#[verifier::external_type_specification]
#[verifier::external_body]
pub struct ExSystemTime(SystemTime);

#[verifier::external_type_specification]
#[verifier::external_body]
pub struct ExSystemTimeError(SystemTimeError);

#[verifier::external_type_specification]
#[verifier::external_body]
pub struct ExInstant(Instant);

/// `Duration` is `Copy`, and its `clone` gives back the same span.
pub assume_specification[ <Duration as Clone>::clone ](d: &Duration) -> (res: Duration)
    ensures
        res == *d,
;

/// The span of time of `secs` whole seconds.
pub uninterp spec fn duration_of_secs(secs: u64) -> Duration;

/// Reads the wall clock with `SystemTime::now`. Nothing is promised of the
/// reading.
#[verifier::external_body]
pub(crate) fn system_time_now() -> SystemTime {
    SystemTime::now()
}

/// The span from the Unix epoch to a wall-clock reading; an error where the
/// reading lies before the epoch.
pub uninterp spec fn epoch_offset(t: SystemTime) -> Result<Duration, SystemTimeError>;

/// The whole seconds of a span.
pub uninterp spec fn secs_of(d: Duration) -> u64;

/// The whole seconds from the Unix epoch to a wall-clock reading; `None`
/// where the reading lies before the epoch.
pub open spec fn epoch_reading(t: SystemTime) -> Option<u64> {
    match epoch_offset(t) {
        Ok(d) => Some(secs_of(d)),
        Err(_) => None,
    }
}

/// The time from the Unix epoch to `t`, with `SystemTime::duration_since`;
/// an error where `t` lies before the epoch.
///
/// Trusted: the result depends on the reading `t` alone and is named
/// `epoch_offset(*t)`.
#[verifier::external_body]
pub(crate) fn since_unix_epoch(t: &SystemTime) -> (res: Result<Duration, SystemTimeError>)
    ensures
        res == epoch_offset(*t),
{
    t.duration_since(UNIX_EPOCH)
}

/// The whole seconds of a span, with `Duration::as_secs`.
///
/// Trusted: the result depends on the span alone and is named `secs_of(*d)`.
#[verifier::external_body]
pub(crate) fn whole_seconds(d: &Duration) -> (res: u64)
    ensures
        res == secs_of(*d),
{
    d.as_secs()
}

/// The message of a clock error, with its `to_string`. Nothing is stated of
/// the text.
#[verifier::external_body]
pub(crate) fn time_error_text(e: &SystemTimeError) -> String {
    e.to_string()
}

/// Reads the monotonic clock with `Instant::now`. Nothing is promised of the
/// reading.
#[verifier::external_body]
pub(crate) fn instant_now() -> Instant {
    Instant::now()
}

/// The span from instant `earlier` to instant `later`, zero where `later`
/// is not after `earlier`.
pub uninterp spec fn span_between(earlier: Instant, later: Instant) -> Duration;

/// Whether span `a` is longer than span `b`.
pub uninterp spec fn longer_than(a: Duration, b: Duration) -> bool;

/// The span from `earlier` to `later`, with `Instant::saturating_duration_since`
/// (the way `Instant::elapsed` measures from a fresh `Instant::now`).
///
/// Trusted: the result depends on the two instants alone and is named
/// `span_between(*earlier, *later)`.
#[verifier::external_body]
pub(crate) fn span_since(later: &Instant, earlier: &Instant) -> (res: Duration)
    ensures
        res == span_between(*earlier, *later),
{
    later.saturating_duration_since(*earlier)
}

/// Whether span `a` is longer than span `b`, with `Duration`'s `>`.
///
/// Trusted: the answer depends on the two spans alone and is named
/// `longer_than(*a, *b)`.
#[verifier::external_body]
pub(crate) fn duration_exceeds(a: &Duration, b: &Duration) -> (res: bool)
    ensures
        res == longer_than(*a, *b),
{
    *a > *b
}

/// The empty span, with `Duration::default`. Nothing is stated of it.
#[verifier::external_body]
pub(crate) fn zero_duration() -> Duration {
    Duration::default()
}

/// The span of `secs` seconds, with `Duration::from_secs`.
///
/// Trusted: the result depends on `secs` alone and is named
/// `duration_of_secs(secs)`.
#[verifier::external_body]
pub(crate) fn duration_from_secs(secs: u64) -> (res: Duration)
    ensures
        res == duration_of_secs(secs),
{
    Duration::from_secs(secs)
}

} // verus!
