//! Reading the clocks.
use std::time::{Duration, Instant, SystemTime, SystemTimeError, UNIX_EPOCH};
use vstd::prelude::*;

verus! {

/// `std::time::Instant`, a point on the monotonic clock.
#[verifier::external_type_specification]
#[verifier::external_body]
pub struct ExInstant(std::time::Instant);

/// `std::time::SystemTime`, a point on the system clock.
#[verifier::external_type_specification]
#[verifier::external_body]
pub struct ExSystemTime(std::time::SystemTime);

/// `std::time::SystemTimeError`, the failure to measure back to a later time.
#[verifier::external_type_specification]
#[verifier::external_body]
pub struct ExSystemTimeError(std::time::SystemTimeError);

/// The nanoseconds that a duration spans.
pub uninterp spec fn nanos_of(d: std::time::Duration) -> nat;

/// `Duration::as_secs` gives the whole seconds of the duration.
pub assume_specification[ std::time::Duration::as_secs ](d: &Duration) -> (r: u64)
    ensures
        r == nanos_of(*d) / 1_000_000_000,
;

/// `Duration::as_nanos` gives all the nanoseconds of the duration.
pub assume_specification[ std::time::Duration::as_nanos ](d: &Duration) -> (r: u128)
    ensures
        r == nanos_of(*d),
;

/// `Duration::from_secs` makes a duration of that many seconds.
pub assume_specification[ std::time::Duration::from_secs ](secs: u64) -> (r: Duration)
    ensures
        nanos_of(r) == secs * 1_000_000_000,
;

/// `Instant::now` reads the monotonic clock. Nothing is claimed of the reading.
pub assume_specification[ std::time::Instant::now ]() -> Instant
;

/// `Instant::elapsed` measures the time since the instant. Nothing is claimed of
/// the measure, which depends on when it is taken.
pub assume_specification[ std::time::Instant::elapsed ](i: &Instant) -> Duration
;

/// `SystemTime::now` reads the system clock. Nothing is claimed of the reading.
pub assume_specification[ std::time::SystemTime::now ]() -> SystemTime
;

/// `SystemTime::duration_since` the Unix epoch measures how far a reading lies
/// after it, and fails for one before it. Nothing is claimed of the measure.
#[verifier::external_body]
pub(crate) fn since_epoch(t: SystemTime) -> Result<Duration, SystemTimeError> {
    t.duration_since(UNIX_EPOCH)
}

/// The outcome of a call that takes nothing.
pub(crate) fn outcome_of<T>(f: impl Fn() -> T) -> (r: T)
    requires
        f.requires(()),
    ensures
        f.ensures((), r),
{
    f()
}

/// The outcome of a call with one argument.
pub(crate) fn outcome_with<A, T>(f: impl Fn(A) -> T, a: A) -> (r: T)
    requires
        f.requires((a,)),
    ensures
        f.ensures((a,), r),
{
    f(a)
}

/// A time since the Unix epoch is what a reading of the system clock was measured to be.
pub closed spec fn is_measured(measured: Result<Duration, SystemTimeError>) -> bool {
    exists|t: SystemTime| #[trigger]
        call_ensures(SystemTime::now, (), t) && call_ensures(since_epoch, (t,), measured)
}

/// A number of seconds since the Unix epoch is what the system clock gave.
pub open spec fn is_now(secs: u64) -> bool {
    exists|measured: Result<Duration, SystemTimeError>| #[trigger]
        is_measured(measured) && secs == seconds_of(measured)
}

/// A signed number of seconds since the Unix epoch is what the system clock gave.
pub open spec fn is_time(t: i64) -> bool {
    exists|secs: u64| #[trigger] is_now(secs) && t == secs as i64
}

/// An instant is a reading of the monotonic clock.
pub open spec fn is_instant(i: Instant) -> bool {
    call_ensures(Instant::now, (), i)
}

/// The instant that the monotonic clock is at.
pub fn instant() -> (r: Instant)
    ensures
        is_instant(r),
{
    outcome_of(Instant::now)
}

/// A duration is what was measured since an instant.
pub open spec fn is_elapsed(since: Instant, elapsed: Duration) -> bool {
    call_ensures(Instant::elapsed, (&since,), elapsed)
}

/// A number of nanoseconds is what was measured since an instant.
pub open spec fn is_time_since(since: Instant, nanos: u128) -> bool {
    exists|elapsed: Duration| #[trigger] is_elapsed(since, elapsed) && nanos == nanos_of(elapsed)
}

/// The time since an instant, as it is measured.
pub fn elapsed_since(since: &Instant) -> (r: Duration)
    ensures
        is_elapsed(*since, r),
{
    outcome_with(Instant::elapsed, since)
}

/// The seconds that a measured time since the Unix epoch stands for: its whole
/// seconds, or 0 where the clock is set before the epoch.
pub open spec fn seconds_of(measured: Result<Duration, SystemTimeError>) -> u64 {
    match measured {
        Ok(d) => (nanos_of(d) / 1_000_000_000) as u64,
        Err(_) => 0,
    }
}

/// The seconds that a measured time since the Unix epoch stands for.
pub fn epoch_seconds(measured: Result<Duration, SystemTimeError>) -> (r: u64)
    ensures
        r == seconds_of(measured),
        measured matches Ok(d) ==> r == nanos_of(d) / 1_000_000_000,
        measured is Err ==> r == 0,
{
    match measured {
        Ok(d) => d.as_secs(),
        Err(_) => 0,
    }
}

/// A number of seconds as a signed number. One beyond its range wraps around.
pub fn signed_seconds(secs: u64) -> (r: i64)
    ensures
        r == secs as i64,
        secs <= i64::MAX ==> r == secs,
{
    #[verifier::truncate]
    (secs as i64)
}

/// The current time in seconds since the Unix epoch: what a measured time since
/// then stands for. Nothing is claimed of the measure.
pub fn now_secs() -> (r: u64)
    ensures
        is_now(r),
        exists|measured: Result<Duration, SystemTimeError>| r == #[trigger] seconds_of(measured),
{
    let t = outcome_of(SystemTime::now);
    let measured = outcome_with(since_epoch, t);
    assert(is_measured(measured));
    epoch_seconds(measured)
}

/// The current time in seconds since the Unix epoch, as a signed number. Nothing
/// is claimed of the measure.
pub fn now() -> (r: i64)
    ensures
        is_time(r),
        exists|measured: Result<Duration, SystemTimeError>|
            r == (#[trigger] seconds_of(measured)) as i64,
{
    signed_seconds(now_secs())
}

/// The current time is what a reading of the system clock comes to: the whole seconds that
/// it was measured to lie after the Unix epoch, or 0 where it lies before it.
pub(crate) proof fn current_time_is_read_from_the_clock(secs: u64)
    requires
        is_now(secs),
    ensures
        exists|t: SystemTime, measured: Result<Duration, SystemTimeError>| #[trigger]
            call_ensures(SystemTime::now, (), t) && #[trigger] call_ensures(
                since_epoch,
                (t,),
                measured,
            ) && match measured {
                Ok(d) => secs == (nanos_of(d) / 1_000_000_000) as u64,
                Err(_) => secs == 0,
            },
{
    let measured = choose|measured: Result<Duration, SystemTimeError>| #[trigger]
        is_measured(measured) && secs == seconds_of(measured);
    let t = choose|t: SystemTime| #[trigger]
        call_ensures(SystemTime::now, (), t) && call_ensures(since_epoch, (t,), measured);
}

/// The current time is told in seconds, signed or not, and what is measured since an instant
/// in nanoseconds.
pub proof fn current_time_is_told(
    secs: u64,
    t: i64,
    i: Instant,
    elapsed: Duration,
)
    requires
        call_ensures(now_secs, (), secs),
        call_ensures(now, (), t),
        call_ensures(instant, (), i),
        call_ensures(elapsed_since, (&i,), elapsed),
    ensures
        is_now(secs),
        exists|s: u64| #[trigger] is_now(s) && (s <= i64::MAX ==> t == s),
        call_ensures(Instant::now, (), i),
        call_ensures(Instant::elapsed, (&i,), elapsed),
        is_time_since(i, nanos_of(elapsed) as u128) || nanos_of(elapsed) > u128::MAX,
{
    let s = choose|s: u64| #[trigger] is_now(s) && t == s as i64;
    assert(s <= i64::MAX ==> s as i64 == s);
}

}
