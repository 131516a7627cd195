//! Clock readings and durations, counted in nanoseconds by the verified code.
use vstd::prelude::*;

verus! {

/// A point in time read from the monotonic clock (`std::time::Instant`).
#[verifier::external_type_specification]
#[verifier::external_body]
pub struct ExInstant(std::time::Instant);

/// Nanoseconds in one second.
pub const NANOS_PER_SEC: u128 = 1_000_000_000;

/// The duration that `Duration::new` builds from whole seconds and extra
/// nanoseconds (below one second).
pub uninterp spec fn duration_of_parts(secs: u64, nanos: u32) -> std::time::Duration;

/// The number of nanoseconds in the duration of `secs` seconds and `nanos`
/// nanoseconds.
pub open spec fn parts_nanos(secs: u64, nanos: u32) -> int {
    secs * 1_000_000_000 + nanos
}

/// `n` is the nanoseconds of `d`: `d` is the duration of some whole seconds
/// and some nanoseconds below a second that add up to `n`.
pub open spec fn is_nanos_count(d: std::time::Duration, n: int) -> bool {
    exists|s: u64, k: u32|
        n == parts_nanos(s, k) && k < 1_000_000_000 && d == #[trigger] duration_of_parts(s, k)
}

/// The largest number of nanoseconds a `Duration` can hold.
pub open spec fn max_duration_nanos() -> int {
    u64::MAX * 1_000_000_000 + 999_999_999
}

/// `std::time::Instant::now`: the current reading of the monotonic clock.
/// Nothing is promised of the reading.
#[verifier::external_body]
pub(crate) fn now() -> std::time::Instant {
    std::time::Instant::now()
}

/// `std::time::Instant::elapsed`: how much time has passed since `start`.
/// Nothing is promised of the result: it depends on the clock.
#[verifier::external_body]
pub(crate) fn elapsed_since(start: &std::time::Instant) -> std::time::Duration {
    start.elapsed()
}

/// `std::time::Duration::new`: the duration of `secs` seconds and `nanos`
/// nanoseconds. With `nanos` below one second it does not panic, and the
/// result is `duration_of_parts(secs, nanos)`.
#[verifier::external_body]
pub(crate) fn duration_new(secs: u64, nanos: u32) -> (d: std::time::Duration)
    requires
        nanos < 1_000_000_000,
    ensures
        d == duration_of_parts(secs, nanos),
{
    std::time::Duration::new(secs, nanos)
}

/// `std::time::Duration::as_nanos`: the whole number of nanoseconds in `d`.
/// Every duration is the one `Duration::new` builds from its whole seconds
/// (`as_secs`) and the nanoseconds below a second (`subsec_nanos`), and its
/// count is the seconds times a billion plus those nanoseconds.
#[verifier::external_body]
pub(crate) fn duration_as_nanos(d: &std::time::Duration) -> (n: u128)
    ensures
        n <= max_duration_nanos(),
        is_nanos_count(*d, n as int),
        forall|s: u64, k: u32|
            k < 1_000_000_000 && *d == #[trigger] duration_of_parts(s, k) ==> n == parts_nanos(s, k),
{
    d.as_nanos()
}

/// The duration of `ns` nanoseconds, split into seconds and the nanoseconds
/// below one second.
pub fn duration_from_nanos(ns: u128) -> (d: std::time::Duration)
    requires
        ns <= max_duration_nanos(),
    ensures
        d == duration_of_parts((ns / 1_000_000_000) as u64, (ns % 1_000_000_000) as u32),
        parts_nanos((ns / 1_000_000_000) as u64, (ns % 1_000_000_000) as u32) == ns,
{
    let secs: u128 = ns / NANOS_PER_SEC;
    let rest: u128 = ns % NANOS_PER_SEC;
    duration_new(secs as u64, rest as u32)
}

} // verus!
