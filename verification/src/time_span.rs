//! Reading `std::time::Duration` values as nanosecond counts.

use vstd::prelude::*;

use std::time::Duration;

verus! {

/// Total nanoseconds of a duration: what `Duration::as_nanos` returns for it.
pub uninterp spec fn duration_nanos(d: Duration) -> u128;

/// Calls `Duration::as_nanos`; the result is the duration's total nanoseconds.
#[verifier::external_body]
pub(crate) fn nanos_of(d: &Duration) -> (n: u128)
    ensures
        n == duration_nanos(*d),
{
    d.as_nanos()
}

/// Returns `Duration::ZERO`, the duration of zero nanoseconds.
#[verifier::external_body]
pub(crate) fn zero_duration() -> (d: Duration)
    ensures
        duration_nanos(d) == 0,
{
    Duration::ZERO
}

/// Calls `Duration::from_secs`; the result lasts `secs` whole seconds.
#[verifier::external_body]
pub(crate) fn duration_from_secs(secs: u64) -> (d: Duration)
    ensures
        duration_nanos(d) == secs * 1_000_000_000,
{
    Duration::from_secs(secs)
}

/// Whole milliseconds of a duration, truncated to 64 bits as `as_millis() as u64` does.
pub open spec fn millis_u64(d: Duration) -> u64 {
    (duration_nanos(d) / 1_000_000) as u64
}

/// Whole milliseconds of a duration, truncated to 64 bits.
pub(crate) fn millis_of(d: &Duration) -> (ms: u64)
    ensures
        ms == millis_u64(*d),
{
    (nanos_of(d) / 1_000_000) as u64
}

} // verus!
