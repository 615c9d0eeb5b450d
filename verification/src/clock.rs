//! Durations and instants of the standard library, as the library uses them.

use vstd::prelude::*;
use std::time::{Duration, Instant};

verus! {

/// `std::time::Instant`, a reading of the monotonic clock, held opaque.
#[verifier::external_type_specification]
#[verifier::external_body]
pub struct ExInstant(Instant);

/// Whole seconds in a duration (`Duration::as_secs`).
pub uninterp spec fn spec_duration_secs(d: Duration) -> u64;

/// Nanoseconds past the whole seconds of a duration (`Duration::subsec_nanos`).
pub uninterp spec fn spec_duration_subsec_nanos(d: Duration) -> u32;

/// Whole milliseconds in a duration.
pub open spec fn spec_duration_millis(d: Duration) -> nat {
    spec_duration_secs(d) as nat * 1000 + spec_duration_subsec_nanos(d) as nat / 1_000_000
}

/// Whole microseconds in a duration.
pub open spec fn spec_duration_micros(d: Duration) -> nat {
    spec_duration_secs(d) as nat * 1_000_000 + spec_duration_subsec_nanos(d) as nat / 1000
}

/// Time from `earlier` to `later`, zero when `earlier` is the later one (`Instant::duration_since`).
pub uninterp spec fn spec_duration_since(later: Instant, earlier: Instant) -> Duration;

/// `Duration::as_micros`: the whole microseconds in `d`, whole seconds and nanoseconds
/// together.
#[verifier::external_body]
pub(crate) fn duration_as_micros(d: &Duration) -> (m: u128)
    ensures
        m == spec_duration_micros(*d),
{
    d.as_micros()
}

/// `Duration::as_secs`: the whole seconds in `d`.
#[verifier::external_body]
pub(crate) fn duration_as_secs(d: &Duration) -> (s: u64)
    ensures
        s == spec_duration_secs(*d),
{
    d.as_secs()
}

/// `Duration::as_millis`: the whole milliseconds in `d`, whole seconds and nanoseconds
/// together.
#[verifier::external_body]
pub(crate) fn duration_as_millis(d: &Duration) -> (m: u128)
    ensures
        m == spec_duration_millis(*d),
{
    d.as_millis()
}

/// `Duration::subsec_nanos`: the nanoseconds past the whole seconds of `d`, which its
/// documentation puts below one billion.
#[verifier::external_body]
pub(crate) fn duration_subsec_nanos(d: &Duration) -> (n: u32)
    ensures
        n == spec_duration_subsec_nanos(*d),
        n < 1_000_000_000,
{
    d.subsec_nanos()
}

/// `Duration::from_millis`: a duration of `ms` milliseconds.
#[verifier::external_body]
pub(crate) fn duration_from_millis(ms: u64) -> (d: Duration)
    ensures
        spec_duration_secs(d) == ms / 1000,
        spec_duration_subsec_nanos(d) == (ms % 1000) * 1_000_000,
{
    Duration::from_millis(ms)
}

/// `Duration::from_secs`: a duration of `secs` whole seconds.
#[verifier::external_body]
pub(crate) fn duration_from_secs(secs: u64) -> (d: Duration)
    ensures
        spec_duration_secs(d) == secs,
        spec_duration_subsec_nanos(d) == 0,
{
    Duration::from_secs(secs)
}

/// `Instant::now`: the current time of the monotonic clock. Nothing is stated of its value.
#[verifier::external_body]
pub(crate) fn instant_now() -> Instant {
    Instant::now()
}

/// `Instant::duration_since`: the time from `earlier` to `later`.
#[verifier::external_body]
pub(crate) fn duration_since(later: &Instant, earlier: &Instant) -> (d: Duration)
    ensures
        d == spec_duration_since(*later, *earlier),
{
    later.duration_since(*earlier)
}

} // verus!
