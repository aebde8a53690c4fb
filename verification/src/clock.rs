//! Time as the rest of the crate sees it: whole nanoseconds in a `u64`.
//!
//! `Duration` and `Instant` are opaque to Verus; the few facts used about
//! them are stated on the trusted items below.

use std::time::{Duration, Instant};
use vstd::prelude::*;

verus! {

#[verifier::external_type_specification]
#[verifier::external_body]
pub struct ExInstant(std::time::Instant);

/// Whole seconds of a duration, as `Duration::as_secs` returns them.
pub uninterp spec fn duration_whole_secs(d: Duration) -> u64;

/// Fractional part of a duration in nanoseconds, as `Duration::subsec_nanos`
/// returns it.
pub uninterp spec fn duration_subsec(d: Duration) -> u32;

/// The span from `earlier` to `later`, as `Instant::saturating_duration_since`
/// returns it (zero when `earlier` is the later of the two).
pub uninterp spec fn saturating_elapsed(later: Instant, earlier: Instant) -> Duration;

/// The length of a duration in nanoseconds.
pub open spec fn duration_nanos(d: Duration) -> int {
    duration_whole_secs(d) * 1_000_000_000 + duration_subsec(d)
}

/// `Duration::as_secs`: the whole seconds of `d`; stated only by name.
#[verifier::external_body]
pub(crate) fn duration_as_secs(d: &Duration) -> (r: u64)
    ensures
        r == duration_whole_secs(*d),
{
    d.as_secs()
}

/// `Duration::subsec_nanos`: the fractional part of `d` in nanoseconds, which
/// std documents to be below one billion.
#[verifier::external_body]
pub(crate) fn duration_subsec_nanos(d: &Duration) -> (r: u32)
    ensures
        r == duration_subsec(*d),
        r < 1_000_000_000,
{
    d.subsec_nanos()
}

/// `Instant::saturating_duration_since`: the span from `earlier` to `later`,
/// stated only by name.
#[verifier::external_body]
pub(crate) fn elapsed_between(later: Instant, earlier: Instant) -> (d: Duration)
    ensures
        d == saturating_elapsed(later, earlier),
{
    later.saturating_duration_since(earlier)
}

/// `tokio_timer::clock::now`: the current time of the task's clock. It depends
/// on the moment of the call, so nothing is stated of it.
#[verifier::external_body]
pub(crate) fn now() -> Instant {
    tokio_timer::clock::now()
}

/// Nanoseconds from `earlier` to `later` (zero when `later` is not after
/// `earlier`), capped at `u64::MAX`.
pub open spec fn saturating_nanos(later: Instant, earlier: Instant) -> u64 {
    let n = duration_nanos(saturating_elapsed(later, earlier));
    if n <= u64::MAX {
        n as u64
    } else {
        u64::MAX
    }
}

/// Nanoseconds from `earlier` to `later`, zero when `later` is not after
/// `earlier`, and `u64::MAX` when the span does not fit in a `u64`.
pub fn nanos_between(later: Instant, earlier: Instant) -> (r: u64)
    ensures
        r == saturating_nanos(later, earlier),
{
    let d = elapsed_between(later, earlier);
    match crate::hedge::rotating::checked_duration_as_nanos(&d) {
        Some(n) => n,
        None => u64::MAX,
    }
}

} // verus!
