//! The length of a `std::time::Duration` in nanoseconds, and the two
//! `Duration` operations that this crate builds on, stated over it.
use std::time::Duration;
use vstd::prelude::*;

verus! {

/// Nanoseconds in one second.
pub const NANOS_PER_SEC: u64 = 1_000_000_000;

/// The total length of `d` in nanoseconds, as `Duration::as_nanos` reports it.
pub uninterp spec fn duration_nanos(d: Duration) -> u128;

/// The total length of `Duration::MAX` in nanoseconds: `u64::MAX` whole seconds
/// and 999,999,999 nanoseconds.
pub open spec fn max_duration_nanos() -> int {
    u64::MAX as int * NANOS_PER_SEC as int + (NANOS_PER_SEC as int - 1)
}

/// The length in nanoseconds of a span of `secs` whole seconds.
pub open spec fn secs_to_nanos(secs: int) -> int {
    secs * NANOS_PER_SEC as int
}

/// Relies on `Duration::from_secs`: the result is exactly `secs` whole seconds,
/// with no sub-second part.
pub assume_specification[ Duration::from_secs ](secs: u64) -> (r: Duration)
    ensures
        duration_nanos(r) == secs_to_nanos(secs as int),
;

/// Relies on `Duration::checked_mul`: the product `d * rhs`, or `None` when it
/// exceeds `Duration::MAX`.
pub assume_specification[ Duration::checked_mul ](d: Duration, rhs: u32) -> (r: Option<Duration>)
    ensures
        r is None <==> duration_nanos(d) * rhs > max_duration_nanos(),
        r matches Some(p) ==> duration_nanos(p) == duration_nanos(d) * rhs,
;

/// A span of `secs` whole seconds scaled by `factor` fits in a `Duration`
/// when the scaled count of seconds fits in a `u64`.
pub proof fn lemma_scaled_fits(secs: int, factor: int)
    requires
        0 <= secs,
        0 <= factor,
        secs * factor <= u64::MAX,
    ensures
        secs_to_nanos(secs) * factor == secs_to_nanos(secs * factor),
        secs_to_nanos(secs) * factor <= max_duration_nanos(),
{
    assert(secs * NANOS_PER_SEC * factor == secs * factor * NANOS_PER_SEC) by (nonlinear_arith);
    assert(secs * factor * NANOS_PER_SEC <= u64::MAX * NANOS_PER_SEC) by (nonlinear_arith)
        requires
            secs * factor <= u64::MAX,
    ;
}

/// `d` scaled by `factor`, where the product is known to fit in a `Duration`.
pub fn scale(d: Duration, factor: u32) -> (r: Duration)
    requires
        duration_nanos(d) * factor <= max_duration_nanos(),
    ensures
        duration_nanos(r) == duration_nanos(d) * factor,
{
    d.checked_mul(factor).unwrap()
}

} // verus!
