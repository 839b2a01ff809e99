//! Laws that relate the results of several calls of the `EasyDuration`
//! methods. Each one speaks of results through what the methods ensure.
use std::time::Duration;
use vstd::prelude::*;

use crate::span::{duration_nanos, NANOS_PER_SEC};
use crate::{EasyDuration, DAYS_PER_YEAR, SECS_PER_DAY, SECS_PER_HOUR, SECS_PER_MINUTE, SECS_PER_YEAR};

verus! {

/// The sign of an `i8` has no effect: `n.seconds()` and `(-n).seconds()` are
/// equally long whenever `-n` is an `i8`.
pub proof fn lemma_i8_seconds_ignore_sign(n: i8, neg: i8, a: Duration, b: Duration)
    requires
        neg == -n,
        call_ensures(i8::seconds, (n,), a),
        call_ensures(i8::seconds, (neg,), b),
    ensures
        duration_nanos(a) == duration_nanos(b),
{
}

/// The sign of an `i16` has no effect: `n.seconds()` and `(-n).seconds()` are
/// equally long whenever `-n` is an `i16`.
pub proof fn lemma_i16_seconds_ignore_sign(n: i16, neg: i16, a: Duration, b: Duration)
    requires
        neg == -n,
        call_ensures(i16::seconds, (n,), a),
        call_ensures(i16::seconds, (neg,), b),
    ensures
        duration_nanos(a) == duration_nanos(b),
{
}

/// The sign of an `i32` has no effect: `n.seconds()` and `(-n).seconds()` are
/// equally long whenever `-n` is an `i32`.
pub proof fn lemma_i32_seconds_ignore_sign(n: i32, neg: i32, a: Duration, b: Duration)
    requires
        neg == -n,
        call_ensures(i32::seconds, (n,), a),
        call_ensures(i32::seconds, (neg,), b),
    ensures
        duration_nanos(a) == duration_nanos(b),
{
}

/// The sign of an `i64` has no effect: `n.seconds()` and `(-n).seconds()` are
/// equally long whenever `-n` is an `i64`.
pub proof fn lemma_i64_seconds_ignore_sign(n: i64, neg: i64, a: Duration, b: Duration)
    requires
        neg == -n,
        call_ensures(i64::seconds, (n,), a),
        call_ensures(i64::seconds, (neg,), b),
    ensures
        duration_nanos(a) == duration_nanos(b),
{
}

/// `n.minutes()` is `n.seconds()` scaled by 60, exactly.
pub proof fn lemma_minutes_scale_seconds<T: EasyDuration>(n: T, s: Duration, m: Duration)
    requires
        call_ensures(T::seconds, (n,), s),
        call_ensures(T::minutes, (n,), m),
    ensures
        duration_nanos(m) == duration_nanos(s) * SECS_PER_MINUTE,
{
    assert(duration_nanos(m) == duration_nanos(s) * SECS_PER_MINUTE) by (nonlinear_arith)
        requires
            duration_nanos(s) == n.magnitude() * NANOS_PER_SEC,
            duration_nanos(m) == n.magnitude() * SECS_PER_MINUTE * NANOS_PER_SEC,
    ;
}

/// `n.hours()` is `n.seconds()` scaled by 3600, exactly.
pub proof fn lemma_hours_scale_seconds<T: EasyDuration>(n: T, s: Duration, h: Duration)
    requires
        call_ensures(T::seconds, (n,), s),
        call_ensures(T::hours, (n,), h),
    ensures
        duration_nanos(h) == duration_nanos(s) * SECS_PER_HOUR,
{
    assert(duration_nanos(h) == duration_nanos(s) * SECS_PER_HOUR) by (nonlinear_arith)
        requires
            duration_nanos(s) == n.magnitude() * NANOS_PER_SEC,
            duration_nanos(h) == n.magnitude() * SECS_PER_HOUR * NANOS_PER_SEC,
    ;
}

/// `n.days()` is `n.seconds()` scaled by 86400, exactly.
pub proof fn lemma_days_scale_seconds<T: EasyDuration>(n: T, s: Duration, d: Duration)
    requires
        call_ensures(T::seconds, (n,), s),
        call_ensures(T::days, (n,), d),
    ensures
        duration_nanos(d) == duration_nanos(s) * SECS_PER_DAY,
{
    assert(duration_nanos(d) == duration_nanos(s) * SECS_PER_DAY) by (nonlinear_arith)
        requires
            duration_nanos(s) == n.magnitude() * NANOS_PER_SEC,
            duration_nanos(d) == n.magnitude() * SECS_PER_DAY * NANOS_PER_SEC,
    ;
}

/// `n.years()` is `n.seconds()` scaled by 31,536,000, exactly.
pub proof fn lemma_years_scale_seconds<T: EasyDuration>(n: T, s: Duration, y: Duration)
    requires
        call_ensures(T::seconds, (n,), s),
        call_ensures(T::years, (n,), y),
    ensures
        duration_nanos(y) == duration_nanos(s) * SECS_PER_YEAR,
{
    assert(duration_nanos(y) == duration_nanos(s) * SECS_PER_YEAR) by (nonlinear_arith)
        requires
            duration_nanos(s) == n.magnitude() * NANOS_PER_SEC,
            duration_nanos(y) == n.magnitude() * SECS_PER_YEAR * NANOS_PER_SEC,
    ;
}

/// `n.years()` is `n.days()` scaled by 365, exactly.
pub proof fn lemma_years_scale_days<T: EasyDuration>(n: T, d: Duration, y: Duration)
    requires
        call_ensures(T::days, (n,), d),
        call_ensures(T::years, (n,), y),
    ensures
        duration_nanos(y) == duration_nanos(d) * DAYS_PER_YEAR,
{
    assert(duration_nanos(y) == duration_nanos(d) * DAYS_PER_YEAR) by (nonlinear_arith)
        requires
            duration_nanos(d) == n.magnitude() * SECS_PER_DAY * NANOS_PER_SEC,
            duration_nanos(y) == n.magnitude() * SECS_PER_YEAR * NANOS_PER_SEC,
    ;
}

/// Reading is pure: two calls of `seconds` on the same input give durations of
/// the same length.
pub proof fn lemma_seconds_pure<T: EasyDuration>(n: T, a: Duration, b: Duration)
    requires
        call_ensures(T::seconds, (n,), a),
        call_ensures(T::seconds, (n,), b),
    ensures
        duration_nanos(a) == duration_nanos(b),
{
}

/// Reading is pure: two calls of `minutes` on the same input give durations of
/// the same length.
pub proof fn lemma_minutes_pure<T: EasyDuration>(n: T, a: Duration, b: Duration)
    requires
        call_ensures(T::minutes, (n,), a),
        call_ensures(T::minutes, (n,), b),
    ensures
        duration_nanos(a) == duration_nanos(b),
{
}

/// Reading is pure: two calls of `hours` on the same input give durations of
/// the same length.
pub proof fn lemma_hours_pure<T: EasyDuration>(n: T, a: Duration, b: Duration)
    requires
        call_ensures(T::hours, (n,), a),
        call_ensures(T::hours, (n,), b),
    ensures
        duration_nanos(a) == duration_nanos(b),
{
}

/// Reading is pure: two calls of `days` on the same input give durations of
/// the same length.
pub proof fn lemma_days_pure<T: EasyDuration>(n: T, a: Duration, b: Duration)
    requires
        call_ensures(T::days, (n,), a),
        call_ensures(T::days, (n,), b),
    ensures
        duration_nanos(a) == duration_nanos(b),
{
}

/// Reading is pure: two calls of `years` on the same input give durations of
/// the same length.
pub proof fn lemma_years_pure<T: EasyDuration>(n: T, a: Duration, b: Duration)
    requires
        call_ensures(T::years, (n,), a),
        call_ensures(T::years, (n,), b),
    ensures
        duration_nanos(a) == duration_nanos(b),
{
}

} // verus!
