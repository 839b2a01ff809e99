//! The `EasyDuration` extension trait: builds a `std::time::Duration` from an
//! integer with readable methods such as `5.hours()` or `2.years()`.
//!
//! A signed input stands for its magnitude, so `(-3i32).seconds()` is three
//! seconds long. A day is 24 hours and a year 365 days, with no calendar
//! adjustment.
use std::time::Duration;
use vstd::prelude::*;

pub mod impls;
pub mod laws;
pub mod span;

use crate::span::{duration_nanos, lemma_scaled_fits, scale, secs_to_nanos};

verus! {

/// Seconds in one minute.
pub const SECS_PER_MINUTE: u32 = 60;

/// Seconds in one hour.
pub const SECS_PER_HOUR: u32 = 3600;

/// Seconds in one day of 24 hours.
pub const SECS_PER_DAY: u32 = 86400;

/// Days in one year.
pub const DAYS_PER_YEAR: u32 = 365;

/// Seconds in one year of 365 days.
pub const SECS_PER_YEAR: u32 = 31_536_000;

/// Builds a `Duration` from an integer, read as a count of the unit that the
/// method names. A signed integer counts by its magnitude.
///
/// The scaled units require that the count in seconds fits in a `u64`, the
/// range of whole seconds that a `Duration` holds.
pub trait EasyDuration: Sized {
    /// The number of units that `self` stands for: its absolute value.
    spec fn magnitude(self) -> nat;

    /// A duration of exactly `magnitude()` whole seconds.
    fn seconds(self) -> (r: Duration)
        ensures
            duration_nanos(r) == secs_to_nanos(self.magnitude() as int),
    ;

    /// A duration of `magnitude()` minutes.
    fn minutes(self) -> (r: Duration)
        requires
            self.magnitude() * SECS_PER_MINUTE <= u64::MAX,
        ensures
            duration_nanos(r) == secs_to_nanos(self.magnitude() * SECS_PER_MINUTE),
    {
        let secs = self.seconds();
        proof {
            lemma_scaled_fits(self.magnitude() as int, SECS_PER_MINUTE as int);
        }
        scale(secs, SECS_PER_MINUTE)
    }

    /// A duration of `magnitude()` hours.
    fn hours(self) -> (r: Duration)
        requires
            self.magnitude() * SECS_PER_HOUR <= u64::MAX,
        ensures
            duration_nanos(r) == secs_to_nanos(self.magnitude() * SECS_PER_HOUR),
    {
        let secs = self.seconds();
        proof {
            lemma_scaled_fits(self.magnitude() as int, SECS_PER_HOUR as int);
        }
        scale(secs, SECS_PER_HOUR)
    }

    /// A duration of `magnitude()` days of 24 hours each.
    fn days(self) -> (r: Duration)
        requires
            self.magnitude() * SECS_PER_DAY <= u64::MAX,
        ensures
            duration_nanos(r) == secs_to_nanos(self.magnitude() * SECS_PER_DAY),
    {
        let secs = self.seconds();
        proof {
            lemma_scaled_fits(self.magnitude() as int, SECS_PER_DAY as int);
        }
        scale(secs, SECS_PER_DAY)
    }

    /// A duration of `magnitude()` years of 365 days each.
    fn years(self) -> (r: Duration)
        requires
            self.magnitude() * SECS_PER_YEAR <= u64::MAX,
        ensures
            duration_nanos(r) == secs_to_nanos(self.magnitude() * SECS_PER_YEAR),
    {
        let m = Ghost(self.magnitude() as int);
        assert(m@ * SECS_PER_DAY <= m@ * SECS_PER_YEAR) by (nonlinear_arith)
            requires
                m@ >= 0,
        ;
        let days = self.days();
        proof {
            lemma_scaled_fits(m@ * SECS_PER_DAY, DAYS_PER_YEAR as int);
            assert(m@ * SECS_PER_DAY * DAYS_PER_YEAR == m@ * SECS_PER_YEAR) by (nonlinear_arith);
        }
        scale(days, DAYS_PER_YEAR)
    }
}

} // verus!
