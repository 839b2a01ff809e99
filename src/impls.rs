//! `EasyDuration` for the unsigned and signed integers of 8 to 64 bits.
use std::time::Duration;
use vstd::prelude::*;

use crate::span::{duration_nanos, secs_to_nanos};
use crate::EasyDuration;

verus! {

/// The absolute value of `x`.
pub open spec fn magnitude_of(x: int) -> nat {
    if x < 0 {
        (-x) as nat
    } else {
        x as nat
    }
}

/// The absolute value of `x` as a `u64`, which holds it even for `i64::MIN`.
pub fn unsigned_magnitude(x: i64) -> (r: u64)
    ensures
        r == magnitude_of(x as int),
{
    if x >= 0 {
        x as u64
    } else {
        // -(x + 1) is at most i64::MAX, so the negation cannot overflow.
        (-(x + 1)) as u64 + 1
    }
}

impl EasyDuration for u8 {
    open spec fn magnitude(self) -> nat {
        self as nat
    }

    fn seconds(self) -> (r: Duration) {
        Duration::from_secs(self as u64)
    }
}

impl EasyDuration for u16 {
    open spec fn magnitude(self) -> nat {
        self as nat
    }

    fn seconds(self) -> (r: Duration) {
        Duration::from_secs(self as u64)
    }
}

impl EasyDuration for u32 {
    open spec fn magnitude(self) -> nat {
        self as nat
    }

    fn seconds(self) -> (r: Duration) {
        Duration::from_secs(self as u64)
    }
}

impl EasyDuration for u64 {
    open spec fn magnitude(self) -> nat {
        self as nat
    }

    fn seconds(self) -> (r: Duration) {
        Duration::from_secs(self)
    }
}

impl EasyDuration for i8 {
    open spec fn magnitude(self) -> nat {
        magnitude_of(self as int)
    }

    fn seconds(self) -> (r: Duration) {
        Duration::from_secs(unsigned_magnitude(self as i64))
    }
}

impl EasyDuration for i16 {
    open spec fn magnitude(self) -> nat {
        magnitude_of(self as int)
    }

    fn seconds(self) -> (r: Duration) {
        Duration::from_secs(unsigned_magnitude(self as i64))
    }
}

impl EasyDuration for i32 {
    open spec fn magnitude(self) -> nat {
        magnitude_of(self as int)
    }

    fn seconds(self) -> (r: Duration) {
        Duration::from_secs(unsigned_magnitude(self as i64))
    }
}

impl EasyDuration for i64 {
    open spec fn magnitude(self) -> nat {
        magnitude_of(self as int)
    }

    fn seconds(self) -> (r: Duration) {
        Duration::from_secs(unsigned_magnitude(self))
    }
}

} // verus!
