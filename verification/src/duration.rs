//! A span of time with nanosecond precision: whole seconds in a `u64` and
//! a sub-second part below one second, as `core::time::Duration` keeps it.

use vstd::prelude::*;

verus! {

/// Nanoseconds per second.
pub const NANOS_PER_SEC: u64 = 1_000_000_000;

/// The largest duration, in nanoseconds.
pub open spec fn max_nanos() -> int {
    0xffff_ffff_ffff_ffffint * 1_000_000_000 + 999_999_999
}

/// A span of time.
#[derive(Clone, Copy, Debug, PartialEq, Eq, Structural)]
pub struct Duration {
    secs: u64,
    nanos: u32,
}

impl View for Duration {
    type V = int;

    /// The span in nanoseconds.
    closed spec fn view(&self) -> int {
        self.secs * 1_000_000_000 + self.nanos
    }
}

impl Duration {
    /// The sub-second part is below one second.
    #[verifier::type_invariant]
    spec fn inv(self) -> bool {
        self.nanos < 1_000_000_000
    }

    /// No duration is negative.
    pub proof fn lemma_nonneg(d: Self)
        ensures
            0 <= d@,
    {
    }

    /// The zero duration.
    pub fn zero() -> (r: Self)
        ensures
            r@ == 0,
    {
        Duration { secs: 0, nanos: 0 }
    }

    /// `secs` seconds and `nanos` nanoseconds; nanoseconds beyond a second carry
    /// into the seconds, which must not overflow.
    pub fn new(secs: u64, nanos: u32) -> (r: Self)
        requires
            secs + nanos / 1_000_000_000 <= u64::MAX,
        ensures
            r@ == secs * 1_000_000_000 + nanos,
    {
        let extra = (nanos / 1_000_000_000) as u64;
        let rest = nanos % 1_000_000_000;
        Duration { secs: secs + extra, nanos: rest }
    }

    /// A duration of `n` nanoseconds.
    pub fn from_nanos(n: u64) -> (r: Self)
        ensures
            r@ == n,
    {
        let secs = n / NANOS_PER_SEC;
        let rest = (n % NANOS_PER_SEC) as u32;
        Duration { secs, nanos: rest }
    }

    /// Whole seconds.
    pub fn as_secs(&self) -> (r: u64)
        ensures
            r == self@ / 1_000_000_000,
    {
        proof {
            use_type_invariant(self);
        }
        self.secs
    }

    /// The sub-second part in nanoseconds.
    pub fn subsec_nanos(&self) -> (r: u32)
        ensures
            r == self@ % 1_000_000_000,
    {
        proof {
            use_type_invariant(self);
        }
        self.nanos
    }

    /// The sub-second part in whole microseconds.
    pub fn subsec_micros(&self) -> (r: u32)
        ensures
            r == (self@ % 1_000_000_000) / 1_000,
    {
        proof {
            use_type_invariant(self);
        }
        self.nanos / 1_000
    }

    /// Whether the duration is zero.
    pub fn is_zero(&self) -> (r: bool)
        ensures
            r == (self@ == 0),
    {
        proof {
            use_type_invariant(self);
        }
        self.secs == 0 && self.nanos == 0
    }

    /// `self <= other`.
    pub fn le(&self, other: &Self) -> (r: bool)
        ensures
            r == (self@ <= other@),
    {
        proof {
            use_type_invariant(self);
            use_type_invariant(other);
        }
        self.secs < other.secs || (self.secs == other.secs && self.nanos <= other.nanos)
    }

    /// The sum; it must not exceed the largest duration.
    pub fn add(&self, other: &Self) -> (r: Self)
        requires
            self@ + other@ <= max_nanos(),
        ensures
            r@ == self@ + other@,
    {
        proof {
            use_type_invariant(self);
            use_type_invariant(other);
        }
        let n = self.nanos + other.nanos;
        if n >= 1_000_000_000 {
            Duration { secs: self.secs + other.secs + 1, nanos: n - 1_000_000_000 }
        } else {
            Duration { secs: self.secs + other.secs, nanos: n }
        }
    }

    /// The difference; `other` must not exceed `self`.
    pub fn sub(&self, other: &Self) -> (r: Self)
        requires
            other@ <= self@,
        ensures
            r@ == self@ - other@,
    {
        proof {
            use_type_invariant(self);
            use_type_invariant(other);
        }
        if self.nanos >= other.nanos {
            Duration { secs: self.secs - other.secs, nanos: self.nanos - other.nanos }
        } else {
            Duration {
                secs: self.secs - other.secs - 1,
                nanos: self.nanos + 1_000_000_000 - other.nanos,
            }
        }
    }
    /// The duration in nanoseconds.
    pub fn as_nanos(&self) -> (r: u128)
        ensures
            r == self@,
            self@ <= max_nanos(),
    {
        proof {
            use_type_invariant(self);
        }
        (self.secs as u128) * 1_000_000_000 + (self.nanos as u128)
    }

    /// A duration of `n` nanoseconds; it must not exceed the largest duration.
    pub fn from_nanos_u128(n: u128) -> (r: Self)
        requires
            n <= max_nanos(),
        ensures
            r@ == n,
    {
        let secs = n / 1_000_000_000;
        let rest = n % 1_000_000_000;
        assert(secs <= 0xffff_ffff_ffff_ffff) by (nonlinear_arith)
            requires
                secs == n / 1_000_000_000,
                n <= 0xffff_ffff_ffff_ffffint * 1_000_000_000 + 999_999_999,
        ;
        Duration { secs: secs as u64, nanos: rest as u32 }
    }

    /// The duration `k` times over; it must not exceed the largest duration.
    pub fn mul_u32(&self, k: u32) -> (r: Self)
        requires
            self@ * k <= max_nanos(),
        ensures
            r@ == self@ * k,
    {
        let n = self.as_nanos();
        proof {
            Self::lemma_nonneg(*self);
        }
        assert(n * (k as u128) <= max_nanos());
        let t = n * (k as u128);
        Self::from_nanos_u128(t)
    }

}

} // verus!
