//! Time values exchanged with user space, interval timer values, and the
//! conversion of timer-counter readings into time units.

use vstd::prelude::*;
use crate::duration::Duration;

verus! {

/// Milliseconds per second.
pub const MSEC_PER_SEC: usize = 1_000;

/// Microseconds per second.
pub const USEC_PER_SEC: usize = 1_000_000;

/// Nanoseconds per second.
pub const NSEC_PER_SEC: usize = 1_000_000_000;

/// Timer interrupts per second.
pub const TICKS_PER_SEC: usize = 100;

/// Low-precision time value (`struct timeval`).
#[derive(Clone, Copy, Debug, PartialEq, Eq, Structural)]
pub struct TimeVal {
    /// Seconds.
    pub sec: usize,
    /// Microseconds.
    pub usec: usize,
}

/// High-precision time value (`struct timespec`).
#[derive(Clone, Copy, Debug, PartialEq, Eq, Structural)]
pub struct TimeSpec {
    /// Seconds.
    pub tv_sec: usize,
    /// Nanoseconds.
    pub tv_nsec: usize,
}

impl TimeVal {
    /// The zero time value.
    pub fn zero() -> (r: Self)
        ensures
            r.sec == 0 && r.usec == 0,
    {
        TimeVal { sec: 0, usec: 0 }
    }

    /// The time value of `usec` microseconds.
    pub fn from_usec(usec: usize) -> (r: Self)
        ensures
            r.sec == usec / 1_000_000,
            r.usec == usec % 1_000_000,
    {
        Self { sec: usec / USEC_PER_SEC, usec: usec % USEC_PER_SEC }
    }

    /// The time value in microseconds; it must fit in a `usize`.
    pub fn into_usec(&self) -> (r: usize)
        requires
            self.sec * 1_000_000 + self.usec <= usize::MAX,
        ensures
            r == self.sec * 1_000_000 + self.usec,
    {
        self.sec * USEC_PER_SEC + self.usec
    }

    /// Whole seconds and microseconds of a duration; the seconds must fit in a `usize`.
    pub fn from_duration(d: Duration) -> (r: Self)
        requires
            d@ / 1_000_000_000 <= usize::MAX,
        ensures
            r.sec == d@ / 1_000_000_000,
            r.usec == (d@ % 1_000_000_000) / 1_000,
    {
        let s = d.as_secs();
        Self { sec: s as usize, usec: d.subsec_micros() as usize }
    }

    /// The duration of this value, computed as `Duration::new(sec, usec * 1000)`
    /// with the nanosecond count kept to 32 bits.
    pub fn into_duration(self) -> (r: Duration)
        requires
            self.usec * 1_000 <= usize::MAX,
            self.sec <= u64::MAX,
            self.sec + ((self.usec * 1_000) as u32) / 1_000_000_000 <= u64::MAX,
        ensures
            r@ == self.sec * 1_000_000_000 + ((self.usec * 1_000) as u32),
    {
        let n = (self.usec * MSEC_PER_SEC) as u32;
        Duration::new(self.sec as u64, n)
    }

    /// Microseconds below one second.
    pub fn is_valid(&self) -> (r: bool)
        ensures
            r == (self.usec < 1_000_000),
    {
        self.usec < USEC_PER_SEC
    }
}

impl TimeSpec {
    /// The time value in milliseconds; it must fit in a `usize`.
    pub fn into_ms(&self) -> (r: usize)
        requires
            self.tv_sec * 1_000 + self.tv_nsec / 1_000_000 <= usize::MAX,
        ensures
            r == self.tv_sec * 1_000 + self.tv_nsec / 1_000_000,
    {
        self.tv_sec * MSEC_PER_SEC + self.tv_nsec / USEC_PER_SEC
    }

    /// The time value of `ms` milliseconds.
    pub fn from_ms(ms: usize) -> (r: Self)
        requires
            (ms % 1_000) * 1_000_000 <= usize::MAX,
        ensures
            r.tv_sec == ms / 1_000,
            r.tv_nsec == (ms % 1_000) * 1_000_000,
    {
        Self { tv_sec: ms / MSEC_PER_SEC, tv_nsec: (ms % MSEC_PER_SEC) * USEC_PER_SEC }
    }

    /// Whole seconds and nanoseconds of a duration; the seconds must fit in a `usize`.
    pub fn from_duration(d: Duration) -> (r: Self)
        requires
            d@ / 1_000_000_000 <= usize::MAX,
        ensures
            r.tv_sec == d@ / 1_000_000_000,
            r.tv_nsec == d@ % 1_000_000_000,
    {
        let s = d.as_secs();
        Self { tv_sec: s as usize, tv_nsec: d.subsec_nanos() as usize }
    }

    /// The duration of this value, computed as `Duration::new(tv_sec, tv_nsec)`
    /// with the nanosecond count kept to 32 bits.
    pub fn into_duration(self) -> (r: Duration)
        requires
            self.tv_sec <= u64::MAX,
            self.tv_sec + ((self.tv_nsec as u32) / 1_000_000_000) <= u64::MAX,
        ensures
            r@ == self.tv_sec * 1_000_000_000 + (self.tv_nsec as u32),
    {
        Duration::new(self.tv_sec as u64, self.tv_nsec as u32)
    }

    /// Nanoseconds below one second.
    pub fn is_valid(&self) -> (r: bool)
        ensures
            r == (self.tv_nsec < 1_000_000_000),
    {
        self.tv_nsec < NSEC_PER_SEC
    }
}

/// An interval timer setting (`struct itimerval`).
#[derive(Clone, Copy, Debug, PartialEq, Eq, Structural)]
pub struct ITimerVal {
    /// Interval for periodic timer.
    pub it_interval: TimeVal,
    /// Time until next expiration.
    pub it_value: TimeVal,
}

impl ITimerVal {
    /// The zero setting (timer disarmed).
    pub fn zero() -> (r: Self)
        ensures
            r.it_interval == (TimeVal { sec: 0, usec: 0 }),
            r.it_value == (TimeVal { sec: 0, usec: 0 }),
    {
        ITimerVal { it_interval: TimeVal::zero(), it_value: TimeVal::zero() }
    }

    /// Both microsecond fields are below one second.
    pub fn is_valid(&self) -> (r: bool)
        ensures
            r == (self.it_interval.usec < 1_000_000 && self.it_value.usec < 1_000_000),
    {
        self.it_interval.usec < 1_000_000 && self.it_value.usec < 1_000_000
    }
}

/// A POSIX timer setting (`struct itimerspec`).
#[derive(Clone, Copy, Debug, PartialEq, Eq, Structural)]
pub struct ITimerSpec {
    /// Interval for periodic timer.
    pub it_interval: TimeSpec,
    /// Time until next expiration.
    pub it_value: TimeSpec,
}

impl ITimerSpec {
    /// Both time values are valid.
    pub fn is_valid(&self) -> (r: bool)
        ensures
            r == (self.it_interval.tv_nsec < 1_000_000_000 && self.it_value.tv_nsec
                < 1_000_000_000),
    {
        self.it_interval.is_valid() && self.it_value.is_valid()
    }
}

/// Whole seconds elapsed for a counter reading `cycles` at frequency `freq`.
pub fn get_current_time_sec(cycles: usize, freq: usize) -> (r: usize)
    requires
        freq > 0,
    ensures
        r == cycles / freq,
{
    let c = cycles as u128;
    let f = freq as u128;
    (c / f) as usize
}

/// Milliseconds elapsed for a counter reading `cycles` at frequency `freq`
/// (kept to the width of a `usize`).
pub fn get_current_time_ms(cycles: usize, freq: usize) -> (r: usize)
    requires
        freq > 0,
    ensures
        r == (((cycles * 1_000) / (freq as int)) as usize),
{
    let c = cycles as u128;
    let f = freq as u128;
    assert(c * 1_000 <= u128::MAX) by (nonlinear_arith)
        requires
            c <= 0xffff_ffff_ffff_ffff,
    ;
    ((c * 1_000) / f) as usize
}

/// Microseconds elapsed for a counter reading `cycles` at frequency `freq`
/// (kept to the width of a `usize`).
pub fn get_current_time_us(cycles: usize, freq: usize) -> (r: usize)
    requires
        freq > 0,
    ensures
        r == (((cycles * 1_000_000) / (freq as int)) as usize),
{
    let c = cycles as u128;
    let f = freq as u128;
    assert(c * 1_000_000 <= u128::MAX) by (nonlinear_arith)
        requires
            c <= 0xffff_ffff_ffff_ffff,
    ;
    ((c * 1_000_000) / f) as usize
}

/// Nanoseconds elapsed for a counter reading `cycles` at frequency `freq`
/// (kept to the width of a `usize`).
pub fn get_current_time_ns(cycles: usize, freq: usize) -> (r: usize)
    requires
        freq > 0,
    ensures
        r == (((cycles * 1_000_000_000) / (freq as int)) as usize),
{
    let c = cycles as u128;
    let f = freq as u128;
    assert(c * 1_000_000_000 <= u128::MAX) by (nonlinear_arith)
        requires
            c <= 0xffff_ffff_ffff_ffff,
    ;
    ((c * 1_000_000_000) / f) as usize
}

/// Time elapsed for a counter reading `cycles` at frequency `freq`: whole
/// seconds plus the nanoseconds of the remaining cycles (rounded down).
pub fn get_current_time_duration(cycles: u64, freq: u64) -> (r: Duration)
    requires
        freq > 0,
    ensures
        r@ == (cycles / freq) * 1_000_000_000 + ((cycles % freq) * 1_000_000_000) / (freq as int),
{
    let secs = cycles / freq;
    let rest = cycles % freq;
    let c = rest as u128;
    let f = freq as u128;
    assert(c * 1_000_000_000 <= u128::MAX) by (nonlinear_arith)
        requires
            c <= 0xffff_ffff_ffff_ffff,
    ;
    assert((c * 1_000_000_000) / (f as int) < 1_000_000_000) by (nonlinear_arith)
        requires
            c < f,
            f > 0,
    ;
    let nanos = ((c * 1_000_000_000) / f) as u32;
    Duration::new(secs, nanos)
}

/// Counter value at which the next timer interrupt is due, one tick after `now`.
pub fn set_next_trigger(now: usize, freq: usize) -> (r: usize)
    requires
        now + freq / 100 <= usize::MAX,
    ensures
        r == now + freq / 100,
{
    now + freq / TICKS_PER_SEC
}


/// A valid time spec survives the trip through a duration: the duration
/// `into_duration` makes splits back, as `from_duration` splits it, into
/// the same seconds and nanoseconds.
pub proof fn lemma_timespec_round_trip(ts: TimeSpec, d: int)
    requires
        ts.tv_nsec < 1_000_000_000,
        d == ts.tv_sec * 1_000_000_000 + (ts.tv_nsec as u32),
    ensures
        d / 1_000_000_000 == ts.tv_sec,
        d % 1_000_000_000 == ts.tv_nsec,
{
    assert((ts.tv_nsec as u32) == ts.tv_nsec);
    assert((ts.tv_sec * 1_000_000_000 + ts.tv_nsec) / 1_000_000_000 == ts.tv_sec
        && (ts.tv_sec * 1_000_000_000 + ts.tv_nsec) % 1_000_000_000 == ts.tv_nsec) by (nonlinear_arith)
        requires
            0 <= ts.tv_nsec < 1_000_000_000,
            0 <= ts.tv_sec,
    ;
}

/// A valid time value survives the trip through a duration: seconds and
/// microseconds come back unchanged.
pub proof fn lemma_timeval_round_trip(tv: TimeVal, d: int)
    requires
        tv.usec < 1_000_000,
        d == tv.sec * 1_000_000_000 + ((tv.usec * 1_000) as u32),
    ensures
        d / 1_000_000_000 == tv.sec,
        (d % 1_000_000_000) / 1_000 == tv.usec,
{
    assert(((tv.usec * 1_000) as u32) == tv.usec * 1_000);
    assert((tv.sec * 1_000_000_000 + tv.usec * 1_000) / 1_000_000_000 == tv.sec
        && ((tv.sec * 1_000_000_000 + tv.usec * 1_000) % 1_000_000_000) / 1_000 == tv.usec) by (nonlinear_arith)
        requires
            0 <= tv.usec < 1_000_000,
            0 <= tv.sec,
    ;
}

} // verus!
