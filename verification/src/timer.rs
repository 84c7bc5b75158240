//! Timers ordered by expiry.
//!
//! The manager keeps the pending timers ordered by expiry time and hands out
//! the earliest one once it has expired; running the timer's event (which
//! may yield a new timer to add) is up to the caller.

use vstd::prelude::*;
use crate::duration::Duration;

verus! {

/// A timer: an expiry time and the event data to run when it expires.
pub struct Timer<E> {
    /// When the timer expires.
    pub expire: Duration,
    /// What to do when it expires.
    pub data: E,
}

impl<E> Timer<E> {
    /// A timer expiring at `expire` with event `data`.
    pub fn new(expire: Duration, data: E) -> (r: Self)
        ensures
            r.expire == expire,
            r.data == data,
    {
        Self { expire, data }
    }
}

/// The timers of `s` are ordered by expiry.
pub open spec fn sorted_by_expiry<E>(s: Seq<Timer<E>>) -> bool {
    forall|i: int, j: int| 0 <= i < j < s.len() ==> #[trigger] s[i].expire@ <= #[trigger] s[j].expire@
}

/// Where a timer expiring at `t` goes: after every timer expiring no later.
pub open spec fn insert_pos<E>(s: Seq<Timer<E>>, t: int) -> int
    decreases s.len(),
{
    if s.len() == 0 {
        0
    } else if s[0].expire@ <= t {
        1 + insert_pos(s.drop_first(), t)
    } else {
        0
    }
}

/// The pending timers, earliest expiry first.
pub struct TimerManager<E> {
    timers: Vec<Timer<E>>,
}

proof fn lemma_insert_pos<E>(s: Seq<Timer<E>>, t: int)
    requires
        sorted_by_expiry(s),
    ensures
        0 <= insert_pos(s, t) <= s.len(),
        forall|i: int| 0 <= i < insert_pos(s, t) ==> #[trigger] s[i].expire@ <= t,
        forall|i: int| insert_pos(s, t) <= i < s.len() ==> #[trigger] s[i].expire@ > t,
    decreases s.len(),
{
    if s.len() > 0 {
        assert(sorted_by_expiry(s.drop_first()));
        lemma_insert_pos(s.drop_first(), t);
        if s[0].expire@ <= t {
            assert forall|i: int| 0 <= i < insert_pos(s, t) implies #[trigger] s[i].expire@ <= t by {
                if i > 0 {
                    assert(s[i] == s.drop_first()[i - 1]);
                }
            }
            assert forall|i: int| insert_pos(s, t) <= i < s.len() implies #[trigger] s[i].expire@ > t by {
                assert(s[i] == s.drop_first()[i - 1]);
            }
        }
    }
}

impl<E> TimerManager<E> {
    /// The pending timers.
    pub closed spec fn timers(&self) -> Seq<Timer<E>> {
        self.timers@
    }

    /// The pending timers are kept ordered by expiry.
    #[verifier::type_invariant]
    spec fn inv(self) -> bool {
        sorted_by_expiry(self.timers@)
    }

    /// A manager with no timer.
    pub fn new() -> (r: Self)
        ensures
            r.timers() == Seq::<Timer<E>>::empty(),
            sorted_by_expiry(r.timers()),
    {
        Self { timers: Vec::new() }
    }

    /// Add a timer; it goes after every pending timer that expires no later.
    pub fn add_timer(&mut self, timer: Timer<E>)
        ensures
            final(self).timers() == old(self).timers().insert(
                insert_pos(old(self).timers(), timer.expire@),
                timer,
            ),
            sorted_by_expiry(final(self).timers()),
    {
        proof {
            use_type_invariant(&*self);
            lemma_insert_pos(self.timers@, timer.expire@);
        }
        let ghost s = self.timers@;
        let len = self.timers.len();
        let mut k: usize = 0;
        while k < len && self.timers[k].expire.le(&timer.expire)
            invariant
                k <= len,
                len == self.timers@.len(),
                s == self.timers@,
                k <= insert_pos(s, timer.expire@),
                forall|i: int| 0 <= i < insert_pos(s, timer.expire@) ==> #[trigger] s[i].expire@ <= timer.expire@,
                forall|i: int| insert_pos(s, timer.expire@) <= i < s.len() ==> #[trigger] s[i].expire@ > timer.expire@,
                insert_pos(s, timer.expire@) <= s.len(),
            decreases len - k,
        {
            k = k + 1;
        }
        proof {
            if k < len {
                assert(s[k as int].expire@ > timer.expire@);
            }
            assert(k == insert_pos(s, timer.expire@));
            let n = s.insert(k as int, timer);
            assert forall|i: int, j: int| 0 <= i < j < n.len() implies #[trigger] n[i].expire@ <= #[trigger] n[j].expire@ by {
                if i < k && j < k {
                } else if i < k && j == k {
                } else if i < k {
                    assert(n[j] == s[j - 1]);
                } else if i == k {
                    assert(n[j] == s[j - 1]);
                } else {
                    assert(n[i] == s[i - 1]);
                    assert(n[j] == s[j - 1]);
                }
            }
        }
        let mut v: Vec<Timer<E>> = Vec::new();
        std::mem::swap(&mut v, &mut self.timers);
        v.insert(k, timer);
        self.timers = v;
    }

    /// The earliest timer, taken out of the manager, if it has expired by
    /// `now`; `None` (and nothing changes) otherwise.
    pub fn check(&mut self, now: Duration) -> (r: Option<Timer<E>>)
        ensures
            old(self).timers().len() > 0 && old(self).timers()[0].expire@ <= now@ ==> r == Some(
                old(self).timers()[0],
            ) && final(self).timers() == old(self).timers().drop_first(),
            !(old(self).timers().len() > 0 && old(self).timers()[0].expire@ <= now@) ==> r is None
                && final(self).timers() == old(self).timers(),
            sorted_by_expiry(final(self).timers()),
            sorted_by_expiry(old(self).timers()),
    {
        proof {
            use_type_invariant(&*self);
        }
        if self.timers.len() == 0 {
            return None;
        }
        if self.timers[0].expire.le(&now) {
            let ghost s = self.timers@;
            proof {
                assert forall|i: int, j: int| 0 <= i < j < s.drop_first().len() implies #[trigger] s.drop_first()[i].expire@ <= #[trigger] s.drop_first()[j].expire@ by {
                    assert(s.drop_first()[i] == s[i + 1]);
                    assert(s.drop_first()[j] == s[j + 1]);
                }
            }
            let mut v: Vec<Timer<E>> = Vec::new();
            std::mem::swap(&mut v, &mut self.timers);
            let t = v.remove(0);
            self.timers = v;
            Some(t)
        } else {
            None
        }
    }

    /// Every timer expired by `now`, taken out of the manager in order of
    /// expiry (earliest first): the pending timers are those that were
    /// pending and not yet expired, and the earliest of them (if any)
    /// expires after `now`. The caller runs the events in the order given
    /// and adds back the timers they yield.
    pub fn take_expired(&mut self, now: Duration) -> (r: Vec<Timer<E>>)
        ensures
            r@ + final(self).timers() == old(self).timers(),
            forall|i: int| 0 <= i < r@.len() ==> #[trigger] r@[i].expire@ <= now@,
            final(self).timers().len() > 0 ==> final(self).timers()[0].expire@ > now@,
            sorted_by_expiry(final(self).timers()),
    {
        let mut out: Vec<Timer<E>> = Vec::new();
        loop
            invariant
                out@ + self.timers() == old(self).timers(),
                forall|i: int| 0 <= i < out@.len() ==> #[trigger] out@[i].expire@ <= now@,
            ensures
                out@ + self.timers() == old(self).timers(),
                forall|i: int| 0 <= i < out@.len() ==> #[trigger] out@[i].expire@ <= now@,
                self.timers().len() > 0 ==> self.timers()[0].expire@ > now@,
                sorted_by_expiry(self.timers()),
            decreases self.timers().len(),
        {
            let ghost before = self.timers();
            match self.check(now) {
                Some(t) => {
                    proof {
                        assert(out@.push(t) + self.timers() =~= out@ + before);
                    }
                    out.push(t);
                },
                None => {
                    break;
                },
            }
        }
        out
    }

    /// Number of pending timers.
    pub fn len(&self) -> (r: usize)
        ensures
            r == self.timers().len(),
    {
        self.timers.len()
    }
}

/// The timer-id counter after one id is handed out from `c`.
pub open spec fn next_timer_counter(c: usize) -> usize {
    if c == usize::MAX {
        0
    } else {
        (c + 1) as usize
    }
}

/// The ids that `n` calls of `alloc_timer_id` hand out, one after the
/// other, from a counter holding `c`.
pub open spec fn timer_ids(c: usize, n: nat) -> Seq<usize>
    decreases n,
{
    if n == 0 {
        Seq::empty()
    } else {
        seq![c] + timer_ids(next_timer_counter(c), (n - 1) as nat)
    }
}

/// Hand out the next timer id from `counter` (which starts at 1), advancing it.
pub fn alloc_timer_id(counter: &mut usize) -> (r: usize)
    ensures
        r == *old(counter),
        *final(counter) == next_timer_counter(*old(counter)),
{
    let id = *counter;
    *counter = if id == usize::MAX {
        0
    } else {
        id + 1
    };
    id
}

/// From a counter holding `c`, the `i`-th of `n` successive ids is `c + i`
/// while the counter does not wrap.
proof fn lemma_timer_ids_count_up(c: usize, n: nat)
    requires
        c + n <= usize::MAX + 1,
    ensures
        timer_ids(c, n).len() == n,
        forall|i: int| 0 <= i < n ==> #[trigger] timer_ids(c, n)[i] == c + i,
    decreases n,
{
    if n > 0 {
        let c2 = next_timer_counter(c);
        if n > 1 {
            assert(c < usize::MAX);
        }
        if c < usize::MAX {
            lemma_timer_ids_count_up(c2, (n - 1) as nat);
            assert forall|i: int| 0 <= i < n implies #[trigger] timer_ids(c, n)[i] == c + i by {
                if i > 0 {
                    assert(timer_ids(c, n)[i] == timer_ids(c2, (n - 1) as nat)[i - 1]);
                }
            }
        } else {
            assert(n == 1);
            assert(timer_ids(c2, 0) =~= Seq::<usize>::empty());
        }
    }
}

/// Timer ids are unique and rise: from the counter's start value 1, any
/// run of calls that does not exhaust the counter hands out ids that are
/// at least 1, each larger than every id before it (so no two are equal).
pub proof fn lemma_timer_ids_unique_increasing(n: nat)
    requires
        n <= usize::MAX,
    ensures
        timer_ids(1, n).len() == n,
        forall|i: int| 0 <= i < n ==> #[trigger] timer_ids(1, n)[i] >= 1,
        forall|i: int, j: int| 0 <= i < j < n ==> #[trigger] timer_ids(1, n)[i] < #[trigger] timer_ids(1, n)[j],
{
    lemma_timer_ids_count_up(1, n);
}

/// The alarm signal of the real interval timer.
pub const SIGALRM: usize = 14;

/// What the expiry of an interval timer does.
#[derive(Clone, Copy, Debug, PartialEq, Eq, Structural)]
pub enum TimerFire {
    /// Nothing: the timer was replaced or deleted since it was queued.
    Stale,
    /// Signal, and do not come back (no interval).
    Once,
    /// Signal, and come back at this time.
    Rearm(Duration),
}

/// The expiry of the real interval timer (RealITimer::callback): a timer
/// that is no longer the task's current one (`current`) does nothing;
/// otherwise `SIGALRM` is sent, and a timer with an interval comes back
/// that long after now.
pub fn real_itimer_callback(current: bool, interval: Duration, now: Duration) -> (r: TimerFire)
    requires
        now@ + interval@ <= crate::duration::max_nanos(),
    ensures
        !current ==> r == TimerFire::Stale,
        current && interval@ == 0 ==> r == TimerFire::Once,
        current && interval@ != 0 ==> (r matches TimerFire::Rearm(t) && t@ == now@ + interval@),
{
    if !current {
        return TimerFire::Stale;
    }
    if interval.is_zero() {
        return TimerFire::Once;
    }
    TimerFire::Rearm(now.add(&interval))
}

/// The state of a timer file.
#[derive(Clone, Copy, Debug, PartialEq, Eq, Structural)]
pub struct TimerFdState {
    /// Expirations not yet read.
    pub expirations: u64,
    /// The period (zero: one-shot).
    pub interval: Duration,
    /// The next expiry (zero: disarmed).
    pub next_expire: Duration,
}

/// The expiry of a timer file (TimerFdEvent::callback) at time `now`: one
/// more expiration is counted (and a reader woken); a periodic timer comes
/// back one period after now, a one-shot timer is disarmed.
pub fn timerfd_callback(st: TimerFdState, now: Duration) -> (r: (TimerFdState, Option<Duration>))
    requires
        st.expirations < u64::MAX,
        now@ + st.interval@ <= crate::duration::max_nanos(),
    ensures
        r.0.expirations == st.expirations + 1,
        r.0.interval == st.interval,
        st.interval@ != 0 ==> (r.1 matches Some(t) && t@ == now@ + st.interval@ && r.0.next_expire == t),
        st.interval@ == 0 ==> r.1 is None && r.0.next_expire@ == 0,
{
    if !st.interval.is_zero() {
        let next = now.add(&st.interval);
        (TimerFdState { expirations: st.expirations + 1, interval: st.interval, next_expire: next }, Some(next))
    } else {
        (TimerFdState { expirations: st.expirations + 1, interval: st.interval, next_expire: Duration::zero() }, None)
    }
}

/// Whether a read of a timer file can go on (TimerFdReadFuture::poll):
/// expirations are pending, or the timer is disarmed.
pub fn timerfd_read_ready(st: &TimerFdState) -> (r: bool)
    ensures
        r == (st.expirations > 0 || st.next_expire@ == 0),
{
    st.expirations > 0 || st.next_expire.is_zero()
}

/// How many periods a POSIX timer's expiry covers: one, plus one for each
/// whole period it is late by (as the count is kept, in a `usize`, then a
/// `u32`).
pub open spec fn posix_periods(now: Duration, next_expire: Duration, interval: Duration) -> u32 {
    (((((now@ - next_expire@) / interval@) as u128) as usize + 1) as u32)
}

/// What the expiry of a POSIX timer does.
#[derive(Clone, Copy, Debug, PartialEq, Eq, Structural)]
pub struct PosixFire {
    /// The expirations missed (the overrun reported for the signal sent).
    pub overrun: usize,
    /// The next expiry (zero for a one-shot timer).
    pub next_expire: Duration,
    /// The timer is queued again at `next_expire`.
    pub rearm: bool,
}

/// The expiry of a POSIX timer (PosixTimer::callback), once it is found to
/// be the task's current timer, at time `now`: before its expiry nothing
/// happens (`None`). Otherwise its signal is sent; a periodic timer skips
/// the periods it is late by, counting them as overrun, and comes back
/// after them; a one-shot timer is disarmed.
pub fn posix_timer_callback(now: Duration, next_expire: Duration, interval: Duration) -> (r: Option<PosixFire>)
    requires
        interval@ != 0 && next_expire@ <= now@ ==> (#[verifier::truncate] (((now@ - next_expire@) / interval@) as u128) as usize) < usize::MAX,
        interval@ != 0 && next_expire@ <= now@ ==> next_expire@ + interval@ * posix_periods(now, next_expire, interval)
            <= crate::duration::max_nanos(),
    ensures
        now@ < next_expire@ ==> r is None,
        next_expire@ <= now@ && interval@ == 0 ==> (r matches Some(f) && f.overrun == 0 && f.next_expire@ == 0
            && !f.rearm),
        next_expire@ <= now@ && interval@ != 0 ==> (r matches Some(f) && f.overrun == ((((now@ - next_expire@)
            / interval@) as u128) as usize) && f.next_expire@ == next_expire@ + interval@ * posix_periods(
            now,
            next_expire,
            interval,
        ) && f.rearm == (f.next_expire@ != 0)),
{
    if !next_expire.le(&now) {
        return None;
    }
    if interval.is_zero() {
        return Some(PosixFire { overrun: 0, next_expire: Duration::zero(), rearm: false });
    }
    let late = now.sub(&next_expire);
    let q = late.as_nanos() / interval.as_nanos();
    proof {
        let qi: int = (now@ - next_expire@) / interval@;
        Duration::lemma_nonneg(late);
        Duration::lemma_nonneg(interval);
        assert(q as int == qi);
        assert(0 <= qi <= late@) by (nonlinear_arith)
            requires
                qi == late@ / interval@,
                late@ >= 0,
                interval@ >= 1,
        ;
        assert((qi as u128) as int == qi);
    }
    let k = (q as usize) + 1;
    assert(k as u32 == posix_periods(now, next_expire, interval));
    proof {
        Duration::lemma_nonneg(next_expire);
    }
    let overrun = k - 1;
    let step = interval.mul_u32(k as u32);
    let next = next_expire.add(&step);
    let rearm = !next.is_zero();
    Some(PosixFire { overrun, next_expire: next, rearm })
}

/// A periodic POSIX timer that fires late comes back at the first period
/// boundary after now, and the overrun it reports is the number of whole
/// periods it missed: the last boundary not after now is the one it
/// skipped to minus a period. (When it is late by fewer periods than a
/// `u32` holds; beyond that the period count wraps.)
pub proof fn lemma_posix_timer_next_after_now(now: Duration, next_expire: Duration, interval: Duration)
    requires
        interval@ != 0,
        next_expire@ <= now@,
        (now@ - next_expire@) / interval@ < 0xffff_ffff,
    ensures
        posix_periods(now, next_expire, interval) == (now@ - next_expire@) / interval@ + 1,
        next_expire@ + interval@ * posix_periods(now, next_expire, interval) > now@,
        next_expire@ + interval@ * (posix_periods(now, next_expire, interval) - 1) <= now@,
{
    Duration::lemma_nonneg(interval);
    let late = now@ - next_expire@;
    let q = late / interval@;
    assert(0 <= q) by (nonlinear_arith)
        requires
            q == late / interval@,
            late >= 0,
            interval@ > 0,
    ;
    assert((q as u128) as int == q);
    assert(((q as u128) as usize) as int == q);
    assert((((q as u128) as usize + 1) as u32) as int == q + 1);
    assert(interval@ * (q + 1) > late && interval@ * q <= late) by (nonlinear_arith)
        requires
            q == late / interval@,
            late >= 0,
            interval@ > 0,
    ;
}

/// The output of a task run with a deadline.
pub enum TimedTaskOutput<T> {
    /// The deadline passed first.
    TimedOut,
    /// The task finished with this output.
    OK(T),
}

/// What a poll of a task run with a deadline gives.
pub enum TimedPoll<T> {
    /// It is over, with this output.
    Ready(TimedTaskOutput<T>),
    /// It goes on; when `register`, a timer that wakes the task at the
    /// deadline is to be added now (the first time it waits).
    Pending { register: bool },
}

/// One poll of a task run with a deadline `expire`, once the task itself
/// was polled (`inner`: its output when it finished): a finished task gives
/// its output; otherwise, at or past the deadline, it has timed out; before
/// it, the task waits, and a wake-up timer is registered unless one already
/// was (`in_manager`).
pub fn timed_task_poll<T>(
    inner: Option<T>,
    now: Duration,
    expire: Duration,
    in_manager: bool,
) -> (r: TimedPoll<T>)
    ensures
        inner is Some ==> r == TimedPoll::Ready(TimedTaskOutput::OK(inner->Some_0)),
        inner is None && expire@ <= now@ ==> r == TimedPoll::<T>::Ready(TimedTaskOutput::TimedOut),
        inner is None && now@ < expire@ ==> r == (TimedPoll::<T>::Pending { register: !in_manager }),
{
    match inner {
        Some(v) => TimedPoll::Ready(TimedTaskOutput::OK(v)),
        None => {
            if expire.le(&now) {
                TimedPoll::Ready(TimedTaskOutput::TimedOut)
            } else {
                TimedPoll::Pending { register: !in_manager }
            }
        },
    }
}

} // verus!
