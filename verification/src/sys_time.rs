//! Time-related system calls and resource-usage reports, given the current
//! time (read from the hardware timer by the caller) and the task's timers.

use vstd::prelude::*;
use crate::errno::{SysError, SysResult};
use crate::duration::{Duration, max_nanos};
use crate::time::{TimeVal, TimeSpec, ITimerVal};
use crate::recorder::TimeRecorder;

verus! {

/// A clock that can be set: wall-clock time.
pub const CLOCK_REALTIME: usize = 0;
/// Monotonic time.
pub const CLOCK_MONOTONIC: usize = 1;
/// CPU time of the process.
pub const CLOCK_PROCESS_CPUTIME_ID: usize = 2;
/// CPU time of the thread.
pub const CLOCK_THREAD_CPUTIME_ID: usize = 3;
/// Raw monotonic time.
pub const CLOCK_MONOTONIC_RAW: usize = 4;
/// Coarse wall-clock time.
pub const CLOCK_REALTIME_COARSE: usize = 5;
/// Coarse monotonic time.
pub const CLOCK_MONOTONIC_COARSE: usize = 6;

/// syscall gettimeofday: the time value for `now_us` microseconds.
pub fn sys_gettimeofday(now_us: usize) -> (r: TimeVal)
    ensures
        r.sec == now_us / 1_000_000,
        r.usec == now_us % 1_000_000,
{
    TimeVal::from_usec(now_us)
}

/// syscall clock_getres: every clock has a resolution of one nanosecond.
pub fn sys_clock_getres(_clockid: usize) -> (r: TimeSpec)
    ensures
        r == (TimeSpec { tv_sec: 0, tv_nsec: 1 }),
{
    TimeSpec { tv_sec: 0, tv_nsec: 1 }
}

/// syscall clock_gettime: the time of clock `clock_id`. The wall and
/// monotonic clocks are `now` plus their set offset (`deviation[0]` and
/// `deviation[1]`); the CPU-time clocks are the process's and the thread's
/// processor time. Unknown clocks are `EINVAL`.
pub fn sys_clock_gettime(
    clock_id: usize,
    now: Duration,
    deviation: &[Duration; 2],
    process_cpu_time: Duration,
    thread: &TimeRecorder,
) -> (r: Result<Duration, SysError>)
    requires
        deviation@[0]@ + now@ <= max_nanos(),
        deviation@[1]@ + now@ <= max_nanos(),
        thread.spec_user_time()@ + thread.spec_kernel_time()@ <= max_nanos(),
    ensures
        (clock_id == CLOCK_REALTIME || clock_id == CLOCK_REALTIME_COARSE) ==> (r matches Ok(d)
            && d@ == deviation@[0]@ + now@),
        (clock_id == CLOCK_MONOTONIC || clock_id == CLOCK_MONOTONIC_RAW || clock_id
            == CLOCK_MONOTONIC_COARSE) ==> (r matches Ok(d) && d@ == deviation@[1]@ + now@),
        clock_id == CLOCK_PROCESS_CPUTIME_ID ==> r == Ok::<Duration, SysError>(process_cpu_time),
        clock_id == CLOCK_THREAD_CPUTIME_ID ==> (r matches Ok(d) && d@
            == thread.spec_user_time()@ + thread.spec_kernel_time()@),
        clock_id > 6 ==> r == Err::<Duration, SysError>(SysError::EINVAL),
{
    if clock_id == CLOCK_REALTIME || clock_id == CLOCK_REALTIME_COARSE {
        Ok(deviation[0].add(&now))
    } else if clock_id == CLOCK_MONOTONIC || clock_id == CLOCK_MONOTONIC_RAW || clock_id
        == CLOCK_MONOTONIC_COARSE {
        Ok(deviation[1].add(&now))
    } else if clock_id == CLOCK_PROCESS_CPUTIME_ID {
        Ok(process_cpu_time)
    } else if clock_id == CLOCK_THREAD_CPUTIME_ID {
        let (u, k) = thread.time_pair();
        Ok(u.add(&k))
    } else {
        Err(SysError::EINVAL)
    }
}

/// syscall clock_settime, once the new time `tp` has been read: only the wall
/// clock can be set, to a valid time not before now (in milliseconds); the
/// result is the wall clock's new offset from the timer.
pub fn sys_clock_settime(clock_id: usize, tp: TimeSpec, now: Duration, now_ms: usize) -> (r: Result<
    Duration,
    SysError,
>)
    requires
        tp.tv_sec <= u64::MAX,
        tp.tv_sec + ((tp.tv_nsec as u32) / 1_000_000_000) <= u64::MAX,
        tp.tv_sec * 1_000 + tp.tv_nsec / 1_000_000 <= usize::MAX,
        clock_id == CLOCK_REALTIME && tp.tv_nsec < 1_000_000_000 && tp.tv_sec * 1_000 + tp.tv_nsec
            / 1_000_000 >= now_ms ==> now@ <= tp.tv_sec * 1_000_000_000 + tp.tv_nsec,
    ensures
        clock_id != CLOCK_REALTIME ==> r == Err::<Duration, SysError>(SysError::EINVAL),
        clock_id == CLOCK_REALTIME ==> (if tp.tv_nsec >= 1_000_000_000 || tp.tv_sec * 1_000
            + tp.tv_nsec / 1_000_000 < now_ms {
            r == Err::<Duration, SysError>(SysError::EINVAL)
        } else {
            r matches Ok(d) && d@ == tp.tv_sec * 1_000_000_000 + tp.tv_nsec - now@
        }),
{
    if clock_id == CLOCK_PROCESS_CPUTIME_ID || clock_id == CLOCK_THREAD_CPUTIME_ID || clock_id
        == CLOCK_MONOTONIC {
        return Err(SysError::EINVAL);
    }
    let duration = tp.into_duration();
    if !tp.is_valid() {
        return Err(SysError::EINVAL);
    }
    if clock_id == CLOCK_REALTIME {
        if tp.into_ms() < now_ms {
            return Err(SysError::EINVAL);
        }
        Ok(duration.sub(&now))
    } else {
        Err(SysError::EINVAL)
    }
}

/// An interval timer of a task.
#[derive(Clone, Copy, Debug, PartialEq, Eq, Structural)]
pub struct ITimer {
    /// Interval between expirations.
    pub interval: Duration,
    /// Next expiry (zero: disarmed).
    pub next_expire: Duration,
    /// Id of the current arming.
    pub id: usize,
}

/// `later - earlier`, or zero when `later` is earlier.
fn saturating_sub(later: &Duration, earlier: &Duration) -> (r: Duration)
    ensures
        r@ == (if later@ >= earlier@ {
            later@ - earlier@
        } else {
            0
        }),
{
    if earlier.le(later) {
        later.sub(earlier)
    } else {
        Duration::zero()
    }
}

/// The setting an interval timer reports at `now`: its interval, and the time
/// left until it expires.
pub open spec fn itimer_value(t: ITimer, now: Duration) -> (int, int) {
    (t.interval@, if t.next_expire@ >= now@ {
        t.next_expire@ - now@
    } else {
        0
    })
}

/// The `itimerval` of timer `t` at `now`.
fn itimer_val(t: &ITimer, now: &Duration) -> (r: ITimerVal)
    requires
        t.interval@ / 1_000_000_000 <= usize::MAX,
        t.next_expire@ / 1_000_000_000 <= usize::MAX,
    ensures
        r.it_interval.sec == t.interval@ / 1_000_000_000,
        r.it_interval.usec == (t.interval@ % 1_000_000_000) / 1_000,
        r.it_value.sec == itimer_value(*t, *now).1 / 1_000_000_000,
        r.it_value.usec == (itimer_value(*t, *now).1 % 1_000_000_000) / 1_000,
{
    let left = saturating_sub(&t.next_expire, now);
    proof {
        Duration::lemma_nonneg(left);
        Duration::lemma_nonneg(*now);
        Duration::lemma_nonneg(t.next_expire);
    }
    assert(left@ / 1_000_000_000 <= t.next_expire@ / 1_000_000_000) by (nonlinear_arith)
        requires
            0 <= left@ <= t.next_expire@,
    ;
    ITimerVal { it_interval: TimeVal::from_duration(t.interval), it_value: TimeVal::from_duration(left) }
}

/// syscall getitimer: the setting of timer `which` (0 to 2) at `now`.
pub fn sys_getitimer(which: usize, itimers: &[ITimer; 3], now: Duration) -> (r: Result<
    ITimerVal,
    SysError,
>)
    requires
        forall|i: int| 0 <= i < 3 ==> #[trigger] itimers@[i].interval@ / 1_000_000_000 <= usize::MAX
            && itimers@[i].next_expire@ / 1_000_000_000 <= usize::MAX,
    ensures
        which > 2 ==> r == Err::<ITimerVal, SysError>(SysError::EINVAL),
        which <= 2 ==> (r matches Ok(v) && v.it_interval.sec == itimers@[which as int].interval@
            / 1_000_000_000 && v.it_interval.usec == (itimers@[which as int].interval@
            % 1_000_000_000) / 1_000 && v.it_value.sec == itimer_value(
            itimers@[which as int],
            now,
        ).1 / 1_000_000_000 && v.it_value.usec == (itimer_value(itimers@[which as int], now).1
            % 1_000_000_000) / 1_000),
{
    if which > 2 {
        return Err(SysError::EINVAL);
    }
    Ok(itimer_val(&itimers[which], &now))
}

/// syscall setitimer, once the new setting has been read: an invalid
/// `which` or setting is `EINVAL`. Timer `which` takes the new interval and
/// the id `id`, and expires at `now` plus the new value (disarmed for a zero
/// value). Returns the previous setting and, when armed, the expiry at which
/// a timer must be added.
pub fn sys_setitimer(
    which: usize,
    itimers: &mut [ITimer; 3],
    new: ITimerVal,
    id: usize,
    now: Duration,
) -> (r: Result<(ITimerVal, Option<Duration>), SysError>)
    requires
        forall|i: int| 0 <= i < 3 ==> #[trigger] old(itimers)@[i].interval@ / 1_000_000_000
            <= usize::MAX && old(itimers)@[i].next_expire@ / 1_000_000_000 <= usize::MAX,
        new.it_interval.usec * 1_000 <= usize::MAX,
        new.it_interval.sec + ((new.it_interval.usec * 1_000) as u32) / 1_000_000_000 <= u64::MAX,
        new.it_value.usec * 1_000 <= usize::MAX,
        new.it_value.sec + ((new.it_value.usec * 1_000) as u32) / 1_000_000_000 <= u64::MAX,
        now@ + new.it_value.sec * 1_000_000_000 + ((new.it_value.usec * 1_000) as u32)
            <= max_nanos(),
    ensures
        which > 2 || !(new.it_interval.usec < 1_000_000 && new.it_value.usec < 1_000_000) ==> r
            == Err::<(ITimerVal, Option<Duration>), SysError>(SysError::EINVAL) && final(itimers)@
            == old(itimers)@,
        which <= 2 && new.it_interval.usec < 1_000_000 && new.it_value.usec < 1_000_000 ==> ({
            let t = final(itimers)@[which as int];
            let zero = new.it_value.sec == 0 && new.it_value.usec == 0;
            &&& r matches Ok((prev, add))
            &&& prev.it_interval.sec == old(itimers)@[which as int].interval@ / 1_000_000_000
            &&& prev.it_value.sec == itimer_value(old(itimers)@[which as int], now).1
                / 1_000_000_000
            &&& prev.it_value.usec == (itimer_value(old(itimers)@[which as int], now).1
                % 1_000_000_000) / 1_000
            &&& t.interval@ == new.it_interval.sec * 1_000_000_000 + ((new.it_interval.usec
                * 1_000) as u32)
            &&& t.id == id
            &&& (zero ==> t.next_expire@ == 0 && add is None)
            &&& (!zero ==> t.next_expire@ == now@ + new.it_value.sec * 1_000_000_000 + ((
            new.it_value.usec * 1_000) as u32) && add == Some(t.next_expire))
            &&& forall|i: int|
                0 <= i < 3 && i != which ==> #[trigger] final(itimers)@[i] == old(itimers)@[i]
        }),
{
    if which > 2 {
        return Err(SysError::EINVAL);
    }
    if !new.is_valid() {
        return Err(SysError::EINVAL);
    }
    let cur = itimers[which];
    let prev = itimer_val(&cur, &now);
    let interval = new.it_interval.into_duration();
    let zero = new.it_value.sec == 0 && new.it_value.usec == 0;
    if zero {
        itimers[which] = ITimer { interval, next_expire: Duration::zero(), id };
        Ok((prev, None))
    } else {
        let value = new.it_value.into_duration();
        let next = now.add(&value);
        itimers[which] = ITimer { interval, next_expire: next, id };
        Ok((prev, Some(next)))
    }
}

/// `getrusage` targets: the calling process.
pub const RUSAGE_SELF: i32 = 0;
/// `getrusage` targets: its waited-for children.
pub const RUSAGE_CHILDREN: i32 = -1;
/// `getrusage` targets: the calling thread.
pub const RUSAGE_THREAD: i32 = 1;

/// Resource usage (`struct rusage`): only the CPU times are filled in.
#[derive(Clone, Copy, Debug)]
pub struct Rusage {
    /// User CPU time used.
    pub ru_utime: TimeVal,
    /// System CPU time used.
    pub ru_stime: TimeVal,
    /// The remaining fields (`ru_maxrss` to `ru_nivcsw`), all zero.
    pub rest: [usize; 14],
}

/// syscall getrusage: the usage record for `who`; unknown targets are `EINVAL`.
pub fn sys_getrusage(who: i32, recorder: &TimeRecorder) -> (r: Result<Rusage, SysError>)
    requires
        recorder.spec_user_time()@ / 1_000_000_000 <= usize::MAX,
        recorder.spec_kernel_time()@ / 1_000_000_000 <= usize::MAX,
        recorder.spec_child_user_time()@ / 1_000_000_000 <= usize::MAX,
        recorder.spec_child_kernel_time()@ / 1_000_000_000 <= usize::MAX,
    ensures
        (who == RUSAGE_SELF || who == RUSAGE_THREAD) ==> (r matches Ok(u) && u.ru_utime.sec
            == recorder.spec_user_time()@ / 1_000_000_000 && u.ru_utime.usec == (
        recorder.spec_user_time()@ % 1_000_000_000) / 1_000 && u.ru_stime.sec
            == recorder.spec_kernel_time()@ / 1_000_000_000 && u.ru_stime.usec == (
        recorder.spec_kernel_time()@ % 1_000_000_000) / 1_000 && (forall|i: int| 0 <= i < 14 ==> u.rest[i] == 0)),
        who == RUSAGE_CHILDREN ==> (r matches Ok(u) && u.ru_utime.sec
            == recorder.spec_child_user_time()@ / 1_000_000_000 && u.ru_utime.usec == (
        recorder.spec_child_user_time()@ % 1_000_000_000) / 1_000 && u.ru_stime.sec
            == recorder.spec_child_kernel_time()@ / 1_000_000_000 && u.ru_stime.usec == (
        recorder.spec_child_kernel_time()@ % 1_000_000_000) / 1_000 && (forall|i: int| 0 <= i < 14 ==> u.rest[i] == 0)),
        !(who == RUSAGE_SELF || who == RUSAGE_THREAD || who == RUSAGE_CHILDREN) ==> r == Err::<
            Rusage,
            SysError,
        >(SysError::EINVAL),
{
    if who == RUSAGE_SELF || who == RUSAGE_THREAD {
        let (u, s) = recorder.time_pair();
        Ok(Rusage { ru_utime: TimeVal::from_duration(u), ru_stime: TimeVal::from_duration(s), rest: [0usize; 14] })
    } else if who == RUSAGE_CHILDREN {
        let (u, s) = recorder.child_time_pair();
        Ok(Rusage { ru_utime: TimeVal::from_duration(u), ru_stime: TimeVal::from_duration(s), rest: [0usize; 14] })
    } else {
        Err(SysError::EINVAL)
    }
}

/// System statistics (`struct sysinfo`); only the uptime is filled in.
#[derive(Clone, Copy, Debug)]
pub struct Sysinfo {
    /// Seconds since boot.
    pub uptime: i64,
    /// 1, 5, and 15 minute load averages.
    pub loads: [u64; 3],
    /// Total usable main memory size.
    pub totalram: u64,
    /// Available memory size.
    pub freeram: u64,
    /// Amount of shared memory.
    pub sharedram: u64,
    /// Memory used by buffers.
    pub bufferram: u64,
    /// Total swap space size.
    pub totalswap: u64,
    /// Swap space still available.
    pub freeswap: u64,
    /// Number of current processes.
    pub procs: u16,
    /// Total high memory size.
    pub totalhigh: u64,
    /// Available high memory size.
    pub freehigh: u64,
    /// Memory unit size in bytes.
    pub mem_uint: u32,
}

/// syscall sysinfo: the record to copy out; the uptime is the timer reading
/// `now` (as a signed number), every other field zero.
pub fn sys_sysinfo(now: usize) -> (r: Sysinfo)
    ensures
        r.uptime == now as i64,
        forall|i: int| 0 <= i < 3 ==> r.loads[i] == 0,
        r.totalram == 0 && r.freeram == 0 && r.sharedram == 0 && r.bufferram == 0,
        r.totalswap == 0 && r.freeswap == 0 && r.procs == 0,
        r.totalhigh == 0 && r.freehigh == 0 && r.mem_uint == 0,
{
    Sysinfo {
        uptime: now as i64,
        loads: [0u64; 3],
        totalram: 0,
        freeram: 0,
        sharedram: 0,
        bufferram: 0,
        totalswap: 0,
        freeswap: 0,
        procs: 0,
        totalhigh: 0,
        freehigh: 0,
        mem_uint: 0,
    }
}


/// Kernel clock adjustment (`struct timex`).
#[derive(Clone, Copy, Debug)]
pub struct KernTimex {
    /// Mode selector.
    pub kt_modes: u32,
    /// Padding.
    pub _pad0: u32,
    /// Time offset.
    pub kt_offset: i64,
    /// Frequency offset.
    pub kt_freq: i64,
    /// Maximum error.
    pub kt_maxerror: i64,
    /// Estimated error.
    pub kt_esterror: i64,
    /// Clock command/status.
    pub kt_status: i32,
    /// Padding.
    pub _pad1: u32,
    /// PLL time constant.
    pub kt_constant: i64,
    /// Clock precision.
    pub kt_precision: i64,
    /// Clock frequency tolerance.
    pub kt_tolerance: i64,
    /// Current time (or the offset to add, with `ADJ_SETOFFSET`).
    pub kt_time: TimeVal,
    /// Microseconds between clock ticks.
    pub kt_tick: i64,
    /// PPS frequency.
    pub kt_ppsfreq: i64,
    /// PPS jitter.
    pub kt_jitter: i64,
    /// Interval duration.
    pub kt_shift: i32,
    /// Padding.
    pub _pad2: u32,
    /// PPS stability.
    pub kt_stabil: i64,
    /// PPS jitter limit exceeded.
    pub kt_jitcnt: i64,
    /// PPS calibration intervals.
    pub kt_calcnt: i64,
    /// PPS calibration errors.
    pub kt_errcnt: i64,
    /// PPS stability limit exceeded.
    pub kt_stbcnt: i64,
    /// TAI offset.
    pub kt_tai: i32,
    /// Padding.
    pub _pad_last: [u32; 11],
}

impl KernTimex {
    /// The record the kernel keeps before any adjustment: all zero but a
    /// tick of 10000 microseconds.
    pub fn initial() -> (r: Self)
        ensures
            r.kt_modes == 0 && r.kt_tick == 10000,
    {
        KernTimex {
            kt_modes: 0,
            _pad0: 0,
            kt_offset: 0,
            kt_freq: 0,
            kt_maxerror: 0,
            kt_esterror: 0,
            kt_status: 0,
            _pad1: 0,
            kt_constant: 0,
            kt_precision: 0,
            kt_tolerance: 0,
            kt_time: TimeVal { sec: 0, usec: 0 },
            kt_tick: 10000,
            kt_ppsfreq: 0,
            kt_jitter: 0,
            kt_shift: 0,
            _pad2: 0,
            kt_stabil: 0,
            kt_jitcnt: 0,
            kt_calcnt: 0,
            kt_errcnt: 0,
            kt_stbcnt: 0,
            kt_tai: 0,
            _pad_last: [0u32; 11],
        }
    }
}

/// `adjtimex` mode: add the time in `kt_time` to the clock.
pub const ADJ_SETOFFSET: u32 = 0x0100;
/// `adjtimex` mode: the offset's fraction is in nanoseconds.
pub const ADJ_NANO: u32 = 0x2000;
/// `adjtimex` mode: set the tick.
pub const ADJ_TICK: u32 = 0x4000;
/// Every mode bit `adjtimex` knows.
pub const ADJ_ALL: u32 = 0x0001 | 0x0002 | 0x0004 | 0x0008 | 0x0010 | 0x0020 | 0x0080 | 0x0100
    | 0x1000 | 0x2000 | 0x4000 | 0x8001 | 0xa001;

/// The offset `ADJ_SETOFFSET` adds: the seconds and the fraction of
/// `kt_time`, the fraction taken as nanoseconds with `ADJ_NANO` (scaled by
/// a thousand) and as microseconds otherwise (taken as it is).
pub open spec fn offset_of(t: KernTimex) -> TimeSpec {
    TimeSpec {
        tv_sec: t.kt_time.sec,
        tv_nsec: if t.kt_modes & ADJ_NANO == ADJ_NANO {
            (t.kt_time.usec * 1000) as usize
        } else {
            t.kt_time.usec
        },
    }
}

/// What adding offset `delta` to the clock needs so as not to overflow: the
/// wall time is not ahead of `now`, and the sums fit.
pub open spec fn offset_fits(delta: TimeSpec, wall: TimeSpec, now: Duration) -> bool {
    &&& wall.tv_sec * 1_000_000_000 + (wall.tv_nsec as u32) <= now@
    &&& wall.tv_sec + ((wall.tv_nsec as u32) / 1_000_000_000) <= u64::MAX
    &&& delta.tv_nsec < 1_000_000_000 ==> wall.tv_sec + delta.tv_sec <= usize::MAX
        && wall.tv_nsec + delta.tv_nsec <= usize::MAX
}

/// The outcome of adding `delta` to the clock whose wall time is `wall` at
/// `now`: the offset must be a valid time, no larger than the time the
/// wall clock lags behind, and the new wall time must be valid.
pub open spec fn add_offset_result(delta: TimeSpec, wall: TimeSpec, now: Duration) -> Result<isize, SysError> {
    let lag = now@ - (wall.tv_sec * 1_000_000_000 + (wall.tv_nsec as u32));
    if !(delta.tv_nsec < 1_000_000_000) {
        Err(SysError::EINVAL)
    } else if delta.tv_sec * 1_000_000_000 + (delta.tv_nsec as u32) > lag || !(wall.tv_nsec
        + delta.tv_nsec < 1_000_000_000) {
        Err(SysError::EINVAL)
    } else {
        Ok(0)
    }
}

/// What `adjtimex` needs of a request so as not to overflow.
pub open spec fn adjtimex_fits(t: KernTimex, wall: TimeSpec, now: Duration) -> bool {
    t.kt_modes & ADJ_SETOFFSET == ADJ_SETOFFSET ==> {
        &&& (t.kt_modes & ADJ_NANO == ADJ_NANO ==> t.kt_time.usec * 1000 <= usize::MAX)
        &&& offset_fits(offset_of(t), wall, now)
    }
}

/// The outcome of the adjustments a request asks for: unknown mode bits
/// (and mode 0x80000) are `EINVAL`; an offset is added as
/// `add_offset_result` says; a tick must lie between 9000 and 11000.
pub open spec fn do_adjtimex_result(t: KernTimex, wall: TimeSpec, now: Duration) -> Result<isize, SysError> {
    if t.kt_modes == 0x80000 || t.kt_modes & !ADJ_ALL != 0 {
        Err(SysError::EINVAL)
    } else if t.kt_modes & ADJ_SETOFFSET == ADJ_SETOFFSET && add_offset_result(offset_of(t), wall, now) is Err {
        add_offset_result(offset_of(t), wall, now)
    } else if t.kt_modes & ADJ_TICK == ADJ_TICK && (t.kt_tick < 9000 || t.kt_tick > 11000) {
        Err(SysError::EINVAL)
    } else {
        Ok(0)
    }
}

fn add_offset(delta: TimeSpec, wall: TimeSpec, now: Duration) -> (r: SysResult)
    requires
        offset_fits(delta, wall, now),
    ensures
        r == add_offset_result(delta, wall, now),
{
    if !delta.is_valid() {
        return Err(SysError::EINVAL);
    }
    let new_time = TimeSpec { tv_sec: wall.tv_sec + delta.tv_sec, tv_nsec: wall.tv_nsec + delta.tv_nsec };
    let delta_dur = delta.into_duration();
    let wall_dur = wall.into_duration();
    let lag = now.sub(&wall_dur);
    if !delta_dur.le(&lag) || !new_time.is_valid() {
        return Err(SysError::EINVAL);
    }
    Ok(0)
}

fn do_adjtimex(t: &KernTimex, wall: TimeSpec, now: Duration) -> (r: SysResult)
    requires
        adjtimex_fits(*t, wall, now),
    ensures
        r == do_adjtimex_result(*t, wall, now),
{
    if t.kt_modes == 0x80000 {
        return Err(SysError::EINVAL);
    }
    if t.kt_modes & !ADJ_ALL != 0 {
        return Err(SysError::EINVAL);
    }
    let mut ret: isize = 0;
    if t.kt_modes & ADJ_SETOFFSET == ADJ_SETOFFSET {
        let mut delta = TimeSpec { tv_sec: t.kt_time.sec, tv_nsec: t.kt_time.usec };
        if t.kt_modes & ADJ_NANO == ADJ_NANO {
            delta.tv_nsec = delta.tv_nsec * 1000;
        }
        ret = match add_offset(delta, wall, now) {
            Ok(v) => v,
            Err(e) => return Err(e),
        };
    }
    if t.kt_modes & ADJ_TICK == ADJ_TICK {
        if t.kt_tick < 9000 || t.kt_tick > 11000 {
            return Err(SysError::EINVAL);
        }
    }
    Ok(ret)
}

/// syscall adjtimex, once the user's record `timex` has been read (it is
/// written back in place) with the kernel's record `stored`, the wall time
/// `wall` and the time `now`: mode 0x8000 is `EINVAL`; mode 0 reads the
/// kernel's record; otherwise the adjustments are made, and on success the
/// user's record, with a tick of 10000, becomes the kernel's record.
pub fn sys_adjtimex(timex: &mut KernTimex, stored: &mut KernTimex, wall: TimeSpec, now: Duration) -> (r:
    SysResult)
    requires
        old(timex).kt_modes != 0x8000 && old(timex).kt_modes != 0 ==> adjtimex_fits(*old(timex), wall, now),
    ensures
        old(timex).kt_modes == 0x8000 ==> r == Err::<isize, SysError>(SysError::EINVAL)
            && final(timex).kt_modes == old(timex).kt_modes && final(stored).kt_tick == old(stored).kt_tick,
        old(timex).kt_modes == 0 ==> r == Ok::<isize, SysError>(0) && final(timex).kt_modes
            == old(stored).kt_modes && final(timex).kt_tick == old(stored).kt_tick
            && final(timex).kt_time == old(stored).kt_time,
        old(timex).kt_modes != 0x8000 && old(timex).kt_modes != 0 ==> r == do_adjtimex_result(
            *old(timex),
            wall,
            now,
        ) && (r is Ok ==> final(timex).kt_tick == 10000 && final(stored).kt_tick == 10000
            && final(stored).kt_modes == old(timex).kt_modes && final(stored).kt_time
            == old(timex).kt_time) && (r is Err ==> final(timex).kt_tick == old(timex).kt_tick
            && final(stored).kt_tick == old(stored).kt_tick),
{
    let modes = timex.kt_modes;
    if modes == 0x8000 {
        return Err(SysError::EINVAL);
    }
    if modes == 0 {
        *timex = *stored;
        return Ok(0);
    }
    let status = match do_adjtimex(timex, wall, now) {
        Ok(s) => s,
        Err(e) => return Err(e),
    };
    timex.kt_tick = 10000;
    *stored = *timex;
    Ok(status)
}

/// syscall clock_adjtime: the wall clock is adjusted as `adjtimex` does;
/// other clocks are left alone (0).
pub fn sys_clock_adjtime(
    clock_id: usize,
    timex: &mut KernTimex,
    stored: &mut KernTimex,
    wall: TimeSpec,
    now: Duration,
) -> (r: SysResult)
    requires
        clock_id == CLOCK_REALTIME && old(timex).kt_modes != 0x8000 && old(timex).kt_modes != 0
            ==> adjtimex_fits(*old(timex), wall, now),
    ensures
        clock_id != CLOCK_REALTIME ==> r == Ok::<isize, SysError>(0) && final(timex).kt_modes
            == old(timex).kt_modes && final(timex).kt_tick == old(timex).kt_tick
            && final(stored).kt_tick == old(stored).kt_tick,
        clock_id == CLOCK_REALTIME && old(timex).kt_modes == 0x8000 ==> r == Err::<isize, SysError>(
            SysError::EINVAL,
        ),
        clock_id == CLOCK_REALTIME && old(timex).kt_modes == 0 ==> r == Ok::<isize, SysError>(0)
            && final(timex).kt_tick == old(stored).kt_tick,
        clock_id == CLOCK_REALTIME && old(timex).kt_modes != 0x8000 && old(timex).kt_modes != 0
            ==> r == do_adjtimex_result(*old(timex), wall, now),
{
    if clock_id == CLOCK_REALTIME {
        sys_adjtimex(timex, stored, wall, now)
    } else {
        Ok(0)
    }
}


/// The time left until the absolute time `ts` (a deadline on the wall
/// clock) at time `now`: zero once it has passed.
pub fn abs_timespec_to_rel_timeout(ts: TimeSpec, now: Duration) -> (r: Option<Duration>)
    requires
        ts.tv_sec + ((ts.tv_nsec as u32) / 1_000_000_000) <= u64::MAX,
    ensures
        r matches Some(d) && d@ == (if ts.tv_sec * 1_000_000_000 + (ts.tv_nsec as u32) <= now@ {
            0
        } else {
            ts.tv_sec * 1_000_000_000 + (ts.tv_nsec as u32) - now@
        }),
{
    let abs = ts.into_duration();
    if abs.le(&now) {
        Some(Duration::zero())
    } else {
        Some(abs.sub(&now))
    }
}

/// syscall prlimit64, once the target task is known, for its descriptor
/// table `table`: an unknown resource is `EINVAL`. When `want_old`, the old
/// limit is returned: the stack size `stack_size` for the stack, the
/// table's limit for descriptors, zero for the rest. A new limit for
/// descriptors becomes the table's (others are ignored).
pub fn sys_prlimit64(
    table: &mut crate::fd_table::FdTable,
    resource: i32,
    want_old: bool,
    new_limit: Option<crate::resource::RLimit>,
    stack_size: usize,
) -> (r: Result<Option<crate::resource::RLimit>, SysError>)
    requires
        resource == 7 && new_limit is Some ==> new_limit->Some_0.rlim_max > old(table).slots().len(),
    ensures
        !(0 <= resource < 16) ==> r == Err::<Option<crate::resource::RLimit>, SysError>(SysError::EINVAL)
            && final(table).rlimit == old(table).rlimit,
        0 <= resource < 16 ==> r is Ok,
        0 <= resource < 16 && !want_old ==> r == Ok::<Option<crate::resource::RLimit>, SysError>(None),
        0 <= resource < 16 && want_old ==> r == Ok::<Option<crate::resource::RLimit>, SysError>(Some(
            if resource == 3 {
                crate::resource::RLimit { rlim_cur: stack_size, rlim_max: stack_size }
            } else if resource == 7 {
                old(table).rlimit
            } else {
                crate::resource::RLimit { rlim_cur: 0, rlim_max: 0 }
            },
        )),
        final(table).slots() == old(table).slots(),
        0 <= resource < 16 ==> final(table).rlimit == (if resource == 7 && new_limit is Some {
            new_limit->Some_0
        } else {
            old(table).rlimit
        }),
{
    let res = match crate::resource::Resource::from_repr(resource) {
        Some(r) => r,
        None => return Err(SysError::EINVAL),
    };
    let old_limit = if want_old {
        Some(
            match res {
                crate::resource::Resource::STACK => crate::resource::RLimit { rlim_cur: stack_size, rlim_max: stack_size },
                crate::resource::Resource::NOFILE => table.rlimit(),
                _ => crate::resource::RLimit { rlim_cur: 0, rlim_max: 0 },
            },
        )
    } else {
        None
    };
    if let Some(limit) = new_limit {
        if let crate::resource::Resource::NOFILE = res {
            table.set_rlimit(limit);
        }
    }
    Ok(old_limit)
}

/// How a sleep goes on.
#[derive(Clone, Copy, Debug, PartialEq, Eq, Structural)]
pub enum SleepPlan {
    /// Nothing to wait for: the call returns zero.
    Done,
    /// Sleep this long.
    Sleep(Duration),
}

/// The duration of a valid time value.
pub open spec fn timespec_nanos(t: TimeSpec) -> int {
    t.tv_sec * 1_000_000_000 + t.tv_nsec
}

/// syscall nanosleep, once the request is read (`None`: a null pointer,
/// nothing to do; `Some(None)`: unreadable, `EFAULT`): an invalid time is
/// `EINVAL`, otherwise the task sleeps that long.
pub fn sys_nanosleep(req: Option<Option<TimeSpec>>) -> (r: Result<SleepPlan, SysError>)
    ensures
        req is None ==> r == Ok::<SleepPlan, SysError>(SleepPlan::Done),
        req == Some(None::<TimeSpec>) ==> r == Err::<SleepPlan, SysError>(SysError::EFAULT),
        req matches Some(Some(t)) ==> (if t.tv_nsec >= 1_000_000_000 {
            r == Err::<SleepPlan, SysError>(SysError::EINVAL)
        } else {
            r matches Ok(SleepPlan::Sleep(d)) && d@ == timespec_nanos(t)
        }),
{
    match req {
        None => Ok(SleepPlan::Done),
        Some(None) => Err(SysError::EFAULT),
        Some(Some(t)) => {
            if !t.is_valid() {
                return Err(SysError::EINVAL);
            }
            Ok(SleepPlan::Sleep(t.into_duration()))
        },
    }
}

/// syscall clock_nanosleep, once the request is read (`None`: unreadable,
/// `EFAULT`), at time `now`: only the real-time and monotonic clocks are
/// supported (`EOPNOTSUPP`); an invalid time is `EINVAL`. With flag 1 the
/// time is a deadline: one already passed returns at once, otherwise the
/// task sleeps until it; without, the task sleeps that long.
pub fn sys_clock_nanosleep(clock_id: usize, flags: usize, req: Option<TimeSpec>, now: Duration) -> (r: Result<
    SleepPlan,
    SysError,
>)
    ensures
        clock_id != CLOCK_REALTIME && clock_id != CLOCK_MONOTONIC ==> r == Err::<SleepPlan, SysError>(
            SysError::EOPNOTSUPP,
        ),
        (clock_id == CLOCK_REALTIME || clock_id == CLOCK_MONOTONIC) ==> (match req {
            None => r == Err::<SleepPlan, SysError>(SysError::EFAULT),
            Some(t) => if t.tv_nsec >= 1_000_000_000 {
                r == Err::<SleepPlan, SysError>(SysError::EINVAL)
            } else if flags == 1 {
                if timespec_nanos(t) <= now@ {
                    r == Ok::<SleepPlan, SysError>(SleepPlan::Done)
                } else {
                    r matches Ok(SleepPlan::Sleep(d)) && d@ == timespec_nanos(t) - now@
                }
            } else {
                r matches Ok(SleepPlan::Sleep(d)) && d@ == timespec_nanos(t)
            },
        }),
{
    if clock_id != CLOCK_REALTIME && clock_id != CLOCK_MONOTONIC {
        return Err(SysError::EOPNOTSUPP);
    }
    let t = match req {
        None => {
            return Err(SysError::EFAULT);
        },
        Some(t) => t,
    };
    if !t.is_valid() {
        return Err(SysError::EINVAL);
    }
    let req_time = t.into_duration();
    if flags == 1 {
        if req_time.le(&now) {
            return Ok(SleepPlan::Done);
        }
        Ok(SleepPlan::Sleep(req_time.sub(&now)))
    } else {
        Ok(SleepPlan::Sleep(req_time))
    }
}

/// The end of `nanosleep` and `clock_nanosleep` with `remain` left to
/// sleep: none left returns zero; otherwise the time left is reported back
/// and the call fails with `EINTR`.
pub fn sleep_finish(remain: Duration) -> (r: (SysResult, Option<TimeSpec>))
    requires
        remain@ / 1_000_000_000 <= usize::MAX,
    ensures
        remain@ == 0 ==> r == (Ok::<isize, SysError>(0), None::<TimeSpec>),
        remain@ != 0 ==> r.0 == Err::<isize, SysError>(SysError::EINTR) && r.1 == Some(
            TimeSpec { tv_sec: (remain@ / 1_000_000_000) as usize, tv_nsec: (remain@ % 1_000_000_000) as usize },
        ),
{
    if remain.is_zero() {
        (Ok(0), None)
    } else {
        (Err(SysError::EINTR), Some(TimeSpec::from_duration(remain)))
    }
}

/// The time left of a sleep of `limit` begun at `start`, woken at `now`
/// (suspend_timeout): zero once the deadline has passed.
pub fn suspend_timeout(start: Duration, limit: Duration, now: Duration) -> (r: Duration)
    requires
        start@ + limit@ <= crate::duration::max_nanos(),
    ensures
        r@ == (if start@ + limit@ > now@ {
            start@ + limit@ - now@
        } else {
            0
        }),
{
    let expire = start.add(&limit);
    if now.le(&expire) && !expire.le(&now) {
        expire.sub(&now)
    } else {
        Duration::zero()
    }
}

} // verus!
