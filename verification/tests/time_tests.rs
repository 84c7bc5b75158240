use chronix::duration::Duration;
use chronix::errno::SysError;
use chronix::recorder::TimeRecorder;
use chronix::sys_time::{
    sys_clock_getres, sys_clock_gettime, sys_clock_settime, sys_getitimer, sys_gettimeofday,
    sys_getrusage, sys_setitimer, sys_sysinfo, ITimer,
};
use chronix::time::{get_current_time_ms, set_next_trigger, ITimerVal, TimeSpec, TimeVal};
use chronix::timer::{alloc_timer_id, Timer, TimerManager};

fn d(s: u64, n: u32) -> Duration {
    Duration::new(s, n)
}

#[test]
fn durations() {
    let a = Duration::new(1, 2_000_000_000);
    assert_eq!((a.as_secs(), a.subsec_nanos()), (3, 0));
    let b = d(1, 999_999_999).add(&d(0, 1));
    assert_eq!((b.as_secs(), b.subsec_nanos()), (2, 0));
    let c = d(2, 0).sub(&d(0, 1));
    assert_eq!((c.as_secs(), c.subsec_nanos()), (1, 999_999_999));
    assert!(d(1, 0).le(&d(1, 0)));
    assert!(!d(1, 1).le(&d(1, 0)));
    assert_eq!(Duration::from_nanos(1_500_000_000).subsec_micros(), 500_000);
    assert!(Duration::zero().is_zero());
}

#[test]
fn time_values_round_trip() {
    let tv = TimeVal { sec: 7, usec: 250_000 };
    assert_eq!(TimeVal::from_duration(tv.into_duration()), tv);
    let ts = TimeSpec { tv_sec: 7, tv_nsec: 250 };
    assert_eq!(TimeSpec::from_duration(ts.into_duration()), ts);
    assert_eq!(TimeVal::from_usec(1_000_001), TimeVal { sec: 1, usec: 1 });
    assert_eq!(TimeSpec::from_ms(1500), TimeSpec { tv_sec: 1, tv_nsec: 500_000_000 });
    assert_eq!(TimeSpec { tv_sec: 1, tv_nsec: 500_000_000 }.into_ms(), 1500);
    assert!(!TimeSpec { tv_sec: 1, tv_nsec: 1_000_000_000 }.is_valid());
}

#[test]
fn clock_readings() {
    assert_eq!(get_current_time_ms(25_000_000, 10_000_000), 2500);
    assert_eq!(set_next_trigger(1000, 10_000_000), 1000 + 100_000);
}

#[test]
fn timers_come_out_in_expiry_order() {
    let mut m: TimerManager<u32> = TimerManager::new();
    m.add_timer(Timer::new(d(5, 0), 1));
    m.add_timer(Timer::new(d(2, 0), 2));
    m.add_timer(Timer::new(d(5, 0), 3));
    assert_eq!(m.len(), 3);
    assert!(m.check(d(1, 0)).is_none());
    assert_eq!(m.check(d(6, 0)).map(|t| t.data), Some(2));
    assert_eq!(m.check(d(6, 0)).map(|t| t.data), Some(1));
    assert_eq!(m.check(d(6, 0)).map(|t| t.data), Some(3));
    assert!(m.check(d(6, 0)).is_none());
    let mut c: usize = usize::MAX;
    assert_eq!(alloc_timer_id(&mut c), usize::MAX);
    assert_eq!(c, 0);
}

#[test]
fn process_times() {
    let mut r = TimeRecorder::new();
    r.record_switch_in(d(10, 0));
    r.record_trap(d(13, 0));
    r.record_trap_return(d(14, 0));
    assert_eq!(r.kernel_time(), d(1, 0));
    assert_eq!(r.user_time(), d(13, 0));
    r.record_switch_out(d(16, 0));
    let (u, k) = r.time_pair();
    assert_eq!(u.as_secs() + k.as_secs(), r.processor_time().as_secs());
    let ru = sys_getrusage(0, &r).unwrap();
    assert_eq!(ru.ru_utime.sec, u.as_secs() as usize);
    assert!(sys_getrusage(5, &r).is_err());
}

#[test]
fn clocks() {
    assert_eq!(sys_gettimeofday(3_000_005), TimeVal { sec: 3, usec: 5 });
    assert_eq!(sys_clock_getres(0), TimeSpec { tv_sec: 0, tv_nsec: 1 });
    let r = TimeRecorder::new();
    let dev = [d(100, 0), d(0, 0)];
    let now = d(5, 0);
    assert_eq!(sys_clock_gettime(0, now, &dev, d(1, 0), &r).map(|x| x.as_secs()), Ok(105));
    assert_eq!(sys_clock_gettime(1, now, &dev, d(1, 0), &r).map(|x| x.as_secs()), Ok(5));
    assert_eq!(sys_clock_gettime(2, now, &dev, d(1, 0), &r).map(|x| x.as_secs()), Ok(1));
    assert_eq!(sys_clock_gettime(9, now, &dev, d(1, 0), &r).map(|x| x.as_secs()), Err(SysError::EINVAL));
    let tp = TimeSpec { tv_sec: 10, tv_nsec: 0 };
    assert_eq!(sys_clock_settime(0, tp, now, 5000).map(|x| x.as_secs()), Ok(5));
    assert_eq!(sys_clock_settime(1, tp, now, 5000).map(|x| x.as_secs()), Err(SysError::EINVAL));
    assert_eq!(sys_clock_settime(0, tp, now, 20_000).map(|x| x.as_secs()), Err(SysError::EINVAL));
}

#[test]
fn interval_timers() {
    let zero = ITimer { interval: d(0, 0), next_expire: d(0, 0), id: 0 };
    let mut timers = [zero; 3];
    let new = ITimerVal { it_interval: TimeVal { sec: 1, usec: 0 }, it_value: TimeVal { sec: 2, usec: 0 } };
    let (prev, add) = sys_setitimer(0, &mut timers, new, 7, d(10, 0)).unwrap();
    assert_eq!(prev.it_value, TimeVal { sec: 0, usec: 0 });
    assert_eq!(add.map(|x| x.as_secs()), Some(12));
    assert_eq!(timers[0].id, 7);
    let v = sys_getitimer(0, &timers, d(11, 0)).unwrap();
    assert_eq!(v.it_value, TimeVal { sec: 1, usec: 0 });
    assert_eq!(v.it_interval, TimeVal { sec: 1, usec: 0 });
    assert!(sys_getitimer(3, &timers, d(11, 0)).is_err());
    let bad = ITimerVal { it_interval: TimeVal { sec: 0, usec: 1_000_000 }, it_value: TimeVal { sec: 0, usec: 0 } };
    assert!(sys_setitimer(0, &mut timers, bad, 8, d(10, 0)).is_err());
    let info = sys_sysinfo(42);
    assert_eq!(info.uptime, 42);
}

#[test]
fn timer_ids_rise_from_one() {
    let mut counter: usize = 1;
    let ids: Vec<usize> = (0..5).map(|_| alloc_timer_id(&mut counter)).collect();
    assert_eq!(ids, vec![1, 2, 3, 4, 5]);
    assert_eq!(counter, 6);
}
