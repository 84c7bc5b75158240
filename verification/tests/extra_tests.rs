use chronix::duration::Duration;
use chronix::errno::SysError;
use chronix::fd_table::FdTable;
use chronix::ipc::{sys_shmctl, ShmctlAction, IPC_RMID, IPC_SET, IPC_STAT};
use chronix::path::{at_helper, at_helper1, AtBase, AtLookup, AT_FDCWD};
use chronix::sys_time::{sys_adjtimex, sys_clock_adjtime, KernTimex, ADJ_NANO, ADJ_SETOFFSET, ADJ_TICK};
use chronix::time::{TimeSpec, TimeVal};

#[test]
fn shared_memory_control() {
    assert_eq!(sys_shmctl(3, IPC_STAT, true), Ok(ShmctlAction::Stat));
    assert_eq!(sys_shmctl(3, IPC_RMID, true), Ok(ShmctlAction::Remove));
    assert_eq!(sys_shmctl(3, IPC_RMID, false), Err(SysError::ENOENT));
    assert_eq!(sys_shmctl(3, IPC_SET, true), Err(SysError::EINVAL));
    assert_eq!(sys_shmctl(3, 9, true), Err(SysError::EINVAL));
}

#[test]
fn at_lookups() {
    let t = FdTable::new(7);
    match at_helper1(&t, AT_FDCWD, "/etc/passwd", 0) {
        Ok((AtLookup::Global(p), true)) => assert_eq!(p, "/etc/passwd"),
        other => panic!("unexpected {:?}", other),
    }
    match at_helper1(&t, AT_FDCWD, "../../a/b", 0x100) {
        Ok((AtLookup::Relative(AtBase::Cwd, rel), false)) => assert_eq!(rel, "a/b"),
        other => panic!("unexpected {:?}", other),
    }
    match at_helper1(&t, 1, "x", 0) {
        Ok((AtLookup::Relative(AtBase::File(7), rel), true)) => assert_eq!(rel, "x"),
        other => panic!("unexpected {:?}", other),
    }
    assert!(matches!(at_helper1(&t, 9, "x", 0), Err(SysError::EBADF)));
    assert!(matches!(at_helper1(&t, 1, "", 0), Err(SysError::ENOENT)));
    assert!(matches!(at_helper1(&t, 1, "", 0x1000), Ok((AtLookup::Base(AtBase::File(7)), true))));
    assert!(matches!(at_helper(&t, 1, None, 0), Err(SysError::EFAULT)));
    assert!(matches!(at_helper(&t, 1, None, 0x1000), Err(SysError::EINVAL)));
    assert!(matches!(at_helper(&t, 1, Some(Ok(b"/a".to_vec())), 0), Ok((AtLookup::Global(_), true))));
}

fn timex(modes: u32) -> KernTimex {
    let mut t = KernTimex::initial();
    t.kt_modes = modes;
    t
}

#[test]
fn clock_adjustments() {
    let wall = TimeSpec { tv_sec: 10, tv_nsec: 0 };
    let now = Duration::new(20, 0);
    let mut stored = KernTimex::initial();
    stored.kt_offset = 5;

    let mut t = timex(0x8000);
    assert_eq!(sys_adjtimex(&mut t, &mut stored, wall, now), Err(SysError::EINVAL));

    let mut t = timex(0);
    assert_eq!(sys_adjtimex(&mut t, &mut stored, wall, now), Ok(0));
    assert_eq!(t.kt_offset, 5);

    let mut t = timex(0x40000);
    assert_eq!(sys_adjtimex(&mut t, &mut stored, wall, now), Err(SysError::EINVAL));

    let mut t = timex(ADJ_TICK);
    t.kt_tick = 8000;
    assert_eq!(sys_adjtimex(&mut t, &mut stored, wall, now), Err(SysError::EINVAL));
    t.kt_tick = 9500;
    t.kt_offset = 77;
    assert_eq!(sys_adjtimex(&mut t, &mut stored, wall, now), Ok(0));
    assert_eq!(t.kt_tick, 10000);
    assert_eq!(stored.kt_offset, 77);

    let mut t = timex(ADJ_SETOFFSET);
    t.kt_time = TimeVal { sec: 5, usec: 0 };
    assert_eq!(sys_adjtimex(&mut t, &mut stored, wall, now), Ok(0));
    t.kt_time = TimeVal { sec: 11, usec: 0 };
    assert_eq!(sys_adjtimex(&mut t, &mut stored, wall, now), Err(SysError::EINVAL));
    let mut t = timex(ADJ_SETOFFSET | ADJ_NANO);
    t.kt_time = TimeVal { sec: 1, usec: 2_000_000 };
    assert_eq!(sys_adjtimex(&mut t, &mut stored, wall, now), Err(SysError::EINVAL));

    let mut t = timex(0x8000);
    assert_eq!(sys_clock_adjtime(1, &mut t, &mut stored, wall, now), Ok(0));
    assert_eq!(sys_clock_adjtime(0, &mut t, &mut stored, wall, now), Err(SysError::EINVAL));
}
