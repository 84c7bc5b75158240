use chronix::duration::Duration;
use chronix::timer::{timed_task_poll, TimedPoll, TimedTaskOutput};
use chronix::errno::SysError;
use chronix::fd_table::FdTable;
use chronix::futex::{add_awaiter, futex_wake, FutexHashKey, FutexManager};
use chronix::manager::TaskManager;
use chronix::signal::sys_rt_sigpending;
use chronix::sys_fs::{
    sys_faccessat2, sys_fchownat, sys_fstatat, sys_linkat, sys_pread, sys_readlinkat, sys_writev, LinkLookup,
    AT_EMPTY_PATH, S_IFLNK,
};

#[test]
fn writev_and_pread_descriptors() {
    let t = FdTable::new(3);
    assert_eq!(sys_writev(&t, 1), Ok(3));
    assert_eq!(sys_writev(&t, 9), Err(SysError::EBADF));
    assert_eq!(sys_pread(&t, 0, 4096, 17), Ok((3, 4096, 17)));
    assert_eq!(sys_pread(&t, 5, 0, 17), Err(SysError::EBADF));
}

#[test]
fn fchownat_decisions() {
    // set-user-id cleared, set-group-id kept when the group may not execute
    assert_eq!(sys_fchownat(0, 7, -1, Ok(Some(0o106745))), Ok((Some(7), None, 0o102745)));
    // both cleared when the group may execute
    assert_eq!(sys_fchownat(AT_EMPTY_PATH, -1, 8, Ok(Some(0o106775))), Ok((None, Some(8), 0o100775)));
    assert_eq!(sys_fchownat(0x2, 1, 1, Ok(Some(0o100644))), Err(SysError::EINVAL));
    assert_eq!(sys_fchownat(0, 1, 1, Ok(None)), Err(SysError::ENOENT));
    assert_eq!(sys_fchownat(0, 1, 1, Err(SysError::ENOTDIR)), Err(SysError::ENOTDIR));
}

#[test]
fn faccessat2_decisions() {
    assert_eq!(sys_faccessat2(4, 0, true), Ok(0));
    assert_eq!(sys_faccessat2(8, 0, true), Err(SysError::EINVAL));
    assert_eq!(sys_faccessat2(0, 0x4000, true), Err(SysError::EINVAL));
    assert_eq!(sys_faccessat2(0, 0x200, false), Err(SysError::ENOENT));
}

#[test]
fn readlinkat_decisions() {
    let link = LinkLookup::Inode { mode: S_IFLNK, target: Ok(b"/bin/sh".to_vec()) };
    // silently cut to the buffer
    let (bytes, n) = sys_readlinkat(&link, 4, true).unwrap();
    assert_eq!(n, 4);
    assert_eq!(bytes, b"/bin".to_vec());
    // no terminating NUL: only the target is copied
    let (bytes, n) = sys_readlinkat(&link, 9, true).unwrap();
    assert_eq!(n, 7);
    assert_eq!(bytes, b"/bin/sh".to_vec());
    assert_eq!(sys_readlinkat(&link, 0, true).map(|p| p.1), Err(SysError::EINVAL));
    assert_eq!(sys_readlinkat(&link, 4, false).map(|p| p.1), Err(SysError::EINVAL));
    assert_eq!(sys_readlinkat(&LinkLookup::Negative, 4, true).map(|p| p.1), Err(SysError::EBADF));
    assert_eq!(sys_readlinkat(&LinkLookup::NoInode, 4, true).map(|p| p.1), Err(SysError::ENOENT));
    let file = LinkLookup::Inode { mode: 0o100644, target: Ok(Vec::new()) };
    assert_eq!(sys_readlinkat(&file, 4, true).map(|p| p.1), Err(SysError::EINVAL));
    let broken = LinkLookup::Inode { mode: S_IFLNK, target: Err(SysError::EIO) };
    assert_eq!(sys_readlinkat(&broken, 4, true).map(|p| p.1), Err(SysError::EIO));
}

#[test]
fn link_and_stat_decisions() {
    assert_eq!(sys_linkat(true), Ok(0));
    assert_eq!(sys_linkat(false), Err(SysError::ENOENT));
    assert_eq!(sys_fstatat(true, true), Ok(0));
    assert_eq!(sys_fstatat(false, true), Err(SysError::ENOENT));
    assert_eq!(sys_fstatat(true, false), Err(SysError::EFAULT));
}

#[test]
fn tasks_in_tid_order() {
    let mut m = TaskManager::new();
    m.add_task(9, 90);
    m.add_task(2, 20);
    m.add_task(5, 50);
    m.remove_task(2);
    assert_eq!(m.tasks_group(), vec![50, 90]);
    assert_eq!(TaskManager::new().tasks_group(), Vec::<usize>::new());
}

#[test]
fn waiter_woken_on_exit() {
    let mut fm = FutexManager::new();
    let private = FutexHashKey::Private { mm: 1, vaddr: 0x40 };
    let shared = FutexHashKey::Shared { paddr: 0x9000 };
    assert_eq!(add_awaiter(&mut fm, &private, 11, u32::MAX, 1 << 8), !(1u64 << 8));
    add_awaiter(&mut fm, &private, 12, u32::MAX, 0);
    add_awaiter(&mut fm, &shared, 13, u32::MAX, 0);
    let woken = futex_wake(&mut fm, 0x40, false, 1, None);
    assert_eq!(woken.iter().map(|w| w.tid).collect::<Vec<_>>(), vec![11]);
    assert!(futex_wake(&mut fm, 0x40, true, 1, None).is_empty());
    let woken = futex_wake(&mut fm, 0x1234, true, 1, Some(0x9000));
    assert_eq!(woken.iter().map(|w| w.tid).collect::<Vec<_>>(), vec![13]);
    assert!(futex_wake(&mut fm, 0x80, false, 1, None).is_empty());
    let woken = futex_wake(&mut fm, 0x40, false, 1, None);
    assert_eq!(woken.iter().map(|w| w.tid).collect::<Vec<_>>(), vec![12]);
}

#[test]
fn pending_set_written() {
    assert_eq!(sys_rt_sigpending(0b1010, true), Ok(0b1010));
    assert_eq!(sys_rt_sigpending(0b1010, false), Err(SysError::EFAULT));
}

#[test]
fn timed_task_polls() {
    let deadline = Duration::new(5, 0);
    let early = Duration::new(4, 999_999_999);
    assert!(matches!(timed_task_poll(Some(7u8), deadline, deadline, false), TimedPoll::Ready(TimedTaskOutput::OK(7))));
    assert!(matches!(timed_task_poll(None::<u8>, deadline, deadline, true), TimedPoll::Ready(TimedTaskOutput::TimedOut)));
    assert!(matches!(timed_task_poll(None::<u8>, early, deadline, false), TimedPoll::Pending { register: true }));
    assert!(matches!(timed_task_poll(None::<u8>, early, deadline, true), TimedPoll::Pending { register: false }));
}
