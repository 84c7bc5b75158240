use chronix::clone::sys_clone3;
use chronix::timer::{posix_timer_callback, real_itimer_callback, timerfd_callback, timerfd_read_ready, PosixFire, TimerFdState, TimerFire};
use chronix::manager::{ProcessGroupManager, TaskManager};
use chronix::signal::{recv_sigs, notify_parent, sig_bit_of, SIGCHLD};
use chronix::signal::{sys_rt_sigprocmask, SIG_BLOCK, SIG_UNBLOCK, SIG_SETMASK};
use chronix::vm::copy_chunks;
use chronix::thread_group::ThreadGroup;
use chronix::duration::Duration;
use chronix::errno::SysError;
use chronix::fd_table::FdTable;
use chronix::futex::{robust_walk_done, robust_walk_next, robust_walk_pending, robust_walk_start, ROBUST_LIST_LIMIT};
use chronix::io::FdSet;
use chronix::ipc::{sys_shmat, sys_shmdt, sys_shmget, ShmAttach, ShmGet, IPC_CREAT, IPC_EXCL, SHM_EXEC, SHM_RDONLY, SHM_RND};
use chronix::net::{sockaddr_writer, sys_recvmsg, sys_sendmsg, AddrFamily};
use chronix::poll::{sys_ppoll, sys_pselect6, PollFd, POLLIN, POLLNVAL, POLLOUT};
use chronix::sys_fs::{
    renameat2_flags, sendfile_offset, sys_faccessat, sys_fchmodat, sys_mkdirat, sys_readv, sys_renameat2, sys_sendfile,
    sys_symlinkat, sys_unlinkat, AT_REMOVEDIR, IoVec, RENAME_EXCHANGE, RENAME_NOREPLACE, RENAME_WHITEOUT,
};
use chronix::sys_task::turn_cpu_mask_id;
use chronix::sys_time::suspend_timeout;
use chronix::time::TimeSpec;
use chronix::vm::{sys_process_vm_readv, sys_process_vm_writev};

#[test]
fn process_vm_calls() {
    let local = vec![IoVec { base: 100, len: 4 }];
    let remote = vec![IoVec { base: 500, len: 2 }, IoVec { base: 600, len: 2 }];
    let (segs, total) = sys_process_vm_readv(0, true, &local, &remote).unwrap();
    assert_eq!(total, 4);
    assert_eq!(segs, vec![(100, 500, 2), (102, 600, 2)]);
    assert_eq!(sys_process_vm_readv(1, true, &local, &remote), Err(SysError::EINVAL));
    assert_eq!(sys_process_vm_writev(0, false, &local, &remote), Err(SysError::ESRCH));
    let (_, total) = sys_process_vm_writev(0, true, &local, &vec![]).unwrap();
    assert_eq!(total, 0);
}

#[test]
fn message_socket_calls() {
    assert_eq!(sockaddr_writer(0, AddrFamily::Inet), None);
    assert_eq!(sockaddr_writer(0x10, AddrFamily::Inet6), Some(28));
    let t = FdTable::new(3);
    assert_eq!(sys_sendmsg(&t, 1), Ok(3));
    assert_eq!(sys_recvmsg(&t, 6), Err(SysError::EBADF));
    assert_eq!(sys_recvmsg(&t, usize::MAX), Err(SysError::EBADF));
    assert_eq!(turn_cpu_mask_id(4), 2);
}

#[test]
fn ppoll_and_pselect_start() {
    let t = FdTable::new(3);
    assert!(matches!(sys_ppoll(&t, 0xffff_ffff, Some(vec![]), None, None, 0), Err(SysError::EINVAL)));
    assert!(matches!(sys_ppoll(&t, 1, None, None, None, 0), Err(SysError::EFAULT)));
    let fds = vec![PollFd { fd: 1, events: POLLIN, revents: 0 }, PollFd { fd: 7, events: POLLOUT, revents: 0 }];
    assert!(matches!(sys_ppoll(&t, 2, Some(fds.clone()), Some(None), None, 0), Err(SysError::EFAULT)));
    let bad = TimeSpec { tv_sec: 0, tv_nsec: 1_000_000_000 };
    assert!(matches!(sys_ppoll(&t, 2, Some(fds.clone()), Some(Some(bad)), None, 0), Err(SysError::EINVAL)));
    assert!(matches!(sys_ppoll(&t, 2, Some(fds.clone()), None, Some(None), 0), Err(SysError::EFAULT)));
    let ts = TimeSpec { tv_sec: 1, tv_nsec: 0 };
    let st = sys_ppoll(&t, 2, Some(fds), Some(Some(ts)), Some(Some(0b100)), 0b1).unwrap();
    assert_eq!(st.polls, vec![(POLLIN, 3)]);
    assert_eq!(st.poll_fds[0].revents, 0);
    assert_eq!(st.poll_fds[1].revents, POLLNVAL);
    assert_eq!(st.mask, 0b101);
    assert_eq!(st.saved, 0b1);
    assert_eq!(st.timeout, Some(ts));

    let mut r = FdSet::new();
    r.mark_fd(0);
    r.mark_fd(2);
    assert!(matches!(sys_pselect6(&t, -1, None, None, None, None, None, 0), Err(SysError::EINVAL)));
    assert!(matches!(sys_pselect6(&t, 3, Some(None), None, None, None, None, 0), Err(SysError::EFAULT)));
    let st = sys_pselect6(&t, 3, Some(Some(r)), None, None, Some(Some(bad)), None, 0b1).unwrap();
    assert_eq!(st.polls, vec![(0, POLLIN, 3), (2, POLLIN, 3)]);
    assert!(st.invalid_timeout);
    assert_eq!(st.mask, 0b1);
    let mut w = FdSet::new();
    w.mark_fd(5);
    assert!(matches!(sys_pselect6(&t, 6, None, Some(Some(w)), None, None, None, 0), Err(SysError::EBADF)));
    let st = sys_pselect6(&t, 3, None, Some(Some(w)), None, None, Some(Some(2)), 0).unwrap();
    assert!(st.polls.is_empty());
    assert_eq!(st.mask, 2);
    assert_eq!(st.saved, 0);
    assert!(!st.invalid_timeout);
    // with no sets, pselect is a sleep or a signal wait and takes any count
    let st = sys_pselect6(&t, 5000, None, None, None, Some(Some(ts)), None, 0b1).unwrap();
    assert!(st.polls.is_empty());
    assert_eq!(st.saved, 0b1);
}

#[test]
fn file_system_decisions() {
    let t = FdTable::new(3);
    assert_eq!(sys_readv(&t, 0, 2), Ok(3));
    assert_eq!(sys_readv(&t, 0, usize::MAX), Err(SysError::EINVAL));
    assert_eq!(sys_readv(&t, 8, 2), Err(SysError::EBADF));
    assert_eq!(sys_unlinkat(false, true, false, 0), Err(SysError::ENOENT));
    assert_eq!(sys_unlinkat(true, false, false, 0), Err(SysError::ENOENT));
    assert_eq!(sys_unlinkat(true, true, false, AT_REMOVEDIR), Err(SysError::ENOTDIR));
    assert_eq!(sys_unlinkat(true, true, true, 0), Ok(0));
    assert_eq!(renameat2_flags(8), Err(SysError::EINVAL));
    assert_eq!(renameat2_flags(RENAME_EXCHANGE), Ok(()));
    assert_eq!(sys_renameat2(RENAME_EXCHANGE | RENAME_WHITEOUT, 1, &vec![], true, true), Err(SysError::EINVAL));
    assert_eq!(sys_renameat2(0, 1, &vec![4, 1, 0], true, true), Err(SysError::EINVAL));
    assert_eq!(sys_renameat2(RENAME_EXCHANGE, 1, &vec![4, 0], false, true), Err(SysError::ENOENT));
    assert_eq!(sys_renameat2(RENAME_NOREPLACE, 1, &vec![4, 0], true, true), Err(SysError::EEXIST));
    assert_eq!(sys_renameat2(RENAME_NOREPLACE, 1, &vec![4, 0], false, true), Ok(false));
    assert_eq!(sys_renameat2(0, 1, &vec![4, 0], false, false), Err(SysError::ENOENT));
    assert_eq!(sys_renameat2(RENAME_EXCHANGE, 1, &vec![4, 0], true, true), Ok(true));
    assert_eq!(sys_renameat2(0, 1, &vec![4, 0], false, true), Ok(false));
    assert_eq!(sys_mkdirat(false, false), Err(SysError::ENOENT));
    assert_eq!(sys_mkdirat(true, true), Err(SysError::EEXIST));
    assert_eq!(sys_mkdirat(true, false), Ok(0));
    assert_eq!(sys_symlinkat("", "/b", false), Err(SysError::ENOENT));
    assert_eq!(sys_symlinkat("/a", "/b", true), Err(SysError::EEXIST));
    assert_eq!(sys_symlinkat("/a", "/b", false), Ok(0));
    assert_eq!(sys_fchmodat(0o644, None), Err(SysError::ENOENT));
    assert_eq!(sys_fchmodat(0o100644, Some(0o040000)), Ok(0o040644));
    assert_eq!(sys_faccessat(false), Err(SysError::ENOENT));
    assert_eq!(sys_faccessat(true), Ok(0));
    assert_eq!(sendfile_offset(None), Ok(None));
    assert_eq!(sendfile_offset(Some(8)), Ok(Some(8)));
    assert_eq!(sendfile_offset(Some(usize::MAX)), Err(SysError::EINVAL));
    assert_eq!(sys_sendfile(&t, 1, 0), Ok((3, 3)));
    assert_eq!(sys_sendfile(&t, 1, 9), Err(SysError::EBADF));
    assert_eq!(sys_sendfile(&t, 9, 0), Err(SysError::EBADF));
}

#[test]
fn shared_memory_segments() {
    assert_eq!(sys_shmget(0, 100, 0, None), Ok(ShmGet::Private(4096)));
    assert_eq!(sys_shmget(5, 100, IPC_CREAT | IPC_EXCL, Some(4096)), Err(SysError::EEXIST));
    assert_eq!(sys_shmget(5, 5000, IPC_CREAT, Some(4096)), Err(SysError::EINVAL));
    assert_eq!(sys_shmget(5, 100, IPC_CREAT, Some(4096)), Ok(ShmGet::Existing(5)));
    assert_eq!(sys_shmget(5, 4097, IPC_CREAT, None), Ok(ShmGet::Create(8192)));
    assert_eq!(sys_shmget(5, 100, 0, None), Err(SysError::ENOENT));
    assert_eq!(sys_shmat(0x1001, 0, Some(4096)), Err(SysError::EINVAL));
    assert_eq!(
        sys_shmat(0x1001, SHM_RND | SHM_RDONLY, Some(4096)),
        Ok(ShmAttach { addr: 0x1000, size: 4096, write: false, execute: false })
    );
    assert_eq!(
        sys_shmat(0, SHM_EXEC, Some(8192)),
        Ok(ShmAttach { addr: 0, size: 8192, write: true, execute: true })
    );
    assert_eq!(sys_shmat(0, 0, None), Err(SysError::EINVAL));
    assert_eq!(sys_shmdt(0x1001, Some(Some(3))), Err(SysError::EINVAL));
    assert_eq!(sys_shmdt(0x1000, Some(None)), Err(SysError::EINVAL));
    assert_eq!(sys_shmdt(0x1000, None), Err(SysError::EINVAL));
    assert_eq!(sys_shmdt(0x1000, Some(Some(3))), Ok(3));
}

#[test]
fn clone3_and_sleep_remainder() {
    assert_eq!(sys_clone3(5000, 0x1000, 0x100), Err(SysError::E2BIG));
    assert_eq!(sys_clone3(32, 0x1000, 0x100), Err(SysError::EINVAL));
    assert_eq!(sys_clone3(88, 0x1000, 0x100), Ok(0x1100));
    let start = Duration::new(10, 0);
    let limit = Duration::new(5, 0);
    assert_eq!(suspend_timeout(start, limit, Duration::new(12, 0)), Duration::new(3, 0));
    assert_eq!(suspend_timeout(start, limit, Duration::new(15, 0)), Duration::zero());
    assert_eq!(suspend_timeout(start, limit, Duration::new(20, 0)), Duration::zero());
}

#[test]
fn robust_list_walk() {
    // head at 0x100, two entries 0x200 (priority inheritance) and 0x300, pending 0x300
    let w = robust_walk_start(0x100, 0x201, 8, 0x300);
    assert_eq!(w.entry, 0x200);
    assert!(w.pi);
    assert_eq!(w.pending, 0x300);
    assert_eq!(w.limit, ROBUST_LIST_LIMIT);
    assert!(!robust_walk_done(&w));
    let (death, w) = robust_walk_next(w, 0x300);
    assert_eq!(death, Some((0x208, true)));
    assert_eq!(w.entry, 0x300);
    assert!(!w.pi);
    let (death, w) = robust_walk_next(w, 0x100);
    assert_eq!(death, None);
    assert!(robust_walk_done(&w));
    assert_eq!(robust_walk_pending(&w), Some((0x308, false)));
    let empty = robust_walk_start(0x100, 0x100, 8, 0);
    assert!(robust_walk_done(&empty));
    assert_eq!(robust_walk_pending(&empty), None);
}

#[test]
fn unblock_undoes_block() {
    let blocked = 0b0101u64;
    let m = 0b1010u64;
    let b1 = sys_rt_sigprocmask(blocked, SIG_BLOCK, Some(Some(m))).unwrap();
    assert_eq!(sys_rt_sigprocmask(b1, SIG_UNBLOCK, Some(Some(m))), Ok(blocked));
    let b2 = sys_rt_sigprocmask(0b0111, SIG_BLOCK, Some(Some(0b0011))).unwrap();
    assert_eq!(sys_rt_sigprocmask(b2, SIG_UNBLOCK, Some(Some(0b0011))), Ok(0b0100));
    assert_eq!(sys_rt_sigprocmask(123, SIG_SETMASK, Some(Some(9))), sys_rt_sigprocmask(7, SIG_SETMASK, Some(Some(9))));
}

#[test]
fn chunks_stay_in_pages() {
    let chunks = copy_chunks(4000, 100, 10000);
    let mut at = 0usize;
    for (a, b, n) in chunks {
        assert_eq!(a, 4000 + at);
        assert_eq!(b, 100 + at);
        assert!(n > 0);
        assert!(a % 4096 + n <= 4096);
        assert!(b % 4096 + n <= 4096);
        at += n;
    }
    assert_eq!(at, 10000);
}

#[test]
fn push_then_remove_restores_group() {
    let mut g = ThreadGroup::new();
    g.push(3, false);
    let before = (g.iter_tid(), g.get_alive());
    g.push(8, false);
    g.remove(8, false);
    assert_eq!((g.iter_tid(), g.get_alive()), before);
}

#[test]
fn task_and_group_registries() {
    let mut tm = TaskManager::new();
    tm.add_task(3, 30);
    tm.add_task(4, 40);
    assert_eq!(tm.get_task(3), Some(30));
    tm.remove_task(3);
    assert_eq!(tm.get_task(3), None);
    assert_eq!(tm.get_task(4), Some(40));
    let mut pg = ProcessGroupManager::new();
    assert_eq!(pg.add_group(7), 7);
    pg.add_task_to_group(7, 8);
    pg.add_task_to_group(7, 9);
    assert_eq!(pg.get_group(7), Some(vec![7, 8, 9]));
    assert_eq!(pg.get_group(1), None);
    pg.remove(7, 8);
    assert_eq!(pg.get_group(7), Some(vec![8]));
}

#[test]
fn signal_receipt_wakes() {
    let w = sig_bit_of(10);
    assert!(recv_sigs(w, 10, true, false));
    assert!(recv_sigs(w, 10, false, true));
    assert!(!recv_sigs(w, 10, false, false));
    assert!(!recv_sigs(w, 11, true, false));
    assert_eq!(notify_parent(true), Some(SIGCHLD));
    assert_eq!(notify_parent(false), None);
}

#[test]
fn interval_timer_expiries() {
    let now = Duration::new(10, 0);
    assert_eq!(real_itimer_callback(false, Duration::new(1, 0), now), TimerFire::Stale);
    assert_eq!(real_itimer_callback(true, Duration::zero(), now), TimerFire::Once);
    assert_eq!(real_itimer_callback(true, Duration::new(1, 0), now), TimerFire::Rearm(Duration::new(11, 0)));
    let st = TimerFdState { expirations: 2, interval: Duration::new(0, 500), next_expire: Duration::new(9, 0) };
    let (st2, next) = timerfd_callback(st, now);
    assert_eq!(st2.expirations, 3);
    assert_eq!(next, Some(Duration::new(10, 500)));
    assert_eq!(st2.next_expire, Duration::new(10, 500));
    let one = TimerFdState { expirations: 0, interval: Duration::zero(), next_expire: Duration::new(9, 0) };
    let (one2, next) = timerfd_callback(one, now);
    assert_eq!(next, None);
    assert!(one2.next_expire.is_zero());
    assert!(timerfd_read_ready(&one2));
    assert!(!timerfd_read_ready(&one));
    // not yet due
    assert_eq!(posix_timer_callback(now, Duration::new(11, 0), Duration::new(1, 0)), None);
    // one-shot
    assert_eq!(
        posix_timer_callback(now, Duration::new(10, 0), Duration::zero()),
        Some(PosixFire { overrun: 0, next_expire: Duration::zero(), rearm: false })
    );
    // periodic, 2.5 periods late: two missed, next boundary after now
    assert_eq!(
        posix_timer_callback(Duration::new(12, 500_000_000), Duration::new(10, 0), Duration::new(1, 0)),
        Some(PosixFire { overrun: 2, next_expire: Duration::new(13, 0), rearm: true })
    );
    // exactly on time
    assert_eq!(
        posix_timer_callback(now, now, Duration::new(2, 0)),
        Some(PosixFire { overrun: 0, next_expire: Duration::new(12, 0), rearm: true })
    );
}

#[test]
fn duration_products() {
    assert_eq!(Duration::new(1, 500_000_000).mul_u32(3), Duration::new(4, 500_000_000));
    assert_eq!(Duration::new(2, 7).as_nanos(), 2_000_000_007u128);
    assert_eq!(Duration::from_nanos_u128(3_000_000_001), Duration::new(3, 1));
}
