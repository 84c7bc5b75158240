use chronix::trap::{
        kernel_trap_handler, syscall_outcome, syscall_return_value, user_page_fault_outcome, user_trap_handler,
        PageFaultAccess, TrapAction, TrapKind, SIGILL, SIGSEGV, SIGTRAP,
    };
use chronix::signal::{check_and_handle, SignalDelivery, SA_RESTART, SA_SIGINFO};
use chronix::auxv::{user_stack_init, AuxHeader, AT_PAGESZ};
use chronix::clone::{fork, sys_clone, CLONE_CHILD_CLEARTID, CLONE_FILES, CLONE_PARENT_SETTID, CLONE_SETTLS, CLONE_THREAD, CLONE_VM};
use chronix::dirent::{sys_getdents64, DirEntry};
use chronix::duration::Duration;
use chronix::errno::SysError;
use chronix::exec::{exec_exiting_threads, exec_found, script_shell, sys_execve, ExecLookup};
use chronix::fd_table::{FdFlags, FdTable};
use chronix::io::{
    epoll_wait_check, epoll_wait_finish, sys_epoll_pwait, sys_epoll_pwait2, EPollEvent, EPollEvents, EPollInstance,
    EpollTimeout, EpollWait, FdSet,
};
use chronix::mq::{
    block_on_mq, mq_handle, sys_mq_getsetattr, sys_mq_notify, sys_mq_timedreceive, sys_mq_timedsend, MqAttr,
    MqBlockStep, MqError, NotifyChange, SIGEV_NONE, SIGEV_SIGNAL,
};
use chronix::net::{
    accept_install, recvmsg_scatter, sendmsg_buffers, sendto_target, sockaddr_len, sockaddr_reader, sys_accept,
    sys_bind, sys_connect, sys_recvfrom, sys_sendto, AddrFamily, SocketType,
};
use chronix::poll::{poll_wait_mask, ppoll_finish, pselect_finish, PollFd, WaitEnd, POLLIN, POLLOUT};
use chronix::recorder::{process_time_pair, process_time_sum};
use chronix::signal::{
    handler_blocked, interrupted_by_signal, recv_sigs_process_level, sig_bit_of, sigtimedwait_sets, sys_kill, sys_rt_sigaction,
    sys_rt_sigprocmask, sys_rt_sigsuspend, sys_rt_sigtimedwait, sys_tgkill, sys_tkill, set_wake_up_sigs, KillTarget,
    SigDisposition, SIG_BLOCK, SIG_SETMASK, SIG_UNBLOCK, UNBLOCKABLE,
};
use chronix::sys_fs::{chdir_from_root, openat_create, sys_chdir, sys_openat, IoVec, O_CLOEXEC, O_CREAT, O_DIRECTORY, O_EXCL};
use chronix::sys_task::{get_cpu_mask, sys_sched_getaffinity, sys_sched_setaffinity, task_pid, turn_cpu_mask_to_id};
use chronix::sys_time::{sleep_finish, sys_clock_nanosleep, sys_nanosleep, SleepPlan};
use chronix::thread_group::{handle_zombie, mm_release, ThreadGroup, ZombieStage};
use chronix::time::TimeSpec;
use chronix::vm::{
    copy_chunks, sys_munmap, process_vm_check, process_vm_segments, sys_mmap, sys_mprotect, sys_mremap, MmapKind,
    MremapArea, MremapPlan, VmBacking, MAP_ANONYMOUS, MAP_FIXED, MAP_PRIVATE, MAP_SHARED, MREMAP_DONTUNMAP,
    MREMAP_FIXED, MREMAP_MAYMOVE,
};

#[test]
fn mmap_plans() {
    let t = FdTable::new(9);
    let p = sys_mmap(&t, 0, 4096, 3, MAP_PRIVATE | MAP_ANONYMOUS, usize::MAX, 0).unwrap();
    assert_eq!(p.kind, MmapKind::PrivateAnon);
    assert!(!p.unmap_first);
    assert_eq!(p.prot, 3);
    let p = sys_mmap(&t, 0x1000, 4096, 0xff, MAP_SHARED | MAP_FIXED, 1, 8192).unwrap();
    assert_eq!(p.kind, MmapKind::SharedFile(9));
    assert!(p.unmap_first);
    assert_eq!(p.prot, 7);
    assert_eq!(sys_mmap(&t, 0, 4096, 1, MAP_PRIVATE, 7, 0), Err(SysError::EBADF));
    assert_eq!(sys_mmap(&t, 0, 0, 1, MAP_PRIVATE | MAP_ANONYMOUS, 0, 0), Err(SysError::EINVAL));
    assert_eq!(sys_mmap(&t, 0, 10, 1, MAP_PRIVATE | MAP_FIXED | MAP_ANONYMOUS, 0, 0), Err(SysError::EINVAL));
    assert_eq!(sys_mmap(&t, 0, 10, 1, MAP_PRIVATE, 0, 100), Err(SysError::EINVAL));
    assert_eq!(sys_mmap(&t, 0, 10, 1, MAP_ANONYMOUS, 0, 0).unwrap().kind, MmapKind::Invalid);
}

fn area(end: usize) -> MremapArea {
    MremapArea { end, is_mmap: true, private_anon: true, shared: false, backing: VmBacking::Anon }
}

#[test]
fn mremap_plans() {
    // sizes are one less than a page more, with the page-size bit cleared
    assert_eq!(
        sys_mremap(0x10000, 4096, 100, 0, 0, Some(area(0x20000)), false, false),
        Ok(MremapPlan::InPlace { old_size: 4095, new_size: 99 })
    );
    assert_eq!(sys_mremap(0x10001, 4096, 100, 0, 0, Some(area(0x20000)), false, false), Err(SysError::EINVAL));
    assert_eq!(sys_mremap(0x10000, 4096, 100, 8, 0, Some(area(0x20000)), false, false), Err(SysError::EINVAL));
    assert_eq!(sys_mremap(0x10000, 4096, 100, MREMAP_FIXED, 0, Some(area(0x20000)), false, false), Err(SysError::EINVAL));
    assert_eq!(sys_mremap(0x10000, 4096, 100, 0, 0, None, false, false), Err(SysError::EINVAL));
    assert_eq!(sys_mremap(0x10000, 4096, 100, 0, 0, Some(area(0x10010)), false, false), Err(SysError::EINVAL));
    assert_eq!(sys_mremap(0x10000, 100, 20000, 0, 0, Some(area(0x20000)), false, false), Err(SysError::ENOMEM));
    assert_eq!(
        sys_mremap(0x10000, 100, 20000, 0, 0, Some(area(0x20000)), true, false),
        Ok(MremapPlan::InPlace { old_size: 99, new_size: 20000 - 1 + 4096 - 4096 })
    );
    assert_eq!(
        sys_mremap(0x10000, 100, 20000, MREMAP_MAYMOVE, 0, Some(area(0x20000)), false, false),
        Ok(MremapPlan::Move { at: 0, new_size: 19999, backing: VmBacking::Anon, keep_old: false })
    );
    assert_eq!(
        sys_mremap(0x10000, 100, 200, MREMAP_MAYMOVE | MREMAP_FIXED, 0x40000, Some(area(0x20000)), false, false),
        Err(SysError::ENOMEM)
    );
    assert_eq!(
        sys_mremap(
            0x10000,
            100,
            200,
            MREMAP_MAYMOVE | MREMAP_FIXED | MREMAP_DONTUNMAP,
            0x40000,
            Some(area(0x20000)),
            false,
            true
        ),
        Ok(MremapPlan::Move { at: 0x40000, new_size: 199, backing: VmBacking::Anon, keep_old: true })
    );
    let shared = MremapArea { private_anon: false, ..area(0x20000) };
    assert_eq!(
        sys_mremap(0x10000, 100, 200, MREMAP_MAYMOVE | MREMAP_DONTUNMAP, 0, Some(shared), false, false),
        Err(SysError::EINVAL)
    );
}

#[test]
fn process_vm_pairs_buffers() {
    assert_eq!(process_vm_check(1025, 1, 0, true), Err(SysError::EINVAL));
    assert_eq!(process_vm_check(1, 1, 1, true), Err(SysError::EINVAL));
    assert_eq!(process_vm_check(1, 1, 0, false), Err(SysError::ESRCH));
    assert_eq!(process_vm_check(1, 1, 0, true), Ok(()));
    let local = vec![IoVec { base: 100, len: 5 }, IoVec { base: 0, len: 0 }, IoVec { base: 200, len: 10 }];
    let remote = vec![IoVec { base: 1000, len: 8 }, IoVec { base: 2000, len: 20 }];
    let (segs, total) = process_vm_segments(&local, &remote);
    assert_eq!(total, 15);
    assert_eq!(segs, vec![(100, 1000, 5), (200, 1005, 3), (203, 2000, 7)]);
    let (segs, total) = process_vm_segments(&local, &vec![IoVec { base: 7, len: 2 }]);
    assert_eq!(total, 2);
    assert_eq!(segs, vec![(100, 7, 2)]);
}

#[test]
fn copies_split_at_pages() {
    let c = copy_chunks(4090, 8190, 20);
    assert_eq!(c, vec![(4090, 8190, 2), (4092, 8192, 4), (4096, 8196, 14)]);
    assert_eq!(copy_chunks(0, 0, 0), vec![]);
    assert_eq!(sys_munmap(0), None);
    assert_eq!(sys_munmap(1), Some(4096));
    assert_eq!(sys_munmap(4097), Some(8192));
    assert_eq!(sys_mprotect(4096, 8192, 0xf), Ok(7));
    assert_eq!(sys_mprotect(4097, 8192, 1), Err(SysError::EINVAL));
    assert_eq!(sys_mprotect(4096, 0, 1), Err(SysError::EINVAL));
    assert_eq!(sys_mprotect(4096, 100, 1), Err(SysError::EINVAL));
}

#[test]
fn kill_targets() {
    assert_eq!(sys_kill(5, 0, true, None), Ok(KillTarget::Nothing));
    assert_eq!(sys_kill(5, 64, true, None), Err(SysError::EINVAL));
    assert_eq!(sys_kill(5, -1, true, None), Err(SysError::EINVAL));
    assert_eq!(sys_kill(0, 9, true, None), Ok(KillTarget::OwnGroup));
    assert_eq!(sys_kill(-1, 9, true, None), Ok(KillTarget::Everyone));
    assert_eq!(sys_kill(-7, 9, true, None), Ok(KillTarget::GroupTask(7)));
    assert_eq!(sys_kill(-7, 9, false, None), Err(SysError::ESRCH));
    assert_eq!(sys_kill(7, 9, true, Some(true)), Ok(KillTarget::Process(7)));
    assert_eq!(sys_kill(7, 9, true, Some(false)), Err(SysError::ESRCH));
    assert_eq!(sys_kill(7, 9, true, None), Err(SysError::ESRCH));
    assert_eq!(sys_tkill(3, 10, true), Ok(3));
    assert_eq!(sys_tkill(3, 10, false), Err(SysError::ESRCH));
    assert_eq!(sys_tkill(-3, 10, true), Err(SysError::EINVAL));
    assert_eq!(sys_tgkill(1, 3, 10, Some((true, vec![1, 3]))), Ok(3));
    assert_eq!(sys_tgkill(1, 4, 10, Some((true, vec![1, 3]))), Err(SysError::ESRCH));
    assert_eq!(sys_tgkill(1, 3, 10, Some((false, vec![1, 3]))), Err(SysError::ESRCH));
    assert_eq!(sys_tgkill(-1, 3, 10, None), Err(SysError::EINVAL));
}

#[test]
fn signal_actions_and_masks() {
    assert_eq!(sys_rt_sigaction(9, 0, false, true, None), Err(SysError::EINVAL));
    assert_eq!(sys_rt_sigaction(65, 0, false, true, None), Err(SysError::EINVAL));
    let o = sys_rt_sigaction(10, 0x4000, true, true, Some(1)).unwrap();
    assert_eq!(o.old_handler, Some(0x4000));
    assert_eq!(o.new, Some(SigDisposition::Ignore));
    let o = sys_rt_sigaction(10, 0x4000, false, true, Some(0x5000)).unwrap();
    assert_eq!(o.old_handler, Some(0));
    assert_eq!(o.new, Some(SigDisposition::User(0x5000)));
    let o = sys_rt_sigaction(10, 0x4000, true, false, Some(0)).unwrap();
    assert_eq!(o.old_handler, None);
    assert_eq!(o.new, Some(SigDisposition::Default));
    assert_eq!(sys_rt_sigprocmask(0b01, SIG_BLOCK, Some(Some(0b10))), Ok(0b11));
    assert_eq!(sys_rt_sigprocmask(0b11, SIG_UNBLOCK, Some(Some(0b10))), Ok(0b01));
    assert_eq!(sys_rt_sigprocmask(0b11, SIG_SETMASK, Some(Some(0b100))), Ok(0b100));
    assert_eq!(sys_rt_sigprocmask(0b11, 7, Some(Some(0b100))), Err(SysError::EINVAL));
    assert_eq!(sys_rt_sigprocmask(0b11, SIG_BLOCK, Some(None)), Err(SysError::EINVAL));
    assert_eq!(sys_rt_sigprocmask(0b11, SIG_BLOCK, None), Ok(0b11));
    assert_eq!(sig_bit_of(1), 1);
    assert_eq!(sig_bit_of(9) | sig_bit_of(19), UNBLOCKABLE);
    let p = sys_rt_sigsuspend(u64::MAX, 0, 0);
    assert_eq!(p.blocked, !UNBLOCKABLE);
    assert_eq!(p.wake, Some(UNBLOCKABLE));
    let p = sys_rt_sigsuspend(0, 1, 0);
    assert_eq!(p.wake, None);
    assert_eq!(sigtimedwait_sets(u64::MAX), (!UNBLOCKABLE, u64::MAX));
    assert_eq!(sys_rt_sigtimedwait(Some(10)), Ok(10));
    assert_eq!(sys_rt_sigtimedwait(None), Err(SysError::EAGAIN));
    assert_eq!(set_wake_up_sigs(1), 1 | UNBLOCKABLE);
    assert!(interrupted_by_signal(0b100, 0b011));
    assert!(!interrupted_by_signal(0b001, 0b011));
    let bit10 = sig_bit_of(10);
    assert_eq!(recv_sigs_process_level(&vec![bit10, 0, 0], 10), 1);
    assert_eq!(recv_sigs_process_level(&vec![bit10, bit10], 10), 0);
    assert_eq!(handler_blocked(0, 10, 0b1), bit10 | 1);
}

#[test]
fn clone_plans() {
    let f = fork(CLONE_VM | CLONE_THREAD | CLONE_FILES);
    assert!(f.share_vm && f.thread && f.share_files && !f.copy_sighand && !f.vfork);
    let f = fork(0);
    assert!(!f.share_vm && !f.thread && !f.share_files);
    let flags = (CLONE_PARENT_SETTID | CLONE_SETTLS | 17) as usize;
    let p = sys_clone(flags, 0x8000, 0x100, 0x200, 0x300, 42);
    assert_eq!(p.flags, CLONE_PARENT_SETTID | CLONE_SETTLS);
    assert_eq!(p.stack, Some(0x8000));
    assert_eq!(p.parent_settid, Some(0x100));
    assert_eq!(p.child_settid, None);
    assert_eq!(p.clear_child_tid, None);
    assert_eq!(p.tls, Some(0x200));
    assert_eq!(p.ret, 42);
    let p = sys_clone(CLONE_CHILD_CLEARTID as usize, 0, 0, 0, 0x300, 5);
    assert_eq!(p.stack, None);
    assert_eq!(p.clear_child_tid, Some(0x300));
}

#[test]
fn poll_endings() {
    assert_eq!(poll_wait_mask(0b01, Some(0b10)), 0b11);
    assert_eq!(poll_wait_mask(0b01, None), 0b01);
    let mut r = FdSet::new();
    r.mark_fd(3);
    let ready = vec![(3usize, POLLIN), (5usize, POLLOUT)];
    let mut blocked: u64 = 0b111;
    let (rs, ws, es, n) =
        pselect_finish(WaitEnd::Ready, &ready, Some(r), Some(FdSet::new()), Some(r), &mut blocked, 0b1).unwrap();
    assert_eq!(n, 2);
    assert_eq!(blocked, 0b1);
    assert!(rs.unwrap().is_set(3));
    assert!(ws.unwrap().is_set(5));
    assert!(!es.unwrap().is_set(3));
    blocked = 0b111;
    let (rs, _, _, n) = pselect_finish(WaitEnd::TimedOut, &ready, Some(r), None, None, &mut blocked, 0b1).unwrap();
    assert_eq!(n, 0);
    assert_eq!(blocked, 0b1);
    assert!(!rs.unwrap().is_set(3));
    blocked = 0b111;
    assert!(pselect_finish(WaitEnd::Interrupted, &ready, Some(r), None, None, &mut blocked, 0b1).is_err());
    // the signal is taken with the call's mask still in force
    assert_eq!(blocked, 0b111);
    let mut fds = vec![PollFd { fd: 3, events: POLLIN, revents: 0 }, PollFd { fd: 4, events: POLLOUT, revents: 0 }];
    blocked = 0b110;
    assert_eq!(ppoll_finish(WaitEnd::TimedOut, &mut fds, &vec![(1, POLLOUT)], &mut blocked, 0), Ok(0));
    assert_eq!(blocked, 0);
    assert_eq!(fds[1].revents, 0);
    blocked = 0b110;
    assert_eq!(ppoll_finish(WaitEnd::Interrupted, &mut fds, &vec![(1, POLLOUT)], &mut blocked, 0), Err(SysError::EINTR));
    assert_eq!(blocked, 0b110);
    blocked = 0b110;
    assert_eq!(ppoll_finish(WaitEnd::Ready, &mut fds, &vec![(1, POLLOUT)], &mut blocked, 0), Ok(1));
    assert_eq!(blocked, 0);
    assert_eq!(fds[1].revents, POLLOUT);
}

#[test]
fn epoll_waits() {
    let t = FdTable::new(9);
    assert_eq!(epoll_wait_check(&t, 1, true, 4), Ok(()));
    assert_eq!(epoll_wait_check(&t, 8, true, 4), Err(SysError::EBADF));
    assert_eq!(epoll_wait_check(&t, 1, false, 4), Err(SysError::EINVAL));
    assert_eq!(epoll_wait_check(&t, 1, true, 0), Err(SysError::EINVAL));
    let ep = EPollInstance::new(FdFlags::empty());
    let mut evs = [EPollEvent { events: EPollEvents { bits: 0 }, data: 0 }; 4];
    assert_eq!(sys_epoll_pwait(&ep, &mut evs, 0, None, 5), Ok(EpollWait::Done(0)));
    assert_eq!(
        sys_epoll_pwait(&ep, &mut evs, -1, Some(Some(7)), 5),
        Ok(EpollWait::Wait { mask: 7, timeout: EpollTimeout::Forever })
    );
    assert_eq!(
        sys_epoll_pwait(&ep, &mut evs, 30, None, 5),
        Ok(EpollWait::Wait { mask: 5, timeout: EpollTimeout::Millis(30) })
    );
    assert_eq!(sys_epoll_pwait(&ep, &mut evs, 30, Some(None), 5), Err(SysError::EFAULT));
    let ts = TimeSpec { tv_sec: 1, tv_nsec: 0 };
    assert_eq!(
        sys_epoll_pwait2(&ep, &mut evs, Some(Some(ts)), None, 5),
        Ok(EpollWait::Wait { mask: 5, timeout: EpollTimeout::Spec(ts) })
    );
    assert_eq!(
        sys_epoll_pwait2(&ep, &mut evs, None, None, 5),
        Ok(EpollWait::Wait { mask: 5, timeout: EpollTimeout::Forever })
    );
    assert_eq!(sys_epoll_pwait2(&ep, &mut evs, Some(None), None, 5), Err(SysError::EFAULT));
    assert_eq!(epoll_wait_finish(&ep, &mut evs, true), Err(SysError::EINTR));
    assert_eq!(epoll_wait_finish(&ep, &mut evs, false), Ok(0));
}

#[test]
fn execve_runs_scripts_under_the_shell() {
    let (how, args) = sys_execve("/tmp/run.sh", vec!["run.sh".to_string(), "x".to_string()]);
    assert_eq!(how, ExecLookup::Shell);
    assert_eq!(args, vec!["busybox", "sh", "run.sh", "x"]);
    assert_eq!(script_shell(), "/musl/busybox");
    let (how, args) = sys_execve("/bin/ls", vec!["ls".to_string()]);
    assert_eq!(how, ExecLookup::Given);
    assert_eq!(args, vec!["ls"]);
    assert_eq!(exec_found(false), Err(SysError::ENOENT));
    assert_eq!(exec_found(true), Ok(()));
    assert_eq!(exec_exiting_threads(&vec![1, 2, 3], 2), vec![1, 3]);
}

#[test]
fn openat_and_chdir() {
    assert_eq!(openat_create("/a/b", "/a/b", 0, false), Ok(false));
    assert_eq!(openat_create("/a/b", "/a/b", O_CREAT, false), Ok(true));
    assert_eq!(openat_create("/a/b", "/a/b", O_CREAT | O_EXCL, true), Err(SysError::EEXIST));
    assert_eq!(openat_create("/x/b", "/x", O_CREAT, false), Err(SysError::ENOENT));
    let mut t = FdTable::new(9);
    assert_eq!(sys_openat(&mut t, 0, false, false, 4), Err(SysError::ENOENT));
    assert_eq!(sys_openat(&mut t, O_DIRECTORY, true, false, 4), Err(SysError::ENOTDIR));
    assert_eq!(sys_openat(&mut t, O_CLOEXEC, true, false, 4), Ok(3));
    assert_eq!(t.get_file(3), Ok(4));
    assert!(t.get_fd_info(3).unwrap().flags().contains_cloexec());
    assert!(chdir_from_root("/usr"));
    assert!(!chdir_from_root("usr"));
    assert_eq!(sys_chdir(Ok(Some((true, true)))), Ok(0));
    assert_eq!(sys_chdir(Ok(Some((true, false)))), Err(SysError::ENOTDIR));
    assert_eq!(sys_chdir(Ok(Some((false, true)))), Err(SysError::ENOENT));
    assert_eq!(sys_chdir(Ok(None)), Err(SysError::ENOENT));
    assert_eq!(sys_chdir(Err(SysError::EACCES)), Err(SysError::EACCES));
}

#[test]
fn socket_address_calls() {
    assert_eq!(sockaddr_len(AddrFamily::Inet), 16);
    assert_eq!(sockaddr_len(AddrFamily::Inet6), 28);
    assert_eq!(sockaddr_len(AddrFamily::Unix), 110);
    assert_eq!(sockaddr_reader(None, 16), Err(SysError::EFAULT));
    assert_eq!(sockaddr_reader(Some(Ok(AddrFamily::Inet6)), 16), Err(SysError::EINVAL));
    assert_eq!(sockaddr_reader(Some(Err(SysError::EAFNOSUPPORT)), 16), Err(SysError::EAFNOSUPPORT));
    let t = FdTable::new(6);
    assert_eq!(sys_bind(&t, 1, Some(Ok(AddrFamily::Inet)), 16), Ok((6, AddrFamily::Inet)));
    assert_eq!(sys_bind(&t, 9, Some(Ok(AddrFamily::Inet)), 16), Err(SysError::EBADF));
    assert_eq!(sys_bind(&t, 9, None, 16), Err(SysError::EFAULT));
    assert_eq!(sys_connect(&t, 2, Some(Ok(AddrFamily::Unix)), 110), Ok((6, AddrFamily::Unix)));
    assert_eq!(sys_connect(&t, usize::MAX, None, 0), Err(SysError::EBADF));
    assert_eq!(sys_accept(&t, 0), Ok(6));
    assert_eq!(sys_recvfrom(&t, 5), Err(SysError::EBADF));
    let mut t2 = FdTable::new(6);
    assert_eq!(accept_install(&mut t2, 11), Ok(3));
    assert_eq!(t2.get_file(3), Ok(11));
    assert_eq!(sys_sendto(1, 0x1000, 10), Ok(()));
    assert_eq!(sys_sendto(1, 0, 10), Err(SysError::EFAULT));
    assert_eq!(sys_sendto(1, 0x1000, 9000), Err(SysError::EMSGSIZE));
    assert_eq!(sys_sendto(usize::MAX, 0x1000, 10), Err(SysError::EBADF));
    assert_eq!(sendto_target(SocketType::DGRAM, 0x50), Ok(Some(0x50)));
    assert_eq!(sendto_target(SocketType::DGRAM, 0), Ok(None));
    assert_eq!(sendto_target(SocketType::STREAM, 0x50), Err(SysError::EISCONN));
    assert_eq!(sendto_target(SocketType::STREAM, 0), Ok(None));
    let iovs = vec![IoVec { base: 1, len: 0 }, IoVec { base: 2, len: 4 }];
    assert_eq!(sendmsg_buffers(&iovs), vec![IoVec { base: 2, len: 4 }]);
    let iovs = vec![IoVec { base: 100, len: 3 }, IoVec { base: 200, len: 0 }, IoVec { base: 300, len: 10 }, IoVec { base: 400, len: 5 }];
    let (plan, n) = recvmsg_scatter(&iovs, 8);
    assert_eq!(n, 8);
    assert_eq!(plan, vec![(100, 0, 3), (200, 3, 0), (300, 3, 5)]);
    let (plan, n) = recvmsg_scatter(&iovs, 100);
    assert_eq!(n, 18);
    assert_eq!(plan.len(), 4);
}

#[test]
fn sleeps() {
    assert_eq!(sys_nanosleep(None), Ok(SleepPlan::Done));
    assert_eq!(sys_nanosleep(Some(None)), Err(SysError::EFAULT));
    assert_eq!(sys_nanosleep(Some(Some(TimeSpec { tv_sec: 0, tv_nsec: 2_000_000_000 }))), Err(SysError::EINVAL));
    assert_eq!(
        sys_nanosleep(Some(Some(TimeSpec { tv_sec: 1, tv_nsec: 5 }))),
        Ok(SleepPlan::Sleep(Duration::new(1, 5)))
    );
    let now = Duration::new(10, 0);
    assert_eq!(sys_clock_nanosleep(3, 0, None, now), Err(SysError::EOPNOTSUPP));
    assert_eq!(sys_clock_nanosleep(0, 0, None, now), Err(SysError::EFAULT));
    let ts = TimeSpec { tv_sec: 12, tv_nsec: 0 };
    assert_eq!(sys_clock_nanosleep(1, 1, Some(ts), now), Ok(SleepPlan::Sleep(Duration::new(2, 0))));
    assert_eq!(sys_clock_nanosleep(1, 0, Some(ts), now), Ok(SleepPlan::Sleep(Duration::new(12, 0))));
    assert_eq!(sys_clock_nanosleep(0, 1, Some(TimeSpec { tv_sec: 3, tv_nsec: 0 }), now), Ok(SleepPlan::Done));
    assert_eq!(sleep_finish(Duration::zero()), (Ok(0), None));
    assert_eq!(
        sleep_finish(Duration::new(3, 7)),
        (Err(SysError::EINTR), Some(TimeSpec { tv_sec: 3, tv_nsec: 7 }))
    );
}

#[test]
fn affinity_and_times() {
    assert_eq!(get_cpu_mask(2), 4);
    assert_eq!(get_cpu_mask(4), 15);
    assert_eq!(get_cpu_mask(9), 0);
    assert_eq!(turn_cpu_mask_to_id(8), 3);
    assert_eq!(turn_cpu_mask_to_id(15), 4);
    assert_eq!(turn_cpu_mask_to_id(3), 0);
    assert_eq!(sys_sched_setaffinity(8, true, Some(2)), Ok(2));
    assert_eq!(sys_sched_setaffinity(4, true, Some(2)), Err(SysError::EINVAL));
    assert_eq!(sys_sched_setaffinity(8, false, Some(2)), Err(SysError::ESRCH));
    assert_eq!(sys_sched_setaffinity(8, true, None), Err(SysError::EFAULT));
    assert_eq!(sys_sched_getaffinity(8, true, Some((true, 15))), Ok((15, 8)));
    assert_eq!(sys_sched_getaffinity(8, false, Some((true, 15))), Err(SysError::EFAULT));
    assert_eq!(sys_sched_getaffinity(8, true, Some((false, 15))), Err(SysError::ESRCH));
    assert_eq!(task_pid(false, 7, 3), 3);
    assert_eq!(task_pid(true, 7, 3), 7);
    let s = process_time_sum(&vec![Duration::new(1, 600_000_000), Duration::new(0, 500_000_000)]);
    assert_eq!(s, Duration::new(2, 100_000_000));
    let (u, k) = process_time_pair(&vec![(Duration::new(1, 0), Duration::new(0, 1)), (Duration::new(2, 0), Duration::new(0, 2))]);
    assert_eq!(u, Duration::new(3, 0));
    assert_eq!(k, Duration::new(0, 3));
}

#[test]
fn directory_records() {
    let t = FdTable::new(2);
    let kids = vec![
        DirEntry { ino: 5, dtype: 4, name: b"a".to_vec() },
        DirEntry { ino: 6, dtype: 8, name: b"hello".to_vec() },
        DirEntry { ino: 7, dtype: 8, name: b"x".to_vec() },
    ];
    assert_eq!(sys_getdents64(&t, 0, false, &kids, 0, 100), Err(SysError::EINVAL));
    assert_eq!(sys_getdents64(&t, 9, true, &kids, 0, 100), Err(SysError::EBADF));
    let (bytes, taken) = sys_getdents64(&t, 0, true, &kids, 0, 56).unwrap();
    assert_eq!(taken, 2);
    assert_eq!(bytes.len(), 56);
    assert_eq!(&bytes[0..8], &5u64.to_le_bytes());
    assert_eq!(&bytes[8..16], &0u64.to_le_bytes());
    assert_eq!(&bytes[16..18], &24u16.to_le_bytes());
    assert_eq!(bytes[18], 4);
    assert_eq!(&bytes[19..21], b"a\0");
    assert_eq!(&bytes[24..32], &6u64.to_le_bytes());
    assert_eq!(&bytes[32..40], &1u64.to_le_bytes());
    assert_eq!(&bytes[40..42], &32u16.to_le_bytes());
    assert_eq!(&bytes[43..49], b"hello\0");
    let (bytes, taken) = sys_getdents64(&t, 0, true, &kids, 2, 100).unwrap();
    assert_eq!(taken, 1);
    assert_eq!(&bytes[8..16], &2u64.to_le_bytes());
    let (bytes, taken) = sys_getdents64(&t, 0, true, &kids, 5, 100).unwrap();
    assert_eq!((bytes.len(), taken), (0, 0));
}

#[test]
fn message_queue_calls() {
    let t = FdTable::new(2);
    assert_eq!(mq_handle(&t, 0, true, SysError::EINVAL), Ok(2));
    assert_eq!(mq_handle(&t, 0, false, SysError::EINVAL), Err(SysError::EINVAL));
    assert_eq!(mq_handle(&t, 7, true, SysError::EINVAL), Err(SysError::EBADF));
    let a = MqAttr { mq_flags: 0, mq_maxmsg: 10, mq_msgsize: 256 };
    let n = MqAttr { mq_flags: 0o4000, mq_maxmsg: 1, mq_msgsize: 1 };
    assert_eq!(sys_mq_getsetattr(a, Some(n)), (a, MqAttr { mq_flags: 0o4000, ..a }));
    assert_eq!(sys_mq_getsetattr(a, None), (a, a));
    assert_eq!(sys_mq_notify(true, None), Ok(NotifyChange::Clear));
    assert_eq!(sys_mq_notify(false, Some(None)), Err(SysError::EFAULT));
    assert_eq!(sys_mq_notify(false, Some(Some(2))), Err(SysError::EINVAL));
    assert_eq!(sys_mq_notify(true, Some(Some(SIGEV_SIGNAL))), Err(SysError::EBUSY));
    assert_eq!(sys_mq_notify(false, Some(Some(SIGEV_NONE))), Ok(NotifyChange::Register(SIGEV_NONE)));
    let now = Duration::new(10, 0);
    assert_eq!(sys_mq_timedsend(9000, true, None, now), Err(SysError::EMSGSIZE));
    assert_eq!(sys_mq_timedsend(10, false, None, now), Err(SysError::EFAULT));
    assert_eq!(sys_mq_timedsend(10, true, None, now), Ok(None));
    assert_eq!(
        sys_mq_timedsend(10, true, Some(Some(TimeSpec { tv_sec: 11, tv_nsec: 0 })), now),
        Ok(Some(Duration::new(1, 0)))
    );
    assert_eq!(
        sys_mq_timedreceive(10, Some(Some(TimeSpec { tv_sec: 1, tv_nsec: 0 })), now),
        Ok(Some(Duration::zero()))
    );
    assert_eq!(
        sys_mq_timedreceive(10, Some(Some(TimeSpec { tv_sec: 1, tv_nsec: 1_000_000_000 })), now),
        Err(SysError::EINVAL)
    );
    assert_eq!(sys_mq_timedreceive(10, Some(None), now), Err(SysError::EFAULT));
    assert_eq!(block_on_mq(Ok(()), true), MqBlockStep::Done);
    assert_eq!(block_on_mq(Err(MqError::WouldBlock), false), MqBlockStep::Retry);
    assert_eq!(block_on_mq(Err(MqError::WouldBlock), true), MqBlockStep::Fail(SysError::EINTR));
    assert_eq!(block_on_mq(Err(MqError::TimedOut), false), MqBlockStep::Fail(SysError::ETIMEOUT));
}

#[test]
fn thread_groups_and_exit() {
    let mut g = ThreadGroup::new();
    g.push(5, false);
    g.push(2, false);
    g.push(9, true);
    assert_eq!(g.len(), 3);
    assert_eq!(g.iter_tid(), vec![2, 5, 9]);
    assert_eq!(g.get_alive(), 2);
    g.add_alive(1);
    assert_eq!(g.get_alive(), 3);
    g.sub_alive(1);
    assert_eq!(g.do_exit(3), false);
    assert_eq!(g.exit_state(), (false, 0));
    let (code, others) = g.do_group_exit(7, 5);
    assert_eq!(code, 7);
    assert_eq!(others, vec![2, 9]);
    let (code, others) = g.do_group_exit(8, 2);
    assert_eq!(code, 7);
    assert!(others.is_empty());
    assert_eq!(g.do_exit(1), true);
    assert_eq!(g.exit_state(), (true, 7));
    g.remove(2, true);
    assert_eq!(g.iter_tid(), vec![5, 9]);
    assert_eq!(mm_release(Some(0x1000)), Some(0x1000));
    assert_eq!(mm_release(Some(0x1001)), None);
    assert_eq!(mm_release(Some(0)), None);
    assert_eq!(mm_release(None), None);
    assert_eq!(handle_zombie(false, true, 1), ZombieStage::Linger);
    assert_eq!(handle_zombie(true, true, 3), ZombieStage::Linger);
    assert_eq!(handle_zombie(true, true, 1), ZombieStage::Last);
    assert_eq!(handle_zombie(true, false, 2), ZombieStage::Last);
}

#[test]
fn trap_actions() {
    assert_eq!(user_trap_handler(TrapKind::Breakpoint), TrapAction::Signal(SIGTRAP));
    assert_eq!(user_trap_handler(TrapKind::Syscall), TrapAction::Syscall);
    assert_eq!(
        user_trap_handler(TrapKind::StorePageFault(0x10)),
        TrapAction::PageFault(0x10, PageFaultAccess::Write)
    );
    assert_eq!(
        user_trap_handler(TrapKind::InstructionPageFault(0x20)),
        TrapAction::PageFault(0x20, PageFaultAccess::Execute)
    );
    assert_eq!(user_trap_handler(TrapKind::IllegalInstruction(0)), TrapAction::Signal(SIGILL));
    assert_eq!(user_trap_handler(TrapKind::Timer), TrapAction::Timer);
    assert_eq!(user_trap_handler(TrapKind::Processed), TrapAction::Nothing);
    assert_eq!(
        kernel_trap_handler(TrapKind::LoadPageFault(0x30)),
        TrapAction::PageFault(0x30, PageFaultAccess::Read)
    );
    assert_eq!(kernel_trap_handler(TrapKind::ExternalInterrupt), TrapAction::Irq);
    assert_eq!(user_page_fault_outcome(false), Some(SIGSEGV));
    assert_eq!(user_page_fault_outcome(true), None);
    assert_eq!(syscall_return_value(Ok(7)), 7);
    assert_eq!(syscall_return_value(Err(SysError::ENOENT)), -2);
    assert_eq!(syscall_outcome(-4), ((-4isize) as usize, true));
    assert_eq!(syscall_outcome(3), (3, false));
}

#[test]
fn signal_delivery_frames() {
    assert_eq!(check_and_handle(None, 0, true, 0, 0, 0, 0x1000, 100, 50), SignalDelivery::Nothing);
    assert_eq!(
        check_and_handle(Some(10), 0x5000, false, SA_RESTART, 0, 0, 0x1000, 100, 50),
        SignalDelivery::Kernel { restart: true }
    );
    match check_and_handle(Some(10), 0x5000, true, SA_SIGINFO, 0b1, 0, 0x1000, 100, 50) {
        SignalDelivery::User { frame, restart } => {
            assert!(!restart);
            assert_eq!(frame.blocked, sig_bit_of(10) | 1);
            assert_eq!(frame.ucontext_at, 0x1000 - 100);
            assert_eq!(frame.siginfo_at, Some(0x1000 - 150));
            assert_eq!(frame.sp, 0x1000 - 150);
            assert_eq!(frame.pc, 0x5000);
            assert_eq!(frame.arg0, 10);
        }
        other => panic!("unexpected {:?}", other),
    }
    match check_and_handle(Some(2), 0x5000, true, 0, 0, 0, 0x1000, 100, 50) {
        SignalDelivery::User { frame, .. } => {
            assert_eq!(frame.siginfo_at, None);
            assert_eq!(frame.sp, 0x1000 - 100);
        }
        other => panic!("unexpected {:?}", other),
    }
}

#[test]
fn new_program_stack() {
    let argv = vec![b"ls".to_vec(), b"-l".to_vec()];
    let envp = vec![b"A=1".to_vec()];
    let auxv = vec![AuxHeader { aux_type: AT_PAGESZ, value: 4096 }];
    let sp = 0x10000;
    let l = user_stack_init(sp, &argv, &envp, &auxv);
    assert_eq!(l.env_strs, vec![sp - 4]);
    assert_eq!(l.arg_strs, vec![sp - 4 - 6, sp - 4 - 3]);
    assert_eq!(l.platform_at, sp - 10 - 9);
    assert_eq!(l.random_at, sp - 10 - 9 - 16);
    let top = (l.random_at - 1) & !0xf;
    assert_eq!(l.aux_at, top - 48);
    assert_eq!(l.envp_ptr, l.aux_at - 16);
    assert_eq!(l.argv_ptr, l.envp_ptr - 24);
    assert_eq!(l.sp, l.argv_ptr - 8);
    assert_eq!(l.argc, 2);
    assert_eq!(l.execfn, sp - 6);
    assert_eq!(l.frames, 1);
}
