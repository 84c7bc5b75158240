use chronix::duration::Duration;
use chronix::errno::SysError;
use chronix::fd_table::{FdTable, MAX_FDS};
use chronix::futex::{
    handle_futex_death, robust_entry, sys_get_robust_list, sys_set_robust_list, FutexDeath, FUTEX_OWNER_DIED,
    FUTEX_WAITERS, ROBUST_LIST_HEAD_SIZE,
};
use chronix::mq::{
    map_mq_error, mq_name_check, sys_mq_open, sys_mq_unlink, MqAttr, MqError, MqOpen, MqRegistry, O_CREAT, O_EXCL,
    O_NONBLOCK,
};
use chronix::net::{hostname_check, sys_getpeername, sys_getsockname};
use chronix::resource::RLimit;
use chronix::sys_time::{abs_timespec_to_rel_timeout, sys_prlimit64};
use chronix::tid::{TidAllocator, TidHandle};
use chronix::time::TimeSpec;

#[test]
fn tids_count_up_then_reuse_last_freed() {
    let mut a = TidAllocator::new();
    assert_eq!(a.alloc_tid(), TidHandle(0));
    assert_eq!(a.alloc_tid(), TidHandle(1));
    assert_eq!(a.alloc_tid(), TidHandle(2));
    a.dealloc(0);
    a.dealloc(2);
    assert_eq!(a.alloc_tid(), TidHandle(2));
    assert_eq!(a.alloc_tid(), TidHandle(0));
    assert_eq!(a.alloc_tid(), TidHandle(3));
}

#[test]
fn mq_errors_map_to_errno() {
    assert_eq!(map_mq_error(MqError::TimedOut), SysError::ETIMEOUT);
    assert_eq!(map_mq_error(MqError::MsgTooBig), SysError::EMSGSIZE);
    assert_eq!(map_mq_error(MqError::WouldBlock), SysError::EAGAIN);
    assert_eq!(map_mq_error(MqError::InvalidHandle), SysError::EBADF);
    assert_eq!(map_mq_error(MqError::PermissionDenied), SysError::EACCES);
}

#[test]
fn mq_names_are_checked() {
    assert_eq!(mq_name_check("/queue"), Ok(()));
    assert_eq!(mq_name_check(""), Err(SysError::EINVAL));
    assert_eq!(mq_name_check("/a/b"), Err(SysError::EINVAL));
    let long = "q".repeat(256);
    assert_eq!(mq_name_check(&long), Err(SysError::ENAMETOOLONG));
    let just = "q".repeat(255);
    assert_eq!(mq_name_check(&just), Ok(()));
}

#[test]
fn mq_open_create_and_find() {
    let mut reg = MqRegistry::new();
    let given = MqAttr { mq_flags: 0, mq_maxmsg: 4, mq_msgsize: 64 };
    assert_eq!(sys_mq_open(&reg, "/q", O_CREAT, 5, Some(Ok(given))), Ok(MqOpen::Create(given)));
    assert_eq!(
        sys_mq_open(&reg, "/q", O_CREAT | O_NONBLOCK, 5, None),
        Ok(MqOpen::Create(MqAttr { mq_flags: O_NONBLOCK as i64, mq_maxmsg: 10, mq_msgsize: 256 }))
    );
    assert_eq!(sys_mq_open(&reg, "/q", O_CREAT, 5, Some(Err(SysError::EFAULT))), Err(SysError::EFAULT));
    assert_eq!(sys_mq_open(&reg, "/q", 0, 5, None), Err(SysError::ENOENT));
    reg.insert("/q", 5, 40);
    assert_eq!(sys_mq_open(&reg, "/q", 0, 5, None), Ok(MqOpen::Existing(40)));
    assert_eq!(sys_mq_open(&reg, "/q", 0, 0, None), Ok(MqOpen::Existing(40)));
    assert_eq!(sys_mq_open(&reg, "/q", 0, 6, None), Err(SysError::EACCES));
    assert_eq!(sys_mq_open(&reg, "/q", O_CREAT, 6, None), Err(SysError::EACCES));
    assert_eq!(sys_mq_open(&reg, "/q", O_CREAT | O_EXCL, 5, None), Err(SysError::EEXIST));
    assert_eq!(sys_mq_open(&reg, "/q", O_CREAT, 5, None), Ok(MqOpen::Existing(40)));
}

#[test]
fn mq_unlink_removes_only_for_owner() {
    let mut reg = MqRegistry::new();
    reg.insert("/a", 5, 1);
    reg.insert("/b", 6, 2);
    assert_eq!(sys_mq_unlink(&mut reg, "/a", 6), Err(SysError::EACCES));
    assert_eq!(sys_mq_unlink(&mut reg, "/c", 0), Err(SysError::ENOENT));
    let long = "q".repeat(256);
    assert_eq!(sys_mq_unlink(&mut reg, &long, 0), Err(SysError::ENAMETOOLONG));
    assert_eq!(sys_mq_unlink(&mut reg, "/a", 5), Ok(0));
    assert_eq!(sys_mq_open(&reg, "/a", 0, 5, None), Err(SysError::ENOENT));
    assert_eq!(sys_mq_open(&reg, "/b", 0, 6, None), Ok(MqOpen::Existing(2)));
    assert_eq!(sys_mq_unlink(&mut reg, "/b", 0), Ok(0));
    assert_eq!(sys_mq_open(&reg, "/b", 0, 0, None), Err(SysError::ENOENT));
}

#[test]
fn robust_list_heads() {
    assert_eq!(sys_set_robust_list(0x1000, ROBUST_LIST_HEAD_SIZE), Ok(0x1000));
    assert_eq!(sys_set_robust_list(0x1000, 16), Err(SysError::EINVAL));
    assert_eq!(sys_get_robust_list(0, 0x2000, None), Ok((0x2000, 24)));
    assert_eq!(sys_get_robust_list(7, 0x2000, Some(0x3000)), Ok((0x3000, 24)));
    assert_eq!(sys_get_robust_list(7, 0x2000, None), Err(SysError::ESRCH));
    assert_eq!(robust_entry(0x1001), (0x1000, true));
    assert_eq!(robust_entry(0x1000), (0x1000, false));
}

#[test]
fn futex_word_of_dead_owner() {
    assert_eq!(handle_futex_death(0, 9, false, true), FutexDeath::Wake);
    assert_eq!(handle_futex_death(5, 9, false, false), FutexDeath::Leave);
    assert_eq!(handle_futex_death(9, 9, false, false), FutexDeath::Store { new: FUTEX_OWNER_DIED, wake: false });
    assert_eq!(
        handle_futex_death(9 | FUTEX_WAITERS, 9, false, false),
        FutexDeath::Store { new: FUTEX_WAITERS | FUTEX_OWNER_DIED, wake: true }
    );
    assert_eq!(
        handle_futex_death(9 | FUTEX_WAITERS, 9, true, false),
        FutexDeath::Store { new: FUTEX_WAITERS | FUTEX_OWNER_DIED, wake: false }
    );
    assert_eq!(handle_futex_death(0, 9, true, true), FutexDeath::Leave);
}

#[test]
fn prlimit_reads_and_sets() {
    let mut t = FdTable::new(1);
    assert_eq!(sys_prlimit64(&mut t, 99, true, None, 8192), Err(SysError::EINVAL));
    assert_eq!(
        sys_prlimit64(&mut t, 3, true, None, 8192),
        Ok(Some(RLimit { rlim_cur: 8192, rlim_max: 8192 }))
    );
    assert_eq!(
        sys_prlimit64(&mut t, 7, true, Some(RLimit { rlim_cur: 64, rlim_max: 128 }), 8192),
        Ok(Some(RLimit { rlim_cur: MAX_FDS, rlim_max: MAX_FDS }))
    );
    assert_eq!(t.rlimit, RLimit { rlim_cur: 64, rlim_max: 128 });
    assert_eq!(sys_prlimit64(&mut t, 0, true, None, 8192), Ok(Some(RLimit { rlim_cur: 0, rlim_max: 0 })));
    assert_eq!(sys_prlimit64(&mut t, 0, false, None, 8192), Ok(None));
}

#[test]
fn absolute_timeouts_become_relative() {
    let now = Duration::new(10, 0);
    let later = TimeSpec { tv_sec: 12, tv_nsec: 500 };
    assert_eq!(abs_timespec_to_rel_timeout(later, now), Some(Duration::new(2, 500)));
    let past = TimeSpec { tv_sec: 3, tv_nsec: 0 };
    assert_eq!(abs_timespec_to_rel_timeout(past, now), Some(Duration::zero()));
}

#[test]
fn socket_names_and_hostname_checks() {
    let t = FdTable::new(4);
    assert_eq!(sys_getsockname(&t, 1, 0x100, 16), Ok(4));
    assert_eq!(sys_getsockname(&t, 1, 0, 16), Err(SysError::EFAULT));
    assert_eq!(sys_getsockname(&t, 9, 0x100, 16), Err(SysError::EBADF));
    assert_eq!(sys_getsockname(&t, usize::MAX, 0x100, 16), Err(SysError::EBADF));
    assert_eq!(sys_getpeername(&t, 2, 0, 0), Ok(4));
    assert_eq!(sys_getpeername(&t, 5, 0, 0), Err(SysError::EBADF));
    assert_eq!(hostname_check(0x100, 10), Ok(()));
    assert_eq!(hostname_check(0x100, 65), Err(SysError::EINVAL));
    assert_eq!(hostname_check(0, 10), Err(SysError::EFAULT));
}
