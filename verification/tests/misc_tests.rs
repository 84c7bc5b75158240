use chronix::auxv::{align16, generate_early_auxv, push_aux, push_str, push_usize, AuxHeader, AT_CLKTCK, AT_ENTRY, AT_PAGESZ, AT_PHENT};
use chronix::bytes::{read_u32_be, read_u32_le, read_u64_le, write_le};
use chronix::cap::Capability;
use chronix::env::{EnvContext, SumGuard};
use chronix::errno::SysError;
use chronix::fd_table::{FdFlags, FdTable};
use chronix::io::{sys_epoll_create, sys_epoll_create1, EPollEvent, EPollEvents, EPollInstance, FdSet};
use chronix::poll::{pselect_polls, pselect_result, ppoll_polls, ppoll_result, ready_events, PollFd, POLLHUP, POLLIN, POLLNVAL, POLLOUT};
use chronix::range_set::RangeSet;
use chronix::resource::{RLimit, Resource, RLIM_INFINITY};
use chronix::round::{round_down_to_page, round_up_to_page};
use chronix::sys_task::{sys_getpgid, sys_getppid, sys_get_priority, sys_set_priority, sys_waitpid, ChildInfo, TaskIds, WaitDecision, WNOHANG};
use chronix::uts::{sys_getdomainname, sys_setdomainname, sys_uname, setdomainname_check, UtsManager};

#[test]
fn errno_codes() {
    assert_eq!(SysError::EPERM.code(), 1);
    assert_eq!(SysError::EBADF.code(), 9);
    assert_eq!(SysError::EMFILE.code(), 24);
    assert_eq!(SysError::from_i32(9), SysError::EBADF);
    assert_eq!(SysError::from_i32(SysError::EINVAL.code() as i32), SysError::EINVAL);
}

#[test]
fn pages() {
    assert_eq!(round_down_to_page(0x1fff), 0x1000);
    assert_eq!(round_down_to_page(0x1000), 0x1000);
    assert_eq!(round_up_to_page(0x1001), 0x2000);
    assert_eq!(round_up_to_page(0), 0);
}

#[test]
fn bytes_round_trip() {
    let b = write_le(0x1234_5678, 4);
    assert_eq!(b, vec![0x78, 0x56, 0x34, 0x12]);
    assert_eq!(read_u32_le(&b), 0x1234_5678);
    assert_eq!(read_u32_be(&b), 0x7856_3412);
    let w = write_le(0x0102_0304_0506_0708, 8);
    assert_eq!(read_u64_le(&w, 0), 0x0102_0304_0506_0708);
    assert_eq!(write_le(0x1ff, 1), vec![0xff]);
}

#[test]
fn auxiliary_vector() {
    let v = generate_early_auxv(56, 9, 0x10000);
    assert_eq!(v.len(), 13);
    assert_eq!(v[0], AuxHeader::new(AT_PHENT, 56));
    assert_eq!(v[2], AuxHeader::new(AT_PAGESZ, 4096));
    assert_eq!(v[4], AuxHeader::new(AT_ENTRY, 0x10000));
    assert_eq!(v[11], AuxHeader::new(AT_CLKTCK, 100));
}

#[test]
fn user_stack_pushes() {
    let mut sp: usize = 0x1000;
    align16(&mut sp);
    assert_eq!(sp, 0xff0);
    let mut sp2: usize = 0x1001;
    align16(&mut sp2);
    assert_eq!(sp2, 0x1000);
    let (at, bytes) = push_str(&mut sp, b"sh");
    assert_eq!((at, sp), (0xfed, 0xfed));
    assert_eq!(bytes, b"sh\0".to_vec());
    let b = push_usize(&mut sp, 0xabcd);
    assert_eq!(sp, 0xfe5);
    assert_eq!(b, 0xabcdu64.to_le_bytes().to_vec());
    let a = push_aux(&mut sp, &AuxHeader::new(6, 4096));
    assert_eq!(sp, 0xfd5);
    assert_eq!(a.len(), 16);
    assert_eq!(a[0], 6);
    assert_eq!(a[9], 0x10);
}

#[test]
fn user_memory_permission() {
    let mut env = EnvContext::new();
    assert!(!env.auto_sum());
    let (g, set) = SumGuard::new(&mut env);
    assert!(set);
    assert!(env.auto_sum());
    assert!(!env.sum_inc());
    assert!(g.release(&mut env));
    assert!(!env.auto_sum());
    assert!(!env.sum_dec());
}

#[test]
fn capabilities() {
    assert_eq!(Capability::from_u32(0).map(|c| c.value()), Some(0));
    assert_eq!(Capability::from_u32(40).map(|c| c.value()), Some(40));
    assert!(Capability::from_u32(41).is_none());
    assert!(Capability::is_valid(40));
    assert!(!Capability::is_valid(41));
    assert_eq!(Capability::all().len(), 41);
}

#[test]
fn resources() {
    assert_eq!(Resource::from_repr(7), Some(Resource::NOFILE));
    assert_eq!(Resource::from_repr(16), None);
    assert_eq!(RLimit::new(5), RLimit { rlim_cur: 5, rlim_max: RLIM_INFINITY });
}

#[test]
fn range_set_insert_and_remove() {
    let mut s = RangeSet::new(0..16);
    assert!(!s.intersects(0..16));
    s.insert(2..5);
    assert!(s.contains(2..5));
    assert!(s.contains(3..4));
    assert!(!s.contains(0..3));
    assert!(s.intersects(4..10));
    assert!(!s.intersects(5..16));
    s.remove(2..5);
    assert!(!s.intersects(0..16));
}

#[test]
fn uts_names() {
    let mut u = UtsManager::new();
    let n = sys_uname(&u);
    assert_eq!(&n.sysname[..6], b"Linux\0");
    assert_eq!(sys_getdomainname(&u, 10), b"localhost\0".to_vec());
    assert_eq!(setdomainname_check(0x1000, 65), Err(SysError::EINVAL));
    assert_eq!(setdomainname_check(0, 5), Err(SysError::EFAULT));
    assert_eq!(setdomainname_check(0x1000, 5), Ok(()));
    assert_eq!(sys_setdomainname(&mut u, b"chronix".to_vec()), Ok(0));
    assert_eq!(sys_getdomainname(&u, 9), b"chronix\0\0".to_vec());
    assert_eq!(sys_setdomainname(&mut u, vec![0xff]), Err(SysError::EINVAL));
    assert_eq!(sys_getdomainname(&u, 7), b"chronix".to_vec());
}

#[test]
fn epoll_descriptors() {
    let mut t = FdTable::new(7);
    assert_eq!(sys_epoll_create(&mut t, -1, 50), Err(SysError::EINVAL));
    assert_eq!(sys_epoll_create(&mut t, 1, 50), Ok(3));
    assert_eq!(sys_epoll_create1(&mut t, 3, 51), Err(SysError::EINVAL));
    assert_eq!(sys_epoll_create1(&mut t, 0o2000000, 51), Ok(4));
    assert!(t.get_fd_info(4).unwrap().flags().contains_cloexec());
    let mut e = EPollInstance::new(FdFlags::empty());
    let ev = EPollEvent { events: EPollEvents { bits: 1 }, data: 9 };
    assert_eq!(e.add(3, ev, 50), Ok(()));
    assert_eq!(e.add(3, ev, 50), Err(SysError::EEXIST));
    assert_eq!(e.modify(4, ev), Err(SysError::ENOENT));
    assert_eq!(e.remove(3), Ok(()));
    assert_eq!(e.remove(3), Err(SysError::ENOENT));
    let mut out = [ev; 2];
    assert_eq!(e.get_ready(&mut out), 0);
}

#[test]
fn fd_sets() {
    let mut s = FdSet::new();
    assert!(!s.is_set(65));
    s.mark_fd(65);
    s.mark_fd(1023);
    assert!(s.is_set(65) && s.is_set(1023) && !s.is_set(64));
    s.clear();
    assert!(!s.is_set(65));
}

#[test]
fn select_polls_and_results() {
    let t = FdTable::new(7);
    let mut rd = FdSet::new();
    rd.mark_fd(0);
    let mut wr = FdSet::new();
    wr.mark_fd(0);
    wr.mark_fd(2);
    assert_eq!(pselect_polls(&t, 3, Some(rd), Some(wr)), Ok(vec![(0, POLLIN | POLLOUT, 7), (2, POLLOUT, 7)]));
    assert_eq!(pselect_polls(&t, -1, Some(rd), None), Err(SysError::EINVAL));
    wr.mark_fd(5);
    assert_eq!(pselect_polls(&t, 6, None, Some(wr)), Err(SysError::EBADF));
    let ready = ready_events(&vec![(0, POLLIN | POLLOUT), (2, 0), (1, POLLHUP)]).unwrap();
    assert_eq!(ready, vec![(0, POLLIN | POLLOUT), (1, POLLHUP)]);
    assert_eq!(ready_events(&vec![(0, 0)]), None);
    let (r, w, n) = pselect_result(&ready, Some(rd), Some(wr));
    assert_eq!(n, 3);
    let r = r.unwrap();
    let w = w.unwrap();
    assert!(r.is_set(0) && r.is_set(1) && !r.is_set(2));
    assert!(w.is_set(0) && !w.is_set(1) && !w.is_set(5));
}

#[test]
fn ppoll_marks_bad_descriptors() {
    let t = FdTable::new(7);
    let mut fds = vec![
        PollFd { fd: 1, events: POLLIN, revents: 0 },
        PollFd { fd: -1, events: POLLIN, revents: 0 },
        PollFd { fd: 2, events: POLLOUT, revents: 0 },
    ];
    assert_eq!(ppoll_polls(&t, &mut fds), vec![(POLLIN, 7), (POLLOUT, 7)]);
    assert_eq!(fds[1].revents, POLLNVAL);
    assert_eq!(fds[0].revents, 0);
    assert_eq!(ppoll_result(&mut fds, &vec![(1, POLLOUT)]), 1);
    assert_eq!(fds[1].revents, POLLNVAL | POLLOUT);
}

#[test]
fn waitpid_decisions() {
    let kids = [
        ChildInfo { pid: 10, pgid: 5, zombie: false, threads: 1 },
        ChildInfo { pid: 11, pgid: 7, zombie: true, threads: 1 },
        ChildInfo { pid: 12, pgid: 5, zombie: true, threads: 2 },
    ];
    assert_eq!(sys_waitpid(&kids, -1, 0, 5), Ok(WaitDecision::Reap(1)));
    assert_eq!(sys_waitpid(&kids, 10, WNOHANG, 5), Ok(WaitDecision::NoHang));
    assert_eq!(sys_waitpid(&kids, 10, 0, 5), Ok(WaitDecision::Block));
    assert_eq!(sys_waitpid(&kids, 11, 0, 5), Ok(WaitDecision::Reap(1)));
    // the caller's own group (5): nobody reapable yet
    assert_eq!(sys_waitpid(&kids, 0, WNOHANG, 5), Ok(WaitDecision::NoHang));
    // group 7, named as -7
    assert_eq!(sys_waitpid(&kids, -7, 0, 5), Ok(WaitDecision::Reap(1)));
    assert_eq!(sys_waitpid(&kids, 0, 0, 7), Ok(WaitDecision::Reap(1)));
    // no child, no such child, no child in the group: ECHILD (-10)
    assert_eq!(sys_waitpid(&[], -1, 0, 5), Err(SysError::ECHILD));
    assert_eq!(sys_waitpid(&kids, 99, 0, 5), Err(SysError::ECHILD));
    assert_eq!(sys_waitpid(&kids, -9, 0, 5), Err(SysError::ECHILD));
}

#[test]
fn task_ids_and_priorities() {
    let t = TaskIds { pid: 5, tid: 6, pgid: 5, ppid: None };
    assert_eq!(sys_getppid(&t, 1), Ok(1));
    assert_eq!(sys_getpgid(&t, 0, None), Ok(5));
    assert_eq!(sys_getpgid(&t, 9, None), Err(SysError::ESRCH));
    assert_eq!(sys_set_priority(0, -30), Ok(Some(0)));
    assert_eq!(sys_set_priority(0, 5), Ok(Some(25)));
    assert_eq!(sys_set_priority(2, 5), Ok(None));
    assert_eq!(sys_set_priority(3, 5), Err(SysError::EINVAL));
    assert_eq!(sys_get_priority(0, &[25]), Ok(15));
    assert_eq!(sys_get_priority(1, &[25, 30]), Ok(15));
}
