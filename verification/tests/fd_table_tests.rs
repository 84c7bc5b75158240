use chronix::errno::SysError;
use chronix::fd_table::{FdFlags, FdInfo, FdTable, MAX_FDS};
use chronix::resource::RLimit;
use chronix::sys_fs::{install_file, sys_close, sys_dup, sys_dup3, sys_pipe2, tmp_fd};

#[test]
fn new_table_has_three_standard_descriptors() {
    let t = FdTable::new(7);
    assert_eq!(t.fd_table.len(), 3);
    for fd in 0..3 {
        assert_eq!(t.get_file(fd), Ok(7));
    }
    assert_eq!(t.get_file(3), Err(SysError::EBADF));
    assert_eq!(t.rlimit().rlim_max, MAX_FDS);
}

#[test]
fn alloc_takes_lowest_free_descriptor() {
    let mut t = FdTable::new(7);
    assert_eq!(install_file(&mut t, 10, FdFlags::empty()), Ok(3));
    assert_eq!(install_file(&mut t, 11, FdFlags::empty()), Ok(4));
    assert_eq!(t.remove(1), Ok(()));
    assert_eq!(t.alloc_fd(), Ok(1));
    assert_eq!(tmp_fd(&mut t, 12), Ok(1));
    assert_eq!(t.get_file(1), Ok(12));
}

#[test]
fn close_then_lookup_fails() {
    let mut t = FdTable::new(7);
    assert_eq!(sys_close(&mut t, 2), Ok(0));
    assert_eq!(t.get_file(2), Err(SysError::EBADF));
    assert_eq!(sys_close(&mut t, 2), Err(SysError::EBADF));
    assert_eq!(sys_close(&mut t, 100), Err(SysError::EBADF));
}

#[test]
fn dup_shares_the_file_and_drops_cloexec() {
    let mut t = FdTable::new(7);
    let fd = install_file(&mut t, 20, FdFlags::cloexec()).unwrap();
    let d = sys_dup(&mut t, fd).unwrap() as usize;
    assert_eq!(d, 4);
    assert_eq!(t.get_file(d), Ok(20));
    assert!(!t.get_fd_info(d).unwrap().flags().contains_cloexec());
    assert_eq!(sys_dup(&mut t, 50), Err(SysError::EBADF));
}

#[test]
fn dup3_places_the_file_on_the_asked_descriptor() {
    let mut t = FdTable::new(7);
    let fd = install_file(&mut t, 20, FdFlags::empty()).unwrap();
    assert_eq!(sys_dup3(&mut t, fd, 9, Some(FdFlags::cloexec())), Ok(9));
    assert_eq!(t.get_file(9), Ok(20));
    assert!(t.get_fd_info(9).unwrap().flags().contains_cloexec());
}

#[test]
fn close_on_exec_closes_only_marked_descriptors() {
    let mut t = FdTable::new(7);
    let a = install_file(&mut t, 20, FdFlags::cloexec()).unwrap();
    let b = install_file(&mut t, 21, FdFlags::empty()).unwrap();
    t.do_close_on_exec();
    assert_eq!(t.get_file(a), Err(SysError::EBADF));
    assert_eq!(t.get_file(b), Ok(21));
}

#[test]
fn pipe_ends_take_two_lowest_descriptors() {
    let mut t = FdTable::new(7);
    assert_eq!(t.remove(0), Ok(()));
    assert_eq!(sys_pipe2(&mut t, 30, 31, FdFlags::empty()), Ok((0, 3)));
    assert_eq!(t.get_file(0), Ok(30));
    assert_eq!(t.get_file(3), Ok(31));
}

#[test]
fn table_stops_growing_at_its_limit() {
    let mut t = FdTable::new(7);
    t.set_rlimit(RLimit { rlim_cur: 4, rlim_max: 4 });
    assert_eq!(install_file(&mut t, 40, FdFlags::empty()), Ok(3));
    assert!(install_file(&mut t, 41, FdFlags::empty()).is_err());
    let info = t.get_fd_info(3).unwrap();
    assert_eq!(info, FdInfo { file: 40, flags: FdFlags::empty() });
}

#[test]
fn allocation_from_a_bound_stays_below_the_limit() {
    let mut t = FdTable::new(7);
    t.set_rlimit(RLimit { rlim_cur: 6, rlim_max: 6 });
    // a bound at the limit is refused and the table keeps its size
    assert_eq!(t.alloc_fd_from(6), Err(SysError::EBADF));
    assert_eq!(t.fd_table.len(), 3);
    // the last descriptor below the limit can be had
    assert_eq!(t.alloc_fd_from(5), Ok(5));
    assert_eq!(t.fd_table.len(), 6);
    assert_eq!(t.put_file(5, FdInfo { file: 50, flags: FdFlags::empty() }), Ok(()));
    // nothing free at or above 5 below the limit: EMFILE, table unchanged
    assert_eq!(t.alloc_fd_from(5), Err(SysError::EMFILE));
    assert_eq!(t.fd_table.len(), 6);
    assert_eq!(t.alloc_fd_from(3), Ok(3));
}

#[test]
fn dup3_refuses_descriptors_at_or_above_the_limit() {
    let mut t = FdTable::new(7);
    t.set_rlimit(RLimit { rlim_cur: 8, rlim_max: 8 });
    assert_eq!(sys_dup3(&mut t, 1, 8, Some(FdFlags::empty())), Err(SysError::EBADF));
    assert_eq!(t.fd_table.len(), 3);
    assert_eq!(t.dup3_with_flags(1, 100), Err(SysError::EBADF));
    assert_eq!(t.fd_table.len(), 3);
    assert_eq!(sys_dup3(&mut t, 1, 7, Some(FdFlags::empty())), Ok(7));
    assert_eq!(t.fd_table.len(), 8);
    assert_eq!(t.get_file(7), Ok(7));
}
