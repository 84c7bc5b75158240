use chronix::time::TimeVal;
use chronix::user_lib::{
    get_time_ms, open, parse_ipv4, sigaction, sleep, wait, wait_retry, waitpid, CloneFlags,
    OpenFlags, SignalAction, SockaddrIn, thread_create, execve, AF_INET, AT_FDCWD,
};
use chronix::user_syscall::{sys_read, sys_sendto, sys_exit, SYSCALL_READ, SYSCALL_OPENAT, SYSCALL_WAITPID, SYSCALL_CLONE, SYSCALL_SENDTO, SYSCALL_SIGACTION, SYSCALL_EXIT};

#[test]
fn requests_carry_number_and_arguments() {
    let r = sys_read(3, 0x1000, 64);
    assert_eq!(r.id, SYSCALL_READ);
    assert_eq!(r.args, [3, 0x1000, 64, 0, 0, 0]);
    let r = open(0x2000, OpenFlags { bits: 1 << 9 });
    assert_eq!(r.id, SYSCALL_OPENAT);
    assert_eq!(r.args, [AT_FDCWD as usize, 0x2000, 1 << 9, 0, 0, 0]);
    let r = sys_sendto(-1, 1, 2, -2, 3, 4);
    assert_eq!(r.id, SYSCALL_SENDTO);
    assert_eq!(r.args, [usize::MAX, 1, 2, usize::MAX - 1, 3, 4]);
    let r = sys_exit(-1);
    assert_eq!(r.id, SYSCALL_EXIT);
    assert_eq!(r.args[0], usize::MAX);
    let r = thread_create(CloneFlags { bits: 0x100 }, 0x8000);
    assert_eq!(r.id, SYSCALL_CLONE);
    assert_eq!(r.args, [0x100, 0x8000, 0, 0, 0, 0]);
    let r = sigaction(2, Some(0x10), None);
    assert_eq!(r.id, SYSCALL_SIGACTION);
    assert_eq!(r.args, [2, 0x10, 0, 0, 0, 0]);
}

#[test]
fn waiting_retries_only_on_minus_two() {
    assert_eq!(wait(0x40).id, SYSCALL_WAITPID);
    assert_eq!(wait(0x40).args[0], usize::MAX);
    assert_eq!(waitpid(5, 0x40).args[0], 5);
    assert_eq!(wait_retry(-2), None);
    assert_eq!(wait_retry(7), Some(7));
    assert_eq!(wait_retry(-1), Some(-1));
}

#[test]
fn time_in_milliseconds() {
    assert_eq!(get_time_ms(0, TimeVal { sec: 2, usec: 345_678 }), 2345);
    assert_eq!(get_time_ms(-14, TimeVal { sec: 2, usec: 0 }), -14);
    assert!(sleep(100, 150, 100));
    assert!(!sleep(100, 200, 100));
}

#[test]
fn dotted_addresses() {
    assert_eq!(parse_ipv4("192.168.1.2"), Some(0xc0a8_0102));
    assert_eq!(parse_ipv4("10.0.0.1"), Some(0x0a00_0001));
    assert_eq!(parse_ipv4("+1.2.3.4"), Some(0x0102_0304));
    assert_eq!(parse_ipv4("007.0.0.0"), Some(0x0700_0000));
    assert_eq!(parse_ipv4("1.2"), Some(0x0102_0000));
    assert_eq!(parse_ipv4("256.0.0.1"), None);
    assert_eq!(parse_ipv4("1..2.3"), None);
    assert_eq!(parse_ipv4(""), None);
    assert_eq!(parse_ipv4("a.b.c.d.e"), None);
    assert_eq!(parse_ipv4("1.2.3.-4"), None);
}

#[test]
fn socket_addresses_and_defaults() {
    let a = SockaddrIn::new(0x7f00_0001, 80);
    assert_eq!(a.sin_family, AF_INET);
    assert_eq!(a.sin_port, 80);
    assert_eq!(a.sin_addr, 0x7f00_0001);
    assert_eq!(a.sin_zero, [0; 8]);
    let d = SignalAction::default();
    assert_eq!(d.handler, 0);
    assert_eq!(d.mask.bits, 0);
    let (argv, envp) = execve(&vec![1, 2], &vec![]);
    assert_eq!(argv, vec![1, 2, 0]);
    assert_eq!(envp, vec![0]);
}
