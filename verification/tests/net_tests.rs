use chronix::errno::SysError;
use chronix::fd_table::FdTable;
use chronix::net::{
    sys_getsockopt, sys_listen, sys_setsockopt, sys_shutdown, sys_socket, sys_socketpair,
    IpOption, SockKind, SocketLevel, SocketOption, SocketSettings, SocketType, TcpSocketOption,
};
use chronix::time::TimeSpec;

fn tcp() -> SocketSettings {
    SocketSettings {
        kind: SockKind::Tcp,
        has_handle: true,
        reuse_addr: false,
        dont_route: false,
        send_buf_size: 0,
        recv_buf_size: 0,
        keep_alive_secs: None,
        timeout: None,
        ttl: 0,
        nagle_enabled: true,
        congestion: String::from("cubic"),
    }
}

#[test]
fn socket_arguments_are_checked() {
    assert_eq!(sys_socket(0, 1, Ok(())), Err(SysError::EAFNOSUPPORT));
    assert_eq!(sys_socket(256, 1, Ok(())), Err(SysError::EAFNOSUPPORT));
    assert_eq!(sys_socket(2, 1, Err(SysError::EINVAL)), Err(SysError::EINVAL));
    assert_eq!(sys_socket(2, 3, Ok(())), Err(SysError::EINVAL));
    assert_eq!(sys_socket(2, 5, Ok(())), Err(SysError::EPROTONOSUPPORT));
    let r = sys_socket(2, 1 | 0x800 | 0x80000, Ok(())).unwrap();
    assert_eq!(r.sk_type, SocketType::STREAM);
    assert!(r.nonblock && r.cloexec);
    let r = sys_socket(2, 2, Ok(())).unwrap();
    assert_eq!(r.sk_type, SocketType::DGRAM);
    assert!(!r.nonblock && !r.cloexec);
}

#[test]
fn negative_descriptors_are_bad() {
    let t = FdTable::new(7);
    assert_eq!(sys_listen(&t, usize::MAX, 5), Err(SysError::EBADF));
    assert_eq!(sys_listen(&t, 1, 5), Ok(7));
    assert_eq!(sys_listen(&t, 9, 5), Err(SysError::EBADF));
    assert_eq!(sys_shutdown(&t, 2, 258), Ok((7, 2)));
}

#[test]
fn option_numbers() {
    assert_eq!(SocketLevel::try_from(6), Ok(SocketLevel::IpprotoTcp));
    assert_eq!(SocketLevel::try_from(7), Err(SysError::EINVAL));
    assert_eq!(SocketOption::try_from(7), Ok(SocketOption::SNDBUF));
    assert_eq!(SocketOption::try_from(99), Ok(SocketOption::DEBUG));
    assert_eq!(TcpSocketOption::try_from(13), Ok(TcpSocketOption::CONGESTION));
    assert_eq!(TcpSocketOption::try_from(3), Err(SysError::EINVAL));
    assert_eq!(IpOption::try_from(45), Ok(IpOption::MCAST_LEAVE_GROUP));
    assert_eq!(SocketType::try_from(10), Ok(SocketType::PACKET));
}

#[test]
fn reuse_address_reads_back() {
    let mut s = tcp();
    assert_eq!(SocketOption::REUSEADDR.set(&mut s, &[1, 0, 0, 0]), Ok(0));
    assert!(s.reuse_addr);
    let mut buf = vec![9u8; 6];
    let mut len: u32 = 6;
    assert_eq!(SocketOption::REUSEADDR.get(&s, &mut buf, &mut len), Ok(()));
    assert_eq!(buf, vec![1, 0, 0, 0, 9, 9]);
    assert_eq!(len, 4);
    let mut short: u32 = 3;
    assert_eq!(SocketOption::REUSEADDR.get(&s, &mut buf, &mut short), Err(SysError::EINVAL));
    assert_eq!(SocketOption::REUSEADDR.set(&mut s, &[1, 0]), Err(SysError::EINVAL));
}

#[test]
fn buffer_sizes_read_back() {
    let mut s = tcp();
    assert_eq!(SocketOption::SNDBUF.set(&mut s, &[0x00, 0x10, 0, 0]), Ok(0));
    assert_eq!(s.send_buf_size, 4096);
    let mut buf = vec![0u8; 8];
    let mut len: u32 = 0;
    assert_eq!(SocketOption::SNDBUF.get(&s, &mut buf, &mut len), Ok(()));
    assert_eq!(buf, vec![0, 0x10, 0, 0, 0, 0, 0, 0]);
    assert_eq!(len, 4);
    assert_eq!(SocketOption::SNDBUFFORCE.set(&mut s, &[0xff, 0xff, 0xff, 0xff]), Ok(0));
    assert_eq!(s.send_buf_size, 0x7fff_ffff);
    assert_eq!(SocketOption::RCVBUF.set(&mut s, &[0xff, 0xff, 0xff, 0xff]), Ok(0));
    assert_eq!(s.recv_buf_size, usize::MAX);
}

#[test]
fn keep_alive_and_timeout() {
    let mut s = tcp();
    assert_eq!(SocketOption::KEEPALIVE.set(&mut s, &[1, 0, 0, 0]), Ok(0));
    assert_eq!(s.keep_alive_secs, Some(60));
    assert_eq!(s.recv_buf_size, 1);
    let mut buf = vec![0u8; 4];
    let mut len: u32 = 4;
    assert_eq!(SocketOption::KEEPALIVE.get(&s, &mut buf, &mut len), Ok(()));
    assert_eq!(buf, vec![0, 0, 0, 0]);
    let mut t = Vec::new();
    t.extend_from_slice(&3u64.to_le_bytes());
    t.extend_from_slice(&5u64.to_le_bytes());
    assert_eq!(SocketOption::RcvtimeoOld.set(&mut s, &t), Ok(0));
    assert_eq!(s.timeout, Some(TimeSpec { tv_sec: 3, tv_nsec: 5 }));
    let mut out = vec![0u8; 16];
    let mut len: u32 = 16;
    assert_eq!(SocketOption::RcvtimeoOld.get(&s, &mut out, &mut len), Ok(()));
    assert_eq!(out, t);
    assert_eq!(SocketOption::RcvtimeoOld.set(&mut s, &t[..8]), Err(SysError::EINVAL));
}

#[test]
fn tcp_options() {
    let mut s = tcp();
    assert_eq!(TcpSocketOption::NODELAY.set(&mut s, &[0, 0, 0, 1]), Ok(0));
    assert!(!s.nagle_enabled);
    let mut buf = vec![0u8; 4];
    let mut len: u32 = 4;
    assert_eq!(TcpSocketOption::NODELAY.get(&s, &mut buf, &mut len), Ok(()));
    assert_eq!(buf, vec![1, 0, 0, 0]);
    assert_eq!(TcpSocketOption::CONGESTION.set(&mut s, b"reno"), Ok(0));
    assert_eq!(s.congestion, "reno");
    let mut name = vec![0u8; 4];
    let mut len: u32 = 0;
    assert_eq!(TcpSocketOption::CONGESTION.get(&s, &mut name, &mut len), Ok(()));
    assert_eq!(name, b"reno".to_vec());
    assert_eq!(len, 4);
    let mut seg = vec![0u8; 8];
    assert_eq!(TcpSocketOption::MAXSEG.get(&s, &mut seg, &mut len), Ok(()));
    assert_eq!(seg, 1500u64.to_le_bytes().to_vec());
    assert_eq!(len, 8);
}

#[test]
fn setsockopt_dispatches_by_level() {
    let mut s = tcp();
    assert_eq!(sys_setsockopt(5, 1, &mut s, &[1, 0, 0, 0]), Err(SysError::ENOPROTOOPT));
    assert_eq!(sys_setsockopt(0, 99, &mut s, &[1, 0, 0, 0]), Err(SysError::ENOPROTOOPT));
    assert_eq!(sys_setsockopt(0, 45, &mut s, &[]), Err(SysError::EADDRNOTAVAIL));
    assert_eq!(sys_setsockopt(0, 33, &mut s, &[4]), Err(SysError::EINVAL));
    assert_eq!(sys_setsockopt(1, 2, &mut s, &[1, 0, 0, 0]), Ok(0));
    assert!(s.reuse_addr);
    assert_eq!(sys_setsockopt(6, 3, &mut s, &[1, 0, 0, 0]), Err(SysError::ENOPROTOOPT));
    assert_eq!(sys_setsockopt(41, 4, &mut s, &[]), Ok(0));
    assert_eq!(sys_setsockopt(41, 5, &mut s, &[]), Err(SysError::ENOPROTOOPT));
    let mut u = tcp();
    u.kind = SockKind::Udp;
    assert_eq!(sys_setsockopt(0, 33, &mut u, &[4]), Ok(0));
    assert_eq!(u.ttl, 4);
}

#[test]
fn getsockopt_reports_fixed_values() {
    assert_eq!(sys_getsockopt(3, 1, 7), Ok(Some((vec![0, 0, 1, 0], 4))));
    assert_eq!(sys_getsockopt(3, 1, 4), Ok(Some((vec![0, 0, 0, 0], 4))));
    assert_eq!(sys_getsockopt(3, 1, 9), Ok(None));
    assert_eq!(sys_getsockopt(3, 6, 2), Ok(Some((vec![0xb4, 0x05, 0, 0], 4))));
    assert_eq!(sys_getsockopt(3, 0, 13), Ok(Some((b"reno\0".to_vec(), 4))));
    assert_eq!(sys_getsockopt(3, 6, 3), Err(SysError::EINVAL));
    assert_eq!(sys_getsockopt(3, 41, 3), Ok(None));
    assert_eq!(sys_getsockopt(3, 2, 3), Err(SysError::EINVAL));
}

#[test]
fn socketpair_installs_two_descriptors() {
    let mut t = FdTable::new(7);
    assert_eq!(sys_socketpair(&mut t, 20, 21), Ok((3, 4)));
    assert_eq!(t.get_file(3), Ok(20));
    assert_eq!(t.get_file(4), Ok(21));
}
