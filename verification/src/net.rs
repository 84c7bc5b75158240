//! Socket system calls: argument checks, and the socket options as they
//! read and change a socket's settings. Option values travel as bytes in
//! the target's (little-endian) order unless said otherwise.

use vstd::prelude::*;
use crate::errno::{SysError, SysResult};
use crate::fd_table::{FdTable, FileId, FdFlags, FdInfo, slot_used};
use crate::sys_fs::{install_spec, sys_pipe2};
use crate::time::TimeSpec;
use crate::bytes::{le_u32, be_u32, le_u64, le_bytes, read_u32_le, read_u32_be, read_u64_le, write_le, copy_prefix};
use crate::uts::string_from_utf8;
use vstd::utf8::{valid_utf8, decode_utf8, encode_utf8};

verus! {

/// Socket types.
#[derive(Clone, Copy, Debug, PartialEq, Eq, Structural)]
#[allow(non_camel_case_types)]
pub enum SocketType {
    /// TCP
    STREAM,
    /// UDP
    DGRAM,
    /// Raw IP
    RAW,
    /// RDM
    RDM,
    /// Seq Packet
    SEQPACKET,
    /// DCCP
    DCCP,
    /// Packet
    PACKET,
}

impl SocketType {
    /// The number of the type in the `socket` interface.
    pub open spec fn spec_number(self) -> int {
        match self {
            SocketType::STREAM => 1,
            SocketType::DGRAM => 2,
            SocketType::RAW => 3,
            SocketType::RDM => 4,
            SocketType::SEQPACKET => 5,
            SocketType::DCCP => 6,
            SocketType::PACKET => 10,
        }
    }

    /// The type numbered `value`; raw sockets (3) and unknown numbers are
    /// `EINVAL`.
    pub fn try_from(value: i32) -> (r: Result<Self, SysError>)
        ensures
            (value == 1 || value == 2 || value == 4 || value == 5 || value == 6 || value == 10)
                <==> r is Ok,
            r matches Ok(t) ==> t.spec_number() == value,
            r is Err ==> r == Err::<Self, SysError>(SysError::EINVAL),
    {
        match value {
            1 => Ok(SocketType::STREAM),
            2 => Ok(SocketType::DGRAM),
            4 => Ok(SocketType::RDM),
            5 => Ok(SocketType::SEQPACKET),
            6 => Ok(SocketType::DCCP),
            10 => Ok(SocketType::PACKET),
            _ => Err(SysError::EINVAL),
        }
    }
}

/// Set O_NONBLOCK flag on the open fd
pub const SOCK_NONBLOCK: i32 = 0x800;

/// Set FD_CLOEXEC flag on the new fd
pub const SOCK_CLOEXEC: i32 = 0x80000;

/// What a new socket is made with.
#[derive(Clone, Copy, Debug, PartialEq, Eq, Structural)]
pub struct SocketRequest {
    /// Its type.
    pub sk_type: SocketType,
    /// Whether it does not block.
    pub nonblock: bool,
    /// Whether its descriptor is closed on exec.
    pub cloexec: bool,
}

/// syscall socket, up to making the socket: the domain must be 1 to 255 and
/// a known address family (`family`, the outcome of that conversion); the
/// type, without `SOCK_NONBLOCK` and `SOCK_CLOEXEC`, must be known, and only
/// stream and datagram sockets are supported. The caller makes the socket
/// and installs it on the lowest free descriptor.
pub fn sys_socket(domain: usize, types: i32, family: Result<(), SysError>) -> (r: Result<
    SocketRequest,
    SysError,
>)
    ensures
        (domain == 0 || domain > 255) ==> r == Err::<SocketRequest, SysError>(
            SysError::EAFNOSUPPORT,
        ),
        (1 <= domain <= 255 && family is Err) ==> r == Err::<SocketRequest, SysError>(
            family->Err_0,
        ),
        (1 <= domain <= 255 && family is Ok) ==> ({
            let t = types & !0x80800i32;
            &&& !(t == 1 || t == 2 || t == 4 || t == 5 || t == 6 || t == 10) ==> r == Err::<
                SocketRequest,
                SysError,
            >(SysError::EINVAL)
            &&& (t == 4 || t == 5 || t == 6 || t == 10) ==> r == Err::<SocketRequest, SysError>(
                SysError::EPROTONOSUPPORT,
            )
            &&& (t == 1 || t == 2) ==> (r matches Ok(q) && q.sk_type.spec_number() == t
                && q.nonblock == (types & SOCK_NONBLOCK != 0) && q.cloexec == (types & SOCK_CLOEXEC
                != 0))
        }),
{
    if domain == 0 || domain > 255 {
        return Err(SysError::EAFNOSUPPORT);
    }
    if let Err(e) = family {
        return Err(e);
    }
    let nonblock = types & SOCK_NONBLOCK != 0;
    let cloexec = types & SOCK_CLOEXEC != 0;
    let t: i32 = types & !0x80800i32;
    let sk_type = match SocketType::try_from(t) {
        Ok(s) => s,
        Err(e) => return Err(e),
    };
    if sk_type != SocketType::STREAM && sk_type != SocketType::DGRAM {
        return Err(SysError::EPROTONOSUPPORT);
    }
    Ok(SocketRequest { sk_type, nonblock, cloexec })
}

/// The socket that descriptor `fd` refers to, for calls that only act on a
/// socket: descriptors that are negative as signed numbers are `EBADF`.
fn socket_file(table: &FdTable, fd: usize) -> (r: Result<FileId, SysError>)
    ensures
        fd > isize::MAX ==> r == Err::<FileId, SysError>(SysError::EBADF),
        fd <= isize::MAX && slot_used(table.slots(), fd as int) ==> r == Ok::<FileId, SysError>(
            table.slots()[fd as int].unwrap().file,
        ),
        fd <= isize::MAX && !slot_used(table.slots(), fd as int) ==> r == Err::<FileId, SysError>(
            SysError::EBADF,
        ),
{
    if fd > isize::MAX as usize {
        return Err(SysError::EBADF);
    }
    table.get_file(fd)
}

/// syscall listen: the socket that starts listening.
pub fn sys_listen(table: &FdTable, fd: usize, _backlog: usize) -> (r: Result<FileId, SysError>)
    ensures
        fd > isize::MAX ==> r == Err::<FileId, SysError>(SysError::EBADF),
        fd <= isize::MAX && slot_used(table.slots(), fd as int) ==> r == Ok::<FileId, SysError>(
            table.slots()[fd as int].unwrap().file,
        ),
        fd <= isize::MAX && !slot_used(table.slots(), fd as int) ==> r == Err::<FileId, SysError>(
            SysError::EBADF,
        ),
{
    socket_file(table, fd)
}

/// syscall shutdown: the socket that is shut down in direction `how`.
pub fn sys_shutdown(table: &FdTable, fd: usize, how: usize) -> (r: Result<(FileId, u8), SysError>)
    ensures
        fd > isize::MAX ==> r == Err::<(FileId, u8), SysError>(SysError::EBADF),
        fd <= isize::MAX && slot_used(table.slots(), fd as int) ==> r == Ok::<(FileId, u8), SysError>(
            (table.slots()[fd as int].unwrap().file, how as u8),
        ),
        fd <= isize::MAX && !slot_used(table.slots(), fd as int) ==> r == Err::<
            (FileId, u8),
            SysError,
        >(SysError::EBADF),
{
    match socket_file(table, fd) {
        Ok(f) => Ok((f, how as u8)),
        Err(e) => Err(e),
    }
}

/// Protocol levels of socket options.
#[derive(Clone, Copy, Debug, PartialEq, Eq, Structural)]
#[allow(missing_docs)]
pub enum SocketLevel {
    /// Dummy protocol for TCP
    IpprotoIp,
    /// S
    SolSocket,
    IpprotoTcp,
    /// IPv6-in-IPv4 tunnelling
    IpprotoIpv6,
}

impl SocketLevel {
    /// The number of the level.
    pub open spec fn spec_number(self) -> int {
        match self {
            SocketLevel::IpprotoIp => 0,
            SocketLevel::SolSocket => 1,
            SocketLevel::IpprotoTcp => 6,
            SocketLevel::IpprotoIpv6 => 41,
        }
    }

    /// The level numbered `value`; others are `EINVAL`.
    pub fn try_from(value: usize) -> (r: Result<Self, SysError>)
        ensures
            (value == 0 || value == 1 || value == 6 || value == 41) <==> r is Ok,
            r matches Ok(l) ==> l.spec_number() == value,
            r is Err ==> r == Err::<Self, SysError>(SysError::EINVAL),
    {
        match value {
            0 => Ok(SocketLevel::IpprotoIp),
            1 => Ok(SocketLevel::SolSocket),
            6 => Ok(SocketLevel::IpprotoTcp),
            41 => Ok(SocketLevel::IpprotoIpv6),
            _ => Err(SysError::EINVAL),
        }
    }
}

/// What kind of transport a socket uses.
#[derive(Clone, Copy, Debug, PartialEq, Eq, Structural)]
pub enum SockKind {
    /// A TCP socket.
    Tcp,
    /// A UDP socket.
    Udp,
    /// Any other socket.
    Other,
}

/// The settings of a socket that its options read and change.
pub struct SocketSettings {
    /// Its transport.
    pub kind: SockKind,
    /// Whether a TCP socket has a handle in the socket set (its connection
    /// state: keep-alive, Nagle's algorithm and congestion control).
    pub has_handle: bool,
    /// Whether its address may be reused.
    pub reuse_addr: bool,
    /// Whether it bypasses routing.
    pub dont_route: bool,
    /// Send buffer size.
    pub send_buf_size: usize,
    /// Receive buffer size.
    pub recv_buf_size: usize,
    /// Keep-alive interval of the TCP connection, in seconds.
    pub keep_alive_secs: Option<u64>,
    /// Receive timeout of a TCP socket.
    pub timeout: Option<TimeSpec>,
    /// Time to live of multicast packets of a UDP socket.
    pub ttl: u8,
    /// Whether Nagle's algorithm is on for the TCP connection.
    pub nagle_enabled: bool,
    /// Name of the congestion-control algorithm.
    pub congestion: String,
}

/// Two socket settings agree on everything but the fields named false.
pub open spec fn same_settings_except(
    a: &SocketSettings,
    b: &SocketSettings,
    reuse: bool,
    send: bool,
    recv: bool,
    keep: bool,
    timeout: bool,
    ttl: bool,
    nagle: bool,
    congestion: bool,
) -> bool {
    &&& a.kind == b.kind
    &&& a.has_handle == b.has_handle
    &&& a.dont_route == b.dont_route
    &&& (reuse ==> a.reuse_addr == b.reuse_addr)
    &&& (send ==> a.send_buf_size == b.send_buf_size)
    &&& (recv ==> a.recv_buf_size == b.recv_buf_size)
    &&& (keep ==> a.keep_alive_secs == b.keep_alive_secs)
    &&& (timeout ==> a.timeout == b.timeout)
    &&& (ttl ==> a.ttl == b.ttl)
    &&& (nagle ==> a.nagle_enabled == b.nagle_enabled)
    &&& (congestion ==> a.congestion@ == b.congestion@)
}

/// Two socket settings are equal.
pub open spec fn same_settings(a: &SocketSettings, b: &SocketSettings) -> bool {
    same_settings_except(a, b, true, true, true, true, true, true, true, true)
}

/// Options at the IP level.
#[derive(Clone, Copy, Debug, PartialEq, Eq, Structural)]
#[allow(non_camel_case_types)]
pub enum IpOption {
    /// Interface multicast data is sent from.
    IP_MULTICAST_IF,
    /// Time to live of multicast packets.
    IP_MULTICAST_TTL,
    /// Whether multicast packets loop back to local receivers.
    IP_MULTICAST_LOOP,
    /// Join a multicast group.
    IP_ADD_MEMBERSHIP,
    /// Packet information.
    IP_PKTINFO,
    /// Join a multicast group (protocol independent).
    MCAST_JOIN_GROUP,
    /// Leave a multicast group.
    MCAST_LEAVE_GROUP,
}

impl IpOption {
    /// The number of the option.
    pub open spec fn spec_number(self) -> int {
        match self {
            IpOption::IP_MULTICAST_IF => 32,
            IpOption::IP_MULTICAST_TTL => 33,
            IpOption::IP_MULTICAST_LOOP => 34,
            IpOption::IP_ADD_MEMBERSHIP => 35,
            IpOption::IP_PKTINFO => 11,
            IpOption::MCAST_JOIN_GROUP => 42,
            IpOption::MCAST_LEAVE_GROUP => 45,
        }
    }

    /// The option numbered `value`; others are `EINVAL`.
    pub fn try_from(value: usize) -> (r: Result<Self, SysError>)
        ensures
            (value == 32 || value == 33 || value == 34 || value == 35 || value == 11 || value == 42
                || value == 45) <==> r is Ok,
            r matches Ok(o) ==> o.spec_number() == value,
            r is Err ==> r == Err::<Self, SysError>(SysError::EINVAL),
    {
        match value {
            32 => Ok(IpOption::IP_MULTICAST_IF),
            33 => Ok(IpOption::IP_MULTICAST_TTL),
            34 => Ok(IpOption::IP_MULTICAST_LOOP),
            35 => Ok(IpOption::IP_ADD_MEMBERSHIP),
            11 => Ok(IpOption::IP_PKTINFO),
            42 => Ok(IpOption::MCAST_JOIN_GROUP),
            45 => Ok(IpOption::MCAST_LEAVE_GROUP),
            _ => Err(SysError::EINVAL),
        }
    }

    /// Set the option to the value in `opt`: only the multicast time to
    /// live of a UDP socket is kept (its first byte); leaving a group is
    /// `EADDRNOTAVAIL`, and setting the time to live of another socket
    /// `EINVAL`.
    pub fn set(&self, socket: &mut SocketSettings, opt: &[u8]) -> (r: SysResult)
        requires
            *self == IpOption::IP_MULTICAST_TTL && old(socket).kind == SockKind::Udp ==> opt@.len()
                >= 1,
        ensures
            *self == IpOption::MCAST_LEAVE_GROUP ==> r == Err::<isize, SysError>(
                SysError::EADDRNOTAVAIL,
            ) && same_settings(final(socket), old(socket)),
            *self == IpOption::IP_MULTICAST_TTL && old(socket).kind == SockKind::Udp ==> r == Ok::<
                isize,
                SysError,
            >(0) && final(socket).ttl == opt@[0] && same_settings_except(
                final(socket),
                old(socket),
                true,
                true,
                true,
                true,
                true,
                false,
                true,
                true,
            ),
            *self == IpOption::IP_MULTICAST_TTL && old(socket).kind != SockKind::Udp ==> r == Err::<
                isize,
                SysError,
            >(SysError::EINVAL) && same_settings(final(socket), old(socket)),
            *self != IpOption::MCAST_LEAVE_GROUP && *self != IpOption::IP_MULTICAST_TTL ==> r
                == Ok::<isize, SysError>(0) && same_settings(final(socket), old(socket)),
    {
        match self {
            IpOption::MCAST_LEAVE_GROUP => Err(SysError::EADDRNOTAVAIL),
            IpOption::IP_MULTICAST_TTL => {
                if socket.kind == SockKind::Udp {
                    socket.ttl = opt[0];
                    Ok(0)
                } else {
                    Err(SysError::EINVAL)
                }
            },
            _ => Ok(0),
        }
    }
}


/// `old` with its first bytes replaced by `b`.
pub open spec fn written(old: Seq<u8>, b: Seq<u8>) -> Seq<u8> {
    b + old.subrange(b.len() as int, old.len() as int)
}

/// The signed 32-bit value of the first four bytes of `opt`.
pub open spec fn opt_i32(opt: Seq<u8>) -> i32 {
    (le_u32(opt) as u32) as i32
}

/// A receive timeout: the two 64-bit fields of `opt`, seconds then
/// nanoseconds.
pub open spec fn opt_timespec(opt: Seq<u8>) -> TimeSpec {
    TimeSpec {
        tv_sec: le_u64(opt.subrange(0, 8)) as usize,
        tv_nsec: le_u64(opt.subrange(8, 16)) as usize,
    }
}

/// Options at the socket level.
#[derive(Clone, Copy, Debug, PartialEq, Eq, Structural)]
#[allow(missing_docs)]
pub enum SocketOption {
    DEBUG,
    REUSEADDR,
    TYPE,
    ERROR,
    DONTROUTE,
    BROADCAST,
    SNDBUF,
    RCVBUF,
    KEEPALIVE,
    OOBINLINE,
    NoCheck,
    PRIORITY,
    LINGER,
    BSDCOMPAT,
    REUSEPORT,
    PASSCRED,
    PEERCRED,
    RCVLOWAT,
    SNDLOWAT,
    RcvtimeoOld,
    SndtimeoOld,
    SecurityAuthentication,
    SecurityEncryptionTransport,
    SecurityEncryptionNetwork,
    BINDTODEVICE,
    AttachFilter,
    DetachFilter,
    SNDBUFFORCE,
    RCVBUFFORCE,
}

impl SocketOption {
    /// The option numbered `value`; unknown numbers are taken as `DEBUG`.
    pub open spec fn from_number(value: usize) -> SocketOption {
        if value == 1 { SocketOption::DEBUG }
        else if value == 2 { SocketOption::REUSEADDR }
        else if value == 3 { SocketOption::TYPE }
        else if value == 4 { SocketOption::ERROR }
        else if value == 5 { SocketOption::DONTROUTE }
        else if value == 6 { SocketOption::BROADCAST }
        else if value == 7 { SocketOption::SNDBUF }
        else if value == 8 { SocketOption::RCVBUF }
        else if value == 9 { SocketOption::KEEPALIVE }
        else if value == 10 { SocketOption::OOBINLINE }
        else if value == 11 { SocketOption::NoCheck }
        else if value == 12 { SocketOption::PRIORITY }
        else if value == 13 { SocketOption::LINGER }
        else if value == 14 { SocketOption::BSDCOMPAT }
        else if value == 15 { SocketOption::REUSEPORT }
        else if value == 16 { SocketOption::PASSCRED }
        else if value == 17 { SocketOption::PEERCRED }
        else if value == 18 { SocketOption::RCVLOWAT }
        else if value == 19 { SocketOption::SNDLOWAT }
        else if value == 20 { SocketOption::RcvtimeoOld }
        else if value == 21 { SocketOption::SndtimeoOld }
        else if value == 22 { SocketOption::SecurityAuthentication }
        else if value == 23 { SocketOption::SecurityEncryptionTransport }
        else if value == 24 { SocketOption::SecurityEncryptionNetwork }
        else if value == 25 { SocketOption::BINDTODEVICE }
        else if value == 26 { SocketOption::AttachFilter }
        else if value == 27 { SocketOption::DetachFilter }
        else if value == 32 { SocketOption::SNDBUFFORCE }
        else if value == 33 { SocketOption::RCVBUFFORCE }
        else { SocketOption::DEBUG }
    }

    /// The option numbered `value`; every number is accepted, unknown ones
    /// as `DEBUG`.
    pub fn try_from(value: usize) -> (r: Result<Self, SysError>)
        ensures
            r == Ok::<Self, SysError>(Self::from_number(value)),
    {
        let o = match value {
            1 => SocketOption::DEBUG,
            2 => SocketOption::REUSEADDR,
            3 => SocketOption::TYPE,
            4 => SocketOption::ERROR,
            5 => SocketOption::DONTROUTE,
            6 => SocketOption::BROADCAST,
            7 => SocketOption::SNDBUF,
            8 => SocketOption::RCVBUF,
            9 => SocketOption::KEEPALIVE,
            10 => SocketOption::OOBINLINE,
            11 => SocketOption::NoCheck,
            12 => SocketOption::PRIORITY,
            13 => SocketOption::LINGER,
            14 => SocketOption::BSDCOMPAT,
            15 => SocketOption::REUSEPORT,
            16 => SocketOption::PASSCRED,
            17 => SocketOption::PEERCRED,
            18 => SocketOption::RCVLOWAT,
            19 => SocketOption::SNDLOWAT,
            20 => SocketOption::RcvtimeoOld,
            21 => SocketOption::SndtimeoOld,
            22 => SocketOption::SecurityAuthentication,
            23 => SocketOption::SecurityEncryptionTransport,
            24 => SocketOption::SecurityEncryptionNetwork,
            25 => SocketOption::BINDTODEVICE,
            26 => SocketOption::AttachFilter,
            27 => SocketOption::DetachFilter,
            32 => SocketOption::SNDBUFFORCE,
            33 => SocketOption::RCVBUFFORCE,
            _ => SocketOption::DEBUG,
        };
        Ok(o)
    }
}

/// What setting socket-level option `o` to `opt` needs so as not to fail
/// on a short value.
pub open spec fn socket_option_set_pre(o: SocketOption, opt: Seq<u8>) -> bool {
    o == SocketOption::SNDBUFFORCE ==> opt.len() >= 4
}

/// The outcome `r` and new settings `new` of setting socket-level option
/// `o` of a socket with settings `old` to the value `opt`.
pub open spec fn socket_option_set_post(
    o: SocketOption,
    old: &SocketSettings,
    new: &SocketSettings,
    opt: Seq<u8>,
    r: SysResult,
) -> bool {
    let short = opt.len() < 4;
    let tcp = old.kind == SockKind::Tcp;
    if o == SocketOption::REUSEADDR || o == SocketOption::DONTROUTE {
        if short {
            r == Err::<isize, SysError>(SysError::EINVAL) && same_settings(new, old)
        } else {
            &&& r == Ok::<isize, SysError>(0)
            &&& new.reuse_addr == (le_u32(opt) != 0)
            &&& same_settings_except(new, old, false, true, true, true, true, true, true, true)
        }
    } else if o == SocketOption::SNDBUF {
        if short {
            r == Err::<isize, SysError>(SysError::EINVAL) && same_settings(new, old)
        } else {
            &&& r == Ok::<isize, SysError>(0)
            &&& new.send_buf_size == opt_i32(opt) as usize
            &&& same_settings_except(new, old, true, false, true, true, true, true, true, true)
        }
    } else if o == SocketOption::RCVBUF {
        if short {
            r == Err::<isize, SysError>(SysError::EINVAL) && same_settings(new, old)
        } else {
            &&& r == Ok::<isize, SysError>(0)
            &&& new.recv_buf_size == opt_i32(opt) as usize
            &&& same_settings_except(new, old, true, true, false, true, true, true, true, true)
        }
    } else if o == SocketOption::KEEPALIVE {
        if short {
            r == Err::<isize, SysError>(SysError::EINVAL) && same_settings(new, old)
        } else {
            let v = le_u32(opt);
            &&& r == Ok::<isize, SysError>(0)
            &&& new.recv_buf_size == v
            &&& new.keep_alive_secs == (if tcp && old.has_handle {
                if v != 0 {
                    Some(60u64)
                } else {
                    None
                }
            } else {
                old.keep_alive_secs
            })
            &&& same_settings_except(new, old, true, true, false, false, true, true, true, true)
        }
    } else if o == SocketOption::RcvtimeoOld {
        if opt.len() != 16 {
            r == Err::<isize, SysError>(SysError::EINVAL) && same_settings(new, old)
        } else {
            let t = opt_timespec(opt);
            &&& r == Ok::<isize, SysError>(0)
            &&& new.timeout == (if tcp {
                if !(t.tv_nsec < 1_000_000_000) || (t.tv_nsec == 0 && t.tv_sec == 0) {
                    None
                } else {
                    Some(t)
                }
            } else {
                old.timeout
            })
            &&& same_settings_except(new, old, true, true, true, true, false, true, true, true)
        }
    } else if o == SocketOption::SNDBUFFORCE {
        let raw = le_u32(opt);
        &&& r == Ok::<isize, SysError>(0)
        &&& new.send_buf_size == (if raw > 0x7fff_ffff {
            0x7fff_ffff
        } else {
            raw
        })
        &&& same_settings_except(new, old, true, false, true, true, true, true, true, true)
    } else {
        r == Ok::<isize, SysError>(0) && same_settings(new, old)
    }
}

/// What reading socket-level option `o` into a buffer `opt` of `buf_len`
/// declared bytes needs so as not to write past its end.
pub open spec fn socket_option_get_pre(
    o: SocketOption,
    socket: &SocketSettings,
    opt: Seq<u8>,
    buf_len: u32,
) -> bool {
    &&& (o == SocketOption::REUSEADDR || o == SocketOption::DONTROUTE) && buf_len >= 4 ==> opt.len()
        >= 4
    &&& (o == SocketOption::SNDBUF || o == SocketOption::RCVBUF) ==> opt.len() >= 8
    &&& o == SocketOption::KEEPALIVE && buf_len >= 4 && socket.kind == SockKind::Tcp
        && socket.has_handle ==> opt.len() >= 4
    &&& o == SocketOption::RcvtimeoOld && buf_len >= 16 && socket.kind == SockKind::Tcp ==> opt.len()
        >= 1 && (socket.timeout is Some ==> opt.len() >= 16)
}

/// The outcome of reading socket-level option `o` of `socket` into the
/// buffer `old_opt` of `old_len` declared bytes: the buffer and length
/// afterwards.
pub open spec fn socket_option_get_post(
    o: SocketOption,
    socket: &SocketSettings,
    old_opt: Seq<u8>,
    old_len: u32,
    new_opt: Seq<u8>,
    new_len: u32,
    r: Result<(), SysError>,
) -> bool {
    let unchanged = new_opt == old_opt && new_len == old_len;
    let einval = r == Err::<(), SysError>(SysError::EINVAL) && unchanged;
    if o == SocketOption::REUSEADDR || o == SocketOption::DONTROUTE {
        let flag = if o == SocketOption::REUSEADDR {
            socket.reuse_addr
        } else {
            socket.dont_route
        };
        if old_len < 4 {
            einval
        } else {
            r is Ok && new_opt == written(old_opt, le_bytes(if flag { 1 } else { 0 }, 4))
                && new_len == 4
        }
    } else if o == SocketOption::SNDBUF || o == SocketOption::RCVBUF {
        let size = if o == SocketOption::SNDBUF {
            socket.send_buf_size
        } else {
            socket.recv_buf_size
        };
        r is Ok && new_opt == written(old_opt, le_bytes(size as nat, 8)) && new_len == 4
    } else if o == SocketOption::KEEPALIVE {
        if old_len < 4 {
            einval
        } else if socket.kind == SockKind::Tcp && socket.has_handle {
            r is Ok && new_opt == written(
                old_opt,
                le_bytes(if socket.keep_alive_secs is None { 1 } else { 0 }, 4),
            ) && new_len == 4
        } else {
            r is Ok && unchanged
        }
    } else if o == SocketOption::RcvtimeoOld {
        if old_len < 16 {
            einval
        } else if socket.kind == SockKind::Tcp {
            &&& r is Ok
            &&& new_len == 16
            &&& new_opt == written(
                old_opt,
                match socket.timeout {
                    Some(t) => le_bytes(t.tv_sec as nat, 8) + le_bytes(t.tv_nsec as nat, 8),
                    None => seq![0u8],
                },
            )
        } else {
            r is Ok && unchanged
        }
    } else {
        r is Ok && unchanged
    }
}

impl SocketOption {
    /// Set the option to the value `opt` (integers in the target's order):
    /// address reuse (also what "don't route" sets), the buffer sizes,
    /// keep-alive (which also sets the receive buffer size), the receive
    /// timeout of a TCP socket and the forced send buffer size; the
    /// other options are accepted and ignored.
    pub fn set(&self, socket: &mut SocketSettings, opt: &[u8]) -> (r: SysResult)
        requires
            socket_option_set_pre(*self, opt@),
        ensures
            socket_option_set_post(*self, old(socket), final(socket), opt@, r),
    {
        match self {
            SocketOption::REUSEADDR | SocketOption::DONTROUTE => {
                if opt.len() < 4 {
                    return Err(SysError::EINVAL);
                }
                let v = read_u32_le(opt);
                socket.reuse_addr = v != 0;
                Ok(0)
            },
            SocketOption::SNDBUF => {
                if opt.len() < 4 {
                    return Err(SysError::EINVAL);
                }
                let v = read_u32_le(opt) as i32;
                socket.send_buf_size = v as usize;
                Ok(0)
            },
            SocketOption::RCVBUF => {
                if opt.len() < 4 {
                    return Err(SysError::EINVAL);
                }
                let v = read_u32_le(opt) as i32;
                socket.recv_buf_size = v as usize;
                Ok(0)
            },
            SocketOption::KEEPALIVE => {
                if opt.len() < 4 {
                    return Err(SysError::EINVAL);
                }
                let v = read_u32_le(opt);
                if socket.kind == SockKind::Tcp && socket.has_handle {
                    socket.keep_alive_secs = if v != 0 {
                        Some(60u64)
                    } else {
                        None
                    };
                }
                socket.recv_buf_size = v as usize;
                Ok(0)
            },
            SocketOption::RcvtimeoOld => {
                if opt.len() != 16 {
                    return Err(SysError::EINVAL);
                }
                let t = TimeSpec {
                    tv_sec: read_u64_le(opt, 0) as usize,
                    tv_nsec: read_u64_le(opt, 8) as usize,
                };
                if socket.kind == SockKind::Tcp {
                    socket.timeout = if !t.is_valid() || (t.tv_nsec == 0 && t.tv_sec == 0) {
                        None
                    } else {
                        Some(t)
                    };
                }
                Ok(0)
            },
            SocketOption::SNDBUFFORCE => {
                let raw = read_u32_le(opt);
                let v: u32 = if raw > 0x7fff_ffff {
                    0x7fff_ffff
                } else {
                    raw
                };
                socket.send_buf_size = v as usize;
                Ok(0)
            },
            _ => Ok(0),
        }
    }

    /// Read the option into `opt`, whose declared length `opt_len` becomes
    /// the length of the value: address reuse, "don't route", the buffer
    /// sizes (eight bytes written, four declared), keep-alive (one when
    /// there is none) and the receive timeout of a TCP socket; a declared
    /// length too short for a checked option is `EINVAL`.
    pub fn get(&self, socket: &SocketSettings, opt: &mut Vec<u8>, opt_len: &mut u32) -> (r: Result<
        (),
        SysError,
    >)
        requires
            socket_option_get_pre(*self, socket, old(opt)@, *old(opt_len)),
        ensures
            socket_option_get_post(
                *self,
                socket,
                old(opt)@,
                *old(opt_len),
                final(opt)@,
                *final(opt_len),
                r,
            ),
    {
        let buf_len = *opt_len as usize;
        match self {
            SocketOption::REUSEADDR | SocketOption::DONTROUTE => {
                let flag = if *self == SocketOption::REUSEADDR {
                    socket.reuse_addr
                } else {
                    socket.dont_route
                };
                let value: u64 = if flag {
                    1
                } else {
                    0
                };
                if buf_len < 4 {
                    return Err(SysError::EINVAL);
                }
                copy_prefix(opt, &write_le(value, 4));
                *opt_len = 4;
                Ok(())
            },
            SocketOption::SNDBUF | SocketOption::RCVBUF => {
                let size = if *self == SocketOption::SNDBUF {
                    socket.send_buf_size
                } else {
                    socket.recv_buf_size
                };
                copy_prefix(opt, &write_le(size as u64, 8));
                *opt_len = 4;
                Ok(())
            },
            SocketOption::KEEPALIVE => {
                if buf_len < 4 {
                    return Err(SysError::EINVAL);
                }
                if socket.kind == SockKind::Tcp && socket.has_handle {
                    let value: u64 = if socket.keep_alive_secs.is_none() {
                        1
                    } else {
                        0
                    };
                    copy_prefix(opt, &write_le(value, 4));
                    *opt_len = 4;
                }
                Ok(())
            },
            SocketOption::RcvtimeoOld => {
                if buf_len < 16 {
                    return Err(SysError::EINVAL);
                }
                if socket.kind == SockKind::Tcp {
                    match socket.timeout {
                        Some(t) => {
                            let mut b = write_le(t.tv_sec as u64, 8);
                            let mut n = write_le(t.tv_nsec as u64, 8);
                            b.append(&mut n);
                            copy_prefix(opt, &b);
                        },
                        None => {
                            let b = write_le(0, 1);
                            copy_prefix(opt, &b);
                        },
                    }
                    *opt_len = 16;
                }
                Ok(())
            },
            _ => Ok(()),
        }
    }
}


/// Options at the TCP level.
#[derive(Clone, Copy, Debug, PartialEq, Eq, Structural)]
#[allow(missing_docs)]
pub enum TcpSocketOption {
    /// disable nagle algorithm and flush
    NODELAY,
    MAXSEG,
    INFO,
    CONGESTION,
}

impl TcpSocketOption {
    /// The number of the option.
    pub open spec fn spec_number(self) -> int {
        match self {
            TcpSocketOption::NODELAY => 1,
            TcpSocketOption::MAXSEG => 2,
            TcpSocketOption::INFO => 11,
            TcpSocketOption::CONGESTION => 13,
        }
    }

    /// The option numbered `value`; others are `EINVAL`.
    pub fn try_from(value: usize) -> (r: Result<Self, SysError>)
        ensures
            (value == 1 || value == 2 || value == 11 || value == 13) <==> r is Ok,
            r matches Ok(o) ==> o.spec_number() == value,
            r is Err ==> r == Err::<Self, SysError>(SysError::EINVAL),
    {
        match value {
            1 => Ok(TcpSocketOption::NODELAY),
            2 => Ok(TcpSocketOption::MAXSEG),
            11 => Ok(TcpSocketOption::INFO),
            13 => Ok(TcpSocketOption::CONGESTION),
            _ => Err(SysError::EINVAL),
        }
    }
}

/// What setting TCP option `o` of `socket` to `opt` needs: the maximum
/// segment size cannot be set on a connection, and a congestion-control
/// name must be UTF-8.
pub open spec fn tcp_option_set_pre(o: TcpSocketOption, socket: &SocketSettings, opt: Seq<u8>) -> bool {
    socket.kind == SockKind::Tcp && socket.has_handle ==> o != TcpSocketOption::MAXSEG && (o
        == TcpSocketOption::CONGESTION ==> valid_utf8(opt))
}

/// The outcome `r` and new settings `new` of setting TCP option `o` of a
/// socket with settings `old` to `opt`.
pub open spec fn tcp_option_set_post(
    o: TcpSocketOption,
    old: &SocketSettings,
    new: &SocketSettings,
    opt: Seq<u8>,
    r: SysResult,
) -> bool {
    if old.kind == SockKind::Tcp && old.has_handle && o == TcpSocketOption::NODELAY {
        if opt.len() < 4 {
            r == Err::<isize, SysError>(SysError::EINVAL) && same_settings(new, old)
        } else {
            &&& r == Ok::<isize, SysError>(0)
            &&& new.nagle_enabled == (be_u32(opt) == 0)
            &&& same_settings_except(new, old, true, true, true, true, true, true, false, true)
        }
    } else if old.kind == SockKind::Tcp && old.has_handle && o == TcpSocketOption::CONGESTION {
        &&& r == Ok::<isize, SysError>(0)
        &&& new.congestion@ == decode_utf8(opt)
        &&& same_settings_except(new, old, true, true, true, true, true, true, true, false)
    } else {
        r == Ok::<isize, SysError>(0) && same_settings(new, old)
    }
}

/// What reading TCP option `o` of `socket` into `opt` needs: room for the
/// value, and exactly the length of the congestion-control name.
pub open spec fn tcp_option_get_pre(o: TcpSocketOption, socket: &SocketSettings, opt: Seq<u8>, buf_len: u32) -> bool {
    socket.kind == SockKind::Tcp && socket.has_handle ==> {
        &&& o == TcpSocketOption::NODELAY && buf_len >= 4 ==> opt.len() >= 4
        &&& o == TcpSocketOption::MAXSEG ==> opt.len() >= 8
        &&& o == TcpSocketOption::CONGESTION ==> opt.len() == encode_utf8(socket.congestion@).len()
    }
}

/// The outcome of reading TCP option `o` of `socket` into the buffer
/// `old_opt` of `old_len` declared bytes.
pub open spec fn tcp_option_get_post(
    o: TcpSocketOption,
    socket: &SocketSettings,
    old_opt: Seq<u8>,
    old_len: u32,
    new_opt: Seq<u8>,
    new_len: u32,
    r: Result<(), SysError>,
) -> bool {
    let unchanged = new_opt == old_opt && new_len == old_len;
    if socket.kind == SockKind::Tcp && socket.has_handle {
        if o == TcpSocketOption::NODELAY {
            if old_len < 4 {
                r == Err::<(), SysError>(SysError::EINVAL) && unchanged
            } else {
                r is Ok && new_opt == written(
                    old_opt,
                    le_bytes(if socket.nagle_enabled { 0 } else { 1 }, 4),
                ) && new_len == 4
            }
        } else if o == TcpSocketOption::MAXSEG {
            r is Ok && new_opt == written(old_opt, le_bytes(1500, 8)) && new_len == 8
        } else if o == TcpSocketOption::CONGESTION {
            let name = encode_utf8(socket.congestion@);
            r is Ok && new_opt == name && new_len == name.len() as u32
        } else {
            r is Ok && unchanged
        }
    } else {
        r is Ok && unchanged
    }
}

impl TcpSocketOption {
    /// Set the option on a TCP connection: Nagle's algorithm is off when
    /// the value (in network order) is non-zero, and the congestion-control
    /// algorithm takes the given name; other sockets ignore it.
    pub fn set(&self, socket: &mut SocketSettings, opt: &[u8]) -> (r: SysResult)
        requires
            tcp_option_set_pre(*self, old(socket), opt@),
        ensures
            tcp_option_set_post(*self, old(socket), final(socket), opt@, r),
    {
        if socket.kind == SockKind::Tcp && socket.has_handle {
            match self {
                TcpSocketOption::NODELAY => {
                    if opt.len() < 4 {
                        return Err(SysError::EINVAL);
                    }
                    let v = read_u32_be(opt);
                    socket.nagle_enabled = v == 0;
                    Ok(0)
                },
                TcpSocketOption::CONGESTION => {
                    let name = string_from_utf8(vstd::slice::slice_to_vec(opt));
                    match name {
                        Some(n) => {
                            socket.congestion = n;
                            Ok(0)
                        },
                        None => Ok(0),
                    }
                },
                _ => Ok(0),
            }
        } else {
            Ok(0)
        }
    }

    /// Read the option of a TCP connection into `opt`: one when Nagle's
    /// algorithm is off, a segment size of 1500 (eight bytes), or the
    /// congestion-control name; other sockets leave the buffer alone.
    pub fn get(&self, socket: &SocketSettings, opt: &mut Vec<u8>, opt_len: &mut u32) -> (r: Result<
        (),
        SysError,
    >)
        requires
            tcp_option_get_pre(*self, socket, old(opt)@, *old(opt_len)),
        ensures
            tcp_option_get_post(
                *self,
                socket,
                old(opt)@,
                *old(opt_len),
                final(opt)@,
                *final(opt_len),
                r,
            ),
    {
        let buf_len = *opt_len;
        if socket.kind == SockKind::Tcp && socket.has_handle {
            match self {
                TcpSocketOption::NODELAY => {
                    if buf_len < 4 {
                        return Err(SysError::EINVAL);
                    }
                    let value: u64 = if socket.nagle_enabled {
                        0
                    } else {
                        1
                    };
                    copy_prefix(opt, &write_le(value, 4));
                    *opt_len = 4;
                    Ok(())
                },
                TcpSocketOption::MAXSEG => {
                    copy_prefix(opt, &write_le(1500, 8));
                    *opt_len = 8;
                    Ok(())
                },
                TcpSocketOption::CONGESTION => {
                    let name = vstd::slice::slice_to_vec(socket.congestion.as_str().as_bytes());
                    let len = name.len() as u32;
                    copy_prefix(opt, &name);
                    proof {
                        assert(opt@ =~= name@);
                    }
                    *opt_len = len;
                    Ok(())
                },
                _ => Ok(()),
            }
        } else {
            Ok(())
        }
    }
}

/// Options at the IPv6 level.
#[derive(Clone, Copy, Debug, PartialEq, Eq, Structural)]
#[allow(non_camel_case_types, missing_docs)]
pub enum Ipv6Option {
    UNICAST_HOPS,
    MULTICAST_IF,
    MULTICAST_HOPS,
    IPV6_DEV,
    IPV6_ONLY,
    PACKET_INFO,
    RECV_TRAFFIC_CLASS,
    TRAFFIC_CLASS,
}

impl Ipv6Option {
    /// The number of the option.
    pub open spec fn spec_number(self) -> int {
        match self {
            Ipv6Option::UNICAST_HOPS => 4,
            Ipv6Option::MULTICAST_IF => 9,
            Ipv6Option::MULTICAST_HOPS => 10,
            Ipv6Option::IPV6_DEV => 26,
            Ipv6Option::IPV6_ONLY => 27,
            Ipv6Option::PACKET_INFO => 61,
            Ipv6Option::RECV_TRAFFIC_CLASS => 66,
            Ipv6Option::TRAFFIC_CLASS => 67,
        }
    }

    /// The option numbered `value`; others are `EINVAL`.
    pub fn try_from(value: usize) -> (r: Result<Self, SysError>)
        ensures
            (value == 4 || value == 9 || value == 10 || value == 26 || value == 27 || value == 61
                || value == 66 || value == 67) <==> r is Ok,
            r matches Ok(o) ==> o.spec_number() == value,
            r is Err ==> r == Err::<Self, SysError>(SysError::EINVAL),
    {
        match value {
            4 => Ok(Ipv6Option::UNICAST_HOPS),
            9 => Ok(Ipv6Option::MULTICAST_IF),
            10 => Ok(Ipv6Option::MULTICAST_HOPS),
            26 => Ok(Ipv6Option::IPV6_DEV),
            27 => Ok(Ipv6Option::IPV6_ONLY),
            61 => Ok(Ipv6Option::PACKET_INFO),
            66 => Ok(Ipv6Option::RECV_TRAFFIC_CLASS),
            67 => Ok(Ipv6Option::TRAFFIC_CLASS),
            _ => Err(SysError::EINVAL),
        }
    }

    /// Setting an IPv6 option is accepted and ignored.
    pub fn set(&self, socket: &mut SocketSettings, opt: &[u8]) -> (r: SysResult)
        ensures
            r == Ok::<isize, SysError>(0),
            same_settings(final(socket), old(socket)),
    {
        Ok(0)
    }
}

/// syscall setsockopt, once the socket and the option value `opt` are in
/// hand: an unknown level, or an option unknown at its level, is
/// `ENOPROTOOPT`; otherwise the option is set as its `set` does.
pub fn sys_setsockopt(level: usize, option_name: usize, socket: &mut SocketSettings, opt: &[u8]) -> (r:
    SysResult)
    requires
        level == 1 ==> socket_option_set_pre(SocketOption::from_number(option_name), opt@),
        level == 6 ==> (option_name == 1 || option_name == 2 || option_name == 11 || option_name
            == 13) ==> tcp_option_set_pre(
            if option_name == 1 {
                TcpSocketOption::NODELAY
            } else if option_name == 2 {
                TcpSocketOption::MAXSEG
            } else if option_name == 11 {
                TcpSocketOption::INFO
            } else {
                TcpSocketOption::CONGESTION
            },
            old(socket),
            opt@,
        ),
        level == 0 && option_name == 33 && old(socket).kind == SockKind::Udp ==> opt@.len() >= 1,
    ensures
        !(level == 0 || level == 1 || level == 6 || level == 41) ==> r == Err::<isize, SysError>(
            SysError::ENOPROTOOPT,
        ) && same_settings(final(socket), old(socket)),
        level == 0 ==> (if !(option_name == 32 || option_name == 33 || option_name == 34
            || option_name == 35 || option_name == 11 || option_name == 42 || option_name == 45) {
            r == Err::<isize, SysError>(SysError::ENOPROTOOPT) && same_settings(
                final(socket),
                old(socket),
            )
        } else if option_name == 45 {
            r == Err::<isize, SysError>(SysError::EADDRNOTAVAIL) && same_settings(
                final(socket),
                old(socket),
            )
        } else if option_name == 33 {
            if old(socket).kind == SockKind::Udp {
                r == Ok::<isize, SysError>(0) && final(socket).ttl == opt@[0]
                    && same_settings_except(
                    final(socket),
                    old(socket),
                    true,
                    true,
                    true,
                    true,
                    true,
                    false,
                    true,
                    true,
                )
            } else {
                r == Err::<isize, SysError>(SysError::EINVAL) && same_settings(
                    final(socket),
                    old(socket),
                )
            }
        } else {
            r == Ok::<isize, SysError>(0) && same_settings(final(socket), old(socket))
        }),
        level == 1 ==> socket_option_set_post(
            SocketOption::from_number(option_name),
            old(socket),
            final(socket),
            opt@,
            r,
        ),
        level == 6 ==> (if option_name == 1 || option_name == 2 || option_name == 11 || option_name
            == 13 {
            tcp_option_set_post(
                if option_name == 1 {
                    TcpSocketOption::NODELAY
                } else if option_name == 2 {
                    TcpSocketOption::MAXSEG
                } else if option_name == 11 {
                    TcpSocketOption::INFO
                } else {
                    TcpSocketOption::CONGESTION
                },
                old(socket),
                final(socket),
                opt@,
                r,
            )
        } else {
            r == Err::<isize, SysError>(SysError::ENOPROTOOPT) && same_settings(
                final(socket),
                old(socket),
            )
        }),
        level == 41 ==> same_settings(final(socket), old(socket)) && (if option_name == 4
            || option_name == 9 || option_name == 10 || option_name == 26 || option_name == 27
            || option_name == 61 || option_name == 66 || option_name == 67 {
            r == Ok::<isize, SysError>(0)
        } else {
            r == Err::<isize, SysError>(SysError::ENOPROTOOPT)
        }),
{
    let level = match SocketLevel::try_from(level) {
        Ok(l) => l,
        Err(_) => return Err(SysError::ENOPROTOOPT),
    };
    match level {
        SocketLevel::IpprotoIp => {
            match IpOption::try_from(option_name) {
                Ok(o) => o.set(socket, opt),
                Err(_) => Err(SysError::ENOPROTOOPT),
            }
        },
        SocketLevel::SolSocket => {
            match SocketOption::try_from(option_name) {
                Ok(o) => o.set(socket, opt),
                Err(_) => Err(SysError::ENOPROTOOPT),
            }
        },
        SocketLevel::IpprotoTcp => {
            match TcpSocketOption::try_from(option_name) {
                Ok(o) => o.set(socket, opt),
                Err(_) => Err(SysError::ENOPROTOOPT),
            }
        },
        SocketLevel::IpprotoIpv6 => {
            match Ipv6Option::try_from(option_name) {
                Ok(o) => o.set(socket, opt),
                Err(_) => Err(SysError::ENOPROTOOPT),
            }
        },
    }
}

/// Send buffer size that `getsockopt` reports.
pub const SEND_BUFFER_SIZE: u32 = 64 * 1024;
/// Receive buffer size that `getsockopt` reports.
pub const RECV_BUFFER_SIZE: u32 = 64 * 1024;
/// Segment size that `getsockopt` reports.
pub const MAX_SEGMENT: u32 = 1460;

/// syscall getsockopt: the bytes to write to the option value and the
/// length to write to the option length, if anything is written. The level
/// must be known (`EINVAL`); at the socket level the send and receive
/// buffer sizes and a zero error are reported; at the TCP and IP levels
/// the option must be a TCP option (`EINVAL`), and Nagle's algorithm is
/// reported on, the segment size as 1460 and the congestion control as
/// "reno" (with its terminating zero, length four).
pub fn sys_getsockopt(_fd: usize, level: usize, option_name: usize) -> (r: Result<
    Option<(Vec<u8>, u32)>,
    SysError,
>)
    ensures
        !(level == 0 || level == 1 || level == 6 || level == 41) ==> r is Err && r->Err_0
            == SysError::EINVAL,
        level == 1 ==> r is Ok && (if option_name == 7 {
            r->Ok_0 matches Some((b, l)) && b@ == le_bytes(65536, 4) && l == 4
        } else if option_name == 8 {
            r->Ok_0 matches Some((b, l)) && b@ == le_bytes(65536, 4) && l == 4
        } else if option_name == 4 {
            r->Ok_0 matches Some((b, l)) && b@ == le_bytes(0, 4) && l == 4
        } else {
            r->Ok_0 is None
        }),
        (level == 0 || level == 6) ==> (if option_name == 1 {
            r is Ok && (r->Ok_0 matches Some((b, l)) && b@ == le_bytes(0, 4) && l == 4)
        } else if option_name == 2 {
            r is Ok && (r->Ok_0 matches Some((b, l)) && b@ == le_bytes(1460, 4) && l == 4)
        } else if option_name == 11 {
            r is Ok && r->Ok_0 is None
        } else if option_name == 13 {
            r is Ok && (r->Ok_0 matches Some((b, l)) && b@ == seq![114u8, 101u8, 110u8, 111u8, 0u8]
                && l == 4)
        } else {
            r is Err && r->Err_0 == SysError::EINVAL
        }),
        level == 41 ==> r is Ok && r->Ok_0 is None,
{
    let level = match SocketLevel::try_from(level) {
        Ok(l) => l,
        Err(e) => return Err(e),
    };
    match level {
        SocketLevel::SolSocket => {
            let o = match SocketOption::try_from(option_name) {
                Ok(o) => o,
                Err(e) => return Err(e),
            };
            match o {
                SocketOption::SNDBUF => Ok(Some((write_le(SEND_BUFFER_SIZE as u64, 4), 4))),
                SocketOption::RCVBUF => Ok(Some((write_le(RECV_BUFFER_SIZE as u64, 4), 4))),
                SocketOption::ERROR => Ok(Some((write_le(0, 4), 4))),
                _ => Ok(None),
            }
        },
        SocketLevel::IpprotoTcp | SocketLevel::IpprotoIp => {
            let o = match TcpSocketOption::try_from(option_name) {
                Ok(o) => o,
                Err(e) => return Err(e),
            };
            match o {
                TcpSocketOption::NODELAY => Ok(Some((write_le(0, 4), 4))),
                TcpSocketOption::MAXSEG => Ok(Some((write_le(MAX_SEGMENT as u64, 4), 4))),
                TcpSocketOption::INFO => Ok(None),
                TcpSocketOption::CONGESTION => {
                    let name: Vec<u8> = vec![114u8, 101u8, 110u8, 111u8, 0u8];
                    Ok(Some((name, 4)))
                },
            }
        },
        SocketLevel::IpprotoIpv6 => Ok(None),
    }
}

/// syscall socketpair: descriptors for the two ends of a new pipe, with no
/// descriptor flags, as `pipe2` installs them.
pub fn sys_socketpair(table: &mut FdTable, read_file: FileId, write_file: FileId) -> (r: Result<
    (usize, usize),
    SysError,
>)
    ensures
        final(table).rlimit == old(table).rlimit,
        ({
            let max = old(table).rlimit.rlim_max;
            let flags = FdFlags { bits: 0 };
            let (s1, r1) = install_spec(old(table).slots(), max, FdInfo { file: read_file, flags });
            let (s2, r2) = install_spec(s1, max, FdInfo { file: write_file, flags });
            if r1 is Err {
                r == Err::<(usize, usize), SysError>(SysError::EBADF) && final(table).slots()
                    == old(table).slots()
            } else if r2 is Err {
                r == Err::<(usize, usize), SysError>(SysError::EBADF) && final(table).slots()
                    == s1
            } else {
                r == Ok::<(usize, usize), SysError>((r1->Ok_0, r2->Ok_0)) && final(table).slots() == s2
            }
        }),
{
    sys_pipe2(table, read_file, write_file, FdFlags::empty())
}

/// msghdr structure for recvmsg() and sendmsg() system calls
#[derive(Clone, Copy, Debug)]
pub struct MsgHdr {
    /// ptr points to peer address
    pub msg_name: usize,
    /// addr len
    pub msg_namelen: u32,
    /// iovecs ptr
    pub msg_iov: usize,
    /// iovecs len
    pub msg_iovlen: u32,
    /// ancillary data ptr
    pub msg_control: usize,
    /// ancillary data len
    pub msg_controllen: u32,
    /// flags
    pub msg_flags: i32,
}

/// accillary data object information for recvmsg() and sendmsg() system calls
#[derive(Clone, Copy, Debug)]
pub struct CmsgHdr {
    /// level
    pub cmsg_level: u32,
    /// type
    pub cmsg_type: u32,
    /// data len
    pub cmsg_len: u32,
}


/// Reading address reuse back after setting it: the value read is one
/// exactly when the value written (at least four bytes) was not zero.
pub proof fn lemma_reuseaddr_set_then_get(
    old: &SocketSettings,
    new: &SocketSettings,
    opt: Seq<u8>,
    r: SysResult,
    buf: Seq<u8>,
    buf_len: u32,
    new_buf: Seq<u8>,
    new_len: u32,
    r2: Result<(), SysError>,
)
    requires
        opt.len() >= 4,
        socket_option_set_post(SocketOption::REUSEADDR, old, new, opt, r),
        buf_len >= 4,
        buf.len() >= 4,
        socket_option_get_post(SocketOption::REUSEADDR, new, buf, buf_len, new_buf, new_len, r2),
    ensures
        r == Ok::<isize, SysError>(0),
        r2 is Ok,
        new_len == 4,
        new_buf.subrange(0, 4) == le_bytes(if le_u32(opt) != 0 { 1 } else { 0 }, 4),
{
    let v: nat = if le_u32(opt) != 0 { 1 } else { 0 };
    crate::bytes::lemma_le_bytes_len(v, 4);
    assert(new_buf.subrange(0, 4) =~= le_bytes(v, 4));
}

/// Reading the send buffer size back after setting it: the eight bytes
/// read are the size written (a four-byte signed value, as a size).
pub proof fn lemma_sndbuf_set_then_get(
    old: &SocketSettings,
    new: &SocketSettings,
    opt: Seq<u8>,
    r: SysResult,
    buf: Seq<u8>,
    buf_len: u32,
    new_buf: Seq<u8>,
    new_len: u32,
    r2: Result<(), SysError>,
)
    requires
        opt.len() >= 4,
        socket_option_set_post(SocketOption::SNDBUF, old, new, opt, r),
        buf.len() >= 8,
        socket_option_get_post(SocketOption::SNDBUF, new, buf, buf_len, new_buf, new_len, r2),
    ensures
        r == Ok::<isize, SysError>(0),
        r2 is Ok,
        new_buf.subrange(0, 8) == le_bytes(opt_i32(opt) as usize as nat, 8),
{
    crate::bytes::lemma_le_bytes_len(opt_i32(opt) as usize as nat, 8);
    assert(new_buf.subrange(0, 8) =~= le_bytes(opt_i32(opt) as usize as nat, 8));
}


/// syscall getsockname: the socket whose local address is written to
/// `addr`; negative descriptors are `EBADF`, a null address `EFAULT`.
pub fn sys_getsockname(table: &FdTable, fd: usize, addr: usize, _addr_len: usize) -> (r: Result<FileId, SysError>)
    ensures
        fd > isize::MAX ==> r == Err::<FileId, SysError>(SysError::EBADF),
        fd <= isize::MAX && addr == 0 ==> r == Err::<FileId, SysError>(SysError::EFAULT),
        fd <= isize::MAX && addr != 0 && slot_used(table.slots(), fd as int) ==> r == Ok::<FileId, SysError>(
            table.slots()[fd as int].unwrap().file,
        ),
        fd <= isize::MAX && addr != 0 && !slot_used(table.slots(), fd as int) ==> r == Err::<FileId, SysError>(
            SysError::EBADF,
        ),
{
    if fd > isize::MAX as usize {
        return Err(SysError::EBADF);
    }
    if addr == 0 {
        return Err(SysError::EFAULT);
    }
    table.get_file(fd)
}

/// syscall getpeername: the socket whose peer address is written out;
/// negative descriptors are `EBADF`.
pub fn sys_getpeername(table: &FdTable, fd: usize, _addr: usize, _addr_len: usize) -> (r: Result<FileId, SysError>)
    ensures
        fd > isize::MAX ==> r == Err::<FileId, SysError>(SysError::EBADF),
        fd <= isize::MAX && slot_used(table.slots(), fd as int) ==> r == Ok::<FileId, SysError>(
            table.slots()[fd as int].unwrap().file,
        ),
        fd <= isize::MAX && !slot_used(table.slots(), fd as int) ==> r == Err::<FileId, SysError>(
            SysError::EBADF,
        ),
{
    socket_file(table, fd)
}

/// The argument checks of `sethostname` and `gethostname`, made before the
/// host-name file is touched: a length that is negative or above 64 is
/// `EINVAL`, a null buffer `EFAULT`.
pub fn hostname_check(hostname: usize, len: usize) -> (r: Result<(), SysError>)
    ensures
        (len > isize::MAX || len > 64) ==> r == Err::<(), SysError>(SysError::EINVAL),
        !(len > isize::MAX || len > 64) && hostname == 0 ==> r == Err::<(), SysError>(SysError::EFAULT),
        !(len > isize::MAX || len > 64) && hostname != 0 ==> r is Ok,
{
    if len > isize::MAX as usize || len > 64 {
        return Err(SysError::EINVAL);
    }
    if hostname == 0 {
        return Err(SysError::EFAULT);
    }
    Ok(())
}

/// Address families a socket address may have.
#[derive(Clone, Copy, Debug, PartialEq, Eq, Structural)]
pub enum AddrFamily {
    /// IPv4.
    Inet,
    /// IPv6.
    Inet6,
    /// Local (Unix) sockets.
    Unix,
}

/// The size of the socket-address structure of a family.
pub open spec fn family_addr_len(f: AddrFamily) -> nat {
    match f {
        AddrFamily::Inet => 16,
        AddrFamily::Inet6 => 28,
        AddrFamily::Unix => 110,
    }
}

/// The size of the socket-address structure of family `f` (written back as
/// the address length).
pub fn sockaddr_len(f: AddrFamily) -> (r: u32)
    ensures
        r == family_addr_len(f),
{
    match f {
        AddrFamily::Inet => 16,
        AddrFamily::Inet6 => 28,
        AddrFamily::Unix => 110,
    }
}

/// Reading a socket address of `addr_len` bytes: `read` is `None` when the
/// address cannot be read (`EFAULT`), else its family or why the family is
/// refused; a length below the family's address structure is `EINVAL`.
pub fn sockaddr_reader(read: Option<Result<AddrFamily, SysError>>, addr_len: usize) -> (r: Result<AddrFamily, SysError>)
    ensures
        r == (match read {
            None => Err::<AddrFamily, SysError>(SysError::EFAULT),
            Some(Err(e)) => Err::<AddrFamily, SysError>(e),
            Some(Ok(f)) => if addr_len < family_addr_len(f) {
                Err::<AddrFamily, SysError>(SysError::EINVAL)
            } else {
                Ok::<AddrFamily, SysError>(f)
            },
        }),
{
    match read {
        None => Err(SysError::EFAULT),
        Some(Err(e)) => Err(e),
        Some(Ok(f)) => {
            if addr_len < sockaddr_len(f) as usize {
                Err(SysError::EINVAL)
            } else {
                Ok(f)
            }
        },
    }
}

/// The checks shared by `bind` and `connect`: a descriptor negative as a
/// signed number is `EBADF`; then the address is read (`addr`, as
/// `sockaddr_reader` takes it), and then the descriptor must be open. The
/// socket and the address family are returned.
pub fn socket_with_addr(table: &FdTable, fd: usize, addr: Option<Result<AddrFamily, SysError>>, addr_len: usize) -> (r:
    Result<(FileId, AddrFamily), SysError>)
    ensures
        fd > isize::MAX ==> r == Err::<(FileId, AddrFamily), SysError>(SysError::EBADF),
        fd <= isize::MAX ==> r == (match (read_addr_spec(addr, addr_len), slot_used(table.slots(), fd as int)) {
            (Err(e), _) => Err::<(FileId, AddrFamily), SysError>(e),
            (Ok(_), false) => Err::<(FileId, AddrFamily), SysError>(SysError::EBADF),
            (Ok(f), true) => Ok::<(FileId, AddrFamily), SysError>((table.slots()[fd as int].unwrap().file, f)),
        }),
{
    if fd > isize::MAX as usize {
        return Err(SysError::EBADF);
    }
    let f = match sockaddr_reader(addr, addr_len) {
        Ok(f) => f,
        Err(e) => {
            return Err(e);
        },
    };
    match table.get_file(fd) {
        Ok(file) => Ok((file, f)),
        Err(e) => Err(e),
    }
}

/// What `sockaddr_reader` gives.
pub open spec fn read_addr_spec(read: Option<Result<AddrFamily, SysError>>, addr_len: usize) -> Result<AddrFamily, SysError> {
    match read {
        None => Err::<AddrFamily, SysError>(SysError::EFAULT),
        Some(Err(e)) => Err::<AddrFamily, SysError>(e),
        Some(Ok(f)) => if addr_len < family_addr_len(f) {
            Err::<AddrFamily, SysError>(SysError::EINVAL)
        } else {
            Ok::<AddrFamily, SysError>(f)
        },
    }
}

/// syscall bind: the socket that is bound, and the family of the local
/// address read (see `socket_with_addr`).
pub fn sys_bind(table: &FdTable, fd: usize, addr: Option<Result<AddrFamily, SysError>>, addr_len: usize) -> (r: Result<
    (FileId, AddrFamily),
    SysError,
>)
    ensures
        fd > isize::MAX ==> r == Err::<(FileId, AddrFamily), SysError>(SysError::EBADF),
        fd <= isize::MAX ==> r == (match (read_addr_spec(addr, addr_len), slot_used(table.slots(), fd as int)) {
            (Err(e), _) => Err::<(FileId, AddrFamily), SysError>(e),
            (Ok(_), false) => Err::<(FileId, AddrFamily), SysError>(SysError::EBADF),
            (Ok(f), true) => Ok::<(FileId, AddrFamily), SysError>((table.slots()[fd as int].unwrap().file, f)),
        }),
{
    socket_with_addr(table, fd, addr, addr_len)
}

/// syscall connect: the socket that connects, and the family of the remote
/// address read (see `socket_with_addr`).
pub fn sys_connect(table: &FdTable, fd: usize, addr: Option<Result<AddrFamily, SysError>>, addr_len: usize) -> (r:
    Result<(FileId, AddrFamily), SysError>)
    ensures
        fd > isize::MAX ==> r == Err::<(FileId, AddrFamily), SysError>(SysError::EBADF),
        fd <= isize::MAX ==> r == (match (read_addr_spec(addr, addr_len), slot_used(table.slots(), fd as int)) {
            (Err(e), _) => Err::<(FileId, AddrFamily), SysError>(e),
            (Ok(_), false) => Err::<(FileId, AddrFamily), SysError>(SysError::EBADF),
            (Ok(f), true) => Ok::<(FileId, AddrFamily), SysError>((table.slots()[fd as int].unwrap().file, f)),
        }),
{
    socket_with_addr(table, fd, addr, addr_len)
}

/// syscall accept: the listening socket (see `socket_file`).
pub fn sys_accept(table: &FdTable, fd: usize) -> (r: Result<FileId, SysError>)
    ensures
        fd > isize::MAX ==> r == Err::<FileId, SysError>(SysError::EBADF),
        fd <= isize::MAX && slot_used(table.slots(), fd as int) ==> r == Ok::<FileId, SysError>(
            table.slots()[fd as int].unwrap().file,
        ),
        fd <= isize::MAX && !slot_used(table.slots(), fd as int) ==> r == Err::<FileId, SysError>(
            SysError::EBADF,
        ),
{
    socket_file(table, fd)
}

/// The accepted connection's socket `file` goes on the lowest free
/// descriptor, with no descriptor flags; its number is returned.
pub fn accept_install(table: &mut FdTable, file: FileId) -> (r: SysResult)
    ensures
        final(table).rlimit == old(table).rlimit,
        ({
            let (s, res) = install_spec(
                old(table).slots(),
                old(table).rlimit.rlim_max,
                FdInfo { file, flags: FdFlags { bits: 0 } },
            );
            &&& final(table).slots() == s
            &&& match res {
                Ok(fd) => r == Ok::<isize, SysError>(fd as isize),
                Err(e) => r == Err::<isize, SysError>(e),
            }
        }),
{
    match crate::sys_fs::install_file(table, file, FdFlags::empty()) {
        Ok(fd) => Ok(fd as isize),
        Err(e) => Err(e),
    }
}

/// The largest message `sendto` takes.
pub const SEND_MAX: usize = 8192;

/// syscall sendto, its checks before the socket is used: a descriptor
/// negative as a signed number is `EBADF`; a buffer address negative as a
/// 32-bit number, or null with a non-zero length, is `EFAULT`; a message
/// above `SEND_MAX` bytes is `EMSGSIZE`.
pub fn sys_sendto(fd: usize, buf: usize, len: usize) -> (r: Result<(), SysError>)
    ensures
        fd > isize::MAX ==> r == Err::<(), SysError>(SysError::EBADF),
        fd <= isize::MAX && ((buf as i32) < 0 || (buf == 0 && len != 0)) ==> r == Err::<(), SysError>(
            SysError::EFAULT,
        ),
        fd <= isize::MAX && !((buf as i32) < 0 || (buf == 0 && len != 0)) ==> r == (if len > SEND_MAX {
            Err::<(), SysError>(SysError::EMSGSIZE)
        } else {
            Ok::<(), SysError>(())
        }),
{
    if fd > isize::MAX as usize {
        return Err(SysError::EBADF);
    }
    if (buf as i32) < 0 || (buf == 0 && len != 0) {
        return Err(SysError::EFAULT);
    }
    if len > SEND_MAX {
        return Err(SysError::EMSGSIZE);
    }
    Ok(())
}

/// Where `sendto` sends on a socket of type `sk_type`: a datagram socket
/// to the address given (`Some`, read from `addr`) or to its peer; a
/// stream socket only to its peer (an address is `EISCONN`).
pub fn sendto_target(sk_type: SocketType, addr: usize) -> (r: Result<Option<usize>, SysError>)
    requires
        sk_type == SocketType::DGRAM || sk_type == SocketType::STREAM,
    ensures
        sk_type == SocketType::DGRAM ==> r == Ok::<Option<usize>, SysError>(if addr != 0 {
            Some(addr)
        } else {
            None
        }),
        sk_type == SocketType::STREAM ==> r == (if addr != 0 {
            Err::<Option<usize>, SysError>(SysError::EISCONN)
        } else {
            Ok::<Option<usize>, SysError>(None)
        }),
{
    match sk_type {
        SocketType::DGRAM => Ok(
            if addr != 0 {
                Some(addr)
            } else {
                None
            },
        ),
        _ => {
            if addr != 0 {
                Err(SysError::EISCONN)
            } else {
                Ok(None)
            }
        },
    }
}

/// syscall recvfrom: the socket to receive from (see `socket_file`).
pub fn sys_recvfrom(table: &FdTable, fd: usize) -> (r: Result<FileId, SysError>)
    ensures
        fd > isize::MAX ==> r == Err::<FileId, SysError>(SysError::EBADF),
        fd <= isize::MAX && slot_used(table.slots(), fd as int) ==> r == Ok::<FileId, SysError>(
            table.slots()[fd as int].unwrap().file,
        ),
        fd <= isize::MAX && !slot_used(table.slots(), fd as int) ==> r == Err::<FileId, SysError>(
            SysError::EBADF,
        ),
{
    socket_file(table, fd)
}

/// The buffers `sendmsg` sends, one message each: the non-empty ones, in
/// order.
pub fn sendmsg_buffers(iovs: &Vec<crate::sys_fs::IoVec>) -> (r: Vec<crate::sys_fs::IoVec>)
    ensures
        r@ == iovs@.filter(|v: crate::sys_fs::IoVec| v.len != 0),
{
    let mut out: Vec<crate::sys_fs::IoVec> = Vec::new();
    let mut i: usize = 0;
    while i < iovs.len()
        invariant
            i <= iovs@.len(),
            out@ == iovs@.subrange(0, i as int).filter(|v: crate::sys_fs::IoVec| v.len != 0),
        decreases iovs@.len() - i,
    {
        proof {
            reveal(Seq::filter);
            assert(iovs@.subrange(0, i as int + 1).drop_last() == iovs@.subrange(0, i as int));
        }
        if iovs[i].len != 0 {
            out.push(iovs[i]);
        }
        i = i + 1;
    }
    assert(iovs@.subrange(0, iovs@.len() as int) == iovs@);
    out
}

/// The bytes placed before buffer `i` when `n` received bytes are spread
/// over the buffers in order.
pub open spec fn scatter_before(iovs: Seq<crate::sys_fs::IoVec>, n: int, i: int) -> int
    decreases i,
{
    if i <= 0 {
        0
    } else {
        let b = scatter_before(iovs, n, i - 1);
        let room = iovs[i - 1].len as int;
        if b + room <= n {
            b + room
        } else {
            n
        }
    }
}

/// How `recvmsg` spreads `received` bytes over the buffers: for each
/// buffer that gets any, its address, the offset in the received data and
/// the length, each buffer filled before the next, until the data runs
/// out. The total is the smaller of the data and the buffers' room.
pub fn recvmsg_scatter(iovs: &Vec<crate::sys_fs::IoVec>, received: usize) -> (r: (Vec<(usize, usize, usize)>, usize))
    ensures
        r.1 == scatter_before(iovs@, received as int, iovs@.len() as int),
        r.0@.len() <= iovs@.len(),
        forall|k: int| 0 <= k < r.0@.len() ==> {
            let (base, off, len) = #[trigger] r.0@[k];
            &&& base == iovs@[k].base
            &&& off == scatter_before(iovs@, received as int, k)
            &&& off < received
            &&& len == scatter_before(iovs@, received as int, k + 1) - off
        },
        r.0@.len() < iovs@.len() ==> scatter_before(iovs@, received as int, r.0@.len() as int) == received,
{
    let mut out: Vec<(usize, usize, usize)> = Vec::new();
    let mut copied: usize = 0;
    let mut i: usize = 0;
    proof {
        lemma_scatter_bound(iovs@, received as int, 0);
    }
    while i < iovs.len()
        invariant
            i <= iovs@.len(),
            out@.len() == i,
            copied == scatter_before(iovs@, received as int, i as int),
            copied <= received,
            forall|k: int| 0 <= k < i ==> {
                let (base, off, len) = #[trigger] out@[k];
                &&& base == iovs@[k].base
                &&& off == scatter_before(iovs@, received as int, k)
                &&& off < received
                &&& len == scatter_before(iovs@, received as int, k + 1) - off
            },
        ensures
            i <= iovs@.len(),
            out@.len() == i,
            copied == scatter_before(iovs@, received as int, i as int),
            forall|k: int| 0 <= k < i ==> {
                let (base, off, len) = #[trigger] out@[k];
                &&& base == iovs@[k].base
                &&& off == scatter_before(iovs@, received as int, k)
                &&& off < received
                &&& len == scatter_before(iovs@, received as int, k + 1) - off
            },
            i < iovs@.len() ==> copied == received,
        decreases iovs@.len() - i,
    {
        if copied >= received {
            break;
        }
        let room = iovs[i].len;
        let to_copy = if room <= received - copied {
            room
        } else {
            received - copied
        };
        out.push((iovs[i].base, copied, to_copy));
        copied = copied + to_copy;
        proof {
            lemma_scatter_bound(iovs@, received as int, i as int + 1);
        }
        i = i + 1;
    }
    proof {
        if i < iovs@.len() {
            lemma_scatter_stays(iovs@, received as int, i as int, iovs@.len() as int);
        }
    }
    (out, copied)
}

/// The bytes placed never exceed the data.
proof fn lemma_scatter_bound(iovs: Seq<crate::sys_fs::IoVec>, n: int, i: int)
    requires
        n >= 0,
    ensures
        0 <= scatter_before(iovs, n, i) <= n,
    decreases i,
{
    if i > 0 {
        lemma_scatter_bound(iovs, n, i - 1);
    }
}

/// Once all data is placed, later buffers get nothing.
proof fn lemma_scatter_stays(iovs: Seq<crate::sys_fs::IoVec>, n: int, i: int, j: int)
    requires
        n >= 0,
        i <= j,
        scatter_before(iovs, n, i) == n,
    ensures
        scatter_before(iovs, n, j) == n,
    decreases j - i,
{
    if j > i {
        lemma_scatter_stays(iovs, n, i, j - 1);
    }
}

/// Writing back a socket address of family `f` to `addr`: nothing for a
/// null address; otherwise the length stored with it, the size of the
/// family's address structure.
pub fn sockaddr_writer(addr: usize, f: AddrFamily) -> (r: Option<u32>)
    ensures
        addr == 0 ==> r is None,
        addr != 0 ==> r == Some(family_addr_len(f) as u32),
{
    if addr == 0 {
        return None;
    }
    Some(sockaddr_len(f))
}

/// syscall sendmsg: the socket that sends (see `socket_file`); the
/// message's buffers go out one by one (`sendmsg_buffers`), each to the
/// message's address, and the call returns the total sent.
pub fn sys_sendmsg(table: &FdTable, fd: usize) -> (r: Result<FileId, SysError>)
    ensures
        fd > isize::MAX ==> r == Err::<FileId, SysError>(SysError::EBADF),
        fd <= isize::MAX && slot_used(table.slots(), fd as int) ==> r == Ok::<FileId, SysError>(
            table.slots()[fd as int].unwrap().file,
        ),
        fd <= isize::MAX && !slot_used(table.slots(), fd as int) ==> r == Err::<FileId, SysError>(
            SysError::EBADF,
        ),
{
    socket_file(table, fd)
}

/// syscall recvmsg: the socket that receives (see `socket_file`); the data
/// received is spread over the message's buffers (`recvmsg_scatter`), and
/// the call returns the amount placed.
pub fn sys_recvmsg(table: &FdTable, fd: usize) -> (r: Result<FileId, SysError>)
    ensures
        fd > isize::MAX ==> r == Err::<FileId, SysError>(SysError::EBADF),
        fd <= isize::MAX && slot_used(table.slots(), fd as int) ==> r == Ok::<FileId, SysError>(
            table.slots()[fd as int].unwrap().file,
        ),
        fd <= isize::MAX && !slot_used(table.slots(), fd as int) ==> r == Err::<FileId, SysError>(
            SysError::EBADF,
        ),
{
    socket_file(table, fd)
}

} // verus!
