//! The user library: wrappers that make system-call requests, the few
//! decisions its loops take, and parsing of dotted IPv4 addresses.

use vstd::prelude::*;
use crate::time::TimeVal;
use crate::user_syscall::{
    SyscallRequest, is_request, sys_dup, sys_chdir, sys_openat, sys_close, sys_pipe, sys_read,
    sys_write, sys_exit, sys_yield, sys_kill, sys_getpid, sys_fork, sys_clone, sys_exec,
    sys_waitpid, sys_sigaction, sys_sigprocmask, sys_sigreturn, sys_brk, sys_socket, sys_bind,
    sys_listen, sys_connect, sys_accept, sys_sendto, sys_recvfrom, sys_mmap, sys_mremap,
    sys_shutdown, SYSCALL_DUP, SYSCALL_CHDIR, SYSCALL_OPENAT, SYSCALL_CLOSE, SYSCALL_PIPE,
    SYSCALL_READ, SYSCALL_WRITE, SYSCALL_EXIT, SYSCALL_YIELD, SYSCALL_KILL, SYSCALL_GETPID,
    SYSCALL_CLONE, SYSCALL_EXECVE, SYSCALL_WAITPID, SYSCALL_SIGACTION, SYSCALL_SIGPROCMASK,
    SYSCALL_SIGRETURN, SYSCALL_BRK, SYSCALL_SOCKET, SYSCALL_BIND, SYSCALL_LISTEN, SYSCALL_CONNECT,
    SYSCALL_ACCEPT, SYSCALL_SENDTO, SYSCALL_RECVFROM, SYSCALL_MMAP, SYSCALL_MREMAP, SYSCALL_REBOOT,
};

verus! {

/// Open flags of the user library.
#[derive(Clone, Copy, Debug, PartialEq, Eq, Structural)]
pub struct OpenFlags {
    /// The flag bits (`RDONLY` 0, `WRONLY` 1, `RDWR` 2, `CREATE` 1 << 9,
    /// `TRUNC` 1 << 10).
    pub bits: u32,
}

/// Clone flags of the user library.
#[derive(Clone, Copy, Debug, PartialEq, Eq, Structural)]
pub struct CloneFlags {
    /// The flag bits.
    pub bits: u64,
}

/// A set of signals, one bit per signal.
#[derive(Clone, Copy, Debug, PartialEq, Eq, Structural)]
pub struct SignalFlags {
    /// The flag bits.
    pub bits: i32,
}

/// Flags of `mmap`.
#[derive(Clone, Copy, Debug, PartialEq, Eq, Structural)]
pub struct MmapFlags {
    /// The flag bits.
    pub bits: i32,
}

/// Protections of `mmap`.
#[derive(Clone, Copy, Debug, PartialEq, Eq, Structural)]
pub struct MmapProt {
    /// The flag bits.
    pub bits: i32,
}

/// Flags of `mremap`.
#[derive(Clone, Copy, Debug, PartialEq, Eq, Structural)]
pub struct MremapFlags {
    /// The flag bits.
    pub bits: i32,
}

/// The working directory, as a directory descriptor.
pub const AT_FDCWD: isize = -100;

/// Default signal handling
pub const SIGDEF: i32 = 0;
/// Hangup.
pub const SIGHUP: i32 = 1;
/// Interrupt.
pub const SIGINT: i32 = 2;
/// Quit.
pub const SIGQUIT: i32 = 3;
/// Illegal instruction.
pub const SIGILL: i32 = 4;
/// Trace trap.
pub const SIGTRAP: i32 = 5;
/// Abort.
pub const SIGABRT: i32 = 6;
/// Bus error.
pub const SIGBUS: i32 = 7;
/// Arithmetic error.
pub const SIGFPE: i32 = 8;
/// Kill.
pub const SIGKILL: i32 = 9;
/// User signal 1.
pub const SIGUSR1: i32 = 10;
/// Segmentation fault.
pub const SIGSEGV: i32 = 11;
/// User signal 2.
pub const SIGUSR2: i32 = 12;
/// Broken pipe.
pub const SIGPIPE: i32 = 13;
/// Alarm.
pub const SIGALRM: i32 = 14;
/// Termination.
pub const SIGTERM: i32 = 15;
/// Stack fault.
pub const SIGSTKFLT: i32 = 16;
/// Child status change.
pub const SIGCHLD: i32 = 17;
/// Continue.
pub const SIGCONT: i32 = 18;
/// Stop.
pub const SIGSTOP: i32 = 19;
/// Terminal stop.
pub const SIGTSTP: i32 = 20;
/// Background read.
pub const SIGTTIN: i32 = 21;
/// Background write.
pub const SIGTTOU: i32 = 22;
/// Urgent data.
pub const SIGURG: i32 = 23;
/// CPU time limit.
pub const SIGXCPU: i32 = 24;
/// File size limit.
pub const SIGXFSZ: i32 = 25;
/// Virtual alarm.
pub const SIGVTALRM: i32 = 26;
/// Profiling alarm.
pub const SIGPROF: i32 = 27;
/// Window change.
pub const SIGWINCH: i32 = 28;
/// I/O possible.
pub const SIGIO: i32 = 29;
/// Power failure.
pub const SIGPWR: i32 = 30;
/// Bad system call.
pub const SIGSYS: i32 = 31;

/// The action taken on a signal.
#[derive(Clone, Copy, Debug, PartialEq, Eq, Structural)]
pub struct SignalAction {
    /// Address of the handler (0: default).
    pub handler: usize,
    /// Signals blocked while it runs.
    pub mask: SignalFlags,
}

impl Default for SignalAction {
    /// The default action: no handler, nothing blocked.
    fn default() -> (r: Self)
        ensures
            r.handler == 0 && r.mask.bits == 0,
    {
        Self { handler: 0, mask: SignalFlags { bits: 0 } }
    }
}

/// A new thread with `flags`, running on the stack at `stack`.
pub fn thread_create(flags: CloneFlags, stack: usize) -> (r: SyscallRequest)
    ensures
        is_request(r, SYSCALL_CLONE, seq![flags.bits as usize, stack, 0, 0, 0, 0]),
{
    sys_clone(flags.bits as usize, stack, 0)
}

/// Duplicate descriptor `fd`.
pub fn dup(fd: usize) -> (r: SyscallRequest)
    ensures
        is_request(r, SYSCALL_DUP, seq![fd, 0, 0, 0, 0, 0]),
{
    sys_dup(fd)
}

/// Change the working directory to the string at `path`.
pub fn chdir(path: usize) -> (r: SyscallRequest)
    ensures
        is_request(r, SYSCALL_CHDIR, seq![path, 0, 0, 0, 0, 0]),
{
    sys_chdir(path)
}

/// Open the file named by the string at `path`, relative to the working
/// directory.
pub fn open(path: usize, flags: OpenFlags) -> (r: SyscallRequest)
    ensures
        is_request(r, SYSCALL_OPENAT, seq![AT_FDCWD as usize, path, flags.bits as usize, 0, 0, 0]),
{
    sys_openat(AT_FDCWD, path, flags.bits)
}

/// Close descriptor `fd`.
pub fn close(fd: usize) -> (r: SyscallRequest)
    ensures
        is_request(r, SYSCALL_CLOSE, seq![fd, 0, 0, 0, 0, 0]),
{
    sys_close(fd)
}

/// Make a pipe; its descriptors go to the array at `pipe_fd`.
pub fn pipe(pipe_fd: usize) -> (r: SyscallRequest)
    ensures
        is_request(r, SYSCALL_PIPE, seq![pipe_fd, 0, 0, 0, 0, 0]),
{
    sys_pipe(pipe_fd)
}

/// Read into the buffer of `len` bytes at `buf`.
pub fn read(fd: usize, buf: usize, len: usize) -> (r: SyscallRequest)
    ensures
        is_request(r, SYSCALL_READ, seq![fd, buf, len, 0, 0, 0]),
{
    sys_read(fd, buf, len)
}

/// Write `len` bytes of the buffer at `buf`.
pub fn write(fd: usize, buf: usize, len: usize) -> (r: SyscallRequest)
    ensures
        is_request(r, SYSCALL_WRITE, seq![fd, buf, len, 0, 0, 0]),
{
    sys_write(fd, buf, len)
}

/// End the process with `exit_code`.
pub fn exit(exit_code: i32) -> (r: SyscallRequest)
    ensures
        is_request(r, SYSCALL_EXIT, seq![exit_code as usize, 0, 0, 0, 0, 0]),
{
    sys_exit(exit_code)
}

/// Give up the processor.
pub fn yield_() -> (r: SyscallRequest)
    ensures
        is_request(r, SYSCALL_YIELD, seq![0usize, 0, 0, 0, 0, 0]),
{
    sys_yield()
}

/// The time in milliseconds, from the result `ret` of `gettimeofday` and
/// the time value it filled: a failure is passed on.
pub fn get_time_ms(ret: isize, tv: TimeVal) -> (r: isize)
    requires
        ret >= 0 ==> tv.sec * 1000 + tv.usec / 1000 <= usize::MAX,
    ensures
        ret < 0 ==> r == ret,
        ret >= 0 ==> r == (tv.sec * 1000 + tv.usec / 1000) as usize as isize,
{
    if ret < 0 {
        return ret;
    }
    (tv.sec * 1000 + tv.usec / 1000) as isize
}

/// The process id.
pub fn getpid() -> (r: SyscallRequest)
    ensures
        is_request(r, SYSCALL_GETPID, seq![0usize, 0, 0, 0, 0, 0]),
{
    sys_getpid()
}

/// Fork the process.
pub fn fork() -> (r: SyscallRequest)
    ensures
        is_request(r, SYSCALL_CLONE, seq![0usize, 0, 0, 0, 0, 0]),
{
    sys_fork()
}

/// Clone with `flags`, a new stack and thread-local storage.
pub fn clone(flags: usize, stack: usize, tls: usize) -> (r: SyscallRequest)
    ensures
        is_request(r, SYSCALL_CLONE, seq![flags, stack, tls, 0, 0, 0]),
{
    sys_clone(flags, stack, tls)
}

/// Run the program at the string `path` with the argument array at `args`.
pub fn exec(path: usize, args: usize) -> (r: SyscallRequest)
    ensures
        is_request(r, SYSCALL_EXECVE, seq![path, args, 0, 0, 0, 0]),
{
    sys_exec(path, args)
}

/// The argument and environment arrays of `execve`: the addresses of the
/// strings, each array ended by a null pointer.
pub fn execve(argv: &Vec<usize>, envp: &Vec<usize>) -> (r: (Vec<usize>, Vec<usize>))
    ensures
        r.0@ == argv@.push(0),
        r.1@ == envp@.push(0),
{
    let mut a = argv.clone();
    let mut e = envp.clone();
    a.push(0);
    e.push(0);
    (a, e)
}

/// Wait for any child; its exit code goes to `exit_code`.
pub fn wait(exit_code: usize) -> (r: SyscallRequest)
    ensures
        is_request(r, SYSCALL_WAITPID, seq![-1isize as usize, exit_code, 0, 0, 0, 0]),
{
    sys_waitpid(-1, exit_code)
}

/// Wait for child `pid`; its exit code goes to `exit_code`.
pub fn waitpid(pid: usize, exit_code: usize) -> (r: SyscallRequest)
    ensures
        is_request(r, SYSCALL_WAITPID, seq![pid as isize as usize, exit_code, 0, 0, 0, 0]),
{
    sys_waitpid(pid as isize, exit_code)
}

/// Wait for child `pid` without retrying.
pub fn waitpid_nb(pid: isize, exit_code: usize) -> (r: SyscallRequest)
    ensures
        is_request(r, SYSCALL_WAITPID, seq![pid as usize, exit_code, 0, 0, 0, 0]),
{
    sys_waitpid(pid, exit_code)
}

/// What `wait` and `waitpid` do with a result: -2 (no child has exited
/// yet) means yield and ask again; anything else is the answer.
pub fn wait_retry(ret: isize) -> (r: Option<isize>)
    ensures
        ret == -2 ==> r is None,
        ret != -2 ==> r == Some(ret),
{
    if ret == -2 {
        None
    } else {
        Some(ret)
    }
}

/// Whether `sleep` keeps yielding: the time `now` is still before `start`
/// plus the period.
pub fn sleep(start: isize, now: isize, period_ms: usize) -> (r: bool)
    requires
        isize::MIN <= start + period_ms as isize <= isize::MAX,
    ensures
        r == (now < start + period_ms as isize),
{
    now < start + period_ms as isize
}

/// Send signal `signum` to process `pid`.
pub fn kill(pid: isize, signum: i32) -> (r: SyscallRequest)
    ensures
        is_request(r, SYSCALL_KILL, seq![pid as usize, signum as usize, 0, 0, 0, 0]),
{
    sys_kill(pid as usize, signum)
}

/// An address, or null when there is none.
pub open spec fn addr_or_null(a: Option<usize>) -> usize {
    match a {
        Some(a) => a,
        None => 0,
    }
}

/// Set the action of signal `signum` from the action at `action` and read
/// the old one into `old_action` (a missing address is null).
pub fn sigaction(signum: i32, action: Option<usize>, old_action: Option<usize>) -> (r: SyscallRequest)
    ensures
        is_request(
            r,
            SYSCALL_SIGACTION,
            seq![signum as usize, addr_or_null(action), addr_or_null(old_action), 0, 0, 0],
        ),
{
    let a = match action {
        Some(a) => a,
        None => 0,
    };
    let o = match old_action {
        Some(o) => o,
        None => 0,
    };
    sys_sigaction(signum, a, o)
}

/// Set the signal mask.
pub fn sigprocmask(mask: u32) -> (r: SyscallRequest)
    ensures
        is_request(r, SYSCALL_SIGPROCMASK, seq![mask as usize, 0, 0, 0, 0, 0]),
{
    sys_sigprocmask(mask)
}

/// Return from a signal handler.
pub fn sigreturn() -> (r: SyscallRequest)
    ensures
        is_request(r, SYSCALL_SIGRETURN, seq![0usize, 0, 0, 0, 0, 0]),
{
    sys_sigreturn()
}

/// Move the program break.
pub fn brk(new_brk: usize) -> (r: SyscallRequest)
    ensures
        is_request(r, SYSCALL_BRK, seq![new_brk, 0, 0, 0, 0, 0]),
{
    sys_brk(new_brk)
}

/// The IPv4 address family.
pub const AF_INET: u16 = 2;

/// An IPv4 socket address.
#[derive(Clone, Copy, Debug)]
pub struct SockaddrIn {
    /// Address family.
    pub sin_family: u16,
    /// Port.
    pub sin_port: u16,
    /// Address.
    pub sin_addr: u32,
    /// Padding.
    pub sin_zero: [u8; 8],
}

impl SockaddrIn {
    /// The IPv4 address `ip` and `port`.
    pub fn new(ip: u32, port: u16) -> (r: Self)
        ensures
            r.sin_family == AF_INET,
            r.sin_port == port,
            r.sin_addr == ip,
            forall|i: int| 0 <= i < 8 ==> r.sin_zero[i] == 0,
    {
        SockaddrIn { sin_family: AF_INET, sin_port: port, sin_addr: ip, sin_zero: [0u8; 8] }
    }
}

/// The index of the first dot of `s` at or after `from`, or its length.
pub open spec fn next_dot(s: Seq<char>, from: int) -> int
    decreases s.len() - from,
{
    if from >= s.len() || from < 0 {
        s.len() as int
    } else if s[from] == '.' {
        from
    } else {
        next_dot(s, from + 1)
    }
}

/// The parts of `s` from `from` on, split at dots.
pub open spec fn parts_from(s: Seq<char>, from: int) -> Seq<Seq<char>>
    decreases s.len() + 1 - from,
{
    if from < 0 || from > s.len() {
        Seq::empty()
    } else {
        let d = next_dot(s, from);
        if d < s.len() && from <= d {
            seq![s.subrange(from, d)] + parts_from(s, d + 1)
        } else {
            seq![s.subrange(from, s.len() as int)]
        }
    }
}

/// The decimal value of the digits `d`.
pub open spec fn dec_value(d: Seq<char>) -> int
    decreases d.len(),
{
    if d.len() == 0 {
        0
    } else {
        dec_value(d.drop_last()) * 10 + (d.last() as int - '0' as int)
    }
}

/// Whether all of `d` are decimal digits.
pub open spec fn all_digits(d: Seq<char>) -> bool {
    forall|i: int| 0 <= i < d.len() ==> '0' <= #[trigger] d[i] <= '9'
}

/// A byte written in decimal, as `u8::from_str` reads it: an optional `+`,
/// then at least one digit, worth at most 255.
pub open spec fn parse_u8(s: Seq<char>) -> Option<u8> {
    let d = if s.len() > 1 && s[0] == '+' {
        s.subrange(1, s.len() as int)
    } else {
        s
    };
    if s.len() == 0 || d.len() == 0 || !all_digits(d) || dec_value(d) > 255 {
        None
    } else {
        Some(dec_value(d) as u8)
    }
}

/// The address the parts from `k` on add to `acc`: each byte shifted into
/// place (the first to the top), or `None` at the first part that is not
/// a byte.
pub open spec fn ipv4_from(parts: Seq<Seq<char>>, k: int, acc: u32) -> Option<u32>
    decreases parts.len() - k,
{
    if k >= parts.len() || k < 0 {
        Some(acc)
    } else {
        match parse_u8(parts[k]) {
            None => None,
            Some(b) => ipv4_from(parts, k + 1, acc | ((b as u32) << ((24 - 8 * k) as u32))),
        }
    }
}

/// The parts from `k` on are read without shifting by a negative amount:
/// a fifth part is never reached with the first five all bytes.
pub open spec fn ipv4_in_range(parts: Seq<Seq<char>>, k: int) -> bool
    decreases parts.len() - k,
{
    if k >= parts.len() || k < 0 {
        true
    } else if parse_u8(parts[k]) is None {
        true
    } else {
        k < 4 && ipv4_in_range(parts, k + 1)
    }
}

proof fn lemma_next_dot(s: Seq<char>, from: int)
    requires
        0 <= from <= s.len(),
    ensures
        from <= next_dot(s, from) <= s.len(),
        next_dot(s, from) < s.len() ==> s[next_dot(s, from)] == '.',
        forall|j: int| from <= j < next_dot(s, from) ==> s[j] != '.',
    decreases s.len() - from,
{
    if from < s.len() && s[from] != '.' {
        lemma_next_dot(s, from + 1);
    }
}

/// The byte written in decimal in `s[from..to]`.
fn parse_octet(s: &str, from: usize, to: usize) -> (r: Option<u8>)
    requires
        from <= to <= s@.len(),
    ensures
        r == parse_u8(s@.subrange(from as int, to as int)),
{
    let ghost t = s@.subrange(from as int, to as int);
    if from == to {
        return None;
    }
    let mut start = from;
    if to - from > 1 && s.get_char(from) == '+' {
        start = from + 1;
    }
    let ghost d = s@.subrange(start as int, to as int);
    proof {
        if start == from + 1 {
            assert(d =~= t.subrange(1, t.len() as int));
        } else {
            assert(d =~= t);
        }
    }
    if start == to {
        return None;
    }
    assert(parse_u8(t) == (if !all_digits(d) || dec_value(d) > 255 {
        None
    } else {
        Some(dec_value(d) as u8)
    }));
    let mut value: u32 = 0;
    let mut i = start;
    while i < to
        invariant
            start <= i <= to <= s@.len(),
            d == s@.subrange(start as int, to as int),
            t == s@.subrange(from as int, to as int),
            parse_u8(t) == (if !all_digits(d) || dec_value(d) > 255 {
                None
            } else {
                Some(dec_value(d) as u8)
            }),
            value <= 255,
            value == dec_value(s@.subrange(start as int, i as int)),
            all_digits(s@.subrange(start as int, i as int)),
        decreases to - i,
    {
        let c = s.get_char(i);
        proof {
            let p = s@.subrange(start as int, i + 1);
            assert(p.drop_last() =~= s@.subrange(start as int, i as int));
        }
        if c < '0' || c > '9' {
            proof {
                assert(d[i - start] == c);
                assert(!all_digits(d));
            }
            return None;
        }
        let digit = (c as u32) - ('0' as u32);
        let next = value * 10 + digit;
        if next > 255 {
            proof {
                lemma_dec_value_grows(d, i - start + 1);
                assert(d.subrange(0, i - start + 1) =~= s@.subrange(start as int, i + 1));
                assert(dec_value(s@.subrange(start as int, i + 1)) == next);
            }
            return None;
        }
        value = next;
        proof {
            assert(all_digits(s@.subrange(start as int, i + 1)));
        }
        i = i + 1;
    }
    Some(value as u8)
}

/// The value of digits only grows as digits are added.
proof fn lemma_dec_value_grows(d: Seq<char>, n: int)
    requires
        0 <= n <= d.len(),
    ensures
        all_digits(d) ==> dec_value(d) >= dec_value(d.subrange(0, n)),
    decreases d.len() - n,
{
    if n == d.len() {
        assert(d.subrange(0, n) =~= d);
    } else if all_digits(d) {
        lemma_dec_value_grows(d, n + 1);
        let p = d.subrange(0, n + 1);
        assert(p.drop_last() =~= d.subrange(0, n));
        assert('0' <= d[n] <= '9');
        assert(all_digits(d.subrange(0, n))) by {
            assert forall|i: int| 0 <= i < n implies '0' <= #[trigger] d.subrange(0, n)[i] <= '9' by {
                assert(d.subrange(0, n)[i] == d[i]);
            }
        }
        lemma_dec_value_nonneg(d.subrange(0, n));
    }
}

proof fn lemma_dec_value_nonneg(d: Seq<char>)
    requires
        all_digits(d),
    ensures
        dec_value(d) >= 0,
    decreases d.len(),
{
    if d.len() > 0 {
        assert(all_digits(d.drop_last()));
        lemma_dec_value_nonneg(d.drop_last());
        assert('0' <= d[d.len() - 1] <= '9');
    }
}

/// Parse a dotted IPv4 address: each part between dots must be a byte in
/// decimal (`None` otherwise); part `i` is shifted left by `24 - 8 * i`
/// bits and or-ed in.
pub fn parse_ipv4(s: &str) -> (r: Option<u32>)
    requires
        ipv4_in_range(parts_from(s@, 0), 0),
    ensures
        r == ipv4_from(parts_from(s@, 0), 0, 0),
{
    let n = s.unicode_len();
    let ghost parts = parts_from(s@, 0);
    let mut addr: u32 = 0;
    let mut k: usize = 0;
    let mut start: usize = 0;
    loop
        invariant
            start <= n,
            n == s@.len(),
            parts == parts_from(s@, 0),
            k <= parts.len(),
            parts_from(s@, start as int) =~= parts.subrange(k as int, parts.len() as int),
            ipv4_from(parts, 0, 0) == ipv4_from(parts, k as int, addr),
            ipv4_in_range(parts, k as int),
            k < parts.len(),
        decreases n - start,
    {
        let mut end = start;
        while end < n && s.get_char(end) != '.'
            invariant
                start <= end <= n,
                n == s@.len(),
                next_dot(s@, start as int) == next_dot(s@, end as int),
            decreases n - end,
        {
            end = end + 1;
        }
        proof {
            lemma_next_dot(s@, start as int);
            assert(end == next_dot(s@, start as int));
            assert(parts_from(s@, start as int)[0] == s@.subrange(start as int, end as int));
            assert(parts[k as int] == s@.subrange(start as int, end as int));
        }
        let ghost old_start = start;
        let ghost old_k = k;
        let byte = match parse_octet(s, start, end) {
            Some(b) => b,
            None => return None,
        };
        let shift: u32 = 24 - 8 * (k as u32);
        addr = addr | ((byte as u32) << shift);
        k = k + 1;
        if end == n {
            proof {
                assert(parts_from(s@, start as int).len() == 1);
                assert(k == parts.len());
            }
            return Some(addr);
        }
        start = end + 1;
        proof {
            let ps = parts_from(s@, old_start as int);
            assert(ps == seq![s@.subrange(old_start as int, end as int)] + parts_from(s@, start as int));
            assert(ps.subrange(1, ps.len() as int) =~= parts_from(s@, start as int));
            assert(parts.subrange(old_k as int, parts.len() as int).subrange(1, ps.len() as int) =~= parts.subrange(k as int, parts.len() as int));
        }
    }
}

/// Make a socket.
pub fn socket(domain: i32, sock_type: i32, protocol: i32) -> (r: SyscallRequest)
    ensures
        is_request(r, SYSCALL_SOCKET, seq![domain as usize, sock_type as usize, protocol as usize, 0, 0, 0]),
{
    sys_socket(domain as usize, sock_type as usize, protocol as usize)
}

/// Bind socket `fd` to the address at `addr`.
pub fn bind(fd: usize, addr: usize, addr_len: u32) -> (r: SyscallRequest)
    ensures
        is_request(r, SYSCALL_BIND, seq![fd, addr, addr_len as usize, 0, 0, 0]),
{
    sys_bind(fd, addr, addr_len)
}

/// Listen on socket `fd`.
pub fn listen(fd: usize, backlog: i32) -> (r: SyscallRequest)
    ensures
        is_request(r, SYSCALL_LISTEN, seq![fd, backlog as usize, 0, 0, 0, 0]),
{
    sys_listen(fd, backlog)
}

/// Accept a connection on socket `fd`.
pub fn accept(fd: usize, addr: usize, addr_len: usize) -> (r: SyscallRequest)
    ensures
        is_request(r, SYSCALL_ACCEPT, seq![fd, addr, addr_len, 0, 0, 0]),
{
    sys_accept(fd, addr, addr_len)
}

/// Connect socket `fd` to the address at `addr`.
pub fn connect(fd: usize, addr: usize, addr_len: u32) -> (r: SyscallRequest)
    ensures
        is_request(r, SYSCALL_CONNECT, seq![fd, addr, addr_len as usize, 0, 0, 0]),
{
    sys_connect(fd, addr, addr_len)
}

/// Send `len` bytes of the buffer at `buf` to the address at `addr`.
pub fn sendto(fd: usize, buf: usize, len: usize, flags: i32, addr: usize, addr_len: u32) -> (r:
    SyscallRequest)
    ensures
        is_request(
            r,
            SYSCALL_SENDTO,
            seq![fd as i32 as usize, buf, len, flags as usize, addr, addr_len as usize],
        ),
{
    sys_sendto(fd as i32, buf, len, flags, addr, addr_len)
}

/// Receive up to `len` bytes into the buffer at `buf`.
pub fn recvfrom(fd: usize, buf: usize, len: usize, flags: i32, addr: usize, addr_len: usize) -> (r:
    SyscallRequest)
    ensures
        is_request(
            r,
            SYSCALL_RECVFROM,
            seq![fd as i32 as usize, buf, len, flags as usize, addr, addr_len],
        ),
{
    sys_recvfrom(fd as i32, buf, len, flags, addr, addr_len)
}

/// Map memory.
pub fn mmap(addr: usize, len: usize, prot: MmapProt, flags: MmapFlags, fd: usize, offset: usize) -> (r:
    SyscallRequest)
    ensures
        is_request(
            r,
            SYSCALL_MMAP,
            seq![addr, len, prot.bits as usize, flags.bits as usize, fd, offset],
        ),
{
    sys_mmap(addr, len, prot.bits, flags.bits, fd, offset)
}

/// Remap memory.
pub fn mremap(old_addr: usize, old_size: usize, new_size: usize, flags: MremapFlags, new_addr: usize) -> (r:
    SyscallRequest)
    ensures
        is_request(
            r,
            SYSCALL_MREMAP,
            seq![old_addr, old_size, new_size, flags.bits as usize, new_addr, 0],
        ),
{
    sys_mremap(old_addr, old_size, new_size, flags.bits, new_addr)
}

/// Power off.
pub fn shutdown() -> (r: SyscallRequest)
    ensures
        is_request(r, SYSCALL_REBOOT, seq![0usize, 0, 0, 0, 0, 0]),
{
    sys_shutdown(0, 0, 0, 0)
}

} // verus!
