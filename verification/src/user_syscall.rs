//! The user side of the system-call interface: each call is a request
//! (a call number and six arguments, addresses given as numbers) that the
//! trap instruction hands to the kernel.

use vstd::prelude::*;

verus! {

/// Number of the `dup` system call.
pub const SYSCALL_DUP: usize = 24;

/// Number of the `chdir` system call.
pub const SYSCALL_CHDIR: usize = 49;

/// Number of the `openat` system call.
pub const SYSCALL_OPENAT: usize = 56;

/// Number of the `close` system call.
pub const SYSCALL_CLOSE: usize = 57;

/// Number of the `pipe` system call.
pub const SYSCALL_PIPE: usize = 59;

/// Number of the `read` system call.
pub const SYSCALL_READ: usize = 63;

/// Number of the `write` system call.
pub const SYSCALL_WRITE: usize = 64;

/// Number of the `exit` system call.
pub const SYSCALL_EXIT: usize = 93;

/// Number of the `yield` system call.
pub const SYSCALL_YIELD: usize = 124;

/// Number of the `kill` system call.
pub const SYSCALL_KILL: usize = 129;

/// Number of the `sigaction` system call.
pub const SYSCALL_SIGACTION: usize = 134;

/// Number of the `sigprocmask` system call.
pub const SYSCALL_SIGPROCMASK: usize = 135;

/// Number of the `sigreturn` system call.
pub const SYSCALL_SIGRETURN: usize = 139;

/// Number of the `reboot` system call.
pub const SYSCALL_REBOOT: usize = 142;

/// Number of the `gettimeofday` system call.
pub const SYSCALL_GETTIMEOFDAY: usize = 169;

/// Number of the `getpid` system call.
pub const SYSCALL_GETPID: usize = 172;

/// Number of the `socket` system call.
pub const SYSCALL_SOCKET: usize = 198;

/// Number of the `bind` system call.
pub const SYSCALL_BIND: usize = 200;

/// Number of the `listen` system call.
pub const SYSCALL_LISTEN: usize = 201;

/// Number of the `accept` system call.
pub const SYSCALL_ACCEPT: usize = 202;

/// Number of the `connect` system call.
pub const SYSCALL_CONNECT: usize = 203;

/// Number of the `sendto` system call.
pub const SYSCALL_SENDTO: usize = 206;

/// Number of the `recvfrom` system call.
pub const SYSCALL_RECVFROM: usize = 207;

/// Number of the `brk` system call.
pub const SYSCALL_BRK: usize = 214;

/// Number of the `munmap` system call.
pub const SYSCALL_MUNMAP: usize = 215;

/// Number of the `mremap` system call.
pub const SYSCALL_MREMAP: usize = 216;

/// Number of the `clone` system call.
pub const SYSCALL_CLONE: usize = 220;

/// Number of the `execve` system call.
pub const SYSCALL_EXECVE: usize = 221;

/// Number of the `mmap` system call.
pub const SYSCALL_MMAP: usize = 222;

/// Number of the `waitpid` system call.
pub const SYSCALL_WAITPID: usize = 260;


/// A system call as the trap instruction takes it.
#[derive(Clone, Copy, Debug)]
pub struct SyscallRequest {
    /// The call number.
    pub id: usize,
    /// The arguments, in registers a0 to a5.
    pub args: [usize; 6],
}

/// A request for call `id` with arguments `args`.
pub open spec fn is_request(r: SyscallRequest, id: usize, args: Seq<usize>) -> bool {
    r.id == id && r.args@ == args
}

/// Duplicate descriptor `fd`.
pub fn sys_dup(fd: usize) -> (r: SyscallRequest)
    ensures
        is_request(r, SYSCALL_DUP, seq![fd, 0, 0, 0, 0, 0]),
{
    let r = SyscallRequest { id: SYSCALL_DUP, args: [fd, 0, 0, 0, 0, 0] };
    assert(r.args@ =~= seq![fd, 0, 0, 0, 0, 0]);
    r
}

/// Change the working directory to the string at `path`.
pub fn sys_chdir(path: usize) -> (r: SyscallRequest)
    ensures
        is_request(r, SYSCALL_CHDIR, seq![path, 0, 0, 0, 0, 0]),
{
    let r = SyscallRequest { id: SYSCALL_CHDIR, args: [path, 0, 0, 0, 0, 0] };
    assert(r.args@ =~= seq![path, 0, 0, 0, 0, 0]);
    r
}

/// Open the file named by the string at `path`, relative to `dirfd`.
pub fn sys_openat(dirfd: isize, path: usize, flags: u32) -> (r: SyscallRequest)
    ensures
        is_request(r, SYSCALL_OPENAT, seq![dirfd as usize, path, flags as usize, 0, 0, 0]),
{
    let r = SyscallRequest { id: SYSCALL_OPENAT, args: [dirfd as usize, path, flags as usize, 0, 0, 0] };
    assert(r.args@ =~= seq![dirfd as usize, path, flags as usize, 0, 0, 0]);
    r
}

/// Close descriptor `fd`.
pub fn sys_close(fd: usize) -> (r: SyscallRequest)
    ensures
        is_request(r, SYSCALL_CLOSE, seq![fd, 0, 0, 0, 0, 0]),
{
    let r = SyscallRequest { id: SYSCALL_CLOSE, args: [fd, 0, 0, 0, 0, 0] };
    assert(r.args@ =~= seq![fd, 0, 0, 0, 0, 0]);
    r
}

/// Make a pipe; its descriptors go to the array at `pipe`.
pub fn sys_pipe(pipe: usize) -> (r: SyscallRequest)
    ensures
        is_request(r, SYSCALL_PIPE, seq![pipe, 0, 0, 0, 0, 0]),
{
    let r = SyscallRequest { id: SYSCALL_PIPE, args: [pipe, 0, 0, 0, 0, 0] };
    assert(r.args@ =~= seq![pipe, 0, 0, 0, 0, 0]);
    r
}

/// Read up to `len` bytes from `fd` into the buffer at `buffer`.
pub fn sys_read(fd: usize, buffer: usize, len: usize) -> (r: SyscallRequest)
    ensures
        is_request(r, SYSCALL_READ, seq![fd, buffer, len, 0, 0, 0]),
{
    let r = SyscallRequest { id: SYSCALL_READ, args: [fd, buffer, len, 0, 0, 0] };
    assert(r.args@ =~= seq![fd, buffer, len, 0, 0, 0]);
    r
}

/// Write `len` bytes of the buffer at `buffer` to `fd`.
pub fn sys_write(fd: usize, buffer: usize, len: usize) -> (r: SyscallRequest)
    ensures
        is_request(r, SYSCALL_WRITE, seq![fd, buffer, len, 0, 0, 0]),
{
    let r = SyscallRequest { id: SYSCALL_WRITE, args: [fd, buffer, len, 0, 0, 0] };
    assert(r.args@ =~= seq![fd, buffer, len, 0, 0, 0]);
    r
}

/// End the process with `exit_code` (the call does not return).
pub fn sys_exit(exit_code: i32) -> (r: SyscallRequest)
    ensures
        is_request(r, SYSCALL_EXIT, seq![exit_code as usize, 0, 0, 0, 0, 0]),
{
    let r = SyscallRequest { id: SYSCALL_EXIT, args: [exit_code as usize, 0, 0, 0, 0, 0] };
    assert(r.args@ =~= seq![exit_code as usize, 0, 0, 0, 0, 0]);
    r
}

/// Give up the processor.
pub fn sys_yield() -> (r: SyscallRequest)
    ensures
        is_request(r, SYSCALL_YIELD, seq![0, 0, 0, 0, 0, 0]),
{
    let r = SyscallRequest { id: SYSCALL_YIELD, args: [0, 0, 0, 0, 0, 0] };
    assert(r.args@ =~= seq![0, 0, 0, 0, 0, 0]);
    r
}

/// Send `signal` to process `pid`.
pub fn sys_kill(pid: usize, signal: i32) -> (r: SyscallRequest)
    ensures
        is_request(r, SYSCALL_KILL, seq![pid, signal as usize, 0, 0, 0, 0]),
{
    let r = SyscallRequest { id: SYSCALL_KILL, args: [pid, signal as usize, 0, 0, 0, 0] };
    assert(r.args@ =~= seq![pid, signal as usize, 0, 0, 0, 0]);
    r
}

/// Read the time into the time value at `tv`.
pub fn sys_get_time_of_day(tv: usize) -> (r: SyscallRequest)
    ensures
        is_request(r, SYSCALL_GETTIMEOFDAY, seq![tv, 0, 0, 0, 0, 0]),
{
    let r = SyscallRequest { id: SYSCALL_GETTIMEOFDAY, args: [tv, 0, 0, 0, 0, 0] };
    assert(r.args@ =~= seq![tv, 0, 0, 0, 0, 0]);
    r
}

/// The process id.
pub fn sys_getpid() -> (r: SyscallRequest)
    ensures
        is_request(r, SYSCALL_GETPID, seq![0, 0, 0, 0, 0, 0]),
{
    let r = SyscallRequest { id: SYSCALL_GETPID, args: [0, 0, 0, 0, 0, 0] };
    assert(r.args@ =~= seq![0, 0, 0, 0, 0, 0]);
    r
}

/// Fork: a clone with no flags.
pub fn sys_fork() -> (r: SyscallRequest)
    ensures
        is_request(r, SYSCALL_CLONE, seq![0, 0, 0, 0, 0, 0]),
{
    let r = SyscallRequest { id: SYSCALL_CLONE, args: [0, 0, 0, 0, 0, 0] };
    assert(r.args@ =~= seq![0, 0, 0, 0, 0, 0]);
    r
}

/// Clone with `flags`, a new stack and thread-local storage.
pub fn sys_clone(flags: usize, stack: usize, tls: usize) -> (r: SyscallRequest)
    ensures
        is_request(r, SYSCALL_CLONE, seq![flags, stack, tls, 0, 0, 0]),
{
    let r = SyscallRequest { id: SYSCALL_CLONE, args: [flags, stack, tls, 0, 0, 0] };
    assert(r.args@ =~= seq![flags, stack, tls, 0, 0, 0]);
    r
}

/// Run the program at the string `path` with the argument array at `args`.
pub fn sys_exec(path: usize, args: usize) -> (r: SyscallRequest)
    ensures
        is_request(r, SYSCALL_EXECVE, seq![path, args, 0, 0, 0, 0]),
{
    let r = SyscallRequest { id: SYSCALL_EXECVE, args: [path, args, 0, 0, 0, 0] };
    assert(r.args@ =~= seq![path, args, 0, 0, 0, 0]);
    r
}

/// Run the program at the string `path` with arguments and environment.
pub fn sys_execve(path: usize, argv: usize, envp: usize) -> (r: SyscallRequest)
    ensures
        is_request(r, SYSCALL_EXECVE, seq![path, argv, envp, 0, 0, 0]),
{
    let r = SyscallRequest { id: SYSCALL_EXECVE, args: [path, argv, envp, 0, 0, 0] };
    assert(r.args@ =~= seq![path, argv, envp, 0, 0, 0]);
    r
}

/// Wait for child `pid` (-1: any); its exit code goes to `exit_code`.
pub fn sys_waitpid(pid: isize, exit_code: usize) -> (r: SyscallRequest)
    ensures
        is_request(r, SYSCALL_WAITPID, seq![pid as usize, exit_code, 0, 0, 0, 0]),
{
    let r = SyscallRequest { id: SYSCALL_WAITPID, args: [pid as usize, exit_code, 0, 0, 0, 0] };
    assert(r.args@ =~= seq![pid as usize, exit_code, 0, 0, 0, 0]);
    r
}

/// Set (and read) the action of signal `signum`.
pub fn sys_sigaction(signum: i32, action: usize, old_action: usize) -> (r: SyscallRequest)
    ensures
        is_request(r, SYSCALL_SIGACTION, seq![signum as usize, action, old_action, 0, 0, 0]),
{
    let r = SyscallRequest { id: SYSCALL_SIGACTION, args: [signum as usize, action, old_action, 0, 0, 0] };
    assert(r.args@ =~= seq![signum as usize, action, old_action, 0, 0, 0]);
    r
}

/// Set the signal mask.
pub fn sys_sigprocmask(mask: u32) -> (r: SyscallRequest)
    ensures
        is_request(r, SYSCALL_SIGPROCMASK, seq![mask as usize, 0, 0, 0, 0, 0]),
{
    let r = SyscallRequest { id: SYSCALL_SIGPROCMASK, args: [mask as usize, 0, 0, 0, 0, 0] };
    assert(r.args@ =~= seq![mask as usize, 0, 0, 0, 0, 0]);
    r
}

/// Return from a signal handler.
pub fn sys_sigreturn() -> (r: SyscallRequest)
    ensures
        is_request(r, SYSCALL_SIGRETURN, seq![0, 0, 0, 0, 0, 0]),
{
    let r = SyscallRequest { id: SYSCALL_SIGRETURN, args: [0, 0, 0, 0, 0, 0] };
    assert(r.args@ =~= seq![0, 0, 0, 0, 0, 0]);
    r
}

/// Move the program break.
pub fn sys_brk(new_brk: usize) -> (r: SyscallRequest)
    ensures
        is_request(r, SYSCALL_BRK, seq![new_brk, 0, 0, 0, 0, 0]),
{
    let r = SyscallRequest { id: SYSCALL_BRK, args: [new_brk, 0, 0, 0, 0, 0] };
    assert(r.args@ =~= seq![new_brk, 0, 0, 0, 0, 0]);
    r
}

/// Make a socket.
pub fn sys_socket(domain: usize, sock_type: usize, protocal: usize) -> (r: SyscallRequest)
    ensures
        is_request(r, SYSCALL_SOCKET, seq![domain, sock_type, protocal, 0, 0, 0]),
{
    let r = SyscallRequest { id: SYSCALL_SOCKET, args: [domain, sock_type, protocal, 0, 0, 0] };
    assert(r.args@ =~= seq![domain, sock_type, protocal, 0, 0, 0]);
    r
}

/// Bind socket `fd` to the address at `addr`.
pub fn sys_bind(fd: usize, addr: usize, addr_len: u32) -> (r: SyscallRequest)
    ensures
        is_request(r, SYSCALL_BIND, seq![fd, addr, addr_len as usize, 0, 0, 0]),
{
    let r = SyscallRequest { id: SYSCALL_BIND, args: [fd, addr, addr_len as usize, 0, 0, 0] };
    assert(r.args@ =~= seq![fd, addr, addr_len as usize, 0, 0, 0]);
    r
}

/// Listen on socket `fd`.
pub fn sys_listen(fd: usize, backlog: i32) -> (r: SyscallRequest)
    ensures
        is_request(r, SYSCALL_LISTEN, seq![fd, backlog as usize, 0, 0, 0, 0]),
{
    let r = SyscallRequest { id: SYSCALL_LISTEN, args: [fd, backlog as usize, 0, 0, 0, 0] };
    assert(r.args@ =~= seq![fd, backlog as usize, 0, 0, 0, 0]);
    r
}

/// Connect socket `fd` to the address at `addr`.
pub fn sys_connect(fd: usize, addr: usize, addr_len: u32) -> (r: SyscallRequest)
    ensures
        is_request(r, SYSCALL_CONNECT, seq![fd, addr, addr_len as usize, 0, 0, 0]),
{
    let r = SyscallRequest { id: SYSCALL_CONNECT, args: [fd, addr, addr_len as usize, 0, 0, 0] };
    assert(r.args@ =~= seq![fd, addr, addr_len as usize, 0, 0, 0]);
    r
}

/// Accept a connection on socket `fd`.
pub fn sys_accept(fd: usize, addr: usize, addr_len: usize) -> (r: SyscallRequest)
    ensures
        is_request(r, SYSCALL_ACCEPT, seq![fd, addr, addr_len, 0, 0, 0]),
{
    let r = SyscallRequest { id: SYSCALL_ACCEPT, args: [fd, addr, addr_len, 0, 0, 0] };
    assert(r.args@ =~= seq![fd, addr, addr_len, 0, 0, 0]);
    r
}

/// Send `len` bytes of `buf` on `sockfd` to the address at `dest_addr`.
pub fn sys_sendto(sockfd: i32, buf: usize, len: usize, flags: i32, dest_addr: usize, addrlen: u32) -> (r: SyscallRequest)
    ensures
        is_request(r, SYSCALL_SENDTO, seq![sockfd as usize, buf, len, flags as usize, dest_addr, addrlen as usize]),
{
    let r = SyscallRequest { id: SYSCALL_SENDTO, args: [sockfd as usize, buf, len, flags as usize, dest_addr, addrlen as usize] };
    assert(r.args@ =~= seq![sockfd as usize, buf, len, flags as usize, dest_addr, addrlen as usize]);
    r
}

/// Receive up to `len` bytes on `sockfd`.
pub fn sys_recvfrom(sockfd: i32, buf: usize, len: usize, flags: i32, src_addr: usize, addrlen: usize) -> (r: SyscallRequest)
    ensures
        is_request(r, SYSCALL_RECVFROM, seq![sockfd as usize, buf, len, flags as usize, src_addr, addrlen]),
{
    let r = SyscallRequest { id: SYSCALL_RECVFROM, args: [sockfd as usize, buf, len, flags as usize, src_addr, addrlen] };
    assert(r.args@ =~= seq![sockfd as usize, buf, len, flags as usize, src_addr, addrlen]);
    r
}

/// Map memory.
pub fn sys_mmap(addr: usize, len: usize, prot: i32, flags: i32, fd: usize, offset: usize) -> (r: SyscallRequest)
    ensures
        is_request(r, SYSCALL_MMAP, seq![addr, len, prot as usize, flags as usize, fd, offset]),
{
    let r = SyscallRequest { id: SYSCALL_MMAP, args: [addr, len, prot as usize, flags as usize, fd, offset] };
    assert(r.args@ =~= seq![addr, len, prot as usize, flags as usize, fd, offset]);
    r
}

/// Remap memory.
pub fn sys_mremap(old_addr: usize, old_size: usize, new_size: usize, flags: i32, new_addr: usize) -> (r: SyscallRequest)
    ensures
        is_request(r, SYSCALL_MREMAP, seq![old_addr, old_size, new_size, flags as usize, new_addr, 0]),
{
    let r = SyscallRequest { id: SYSCALL_MREMAP, args: [old_addr, old_size, new_size, flags as usize, new_addr, 0] };
    assert(r.args@ =~= seq![old_addr, old_size, new_size, flags as usize, new_addr, 0]);
    r
}

/// Reboot or power off.
pub fn sys_shutdown(magic1: i32, magic2: i32, cmd: u32, args: usize) -> (r: SyscallRequest)
    ensures
        is_request(r, SYSCALL_REBOOT, seq![magic1 as usize, magic2 as usize, cmd as usize, args, 0, 0]),
{
    let r = SyscallRequest { id: SYSCALL_REBOOT, args: [magic1 as usize, magic2 as usize, cmd as usize, args, 0, 0] };
    assert(r.args@ =~= seq![magic1 as usize, magic2 as usize, cmd as usize, args, 0, 0]);
    r
}

} // verus!
