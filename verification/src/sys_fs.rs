//! File-system system calls, as far as they are decided by the descriptor
//! table and the arguments. Reading and writing user memory, and the work of
//! the file objects themselves, is left to the caller; where a call goes on
//! to a file object, the function returns the file to act on.

use vstd::prelude::*;
use crate::errno::{SysError, SysResult};
use crate::fd_table::{FdTable, FdInfo, FdFlags, FileId, slot_used, first_free, padded, dup_from_spec, FD_CLOEXEC};
use crate::time::TimeSpec;

verus! {

/// `O_APPEND` open flag.
pub const O_APPEND: u32 = 0o2000;
/// `O_NONBLOCK` open flag.
pub const O_NONBLOCK: u32 = 0o4000;
/// `O_ASYNC` open flag.
pub const O_ASYNC: u32 = 0o20000;
/// `O_DIRECT` open flag.
pub const O_DIRECT: u32 = 0o40000;
/// `O_NOATIME` open flag.
pub const O_NOATIME: u32 = 0o1000000;
/// `O_CLOEXEC` open flag.
pub const O_CLOEXEC: u32 = 0o2000000;

/// `AT_SYMLINK_NOFOLLOW`.
pub const AT_SYMLINK_NOFOLLOW: i32 = 0x100;
/// `AT_EACCESS`: test access for effective ids.
pub const AT_EACCESS: i32 = 0x200;
/// `AT_EMPTY_PATH`.
pub const AT_EMPTY_PATH: i32 = 0x1000;

/// `access` mode: existence.
pub const F_OK: i32 = 0;
/// `access` mode: execute.
pub const X_OK: i32 = 1;
/// `access` mode: write.
pub const W_OK: i32 = 2;
/// `access` mode: read.
pub const R_OK: i32 = 4;

/// Descriptor flags for a file opened with the given open flags:
/// close-on-exec exactly when `O_CLOEXEC` is among them.
pub fn fd_flags_from_open_flags(open_flags: u32) -> (r: FdFlags)
    ensures
        r.bits == (if open_flags & O_CLOEXEC != 0 {
            FD_CLOEXEC
        } else {
            0u8
        }),
{
    if open_flags & O_CLOEXEC != 0 {
        FdFlags::cloexec()
    } else {
        FdFlags::empty()
    }
}

/// The slots and result after putting `info` on the lowest free descriptor
/// of `s` under the hard limit `max`.
pub open spec fn install_spec(s: Seq<Option<FdInfo>>, max: usize, info: FdInfo) -> (Seq<Option<FdInfo>>, Result<usize, SysError>) {
    let f = first_free(s, 0);
    if f < s.len() {
        (s.update(f, Some(info)), Ok::<usize, SysError>(f as usize))
    } else if s.len() < max {
        (s.push(Some(info)), Ok::<usize, SysError>(s.len() as usize))
    } else {
        (s, Err::<usize, SysError>(SysError::EBADF))
    }
}

/// Put `file` on the lowest free descriptor (growing the table by one slot
/// when it is full and under the limit), with the given flags.
pub fn install_file(table: &mut FdTable, file: FileId, flags: FdFlags) -> (r: Result<usize, SysError>)
    ensures
        final(table).rlimit == old(table).rlimit,
        (final(table).slots(), r) == install_spec(
            old(table).slots(),
            old(table).rlimit.rlim_max,
            FdInfo { file, flags },
        ),
{
    let fd = match table.alloc_fd() {
        Ok(fd) => fd,
        Err(e) => return Err(e),
    };
    let ghost before = table.slots();
    let _ = table.put_file(fd, FdInfo { file, flags });
    proof {
        let s = old(table).slots();
        let f = first_free(s, 0);
        crate::fd_table::lemma_first_free(s, 0);
        assert(s.len() == old(table).fd_table.len());
        if f < s.len() {
            assert(before == s);
            assert(fd as int == f);
        } else {
            assert(before == s.push(None));
            assert(s.push(None).update(s.len() as int, Some(FdInfo { file, flags })) =~= s.push(
                Some(FdInfo { file, flags }),
            ));
        }
    }
    Ok(fd)
}

/// A temporary file `file` on a new descriptor, with no flags.
pub fn tmp_fd(table: &mut FdTable, file: FileId) -> (r: Result<usize, SysError>)
    ensures
        final(table).rlimit == old(table).rlimit,
        ({
            let s = old(table).slots();
            let f = first_free(s, 0);
            let info = Some(FdInfo { file, flags: FdFlags { bits: 0 } });
            if f < s.len() {
                r == Ok::<usize, SysError>(f as usize) && final(table).slots() == s.update(f, info)
            } else if s.len() < old(table).rlimit.rlim_max {
                r == Ok::<usize, SysError>(s.len() as usize) && final(table).slots() == s.push(info)
            } else {
                r == Err::<usize, SysError>(SysError::EBADF) && final(table).slots() == s
            }
        }),
{
    install_file(table, file, FdFlags::empty())
}

/// A system call that is not implemented: its caller gets a descriptor on
/// the placeholder file `file`.
pub fn sys_allocfd(table: &mut FdTable, file: FileId) -> (r: SysResult)
    ensures
        final(table).rlimit == old(table).rlimit,
        ({
            let s = old(table).slots();
            let f = first_free(s, 0);
            let info = Some(FdInfo { file, flags: FdFlags { bits: 0 } });
            if f < s.len() {
                r == Ok::<isize, SysError>((f as usize) as isize) && final(table).slots() == s.update(f, info)
            } else if s.len() < old(table).rlimit.rlim_max {
                r == Ok::<isize, SysError>((s.len() as usize) as isize) && final(table).slots() == s.push(info)
            } else {
                r == Err::<isize, SysError>(SysError::EBADF) && final(table).slots() == s
            }
        }),
{
    match tmp_fd(table, file) {
        Ok(fd) => Ok(fd as isize),
        Err(e) => Err(e),
    }
}

/// syscall close.
pub fn sys_close(table: &mut FdTable, fd: usize) -> (r: SysResult)
    ensures
        final(table).rlimit == old(table).rlimit,
        slot_used(old(table).slots(), fd as int) ==> r == Ok::<isize, SysError>(0) && final(table).slots() == old(table).slots().update(fd as int, None),
        !slot_used(old(table).slots(), fd as int) ==> r == Err::<isize, SysError>(SysError::EBADF)
            && final(table).slots() == old(table).slots(),
{
    match table.remove(fd) {
        Ok(()) => Ok(0),
        Err(e) => Err(e),
    }
}

/// syscall dup: the lowest free descriptor below the limit becomes a copy
/// of `old_fd`, without flags (see `dup_from_spec`).
pub fn sys_dup(table: &mut FdTable, old_fd: usize) -> (r: SysResult)
    ensures
        final(table).rlimit == old(table).rlimit,
        ({
            let (t, res) = dup_from_spec(old(table).slots(), old(table).rlimit.rlim_max, 0, old_fd, FdFlags { bits: 0 });
            &&& final(table).slots() == t
            &&& r == (match res {
                Ok(fd) => Ok::<isize, SysError>(fd as isize),
                Err(e) => Err::<isize, SysError>(e),
            })
        }),
{
    match table.dup_no_flag(old_fd) {
        Ok(fd) => Ok(fd as isize),
        Err(e) => Err(e),
    }
}

/// syscall dup3. `flags` is the descriptor flags of the open-flags argument,
/// or `None` when the file system rejected that argument. The same
/// descriptor twice is `EINVAL`; a closed `old_fd`, or a `new_fd` at or
/// above the descriptor limit, is `EBADF`.
pub fn sys_dup3(table: &mut FdTable, old_fd: usize, new_fd: usize, flags: Option<FdFlags>) -> (r:
    SysResult)
    ensures
        final(table).rlimit == old(table).rlimit,
        ({
            let s = old(table).slots();
            if flags is None || old_fd == new_fd {
                r == Err::<isize, SysError>(SysError::EINVAL) && final(table).slots() == s
            } else if !slot_used(s, old_fd as int) || new_fd >= old(table).rlimit.rlim_max {
                r == Err::<isize, SysError>(SysError::EBADF) && final(table).slots() == s
            } else {
                r == Ok::<isize, SysError>(new_fd as isize) && final(table).slots() == padded(
                    s,
                    new_fd as int,
                ).update(
                    new_fd as int,
                    Some(FdInfo { file: s[old_fd as int].unwrap().file, flags: flags.unwrap() }),
                )
            }
        }),
{
    let flags = match flags {
        Some(f) => f,
        None => return Err(SysError::EINVAL),
    };
    if old_fd == new_fd {
        return Err(SysError::EINVAL);
    }
    match table.dup3(old_fd, new_fd, flags) {
        Ok(fd) => Ok(fd as isize),
        Err(e) => Err(e),
    }
}

/// syscall pipe2: descriptors for the read and write ends of a new pipe,
/// each with descriptor flags `flags`.
pub fn sys_pipe2(table: &mut FdTable, read_file: FileId, write_file: FileId, flags: FdFlags) -> (r:
    Result<(usize, usize), SysError>)
    ensures
        final(table).rlimit == old(table).rlimit,
        ({
            let max = old(table).rlimit.rlim_max;
            let (s1, r1) = install_spec(old(table).slots(), max, FdInfo { file: read_file, flags });
            let (s2, r2) = install_spec(s1, max, FdInfo { file: write_file, flags });
            if r1 is Err {
                r == Err::<(usize, usize), SysError>(SysError::EBADF) && final(table).slots()
                    == old(table).slots()
            } else if r2 is Err {
                r == Err::<(usize, usize), SysError>(SysError::EBADF) && final(table).slots()
                    == s1
            } else {
                r == Ok::<(usize, usize), SysError>((r1->Ok_0, r2->Ok_0)) && final(table).slots() == s2
            }
        }),
{
    let rfd = match install_file(table, read_file, flags) {
        Ok(fd) => fd,
        Err(e) => return Err(e),
    };
    let wfd = match install_file(table, write_file, flags) {
        Ok(fd) => fd,
        Err(e) => return Err(e),
    };
    Ok((rfd, wfd))
}

/// The operations of `fcntl` (torvalds/linux/include/uapi/asm-generic/fcntl.h).
#[derive(Clone, Copy, Debug, PartialEq, Eq, Structural)]
#[allow(non_camel_case_types)]
pub enum FcntlOp {
    /// Duplicate onto the lowest free descriptor at or above the argument.
    F_DUPFD,
    /// As `F_DUPFD`, with close-on-exec.
    F_DUPFD_CLOEXEC,
    /// Get the descriptor flags.
    F_GETFD,
    /// Set the descriptor flags.
    F_SETFD,
    /// Get the file status flags.
    F_GETFL,
    /// Set the file status flags.
    F_SETFL,
    /// Get a record lock.
    F_GETLK,
    /// Set a record lock.
    F_SETLK,
    /// Set a record lock, waiting.
    F_SETLKW,
    /// Set the owner (sockets).
    F_SETOWN,
    /// Get the owner (sockets).
    F_GETOWN,
    /// Set the signal (sockets).
    F_SETSIG,
    /// Get the signal (sockets).
    F_GETSIG,
    /// Get a record lock (64-bit).
    F_GETLK64,
    /// Set a record lock (64-bit).
    F_SETLK64,
    /// Set a record lock, waiting (64-bit).
    F_SETLKW64,
    /// Set the owner, extended.
    F_SETOWN_EX,
    /// Get the owner, extended.
    F_GETOWN_EX,
    /// Get the owner uids.
    F_GETOWNER_UIDS,
    /// Any other number.
    F_UNIMPL,
}

impl FcntlOp {
    /// The number of the operation (`F_UNIMPL` has none).
    pub open spec fn spec_number(self) -> Option<int> {
        match self {
            FcntlOp::F_DUPFD => Some(0),
            FcntlOp::F_DUPFD_CLOEXEC => Some(1030),
            FcntlOp::F_GETFD => Some(1),
            FcntlOp::F_SETFD => Some(2),
            FcntlOp::F_GETFL => Some(3),
            FcntlOp::F_SETFL => Some(4),
            FcntlOp::F_GETLK => Some(5),
            FcntlOp::F_SETLK => Some(6),
            FcntlOp::F_SETLKW => Some(7),
            FcntlOp::F_SETOWN => Some(8),
            FcntlOp::F_GETOWN => Some(9),
            FcntlOp::F_SETSIG => Some(10),
            FcntlOp::F_GETSIG => Some(11),
            FcntlOp::F_GETLK64 => Some(12),
            FcntlOp::F_SETLK64 => Some(13),
            FcntlOp::F_SETLKW64 => Some(14),
            FcntlOp::F_SETOWN_EX => Some(15),
            FcntlOp::F_GETOWN_EX => Some(16),
            FcntlOp::F_GETOWNER_UIDS => Some(17),
            FcntlOp::F_UNIMPL => None,
        }
    }

    /// The operation with number `op`; `F_UNIMPL` for any other number.
    pub fn from_repr(op: isize) -> (r: FcntlOp)
        ensures
            r.spec_number() == Some(op as int) || (r == FcntlOp::F_UNIMPL && forall|o: FcntlOp|
                #[trigger] o.spec_number() != Some(op as int)),
    {
        match op {
            0 => FcntlOp::F_DUPFD,
            1030 => FcntlOp::F_DUPFD_CLOEXEC,
            1 => FcntlOp::F_GETFD,
            2 => FcntlOp::F_SETFD,
            3 => FcntlOp::F_GETFL,
            4 => FcntlOp::F_SETFL,
            5 => FcntlOp::F_GETLK,
            6 => FcntlOp::F_SETLK,
            7 => FcntlOp::F_SETLKW,
            8 => FcntlOp::F_SETOWN,
            9 => FcntlOp::F_GETOWN,
            10 => FcntlOp::F_SETSIG,
            11 => FcntlOp::F_GETSIG,
            12 => FcntlOp::F_GETLK64,
            13 => FcntlOp::F_SETLK64,
            14 => FcntlOp::F_SETLKW64,
            15 => FcntlOp::F_SETOWN_EX,
            16 => FcntlOp::F_GETOWN_EX,
            17 => FcntlOp::F_GETOWNER_UIDS,
            _ => FcntlOp::F_UNIMPL,
        }
    }
}

/// What `fcntl` answers: a value, or a request on the open file's status flags.
#[derive(Clone, Copy, Debug, PartialEq, Eq, Structural)]
pub enum FcntlReply {
    /// Return this value.
    Value(isize),
    /// Return the status flags of this file.
    GetFileFlags(FileId),
    /// Replace the status flags of this file with `fcntl_setfl_flags(old, arg)`, and return 0.
    SetFileFlags(FileId, usize),
}

/// The status flags `F_SETFL` may change.
pub const SETFL_MASK: u32 = 0o2000 | 0o4000 | 0o20000 | 0o40000 | 0o1000000;

/// New status flags for `F_SETFL`: the changeable bits come from `arg`, the
/// others stay as in `old`.
pub fn fcntl_setfl_flags(old: u32, arg: usize) -> (r: u32)
    ensures
        r == (old & !SETFL_MASK) | ((arg as u32) & SETFL_MASK),
{
    (old & !SETFL_MASK) | ((arg as u32) & SETFL_MASK)
}

/// syscall fcntl.
pub fn sys_fnctl(table: &mut FdTable, fd: usize, op: isize, arg: usize) -> (r: Result<
    FcntlReply,
    SysError,
>)
    ensures
        final(table).rlimit == old(table).rlimit,
        ({
            let s = old(table).slots();
            let o = FcntlOp::from_repr_spec(op);
            match o {
                FcntlOp::F_DUPFD | FcntlOp::F_DUPFD_CLOEXEC => {
                    let flags = if o == FcntlOp::F_DUPFD {
                        FdFlags { bits: 0 }
                    } else {
                        FdFlags { bits: 1 }
                    };
                    let (t, res) = dup_from_spec(s, old(table).rlimit.rlim_max, arg, fd, flags);
                    &&& final(table).slots() == t
                    &&& r == (match res {
                        Ok(n) => Ok::<FcntlReply, SysError>(FcntlReply::Value(n as isize)),
                        Err(e) => Err::<FcntlReply, SysError>(e),
                    })
                },
                FcntlOp::F_GETFD => final(table).slots() == s && if slot_used(s, fd as int) {
                    r == Ok::<FcntlReply, SysError>(
                        FcntlReply::Value(s[fd as int].unwrap().flags.bits as isize),
                    )
                } else {
                    r == Err::<FcntlReply, SysError>(SysError::EBADF)
                },
                FcntlOp::F_SETFD => if slot_used(s, fd as int) {
                    r == Ok::<FcntlReply, SysError>(FcntlReply::Value(0)) && final(table).slots()
                        == s.update(
                        fd as int,
                        Some(
                            FdInfo {
                                file: s[fd as int].unwrap().file,
                                flags: FdFlags { bits: (arg as u8) & 1 },
                            },
                        ),
                    )
                } else {
                    r == Err::<FcntlReply, SysError>(SysError::EBADF) && final(table).slots() == s
                },
                FcntlOp::F_GETFL => final(table).slots() == s && if slot_used(s, fd as int) {
                    r == Ok::<FcntlReply, SysError>(
                        FcntlReply::GetFileFlags(s[fd as int].unwrap().file),
                    )
                } else {
                    r == Err::<FcntlReply, SysError>(SysError::EBADF)
                },
                FcntlOp::F_SETFL => final(table).slots() == s && if slot_used(s, fd as int) {
                    r == Ok::<FcntlReply, SysError>(
                        FcntlReply::SetFileFlags(s[fd as int].unwrap().file, arg),
                    )
                } else {
                    r == Err::<FcntlReply, SysError>(SysError::EBADF)
                },
                _ => final(table).slots() == s && r == Ok::<FcntlReply, SysError>(
                    FcntlReply::Value(0),
                ),
            }
        }),
{
    let o = FcntlOp::from_repr(op);
    proof {
        FcntlOp::lemma_from_repr_spec(op, o);
    }
    match o {
        FcntlOp::F_DUPFD => match table.dup_with_bound(fd, arg, FdFlags::empty()) {
            Ok(nfd) => Ok(FcntlReply::Value(nfd as isize)),
            Err(e) => Err(e),
        },
        FcntlOp::F_DUPFD_CLOEXEC => match table.dup_with_bound(fd, arg, FdFlags::cloexec()) {
            Ok(nfd) => Ok(FcntlReply::Value(nfd as isize)),
            Err(e) => Err(e),
        },
        FcntlOp::F_GETFD => match table.get_fd_info(fd) {
            Ok(info) => Ok(FcntlReply::Value(info.flags().bits() as isize)),
            Err(e) => Err(e),
        },
        FcntlOp::F_SETFD => {
            let fd_flags = FdFlags::from_bits_truncate(arg as u8);
            match table.get_mut_fd_info(fd) {
                Ok(info) => {
                    info.set_flags(fd_flags);
                    Ok(FcntlReply::Value(0))
                },
                Err(e) => Err(e),
            }
        },
        FcntlOp::F_GETFL => match table.get_file(fd) {
            Ok(file) => Ok(FcntlReply::GetFileFlags(file)),
            Err(e) => Err(e),
        },
        FcntlOp::F_SETFL => match table.get_file(fd) {
            Ok(file) => Ok(FcntlReply::SetFileFlags(file, arg)),
            Err(e) => Err(e),
        },
        _ => Ok(FcntlReply::Value(0)),
    }
}

impl FcntlOp {
    /// The operation `from_repr` gives for `op`.
    pub open spec fn from_repr_spec(op: isize) -> FcntlOp {
        if op == 0 {
            FcntlOp::F_DUPFD
        } else if op == 1030 {
            FcntlOp::F_DUPFD_CLOEXEC
        } else if op == 1 {
            FcntlOp::F_GETFD
        } else if op == 2 {
            FcntlOp::F_SETFD
        } else if op == 3 {
            FcntlOp::F_GETFL
        } else if op == 4 {
            FcntlOp::F_SETFL
        } else if op == 5 {
            FcntlOp::F_GETLK
        } else if op == 6 {
            FcntlOp::F_SETLK
        } else if op == 7 {
            FcntlOp::F_SETLKW
        } else if op == 8 {
            FcntlOp::F_SETOWN
        } else if op == 9 {
            FcntlOp::F_GETOWN
        } else if op == 10 {
            FcntlOp::F_SETSIG
        } else if op == 11 {
            FcntlOp::F_GETSIG
        } else if op == 12 {
            FcntlOp::F_GETLK64
        } else if op == 13 {
            FcntlOp::F_SETLK64
        } else if op == 14 {
            FcntlOp::F_SETLKW64
        } else if op == 15 {
            FcntlOp::F_SETOWN_EX
        } else if op == 16 {
            FcntlOp::F_GETOWN_EX
        } else if op == 17 {
            FcntlOp::F_GETOWNER_UIDS
        } else {
            FcntlOp::F_UNIMPL
        }
    }

    /// `from_repr` computes `from_repr_spec`.
    pub proof fn lemma_from_repr_spec(op: isize, o: FcntlOp)
        requires
            o.spec_number() == Some(op as int) || (o == FcntlOp::F_UNIMPL && forall|x: FcntlOp|
                #[trigger] x.spec_number() != Some(op as int)),
        ensures
            o == FcntlOp::from_repr_spec(op),
    {
        if o == FcntlOp::F_UNIMPL {
            assert(FcntlOp::F_DUPFD.spec_number() != Some(op as int));
            assert(FcntlOp::F_DUPFD_CLOEXEC.spec_number() != Some(op as int));
            assert(FcntlOp::F_GETFD.spec_number() != Some(op as int));
            assert(FcntlOp::F_SETFD.spec_number() != Some(op as int));
            assert(FcntlOp::F_GETFL.spec_number() != Some(op as int));
            assert(FcntlOp::F_SETFL.spec_number() != Some(op as int));
            assert(FcntlOp::F_GETLK.spec_number() != Some(op as int));
            assert(FcntlOp::F_SETLK.spec_number() != Some(op as int));
            assert(FcntlOp::F_SETLKW.spec_number() != Some(op as int));
            assert(FcntlOp::F_SETOWN.spec_number() != Some(op as int));
            assert(FcntlOp::F_GETOWN.spec_number() != Some(op as int));
            assert(FcntlOp::F_SETSIG.spec_number() != Some(op as int));
            assert(FcntlOp::F_GETSIG.spec_number() != Some(op as int));
            assert(FcntlOp::F_GETLK64.spec_number() != Some(op as int));
            assert(FcntlOp::F_SETLK64.spec_number() != Some(op as int));
            assert(FcntlOp::F_SETLKW64.spec_number() != Some(op as int));
            assert(FcntlOp::F_SETOWN_EX.spec_number() != Some(op as int));
            assert(FcntlOp::F_GETOWN_EX.spec_number() != Some(op as int));
            assert(FcntlOp::F_GETOWNER_UIDS.spec_number() != Some(op as int));
        }
    }
}


/// The file descriptor `fd` refers to, for a call that goes on to the file
/// object (`EBADF` when `fd` is not open).
fn file_of(table: &FdTable, fd: usize) -> (r: Result<FileId, SysError>)
    ensures
        slot_used(table.slots(), fd as int) ==> r == Ok::<FileId, SysError>(
            table.slots()[fd as int].unwrap().file,
        ),
        !slot_used(table.slots(), fd as int) ==> r == Err::<FileId, SysError>(SysError::EBADF),
{
    table.get_file(fd)
}

/// syscall fdatasync: succeeds on an open descriptor.
pub fn sys_fdatasync(table: &FdTable, fd: usize) -> (r: SysResult)
    ensures
        slot_used(table.slots(), fd as int) ==> r == Ok::<isize, SysError>(0),
        !slot_used(table.slots(), fd as int) ==> r == Err::<isize, SysError>(SysError::EBADF),
{
    match table.get_file(fd) {
        Ok(_) => Ok(0),
        Err(e) => Err(e),
    }
}

/// syscall ioctl: the file whose `ioctl` handles the request.
pub fn sys_ioctl(table: &FdTable, fd: usize) -> (r: Result<FileId, SysError>)
    ensures
        slot_used(table.slots(), fd as int) ==> r == Ok::<FileId, SysError>(
            table.slots()[fd as int].unwrap().file,
        ),
        !slot_used(table.slots(), fd as int) ==> r == Err::<FileId, SysError>(SysError::EBADF),
{
    file_of(table, fd)
}

/// syscall ftruncate: the file whose inode is truncated.
pub fn sys_ftruncate(table: &FdTable, fd: usize) -> (r: Result<FileId, SysError>)
    ensures
        slot_used(table.slots(), fd as int) ==> r == Ok::<FileId, SysError>(
            table.slots()[fd as int].unwrap().file,
        ),
        !slot_used(table.slots(), fd as int) ==> r == Err::<FileId, SysError>(SysError::EBADF),
{
    file_of(table, fd)
}

/// syscall fchdir: the directory file that becomes the working directory.
pub fn sys_fchdir(table: &FdTable, fd: usize) -> (r: Result<FileId, SysError>)
    ensures
        slot_used(table.slots(), fd as int) ==> r == Ok::<FileId, SysError>(
            table.slots()[fd as int].unwrap().file,
        ),
        !slot_used(table.slots(), fd as int) ==> r == Err::<FileId, SysError>(SysError::EBADF),
{
    file_of(table, fd)
}

/// Where `lseek` moves the file offset.
#[derive(Clone, Copy, Debug, PartialEq, Eq, Structural)]
pub enum SeekFrom {
    /// From the start of the file.
    Start(u64),
    /// From the current offset.
    Current(i64),
    /// From the end of the file.
    End(i64),
}

/// syscall lseek: the file and where to move its offset. Bad descriptors are
/// `EBADF`; a `whence` other than `SEEK_SET`, `SEEK_CUR` and `SEEK_END` is `EINVAL`.
pub fn sys_lseek(table: &FdTable, fd: usize, offset: isize, whence: usize) -> (r: Result<
    (FileId, SeekFrom),
    SysError,
>)
    ensures
        !slot_used(table.slots(), fd as int) ==> r == Err::<(FileId, SeekFrom), SysError>(
            SysError::EBADF,
        ),
        slot_used(table.slots(), fd as int) ==> ({
            let file = table.slots()[fd as int].unwrap().file;
            if whence == 0 {
                r == Ok::<(FileId, SeekFrom), SysError>((file, SeekFrom::Start(offset as u64)))
            } else if whence == 1 {
                r == Ok::<(FileId, SeekFrom), SysError>((file, SeekFrom::Current(offset as i64)))
            } else if whence == 2 {
                r == Ok::<(FileId, SeekFrom), SysError>((file, SeekFrom::End(offset as i64)))
            } else {
                r == Err::<(FileId, SeekFrom), SysError>(SysError::EINVAL)
            }
        }),
{
    let file = match table.get_file(fd) {
        Ok(f) => f,
        Err(e) => return Err(e),
    };
    if whence == 0 {
        Ok((file, SeekFrom::Start(offset as u64)))
    } else if whence == 1 {
        Ok((file, SeekFrom::Current(offset as i64)))
    } else if whence == 2 {
        Ok((file, SeekFrom::End(offset as i64)))
    } else {
        Err(SysError::EINVAL)
    }
}

/// syscall getcwd: the bytes to copy into the user's buffer of `len` bytes,
/// the path then zeros; `ERANGE` when the path and its terminating zero do not fit.
pub fn sys_getcwd(path: &[u8], len: usize) -> (r: Result<Vec<u8>, SysError>)
    ensures
        len < path@.len() + 1 ==> r == Err::<Vec<u8>, SysError>(SysError::ERANGE),
        len >= path@.len() + 1 ==> (r matches Ok(b) && b@ == path@ + Seq::new(
            (len - path@.len()) as nat,
            |i: int| 0u8,
        )),
{
    if len < path.len() || len - path.len() < 1 {
        return Err(SysError::ERANGE);
    }
    let mut out: Vec<u8> = Vec::new();
    let mut i: usize = 0;
    while i < len
        invariant
            i <= len,
            len >= path@.len() + 1,
            out@.len() == i,
            forall|j: int| 0 <= j < i ==> #[trigger] out@[j] == (if j < path@.len() {
                path@[j]
            } else {
                0u8
            }),
        decreases len - i,
    {
        if i < path.len() {
            out.push(path[i]);
        } else {
            out.push(0u8);
        }
        i = i + 1;
    }
    assert(out@ =~= path@ + Seq::new((len - path@.len()) as nat, |i: int| 0u8));
    Ok(out)
}

/// syscall readlinkat, once the link target is known: the bytes to copy into
/// the user's buffer of `len` bytes, which are the target cut to `len` (no
/// terminating NUL is added, and the rest of the buffer is left as it was),
/// and the return value, the number of bytes copied. A length that is not
/// positive as a signed number is `EINVAL`.
pub fn readlink_fill(target: &[u8], len: usize) -> (r: Result<(Vec<u8>, isize), SysError>)
    requires
        target@.len() <= isize::MAX,
    ensures
        (len as isize) <= 0 ==> r == Err::<(Vec<u8>, isize), SysError>(SysError::EINVAL),
        (len as isize) > 0 ==> (r matches Ok((b, n)) && b@ == target@.subrange(
            0,
            if len < target@.len() { len as int } else { target@.len() as int },
        ) && n == b@.len()),
{
    if (len as isize) <= 0 {
        return Err(SysError::EINVAL);
    }
    let copy: usize = if len < target.len() {
        len
    } else {
        target.len()
    };
    let mut out: Vec<u8> = Vec::new();
    let mut i: usize = 0;
    while i < copy
        invariant
            i <= copy,
            copy <= target@.len(),
            out@ == target@.subrange(0, i as int),
        decreases copy - i,
    {
        out.push(target[i]);
        proof {
            assert(out@ =~= target@.subrange(0, i + 1));
        }
        i = i + 1;
    }
    Ok((out, copy as isize))
}

/// Set-user-id bit of a file mode.
pub const S_ISUID: u32 = 0o4000;
/// Set-group-id bit of a file mode.
pub const S_ISGID: u32 = 0o2000;
/// Group execute bit of a file mode.
pub const S_IXGRP: u32 = 0o10;
/// File type bits of a file mode.
pub const S_IFMT: u32 = 0o170000;

/// Mode after a change of owner: set-user-id is cleared; set-group-id is
/// cleared too when the group may execute the file; the type is kept.
pub fn chown_mode(old_mode: u32) -> (r: u32)
    ensures
        r == (if old_mode & S_IXGRP == 0 {
            old_mode & !S_ISUID
        } else {
            old_mode & !(S_ISGID | S_ISUID)
        }) | (old_mode & S_IFMT),
{
    let inode_type = old_mode & S_IFMT;
    let new_mode = if old_mode & S_IXGRP == 0 {
        old_mode & !S_ISUID
    } else {
        old_mode & !(S_ISGID | S_ISUID)
    };
    new_mode | inode_type
}

/// syscall fchmod: the file and its new mode, the mode bits of `mode` (permission
/// and type bits)
/// with the file's type added (`type_bits`).
pub fn sys_fchmod(table: &FdTable, fd: isize, mode: u32, type_bits: u32) -> (r: Result<
    (FileId, u32),
    SysError,
>)
    ensures
        slot_used(table.slots(), (fd as usize) as int) ==> r == Ok::<(FileId, u32), SysError>(
            (table.slots()[(fd as usize) as int].unwrap().file, (mode & 0o177777) | type_bits),
        ),
        !slot_used(table.slots(), (fd as usize) as int) ==> r == Err::<(FileId, u32), SysError>(
            SysError::EBADF,
        ),
{
    match table.get_file(fd as usize) {
        Ok(file) => Ok((file, (mode & 0o177777) | type_bits)),
        Err(e) => Err(e),
    }
}

/// syscall fchown: the file, the new owner and group (`None`: unchanged,
/// given as -1), and its mode after the change.
pub fn sys_fchown(table: &FdTable, fd: isize, uid: i32, gid: i32, old_mode: u32) -> (r: Result<
    (FileId, Option<u32>, Option<u32>, u32),
    SysError,
>)
    ensures
        slot_used(table.slots(), (fd as usize) as int) ==> r == Ok::<
            (FileId, Option<u32>, Option<u32>, u32),
            SysError,
        >(
            (
                table.slots()[(fd as usize) as int].unwrap().file,
                if uid == -1 {
                    None
                } else {
                    Some(uid as u32)
                },
                if gid == -1 {
                    None
                } else {
                    Some(gid as u32)
                },
                (if old_mode & S_IXGRP == 0 {
                    old_mode & !S_ISUID
                } else {
                    old_mode & !(S_ISGID | S_ISUID)
                }) | (old_mode & S_IFMT),
            ),
        ),
        !slot_used(table.slots(), (fd as usize) as int) ==> r == Err::<
            (FileId, Option<u32>, Option<u32>, u32),
            SysError,
        >(SysError::EBADF),
{
    let file = match table.get_file(fd as usize) {
        Ok(f) => f,
        Err(e) => return Err(e),
    };
    let new_uid = if uid == -1 {
        None
    } else {
        Some(uid as u32)
    };
    let new_gid = if gid == -1 {
        None
    } else {
        Some(gid as u32)
    };
    Ok((file, new_uid, new_gid, chown_mode(old_mode)))
}

/// syscall fchownat, flag check made before the path is looked up: flags
/// other than `AT_EMPTY_PATH` and `AT_SYMLINK_NOFOLLOW` are `EINVAL`.
pub fn fchownat_check(flags: i32) -> (r: Result<(), SysError>)
    ensures
        r is Ok <==> (flags == 0 || flags & !(AT_EMPTY_PATH | AT_SYMLINK_NOFOLLOW) == 0),
        r is Err ==> r == Err::<(), SysError>(SysError::EINVAL),
{
    if flags != 0 && flags & !(AT_EMPTY_PATH | AT_SYMLINK_NOFOLLOW) != 0 {
        return Err(SysError::EINVAL);
    }
    Ok(())
}

/// syscall faccessat2, checks made before the path is looked up: unknown
/// flags, or a mode with bits other than `R_OK`, `W_OK` and `X_OK`, are `EINVAL`.
pub fn faccessat2_check(mode: i32, flags: i32) -> (r: Result<(), SysError>)
    ensures
        r is Ok <==> ((flags == 0 || flags & !(AT_EACCESS | AT_EMPTY_PATH | AT_SYMLINK_NOFOLLOW)
            == 0) && (mode == F_OK || mode & !(X_OK | W_OK | R_OK) == 0)),
        r is Err ==> r == Err::<(), SysError>(SysError::EINVAL),
{
    if flags != 0 && flags & !(AT_EACCESS | AT_EMPTY_PATH | AT_SYMLINK_NOFOLLOW) != 0 {
        return Err(SysError::EINVAL);
    }
    if mode != F_OK && mode & !(X_OK | W_OK | R_OK) != 0 {
        return Err(SysError::EINVAL);
    }
    Ok(())
}

/// `tv_nsec` value asking for the current time.
pub const UTIME_NOW: usize = 0x3fffffff;
/// `tv_nsec` value asking to leave a time unchanged.
pub const UTIME_OMIT: usize = 0x3ffffffe;

/// The time one `utimensat` entry sets: the current time, nothing, or the given time.
pub open spec fn utime_choice(t: TimeSpec, now: TimeSpec) -> Option<TimeSpec> {
    if t.tv_nsec == UTIME_NOW {
        Some(now)
    } else if t.tv_nsec == UTIME_OMIT {
        None
    } else {
        Some(t)
    }
}

/// syscall utimensat, once the inode is known: the new access time,
/// modification time and status-change time (`None`: unchanged). Without
/// `times`, all three become `now`; the status-change time always does.
pub fn sys_utimensat(times: Option<(TimeSpec, TimeSpec)>, now: TimeSpec) -> (r: (
    Option<TimeSpec>,
    Option<TimeSpec>,
    TimeSpec,
))
    ensures
        times is None ==> r == (Some(now), Some(now), now),
        times matches Some((a, m)) ==> r == (utime_choice(a, now), utime_choice(m, now), now),
{
    match times {
        None => (Some(now), Some(now), now),
        Some((a, m)) => {
            let at = if a.tv_nsec == UTIME_NOW {
                Some(now)
            } else if a.tv_nsec == UTIME_OMIT {
                None
            } else {
                Some(a)
            };
            let mt = if m.tv_nsec == UTIME_NOW {
                Some(now)
            } else if m.tv_nsec == UTIME_OMIT {
                None
            } else {
                Some(m)
            };
            (at, mt, now)
        },
    }
}

/// syscall umask: the calling process's file mode creation mask (`umask`)
/// becomes `mask & 0777`; the mask it had is returned.
pub fn sys_umask(umask: &mut u32, mask: i32) -> (r: SysResult)
    ensures
        *final(umask) == (mask & 0o777) as u32,
        r == Ok::<isize, SysError>(*old(umask) as isize),
{
    let previous = *umask;
    assert(0 <= mask & 0o777 <= 0o777) by (bit_vector);
    *umask = (mask & 0o777) as u32;
    Ok(previous as isize)
}

/// syscall syslog: nothing is logged; 0 is returned.
pub fn sys_syslog(_log_type: usize, _bufp: usize, _len: usize) -> (r: SysResult)
    ensures
        r == Ok::<isize, SysError>(0),
{
    Ok(0)
}

/// syscall mount: nothing is mounted; 0 is returned.
pub fn sys_mount(_source: usize, _target: usize, _fstype: usize, _flags: u32, _data: usize) -> (r:
    SysResult)
    ensures
        r == Ok::<isize, SysError>(0),
{
    Ok(0)
}

/// syscall umount2: nothing is unmounted; 0 is returned.
pub fn sys_umount2(_target: usize, _flags: u32) -> (r: SysResult)
    ensures
        r == Ok::<isize, SysError>(0),
{
    Ok(0)
}


/// One buffer of a scatter/gather transfer (`struct iovec`).
#[derive(Clone, Copy, Debug, PartialEq, Eq, Structural)]
pub struct IoVec {
    /// Address of the buffer.
    pub base: usize,
    /// Its length.
    pub len: usize,
}

/// `O_CREAT` open flag.
pub const O_CREAT: u32 = 0o100;
/// `O_EXCL` open flag.
pub const O_EXCL: u32 = 0o200;
/// `O_DIRECTORY` open flag.
pub const O_DIRECTORY: u32 = 0o200000;

/// The name (last component) of a non-empty path.
pub open spec fn path_name(p: Seq<char>) -> Seq<char> {
    let t = crate::path::trim_end_slashes(p);
    t.subrange(crate::path::last_slash(t) + 1, t.len() as int)
}

/// syscall openat, once `path` is looked up and found at `found_path`
/// (`exists`: whether something is there): with `O_CREAT`, a name that
/// differs from the found one (a missing directory on the way) is
/// `ENOENT`, and with `O_EXCL` an existing file is `EEXIST`; otherwise the
/// file is to be created (`true`). Without `O_CREAT` nothing is created.
pub fn openat_create(path: &str, found_path: &str, flags: u32, exists: bool) -> (r: Result<bool, SysError>)
    requires
        flags & O_CREAT != 0 ==> path@.len() > 0 && found_path@.len() > 0,
    ensures
        flags & O_CREAT == 0 ==> r == Ok::<bool, SysError>(false),
        flags & O_CREAT != 0 ==> r == (if path_name(path@) != path_name(found_path@) {
            Err::<bool, SysError>(SysError::ENOENT)
        } else if flags & O_EXCL != 0 && exists {
            Err::<bool, SysError>(SysError::EEXIST)
        } else {
            Ok::<bool, SysError>(true)
        }),
{
    if flags & O_CREAT == 0 {
        return Ok(false);
    }
    let a = crate::path::abs_path_to_name(path);
    let b = crate::path::abs_path_to_name(found_path);
    match (a, b) {
        (Some(x), Some(y)) => {
            if x != y {
                return Err(SysError::ENOENT);
            }
        },
        _ => {
            return Err(SysError::ENOENT);
        },
    }
    if flags & O_EXCL != 0 && exists {
        return Err(SysError::EEXIST);
    }
    Ok(true)
}

/// syscall openat, once any creation is done: nothing at the path is
/// `ENOENT`, a non-directory opened with `O_DIRECTORY` is `ENOTDIR`;
/// otherwise the opened file `file` goes on the lowest free descriptor,
/// close-on-exec when `O_CLOEXEC` is given.
pub fn sys_openat(table: &mut FdTable, flags: u32, exists: bool, is_dir: bool, file: FileId) -> (r: SysResult)
    ensures
        final(table).rlimit == old(table).rlimit,
        !exists ==> r == Err::<isize, SysError>(SysError::ENOENT) && final(table).slots() == old(table).slots(),
        exists && flags & O_DIRECTORY != 0 && !is_dir ==> r == Err::<isize, SysError>(SysError::ENOTDIR)
            && final(table).slots() == old(table).slots(),
        exists && !(flags & O_DIRECTORY != 0 && !is_dir) ==> ({
            let (s, res) = install_spec(
                old(table).slots(),
                old(table).rlimit.rlim_max,
                FdInfo { file, flags: FdFlags { bits: if flags & O_CLOEXEC != 0 { FD_CLOEXEC } else { 0u8 } } },
            );
            &&& final(table).slots() == s
            &&& match res {
                Ok(fd) => r == Ok::<isize, SysError>(fd as isize),
                Err(e) => r == Err::<isize, SysError>(e),
            }
        }),
{
    if !exists {
        return Err(SysError::ENOENT);
    }
    if flags & O_DIRECTORY != 0 && !is_dir {
        return Err(SysError::ENOTDIR);
    }
    match install_file(table, file, fd_flags_from_open_flags(flags)) {
        Ok(fd) => Ok(fd as isize),
        Err(e) => Err(e),
    }
}

/// Whether `chdir` looks `path` up from the root (an absolute path) rather
/// than from the working directory.
pub fn chdir_from_root(path: &str) -> (r: bool)
    ensures
        r == (path@.len() > 0 && path@[0] == '/'),
{
    path.unicode_len() > 0 && path.get_char(0) == '/'
}

/// syscall chdir, once the path is looked up (`lookup`: the lookup's error,
/// or whether it found something and whether that is a directory): nothing
/// found is `ENOENT`, a non-directory `ENOTDIR`; otherwise it becomes the
/// working directory.
pub fn sys_chdir(lookup: Result<Option<(bool, bool)>, SysError>) -> (r: SysResult)
    ensures
        r == (match lookup {
            Err(e) => Err::<isize, SysError>(e),
            Ok(None) => Err::<isize, SysError>(SysError::ENOENT),
            Ok(Some((false, _))) => Err::<isize, SysError>(SysError::ENOENT),
            Ok(Some((true, false))) => Err::<isize, SysError>(SysError::ENOTDIR),
            Ok(Some((true, true))) => Ok::<isize, SysError>(0),
        }),
{
    match lookup {
        Err(e) => Err(e),
        Ok(None) => Err(SysError::ENOENT),
        Ok(Some((exists, is_dir))) => {
            if !exists {
                Err(SysError::ENOENT)
            } else if !is_dir {
                Err(SysError::ENOTDIR)
            } else {
                Ok(0)
            }
        },
    }
}

/// syscall readv, its checks before the buffers are filled: the
/// descriptor must be open (`EBADF`) and the count not negative as a signed
/// number (`EINVAL`); the file to read is returned. The non-empty buffers
/// are then filled in order and the call returns the total read.
pub fn sys_readv(table: &FdTable, fd: usize, iovcnt: usize) -> (r: Result<FileId, SysError>)
    ensures
        !slot_used(table.slots(), fd as int) ==> r == Err::<FileId, SysError>(SysError::EBADF),
        slot_used(table.slots(), fd as int) ==> r == (if iovcnt > isize::MAX {
            Err::<FileId, SysError>(SysError::EINVAL)
        } else {
            Ok::<FileId, SysError>(table.slots()[fd as int].unwrap().file)
        }),
{
    let file = match table.get_file(fd) {
        Ok(f) => f,
        Err(e) => {
            return Err(e);
        },
    };
    if iovcnt > isize::MAX as usize {
        return Err(SysError::EINVAL);
    }
    Ok(file)
}

/// `unlinkat`'s flag: remove a directory.
pub const AT_REMOVEDIR: i32 = 0x200;

/// syscall unlinkat, once the path is looked up: the root (no parent) and
/// a path with nothing behind it are `ENOENT`; `AT_REMOVEDIR` on a
/// non-directory is `ENOTDIR`; otherwise the entry is removed.
pub fn sys_unlinkat(has_parent: bool, exists: bool, is_dir: bool, flags: i32) -> (r: SysResult)
    ensures
        r == (if !has_parent || !exists {
            Err::<isize, SysError>(SysError::ENOENT)
        } else if flags == AT_REMOVEDIR && !is_dir {
            Err::<isize, SysError>(SysError::ENOTDIR)
        } else {
            Ok::<isize, SysError>(0)
        }),
{
    if !has_parent {
        return Err(SysError::ENOENT);
    }
    if !exists {
        return Err(SysError::ENOENT);
    }
    if flags == AT_REMOVEDIR && !is_dir {
        return Err(SysError::ENOTDIR);
    }
    Ok(0)
}

/// `renameat2` flag: do not replace the new path.
pub const RENAME_NOREPLACE: i32 = 1;
/// `renameat2` flag: exchange the two paths.
pub const RENAME_EXCHANGE: i32 = 2;
/// `renameat2` flag: leave a whiteout behind.
pub const RENAME_WHITEOUT: i32 = 4;

/// syscall renameat2, its flag check made before the paths are looked up:
/// unknown flags are `EINVAL`.
pub fn renameat2_flags(flags: i32) -> (r: Result<(), SysError>)
    ensures
        r == (if flags & !7i32 != 0 {
            Err::<(), SysError>(SysError::EINVAL)
        } else {
            Ok::<(), SysError>(())
        }),
{
    if flags & !7i32 != 0 {
        return Err(SysError::EINVAL);
    }
    Ok(())
}

/// syscall renameat2, once both paths are looked up: `new_ancestors` are
/// the entries above the new path (their ids), `old` the old path's id.
/// Exchanging together with no-replace or whiteout, or a new path below the
/// old one, is `EINVAL`; exchanging with nothing at the new path is
/// `ENOENT`; no-replace with a file at the new path is `EEXIST`; an old
/// path with no file behind it is `ENOENT`. Otherwise the file moves; returns whether the two are
/// exchanged (else the old entry is emptied).
pub fn sys_renameat2(flags: i32, old: usize, new_ancestors: &Vec<usize>, new_exists: bool, old_has_inode: bool) -> (r: Result<
    bool,
    SysError,
>)
    ensures
        r == (if flags & RENAME_EXCHANGE != 0 && (flags & RENAME_NOREPLACE != 0 || flags & RENAME_WHITEOUT != 0) {
            Err::<bool, SysError>(SysError::EINVAL)
        } else if new_ancestors@.contains(old) {
            Err::<bool, SysError>(SysError::EINVAL)
        } else if !new_exists && flags & RENAME_EXCHANGE != 0 {
            Err::<bool, SysError>(SysError::ENOENT)
        } else if flags & RENAME_NOREPLACE != 0 && new_exists {
            Err::<bool, SysError>(SysError::EEXIST)
        } else if !old_has_inode {
            Err::<bool, SysError>(SysError::ENOENT)
        } else {
            Ok::<bool, SysError>(flags & RENAME_EXCHANGE != 0)
        }),
{
    if flags & RENAME_EXCHANGE != 0 && (flags & RENAME_NOREPLACE != 0 || flags & RENAME_WHITEOUT != 0) {
        return Err(SysError::EINVAL);
    }
    let mut i: usize = 0;
    while i < new_ancestors.len()
        invariant
            i <= new_ancestors@.len(),
            forall|j: int| 0 <= j < i ==> new_ancestors@[j] != old,
        decreases new_ancestors@.len() - i,
    {
        if new_ancestors[i] == old {
            assert(new_ancestors@[i as int] == old);
            return Err(SysError::EINVAL);
        }
        i = i + 1;
    }
    if !new_exists && flags & RENAME_EXCHANGE != 0 {
        return Err(SysError::ENOENT);
    } else if flags & RENAME_NOREPLACE != 0 && new_exists {
        return Err(SysError::EEXIST);
    }
    if !old_has_inode {
        return Err(SysError::ENOENT);
    }
    Ok(flags & RENAME_EXCHANGE != 0)
}

/// syscall mkdirat: a path that cannot be read is `ENOENT`; something
/// already at the path is `EEXIST`; otherwise the directory is made.
pub fn sys_mkdirat(path_read: bool, exists: bool) -> (r: SysResult)
    ensures
        r == (if !path_read {
            Err::<isize, SysError>(SysError::ENOENT)
        } else if exists {
            Err::<isize, SysError>(SysError::EEXIST)
        } else {
            Ok::<isize, SysError>(0)
        }),
{
    if !path_read {
        return Err(SysError::ENOENT);
    }
    if exists {
        return Err(SysError::EEXIST);
    }
    Ok(0)
}

/// syscall symlinkat, once both paths are read: an empty path is `ENOENT`;
/// after the link is made in the new path's directory, a new path that
/// already had a file is `EEXIST`.
pub fn sys_symlinkat(old_path: &str, new_path: &str, new_taken: bool) -> (r: SysResult)
    ensures
        r == (if old_path@.len() == 0 || new_path@.len() == 0 {
            Err::<isize, SysError>(SysError::ENOENT)
        } else if new_taken {
            Err::<isize, SysError>(SysError::EEXIST)
        } else {
            Ok::<isize, SysError>(0)
        }),
{
    if old_path.unicode_len() == 0 || new_path.unicode_len() == 0 {
        return Err(SysError::ENOENT);
    }
    if new_taken {
        return Err(SysError::EEXIST);
    }
    Ok(0)
}

/// The permission bits of a file mode.
pub const MODE_PERMISSIONS: u32 = 0o7777;

/// syscall fchmodat, once the path is looked up (`file_type`: the type bits
/// of the file there, `None` when there is none, `ENOENT`): the new mode is
/// the permission bits given with the file's type.
pub fn sys_fchmodat(mode: u32, file_type: Option<u32>) -> (r: Result<u32, SysError>)
    ensures
        r == (match file_type {
            None => Err::<u32, SysError>(SysError::ENOENT),
            Some(t) => Ok::<u32, SysError>((mode & MODE_PERMISSIONS) | t),
        }),
{
    match file_type {
        None => Err(SysError::ENOENT),
        Some(t) => Ok((mode & MODE_PERMISSIONS) | t),
    }
}

/// syscall faccessat, once the path is read and looked up: nothing at the
/// path is `ENOENT`.
pub fn sys_faccessat(exists: bool) -> (r: SysResult)
    ensures
        r == (if exists {
            Ok::<isize, SysError>(0)
        } else {
            Err::<isize, SysError>(SysError::ENOENT)
        }),
{
    if exists {
        Ok(0)
    } else {
        Err(SysError::ENOENT)
    }
}

/// Where `sendfile` reads: from the input file's position when no offset is
/// given, else from the offset given, which must not be negative as a
/// signed number (`EINVAL`).
pub fn sendfile_offset(offset: Option<usize>) -> (r: Result<Option<usize>, SysError>)
    ensures
        r == (match offset {
            None => Ok::<Option<usize>, SysError>(None),
            Some(o) => if o > isize::MAX {
                Err::<Option<usize>, SysError>(SysError::EINVAL)
            } else {
                Ok::<Option<usize>, SysError>(Some(o))
            },
        }),
{
    match offset {
        None => Ok(None),
        Some(o) => {
            if o > isize::MAX as usize {
                Err(SysError::EINVAL)
            } else {
                Ok(Some(o))
            }
        },
    }
}

/// syscall sendfile, its descriptor checks: the input descriptor, then the
/// output one, must be open (`EBADF`); the two files are returned. After
/// `len` bytes were read at an offset, the offset moves by `len`.
pub fn sys_sendfile(table: &FdTable, out_fd: usize, in_fd: usize) -> (r: Result<(FileId, FileId), SysError>)
    ensures
        !slot_used(table.slots(), in_fd as int) ==> r == Err::<(FileId, FileId), SysError>(SysError::EBADF),
        slot_used(table.slots(), in_fd as int) && !slot_used(table.slots(), out_fd as int) ==> r == Err::<
            (FileId, FileId),
            SysError,
        >(SysError::EBADF),
        slot_used(table.slots(), in_fd as int) && slot_used(table.slots(), out_fd as int) ==> r == Ok::<
            (FileId, FileId),
            SysError,
        >((table.slots()[in_fd as int].unwrap().file, table.slots()[out_fd as int].unwrap().file)),
{
    let input = match table.get_file(in_fd) {
        Ok(f) => f,
        Err(e) => {
            return Err(e);
        },
    };
    let output = match table.get_file(out_fd) {
        Ok(f) => f,
        Err(e) => {
            return Err(e);
        },
    };
    Ok((input, output))
}

/// syscall writev, its check before the buffers are written: the descriptor
/// must be open (`EBADF`); the file to write is returned. The non-empty
/// buffers are then written in order and the call returns the total written.
pub fn sys_writev(table: &FdTable, fd: usize) -> (r: Result<FileId, SysError>)
    ensures
        !slot_used(table.slots(), fd as int) ==> r == Err::<FileId, SysError>(SysError::EBADF),
        slot_used(table.slots(), fd as int) ==> r == Ok::<FileId, SysError>(
            table.slots()[fd as int].unwrap().file,
        ),
{
    table.get_file(fd)
}

/// syscall pread and pwrite, their descriptor check: the descriptor must be
/// open (`EBADF`), and then nothing has moved. Otherwise the file, the
/// offset to transfer at, and the position to put back once the transfer
/// is over: the file's position `pos` before the call, so the call leaves
/// the position as it was.
pub fn sys_pread(table: &FdTable, fd: usize, offset: usize, pos: usize) -> (r: Result<
    (FileId, usize, usize),
    SysError,
>)
    ensures
        !slot_used(table.slots(), fd as int) ==> r == Err::<(FileId, usize, usize), SysError>(
            SysError::EBADF,
        ),
        slot_used(table.slots(), fd as int) ==> r == Ok::<(FileId, usize, usize), SysError>(
            (table.slots()[fd as int].unwrap().file, offset, pos),
        ),
{
    match table.get_file(fd) {
        Ok(f) => Ok((f, offset, pos)),
        Err(e) => Err(e),
    }
}

/// syscall fchownat, once the path is looked up (`lookup`: the lookup's
/// error, or the mode of the file found, `None` when there is none): the
/// flag check comes first (`EINVAL`); then nothing at the path is `ENOENT`;
/// otherwise the new owner and group (`None`: unchanged, given as -1) and
/// the file's mode after the change.
pub fn sys_fchownat(flags: i32, uid: i32, gid: i32, lookup: Result<Option<u32>, SysError>) -> (r:
    Result<(Option<u32>, Option<u32>, u32), SysError>)
    ensures
        !(flags == 0 || flags & !(AT_EMPTY_PATH | AT_SYMLINK_NOFOLLOW) == 0) ==> r == Err::<
            (Option<u32>, Option<u32>, u32),
            SysError,
        >(SysError::EINVAL),
        (flags == 0 || flags & !(AT_EMPTY_PATH | AT_SYMLINK_NOFOLLOW) == 0) ==> r == (match lookup {
            Err(e) => Err::<(Option<u32>, Option<u32>, u32), SysError>(e),
            Ok(None) => Err::<(Option<u32>, Option<u32>, u32), SysError>(SysError::ENOENT),
            Ok(Some(m)) => Ok::<(Option<u32>, Option<u32>, u32), SysError>(
                (
                    if uid == -1 {
                        None
                    } else {
                        Some(uid as u32)
                    },
                    if gid == -1 {
                        None
                    } else {
                        Some(gid as u32)
                    },
                    (if m & S_IXGRP == 0 {
                        m & !S_ISUID
                    } else {
                        m & !(S_ISGID | S_ISUID)
                    }) | (m & S_IFMT),
                ),
            ),
        }),
{
    match fchownat_check(flags) {
        Ok(()) => {},
        Err(e) => {
            return Err(e);
        },
    }
    let old_mode = match lookup {
        Err(e) => {
            return Err(e);
        },
        Ok(None) => {
            return Err(SysError::ENOENT);
        },
        Ok(Some(m)) => m,
    };
    let new_uid = if uid == -1 {
        None
    } else {
        Some(uid as u32)
    };
    let new_gid = if gid == -1 {
        None
    } else {
        Some(gid as u32)
    };
    Ok((new_uid, new_gid, chown_mode(old_mode)))
}

/// syscall faccessat2: the mode and flag checks come first (`EINVAL`); then,
/// once the path is looked up, nothing at the path is `ENOENT`.
pub fn sys_faccessat2(mode: i32, flags: i32, exists: bool) -> (r: SysResult)
    ensures
        r == (if !((flags == 0 || flags & !(AT_EACCESS | AT_EMPTY_PATH | AT_SYMLINK_NOFOLLOW) == 0)
            && (mode == F_OK || mode & !(X_OK | W_OK | R_OK) == 0)) {
            Err::<isize, SysError>(SysError::EINVAL)
        } else if !exists {
            Err::<isize, SysError>(SysError::ENOENT)
        } else {
            Ok::<isize, SysError>(0)
        }),
{
    match faccessat2_check(mode, flags) {
        Ok(()) => {},
        Err(e) => {
            return Err(e);
        },
    }
    sys_faccessat(exists)
}

/// The file type of a symbolic link, as it stands in a mode.
pub const S_IFLNK: u32 = 0o120000;

/// What a path names for `readlinkat`.
pub enum LinkLookup {
    /// The path names nothing.
    Negative,
    /// The entry has no file behind it.
    NoInode,
    /// A file with this mode, and what reading it as a link gave.
    Inode { mode: u32, target: Result<Vec<u8>, SysError> },
}

/// syscall readlinkat, once the path is looked up: a path naming nothing is
/// `EBADF`, an entry with no file `ENOENT`; a file whose mode is not exactly
/// that of a link is `EINVAL`; an error reading the link is passed on; a
/// length not positive as a signed number, or a buffer that cannot be
/// written, is `EINVAL`. Otherwise the bytes to copy to the start of the
/// buffer (the target cut to `len`, with no NUL added; the rest of the
/// buffer is left as it was) and their number.
pub fn sys_readlinkat(link: &LinkLookup, len: usize, writable: bool) -> (r: Result<
    (Vec<u8>, isize),
    SysError,
>)
    requires
        *link matches LinkLookup::Inode { target: Ok(t), .. } ==> t@.len() <= isize::MAX,
    ensures
        link is Negative ==> r == Err::<(Vec<u8>, isize), SysError>(SysError::EBADF),
        link is NoInode ==> r == Err::<(Vec<u8>, isize), SysError>(SysError::ENOENT),
        *link matches LinkLookup::Inode { mode, target } ==> {
            if mode != S_IFLNK {
                r == Err::<(Vec<u8>, isize), SysError>(SysError::EINVAL)
            } else {
                match target {
                    Err(e) => r == Err::<(Vec<u8>, isize), SysError>(e),
                    Ok(t) => if (len as isize) <= 0 || !writable {
                        r == Err::<(Vec<u8>, isize), SysError>(SysError::EINVAL)
                    } else {
                        r matches Ok((b, n)) && b@ == t@.subrange(
                            0,
                            if len < t@.len() { len as int } else { t@.len() as int },
                        ) && n == b@.len()
                    },
                }
            }
        },
{
    match link {
        LinkLookup::Negative => Err(SysError::EBADF),
        LinkLookup::NoInode => Err(SysError::ENOENT),
        LinkLookup::Inode { mode, target } => {
            if *mode != S_IFLNK {
                return Err(SysError::EINVAL);
            }
            match target {
                Err(e) => Err(*e),
                Ok(t) => {
                    if (len as isize) > 0 && !writable {
                        return Err(SysError::EINVAL);
                    }
                    readlink_fill(t.as_slice(), len)
                },
            }
        },
    }
}

/// syscall linkat, once both paths are looked up: an old path with no file
/// behind it is `ENOENT`; otherwise the file's link to the new path is made.
pub fn sys_linkat(old_exists: bool) -> (r: SysResult)
    ensures
        r == (if old_exists {
            Ok::<isize, SysError>(0)
        } else {
            Err::<isize, SysError>(SysError::ENOENT)
        }),
{
    if old_exists {
        Ok(0)
    } else {
        Err(SysError::ENOENT)
    }
}

/// syscall fstatat, once the path is looked up: an entry with no file is
/// `ENOENT`, a buffer that cannot be written `EFAULT`; otherwise the file's
/// attributes are written there.
pub fn sys_fstatat(has_inode: bool, writable: bool) -> (r: SysResult)
    ensures
        r == (if !has_inode {
            Err::<isize, SysError>(SysError::ENOENT)
        } else if !writable {
            Err::<isize, SysError>(SysError::EFAULT)
        } else {
            Ok::<isize, SysError>(0)
        }),
{
    if !has_inode {
        return Err(SysError::ENOENT);
    }
    if !writable {
        return Err(SysError::EFAULT);
    }
    Ok(0)
}

/// A descriptor handed out by installing a file refers to that file, and
/// every other descriptor is left as it was.
pub proof fn lemma_install_then_get(s: Seq<Option<FdInfo>>, max: usize, info: FdInfo)
    requires
        s.len() <= usize::MAX,
    ensures
        install_spec(s, max, info).1 matches Ok(fd) ==> {
            let t = install_spec(s, max, info).0;
            &&& slot_used(t, fd as int)
            &&& t[fd as int] == Some(info)
            &&& forall|g: int| 0 <= g < s.len() && g != fd ==> t[g] == s[g]
            &&& (fd < s.len() ==> !slot_used(s, fd as int))
        },
        install_spec(s, max, info).1 is Err ==> install_spec(s, max, info).0 == s,
{
    crate::fd_table::lemma_first_free(s, 0);
}

} // verus!
