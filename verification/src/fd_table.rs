//! The per-task file-descriptor table.
//!
//! Open files themselves live outside this table; a descriptor slot holds a
//! `FileId`, the handle under which the caller keeps the open file object.

use vstd::prelude::*;
use crate::errno::SysError;
use crate::resource::RLimit;

verus! {

/// Max file descriptors counts.
pub const MAX_FDS: usize = 1024;

/// Handle of an open file object.
pub type FileId = usize;

/// Flags of a file descriptor (defined in <bits/fcntl-linux.h>).
#[derive(Clone, Copy, Debug, PartialEq, Eq, Structural)]
pub struct FdFlags {
    /// The raw bits.
    pub bits: u8,
}

/// The close-on-exec bit.
pub const FD_CLOEXEC: u8 = 1;

impl FdFlags {
    /// The raw bits of the flags.
    pub open spec fn spec_bits(self) -> u8 {
        self.bits
    }

    /// Whether the close-on-exec flag is set.
    pub open spec fn spec_cloexec(self) -> bool {
        self.bits & FD_CLOEXEC == FD_CLOEXEC
    }

    /// No flag set.
    pub fn empty() -> (r: Self)
        ensures
            r.spec_bits() == 0,
    {
        FdFlags { bits: 0 }
    }

    /// Only the close-on-exec flag set.
    pub fn cloexec() -> (r: Self)
        ensures
            r.spec_bits() == FD_CLOEXEC,
    {
        FdFlags { bits: FD_CLOEXEC }
    }

    /// Keep only the known flag bits of `bits`.
    pub fn from_bits_truncate(bits: u8) -> (r: Self)
        ensures
            r.spec_bits() == bits & FD_CLOEXEC,
    {
        FdFlags { bits: bits & FD_CLOEXEC }
    }

    /// The raw bits of the flags.
    pub fn bits(&self) -> (r: u8)
        ensures
            r == self.spec_bits(),
    {
        self.bits
    }

    /// Whether the close-on-exec flag is set.
    pub fn contains_cloexec(&self) -> (r: bool)
        ensures
            r == self.spec_cloexec(),
    {
        self.bits & FD_CLOEXEC == FD_CLOEXEC
    }
}

/// What a descriptor slot holds.
#[derive(Clone, Copy, Debug, PartialEq, Eq, Structural)]
pub struct FdInfo {
    /// The file it points to.
    pub file: FileId,
    /// Descriptor flags.
    pub flags: FdFlags,
}

impl FdInfo {
    /// The descriptor flags.
    pub fn flags(&self) -> (r: FdFlags)
        ensures
            r == self.flags,
    {
        self.flags
    }

    /// Replace the descriptor flags.
    pub fn set_flags(&mut self, flags: FdFlags)
        ensures
            final(self).flags == flags,
            final(self).file == old(self).file,
    {
        self.flags = flags
    }
}

/// The descriptor table.
#[derive(Clone)]
pub struct FdTable {
    /// The slots; `None` is a free descriptor.
    pub fd_table: Vec<Option<FdInfo>>,
    /// Resource limit on descriptors.
    pub rlimit: RLimit,
}

/// The lowest free slot of `s` at or above `from`, or `s.len()` when there is none.
pub open spec fn first_free(s: Seq<Option<FdInfo>>, from: int) -> int
    decreases s.len() - from,
{
    if from >= s.len() {
        s.len() as int
    } else if s[from] is None {
        from
    } else {
        first_free(s, from + 1)
    }
}

/// `s` extended with free slots so that slot `n` exists.
pub open spec fn padded(s: Seq<Option<FdInfo>>, n: int) -> Seq<Option<FdInfo>> {
    if s.len() <= n {
        s + Seq::new((n + 1 - s.len()) as nat, |i: int| None::<FdInfo>)
    } else {
        s
    }
}

/// The slot `fd` of `s` holds a file.
pub open spec fn slot_used(s: Seq<Option<FdInfo>>, fd: int) -> bool {
    0 <= fd < s.len() && s[fd] is Some
}

/// `first_free` is the lowest free slot at or above `from`.
pub proof fn lemma_first_free(s: Seq<Option<FdInfo>>, from: int)
    requires
        0 <= from,
    ensures
        from <= first_free(s, from) || (from > s.len() && first_free(s, from) == s.len()),
        first_free(s, from) <= s.len() || first_free(s, from) == from,
        first_free(s, from) < s.len() ==> s[first_free(s, from)] is None,
        forall|i: int| from <= i < first_free(s, from) && i < s.len() ==> #[trigger] s[i] is Some,
    decreases s.len() - from,
{
    if from < s.len() && s[from] is Some {
        lemma_first_free(s, from + 1);
    }
}

/// The slots after allocating the lowest free descriptor at or above
/// `bound` under the limit of `max` descriptors, and the descriptor: a
/// bound at or above the limit is `EBADF`; the table grows with free slots
/// so that slot `bound` exists, the lowest free slot from `bound` below the
/// limit is taken, else one slot is added below the limit; with no room
/// left it is `EMFILE`. A failed allocation leaves the table as it was.
pub open spec fn alloc_from_spec(s: Seq<Option<FdInfo>>, max: usize, bound: usize) -> (
    Seq<Option<FdInfo>>,
    Result<usize, SysError>,
) {
    if bound >= max {
        (s, Err(SysError::EBADF))
    } else {
        let p = padded(s, bound as int);
        let f = first_free(p, bound as int);
        if f < p.len() && f < max {
            (p, Ok(f as usize))
        } else if p.len() < max {
            (p.push(None), Ok(p.len() as usize))
        } else {
            (s, Err(SysError::EMFILE))
        }
    }
}

/// The slots after putting `info` on the descriptor `alloc_from_spec`
/// allocates, when `old_fd` holds a file (else `EBADF`, nothing changes).
pub open spec fn dup_from_spec(
    s: Seq<Option<FdInfo>>,
    max: usize,
    bound: usize,
    old_fd: usize,
    flags: FdFlags,
) -> (Seq<Option<FdInfo>>, Result<usize, SysError>) {
    if !slot_used(s, old_fd as int) {
        (s, Err(SysError::EBADF))
    } else {
        let (t, r) = alloc_from_spec(s, max, bound);
        match r {
            Ok(fd) => (t.update(fd as int, Some(FdInfo { file: s[old_fd as int].unwrap().file, flags })), Ok(fd)),
            Err(e) => (t, Err(e)),
        }
    }
}

/// A descriptor handed out stays below the limit, and the table never
/// grows past the limit (or past its size before, if that was larger).
pub proof fn lemma_alloc_within_limit(s: Seq<Option<FdInfo>>, max: usize, bound: usize)
    ensures
        ({
            let (t, r) = alloc_from_spec(s, max, bound);
            &&& r matches Ok(fd) ==> fd < max && t.len() <= (if s.len() > max { s.len() as int } else { max as int })
            &&& r is Err ==> t == s
        }),
{
    let p = padded(s, bound as int);
    lemma_first_free(p, bound as int);
    if s.len() <= bound {
        assert(p.len() == bound + 1);
    }
}

impl FdTable {
    /// The slots.
    #[verifier::inline]
    pub open spec fn slots(&self) -> Seq<Option<FdInfo>> {
        self.fd_table@
    }

    /// A new table with descriptors 0, 1 and 2 (stdin, stdout, stderr) on the
    /// terminal file `tty`, and a limit of `MAX_FDS` descriptors.
    pub fn new(tty: FileId) -> (r: Self)
        ensures
            r.slots() == seq![
                Some(FdInfo { file: tty, flags: FdFlags { bits: 0 } }),
                Some(FdInfo { file: tty, flags: FdFlags { bits: 0 } }),
                Some(FdInfo { file: tty, flags: FdFlags { bits: 0 } }),
            ],
            r.rlimit == (RLimit { rlim_cur: MAX_FDS, rlim_max: MAX_FDS }),
    {
        let mut table: Vec<Option<FdInfo>> = Vec::new();
        table.push(Some(FdInfo { file: tty, flags: FdFlags::empty() }));
        table.push(Some(FdInfo { file: tty, flags: FdFlags::empty() }));
        table.push(Some(FdInfo { file: tty, flags: FdFlags::empty() }));
        Self { fd_table: table, rlimit: RLimit { rlim_cur: MAX_FDS, rlim_max: MAX_FDS } }
    }

    /// Index of the lowest free slot at or above `from` (the length if none).
    fn find_free_from(&self, from: usize) -> (r: usize)
        ensures
            r as int == first_free(self.slots(), from as int),
    {
        proof {
            lemma_first_free(self.slots(), from as int);
        }
        let len = self.fd_table.len();
        if from >= len {
            return len;
        }
        let mut i = from;
        while i < len
            invariant
                from <= i <= len,
                len == self.fd_table.len(),
                first_free(self.slots(), i as int) == first_free(self.slots(), from as int),
            decreases len - i,
        {
            if self.fd_table[i].is_none() {
                return i;
            }
            i = i + 1;
        }
        i
    }

    /// Allocate the lowest free descriptor; the table grows by one slot when
    /// it is full and below the hard limit.
    pub fn alloc_fd(&mut self) -> (r: Result<usize, SysError>)
        ensures
            final(self).rlimit == old(self).rlimit,
            ({
                let s = old(self).slots();
                let f = first_free(s, 0);
                if f < s.len() {
                    r == Ok::<usize, SysError>(f as usize) && final(self).slots() == s
                } else if s.len() < old(self).rlimit.rlim_max {
                    r == Ok::<usize, SysError>(s.len() as usize) && final(self).slots() == s.push(None)
                } else {
                    r == Err::<usize, SysError>(SysError::EBADF) && final(self).slots() == s
                }
            }),
    {
        let f = self.find_free_from(0);
        if f < self.fd_table.len() {
            Ok(f)
        } else if self.fd_table.len() < self.rlimit.rlim_max {
            self.fd_table.push(None);
            Ok(self.fd_table.len() - 1)
        } else {
            Err(SysError::EBADF)
        }
    }

    /// Grow the table with free slots until slot `n` exists.
    fn pad_to(&mut self, n: usize)
        requires
            n < usize::MAX,
        ensures
            final(self).slots() == padded(old(self).slots(), n as int),
            final(self).rlimit == old(self).rlimit,
    {
        let ghost s = self.slots();
        while self.fd_table.len() <= n
            invariant
                n < usize::MAX,
                self.rlimit == old(self).rlimit,
                s == old(self).slots(),
                s.len() <= self.fd_table.len(),
                self.fd_table.len() <= n + 1 || self.fd_table.len() == s.len(),
                self.slots() =~= s + Seq::new(
                    (self.fd_table.len() - s.len()) as nat,
                    |i: int| None::<FdInfo>,
                ),
            decreases n + 1 - self.fd_table.len(),
        {
            self.fd_table.push(None);
        }
        assert(self.slots() =~= padded(s, n as int));
    }

    /// Allocate the lowest free descriptor at or above `bound` and below the
    /// limit, growing the table first so that slot `bound` exists (see
    /// `alloc_from_spec`).
    pub fn alloc_fd_from(&mut self, bound: usize) -> (r: Result<usize, SysError>)
        ensures
            final(self).rlimit == old(self).rlimit,
            (final(self).slots(), r) == alloc_from_spec(old(self).slots(), old(self).rlimit.rlim_max, bound),
    {
        if bound >= self.rlimit.rlim_max {
            return Err(SysError::EBADF);
        }
        let ghost s = self.slots();
        let padded_here = self.fd_table.len() <= bound;
        if padded_here {
            self.pad_to(bound);
        }
        proof {
            assert(self.slots() == padded(s, bound as int));
        }
        let f = self.find_free_from(bound);
        proof {
            lemma_first_free(self.slots(), bound as int);
            if padded_here {
                assert(self.slots()[bound as int] is None);
            }
        }
        if f < self.fd_table.len() && f < self.rlimit.rlim_max {
            Ok(f)
        } else if self.fd_table.len() < self.rlimit.rlim_max {
            self.fd_table.push(None);
            Ok(self.fd_table.len() - 1)
        } else {
            Err(SysError::EMFILE)
        }
    }

    /// The slot contents of descriptor `fd`.
    pub fn get_fd_info(&self, fd: usize) -> (r: Result<FdInfo, SysError>)
        ensures
            slot_used(self.slots(), fd as int) ==> r == Ok::<FdInfo, SysError>(
                self.slots()[fd as int].unwrap(),
            ),
            !slot_used(self.slots(), fd as int) ==> r == Err::<FdInfo, SysError>(SysError::EBADF),
    {
        if fd >= self.fd_table.len() {
            return Err(SysError::EBADF);
        }
        match self.fd_table[fd] {
            Some(info) => Ok(info),
            None => Err(SysError::EBADF),
        }
    }

    /// Replace the flags of descriptor `fd` (what a mutable borrow of its
    /// slot contents is used for).
    pub fn get_mut_fd_info(&mut self, fd: usize) -> (r: Result<&mut FdInfo, SysError>)
        ensures
            final(self).rlimit == old(self).rlimit,
            slot_used(old(self).slots(), fd as int) ==> r is Ok && *r->Ok_0 == old(self).slots()[fd as int].unwrap() && final(self).slots() == old(self).slots().update(
                fd as int,
                Some(*final(r->Ok_0)),
            ),
            !slot_used(old(self).slots(), fd as int) ==> r == Err::<&mut FdInfo, SysError>(
                SysError::EBADF,
            ) && final(self).slots() == old(self).slots(),
    {
        if fd >= self.fd_table.len() {
            return Err(SysError::EBADF);
        }
        match self.fd_table[fd] {
            None => Err(SysError::EBADF),
            Some(_) => Ok(self.fd_table[fd].as_mut().unwrap()),
        }
    }

    /// The file descriptor `fd` refers to.
    pub fn get_file(&self, fd: usize) -> (r: Result<FileId, SysError>)
        ensures
            slot_used(self.slots(), fd as int) ==> r == Ok::<FileId, SysError>(
                self.slots()[fd as int].unwrap().file,
            ),
            !slot_used(self.slots(), fd as int) ==> r == Err::<FileId, SysError>(SysError::EBADF),
    {
        if fd >= self.fd_table.len() {
            return Err(SysError::EBADF);
        }
        match self.fd_table[fd] {
            Some(info) => Ok(info.file),
            None => Err(SysError::EBADF),
        }
    }

    /// Put `fd_info` into the existing slot `fd`.
    pub fn put_file(&mut self, fd: usize, fd_info: FdInfo) -> (r: Result<(), SysError>)
        ensures
            final(self).rlimit == old(self).rlimit,
            fd < old(self).slots().len() ==> r is Ok && final(self).slots() == old(self).slots().update(fd as int, Some(fd_info)),
            fd >= old(self).slots().len() ==> r == Err::<(), SysError>(SysError::EBADF) && final(self).slots() == old(self).slots(),
    {
        if fd >= self.fd_table.len() {
            return Err(SysError::EBADF);
        }
        self.fd_table.set(fd, Some(fd_info));
        Ok(())
    }

    /// Free descriptor `fd`.
    pub fn remove(&mut self, fd: usize) -> (r: Result<(), SysError>)
        ensures
            final(self).rlimit == old(self).rlimit,
            slot_used(old(self).slots(), fd as int) ==> r is Ok && final(self).slots() == old(self).slots().update(fd as int, None),
            !slot_used(old(self).slots(), fd as int) ==> r == Err::<(), SysError>(SysError::EBADF)
                && final(self).slots() == old(self).slots(),
    {
        if fd >= self.fd_table.len() {
            return Err(SysError::EBADF);
        } else if self.fd_table[fd].is_none() {
            return Err(SysError::EBADF);
        } else {
            self.fd_table.set(fd, None);
            Ok(())
        }
    }

    /// Duplicate `old_fd` onto the lowest free descriptor at or above `bound`
    /// and below the limit, with the given flags; returns the new descriptor
    /// (see `dup_from_spec`).
    pub fn dup_with_bound(&mut self, old_fd: usize, bound: usize, flags: FdFlags) -> (r: Result<
        usize,
        SysError,
    >)
        ensures
            final(self).rlimit == old(self).rlimit,
            (final(self).slots(), r) == dup_from_spec(old(self).slots(), old(self).rlimit.rlim_max, bound, old_fd, flags),
    {
        let file = match self.get_file(old_fd) {
            Ok(f) => f,
            Err(e) => return Err(e),
        };
        let fd_info = FdInfo { file, flags };
        let new_fd = match self.alloc_fd_from(bound) {
            Ok(f) => f,
            Err(e) => return Err(e),
        };
        let ghost before = self.slots();
        proof {
            lemma_alloc_within_limit(old(self).slots(), old(self).rlimit.rlim_max, bound);
            let p = padded(old(self).slots(), bound as int);
            lemma_first_free(p, bound as int);
        }
        let _ = self.put_file(new_fd, fd_info);
        Ok(new_fd)
    }

    /// Duplicate `old_fd` onto the lowest free descriptor below the limit,
    /// with no flags.
    pub fn dup_no_flag(&mut self, old_fd: usize) -> (r: Result<usize, SysError>)
        ensures
            final(self).rlimit == old(self).rlimit,
            (final(self).slots(), r) == dup_from_spec(old(self).slots(), old(self).rlimit.rlim_max, 0, old_fd, FdFlags { bits: 0 }),
    {
        self.dup_with_bound(old_fd, 0, FdFlags::empty())
    }

    /// Make `new_fd` refer to the file of `old_fd`, with the given flags,
    /// growing the table when needed; a closed `old_fd`, or a `new_fd` at or
    /// above the limit, is `EBADF` and leaves the table as it was.
    pub fn dup3(&mut self, old_fd: usize, new_fd: usize, flags: FdFlags) -> (r: Result<
        usize,
        SysError,
    >)
        ensures
            final(self).rlimit == old(self).rlimit,
            ({
                let s = old(self).slots();
                if !slot_used(s, old_fd as int) || new_fd >= old(self).rlimit.rlim_max {
                    r == Err::<usize, SysError>(SysError::EBADF) && final(self).slots() == s
                } else {
                    r == Ok::<usize, SysError>(new_fd) && final(self).slots() == padded(
                        s,
                        new_fd as int,
                    ).update(
                        new_fd as int,
                        Some(FdInfo { file: s[old_fd as int].unwrap().file, flags }),
                    )
                }
            }),
    {
        let file = match self.get_file(old_fd) {
            Ok(f) => f,
            Err(e) => return Err(e),
        };
        if new_fd >= self.rlimit.rlim_max {
            return Err(SysError::EBADF);
        }
        if self.fd_table.len() <= new_fd {
            self.pad_to(new_fd);
        }
        proof {
            assert(self.slots() == padded(old(self).slots(), new_fd as int));
        }
        self.fd_table.set(new_fd, Some(FdInfo { file, flags }));
        Ok(new_fd)
    }

    /// Make `new_fd` a copy of the slot `old_fd` (file and flags), growing
    /// the table when needed; a closed `old_fd`, or a `new_fd` at or above
    /// the limit, is `EBADF` and leaves the table as it was.
    pub fn dup3_with_flags(&mut self, old_fd: usize, new_fd: usize) -> (r: Result<
        usize,
        SysError,
    >)
        ensures
            final(self).rlimit == old(self).rlimit,
            ({
                let s = old(self).slots();
                if !slot_used(s, old_fd as int) || new_fd >= old(self).rlimit.rlim_max {
                    r == Err::<usize, SysError>(SysError::EBADF) && final(self).slots() == s
                } else {
                    r == Ok::<usize, SysError>(new_fd) && final(self).slots() == padded(
                        s,
                        new_fd as int,
                    ).update(new_fd as int, s[old_fd as int])
                }
            }),
    {
        let fd_info = match self.get_fd_info(old_fd) {
            Ok(i) => i,
            Err(e) => return Err(e),
        };
        if new_fd >= self.rlimit.rlim_max {
            return Err(SysError::EBADF);
        }
        if self.fd_table.len() <= new_fd {
            self.pad_to(new_fd);
        }
        proof {
            assert(self.slots() == padded(old(self).slots(), new_fd as int));
        }
        self.fd_table.set(new_fd, Some(fd_info));
        Ok(new_fd)
    }

    /// The descriptor limit.
    pub fn rlimit(&self) -> (r: RLimit)
        ensures
            r == self.rlimit,
    {
        self.rlimit
    }

    /// Set the descriptor limit; a hard limit that does not exceed the
    /// current table size is not supported.
    pub fn set_rlimit(&mut self, rlimit: RLimit)
        requires
            rlimit.rlim_max > old(self).slots().len(),
        ensures
            final(self).rlimit == rlimit,
            final(self).slots() == old(self).slots(),
    {
        self.rlimit = rlimit;
    }

    /// Close every descriptor that has the close-on-exec flag.
    pub fn do_close_on_exec(&mut self)
        ensures
            final(self).rlimit == old(self).rlimit,
            final(self).slots().len() == old(self).slots().len(),
            forall|i: int|
                0 <= i < old(self).slots().len() ==> #[trigger] final(self).slots()[i] == (
                if old(self).slots()[i] matches Some(info) && info.flags.spec_cloexec() {
                    None
                } else {
                    old(self).slots()[i]
                }),
    {
        let len = self.fd_table.len();
        let ghost s0 = self.slots();
        let mut i: usize = 0;
        while i < len
            invariant
                i <= len,
                len == self.fd_table.len(),
                len == s0.len(),
                s0 == old(self).slots(),
                self.rlimit == old(self).rlimit,
                forall|j: int| i <= j < len ==> #[trigger] self.slots()[j] == s0[j],
                forall|j: int|
                    0 <= j < i ==> #[trigger] self.slots()[j] == (
                    if s0[j] matches Some(info) && info.flags.spec_cloexec() {
                        None
                    } else {
                        s0[j]
                    }),
            decreases len - i,
        {
            let close = match self.fd_table[i] {
                Some(info) => info.flags.contains_cloexec(),
                None => false,
            };
            if close {
                self.fd_table.set(i, None);
            }
            i = i + 1;
        }
    }
}

} // verus!
