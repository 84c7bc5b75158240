//! Descriptor sets of `select`, and `epoll` instances with their system calls.

use vstd::prelude::*;
use std::collections::BTreeMap;
use crate::errno::{SysError, SysResult};
use crate::fd_table::{FdTable, FdInfo, FdFlags, FileId, slot_used};
use crate::sys_fs::{install_file, install_spec, O_CLOEXEC};
use crate::time::TimeSpec;

verus! {

broadcast use {vstd::std_specs::btree::group_btree_axioms, vstd::laws_cmp::group_laws_cmp};

/// Descriptors an fd set can hold.
pub const FD_SET_SIZE: usize = 1024;

/// Words of an fd set.
pub const FD_SET_LEN: usize = 16;

/// `fd_set` of `select`: one bit per descriptor, 64 to a word.
#[derive(Clone, Copy, Debug)]
pub struct FdSet {
    /// A set of bits representing the file descriptors status.
    pub fds_bits: [u64; 16],
}

/// Bit `b` of word `w`.
pub open spec fn bit_of(w: u64, b: u64) -> bool {
    (w >> b) & 1u64 == 1u64
}

proof fn lemma_set_bit(w: u64, b: u64, c: u64)
    requires
        b < 64,
        c < 64,
    ensures
        bit_of(w | (1u64 << b), c) == (c == b || bit_of(w, c)),
{
    assert(((w | (1u64 << b)) >> c) & 1u64 == 1u64 <==> (c == b || (w >> c) & 1u64 == 1u64))
        by (bit_vector)
        requires
            b < 64,
            c < 64,
    ;
}

proof fn lemma_zero_bits(c: u64)
    requires
        c < 64,
    ensures
        !bit_of(0u64, c),
{
    assert((0u64 >> c) & 1u64 != 1u64) by (bit_vector);
}

impl FdSet {
    /// Whether descriptor `fd` (below 1024) is in the set.
    pub open spec fn contains(self, fd: int) -> bool {
        bit_of(self.fds_bits@[fd / 64], (fd % 64) as u64)
    }

    /// An empty set.
    pub fn new() -> (r: Self)
        ensures
            forall|fd: int| 0 <= fd < 1024 ==> !#[trigger] r.contains(fd),
    {
        let r = FdSet { fds_bits: [0u64; 16] };
        proof {
            assert forall|fd: int| 0 <= fd < 1024 implies !#[trigger] r.contains(fd) by {
                lemma_zero_bits((fd % 64) as u64);
            }
        }
        r
    }

    /// Clear all bits in the set.
    pub fn clear(&mut self)
        ensures
            forall|fd: int| 0 <= fd < 1024 ==> !#[trigger] final(self).contains(fd),
    {
        let mut i: usize = 0;
        while i < 16
            invariant
                i <= 16,
                forall|j: int| 0 <= j < i ==> #[trigger] self.fds_bits@[j] == 0u64,
            decreases 16 - i,
        {
            self.fds_bits[i] = 0;
            i = i + 1;
        }
        proof {
            assert forall|fd: int| 0 <= fd < 1024 implies !#[trigger] self.contains(fd) by {
                lemma_zero_bits((fd % 64) as u64);
            }
        }
    }

    /// Add descriptor `fd` to the set.
    pub fn mark_fd(&mut self, fd: usize)
        requires
            fd < 1024,
        ensures
            forall|g: int|
                0 <= g < 1024 ==> #[trigger] final(self).contains(g) == (g == fd || old(self).contains(g)),
    {
        let idx = fd / 64;
        let bit = (fd % 64) as u64;
        let old_w = self.fds_bits[idx];
        let mask: u64 = 1u64 << bit;
        self.fds_bits[idx] = old_w | mask;
        proof {
            assert forall|g: int| 0 <= g < 1024 implies #[trigger] self.contains(g) == (g == fd
                || old(self).contains(g)) by {
                if g / 64 == idx as int {
                    lemma_set_bit(old_w, bit, (g % 64) as u64);
                }
            }
        }
    }

    /// Whether descriptor `fd` is in the set.
    pub fn is_set(&self, fd: usize) -> (r: bool)
        requires
            fd < 1024,
        ensures
            r == self.contains(fd as int),
    {
        let idx = fd / 64;
        let bit = (fd % 64) as u64;
        let mask: u64 = 1u64 << bit;
        let w = self.fds_bits[idx];
        assert((w & (1u64 << bit) != 0) == ((w >> bit) & 1u64 == 1u64)) by (bit_vector)
            requires
                bit < 64,
        ;
        w & mask != 0
    }
}

/// Event flags of `epoll` (uapi/linux/eventpoll.h).
#[derive(Clone, Copy, Debug, PartialEq, Eq, Structural)]
pub struct EPollEvents {
    /// The raw bits.
    pub bits: u32,
}

/// `EPOLLIN`.
pub const EPOLLIN: u32 = 0x00000001;
/// `EPOLLOUT`.
pub const EPOLLOUT: u32 = 0x00000004;
/// The input-only flags (`EPOLL_URING_WAKE`, `EPOLLEXCLUSIVE`, `EPOLLWAKEUP`,
/// `EPOLLONESHOT`, `EPOLLET`).
pub const EPOLL_INPUT_FLAGS: u32 = 0x08000000 | 0x10000000 | 0x20000000 | 0x40000000 | 0x80000000;

impl EPollEvents {
    /// The events without the input-only flags; `self` is left as it is.
    pub fn remove_input(&mut self) -> (r: Self)
        ensures
            r.bits == old(self).bits & !EPOLL_INPUT_FLAGS,
            *final(self) == *old(self),
    {
        EPollEvents { bits: self.bits & !EPOLL_INPUT_FLAGS }
    }
}

/// `struct epoll_event`.
#[derive(Clone, Copy, Debug, PartialEq, Eq, Structural)]
pub struct EPollEvent {
    /// Events of interest or that occurred.
    pub events: EPollEvents,
    /// User data.
    pub data: usize,
}

/// An entry of an epoll interest list.
#[derive(Clone, Copy, Debug, PartialEq, Eq, Structural)]
pub struct EPollFd {
    /// The watched file.
    pub file: FileId,
    /// The watched events.
    pub event: EPollEvent,
}

/// An epoll instance: the interest list, by descriptor, and the ready list.
pub struct EPollInstance {
    interest: BTreeMap<usize, EPollFd>,
    ready: Vec<(usize, EPollEvent)>,
    open_flags: u32,
}

impl EPollInstance {
    /// The interest list.
    pub closed spec fn interest(&self) -> Map<usize, EPollFd> {
        self.interest@
    }

    /// The ready list.
    pub closed spec fn ready(&self) -> Seq<(usize, EPollEvent)> {
        self.ready@
    }

    /// Open flags of the instance's file.
    pub closed spec fn open_flags(&self) -> u32 {
        self.open_flags
    }

    /// A new instance with nothing watched; its file is close-on-exec when
    /// the descriptor flags are.
    pub fn new(fd_flags: FdFlags) -> (r: Self)
        ensures
            r.interest() == Map::<usize, EPollFd>::empty(),
            r.ready() == Seq::<(usize, EPollEvent)>::empty(),
            r.open_flags() == (if fd_flags.bits == 1 {
                O_CLOEXEC
            } else {
                0
            }),
    {
        let o_flags = if fd_flags.bits == 1 {
            O_CLOEXEC
        } else {
            0
        };
        Self { interest: BTreeMap::new(), ready: Vec::new(), open_flags: o_flags }
    }

    /// Watch `fd` (its file `file`) for `event`; `EEXIST` if it is watched already.
    pub fn add(&mut self, fd: usize, event: EPollEvent, file: FileId) -> (r: Result<(), SysError>)
        ensures
            old(self).interest().contains_key(fd) ==> r == Err::<(), SysError>(SysError::EEXIST)
                && final(self).interest() == old(self).interest(),
            !old(self).interest().contains_key(fd) ==> r is Ok && final(self).interest() == old(self).interest().insert(fd, EPollFd { file, event }),
            final(self).ready() == old(self).ready(),
            final(self).open_flags() == old(self).open_flags(),
    {
        if self.interest.contains_key(&fd) {
            return Err(SysError::EEXIST);
        }
        self.interest.insert(fd, EPollFd { file, event });
        Ok(())
    }

    /// Stop watching `fd`; `ENOENT` if it is not watched.
    pub fn remove(&mut self, fd: usize) -> (r: Result<(), SysError>)
        ensures
            !old(self).interest().contains_key(fd) ==> r == Err::<(), SysError>(SysError::ENOENT)
                && final(self).interest() == old(self).interest(),
            old(self).interest().contains_key(fd) ==> r is Ok && final(self).interest() == old(self).interest().remove(fd),
            final(self).ready() == old(self).ready(),
            final(self).open_flags() == old(self).open_flags(),
    {
        if !self.interest.contains_key(&fd) {
            return Err(SysError::ENOENT);
        }
        self.interest.remove(&fd);
        Ok(())
    }

    /// Change the watched events of `fd`; `ENOENT` if it is not watched.
    pub fn modify(&mut self, fd: usize, event: EPollEvent) -> (r: Result<(), SysError>)
        ensures
            !old(self).interest().contains_key(fd) ==> r == Err::<(), SysError>(SysError::ENOENT)
                && final(self).interest() == old(self).interest(),
            old(self).interest().contains_key(fd) ==> r is Ok && final(self).interest() == old(self).interest().insert(fd, EPollFd { file: old(self).interest()[fd].file, event }),
            final(self).ready() == old(self).ready(),
            final(self).open_flags() == old(self).open_flags(),
    {
        if !self.interest.contains_key(&fd) {
            return Err(SysError::ENOENT);
        }
        let entry = match self.interest.get(&fd) {
            Some(e) => *e,
            None => return Err(SysError::ENOENT),
        };
        self.interest.insert(fd, EPollFd { file: entry.file, event });
        Ok(())
    }

    /// Copy as many ready events as fit into `event_vec`; returns their number.
    pub fn get_ready(&self, event_vec: &mut [EPollEvent]) -> (r: usize)
        ensures
            r == (if old(event_vec)@.len() <= self.ready().len() {
                old(event_vec)@.len()
            } else {
                self.ready().len()
            }),
            final(event_vec)@.len() == old(event_vec)@.len(),
            forall|i: int| 0 <= i < r ==> #[trigger] final(event_vec)@[i] == self.ready()[i].1,
            forall|i: int|
                r <= i < old(event_vec)@.len() ==> #[trigger] final(event_vec)@[i] == old(event_vec)@[i],
    {
        let n = if event_vec.len() <= self.ready.len() {
            event_vec.len()
        } else {
            self.ready.len()
        };
        let mut i: usize = 0;
        while i < n
            invariant
                i <= n,
                n <= event_vec@.len(),
                n <= self.ready@.len(),
                event_vec@.len() == old(event_vec)@.len(),
                forall|j: int| 0 <= j < i ==> #[trigger] event_vec@[j] == self.ready@[j].1,
                forall|j: int| i <= j < event_vec@.len() ==> #[trigger] event_vec@[j] == old(event_vec)@[j],
            decreases n - i,
        {
            event_vec[i] = self.ready[i].1;
            i = i + 1;
        }
        n
    }
}

/// syscall epoll_create: a new instance (its file `epoll_file`) on the lowest
/// free descriptor; a negative size is `EINVAL`.
pub fn sys_epoll_create(table: &mut FdTable, size: isize, epoll_file: FileId) -> (r: SysResult)
    ensures
        final(table).rlimit == old(table).rlimit,
        size < 0 ==> r == Err::<isize, SysError>(SysError::EINVAL) && final(table).slots() == old(table).slots(),
        size >= 0 ==> ({
            let (s, fr) = install_spec(
                old(table).slots(),
                old(table).rlimit.rlim_max,
                FdInfo { file: epoll_file, flags: FdFlags { bits: 0 } },
            );
            final(table).slots() == s && match fr {
                Ok(fd) => r == Ok::<isize, SysError>(fd as isize),
                Err(e) => r == Err::<isize, SysError>(e),
            }
        }),
{
    if size < 0 {
        return Err(SysError::EINVAL);
    }
    match install_file(table, epoll_file, FdFlags::empty()) {
        Ok(fd) => Ok(fd as isize),
        Err(e) => Err(e),
    }
}

/// syscall epoll_create1: flags 0 are as `epoll_create`; `EPOLL_CLOEXEC`
/// gives a close-on-exec descriptor; other flags are `EINVAL`.
pub fn sys_epoll_create1(table: &mut FdTable, flags: usize, epoll_file: FileId) -> (r: SysResult)
    ensures
        final(table).rlimit == old(table).rlimit,
        flags != 0 && flags != O_CLOEXEC ==> r == Err::<isize, SysError>(SysError::EINVAL) && final(table).slots() == old(table).slots(),
        flags == 0 || flags == O_CLOEXEC ==> ({
            let (s, fr) = install_spec(
                old(table).slots(),
                old(table).rlimit.rlim_max,
                FdInfo {
                    file: epoll_file,
                    flags: FdFlags {
                        bits: if flags == 0 {
                            0
                        } else {
                            1
                        },
                    },
                },
            );
            final(table).slots() == s && match fr {
                Ok(fd) => r == Ok::<isize, SysError>(fd as isize),
                Err(e) => r == Err::<isize, SysError>(e),
            }
        }),
{
    if flags == 0 {
        sys_epoll_create(table, 1, epoll_file)
    } else if flags == O_CLOEXEC as usize {
        match install_file(table, epoll_file, FdFlags::cloexec()) {
            Ok(fd) => Ok(fd as isize),
            Err(e) => Err(e),
        }
    } else {
        Err(SysError::EINVAL)
    }
}

/// `epoll_ctl` operation: add.
pub const EPOLL_CTL_ADD: usize = 1;
/// `epoll_ctl` operation: delete.
pub const EPOLL_CTL_DEL: usize = 2;
/// `epoll_ctl` operation: modify.
pub const EPOLL_CTL_MOD: usize = 3;

/// syscall epoll_ctl. `epoll` is the instance behind `epfd` when that
/// descriptor's file is an epoll instance; `event` is the event read from
/// `event_ptr` (`None` when it could not be read).
pub fn sys_epoll_ctl(
    table: &FdTable,
    epfd: usize,
    op: usize,
    fd: usize,
    event_ptr: usize,
    epoll: Option<&mut EPollInstance>,
    event: Option<EPollEvent>,
) -> (r: SysResult)
    ensures
        ({
            let s = table.slots();
            if fd == epfd || event_ptr == 0 {
                r == Err::<isize, SysError>(SysError::EINVAL)
            } else if !slot_used(s, epfd as int) {
                r == Err::<isize, SysError>(SysError::EBADF)
            } else if epoll is None {
                r == Err::<isize, SysError>(SysError::EINVAL)
            } else if !slot_used(s, fd as int) {
                r == Err::<isize, SysError>(SysError::EBADF)
            } else if event is None {
                r == Err::<isize, SysError>(SysError::EFAULT)
            } else {
                let inst = *epoll->Some_0;
                let fin = *final(epoll->Some_0);
                let ev = event->Some_0;
                let file = s[fd as int].unwrap().file;
                &&& fin.ready() == inst.ready()
                &&& if op == EPOLL_CTL_ADD {
                    if inst.interest().contains_key(fd) {
                        r == Err::<isize, SysError>(SysError::EEXIST) && fin.interest()
                            == inst.interest()
                    } else {
                        r == Ok::<isize, SysError>(0) && fin.interest() == inst.interest().insert(
                            fd,
                            EPollFd { file, event: ev },
                        )
                    }
                } else if op == EPOLL_CTL_DEL {
                    if inst.interest().contains_key(fd) {
                        r == Ok::<isize, SysError>(0) && fin.interest() == inst.interest().remove(
                            fd,
                        )
                    } else {
                        r == Err::<isize, SysError>(SysError::ENOENT) && fin.interest()
                            == inst.interest()
                    }
                } else if op == EPOLL_CTL_MOD {
                    if inst.interest().contains_key(fd) {
                        r == Ok::<isize, SysError>(0) && fin.interest() == inst.interest().insert(
                            fd,
                            EPollFd { file: inst.interest()[fd].file, event: ev },
                        )
                    } else {
                        r == Err::<isize, SysError>(SysError::ENOENT) && fin.interest()
                            == inst.interest()
                    }
                } else {
                    r == Err::<isize, SysError>(SysError::EINVAL) && fin.interest()
                        == inst.interest()
                }
            }
        }),
{
    if fd == epfd || event_ptr == 0 {
        return Err(SysError::EINVAL);
    }
    match table.get_file(epfd) {
        Ok(_) => {},
        Err(e) => return Err(e),
    }
    let inst = match epoll {
        Some(i) => i,
        None => return Err(SysError::EINVAL),
    };
    let file = match table.get_file(fd) {
        Ok(f) => f,
        Err(e) => return Err(e),
    };
    let ev = match event {
        Some(e) => e,
        None => return Err(SysError::EFAULT),
    };
    let res = if op == EPOLL_CTL_ADD {
        inst.add(fd, ev, file)
    } else if op == EPOLL_CTL_DEL {
        inst.remove(fd)
    } else if op == EPOLL_CTL_MOD {
        inst.modify(fd, ev)
    } else {
        return Err(SysError::EINVAL);
    };
    match res {
        Ok(()) => Ok(0),
        Err(e) => Err(e),
    }
}

/// How long an `epoll` wait may last.
#[derive(Clone, Copy, Debug, PartialEq, Eq, Structural)]
pub enum EpollTimeout {
    /// No limit.
    Forever,
    /// At most this many milliseconds.
    Millis(usize),
    /// At most this long.
    Spec(TimeSpec),
}

/// How `epoll_pwait` goes on once the ready list was looked at.
#[derive(Clone, Copy, Debug, PartialEq, Eq, Structural)]
pub enum EpollWait {
    /// Return this many events at once.
    Done(isize),
    /// Wait with blocked set `mask` (the old one comes back afterwards).
    Wait { mask: u64, timeout: EpollTimeout },
}

/// The argument checks of `epoll_pwait` and `epoll_pwait2`: `epfd` must be
/// open (`EBADF`) and an epoll instance (`is_epoll`; `EINVAL`), and at
/// least one event asked for (`EINVAL`).
pub fn epoll_wait_check(table: &FdTable, epfd: usize, is_epoll: bool, maxevents: usize) -> (r: Result<(), SysError>)
    ensures
        !slot_used(table.slots(), epfd as int) ==> r == Err::<(), SysError>(SysError::EBADF),
        slot_used(table.slots(), epfd as int) && !is_epoll ==> r == Err::<(), SysError>(SysError::EINVAL),
        slot_used(table.slots(), epfd as int) && is_epoll ==> r == (if maxevents == 0 || maxevents > isize::MAX {
            Err::<(), SysError>(SysError::EINVAL)
        } else {
            Ok::<(), SysError>(())
        }),
{
    match table.get_file(epfd) {
        Ok(_) => {},
        Err(e) => {
            return Err(e);
        },
    }
    if !is_epoll {
        return Err(SysError::EINVAL);
    }
    if maxevents == 0 || maxevents > isize::MAX as usize {
        return Err(SysError::EINVAL);
    }
    Ok(())
}

/// The number of ready events `ep` hands out into a buffer of `len`.
pub open spec fn ready_count(ep: EPollInstance, len: int) -> int {
    if len <= ep.ready().len() {
        len
    } else {
        ep.ready().len() as int
    }
}

/// syscall epoll_pwait, once the events buffer is known writable: ready
/// events are handed out at once; otherwise a zero timeout returns zero,
/// -1 waits without limit and another value waits that many
/// milliseconds, with the signal mask given (`None`: no pointer;
/// `Some(None)`: unreadable, `EFAULT`) in place of the blocked set.
pub fn sys_epoll_pwait(
    ep: &EPollInstance,
    events: &mut [EPollEvent],
    timeout: isize,
    sigmask: Option<Option<u64>>,
    blocked: u64,
) -> (r: Result<EpollWait, SysError>)
    requires
        old(events)@.len() <= isize::MAX,
    ensures
        final(events)@.len() == old(events)@.len(),
        forall|i: int| 0 <= i < ready_count(*ep, old(events)@.len() as int) ==> #[trigger] final(events)@[i]
            == ep.ready()[i].1,
        ready_count(*ep, old(events)@.len() as int) != 0 ==> r == Ok::<EpollWait, SysError>(
            EpollWait::Done(ready_count(*ep, old(events)@.len() as int) as isize),
        ),
        ready_count(*ep, old(events)@.len() as int) == 0 ==> r == (if timeout == 0 {
            Ok::<EpollWait, SysError>(EpollWait::Done(0))
        } else {
            match sigmask {
                Some(None) => Err::<EpollWait, SysError>(SysError::EFAULT),
                _ => Ok::<EpollWait, SysError>(
                    EpollWait::Wait {
                        mask: match sigmask {
                            Some(Some(m)) => m,
                            _ => blocked,
                        },
                        timeout: if timeout == -1 {
                            EpollTimeout::Forever
                        } else {
                            EpollTimeout::Millis(timeout as usize)
                        },
                    },
                ),
            }
        }),
{
    let n = ep.get_ready(events);
    if n != 0 {
        return Ok(EpollWait::Done(n as isize));
    }
    let t = if timeout == 0 {
        return Ok(EpollWait::Done(0));
    } else if timeout == -1 {
        EpollTimeout::Forever
    } else {
        EpollTimeout::Millis(timeout as usize)
    };
    let mask = match sigmask {
        None => blocked,
        Some(None) => {
            return Err(SysError::EFAULT);
        },
        Some(Some(m)) => m,
    };
    Ok(EpollWait::Wait { mask, timeout: t })
}

/// syscall epoll_pwait2, once the events buffer is known writable: ready
/// events are handed out at once; otherwise the wait lasts as long as the
/// timeout given (no pointer: no limit; unreadable: `EFAULT`), with the
/// signal mask given in place of the blocked set.
pub fn sys_epoll_pwait2(
    ep: &EPollInstance,
    events: &mut [EPollEvent],
    timeout: Option<Option<TimeSpec>>,
    sigmask: Option<Option<u64>>,
    blocked: u64,
) -> (r: Result<EpollWait, SysError>)
    requires
        old(events)@.len() <= isize::MAX,
    ensures
        final(events)@.len() == old(events)@.len(),
        forall|i: int| 0 <= i < ready_count(*ep, old(events)@.len() as int) ==> #[trigger] final(events)@[i]
            == ep.ready()[i].1,
        ready_count(*ep, old(events)@.len() as int) != 0 ==> r == Ok::<EpollWait, SysError>(
            EpollWait::Done(ready_count(*ep, old(events)@.len() as int) as isize),
        ),
        ready_count(*ep, old(events)@.len() as int) == 0 ==> r == (match (timeout, sigmask) {
            (Some(None), _) => Err::<EpollWait, SysError>(SysError::EFAULT),
            (_, Some(None)) => Err::<EpollWait, SysError>(SysError::EFAULT),
            _ => Ok::<EpollWait, SysError>(
                EpollWait::Wait {
                    mask: match sigmask {
                        Some(Some(m)) => m,
                        _ => blocked,
                    },
                    timeout: match timeout {
                        Some(Some(ts)) => EpollTimeout::Spec(ts),
                        _ => EpollTimeout::Forever,
                    },
                },
            ),
        }),
{
    let n = ep.get_ready(events);
    if n != 0 {
        return Ok(EpollWait::Done(n as isize));
    }
    let t = match timeout {
        None => EpollTimeout::Forever,
        Some(None) => {
            return Err(SysError::EFAULT);
        },
        Some(Some(ts)) => EpollTimeout::Spec(ts),
    };
    let mask = match sigmask {
        None => blocked,
        Some(None) => {
            return Err(SysError::EFAULT);
        },
        Some(Some(m)) => m,
    };
    Ok(EpollWait::Wait { mask, timeout: t })
}

/// What `epoll_pwait` and `epoll_pwait2` report once the wait ended: a
/// signal is `EINTR`; otherwise the ready events then are handed out.
pub fn epoll_wait_finish(ep: &EPollInstance, events: &mut [EPollEvent], interrupted: bool) -> (r: SysResult)
    requires
        old(events)@.len() <= isize::MAX,
    ensures
        interrupted ==> r == Err::<isize, SysError>(SysError::EINTR) && final(events)@ == old(events)@,
        !interrupted ==> r == Ok::<isize, SysError>(ready_count(*ep, old(events)@.len() as int) as isize)
            && forall|i: int| 0 <= i < ready_count(*ep, old(events)@.len() as int) ==> #[trigger] final(events)@[i]
            == ep.ready()[i].1,
        final(events)@.len() == old(events)@.len(),
{
    if interrupted {
        return Err(SysError::EINTR);
    }
    let n = ep.get_ready(events);
    Ok(n as isize)
}

} // verus!
