//! The decisions of `pselect6` and `ppoll`: which files to poll for which
//! events, which polls are ready, and what the caller is told.

use vstd::prelude::*;
use crate::errno::SysError;
use crate::fd_table::{FdTable, FileId, slot_used};
use crate::io::FdSet;
use crate::time::TimeSpec;

verus! {

/// Poll event: there is data to read.
pub const POLLIN: u16 = 0x001;
/// Poll event: there is urgent data to read.
pub const POLLPRI: u16 = 0x002;
/// Poll event: writing is possible.
pub const POLLOUT: u16 = 0x004;
/// Poll event: error condition.
pub const POLLERR: u16 = 0x008;
/// Poll event: hung up.
pub const POLLHUP: u16 = 0x010;
/// Poll event: invalid descriptor.
pub const POLLNVAL: u16 = 0x020;

/// A descriptor polled by `ppoll`.
#[derive(Clone, Copy, Debug, PartialEq, Eq, Structural)]
pub struct PollFd {
    /// file descriptor
    pub fd: i32,
    /// requested events
    pub events: u16,
    /// returned events
    pub revents: u16,
}

/// The events `select` polls descriptor `fd` for: reading when it is in
/// the read set, writing when it is in the write set.
pub open spec fn select_events(readfds: Option<FdSet>, writefds: Option<FdSet>, fd: int) -> u16 {
    (if readfds matches Some(s) && s.contains(fd) {
        POLLIN
    } else {
        0u16
    }) | (if writefds matches Some(s) && s.contains(fd) {
        POLLOUT
    } else {
        0u16
    })
}

/// The polls for descriptors below `n`: each descriptor with events, with
/// its file; `EBADF` at the first such descriptor that is not open.
pub open spec fn select_poll_list(
    slots: Seq<Option<crate::fd_table::FdInfo>>,
    readfds: Option<FdSet>,
    writefds: Option<FdSet>,
    n: int,
) -> Result<Seq<(usize, u16, FileId)>, SysError>
    decreases n,
{
    if n <= 0 {
        Ok(Seq::empty())
    } else {
        match select_poll_list(slots, readfds, writefds, n - 1) {
            Err(e) => Err(e),
            Ok(l) => {
                let ev = select_events(readfds, writefds, n - 1);
                if ev == 0 {
                    Ok(l)
                } else if slot_used(slots, n - 1) {
                    Ok(l.push(((n - 1) as usize, ev, slots[n - 1].unwrap().file)))
                } else {
                    Err(SysError::EBADF)
                }
            },
        }
    }
}

/// The files `pselect6` polls: for each descriptor below `nfds` in the read
/// or the write set, the events and its file; a descriptor in a set that
/// is not open is `EBADF`. Negative `nfds` is `EINVAL`.
pub fn pselect_polls(table: &FdTable, nfds: i32, readfds: Option<FdSet>, writefds: Option<FdSet>) -> (r:
    Result<Vec<(usize, u16, FileId)>, SysError>)
    requires
        (readfds is Some || writefds is Some) ==> nfds <= 1024,
    ensures
        nfds < 0 ==> r == Err::<Vec<(usize, u16, FileId)>, SysError>(SysError::EINVAL),
        nfds >= 0 ==> (match select_poll_list(table.slots(), readfds, writefds, nfds as int) {
            Ok(l) => r is Ok && r->Ok_0@ == l,
            Err(e) => r == Err::<Vec<(usize, u16, FileId)>, SysError>(e),
        }),
{
    if nfds < 0 {
        return Err(SysError::EINVAL);
    }
    let n = nfds as usize;
    let mut polls: Vec<(usize, u16, FileId)> = Vec::new();
    let mut fd: usize = 0;
    while fd < n
        invariant
            fd <= n,
            n == nfds,
            (readfds is Some || writefds is Some) ==> n <= 1024,
            select_poll_list(table.slots(), readfds, writefds, fd as int) == Ok::<
                Seq<(usize, u16, FileId)>,
                SysError,
            >(polls@),
        decreases n - fd,
    {
        let mut events: u16 = 0;
        if let Some(s) = readfds {
            if s.is_set(fd) {
                events = POLLIN;
            }
        }
        if let Some(s) = writefds {
            if s.is_set(fd) {
                events = events | POLLOUT;
            }
        }
        assert(events == select_events(readfds, writefds, fd as int)) by {
            assert(0u16 | 0u16 == 0u16) by (bit_vector);
            assert(0u16 | 4u16 == 4u16) by (bit_vector);
            assert(1u16 | 0u16 == 1u16) by (bit_vector);
        }
        if events != 0 {
            match table.get_file(fd) {
                Ok(file) => {
                    polls.push((fd, events, file));
                },
                Err(e) => {
                    proof {
                        lemma_select_poll_list_err(table.slots(), readfds, writefds, fd as int + 1, nfds as int);
                    }
                    return Err(e);
                },
            }
        }
        fd = fd + 1;
    }
    Ok(polls)
}

/// Once the list fails it stays failed with the same error.
proof fn lemma_select_poll_list_err(
    slots: Seq<Option<crate::fd_table::FdInfo>>,
    readfds: Option<FdSet>,
    writefds: Option<FdSet>,
    m: int,
    n: int,
)
    requires
        0 <= m <= n,
        select_poll_list(slots, readfds, writefds, m) is Err,
    ensures
        select_poll_list(slots, readfds, writefds, n) == select_poll_list(slots, readfds, writefds, m),
    decreases n - m,
{
    if m < n {
        lemma_select_poll_list_err(slots, readfds, writefds, m, n - 1);
    }
}

/// The polls among the first `n` results that have events, in order.
pub open spec fn ready_prefix(results: Seq<(usize, u16)>, n: int) -> Seq<(usize, u16)>
    decreases n,
{
    if n <= 0 {
        Seq::empty()
    } else if results[n - 1].1 != 0 {
        ready_prefix(results, n - 1).push(results[n - 1])
    } else {
        ready_prefix(results, n - 1)
    }
}

/// The polls that are ready: the results with some event, in order; `None`
/// (keep waiting) when there is none.
pub fn ready_events(results: &Vec<(usize, u16)>) -> (r: Option<Vec<(usize, u16)>>)
    ensures
        ready_prefix(results@, results@.len() as int).len() == 0 ==> r is None,
        ready_prefix(results@, results@.len() as int).len() > 0 ==> r is Some && r->Some_0@
            == ready_prefix(results@, results@.len() as int),
{
    let mut out: Vec<(usize, u16)> = Vec::new();
    let mut i: usize = 0;
    while i < results.len()
        invariant
            i <= results@.len(),
            out@ == ready_prefix(results@, i as int),
        decreases results@.len() - i,
    {
        if results[i].1 != 0 {
            out.push(results[i]);
        }
        i = i + 1;
    }
    if out.len() > 0 {
        Some(out)
    } else {
        None
    }
}

/// Whether events `ev` make a descriptor ready for reading.
pub open spec fn ready_to_read(ev: u16) -> bool {
    ev & POLLIN != 0 || ev & POLLHUP != 0
}

/// Whether events `ev` make a descriptor ready for writing.
pub open spec fn ready_to_write(ev: u16) -> bool {
    ev & POLLOUT != 0
}

/// The number `pselect6` reports for the first `n` ready polls: one for
/// reading and one for writing per descriptor.
pub open spec fn select_count(ready: Seq<(usize, u16)>, n: int) -> int
    decreases n,
{
    if n <= 0 {
        0
    } else {
        select_count(ready, n - 1) + (if ready_to_read(ready[n - 1].1) {
            1int
        } else {
            0
        }) + (if ready_to_write(ready[n - 1].1) {
            1int
        } else {
            0
        })
    }
}

proof fn lemma_select_count_bound(ready: Seq<(usize, u16)>, n: int)
    requires
        0 <= n <= ready.len(),
    ensures
        0 <= select_count(ready, n) <= 2 * n,
    decreases n,
{
    if n > 0 {
        lemma_select_count_bound(ready, n - 1);
    }
}

/// What `pselect6` reports once polls are ready: the sets (those given)
/// cleared and then holding the descriptors ready for reading (readable or
/// hung up) and for writing, and the count of both.
pub fn pselect_result(ready: &Vec<(usize, u16)>, readfds: Option<FdSet>, writefds: Option<FdSet>) -> (r: (
    Option<FdSet>,
    Option<FdSet>,
    isize,
))
    requires
        2 * ready@.len() <= isize::MAX,
        forall|i: int| 0 <= i < ready@.len() ==> #[trigger] ready@[i].0 < 1024,
    ensures
        r.0 is Some == readfds is Some,
        r.1 is Some == writefds is Some,
        r.2 == select_count(ready@, ready@.len() as int),
        r.0 matches Some(s) ==> forall|g: int| 0 <= g < 1024 ==> (#[trigger] s.contains(g) <==> exists|i: int|
            0 <= i < ready@.len() && ready@[i].0 == g && ready_to_read(ready@[i].1)),
        r.1 matches Some(s) ==> forall|g: int| 0 <= g < 1024 ==> (#[trigger] s.contains(g) <==> exists|i: int|
            0 <= i < ready@.len() && ready@[i].0 == g && ready_to_write(ready@[i].1)),
{
    let mut rd = readfds;
    let mut wr = writefds;
    if let Some(s) = &mut rd {
        s.clear();
    }
    if let Some(s) = &mut wr {
        s.clear();
    }
    let mut res: isize = 0;
    let mut i: usize = 0;
    while i < ready.len()
        invariant
            i <= ready@.len(),
            2 * ready@.len() <= isize::MAX,
            forall|j: int| 0 <= j < ready@.len() ==> #[trigger] ready@[j].0 < 1024,
            res == select_count(ready@, i as int),
            rd is Some == readfds is Some,
            wr is Some == writefds is Some,
            rd matches Some(s) ==> forall|g: int| 0 <= g < 1024 ==> (#[trigger] s.contains(g) <==> exists|j: int|
                0 <= j < i && ready@[j].0 == g && ready_to_read(ready@[j].1)),
            wr matches Some(s) ==> forall|g: int| 0 <= g < 1024 ==> (#[trigger] s.contains(g) <==> exists|j: int|
                0 <= j < i && ready@[j].0 == g && ready_to_write(ready@[j].1)),
        decreases ready@.len() - i,
    {
        proof {
            lemma_select_count_bound(ready@, i as int);
        }
        let (fd, events) = ready[i];
        assert(ready@[i as int].0 < 1024);
        if events & POLLIN != 0 || events & POLLHUP != 0 {
            if let Some(s) = &mut rd {
                s.mark_fd(fd);
            }
            res = res + 1;
        }
        if events & POLLOUT != 0 {
            if let Some(s) = &mut wr {
                s.mark_fd(fd);
            }
            res = res + 1;
        }
        i = i + 1;
    }
    (rd, wr, res)
}

/// The polls of the first `n` descriptors of `ppoll`: the events and the
/// file of each that is open, in order.
pub open spec fn ppoll_list(slots: Seq<Option<crate::fd_table::FdInfo>>, fds: Seq<PollFd>, n: int) -> Seq<(u16, FileId)>
    decreases n,
{
    if n <= 0 {
        Seq::empty()
    } else if slot_used(slots, fds[n - 1].fd as usize as int) {
        ppoll_list(slots, fds, n - 1).push((fds[n - 1].events, slots[fds[n - 1].fd as usize as int].unwrap().file))
    } else {
        ppoll_list(slots, fds, n - 1)
    }
}

/// The polls of `ppoll`: the events and file of each open descriptor, in
/// order; a descriptor that is not open (a negative one among them) gets
/// `POLLNVAL` in its returned events.
pub fn ppoll_polls(table: &FdTable, poll_fds: &mut Vec<PollFd>) -> (r: Vec<(u16, FileId)>)
    ensures
        r@ == ppoll_list(table.slots(), old(poll_fds)@, old(poll_fds)@.len() as int),
        final(poll_fds)@.len() == old(poll_fds)@.len(),
        forall|i: int| 0 <= i < old(poll_fds)@.len() ==> {
            let p = old(poll_fds)@[i];
            let q = #[trigger] final(poll_fds)@[i];
            &&& q.fd == p.fd
            &&& q.events == p.events
            &&& q.revents == (if slot_used(table.slots(), p.fd as usize as int) {
                p.revents
            } else {
                p.revents | POLLNVAL
            })
        },
{
    let ghost start = poll_fds@;
    let mut polls: Vec<(u16, FileId)> = Vec::new();
    let mut i: usize = 0;
    while i < poll_fds.len()
        invariant
            i <= poll_fds@.len(),
            poll_fds@.len() == start.len(),
            polls@ == ppoll_list(table.slots(), start, i as int),
            forall|j: int| i <= j < start.len() ==> #[trigger] poll_fds@[j] == start[j],
            forall|j: int| 0 <= j < i ==> {
                let p = start[j];
                let q = #[trigger] poll_fds@[j];
                &&& q.fd == p.fd
                &&& q.events == p.events
                &&& q.revents == (if slot_used(table.slots(), p.fd as usize as int) {
                    p.revents
                } else {
                    p.revents | POLLNVAL
                })
            },
        decreases start.len() - i,
    {
        let p = poll_fds[i];
        match table.get_file(p.fd as usize) {
            Ok(file) => {
                polls.push((p.events, file));
            },
            Err(_) => {
                poll_fds.set(i, PollFd { fd: p.fd, events: p.events, revents: p.revents | POLLNVAL });
            },
        }
        i = i + 1;
    }
    polls
}

/// The returned events of poll `j` after the first `n` ready results are
/// or-ed in (each result names a poll by its index).
pub open spec fn revents_after(ready: Seq<(usize, u16)>, n: int, j: int, start: u16) -> u16
    decreases n,
{
    if n <= 0 {
        start
    } else if ready[n - 1].0 == j {
        revents_after(ready, n - 1, j, start) | ready[n - 1].1
    } else {
        revents_after(ready, n - 1, j, start)
    }
}

/// What `ppoll` reports once polls are ready: each ready result's events are
/// or-ed into the returned events of the descriptor at the result's index,
/// and the number of ready results is returned.
pub fn ppoll_result(poll_fds: &mut Vec<PollFd>, ready: &Vec<(usize, u16)>) -> (r: isize)
    requires
        ready@.len() <= isize::MAX,
        forall|i: int| 0 <= i < ready@.len() ==> #[trigger] ready@[i].0 < old(poll_fds)@.len(),
    ensures
        r == ready@.len(),
        final(poll_fds)@.len() == old(poll_fds)@.len(),
        forall|j: int| 0 <= j < old(poll_fds)@.len() ==> {
            let p = old(poll_fds)@[j];
            let q = #[trigger] final(poll_fds)@[j];
            &&& q.fd == p.fd
            &&& q.events == p.events
            &&& q.revents == revents_after(ready@, ready@.len() as int, j, p.revents)
        },
{
    let ghost start = poll_fds@;
    let mut i: usize = 0;
    while i < ready.len()
        invariant
            i <= ready@.len(),
            poll_fds@.len() == start.len(),
            forall|k: int| 0 <= k < ready@.len() ==> #[trigger] ready@[k].0 < start.len(),
            forall|j: int| 0 <= j < start.len() ==> {
                let p = start[j];
                let q = #[trigger] poll_fds@[j];
                &&& q.fd == p.fd
                &&& q.events == p.events
                &&& q.revents == revents_after(ready@, i as int, j, p.revents)
            },
        decreases ready@.len() - i,
    {
        let (idx, ev) = ready[i];
        assert(ready@[i as int].0 < start.len());
        let p = poll_fds[idx];
        poll_fds.set(idx, PollFd { fd: p.fd, events: p.events, revents: p.revents | ev });
        i = i + 1;
    }
    ready.len() as isize
}

/// How a wait on files ended.
#[derive(Clone, Copy, Debug, PartialEq, Eq, Structural)]
pub enum WaitEnd {
    /// Some poll is ready.
    Ready,
    /// The timeout passed first.
    TimedOut,
    /// A signal outside the mask came first.
    Interrupted,
}

/// The blocked set while `pselect6` or `ppoll` waits: the signals of the
/// given mask are added (the old set comes back afterwards).
pub fn poll_wait_mask(blocked: u64, mask: Option<u64>) -> (r: u64)
    ensures
        r == (match mask {
            Some(m) => blocked | m,
            None => blocked,
        }),
{
    match mask {
        Some(m) => blocked | m,
        None => blocked,
    }
}

/// A cleared descriptor set in place of each given one.
fn cleared(set: Option<FdSet>) -> (r: Option<FdSet>)
    ensures
        r is Some == set is Some,
        r matches Some(c) ==> forall|fd: int| 0 <= fd < 1024 ==> !#[trigger] c.contains(fd),
{
    match set {
        Some(_) => Some(FdSet::new()),
        None => None,
    }
}

/// What `pselect6` reports once its wait ended: a timeout clears the
/// given sets and reports zero; a signal is `EINTR`; ready polls give the
/// sets and count of `pselect_result`, and the exception set is cleared.
/// On a timeout or ready polls the task's blocked set (`blocked`) goes
/// back to `saved`, the set it had before the call; on `EINTR` it is left
/// as it stands during the wait, so the signal is taken with the call's
/// mask in force.
pub fn pselect_finish(
    end: WaitEnd,
    ready: &Vec<(usize, u16)>,
    readfds: Option<FdSet>,
    writefds: Option<FdSet>,
    exceptfds: Option<FdSet>,
    blocked: &mut u64,
    saved: u64,
) -> (r: Result<(Option<FdSet>, Option<FdSet>, Option<FdSet>, isize), SysError>)
    requires
        2 * ready@.len() <= isize::MAX,
        forall|i: int| 0 <= i < ready@.len() ==> #[trigger] ready@[i].0 < 1024,
    ensures
        end != WaitEnd::Interrupted ==> *final(blocked) == saved,
        end == WaitEnd::Interrupted ==> *final(blocked) == *old(blocked),
        end == WaitEnd::Interrupted ==> r == Err::<(Option<FdSet>, Option<FdSet>, Option<FdSet>, isize), SysError>(
            SysError::EINTR,
        ),
        end != WaitEnd::Interrupted ==> r is Ok,
        r matches Ok((rs, ws, es, n)) ==> {
            &&& rs is Some == readfds is Some
            &&& ws is Some == writefds is Some
            &&& es is Some == exceptfds is Some
            &&& es matches Some(c) ==> forall|fd: int| 0 <= fd < 1024 ==> !#[trigger] c.contains(fd)
            &&& end == WaitEnd::TimedOut ==> n == 0 && (rs matches Some(c) ==> forall|fd: int|
                0 <= fd < 1024 ==> !#[trigger] c.contains(fd)) && (ws matches Some(c) ==> forall|fd: int|
                0 <= fd < 1024 ==> !#[trigger] c.contains(fd))
            &&& end == WaitEnd::Ready ==> n == select_count(ready@, ready@.len() as int) && (rs matches Some(c) ==> forall|fd: int|
                0 <= fd < 1024 ==> (#[trigger] c.contains(fd) <==> exists|i: int|
                    0 <= i < ready@.len() && ready@[i].0 == fd && ready_to_read(ready@[i].1))) && (ws matches Some(c) ==> forall|fd: int|
                0 <= fd < 1024 ==> (#[trigger] c.contains(fd) <==> exists|i: int|
                    0 <= i < ready@.len() && ready@[i].0 == fd && ready_to_write(ready@[i].1)))
        },
{
    if end != WaitEnd::Interrupted {
        *blocked = saved;
    }
    match end {
        WaitEnd::Interrupted => Err(SysError::EINTR),
        WaitEnd::TimedOut => Ok((cleared(readfds), cleared(writefds), cleared(exceptfds), 0)),
        WaitEnd::Ready => {
            let (rs, ws, n) = pselect_result(ready, readfds, writefds);
            Ok((rs, ws, cleared(exceptfds), n))
        },
    }
}

/// What `ppoll` reports once its wait ended: a signal is `EINTR`; a
/// timeout reports zero and leaves the returned events; ready polls have
/// their events or-ed in, and their number is reported. On a timeout or
/// ready polls the task's blocked set (`blocked`) goes back to `saved`, the
/// set it had before the call; on `EINTR` it is left as it stands during
/// the wait, so the signal is taken with the call's mask in force.
pub fn ppoll_finish(
    end: WaitEnd,
    poll_fds: &mut Vec<PollFd>,
    ready: &Vec<(usize, u16)>,
    blocked: &mut u64,
    saved: u64,
) -> (r: Result<isize, SysError>)
    requires
        ready@.len() <= isize::MAX,
        forall|i: int| 0 <= i < ready@.len() ==> #[trigger] ready@[i].0 < old(poll_fds)@.len(),
    ensures
        end != WaitEnd::Interrupted ==> *final(blocked) == saved,
        end == WaitEnd::Interrupted ==> *final(blocked) == *old(blocked),
        end == WaitEnd::Interrupted ==> r == Err::<isize, SysError>(SysError::EINTR) && final(poll_fds)@ == old(
            poll_fds,
        )@,
        end == WaitEnd::TimedOut ==> r == Ok::<isize, SysError>(0) && final(poll_fds)@ == old(poll_fds)@,
        end == WaitEnd::Ready ==> r == Ok::<isize, SysError>(ready@.len() as isize) && final(poll_fds)@.len()
            == old(poll_fds)@.len() && forall|j: int| 0 <= j < old(poll_fds)@.len() ==> {
            let p = old(poll_fds)@[j];
            let q = #[trigger] final(poll_fds)@[j];
            &&& q.fd == p.fd
            &&& q.events == p.events
            &&& q.revents == revents_after(ready@, ready@.len() as int, j, p.revents)
        },
{
    if end != WaitEnd::Interrupted {
        *blocked = saved;
    }
    match end {
        WaitEnd::Interrupted => Err(SysError::EINTR),
        WaitEnd::TimedOut => Ok(0),
        WaitEnd::Ready => Ok(ppoll_result(poll_fds, ready)),
    }
}

/// How `ppoll` waits.
pub struct PpollStart {
    /// The descriptors as read, with `POLLNVAL` added to those not open.
    pub poll_fds: Vec<PollFd>,
    /// The events and file of each open descriptor, in order.
    pub polls: Vec<(u16, FileId)>,
    /// The blocked set while waiting.
    pub mask: u64,
    /// The blocked set to put back once the wait ends by readiness or timeout.
    pub saved: u64,
    /// The longest wait (`None`: no limit).
    pub timeout: Option<TimeSpec>,
}

/// syscall ppoll, once its arguments are read: `fds` is the descriptor
/// array (`None`: unreadable), `timeout` and `sigmask` the timeout and
/// mask (`None`: no pointer; `Some(None)`: unreadable). A count negative as
/// a 32-bit number is `EINVAL`, an unreadable argument `EFAULT`, an invalid
/// timeout `EINVAL`; then the polls (see `ppoll_polls`) and the blocked set
/// with the mask's signals added.
pub fn sys_ppoll(
    table: &FdTable,
    nfds: usize,
    fds: Option<Vec<PollFd>>,
    timeout: Option<Option<TimeSpec>>,
    sigmask: Option<Option<u64>>,
    blocked: u64,
) -> (r: Result<PpollStart, SysError>)
    ensures
        (nfds as i32) < 0 ==> r == Err::<PpollStart, SysError>(SysError::EINVAL),
        (nfds as i32) >= 0 && fds is None ==> r == Err::<PpollStart, SysError>(SysError::EFAULT),
        (nfds as i32) >= 0 && fds is Some ==> (match (timeout, sigmask) {
            (Some(None), _) => r == Err::<PpollStart, SysError>(SysError::EFAULT),
            (Some(Some(t)), _) if t.tv_nsec >= 1_000_000_000 => r == Err::<PpollStart, SysError>(SysError::EINVAL),
            (_, Some(None)) => r == Err::<PpollStart, SysError>(SysError::EFAULT),
            _ => r matches Ok(st) && {
                let f = fds->Some_0@;
                &&& st.polls@ == ppoll_list(table.slots(), f, f.len() as int)
                &&& st.poll_fds@.len() == f.len()
                &&& forall|i: int| 0 <= i < f.len() ==> {
                    let p = f[i];
                    let q = #[trigger] st.poll_fds@[i];
                    &&& q.fd == p.fd
                    &&& q.events == p.events
                    &&& q.revents == (if slot_used(table.slots(), p.fd as usize as int) {
                        p.revents
                    } else {
                        p.revents | POLLNVAL
                    })
                }
                &&& st.mask == (match sigmask {
                    Some(Some(m)) => blocked | m,
                    _ => blocked,
                })
                &&& st.saved == blocked
                &&& st.timeout == (match timeout {
                    Some(Some(t)) => Some(t),
                    _ => None::<TimeSpec>,
                })
            },
        }),
{
    if (nfds as i32) < 0 {
        return Err(SysError::EINVAL);
    }
    let mut poll_fds = match fds {
        None => {
            return Err(SysError::EFAULT);
        },
        Some(f) => f,
    };
    let t = match timeout {
        None => None,
        Some(None) => {
            return Err(SysError::EFAULT);
        },
        Some(Some(t)) => {
            if !t.is_valid() {
                return Err(SysError::EINVAL);
            }
            Some(t)
        },
    };
    let m = match sigmask {
        None => None,
        Some(None) => {
            return Err(SysError::EFAULT);
        },
        Some(Some(m)) => Some(m),
    };
    let polls = ppoll_polls(table, &mut poll_fds);
    Ok(PpollStart { poll_fds, polls, mask: poll_wait_mask(blocked, m), saved: blocked, timeout: t })
}

/// How `pselect6` waits.
pub struct PselectStart {
    /// The descriptors polled, with their events and files.
    pub polls: Vec<(usize, u16, FileId)>,
    /// The blocked set while waiting.
    pub mask: u64,
    /// The blocked set to put back once the wait ends by readiness or timeout.
    pub saved: u64,
    /// The longest wait (`None`: no limit).
    pub timeout: Option<TimeSpec>,
    /// The timeout is invalid: the call fails with `EINVAL` once the mask
    /// is in place (and it is left so).
    pub invalid_timeout: bool,
}

/// syscall pselect6, once its arguments are read (`None`: no pointer;
/// `Some(None)`: unreadable, `EFAULT`): the polls (see `pselect_polls`),
/// the blocked set with the mask's signals added, and the timeout.
pub fn sys_pselect6(
    table: &FdTable,
    nfds: i32,
    readfds: Option<Option<FdSet>>,
    writefds: Option<Option<FdSet>>,
    exceptfds: Option<Option<FdSet>>,
    timeout: Option<Option<TimeSpec>>,
    sigmask: Option<Option<u64>>,
    blocked: u64,
) -> (r: Result<PselectStart, SysError>)
    requires
        (readfds matches Some(Some(_)) || writefds matches Some(Some(_))) ==> nfds <= 1024,
    ensures
        nfds < 0 ==> r == Err::<PselectStart, SysError>(SysError::EINVAL),
        nfds >= 0 && (readfds == Some(None::<FdSet>) || writefds == Some(None::<FdSet>) || exceptfds == Some(
            None::<FdSet>,
        ) || timeout == Some(None::<TimeSpec>) || sigmask == Some(None::<u64>)) ==> r == Err::<
            PselectStart,
            SysError,
        >(SysError::EFAULT),
        nfds >= 0 && !(readfds == Some(None::<FdSet>) || writefds == Some(None::<FdSet>) || exceptfds == Some(
            None::<FdSet>,
        ) || timeout == Some(None::<TimeSpec>) || sigmask == Some(None::<u64>)) ==> ({
            let rs = match readfds {
                Some(Some(s)) => Some(s),
                _ => None::<FdSet>,
            };
            let ws = match writefds {
                Some(Some(s)) => Some(s),
                _ => None::<FdSet>,
            };
            match select_poll_list(table.slots(), rs, ws, nfds as int) {
                Err(e) => r == Err::<PselectStart, SysError>(e),
                Ok(l) => r matches Ok(st) && st.polls@ == l && st.mask == (match sigmask {
                    Some(Some(m)) => blocked | m,
                    _ => blocked,
                }) && st.saved == blocked && st.timeout == (match timeout {
                    Some(Some(t)) => Some(t),
                    _ => None::<TimeSpec>,
                }) && st.invalid_timeout == (match timeout {
                    Some(Some(t)) => t.tv_nsec >= 1_000_000_000,
                    _ => false,
                }),
            }
        }),
{
    if nfds < 0 {
        return Err(SysError::EINVAL);
    }
    let rs = match readfds {
        None => None,
        Some(None) => {
            return Err(SysError::EFAULT);
        },
        Some(Some(s)) => Some(s),
    };
    let ws = match writefds {
        None => None,
        Some(None) => {
            return Err(SysError::EFAULT);
        },
        Some(Some(s)) => Some(s),
    };
    match exceptfds {
        Some(None) => {
            return Err(SysError::EFAULT);
        },
        _ => {},
    }
    let t = match timeout {
        None => None,
        Some(None) => {
            return Err(SysError::EFAULT);
        },
        Some(Some(t)) => Some(t),
    };
    let m = match sigmask {
        None => None,
        Some(None) => {
            return Err(SysError::EFAULT);
        },
        Some(Some(m)) => Some(m),
    };
    let polls = match pselect_polls(table, nfds, rs, ws) {
        Ok(p) => p,
        Err(e) => {
            return Err(e);
        },
    };
    let invalid = match t {
        Some(ts) => !ts.is_valid(),
        None => false,
    };
    Ok(PselectStart { polls, mask: poll_wait_mask(blocked, m), saved: blocked, timeout: t, invalid_timeout: invalid })
}

} // verus!
