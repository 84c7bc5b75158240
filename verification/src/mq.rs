//! POSIX message queues: the registry of named queues, and the checks of
//! opening and unlinking one.

use vstd::prelude::*;
use crate::errno::{SysError, SysResult};
use crate::fd_table::FileId;
use crate::time::TimeSpec;
use crate::duration::Duration;
use crate::sys_time::abs_timespec_to_rel_timeout;
use vstd::utf8::encode_utf8;

verus! {

/// Open flag: create the queue if it does not exist.
pub const O_CREAT: i32 = 0o100;
/// Open flag: with `O_CREAT`, fail if the queue exists.
pub const O_EXCL: i32 = 0o200;
/// Open flag: do not block.
pub const O_NONBLOCK: i32 = 0o4000;
/// The longest queue name.
pub const NAME_MAX: usize = 255;

/// Why an operation on a message queue failed.
#[derive(Clone, Copy, Debug, PartialEq, Eq, Structural)]
pub enum MqError {
    /// The wait timed out.
    TimedOut,
    /// The message is larger than the queue takes.
    MsgTooBig,
    /// The queue is full or empty and does not block.
    WouldBlock,
    /// The descriptor is not open for the operation.
    InvalidHandle,
    /// The caller may not use the queue.
    PermissionDenied,
}

/// The error number of a queue error.
pub fn map_mq_error(e: MqError) -> (r: SysError)
    ensures
        e == MqError::TimedOut ==> r == SysError::ETIMEOUT,
        e == MqError::MsgTooBig ==> r == SysError::EMSGSIZE,
        e == MqError::WouldBlock ==> r == SysError::EAGAIN,
        e == MqError::InvalidHandle ==> r == SysError::EBADF,
        e == MqError::PermissionDenied ==> r == SysError::EACCES,
{
    match e {
        MqError::TimedOut => SysError::ETIMEOUT,
        MqError::MsgTooBig => SysError::EMSGSIZE,
        MqError::WouldBlock => SysError::EAGAIN,
        MqError::InvalidHandle => SysError::EBADF,
        MqError::PermissionDenied => SysError::EACCES,
    }
}

/// Attributes of a queue (`struct mq_attr`).
#[derive(Clone, Copy, Debug, PartialEq, Eq, Structural)]
pub struct MqAttr {
    /// Flags (only `O_NONBLOCK`).
    pub mq_flags: i64,
    /// Most messages in the queue.
    pub mq_maxmsg: i64,
    /// Largest message.
    pub mq_msgsize: i64,
}

/// A named queue.
pub struct MqEntry {
    /// Its name.
    pub name: String,
    /// Who made it.
    pub owner_uid: u32,
    /// The queue.
    pub queue: FileId,
}

/// The named queues.
pub struct MqRegistry {
    queues: Vec<MqEntry>,
}

/// Names of `s` are all different.
pub open spec fn distinct_names(s: Seq<MqEntry>) -> bool {
    forall|i: int, j: int| 0 <= i < j < s.len() ==> (#[trigger] s[i]).name@ != (#[trigger] s[j]).name@
}

/// The queues of a list of entries, by name: owner and queue.
pub open spec fn registry_map(s: Seq<MqEntry>) -> Map<Seq<char>, (u32, FileId)> {
    Map::new(
        |n: Seq<char>| exists|i: int| 0 <= i < s.len() && (#[trigger] s[i]).name@ == n,
        |n: Seq<char>| {
            let i = choose|i: int| 0 <= i < s.len() && (#[trigger] s[i]).name@ == n;
            (s[i].owner_uid, s[i].queue)
        },
    )
}

/// The map holds the entry at `i` under its name.
proof fn lemma_registry_at(s: Seq<MqEntry>, i: int)
    requires
        distinct_names(s),
        0 <= i < s.len(),
    ensures
        registry_map(s).dom().contains(s[i].name@),
        registry_map(s)[s[i].name@] == (s[i].owner_uid, s[i].queue),
{
    let n = s[i].name@;
    assert(s[i].name@ == n);
    let k = choose|k: int| 0 <= k < s.len() && (#[trigger] s[k]).name@ == n;
    if k != i {
        if k < i {
            assert(s[k].name@ != s[i].name@);
        } else {
            assert(s[i].name@ != s[k].name@);
        }
    }
}

/// The map holds a name only if some entry has it.
proof fn lemma_registry_has(s: Seq<MqEntry>, n: Seq<char>)
    ensures
        registry_map(s).dom().contains(n) <==> exists|i: int| 0 <= i < s.len() && (#[trigger] s[i]).name@ == n,
{
}

impl MqRegistry {
    /// The queues, by name: owner and queue.
    pub closed spec fn queues(&self) -> Map<Seq<char>, (u32, FileId)> {
        registry_map(self.queues@)
    }

    /// No name occurs twice.
    #[verifier::type_invariant]
    spec fn inv(&self) -> bool {
        distinct_names(self.queues@)
    }

    /// No queue.
    pub fn new() -> (r: Self)
        ensures
            r.queues() == Map::<Seq<char>, (u32, FileId)>::empty(),
    {
        let r = MqRegistry { queues: Vec::new() };
        assert(r.queues() =~= Map::<Seq<char>, (u32, FileId)>::empty());
        r
    }

    /// The index of the queue named `name`.
    fn find(&self, name: &str) -> (r: Option<usize>)
        ensures
            r is None <==> !self.queues().dom().contains(name@),
            r matches Some(i) ==> i < self.queues@.len() && self.queues@[i as int].name@ == name@
                && self.queues()[name@] == (self.queues@[i as int].owner_uid, self.queues@[i as int].queue),
    {
        proof {
            use_type_invariant(self);
        }
        let target = String::from_str(name);
        let mut i: usize = 0;
        while i < self.queues.len()
            invariant
                i <= self.queues@.len(),
                target@ == name@,
                distinct_names(self.queues@),
                forall|j: int| 0 <= j < i ==> (#[trigger] self.queues@[j]).name@ != name@,
            decreases self.queues@.len() - i,
        {
            if self.queues[i].name == target {
                proof {
                    lemma_registry_at(self.queues@, i as int);
                }
                return Some(i);
            }
            i = i + 1;
        }
        proof {
            lemma_registry_has(self.queues@, name@);
        }
        None
    }

    /// Register queue `queue` of owner `owner_uid` under a new name.
    pub fn insert(&mut self, name: &str, owner_uid: u32, queue: FileId)
        requires
            !old(self).queues().dom().contains(name@),
        ensures
            final(self).queues() == old(self).queues().insert(name@, (owner_uid, queue)),
    {
        proof {
            use_type_invariant(&*self);
            lemma_registry_has(self.queues@, name@);
        }
        let ghost before = self.queues@;
        let mut v: Vec<MqEntry> = Vec::new();
        std::mem::swap(&mut v, &mut self.queues);
        v.push(MqEntry { name: String::from_str(name), owner_uid, queue });
        proof {
            assert forall|i: int, j: int| 0 <= i < j < v@.len() implies (#[trigger] v@[i]).name@ != (#[trigger] v@[j]).name@ by {
                if j == before.len() {
                    assert(v@[i] == before[i]);
                    assert(!(before[i].name@ == name@));
                } else {
                    assert(v@[i] == before[i] && v@[j] == before[j]);
                }
            }
            let m = registry_map(v@);
            let e = old(self).queues().insert(name@, (owner_uid, queue));
            assert forall|n: Seq<char>| #[trigger] m.dom().contains(n) == e.dom().contains(n) by {
                lemma_registry_has(v@, n);
                lemma_registry_has(before, n);
                if n == name@ {
                    lemma_registry_at(v@, before.len() as int);
                } else if m.dom().contains(n) {
                    let i = choose|i: int| 0 <= i < v@.len() && (#[trigger] v@[i]).name@ == n;
                    assert(i < before.len());
                    assert(before[i].name@ == n);
                } else if before.len() > 0 && e.dom().contains(n) {
                    let i = choose|i: int| 0 <= i < before.len() && (#[trigger] before[i]).name@ == n;
                    assert(v@[i].name@ == n);
                }
            }
            assert forall|n: Seq<char>| #[trigger] m.dom().contains(n) implies m[n] == e[n] by {
                lemma_registry_has(v@, n);
                let i = choose|i: int| 0 <= i < v@.len() && (#[trigger] v@[i]).name@ == n;
                lemma_registry_at(v@, i);
                if i < before.len() {
                    assert(v@[i] == before[i]);
                    lemma_registry_at(before, i);
                }
            }
            assert(m =~= e);
        }
        self.queues = v;
    }

    /// Unregister the queue at index `i`.
    fn remove_at(&mut self, i: usize)
        requires
            i < old(self).queues@.len(),
        ensures
            final(self).queues() == old(self).queues().remove(old(self).queues@[i as int].name@),
    {
        proof {
            use_type_invariant(&*self);
        }
        let ghost before = self.queues@;
        let ghost gone = before[i as int].name@;
        let mut v: Vec<MqEntry> = Vec::new();
        std::mem::swap(&mut v, &mut self.queues);
        let _ = v.remove(i);
        proof {
            assert forall|a: int, b: int| 0 <= a < b < v@.len() implies (#[trigger] v@[a]).name@ != (#[trigger] v@[b]).name@ by {
                let a0 = if a < i { a } else { a + 1 };
                let b0 = if b < i { b } else { b + 1 };
                assert(v@[a] == before[a0]);
                assert(v@[b] == before[b0]);
            }
            let m = registry_map(v@);
            let e = old(self).queues().remove(gone);
            assert forall|n: Seq<char>| #[trigger] m.dom().contains(n) == e.dom().contains(n) by {
                lemma_registry_has(v@, n);
                lemma_registry_has(before, n);
                if m.dom().contains(n) {
                    let k = choose|k: int| 0 <= k < v@.len() && (#[trigger] v@[k]).name@ == n;
                    let k0 = if k < i { k } else { k + 1 };
                    assert(v@[k] == before[k0]);
                    assert(before[k0].name@ == n);
                    if n == gone {
                        assert(before[k0].name@ == before[i as int].name@);
                    }
                }
                if n != gone && old(self).queues().dom().contains(n) {
                    let k = choose|k: int| 0 <= k < before.len() && (#[trigger] before[k]).name@ == n;
                    assert(k != i);
                    let k1 = if k < i { k } else { k - 1 };
                    assert(v@[k1] == before[k]);
                    assert(v@[k1].name@ == n);
                }
            }
            assert forall|n: Seq<char>| #[trigger] m.dom().contains(n) implies m[n] == e[n] by {
                lemma_registry_has(v@, n);
                let k = choose|k: int| 0 <= k < v@.len() && (#[trigger] v@[k]).name@ == n;
                let k0 = if k < i { k } else { k + 1 };
                assert(v@[k] == before[k0]);
                lemma_registry_at(v@, k);
                lemma_registry_at(before, k0);
            }
            assert(m =~= e);
        }
        self.queues = v;
    }
}

/// A queue name is valid: not empty, no slash after its first character,
/// and at most `NAME_MAX` bytes long.
pub fn mq_name_check(name: &str) -> (r: Result<(), SysError>)
    requires
        name@.len() > 0 ==> name@[0] < 128,
    ensures
        (name@.len() == 0 || exists|i: int| 1 <= i < name@.len() && name@[i] == '/') ==> r
            == Err::<(), SysError>(SysError::EINVAL),
        !(name@.len() == 0 || exists|i: int| 1 <= i < name@.len() && name@[i] == '/') ==> r == (if name.len() > NAME_MAX {
            Err::<(), SysError>(SysError::ENAMETOOLONG)
        } else {
            Ok::<(), SysError>(())
        }),
{
    let n = name.unicode_len();
    if n == 0 {
        return Err(SysError::EINVAL);
    }
    let mut i: usize = 1;
    while i < n
        invariant
            1 <= i <= n,
            n == name@.len(),
            forall|j: int| 1 <= j < i ==> name@[j] != '/',
        decreases n - i,
    {
        if name.get_char(i) == '/' {
            return Err(SysError::EINVAL);
        }
        i = i + 1;
    }
    if name.len() > NAME_MAX {
        return Err(SysError::ENAMETOOLONG);
    }
    Ok(())
}

/// How `mq_open` goes on.
#[derive(Clone, Copy, Debug, PartialEq, Eq, Structural)]
pub enum MqOpen {
    /// Open the existing queue.
    Existing(FileId),
    /// Make a queue with these attributes (once they are found valid).
    Create(MqAttr),
}

/// The attributes a new queue is made with: those given (`None`: the
/// default of 10 messages of 256 bytes), non-blocking when the open flags
/// say so.
pub open spec fn new_queue_attr(oflag: i32, attr: Option<MqAttr>) -> MqAttr {
    let a = match attr {
        Some(a) => a,
        None => MqAttr { mq_flags: 0, mq_maxmsg: 10, mq_msgsize: 256 },
    };
    if oflag & O_NONBLOCK != 0 {
        MqAttr { mq_flags: a.mq_flags | (O_NONBLOCK as i64), ..a }
    } else {
        a
    }
}

/// What `mq_open` gives on the queues `q` (owner and queue by name).
pub open spec fn mq_open_spec(
    q: Map<Seq<char>, (u32, FileId)>,
    name: Seq<char>,
    oflag: i32,
    uid: u32,
    attr: Option<Result<MqAttr, SysError>>,
) -> Result<MqOpen, SysError> {
    let exists = q.dom().contains(name);
    let allowed = uid == 0 || q[name].0 == uid;
    if oflag & O_CREAT != 0 {
        if exists {
            if !allowed {
                Err(SysError::EACCES)
            } else if oflag & O_EXCL != 0 {
                Err(SysError::EEXIST)
            } else {
                Ok(MqOpen::Existing(q[name].1))
            }
        } else {
            match attr {
                Some(Err(e)) => Err(e),
                Some(Ok(a)) => Ok(MqOpen::Create(new_queue_attr(oflag, Some(a)))),
                None => Ok(MqOpen::Create(new_queue_attr(oflag, None))),
            }
        }
    } else {
        if !exists {
            Err(SysError::ENOENT)
        } else if !allowed {
            Err(SysError::EACCES)
        } else {
            Ok(MqOpen::Existing(q[name].1))
        }
    }
}

/// syscall mq_open, once the name is read and checked, for user `uid`:
/// with `O_CREAT`, an existing queue is opened unless the caller neither
/// is root nor owns it (`EACCES`) or `O_EXCL` is given (`EEXIST`), and a
/// missing one is made with the attributes read from the user (`attr`:
/// `None` for a null pointer, or why they could not be read); without it,
/// a missing queue is `ENOENT` and one the caller may not use `EACCES`.
pub fn sys_mq_open(reg: &MqRegistry, name: &str, oflag: i32, uid: u32, attr: Option<Result<MqAttr, SysError>>) -> (r: Result<MqOpen, SysError>)
    ensures
        r == mq_open_spec(reg.queues(), name@, oflag, uid, attr),
{
    let found = reg.find(name);
    if oflag & O_CREAT != 0 {
        match found {
            Some(i) => {
                let e = &reg.queues[i];
                if uid != 0 && e.owner_uid != uid {
                    return Err(SysError::EACCES);
                }
                if oflag & O_EXCL != 0 {
                    return Err(SysError::EEXIST);
                }
                Ok(MqOpen::Existing(e.queue))
            },
            None => {
                let a = match attr {
                    Some(Err(e)) => return Err(e),
                    Some(Ok(a)) => a,
                    None => MqAttr { mq_flags: 0, mq_maxmsg: 10, mq_msgsize: 256 },
                };
                if oflag & O_NONBLOCK != 0 {
                    Ok(MqOpen::Create(MqAttr { mq_flags: a.mq_flags | (O_NONBLOCK as i64), ..a }))
                } else {
                    Ok(MqOpen::Create(a))
                }
            },
        }
    } else {
        match found {
            None => Err(SysError::ENOENT),
            Some(i) => {
                let e = &reg.queues[i];
                if uid != 0 && uid != e.owner_uid {
                    return Err(SysError::EACCES);
                }
                Ok(MqOpen::Existing(e.queue))
            },
        }
    }
}

/// The end of `mq_open`, once `sys_mq_open` decided (`open`): a queue to
/// make is registered under `name` with owner `uid` as `new_queue` (the
/// queue the caller made with the attributes decided); then the queue,
/// made or found, is put on the lowest free descriptor with no flags, whose
/// number is returned. A table with no room leaves the new queue
/// registered and fails as `install_file` does.
pub fn mq_open_finish(
    reg: &mut MqRegistry,
    table: &mut crate::fd_table::FdTable,
    name: &str,
    uid: u32,
    open: MqOpen,
    new_queue: FileId,
) -> (r: Result<usize, SysError>)
    requires
        open is Create ==> !old(reg).queues().dom().contains(name@),
    ensures
        final(reg).queues() == (match open {
            MqOpen::Create(_) => old(reg).queues().insert(name@, (uid, new_queue)),
            MqOpen::Existing(_) => old(reg).queues(),
        }),
        final(table).rlimit == old(table).rlimit,
        (final(table).slots(), r) == crate::sys_fs::install_spec(
            old(table).slots(),
            old(table).rlimit.rlim_max,
            (crate::fd_table::FdInfo {
                file: match open {
                    MqOpen::Create(_) => new_queue,
                    MqOpen::Existing(q) => q,
                },
                flags: crate::fd_table::FdFlags { bits: 0 },
            }),
        ),
{
    let queue = match open {
        MqOpen::Create(_) => {
            reg.insert(name, uid, new_queue);
            new_queue
        },
        MqOpen::Existing(q) => q,
    };
    crate::sys_fs::install_file(table, queue, crate::fd_table::FdFlags::empty())
}

/// syscall mq_unlink, once the name is read, for user `uid`: a name longer
/// than `NAME_MAX` bytes is `ENAMETOOLONG`; a missing queue `ENOENT`; one
/// the caller neither owns nor is root for, `EACCES`; otherwise the name
/// goes.
pub fn sys_mq_unlink(reg: &mut MqRegistry, name: &str, uid: u32) -> (r: SysResult)
    ensures
        ({
            let q = old(reg).queues();
            if name.len() > NAME_MAX {
                r == Err::<isize, SysError>(SysError::ENAMETOOLONG) && final(reg).queues() == q
            } else if !q.dom().contains(name@) {
                r == Err::<isize, SysError>(SysError::ENOENT) && final(reg).queues() == q
            } else if uid != 0 && q[name@].0 != uid {
                r == Err::<isize, SysError>(SysError::EACCES) && final(reg).queues() == q
            } else {
                r == Ok::<isize, SysError>(0) && final(reg).queues() == q.remove(name@)
            }
        }),
{
    if name.len() > NAME_MAX {
        return Err(SysError::ENAMETOOLONG);
    }
    match reg.find(name) {
        None => Err(SysError::ENOENT),
        Some(i) => {
            if uid != 0 && reg.queues[i].owner_uid != uid {
                return Err(SysError::EACCES);
            }
            reg.remove_at(i);
            Ok(0)
        },
    }
}

/// A queue that `mq_open` makes with `O_NONBLOCK` in its open flags is
/// non-blocking whatever attributes the user gave: its flags hold
/// `O_NONBLOCK`, and its message count and size are those given (or the
/// default of 10 messages of 256 bytes when none were given). Without
/// `O_NONBLOCK` the given attributes are taken as they are.
pub proof fn lemma_create_keeps_nonblock(
    q: Map<Seq<char>, (u32, FileId)>,
    name: Seq<char>,
    oflag: i32,
    uid: u32,
    attr: Option<MqAttr>,
)
    requires
        !q.dom().contains(name),
        oflag & O_CREAT != 0,
    ensures
        ({
            let given = match attr {
                Some(a) => Some(Ok::<MqAttr, SysError>(a)),
                None => None,
            };
            let (maxmsg, msgsize) = match attr {
                Some(a) => (a.mq_maxmsg, a.mq_msgsize),
                None => (10i64, 256i64),
            };
            mq_open_spec(q, name, oflag, uid, given) matches Ok(MqOpen::Create(c)) && c.mq_maxmsg
                == maxmsg && c.mq_msgsize == msgsize && (oflag & O_NONBLOCK != 0 ==> c.mq_flags
                & (O_NONBLOCK as i64) != 0) && (oflag & O_NONBLOCK == 0 ==> (attr matches Some(a)
                ==> c == a))
        }),
{
    let f = match attr {
        Some(a) => a.mq_flags,
        None => 0i64,
    };
    assert((f | 0o4000i64) & 0o4000i64 != 0) by (bit_vector);
}

/// A queue registered under a name is what its owner, or root, opens
/// under that name afterwards (with or without `O_CREAT`, without
/// `O_EXCL`); another user is refused with `EACCES`.
pub proof fn lemma_open_after_register(
    q: Map<Seq<char>, (u32, FileId)>,
    name: Seq<char>,
    owner: u32,
    queue: FileId,
    uid: u32,
    oflag: i32,
    attr: Option<Result<MqAttr, SysError>>,
)
    requires
        oflag & O_EXCL == 0,
    ensures
        (uid == owner || uid == 0) ==> mq_open_spec(q.insert(name, (owner, queue)), name, oflag, uid, attr) == Ok::<
            MqOpen,
            SysError,
        >(MqOpen::Existing(queue)),
        (uid != owner && uid != 0) ==> mq_open_spec(q.insert(name, (owner, queue)), name, oflag, uid, attr) == Err::<
            MqOpen,
            SysError,
        >(SysError::EACCES),
{
}

/// Once a name is unlinked, opening it without `O_CREAT` finds nothing
/// (`ENOENT`), and opening it with `O_CREAT` makes a new queue.
pub proof fn lemma_open_after_unlink(
    q: Map<Seq<char>, (u32, FileId)>,
    name: Seq<char>,
    uid: u32,
    oflag: i32,
    attr: Option<Result<MqAttr, SysError>>,
)
    ensures
        oflag & O_CREAT == 0 ==> mq_open_spec(q.remove(name), name, oflag, uid, attr) == Err::<MqOpen, SysError>(
            SysError::ENOENT,
        ),
        oflag & O_CREAT != 0 && attr == None::<Result<MqAttr, SysError>> ==> mq_open_spec(q.remove(name), name, oflag, uid, attr)
            == Ok::<MqOpen, SysError>(MqOpen::Create(new_queue_attr(oflag, None))),
{
}

/// The largest message `mq_timedsend` and `mq_timedreceive` take.
pub const MSG_MAX_SIZE: usize = 8192;
/// Notification: by a signal.
pub const SIGEV_SIGNAL: i32 = 0;
/// Notification: none.
pub const SIGEV_NONE: i32 = 1;

/// The queue behind descriptor `handle` (whether its file is a message
/// queue is `is_queue`): a descriptor not open is `EBADF`, another file
/// `not_queue`.
pub fn mq_handle(table: &crate::fd_table::FdTable, handle: usize, is_queue: bool, not_queue: SysError) -> (r: Result<FileId, SysError>)
    ensures
        !crate::fd_table::slot_used(table.slots(), handle as int) ==> r == Err::<FileId, SysError>(SysError::EBADF),
        crate::fd_table::slot_used(table.slots(), handle as int) ==> r == (if is_queue {
            Ok::<FileId, SysError>(table.slots()[handle as int].unwrap().file)
        } else {
            Err::<FileId, SysError>(not_queue)
        }),
{
    let f = match table.get_file(handle) {
        Ok(f) => f,
        Err(e) => {
            return Err(e);
        },
    };
    if !is_queue {
        return Err(not_queue);
    }
    Ok(f)
}

/// syscall mq_getsetattr on a queue with attributes `attr`: the old
/// attributes reported, and the attributes after the call, in which only
/// the flags of the new attributes (when given) are taken.
pub fn sys_mq_getsetattr(attr: MqAttr, new_attr: Option<MqAttr>) -> (r: (MqAttr, MqAttr))
    ensures
        r.0 == attr,
        r.1 == (match new_attr {
            Some(n) => MqAttr { mq_flags: n.mq_flags, ..attr },
            None => attr,
        }),
{
    match new_attr {
        Some(n) => (attr, MqAttr { mq_flags: n.mq_flags, ..attr }),
        None => (attr, attr),
    }
}

/// What `mq_notify` does to a queue's registration.
#[derive(Clone, Copy, Debug, PartialEq, Eq, Structural)]
pub enum NotifyChange {
    /// Remove the registration.
    Clear,
    /// Register the caller with this kind of notification.
    Register(i32),
}

/// syscall mq_notify on a queue that has a registration or not: no event
/// (`None`) clears it; an unreadable event (`Some(None)`) is `EFAULT`, a
/// notification other than a signal or none `EINVAL`, and a queue already
/// registered `EBUSY`.
pub fn sys_mq_notify(registered: bool, sevp: Option<Option<i32>>) -> (r: Result<NotifyChange, SysError>)
    ensures
        r == (match sevp {
            None => Ok::<NotifyChange, SysError>(NotifyChange::Clear),
            Some(None) => Err::<NotifyChange, SysError>(SysError::EFAULT),
            Some(Some(n)) => if n != SIGEV_SIGNAL && n != SIGEV_NONE {
                Err::<NotifyChange, SysError>(SysError::EINVAL)
            } else if registered {
                Err::<NotifyChange, SysError>(SysError::EBUSY)
            } else {
                Ok::<NotifyChange, SysError>(NotifyChange::Register(n))
            },
        }),
{
    match sevp {
        None => Ok(NotifyChange::Clear),
        Some(None) => Err(SysError::EFAULT),
        Some(Some(n)) => {
            if n != SIGEV_SIGNAL && n != SIGEV_NONE {
                return Err(SysError::EINVAL);
            }
            if registered {
                return Err(SysError::EBUSY);
            }
            Ok(NotifyChange::Register(n))
        },
    }
}

/// The relative timeout of a queue operation from the deadline read
/// (`None`: no pointer, no limit; `Some(None)`: unreadable, `EFAULT`): an
/// invalid deadline is `EINVAL`, one passed gives zero.
fn mq_timeout(timeout: Option<Option<TimeSpec>>, now: Duration) -> (r: Result<Option<Duration>, SysError>)
    ensures
        mq_timeout_spec(timeout, now, r),
{
    match timeout {
        None => Ok(None),
        Some(None) => Err(SysError::EFAULT),
        Some(Some(ts)) => {
            if !ts.is_valid() {
                return Err(SysError::EINVAL);
            }
            Ok(abs_timespec_to_rel_timeout(ts, now))
        },
    }
}

/// `r` is what `mq_timeout` gives.
pub open spec fn mq_timeout_spec(timeout: Option<Option<TimeSpec>>, now: Duration, r: Result<Option<Duration>, SysError>) -> bool {
    match timeout {
        None => r == Ok::<Option<Duration>, SysError>(None),
        Some(None) => r == Err::<Option<Duration>, SysError>(SysError::EFAULT),
        Some(Some(ts)) => if ts.tv_nsec >= 1_000_000_000 {
            r == Err::<Option<Duration>, SysError>(SysError::EINVAL)
        } else {
            let abs = ts.tv_sec * 1_000_000_000 + ts.tv_nsec;
            r matches Ok(Some(d)) && d@ == (if abs <= now@ { 0 } else { abs - now@ })
        },
    }
}

/// syscall mq_timedsend, once the queue is found: a message above
/// `MSG_MAX_SIZE` bytes is `EMSGSIZE`, an unreadable message `EFAULT`;
/// then the timeout (see `mq_timeout`) with which the message is sent.
pub fn sys_mq_timedsend(msg_len: usize, msg_readable: bool, timeout: Option<Option<TimeSpec>>, now: Duration) -> (r:
    Result<Option<Duration>, SysError>)
    ensures
        msg_len > MSG_MAX_SIZE ==> r == Err::<Option<Duration>, SysError>(SysError::EMSGSIZE),
        msg_len <= MSG_MAX_SIZE && !msg_readable ==> r == Err::<Option<Duration>, SysError>(SysError::EFAULT),
        msg_len <= MSG_MAX_SIZE && msg_readable ==> mq_timeout_spec(timeout, now, r),
{
    if msg_len > MSG_MAX_SIZE {
        return Err(SysError::EMSGSIZE);
    }
    if !msg_readable {
        return Err(SysError::EFAULT);
    }
    mq_timeout(timeout, now)
}

/// syscall mq_timedreceive, once the queue is found: a buffer above
/// `MSG_MAX_SIZE` bytes is `EMSGSIZE`; then the timeout (see `mq_timeout`)
/// with which a message is received.
pub fn sys_mq_timedreceive(msg_len: usize, timeout: Option<Option<TimeSpec>>, now: Duration) -> (r: Result<
    Option<Duration>,
    SysError,
>)
    ensures
        msg_len > MSG_MAX_SIZE ==> r == Err::<Option<Duration>, SysError>(SysError::EMSGSIZE),
        msg_len <= MSG_MAX_SIZE ==> mq_timeout_spec(timeout, now, r),
{
    if msg_len > MSG_MAX_SIZE {
        return Err(SysError::EMSGSIZE);
    }
    mq_timeout(timeout, now)
}

/// What waiting on a queue does with an attempt's outcome.
#[derive(Clone, Copy, Debug, PartialEq, Eq, Structural)]
pub enum MqBlockStep {
    /// The operation succeeded.
    Done,
    /// Suspend, then try again.
    Retry,
    /// Fail with this error.
    Fail(SysError),
}

/// One round of waiting on a queue (block_on_mq): success ends it; a queue
/// that would block suspends the task and, once it is woken, fails with
/// `EINTR` when a signal it accepts is pending (`signal_pending`), else
/// tries again; other queue errors end it with their error number.
pub fn block_on_mq(outcome: Result<(), MqError>, signal_pending: bool) -> (r: MqBlockStep)
    ensures
        r == (match outcome {
            Ok(()) => MqBlockStep::Done,
            Err(MqError::WouldBlock) => if signal_pending {
                MqBlockStep::Fail(SysError::EINTR)
            } else {
                MqBlockStep::Retry
            },
            Err(e) => MqBlockStep::Fail(mq_error_number(e)),
        }),
{
    match outcome {
        Ok(()) => MqBlockStep::Done,
        Err(MqError::WouldBlock) => {
            if signal_pending {
                MqBlockStep::Fail(SysError::EINTR)
            } else {
                MqBlockStep::Retry
            }
        },
        Err(e) => MqBlockStep::Fail(map_mq_error(e)),
    }
}

/// The error number of a queue error, as `map_mq_error` gives it.
pub open spec fn mq_error_number(e: MqError) -> SysError {
    match e {
        MqError::TimedOut => SysError::ETIMEOUT,
        MqError::MsgTooBig => SysError::EMSGSIZE,
        MqError::WouldBlock => SysError::EAGAIN,
        MqError::InvalidHandle => SysError::EBADF,
        MqError::PermissionDenied => SysError::EACCES,
    }
}

} // verus!
