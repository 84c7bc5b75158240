//! Fast user-space locks: the queues of tasks waiting on a futex word, and
//! the decisions of the `futex` system call. A task waits under a key (the
//! physical address of the word, or the address space and virtual address
//! for a private futex); waking takes waiters from the front of its queue.

use vstd::prelude::*;
use std::collections::VecDeque;
use crate::errno::SysError;
use crate::duration::Duration;
use crate::time::TimeSpec;

verus! {

/// `FUTEX_WAKE_OP` operation: set the word to the argument.
pub const FUTEX_OP_SET: u32 = 0;
/// `FUTEX_WAKE_OP` operation: add the argument.
pub const FUTEX_OP_ADD: u32 = 1;
/// `FUTEX_WAKE_OP` operation: or the argument.
pub const FUTEX_OP_OR: u32 = 2;
/// `FUTEX_WAKE_OP` operation: and the complement of the argument.
pub const FUTEX_OP_ANDN: u32 = 3;
/// `FUTEX_WAKE_OP` operation: xor the argument.
pub const FUTEX_OP_XOR: u32 = 4;
/// `FUTEX_WAKE_OP` flag: the argument is a shift count.
pub const FUTEX_OP_ARG_SHIFT: u32 = 8;

/// `FUTEX_WAKE_OP` comparison: equal.
pub const FUTEX_OP_CMP_EQ: u32 = 0;
/// `FUTEX_WAKE_OP` comparison: not equal.
pub const FUTEX_OP_CMP_NE: u32 = 1;
/// `FUTEX_WAKE_OP` comparison: less than.
pub const FUTEX_OP_CMP_LT: u32 = 2;
/// `FUTEX_WAKE_OP` comparison: less than or equal.
pub const FUTEX_OP_CMP_LE: u32 = 3;
/// `FUTEX_WAKE_OP` comparison: greater than.
pub const FUTEX_OP_CMP_GT: u32 = 4;
/// `FUTEX_WAKE_OP` comparison: greater than or equal.
pub const FUTEX_OP_CMP_GE: u32 = 5;

/// The futex is private to the address space.
pub const FUTEX_PRIVATE_FLAG_BITMASK: i32 = 0x80;
/// The timeout is measured on the wall clock.
pub const FUTEX_CLOCK_REALTIME_BITMASK: i32 = 0x100;

/// A waiter's mask that matches every wake-up mask.
pub const FUTEX_BITSET_MATCH_ANY: u32 = 0xFFFF_FFFF;

/// Are there any waiters for this robust futex:
pub const FUTEX_WAITERS: u32 = 0x8000_0000;
/// The kernel signals via this bit that a thread holding a futex
/// has exited without unlocking the futex.
pub const FUTEX_OWNER_DIED: u32 = 0x4000_0000;
/// The rest of the robust-futex field is for the TID:
pub const FUTEX_TID_MASK: u32 = 0x3fff_ffff;

/// Futex operations.
#[derive(Clone, Copy, Debug, PartialEq, Eq, Structural)]
pub enum FutexOp {
    /// Wait while the word holds the expected value.
    Wait,
    /// Wake waiters.
    Wake,
    /// Make a file descriptor (not supported).
    Fd,
    /// Wake waiters and move others to a second futex.
    Requeue,
    /// As `Requeue`, once the word holds an expected value.
    CmpRequeue,
    /// Change a second word, wake waiters of the first, and of the second
    /// depending on the second word's old value.
    WakeOp,
    /// Priority-inheritance lock.
    LockPi,
    /// Priority-inheritance unlock.
    UnlockPi,
    /// Priority-inheritance try-lock.
    TryLockPi,
    /// Wait with a mask.
    WaitBitset,
    /// Wake waiters whose mask meets the given one.
    WakeBitset,
    /// Priority-inheritance wait with a mask.
    WaitBitsetPi,
    /// Any other number.
    Undefined,
}

impl FutexOp {
    /// The operation numbered `value`.
    pub open spec fn from_number(value: i32) -> FutexOp {
        if value == 0 { FutexOp::Wait }
        else if value == 1 { FutexOp::Wake }
        else if value == 2 { FutexOp::Fd }
        else if value == 3 { FutexOp::Requeue }
        else if value == 4 { FutexOp::CmpRequeue }
        else if value == 5 { FutexOp::WakeOp }
        else if value == 6 { FutexOp::LockPi }
        else if value == 7 { FutexOp::UnlockPi }
        else if value == 8 { FutexOp::TryLockPi }
        else if value == 9 { FutexOp::WaitBitset }
        else if value == 10 { FutexOp::WakeBitset }
        else if value == 11 { FutexOp::WaitBitsetPi }
        else { FutexOp::Undefined }
    }

    /// The operation numbered `value` (`Undefined` for unknown numbers).
    pub fn from(value: i32) -> (r: Self)
        ensures
            r == Self::from_number(value),
    {
        match value {
            0 => FutexOp::Wait,
            1 => FutexOp::Wake,
            2 => FutexOp::Fd,
            3 => FutexOp::Requeue,
            4 => FutexOp::CmpRequeue,
            5 => FutexOp::WakeOp,
            6 => FutexOp::LockPi,
            7 => FutexOp::UnlockPi,
            8 => FutexOp::TryLockPi,
            9 => FutexOp::WaitBitset,
            10 => FutexOp::WakeBitset,
            11 => FutexOp::WaitBitsetPi,
            _ => FutexOp::Undefined,
        }
    }
}

/// The operation word of `futex` taken apart: whether the futex is
/// private, whether its timeout is on the wall clock, and the operation
/// with both flags cleared.
pub fn futex_flags(futex_op: i32) -> (r: (bool, bool, FutexOp))
    ensures
        r.0 == (futex_op & FUTEX_PRIVATE_FLAG_BITMASK != 0),
        r.1 == (futex_op & FUTEX_CLOCK_REALTIME_BITMASK != 0),
        r.2 == FutexOp::from_number(futex_op & !0x180i32),
{
    let is_private = futex_op & FUTEX_PRIVATE_FLAG_BITMASK != 0;
    let is_realtime = futex_op & FUTEX_CLOCK_REALTIME_BITMASK != 0;
    let op = futex_op & !(FUTEX_PRIVATE_FLAG_BITMASK | FUTEX_CLOCK_REALTIME_BITMASK);
    assert(!(0x80i32 | 0x100i32) == !0x180i32) by (bit_vector);
    (is_private, is_realtime, FutexOp::from(op))
}

/// The key a futex is found under.
#[derive(Clone, Copy, Debug, PartialEq, Eq, Structural)]
#[allow(missing_docs)]
pub enum FutexHashKey {
    /// A shared futex, by the physical address of its word.
    Shared { paddr: usize },
    /// A private futex, by its address space and the virtual address of its word.
    Private { mm: usize, vaddr: usize },
}

/// The key as a triple of integers, as the waiting queues are kept.
pub open spec fn raw_key(k: FutexHashKey) -> (usize, usize, usize) {
    match k {
        FutexHashKey::Shared { paddr } => (0, paddr, 0),
        FutexHashKey::Private { mm, vaddr } => (1, mm, vaddr),
    }
}

/// Different keys are kept apart.
pub proof fn lemma_raw_key_injective(a: FutexHashKey, b: FutexHashKey)
    ensures
        raw_key(a) == raw_key(b) ==> a == b,
{
}

impl FutexHashKey {
    /// The key as a triple of integers.
    fn to_raw(&self) -> (r: (usize, usize, usize))
        ensures
            r == raw_key(*self),
    {
        match self {
            FutexHashKey::Shared { paddr } => (0, *paddr, 0),
            FutexHashKey::Private { mm, vaddr } => (1, *mm, *vaddr),
        }
    }
}

/// The key of the futex word at `uaddr`: for a private futex the address
/// space `mm` and `uaddr`; otherwise the physical address the word
/// translates to (`paddr`), and `EINVAL` when it does not translate.
pub fn futex_key(is_private: bool, mm: usize, uaddr: usize, paddr: Option<usize>) -> (r: Result<
    FutexHashKey,
    SysError,
>)
    ensures
        is_private ==> r == Ok::<FutexHashKey, SysError>(FutexHashKey::Private { mm, vaddr: uaddr }),
        !is_private && paddr is None ==> r == Err::<FutexHashKey, SysError>(SysError::EINVAL),
        !is_private && paddr is Some ==> r == Ok::<FutexHashKey, SysError>(
            FutexHashKey::Shared { paddr: paddr->Some_0 },
        ),
{
    if is_private {
        Ok(FutexHashKey::Private { mm, vaddr: uaddr })
    } else {
        match paddr {
            Some(p) => Ok(FutexHashKey::Shared { paddr: p }),
            None => Err(SysError::EINVAL),
        }
    }
}

/// A task waiting on a futex.
#[derive(Clone, Copy, Debug, PartialEq, Eq, Structural)]
pub struct FutexWaiter {
    /// The task.
    pub tid: usize,
    /// Which wake-ups it accepts.
    pub mask: u32,
}

/// A waiter as a pair of integers, as the waiting queues are kept.
pub open spec fn raw_waiter(w: FutexWaiter) -> (usize, u32) {
    (w.tid, w.mask)
}

/// The waiters of a raw queue.
pub open spec fn waiters_of(q: Seq<(usize, u32)>) -> Seq<FutexWaiter> {
    q.map_values(|p: (usize, u32)| FutexWaiter { tid: p.0, mask: p.1 })
}

/// The waiters of two queues one after the other.
pub proof fn lemma_waiters_of_concat(a: Seq<(usize, u32)>, b: Seq<(usize, u32)>)
    ensures
        waiters_of(a + b) == waiters_of(a) + waiters_of(b),
{
    assert(waiters_of(a + b) =~= waiters_of(a) + waiters_of(b));
}

/// The hasher of futex keys: each chunk of up to eight bytes, read most
/// significant first, is added to 31 and xored into the state.
pub struct XorHasher {
    res: u64,
}

/// The value of `s`, most significant byte first.
pub open spec fn be_value(s: Seq<u8>) -> nat
    decreases s.len(),
{
    if s.len() == 0 {
        0
    } else {
        be_value(s.drop_last()) * 256 + s.last() as nat
    }
}

/// The hasher state after writing `bytes` to a hasher in state `res`.
pub open spec fn xor_hash(res: u64, bytes: Seq<u8>) -> u64
    decreases bytes.len(),
{
    if bytes.len() == 0 {
        res
    } else {
        let n = if bytes.len() < 8 {
            bytes.len()
        } else {
            8
        };
        let t = be_value(bytes.subrange(0, n as int));
        xor_hash(res ^ ((31 + t) % 0x1_0000_0000_0000_0000) as u64, bytes.subrange(n as int, bytes.len() as int))
    }
}

impl XorHasher {
    /// The state of a new hasher.
    pub closed spec fn spec_state(&self) -> u64 {
        self.res
    }

    /// A hasher in the starting state of the futex table.
    pub fn new() -> (r: Self)
        ensures
            r.spec_state() == 114514,
    {
        XorHasher { res: 114514 }
    }

    /// The hash: the current state.
    pub fn finish(&self) -> (r: u64)
        ensures
            r == self.spec_state(),
    {
        self.res
    }

    /// Mix `bytes` into the state.
    pub fn write(&mut self, bytes: &[u8])
        ensures
            final(self).spec_state() == xor_hash(old(self).spec_state(), bytes@),
    {
        let mut start: usize = 0;
        assert(bytes@.subrange(0, bytes@.len() as int) =~= bytes@);
        while start < bytes.len()
            invariant
                start <= bytes@.len(),
                xor_hash(old(self).res, bytes@) == xor_hash(self.res, bytes@.subrange(start as int, bytes@.len() as int)),
            decreases bytes@.len() - start,
        {
            let end: usize = if bytes.len() - start < 8 {
                bytes.len()
            } else {
                start + 8
            };
            let mut t: u64 = 0;
            let mut j: usize = start;
            while j < end
                invariant
                    start <= j <= end <= bytes@.len(),
                    end - start <= 8,
                    t == be_value(bytes@.subrange(start as int, j as int)),
                    t < pow256(j - start),
                decreases end - j,
            {
                proof {
                    let s = bytes@.subrange(start as int, j + 1);
                    assert(s.drop_last() =~= bytes@.subrange(start as int, j as int));
                    lemma_pow256_step(j - start);
                }
                t = t * 256 + bytes[j] as u64;
                j = j + 1;
            }
            proof {
                let rest = bytes@.subrange(start as int, bytes@.len() as int);
                assert(rest.subrange(0, (end - start) as int) =~= bytes@.subrange(start as int, end as int));
                assert(rest.subrange((end - start) as int, rest.len() as int) =~= bytes@.subrange(end as int, bytes@.len() as int));
            }
            self.res = self.res ^ t.wrapping_add(31);
            start = end;
        }
    }
}

/// 256 to the power `n`, for `n` up to eight.
pub open spec fn pow256(n: int) -> int
    decreases n,
{
    if n <= 0 {
        1
    } else {
        256 * pow256(n - 1)
    }
}

proof fn lemma_pow256_step(n: int)
    requires
        0 <= n < 8,
    ensures
        pow256(n + 1) == 256 * pow256(n),
        pow256(n + 1) <= 0x1_0000_0000_0000_0000,
    decreases n,
{
    reveal_with_fuel(pow256, 9);
}

/// Builds the hasher of the futex table.
pub struct FutexHashKeyBuilder;

impl core::hash::Hasher for XorHasher {
    fn finish(&self) -> (r: u64)
        ensures
            r == self.spec_state(),
    {
        XorHasher::finish(self)
    }

    fn write(&mut self, bytes: &[u8])
        ensures
            final(self).spec_state() == xor_hash(old(self).spec_state(), bytes@),
    {
        XorHasher::write(self, bytes)
    }
}

impl core::hash::BuildHasher for FutexHashKeyBuilder {
    type Hasher = XorHasher;

    fn build_hasher(&self) -> (r: XorHasher)
        ensures
            r.spec_state() == 114514,
    {
        XorHasher::new()
    }
}


/// The waiting queues, kept in a `hashbrown` hash map from raw keys to
/// queues of raw waiters (hashed by `XorHasher`). The map is private: what
/// it holds is `futex_table_contents`, and it is reached only through
/// `table_new`, `table_get_mut`, `table_insert` and `table_remove`.
#[verifier::external_body]
pub struct FutexTable {
    map: hashbrown::HashMap<(usize, usize, usize), VecDeque<(usize, u32)>, FutexHashKeyBuilder>,
}

/// The queues a futex table holds.
pub uninterp spec fn futex_table_contents(t: FutexTable) -> Map<(usize, usize, usize), Seq<(usize, u32)>>;

/// An empty table (`hashbrown::HashMap::with_hasher`): it holds no queue.
#[verifier::external_body]
fn table_new() -> (r: FutexTable)
    ensures
        futex_table_contents(r).dom().is_empty(),
{
    FutexTable { map: hashbrown::HashMap::with_hasher(FutexHashKeyBuilder) }
}

/// The queue under `k`, to change in place (`hashbrown::HashMap::get_mut`):
/// present exactly when the table holds `k`; what the queue becomes is
/// what the table holds under `k` afterwards, and nothing else changes.
#[verifier::external_body]
fn table_get_mut<'a>(t: &'a mut FutexTable, k: &(usize, usize, usize)) -> (r: Option<
    &'a mut VecDeque<(usize, u32)>,
>)
    ensures
        r is Some <==> futex_table_contents(*old(t)).dom().contains(*k),
        r is Some ==> (*r->Some_0)@ == futex_table_contents(*old(t))[*k] && futex_table_contents(
            *final(t),
        ) == futex_table_contents(*old(t)).insert(*k, (*final(r->Some_0))@),
        r is None ==> futex_table_contents(*final(t)) == futex_table_contents(*old(t)),
{
    t.map.get_mut(k)
}

/// Put queue `v` under `k` (`hashbrown::HashMap::insert`), handing back
/// the queue it replaces.
#[verifier::external_body]
fn table_insert(t: &mut FutexTable, k: (usize, usize, usize), v: VecDeque<(usize, u32)>) -> (r:
    Option<VecDeque<(usize, u32)>>)
    ensures
        futex_table_contents(*final(t)) == futex_table_contents(*old(t)).insert(k, v@),
        r is Some <==> futex_table_contents(*old(t)).dom().contains(k),
        r is Some ==> r->Some_0@ == futex_table_contents(*old(t))[k],
{
    t.map.insert(k, v)
}

/// Take the queue under `k` out of the table (`hashbrown::HashMap::remove`).
#[verifier::external_body]
fn table_remove(t: &mut FutexTable, k: &(usize, usize, usize)) -> (r: Option<
    VecDeque<(usize, u32)>,
>)
    ensures
        futex_table_contents(*final(t)) == futex_table_contents(*old(t)).remove(*k),
        r is Some <==> futex_table_contents(*old(t)).dom().contains(*k),
        r is Some ==> r->Some_0@ == futex_table_contents(*old(t))[*k],
{
    t.map.remove(k)
}

/// The index of the first waiter of `q` at or after `from` that is task
/// `tid`, or the length of `q`.
pub open spec fn index_of_tid(q: Seq<(usize, u32)>, tid: usize, from: int) -> int
    decreases q.len() - from,
{
    if from >= q.len() || from < 0 {
        q.len() as int
    } else if q[from].0 == tid {
        from
    } else {
        index_of_tid(q, tid, from + 1)
    }
}

/// The queues after waking up to `n` waiters under `k`, and the waiters
/// woken (from the front of the queue); a futex with no queue has no
/// waiter, so none is woken and nothing changes.
pub open spec fn wake_spec(m: Map<(usize, usize, usize), Seq<(usize, u32)>>, k: (usize, usize, usize), n: nat) -> (
    Map<(usize, usize, usize), Seq<(usize, u32)>>,
    Result<Seq<(usize, u32)>, SysError>,
) {
    if !m.dom().contains(k) {
        (m, Ok(Seq::empty()))
    } else {
        let q = m[k];
        let c = if n < q.len() {
            n as int
        } else {
            q.len() as int
        };
        (m.insert(k, q.subrange(c, q.len() as int)), Ok(q.subrange(0, c)))
    }
}

/// The queues after moving up to `n` waiters from the front of the queue
/// under `old` to the back of the queue under `new` (made if missing); the
/// rest stay under `old` unless none are left. `EINVAL` when there is no
/// queue under `old`; the result is the number moved. When `old` and `new`
/// are the same futex the waiters move to where they are: the queue stays
/// as it was.
pub open spec fn requeue_spec(
    m: Map<(usize, usize, usize), Seq<(usize, u32)>>,
    old: (usize, usize, usize),
    new: (usize, usize, usize),
    n: nat,
) -> (Map<(usize, usize, usize), Seq<(usize, u32)>>, Result<isize, SysError>) {
    if !m.dom().contains(old) {
        (m, Err(SysError::EINVAL))
    } else {
        let q = m[old];
        let c = if n < q.len() {
            n as int
        } else {
            q.len() as int
        };
        if old == new {
            (m, Ok(c as isize))
        } else {
        let m1 = m.remove(old);
        let m2 = if m1.dom().contains(new) {
            m1.insert(new, m1[new] + q.subrange(0, c))
        } else {
            m1.insert(new, q.subrange(0, c))
        };
        let m3 = if c < q.len() {
            m2.insert(old, q.subrange(c, q.len() as int))
        } else {
            m2
        };
        (m3, Ok(c as isize))
        }
    }
}

/// A run of the loop that wakes waiters by mask: `q` is the queue as it
/// stands, `len` its length at the start, and the loop, at step `i` with
/// `count` woken, tests the mask of the waiter at `len - 1 - i` and, when
/// it meets `mask`, wakes the waiter at `i`. The result is the queue left
/// and the waiters woken, or `None` where the loop would index past the
/// end of the shortened queue.
pub open spec fn bitset_run(
    q: Seq<(usize, u32)>,
    len: int,
    i: int,
    count: int,
    n: int,
    mask: u32,
) -> Option<(Seq<(usize, u32)>, Seq<(usize, u32)>)>
    decreases (len - i) + (n - count),
{
    if !(i < len && count < n) || i < 0 {
        Some((q, Seq::empty()))
    } else if len - 1 - i >= q.len() {
        None
    } else if q[len - 1 - i].1 & mask != 0 {
        if i >= q.len() {
            None
        } else {
            match bitset_run(q.remove(i), len, i, count + 1, n, mask) {
                Some(p) => Some((p.0, seq![q[i]] + p.1)),
                None => None,
            }
        }
    } else {
        bitset_run(q, len, i + 1, count, n, mask)
    }
}

/// Whether the mask-waking loop over queue `q` (see `bitset_run`) stays
/// within the queue.
fn bitset_run_fits(q: Vec<(usize, u32)>, n: u32, mask: u32) -> (r: bool)
    ensures
        r == bitset_run(q@, q@.len() as int, 0, 0, n as int, mask) is Some,
{
    let ghost q0 = q@;
    let mut v = q;
    let len = v.len();
    let mut count: usize = 0;
    let mut i: usize = 0;
    while i < len && count < n as usize
        invariant
            q@ == q0,
            len == q0.len(),
            i <= len,
            count <= n,
            (bitset_run(q0, len as int, 0, 0, n as int, mask) is Some) == (bitset_run(
                v@,
                len as int,
                i as int,
                count as int,
                n as int,
                mask,
            ) is Some),
        decreases (len - i) + (n - count),
    {
        if len - 1 - i >= v.len() {
            assert(bitset_run(v@, len as int, i as int, count as int, n as int, mask) is None);
            return false;
        }
        if v[len - 1 - i].1 & mask != 0 {
            if i >= v.len() {
                assert(bitset_run(v@, len as int, i as int, count as int, n as int, mask) is None);
                return false;
            }
            v.remove(i);
            count = count + 1;
        } else {
            i = i + 1;
        }
    }
    true
}

/// The waiting queues of all futexes.
pub struct FutexManager {
    futexs: FutexTable,
}

impl FutexManager {
    /// The queues, by raw key.
    pub closed spec fn queues(self) -> Map<(usize, usize, usize), Seq<(usize, u32)>> {
        futex_table_contents(self.futexs)
    }

    /// No futex has waiters.
    pub fn new() -> (r: Self)
        ensures
            r.queues() == Map::<(usize, usize, usize), Seq<(usize, u32)>>::empty(),
    {
        let t = table_new();
        assert(futex_table_contents(t) =~= Map::<(usize, usize, usize), Seq<(usize, u32)>>::empty());
        FutexManager { futexs: t }
    }

    /// Queue `waiter` at the back of the queue of `key`, making the queue
    /// if there is none.
    pub fn add_waiter(&mut self, key: &FutexHashKey, waiter: FutexWaiter)
        ensures
            final(self).queues() == old(self).queues().insert(
                raw_key(*key),
                (if old(self).queues().dom().contains(raw_key(*key)) {
                    old(self).queues()[raw_key(*key)]
                } else {
                    Seq::empty()
                }).push(raw_waiter(waiter)),
            ),
    {
        let k = key.to_raw();
        let w = (waiter.tid, waiter.mask);
        match table_get_mut(&mut self.futexs, &k) {
            Some(waiters) => {
                waiters.push_back(w);
            },
            None => {
                let mut waiters: VecDeque<(usize, u32)> = VecDeque::with_capacity(1);
                waiters.push_back(w);
                let _ = table_insert(&mut self.futexs, k, waiters);
            },
        }
    }

    /// Take task `tid` out of the queue of `key` (its first occurrence),
    /// when it timed out or was interrupted; the queue stays, even empty.
    pub fn remove_waiter(&mut self, key: &FutexHashKey, tid: usize) -> (r: Option<FutexWaiter>)
        ensures
            ({
                let m = old(self).queues();
                let k = raw_key(*key);
                if m.dom().contains(k) && index_of_tid(m[k], tid, 0) < m[k].len() {
                    let i = index_of_tid(m[k], tid, 0);
                    &&& r == Some(FutexWaiter { tid: m[k][i].0, mask: m[k][i].1 })
                    &&& final(self).queues() == m.insert(k, m[k].remove(i))
                } else {
                    r is None && final(self).queues() == m
                }
            }),
    {
        let k = key.to_raw();
        match table_get_mut(&mut self.futexs, &k) {
            Some(waiters) => {
                let ghost q = waiters@;
                let mut i: usize = 0;
                while i < waiters.len() && waiters[i].0 != tid
                    invariant
                        waiters@ == q,
                        i <= q.len(),
                        index_of_tid(q, tid, 0) == index_of_tid(q, tid, i as int),
                    decreases q.len() - i,
                {
                    i = i + 1;
                }
                if i < waiters.len() {
                    match waiters.remove(i) {
                        Some(p) => Some(FutexWaiter { tid: p.0, mask: p.1 }),
                        None => None,
                    }
                } else {
                    None
                }
            },
            None => None,
        }
    }
}


impl FutexManager {
    /// Wake up to `n` waiters from the front of the queue of `key`: they
    /// leave the queue and are returned, in order, to be woken. A futex
    /// with no queue has none to wake.
    pub fn wake(&mut self, key: &FutexHashKey, n: u32) -> (r: Result<Vec<FutexWaiter>, SysError>)
        ensures
            ({
                let (m, res) = wake_spec(old(self).queues(), raw_key(*key), n as nat);
                &&& final(self).queues() == m
                &&& res is Err ==> r == Err::<Vec<FutexWaiter>, SysError>(res->Err_0)
                &&& res is Ok ==> r is Ok && r->Ok_0@ == waiters_of(res->Ok_0)
            }),
    {
        let k = key.to_raw();
        match table_get_mut(&mut self.futexs, &k) {
            Some(waiters) => {
                let ghost q = waiters@;
                let c: usize = if (n as usize) < waiters.len() {
                    n as usize
                } else {
                    waiters.len()
                };
                let mut woken: Vec<FutexWaiter> = Vec::new();
                let mut j: usize = 0;
                while j < c
                    invariant
                        c <= q.len(),
                        j <= c,
                        waiters@ == q.subrange(j as int, q.len() as int),
                        woken@ == waiters_of(q.subrange(0, j as int)),
                    decreases c - j,
                {
                    let w = waiters.pop_front().unwrap();
                    woken.push(FutexWaiter { tid: w.0, mask: w.1 });
                    proof {
                        assert(q.subrange(0, j + 1) =~= q.subrange(0, j as int).push(q[j as int]));
                        assert(waiters_of(q.subrange(0, j + 1)) =~= waiters_of(q.subrange(0, j as int)).push(FutexWaiter { tid: w.0, mask: w.1 }));
                        assert(waiters@ =~= q.subrange(j + 1, q.len() as int));
                    }
                    j = j + 1;
                }
                Ok(woken)
            },
            None => Ok(Vec::new()),
        }
    }

    /// Whether waking the waiters of `key` by mask (`wake_bitset`, and
    /// `sys_futex` with `FUTEX_WAKE_BITSET`) stays within the queue: `false`
    /// exactly when the loop would index past the end of the shortened
    /// queue. The queues are left as they are.
    pub fn can_wake_bitset(&mut self, key: &FutexHashKey, n: u32, mask: u32) -> (r: bool)
        ensures
            final(self).queues() == old(self).queues(),
            r == (old(self).queues().dom().contains(raw_key(*key)) ==> bitset_run(
                old(self).queues()[raw_key(*key)],
                old(self).queues()[raw_key(*key)].len() as int,
                0,
                0,
                n as int,
                mask,
            ) is Some),
    {
        let k = key.to_raw();
        match table_get_mut(&mut self.futexs, &k) {
            Some(waiters) => {
                let mut v: Vec<(usize, u32)> = Vec::new();
                let mut j: usize = 0;
                while j < waiters.len()
                    invariant
                        j <= waiters@.len(),
                        v@ == waiters@.subrange(0, j as int),
                    decreases waiters@.len() - j,
                {
                    v.push(waiters[j]);
                    proof {
                        assert(v@ =~= waiters@.subrange(0, j + 1));
                    }
                    j = j + 1;
                }
                proof {
                    assert(v@ =~= waiters@);
                }
                bitset_run_fits(v, n, mask)
            },
            None => true,
        }
    }

    /// Wake waiters of `key` by mask, as many as `n`: the loop tests the
    /// waiter counted from the back and wakes the one counted from the
    /// front, as `bitset_run` describes. `EINVAL` when the futex has no
    /// queue. Whether the loop stays within the queue is what
    /// `can_wake_bitset` tells beforehand.
    pub fn wake_bitset(&mut self, key: &FutexHashKey, n: u32, mask: u32) -> (r: Result<
        Vec<FutexWaiter>,
        SysError,
    >)
        requires
            old(self).queues().dom().contains(raw_key(*key)) ==> bitset_run(
                old(self).queues()[raw_key(*key)],
                old(self).queues()[raw_key(*key)].len() as int,
                0,
                0,
                n as int,
                mask,
            ) is Some,
        ensures
            ({
                let m = old(self).queues();
                let k = raw_key(*key);
                if m.dom().contains(k) {
                    let run = bitset_run(m[k], m[k].len() as int, 0, 0, n as int, mask)->Some_0;
                    &&& r is Ok && r->Ok_0@ == waiters_of(run.1)
                    &&& final(self).queues() == m.insert(k, run.0)
                } else {
                    r == Err::<Vec<FutexWaiter>, SysError>(SysError::EINVAL) && final(self).queues()
                        == m
                }
            }),
    {
        let k = key.to_raw();
        match table_get_mut(&mut self.futexs, &k) {
            Some(waiters) => {
                let ghost q = waiters@;
                let len = waiters.len();
                let max_count = n as usize;
                let mut count: usize = 0;
                let mut i: usize = 0;
                let mut woken: Vec<FutexWaiter> = Vec::new();
                let ghost mut woken_raw: Seq<(usize, u32)> = Seq::empty();
                while i < len && count < max_count
                    invariant
                        len == q.len(),
                        max_count == n,
                        i <= len,
                        count <= max_count,
                        bitset_run(waiters@, len as int, i as int, count as int, n as int, mask) is Some,
                        bitset_run(q, len as int, 0, 0, n as int, mask) == Some((
                            bitset_run(waiters@, len as int, i as int, count as int, n as int, mask)->Some_0.0,
                            woken_raw + bitset_run(waiters@, len as int, i as int, count as int, n as int, mask)->Some_0.1,
                        )),
                        woken@ == waiters_of(woken_raw),
                    decreases (len - i) + (max_count - count),
                {
                    let ghost cur = waiters@;
                    if waiters[len - 1 - i].1 & mask != 0 {
                        let w = waiters.remove(i).unwrap();
                        woken.push(FutexWaiter { tid: w.0, mask: w.1 });
                        proof {
                            let rest = bitset_run(waiters@, len as int, i as int, count + 1, n as int, mask);
                            assert(seq![w] + rest->Some_0.1 == bitset_run(cur, len as int, i as int, count as int, n as int, mask)->Some_0.1);
                            assert(woken_raw + (seq![w] + rest->Some_0.1) =~= woken_raw.push(w) + rest->Some_0.1);
                            woken_raw = woken_raw.push(w);
                            assert(waiters_of(woken_raw) =~= woken@);
                        }
                        count = count + 1;
                    } else {
                        i = i + 1;
                    }
                }
                proof {
                    assert(woken_raw + Seq::<(usize, u32)>::empty() =~= woken_raw);
                }
                Ok(woken)
            },
            None => Err(SysError::EINVAL),
        }
    }

    /// Move up to `n_req` waiters from the front of the queue of `from` to
    /// the back of the queue of `to` (made if missing); the rest stay under
    /// `from` unless none are left, in which case its queue goes. Returns
    /// how many moved; `EINVAL` when `from` has no queue. Requeueing a
    /// futex onto itself leaves its queue as it was.
    pub fn requeue_waiters(&mut self, from: FutexHashKey, to: FutexHashKey, n_req: usize) -> (r:
        Result<isize, SysError>)
        ensures
            ({
                let (m, res) = requeue_spec(old(self).queues(), raw_key(from), raw_key(to), n_req as nat);
                final(self).queues() == m && r == res
            }),
    {
        let o = from.to_raw();
        let nk = to.to_raw();
        if o.0 == nk.0 && o.1 == nk.1 && o.2 == nk.2 {
            return match table_get_mut(&mut self.futexs, &o) {
                Some(q) => {
                    let c: usize = if n_req < q.len() {
                        n_req
                    } else {
                        q.len()
                    };
                    Ok(c as isize)
                },
                None => Err(SysError::EINVAL),
            };
        }
        let mut old_waiters = match table_remove(&mut self.futexs, &o) {
            Some(q) => q,
            None => return Err(SysError::EINVAL),
        };
        let ghost q = old_waiters@;
        let ghost m1 = futex_table_contents(self.futexs);
        let c: usize = if n_req < old_waiters.len() {
            n_req
        } else {
            old_waiters.len()
        };
        match table_get_mut(&mut self.futexs, &nk) {
            Some(new_waiters) => {
                let ghost start = new_waiters@;
                let mut j: usize = 0;
                while j < c
                    invariant
                        c <= q.len(),
                        j <= c,
                        old_waiters@ == q.subrange(j as int, q.len() as int),
                        new_waiters@ == start + q.subrange(0, j as int),
                    decreases c - j,
                {
                    let w = old_waiters.pop_front().unwrap();
                    new_waiters.push_back(w);
                    proof {
                        assert(start + q.subrange(0, j + 1) =~= (start + q.subrange(0, j as int)).push(w));
                        assert(old_waiters@ =~= q.subrange(j + 1, q.len() as int));
                    }
                    j = j + 1;
                }
            },
            None => {
                let mut new_waiters: VecDeque<(usize, u32)> = VecDeque::with_capacity(c);
                let mut j: usize = 0;
                while j < c
                    invariant
                        c <= q.len(),
                        j <= c,
                        old_waiters@ == q.subrange(j as int, q.len() as int),
                        new_waiters@ == q.subrange(0, j as int),
                    decreases c - j,
                {
                    let w = old_waiters.pop_front().unwrap();
                    new_waiters.push_back(w);
                    proof {
                        assert(q.subrange(0, j + 1) =~= q.subrange(0, j as int).push(w));
                        assert(old_waiters@ =~= q.subrange(j + 1, q.len() as int));
                    }
                    j = j + 1;
                }
                let _ = table_insert(&mut self.futexs, nk, new_waiters);
            },
        }
        if old_waiters.len() > 0 {
            let _ = table_insert(&mut self.futexs, o, old_waiters);
        }
        Ok(c as isize)
    }
}


/// The fields of the `val3` word of `FUTEX_WAKE_OP`: the operation, the
/// comparison, the operation argument and the comparison argument.
pub fn wake_op_args(val3: u32) -> (r: (u32, u32, u32, u32))
    ensures
        r.0 == (val3 >> 28u32) & 0xF,
        r.1 == (val3 >> 24u32) & 0xF,
        r.2 == (val3 >> 12u32) & 0xFFF,
        r.3 == val3 & 0xFFF,
        r.0 < 16 && r.1 < 16 && r.2 < 4096 && r.3 < 4096,
{
    let op = (val3 >> 28u32) & 0xF;
    let test_kind = (val3 >> 24u32) & 0xF;
    let oparg = (val3 >> 12u32) & 0xFFF;
    let testarg = val3 & 0xFFF;
    assert(op < 16 && test_kind < 16 && oparg < 4096 && testarg < 4096) by (bit_vector)
        requires
            op == (val3 >> 28u32) & 0xF,
            test_kind == (val3 >> 24u32) & 0xF,
            oparg == (val3 >> 12u32) & 0xFFF,
            testarg == val3 & 0xFFF,
    ;
    (op, test_kind, oparg, testarg)
}

/// The argument `FUTEX_WAKE_OP` applies: one shifted left by `oparg` when
/// the operation has the shift flag, else `oparg`; a shift must stay
/// below the word's width.
pub fn wake_op_argument(op: u32, oparg: u32) -> (r: u32)
    requires
        op & FUTEX_OP_ARG_SHIFT != 0 ==> oparg < 32,
    ensures
        op & FUTEX_OP_ARG_SHIFT != 0 ==> r == 1u32 << oparg,
        op & FUTEX_OP_ARG_SHIFT == 0 ==> r == oparg,
{
    if op & FUTEX_OP_ARG_SHIFT != 0 {
        1u32 << oparg
    } else {
        oparg
    }
}

/// The new value of the second word: the operation (the low three bits of
/// `op`, which must name one of set, add, or, and-not and xor) applied to
/// its old value and the argument.
pub fn wake_op_new_value(op: u32, arg: u32, old: u32) -> (r: u32)
    requires
        op & 7 <= 4,
    ensures
        op & 7 == FUTEX_OP_SET ==> r == arg,
        op & 7 == FUTEX_OP_ADD ==> r == old.wrapping_add(arg),
        op & 7 == FUTEX_OP_OR ==> r == old | arg,
        op & 7 == FUTEX_OP_ANDN ==> r == old & !arg,
        op & 7 == FUTEX_OP_XOR ==> r == old ^ arg,
{
    let kind = op & 7;
    if kind == FUTEX_OP_SET {
        arg
    } else if kind == FUTEX_OP_ADD {
        old.wrapping_add(arg)
    } else if kind == FUTEX_OP_OR {
        old | arg
    } else if kind == FUTEX_OP_ANDN {
        old & !arg
    } else {
        old ^ arg
    }
}

/// The comparison of `FUTEX_WAKE_OP` (which must be one of the six).
pub open spec fn wake_op_test(kind: u32, old: u32, arg: u32) -> bool {
    if kind == FUTEX_OP_CMP_EQ {
        old == arg
    } else if kind == FUTEX_OP_CMP_NE {
        old != arg
    } else if kind == FUTEX_OP_CMP_GE {
        old >= arg
    } else if kind == FUTEX_OP_CMP_GT {
        old > arg
    } else if kind == FUTEX_OP_CMP_LE {
        old <= arg
    } else {
        old < arg
    }
}

/// Whether the old value of the second word passes the comparison.
pub fn wake_op_check(kind: u32, old: u32, arg: u32) -> (r: bool)
    requires
        kind <= 5,
    ensures
        r == wake_op_test(kind, old, arg),
{
    if kind == FUTEX_OP_CMP_EQ {
        old == arg
    } else if kind == FUTEX_OP_CMP_NE {
        old != arg
    } else if kind == FUTEX_OP_CMP_GE {
        old >= arg
    } else if kind == FUTEX_OP_CMP_GT {
        old > arg
    } else if kind == FUTEX_OP_CMP_LE {
        old <= arg
    } else {
        old < arg
    }
}

/// The number of failed compare-and-swap rounds after which `FUTEX_WAKE_OP`
/// gives up on the second futex word.
pub const WAKE_OP_SPIN_LIMIT: u32 = 100000;

/// A round of the compare-and-swap loop of `FUTEX_WAKE_OP` on the second
/// futex word.
#[derive(Clone, Copy, Debug, PartialEq, Eq, Structural)]
pub enum WakeOpCas {
    /// The word was replaced; the value it held goes on to the comparison.
    Done,
    /// Try again from `oldval`, the value the word was found to hold, after
    /// `spins` failed rounds.
    Retry { oldval: u32, spins: u32 },
    /// Too many failed rounds: `EBUSY`.
    Busy,
}

/// After a round of the loop (`cas`: `Ok` when the word held the expected
/// value and was replaced, else the value it held), with `spins` failed
/// rounds before it: done; or, after more than `WAKE_OP_SPIN_LIMIT` failed
/// rounds, busy; or another round from the value found.
pub fn wake_op_cas_step(spins: u32, cas: Result<(), u32>) -> (r: WakeOpCas)
    ensures
        cas is Ok ==> r == WakeOpCas::Done,
        cas is Err && spins > WAKE_OP_SPIN_LIMIT ==> r == WakeOpCas::Busy,
        cas is Err && spins <= WAKE_OP_SPIN_LIMIT ==> r == (WakeOpCas::Retry {
            oldval: cas->Err_0,
            spins: (spins + 1) as u32,
        }),
{
    match cas {
        Ok(()) => WakeOpCas::Done,
        Err(v) => {
            if spins > WAKE_OP_SPIN_LIMIT {
                WakeOpCas::Busy
            } else {
                WakeOpCas::Retry { oldval: v, spins: spins + 1 }
            }
        },
    }
}

/// Where a `futex` call stands once it has decided.
pub enum FutexStep {
    /// The call is over with `result`; `woken` are the waiters to wake.
    Done { result: isize, woken: Vec<FutexWaiter> },
    /// The calling task is queued and goes to sleep.
    Wait,
}

/// The queue a task joins under `k` with `w`.
pub open spec fn with_waiter(m: Map<(usize, usize, usize), Seq<(usize, u32)>>, k: (usize, usize, usize), w: (usize, u32)) -> Map<(usize, usize, usize), Seq<(usize, u32)>> {
    m.insert(k, (if m.dom().contains(k) { m[k] } else { Seq::empty() }).push(w))
}

/// A finished call: its result and the waiters woken.
pub open spec fn done_with(r: Result<FutexStep, SysError>, result: int, woken: Seq<(usize, u32)>) -> bool {
    &&& r is Ok
    &&& r->Ok_0 matches FutexStep::Done { result: res, woken: w }
    &&& res == result
    &&& w@ == waiters_of(woken)
}

/// syscall futex, for task `tid` on the futex `key` whose word holds
/// `word`: `key2` is the key of the second futex word (or why it has
/// none), `val2` the timeout argument taken as a number, and `old2` the
/// value the second word held before `FUTEX_WAKE_OP` changed it.
/// - wait: with a mask (`val3`, which must not be zero) or any; `EAGAIN`
///   unless the word holds `val`; otherwise the task joins the queue;
/// - wake: up to `val` waiters, giving how many;
/// - requeue (and compare-requeue, once the word holds `val3`): wake up to
///   `val`, then move up to `val2` more to the second futex;
/// - wake-op: wake up to `val` waiters, then, if the old second word passes
///   the comparison, up to `val2` more waiters of the same futex;
/// - wake-bitset: with mask `val3` (not zero), as `wake_bitset` (its
///   precondition is what `can_wake_bitset` tests);
/// - the file-descriptor and priority-inheritance operations: `EINVAL`.
/// Waking a futex with no queue wakes no one (result 0); requeueing from a
/// futex with no queue is `EINVAL`.
pub fn sys_futex(
    fm: &mut FutexManager,
    op: FutexOp,
    key: FutexHashKey,
    key2: Result<FutexHashKey, SysError>,
    val: u32,
    val2: usize,
    val3: u32,
    word: u32,
    old2: u32,
    tid: usize,
) -> (r: Result<FutexStep, SysError>)
    requires
        op == FutexOp::WakeOp ==> (val3 >> 24u32) & 0xF <= 5,
        op == FutexOp::WakeBitset && val3 != 0 && old(fm).queues().dom().contains(raw_key(key))
            ==> bitset_run(
            old(fm).queues()[raw_key(key)],
            old(fm).queues()[raw_key(key)].len() as int,
            0,
            0,
            val as int,
            val3,
        ) is Some,
    ensures
        ({
            let m = old(fm).queues();
            let k = raw_key(key);
            let (m1, w1) = wake_spec(m, k, val as nat);
            let einval = r == Err::<FutexStep, SysError>(SysError::EINVAL);
            if op == FutexOp::Wait || op == FutexOp::WaitBitset {
                if op == FutexOp::WaitBitset && val3 == 0 {
                    einval && final(fm).queues() == m
                } else if word != val {
                    r == Err::<FutexStep, SysError>(SysError::EAGAIN) && final(fm).queues() == m
                } else {
                    let mask = if op == FutexOp::WaitBitset {
                        val3
                    } else {
                        FUTEX_BITSET_MATCH_ANY
                    };
                    r matches Ok(FutexStep::Wait) && final(fm).queues() == with_waiter(m, k, (tid, mask))
                }
            } else if op == FutexOp::Wake {
                final(fm).queues() == m1 && done_with(r, w1->Ok_0.len() as isize as int, w1->Ok_0)
            } else if op == FutexOp::Requeue || op == FutexOp::CmpRequeue {
                if op == FutexOp::CmpRequeue && word != val3 {
                    r == Err::<FutexStep, SysError>(SysError::EAGAIN) && final(fm).queues() == m
                } else if key2 is Err {
                    r == Err::<FutexStep, SysError>(key2->Err_0) && final(fm).queues() == m1
                } else {
                    let (m2, n2) = requeue_spec(m1, k, raw_key(key2->Ok_0), val2 as nat);
                    final(fm).queues() == m2 && (if n2 is Err {
                        einval
                    } else {
                        done_with(r, w1->Ok_0.len() as isize as int, w1->Ok_0)
                    })
                }
            } else if op == FutexOp::WakeOp {
                if !wake_op_test((val3 >> 24u32) & 0xF, old2, val3 & 0xFFF) {
                    final(fm).queues() == m1 && done_with(r, w1->Ok_0.len() as isize as int, w1->Ok_0)
                } else if key2 is Err {
                    r == Err::<FutexStep, SysError>(key2->Err_0) && final(fm).queues() == m1
                } else {
                    let (m2, w2) = wake_spec(m1, k, val2 as u32 as nat);
                    final(fm).queues() == m2 && done_with(
                        r,
                        (w1->Ok_0 + w2->Ok_0).len() as isize as int,
                        w1->Ok_0 + w2->Ok_0,
                    )
                }
            } else if op == FutexOp::WakeBitset {
                if val3 == 0 || !m.dom().contains(k) {
                    einval && final(fm).queues() == m
                } else {
                    let run = bitset_run(m[k], m[k].len() as int, 0, 0, val as int, val3)->Some_0;
                    final(fm).queues() == m.insert(k, run.0) && done_with(r, run.1.len() as isize as int, run.1)
                }
            } else {
                einval && final(fm).queues() == m
            }
        }),
{
    match op {
        FutexOp::Wait | FutexOp::WaitBitset => {
            let mask = if op == FutexOp::WaitBitset {
                if val3 == 0 {
                    return Err(SysError::EINVAL);
                }
                val3
            } else {
                FUTEX_BITSET_MATCH_ANY
            };
            if word != val {
                return Err(SysError::EAGAIN);
            }
            fm.add_waiter(&key, FutexWaiter { tid, mask });
            Ok(FutexStep::Wait)
        },
        FutexOp::Wake => {
            match fm.wake(&key, val) {
                Ok(woken) => Ok(FutexStep::Done { result: woken.len() as isize, woken }),
                Err(e) => Err(e),
            }
        },
        FutexOp::Requeue | FutexOp::CmpRequeue => {
            if op == FutexOp::CmpRequeue && word != val3 {
                return Err(SysError::EAGAIN);
            }
            let woken = match fm.wake(&key, val) {
                Ok(w) => w,
                Err(e) => return Err(e),
            };
            let new_key = match key2 {
                Ok(k) => k,
                Err(e) => return Err(e),
            };
            match fm.requeue_waiters(key, new_key, val2) {
                Ok(_) => Ok(FutexStep::Done { result: woken.len() as isize, woken }),
                Err(e) => Err(e),
            }
        },
        FutexOp::WakeOp => {
            let (_, test_kind, _, testarg) = wake_op_args(val3);
            let mut woken = match fm.wake(&key, val) {
                Ok(w) => w,
                Err(e) => return Err(e),
            };
            if wake_op_check(test_kind, old2, testarg) {
                if let Err(e) = key2 {
                    return Err(e);
                }
                let mut more = match fm.wake(&key, val2 as u32) {
                    Ok(w) => w,
                    Err(e) => return Err(e),
                };
                let ghost w1 = woken@;
                let ghost w2 = more@;
                woken.append(&mut more);
                proof {
                    assert(woken@ =~= w1 + w2);
                    let (m1, r1) = wake_spec(old(fm).queues(), raw_key(key), val as nat);
                    let (m2, r2) = wake_spec(m1, raw_key(key), val2 as u32 as nat);
                    lemma_waiters_of_concat(r1->Ok_0, r2->Ok_0);
                }
                Ok(FutexStep::Done { result: woken.len() as isize, woken })
            } else {
                Ok(FutexStep::Done { result: woken.len() as isize, woken })
            }
        },
        FutexOp::WakeBitset => {
            if val3 == 0 {
                return Err(SysError::EINVAL);
            }
            match fm.wake_bitset(&key, val, val3) {
                Ok(woken) => Ok(FutexStep::Done { result: woken.len() as isize, woken }),
                Err(e) => Err(e),
            }
        },
        _ => Err(SysError::EINVAL),
    }
}

/// How a waiting task with a timeout goes on.
pub enum FutexWaitPlan {
    /// Sleep for at most this long.
    Sleep(Duration),
    /// Return with this result at once.
    Finish(isize),
}

/// The timeout of a futex wait, for task `tid` already queued under `key`
/// at time `now`: an invalid timeout is `EINVAL` (the task stays queued);
/// a wall-clock timeout is a deadline, and one already past takes the task
/// out of the queue (`ETIMEOUT`, or 0 if it had been woken meanwhile);
/// otherwise the task sleeps until the deadline, or for the timeout.
pub fn futex_wait_timeout(
    fm: &mut FutexManager,
    key: &FutexHashKey,
    tid: usize,
    timeout: TimeSpec,
    is_realtime: bool,
    now: Duration,
) -> (r: Result<FutexWaitPlan, SysError>)
    ensures
        ({
            let m = old(fm).queues();
            let k = raw_key(*key);
            let t = timeout.tv_sec * 1_000_000_000 + timeout.tv_nsec;
            let present = m.dom().contains(k) && index_of_tid(m[k], tid, 0) < m[k].len();
            if !(timeout.tv_nsec < 1_000_000_000) {
                r == Err::<FutexWaitPlan, SysError>(SysError::EINVAL) && final(fm).queues() == m
            } else if is_realtime && t <= now@ {
                &&& present ==> r == Err::<FutexWaitPlan, SysError>(SysError::ETIMEOUT)
                    && final(fm).queues() == m.insert(k, m[k].remove(index_of_tid(m[k], tid, 0)))
                &&& !present ==> (r matches Ok(FutexWaitPlan::Finish(v)) && v == 0)
                    && final(fm).queues() == m
            } else {
                &&& final(fm).queues() == m
                &&& r matches Ok(FutexWaitPlan::Sleep(d))
                &&& d@ == (if is_realtime { t - now@ } else { t })
            }
        }),
{
    if !timeout.is_valid() {
        return Err(SysError::EINVAL);
    }
    let deadline = timeout.into_duration();
    if is_realtime {
        if deadline.le(&now) {
            return match fm.remove_waiter(key, tid) {
                None => Ok(FutexWaitPlan::Finish(0)),
                Some(_) => Err(SysError::ETIMEOUT),
            };
        }
        Ok(FutexWaitPlan::Sleep(deadline.sub(&now)))
    } else {
        Ok(FutexWaitPlan::Sleep(deadline))
    }
}

/// The end of a futex wait for task `tid` under `key`: after a timeout,
/// or with a signal pending, the task leaves the queue and the call fails
/// (`ETIMEOUT`, `EINTR`), unless it had already been woken (0); otherwise
/// it was woken (0).
pub fn futex_wait_finish(
    fm: &mut FutexManager,
    key: &FutexHashKey,
    tid: usize,
    timed_out: bool,
    signal_pending: bool,
) -> (r: Result<isize, SysError>)
    ensures
        ({
            let m = old(fm).queues();
            let k = raw_key(*key);
            let present = m.dom().contains(k) && index_of_tid(m[k], tid, 0) < m[k].len();
            let removed = m.insert(k, m[k].remove(index_of_tid(m[k], tid, 0)));
            if timed_out || signal_pending {
                &&& present ==> final(fm).queues() == removed && r == Err::<isize, SysError>(
                    if timed_out {
                        SysError::ETIMEOUT
                    } else {
                        SysError::EINTR
                    },
                )
                &&& !present ==> final(fm).queues() == m && r == Ok::<isize, SysError>(0)
            } else {
                final(fm).queues() == m && r == Ok::<isize, SysError>(0)
            }
        }),
{
    if timed_out {
        return match fm.remove_waiter(key, tid) {
            None => Ok(0),
            Some(_) => Err(SysError::ETIMEOUT),
        };
    }
    if signal_pending {
        return match fm.remove_waiter(key, tid) {
            None => Ok(0),
            Some(_) => Err(SysError::EINTR),
        };
    }
    Ok(0)
}


/// Waking takes waiters from the front in queue order: the waiters woken,
/// followed by those left, are the queue as it was, and as many are woken
/// as asked for or as there are.
pub proof fn lemma_wake_takes_front(m: Map<(usize, usize, usize), Seq<(usize, u32)>>, k: (usize, usize, usize), n: nat)
    requires
        m.dom().contains(k),
    ensures
        ({
            let (m2, w) = wake_spec(m, k, n);
            &&& w is Ok
            &&& w->Ok_0 + m2[k] == m[k]
            &&& w->Ok_0.len() == (if n < m[k].len() { n as int } else { m[k].len() as int })
            &&& forall|j: (usize, usize, usize)| j != k ==> m2.dom().contains(j) == m.dom().contains(j)
                && (m.dom().contains(j) ==> #[trigger] m2[j] == m[j])
        }),
{
    let (m2, w) = wake_spec(m, k, n);
    let q = m[k];
    let c = if n < q.len() { n as int } else { q.len() as int };
    assert(q.subrange(0, c) + q.subrange(c, q.len() as int) =~= q);
}

/// A task that joins an empty queue is the first one a wake-up takes.
pub proof fn lemma_join_then_wake(m: Map<(usize, usize, usize), Seq<(usize, u32)>>, k: (usize, usize, usize), w: (usize, u32), n: nat)
    requires
        !m.dom().contains(k) || m[k].len() == 0,
        n >= 1,
    ensures
        ({
            let (m2, r) = wake_spec(with_waiter(m, k, w), k, n);
            &&& r == Ok::<Seq<(usize, u32)>, SysError>(seq![w])
            &&& m2[k].len() == 0
        }),
{
    let m1 = with_waiter(m, k, w);
    assert(m1[k] =~= seq![w]);
    assert(m1[k].subrange(0, 1) =~= seq![w]);
}

/// Requeueing a futex onto itself loses no waiter: its queue stays as it
/// was, and the result counts the waiters that were to move.
pub proof fn lemma_requeue_onto_itself(m: Map<(usize, usize, usize), Seq<(usize, u32)>>, k: (usize, usize, usize), n: nat)
    requires
        m.dom().contains(k),
    ensures
        requeue_spec(m, k, k, n) == (m, Ok::<isize, SysError>(
            (if n < m[k].len() { n as int } else { m[k].len() as int }) as isize,
        )),
{
}

/// Waking a futex nobody waits on wakes no one and changes nothing.
pub proof fn lemma_wake_without_queue(m: Map<(usize, usize, usize), Seq<(usize, u32)>>, k: (usize, usize, usize), n: nat)
    requires
        !m.dom().contains(k),
    ensures
        wake_spec(m, k, n) == (m, Ok::<Seq<(usize, u32)>, SysError>(Seq::empty())),
{
}

/// Requeueing between two different futexes loses no waiter: the target's
/// queue gains the moved waiters at its back, in order, and the source
/// keeps the rest (or loses its queue when none are left); other queues
/// are untouched.
pub proof fn lemma_requeue_conserves(
    m: Map<(usize, usize, usize), Seq<(usize, u32)>>,
    from: (usize, usize, usize),
    to: (usize, usize, usize),
    n: nat,
)
    requires
        m.dom().contains(from),
        from != to,
    ensures
        ({
            let (m2, r) = requeue_spec(m, from, to, n);
            let q = m[from];
            let c = if n < q.len() { n as int } else { q.len() as int };
            &&& r == Ok::<isize, SysError>(c as isize)
            &&& m2.dom().contains(to)
            &&& m2[to] == (if m.dom().contains(to) { m[to] } else { Seq::empty() }) + q.subrange(0, c)
            &&& (c < q.len() ==> m2.dom().contains(from) && m2[from] == q.subrange(c, q.len() as int))
            &&& (c == q.len() ==> !m2.dom().contains(from))
            &&& forall|j: (usize, usize, usize)| j != from && j != to ==> m2.dom().contains(j) == m.dom().contains(j)
                && (m.dom().contains(j) ==> #[trigger] m2[j] == m[j])
        }),
{
    let q = m[from];
    let c = if n < q.len() { n as int } else { q.len() as int };
    assert(Seq::<(usize, u32)>::empty() + q.subrange(0, c) =~= q.subrange(0, c));
}


/// Per-lock list entry, embedded in user-space locks near the futex word;
/// the kernel only follows the forward link.
#[derive(Clone, Copy, Debug, PartialEq, Eq, Structural)]
pub struct RobustList {
    /// Address of the next entry.
    pub next: usize,
}

/// Head of a thread's robust-futex list.
#[derive(Clone, Copy, Debug, PartialEq, Eq, Structural)]
pub struct RobustListHead {
    /// The head of the list; it points back to itself when empty.
    pub list: RobustList,
    /// Where the futex word lies relative to each entry.
    pub futex_offset: usize,
    /// The entry of a lock being taken or released.
    pub list_op_pending: usize,
}

/// The size of a robust-list head in user memory.
pub const ROBUST_LIST_HEAD_SIZE: usize = 24;

/// syscall set_robust_list: the head to record for the caller; a length
/// other than the head's size is `EINVAL`.
pub fn sys_set_robust_list(head: usize, len: usize) -> (r: Result<usize, SysError>)
    ensures
        len != ROBUST_LIST_HEAD_SIZE ==> r == Err::<usize, SysError>(SysError::EINVAL),
        len == ROBUST_LIST_HEAD_SIZE ==> r == Ok::<usize, SysError>(head),
{
    if len != ROBUST_LIST_HEAD_SIZE {
        return Err(SysError::EINVAL);
    }
    Ok(head)
}

/// syscall get_robust_list: the head recorded for the caller (pid 0) or
/// for task `pid` (`target`, `None` when there is no such task: `ESRCH`),
/// with the head's size.
pub fn sys_get_robust_list(pid: i32, own_head: usize, target: Option<usize>) -> (r: Result<(usize, usize), SysError>)
    ensures
        pid == 0 ==> r == Ok::<(usize, usize), SysError>((own_head, ROBUST_LIST_HEAD_SIZE)),
        pid != 0 && target is None ==> r == Err::<(usize, usize), SysError>(SysError::ESRCH),
        pid != 0 && target is Some ==> r == Ok::<(usize, usize), SysError>((target->Some_0, ROBUST_LIST_HEAD_SIZE)),
{
    if pid != 0 {
        match target {
            Some(h) => Ok((h, ROBUST_LIST_HEAD_SIZE)),
            None => Err(SysError::ESRCH),
        }
    } else {
        Ok((own_head, ROBUST_LIST_HEAD_SIZE))
    }
}


/// A link of a robust list as user memory holds it: the entry's address,
/// and in the lowest bit whether its lock uses priority inheritance.
pub fn robust_entry(uentry: usize) -> (r: (usize, bool))
    ensures
        r.0 == uentry & !1usize,
        r.1 == (uentry & 1 != 0),
{
    (uentry & !1usize, uentry & 1 != 0)
}

/// What happens to the futex word of a lock whose owner died.
#[derive(Clone, Copy, Debug, PartialEq, Eq, Structural)]
pub enum FutexDeath {
    /// Nothing: the dying task does not own the lock.
    Leave,
    /// Wake a waiter: the lock was being taken and has no owner.
    Wake,
    /// Store `new` in place of the word read; `wake` says whether a waiter
    /// is woken then.
    Store { new: u32, wake: bool },
}

/// The step taken on the futex word `old` of a robust lock when task
/// `tid` dies: a pending lock without owner (and without priority
/// inheritance) wakes a waiter; a lock owned by another task is left; a
/// lock owned by `tid` keeps its waiters bit, gains the owner-died bit, and
/// wakes a waiter when it had waiters (without priority inheritance).
pub fn handle_futex_death(old: u32, tid: usize, pi: bool, pending_op: bool) -> (r: FutexDeath)
    ensures
        pending_op && !pi && old & FUTEX_TID_MASK == 0 ==> r == FutexDeath::Wake,
        !(pending_op && !pi && old & FUTEX_TID_MASK == 0) && (old & FUTEX_TID_MASK) as usize != tid
            ==> r == FutexDeath::Leave,
        !(pending_op && !pi && old & FUTEX_TID_MASK == 0) && (old & FUTEX_TID_MASK) as usize == tid
            ==> r == (FutexDeath::Store {
            new: (old & FUTEX_WAITERS) | FUTEX_OWNER_DIED,
            wake: !pi && old & FUTEX_WAITERS != 0,
        }),
{
    let owner = old & FUTEX_TID_MASK;
    if pending_op && !pi && owner == 0 {
        return FutexDeath::Wake;
    }
    if owner as usize != tid {
        return FutexDeath::Leave;
    }
    FutexDeath::Store { new: (old & FUTEX_WAITERS) | FUTEX_OWNER_DIED, wake: !pi && old & FUTEX_WAITERS != 0 }
}


/// The most entries of a robust list walked when a task exits.
pub const ROBUST_LIST_LIMIT: usize = 2048;

/// Where the walk of a dying task's robust list stands.
#[derive(Clone, Copy, Debug, PartialEq, Eq, Structural)]
pub struct RobustWalk {
    /// The address of the list head (the walk ends when it comes back).
    pub head: usize,
    /// The entry to visit next.
    pub entry: usize,
    /// Whether its lock uses priority inheritance.
    pub pi: bool,
    /// The entry of a lock being taken or released (zero: none).
    pub pending: usize,
    /// Whether the pending lock uses priority inheritance.
    pub pending_pi: bool,
    /// Where the futex word lies relative to each entry.
    pub futex_offset: usize,
    /// How many more entries may be visited.
    pub limit: usize,
}

/// The start of the walk (TaskControlBlock::exit_robust_list), from the
/// list head at `head` and the words read from its `next` and pending
/// fields.
pub fn robust_walk_start(head: usize, next_word: usize, futex_offset: usize, pending_word: usize) -> (r: RobustWalk)
    ensures
        r.head == head,
        r.entry == next_word & !1usize,
        r.pi == (next_word & 1 != 0),
        r.pending == pending_word & !1usize,
        r.pending_pi == (pending_word & 1 != 0),
        r.futex_offset == futex_offset,
        r.limit == ROBUST_LIST_LIMIT,
{
    let (entry, pi) = robust_entry(next_word);
    let (pending, pending_pi) = robust_entry(pending_word);
    RobustWalk { head, entry, pi, pending, pending_pi, futex_offset, limit: ROBUST_LIST_LIMIT }
}

/// The walk is over: it came back to the head, or visited as many entries
/// as it may.
pub fn robust_walk_done(w: &RobustWalk) -> (r: bool)
    ensures
        r == (w.entry == w.head || w.limit == 0),
{
    w.entry == w.head || w.limit == 0
}

/// One step of the walk, with the word read from the current entry's
/// `next` field: the futex word to handle as its owner dies (none for the
/// pending entry, which is handled last), and the walk moved to the next
/// entry with one visit fewer left.
pub fn robust_walk_next(w: RobustWalk, next_word: usize) -> (r: (Option<(usize, bool)>, RobustWalk))
    requires
        w.limit > 0,
        w.entry != w.pending ==> w.entry + w.futex_offset <= usize::MAX,
    ensures
        r.0 == (if w.entry != w.pending {
            Some(((w.entry + w.futex_offset) as usize, w.pi))
        } else {
            None
        }),
        r.1 == (RobustWalk {
            entry: next_word & !1usize,
            pi: next_word & 1 != 0,
            limit: (w.limit - 1) as usize,
            ..w
        }),
{
    let (next, next_pi) = robust_entry(next_word);
    let death = if w.entry != w.pending {
        Some((w.entry + w.futex_offset, w.pi))
    } else {
        None
    };
    (death, RobustWalk { entry: next, pi: next_pi, limit: w.limit - 1, ..w })
}

/// The end of the walk: the pending lock's futex word (with its priority
/// inheritance bit) is handled as a pending operation, when there is one.
pub fn robust_walk_pending(w: &RobustWalk) -> (r: Option<(usize, bool)>)
    requires
        w.pending != 0 ==> w.pending + w.futex_offset <= usize::MAX,
    ensures
        r == (if w.pending != 0 {
            Some(((w.pending + w.futex_offset) as usize, w.pending_pi))
        } else {
            None
        }),
{
    if w.pending != 0 {
        Some((w.pending + w.futex_offset, w.pending_pi))
    } else {
        None
    }
}

/// Wake one waiter of the futex word at `addr`, for a task that leaves the
/// word behind when it dies: a shared word is found by the physical address
/// it translates to (`paddr`; nothing is woken when it does not translate),
/// a private one by the address space `mm` and `addr`. Returns the waiters
/// woken (none when the word has no queue).
pub fn futex_wake(fm: &mut FutexManager, addr: usize, shared: bool, mm: usize, paddr: Option<usize>) -> (r:
    Vec<FutexWaiter>)
    ensures
        shared && paddr is None ==> r@.len() == 0 && final(fm).queues() == old(fm).queues(),
        !(shared && paddr is None) ==> ({
            let key = if shared {
                FutexHashKey::Shared { paddr: paddr->Some_0 }
            } else {
                FutexHashKey::Private { mm, vaddr: addr }
            };
            let (m, res) = wake_spec(old(fm).queues(), raw_key(key), 1);
            &&& final(fm).queues() == m
            &&& r@ == (match res {
                Ok(q) => waiters_of(q),
                Err(_) => Seq::<FutexWaiter>::empty(),
            })
        }),
{
    let key = if shared {
        match paddr {
            Some(p) => FutexHashKey::Shared { paddr: p },
            None => {
                return Vec::new();
            },
        }
    } else {
        FutexHashKey::Private { mm, vaddr: addr }
    };
    match fm.wake(&key, 1) {
        Ok(woken) => woken,
        Err(_) => Vec::new(),
    }
}

/// Put task `tid` to sleep on the futex of `key` with `mask`: it is queued
/// at the back of the futex's queue, and any signal it does not block
/// (`blocked`) is to wake it; that set of signals is returned.
pub fn add_awaiter(fm: &mut FutexManager, key: &FutexHashKey, tid: usize, mask: u32, blocked: u64) -> (r: u64)
    ensures
        r == !blocked,
        final(fm).queues() == old(fm).queues().insert(
            raw_key(*key),
            (if old(fm).queues().dom().contains(raw_key(*key)) {
                old(fm).queues()[raw_key(*key)]
            } else {
                Seq::empty()
            }).push((tid, mask)),
        ),
{
    fm.add_waiter(key, FutexWaiter { tid, mask });
    !blocked
}

/// The comparisons of `FUTEX_WAKE_OP` are the strict and non-strict orders
/// and equality they name: greater-than and less-than are strict (false on
/// equal values), greater-or-equal and less-or-equal hold on equal values,
/// and each of the six holds exactly when its relation between the old
/// value and the argument does.
pub proof fn lemma_wake_op_comparisons(old: u32, arg: u32)
    ensures
        wake_op_test(FUTEX_OP_CMP_GT, old, arg) <==> old > arg,
        wake_op_test(FUTEX_OP_CMP_LT, old, arg) <==> old < arg,
        wake_op_test(FUTEX_OP_CMP_GE, old, arg) <==> old >= arg,
        wake_op_test(FUTEX_OP_CMP_LE, old, arg) <==> old <= arg,
        wake_op_test(FUTEX_OP_CMP_EQ, old, arg) <==> old == arg,
        wake_op_test(FUTEX_OP_CMP_NE, old, arg) <==> old != arg,
        !wake_op_test(FUTEX_OP_CMP_GT, old, old) && !wake_op_test(FUTEX_OP_CMP_LT, old, old),
        wake_op_test(FUTEX_OP_CMP_GT, old, arg) == !wake_op_test(FUTEX_OP_CMP_LE, old, arg),
        wake_op_test(FUTEX_OP_CMP_LT, old, arg) == !wake_op_test(FUTEX_OP_CMP_GE, old, arg),
{
}

} // verus!
