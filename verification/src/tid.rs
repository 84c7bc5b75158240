//! Thread ids: handed out in increasing order, and reused, last freed
//! first, once freed.

use vstd::prelude::*;

verus! {

/// A thread id owned by a task.
#[derive(Clone, Copy, Debug, PartialEq, Eq, Structural)]
pub struct TidHandle(pub usize);

/// Hands out thread ids.
pub struct TidAllocator {
    current: usize,
    recycled: Vec<usize>,
}

impl TidAllocator {
    /// Ids below this have been handed out at some time.
    pub closed spec fn next(&self) -> nat {
        self.current as nat
    }

    /// The freed ids, the last freed last.
    pub closed spec fn free_list(&self) -> Seq<usize> {
        self.recycled@
    }

    /// Id `id` is in use: handed out and not freed since.
    pub open spec fn in_use(&self, id: usize) -> bool {
        id < self.next() && !self.free_list().contains(id)
    }

    /// Every freed id was handed out, and none is freed twice.
    #[verifier::type_invariant]
    spec fn inv(&self) -> bool {
        &&& forall|i: int| 0 <= i < self.recycled@.len() ==> #[trigger] self.recycled@[i] < self.current
        &&& forall|i: int, j: int| 0 <= i < j < self.recycled@.len() ==> #[trigger] self.recycled@[i]
            != #[trigger] self.recycled@[j]
    }

    /// Create an empty `TidAllocator`
    pub fn new() -> (r: Self)
        ensures
            r.next() == 0,
            r.free_list() == Seq::<usize>::empty(),
    {
        TidAllocator { current: 0, recycled: Vec::new() }
    }

    /// Allocate a tid: the last one freed, else the next new one.
    pub fn alloc_tid(&mut self) -> (r: TidHandle)
        requires
            old(self).free_list().len() == 0 ==> old(self).next() < usize::MAX,
        ensures
            !old(self).in_use(r.0),
            final(self).in_use(r.0),
            forall|id: usize| id != r.0 ==> (#[trigger] final(self).in_use(id) == old(self).in_use(id)),
            old(self).free_list().len() > 0 ==> r.0 == old(self).free_list().last() && final(self).free_list() == old(self).free_list().drop_last() && final(self).next() == old(self).next(),
            old(self).free_list().len() == 0 ==> r.0 == old(self).next() && final(self).next()
                == old(self).next() + 1 && final(self).free_list() == old(self).free_list(),
    {
        proof {
            use_type_invariant(&*self);
        }
        let ghost before = self.recycled@;
        let mut recycled: Vec<usize> = Vec::new();
        std::mem::swap(&mut recycled, &mut self.recycled);
        match recycled.pop() {
            Some(tid) => {
                proof {
                    assert(recycled@ == before.drop_last());
                    assert(before.contains(tid));
                    assert(!recycled@.contains(tid)) by {
                        if recycled@.contains(tid) {
                            let i = choose|i: int| 0 <= i < recycled@.len() && recycled@[i] == tid;
                            assert(before[i] == before[before.len() - 1]);
                        }
                    }
                    assert forall|id: usize| id != tid implies (before.contains(id) == recycled@.contains(
                        id,
                    )) by {
                        if before.contains(id) {
                            let i = choose|i: int| 0 <= i < before.len() && before[i] == id;
                            assert(recycled@[i] == id);
                        }
                    }
                }
                self.recycled = recycled;
                TidHandle(tid)
            },
            None => {
                self.recycled = recycled;
                let tid = self.current;
                self.current = self.current + 1;
                TidHandle(tid)
            },
        }
    }

    /// Recycle a tid: it must be in use.
    pub fn dealloc(&mut self, pid: usize)
        requires
            old(self).in_use(pid),
        ensures
            !final(self).in_use(pid),
            forall|id: usize| id != pid ==> (#[trigger] final(self).in_use(id) == old(self).in_use(id)),
            final(self).free_list() == old(self).free_list().push(pid),
            final(self).next() == old(self).next(),
    {
        proof {
            use_type_invariant(&*self);
        }
        let ghost before = self.recycled@;
        let mut recycled: Vec<usize> = Vec::new();
        std::mem::swap(&mut recycled, &mut self.recycled);
        recycled.push(pid);
        proof {
            assert(recycled@ == before.push(pid));
            assert(recycled@[before.len() as int] == pid);
            assert forall|id: usize| id != pid implies (before.contains(id) == recycled@.contains(id)) by {
                if recycled@.contains(id) {
                    let i = choose|i: int| 0 <= i < recycled@.len() && recycled@[i] == id;
                    assert(i < before.len());
                    assert(before[i] == id);
                }
                if before.contains(id) {
                    let i = choose|i: int| 0 <= i < before.len() && before[i] == id;
                    assert(recycled@[i] == id);
                }
            }
        }
        self.recycled = recycled;
    }
}


/// The id freed last is the next one handed out: after `dealloc(pid)` the
/// free list ends with `pid`, which `alloc_tid` takes.
pub proof fn lemma_dealloc_then_alloc(before: TidAllocator, after: TidAllocator, pid: usize)
    requires
        after.free_list() == before.free_list().push(pid),
    ensures
        after.free_list().len() > 0,
        after.free_list().last() == pid,
        after.free_list().drop_last() == before.free_list(),
{
    assert(after.free_list().drop_last() =~= before.free_list());
}

} // verus!
