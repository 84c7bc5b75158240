//! Thread groups and the decisions of a thread's exit: who is counted as
//! alive, which exit code the process leaves with, and what the exit
//! releases.

use vstd::prelude::*;
use std::collections::BTreeMap;

verus! {

broadcast use vstd::seq_lib::group_seq_properties;

/// Strictly increasing.
pub open spec fn increasing(s: Seq<usize>) -> bool {
    forall|i: int, j: int| 0 <= i < j < s.len() ==> s[i] < s[j]
}

/// The threads of a process, by thread id, with the number still alive
/// and the group's exit state.
pub struct ThreadGroup {
    members: Vec<usize>,
    alive: usize,
    group_exiting: bool,
    group_exit_code: usize,
}

impl ThreadGroup {
    /// The thread ids of the members, in increasing order.
    pub closed spec fn tids(&self) -> Seq<usize> {
        self.members@
    }

    /// How many members are alive.
    pub closed spec fn alive_count(&self) -> nat {
        self.alive as nat
    }

    /// The whole group is exiting.
    pub closed spec fn exiting(&self) -> bool {
        self.group_exiting
    }

    /// The exit code of the group once it exits.
    pub closed spec fn exit_code(&self) -> usize {
        self.group_exit_code
    }

    /// The members are kept in increasing order of id.
    #[verifier::type_invariant]
    spec fn inv(&self) -> bool {
        increasing(self.members@)
    }

    /// Create a new thread group.
    pub fn new() -> (r: Self)
        ensures
            r.tids() == Seq::<usize>::empty(),
            r.alive_count() == 0,
            !r.exiting(),
            r.exit_code() == 0,
    {
        ThreadGroup { members: Vec::new(), alive: 0, group_exiting: false, group_exit_code: 0 }
    }

    /// The number of members.
    pub fn len(&self) -> (r: usize)
        ensures
            r == self.tids().len(),
    {
        self.members.len()
    }

    /// Where `tid` is or would go among the members: the number of members
    /// below it.
    fn position(&self, tid: usize) -> (r: usize)
        ensures
            r <= self.members@.len(),
            forall|i: int| 0 <= i < r ==> self.members@[i] < tid,
            forall|i: int| r <= i < self.members@.len() ==> self.members@[i] >= tid,
    {
        proof {
            use_type_invariant(self);
        }
        let mut i: usize = 0;
        while i < self.members.len()
            invariant
                i <= self.members@.len(),
                increasing(self.members@),
                forall|j: int| 0 <= j < i ==> self.members@[j] < tid,
            decreases self.members@.len() - i,
        {
            if self.members[i] >= tid {
                return i;
            }
            i = i + 1;
        }
        i
    }

    /// Add thread `tid`; it counts as alive unless it is a zombie.
    pub fn push(&mut self, tid: usize, zombie: bool)
        requires
            !zombie ==> old(self).alive_count() < usize::MAX,
        ensures
            final(self).tids().to_set() == old(self).tids().to_set().insert(tid),
            final(self).alive_count() == old(self).alive_count() + if zombie {
                0int
            } else {
                1int
            },
            final(self).exiting() == old(self).exiting(),
            final(self).exit_code() == old(self).exit_code(),
    {
        proof {
            use_type_invariant(&*self);
        }
        if !zombie {
            self.alive = self.alive + 1;
        }
        let p = self.position(tid);
        let ghost before = self.members@;
        if p < self.members.len() && self.members[p] == tid {
            return;
        }
        let mut m: Vec<usize> = Vec::new();
        std::mem::swap(&mut m, &mut self.members);
        m.insert(p, tid);
        proof {
            assert(m@ == before.insert(p as int, tid));
            assert forall|i: int, j: int| 0 <= i < j < m@.len() implies m@[i] < m@[j] by {
                if j < p {
                } else if i < p && j == p {
                } else if i < p {
                    assert(m@[j] == before[j - 1]);
                } else if i == p {
                    assert(m@[j] == before[j - 1]);
                    assert(before[p as int] >= tid);
                    assert(before[p as int] != tid);
                    if j - 1 > p {
                        assert(before[p as int] < before[j - 1]);
                    }
                } else {
                    assert(m@[i] == before[i - 1] && m@[j] == before[j - 1]);
                }
            }
            assert(m@.to_set() =~= before.to_set().insert(tid)) by {
                assert forall|x: usize| m@.contains(x) <==> before.contains(x) || x == tid by {
                    if m@.contains(x) {
                        let k = choose|k: int| 0 <= k < m@.len() && m@[k] == x;
                        if k < p {
                            assert(before[k] == x);
                        } else if k > p {
                            assert(before[k - 1] == x);
                        }
                    }
                    if before.contains(x) {
                        let k = choose|k: int| 0 <= k < before.len() && before[k] == x;
                        if k < p {
                            assert(m@[k] == x);
                        } else {
                            assert(m@[k + 1] == x);
                        }
                    }
                    if x == tid {
                        assert(m@[p as int] == tid);
                    }
                }
            }
        }
        self.members = m;
    }

    /// Remove thread `tid`; it stops counting as alive unless it is a zombie.
    pub fn remove(&mut self, tid: usize, zombie: bool)
        requires
            !zombie ==> old(self).alive_count() >= 1,
        ensures
            final(self).tids().to_set() == old(self).tids().to_set().remove(tid),
            final(self).alive_count() == old(self).alive_count() - if zombie {
                0int
            } else {
                1int
            },
            final(self).exiting() == old(self).exiting(),
            final(self).exit_code() == old(self).exit_code(),
    {
        proof {
            use_type_invariant(&*self);
        }
        if !zombie {
            self.alive = self.alive - 1;
        }
        let p = self.position(tid);
        let ghost before = self.members@;
        if p < self.members.len() && self.members[p] == tid {
            let mut m: Vec<usize> = Vec::new();
            std::mem::swap(&mut m, &mut self.members);
            m.remove(p);
            proof {
                assert(m@ == before.remove(p as int));
                assert forall|i: int, j: int| 0 <= i < j < m@.len() implies m@[i] < m@[j] by {
                    let i0 = if i < p { i } else { i + 1 };
                    let j0 = if j < p { j } else { j + 1 };
                    assert(m@[i] == before[i0] && m@[j] == before[j0]);
                }
                assert(m@.to_set() =~= before.to_set().remove(tid)) by {
                    assert forall|x: usize| m@.contains(x) <==> before.contains(x) && x != tid by {
                        if m@.contains(x) {
                            let k = choose|k: int| 0 <= k < m@.len() && m@[k] == x;
                            let k0 = if k < p { k } else { k + 1 };
                            assert(before[k0] == x);
                            assert(k0 != p);
                            if k0 < p {
                                assert(before[k0] < before[p as int]);
                            } else {
                                assert(before[p as int] < before[k0]);
                            }
                        }
                        if before.contains(x) && x != tid {
                            let k = choose|k: int| 0 <= k < before.len() && before[k] == x;
                            if k < p {
                                assert(m@[k] == x);
                            } else {
                                assert(k != p);
                                assert(m@[k - 1] == x);
                            }
                        }
                    }
                }
            }
            self.members = m;
        } else {
            proof {
                assert(before.to_set() =~= before.to_set().remove(tid)) by {
                    if before.contains(tid) {
                        let k = choose|k: int| 0 <= k < before.len() && before[k] == tid;
                        if k < p {
                        } else {
                            if p < before.len() {
                                assert(before[p as int] != tid);
                                assert(before[p as int] < before[k] || k == p);
                            }
                        }
                    }
                }
            }
        }
    }

    /// Count `val` more threads as alive; there cannot be more alive than
    /// members.
    pub fn add_alive(&mut self, val: usize)
        requires
            old(self).alive_count() + val <= old(self).tids().len(),
        ensures
            final(self).alive_count() == old(self).alive_count() + val,
            final(self).tids() == old(self).tids(),
            final(self).exiting() == old(self).exiting(),
            final(self).exit_code() == old(self).exit_code(),
    {
        proof {
            use_type_invariant(&*self);
        }
        let n = self.members.len();
        assert(self.alive + val <= n);
        self.alive = self.alive + val;
    }

    /// Count `val` fewer threads as alive.
    pub fn sub_alive(&mut self, val: usize)
        requires
            old(self).alive_count() >= val,
        ensures
            final(self).alive_count() == old(self).alive_count() - val,
            final(self).tids() == old(self).tids(),
            final(self).exiting() == old(self).exiting(),
            final(self).exit_code() == old(self).exit_code(),
    {
        proof {
            use_type_invariant(&*self);
        }
        self.alive = self.alive - val;
    }

    /// How many members are alive.
    pub fn get_alive(&self) -> (r: usize)
        ensures
            r == self.alive_count(),
    {
        self.alive
    }

    /// The member ids, in increasing order.
    pub fn iter_tid(&self) -> (r: Vec<usize>)
        ensures
            r@ == self.tids(),
            increasing(r@),
    {
        proof {
            use_type_invariant(self);
        }
        self.members.clone()
    }
    /// Whether the group is exiting, and its exit code.
    pub fn exit_state(&self) -> (r: (bool, usize))
        ensures
            r == (self.exiting(), self.exit_code()),
    {
        (self.group_exiting, self.group_exit_code)
    }

    /// A living thread exits with `code` (TaskControlBlock::do_exit): it
    /// stops counting as alive; when it was the last one, the group exits
    /// with `code` unless it was exiting already. Returns whether it was the
    /// last, which then hands its children to init, clears the descriptor
    /// table and tells the parent.
    pub fn do_exit(&mut self, code: usize) -> (last: bool)
        requires
            old(self).alive_count() >= 1,
        ensures
            final(self).alive_count() == old(self).alive_count() - 1,
            last == (final(self).alive_count() == 0),
            final(self).tids() == old(self).tids(),
            (last && !old(self).exiting()) ==> final(self).exiting() && final(self).exit_code() == code,
            !(last && !old(self).exiting()) ==> final(self).exiting() == old(self).exiting()
                && final(self).exit_code() == old(self).exit_code(),
    {
        proof {
            use_type_invariant(&*self);
        }
        self.sub_alive(1);
        let last = self.alive == 0;
        if last && !self.group_exiting {
            self.group_exiting = true;
            self.group_exit_code = code;
        }
        last
    }

    /// Thread `me` makes the whole group exit with `code`
    /// (TaskControlBlock::do_group_exit): when the group is exiting
    /// already, its code stands and nobody else is signalled; otherwise the
    /// group exits with `code` and the other members (the living ones among
    /// them) get `SIGKILL`. Returns the code `me` exits with and the
    /// members to signal.
    pub fn do_group_exit(&mut self, code: usize, me: usize) -> (r: (usize, Vec<usize>))
        ensures
            final(self).tids() == old(self).tids(),
            final(self).alive_count() == old(self).alive_count(),
            final(self).exiting(),
            old(self).exiting() ==> r.0 == old(self).exit_code() && r.1@.len() == 0
                && final(self).exit_code() == old(self).exit_code(),
            !old(self).exiting() ==> r.0 == code && final(self).exit_code() == code
                && r.1@ == old(self).tids().filter(|t: usize| t != me),
    {
        proof {
            use_type_invariant(&*self);
        }
        if self.group_exiting {
            return (self.group_exit_code, Vec::new());
        }
        self.group_exiting = true;
        self.group_exit_code = code;
        let mut out: Vec<usize> = Vec::new();
        let mut i: usize = 0;
        while i < self.members.len()
            invariant
                i <= self.members@.len(),
                out@ == self.members@.subrange(0, i as int).filter(|t: usize| t != me),
            decreases self.members@.len() - i,
        {
            proof {
                reveal(Seq::filter);
                assert(self.members@.subrange(0, i as int + 1).drop_last() == self.members@.subrange(0, i as int));
            }
            if self.members[i] != me {
                out.push(self.members[i]);
            }
            i = i + 1;
        }
        assert(self.members@.subrange(0, self.members@.len() as int) == self.members@);
        (code, out)
    }

}

/// Removing a thread that was just pushed gives back the group as it was:
/// the same members and the same number alive (for a thread not already a
/// member, pushed and removed with the same zombie state).
pub proof fn lemma_push_then_remove(before: ThreadGroup, mid: ThreadGroup, after: ThreadGroup, tid: usize, zombie: bool)
    requires
        !before.tids().to_set().contains(tid),
        mid.tids().to_set() == before.tids().to_set().insert(tid),
        mid.alive_count() == before.alive_count() + if zombie {
            0int
        } else {
            1int
        },
        after.tids().to_set() == mid.tids().to_set().remove(tid),
        after.alive_count() == mid.alive_count() - if zombie {
            0int
        } else {
            1int
        },
    ensures
        after.tids().to_set() == before.tids().to_set(),
        after.alive_count() == before.alive_count(),
{
    assert(before.tids().to_set().insert(tid).remove(tid) =~= before.tids().to_set());
}

/// The word cleared (and woken on) when a task releases its memory
/// (TaskControlBlock::mm_release): its clear-child-tid address, when it is
/// set, non-zero and aligned to four bytes.
pub fn mm_release(clear_child_tid: Option<usize>) -> (r: Option<usize>)
    ensures
        r == (match clear_child_tid {
            Some(a) => if a != 0 && a & 3 == 0 {
                Some(a)
            } else {
                None::<usize>
            },
            None => None::<usize>,
        }),
{
    match clear_child_tid {
        Some(a) => {
            if a != 0 && a & 3 == 0 {
                Some(a)
            } else {
                None
            }
        },
        None => None,
    }
}

/// How a zombie task finishes (TaskControlBlock::handle_zombie).
#[derive(Clone, Copy, Debug, PartialEq, Eq, Structural)]
pub enum ZombieStage {
    /// Others of the process remain: a thread leaves its group, a leader
    /// blocks every signal.
    Linger,
    /// No other thread of the process remains: the children are handed
    /// to the first process, the descriptor table is emptied, the leader
    /// turns zombie and the parent is notified.
    Last,
}

/// The stage of a zombie task, by whether its leader is a zombie, whether
/// it leads the process, and how many threads its group holds.
pub fn handle_zombie(leader_zombie: bool, is_leader: bool, group_len: usize) -> (r: ZombieStage)
    requires
        leader_zombie && is_leader && group_len <= 1 ==> group_len == 1,
        leader_zombie && !is_leader && group_len <= 2 ==> group_len == 2,
    ensures
        r == (if !leader_zombie || (is_leader && group_len > 1) || (!is_leader && group_len > 2) {
            ZombieStage::Linger
        } else {
            ZombieStage::Last
        }),
{
    if !leader_zombie || (is_leader && group_len > 1) || (!is_leader && group_len > 2) {
        ZombieStage::Linger
    } else {
        ZombieStage::Last
    }
}

} // verus!
