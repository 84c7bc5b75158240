//! The registries of tasks by thread id and of process groups by group id.
//! Tasks are held by the handle under which the caller keeps them.

use vstd::prelude::*;
use std::collections::BTreeMap;
use vstd::std_specs::iter::IteratorSpec;
use vstd::std_specs::btree::increasing_seq;

verus! {

broadcast use {vstd::std_specs::btree::group_btree_axioms, vstd::laws_cmp::group_laws_cmp};

/// The tasks of the system, by thread id.
pub struct TaskManager {
    tasks: BTreeMap<usize, usize>,
}

impl TaskManager {
    /// The task handles by thread id.
    pub closed spec fn tasks(&self) -> Map<usize, usize> {
        self.tasks@
    }

    /// No task.
    pub fn new() -> (r: Self)
        ensures
            r.tasks() == Map::<usize, usize>::empty(),
    {
        TaskManager { tasks: BTreeMap::new() }
    }

    /// Register task `task` under thread id `tid` (replacing any other).
    pub fn add_task(&mut self, tid: usize, task: usize)
        ensures
            final(self).tasks() == old(self).tasks().insert(tid, task),
    {
        self.tasks.insert(tid, task);
    }

    /// Forget the task with thread id `tid`.
    pub fn remove_task(&mut self, tid: usize)
        ensures
            final(self).tasks() == old(self).tasks().remove(tid),
    {
        self.tasks.remove(&tid);
    }

    /// The task with thread id `tid`.
    pub fn get_task(&self, tid: usize) -> (r: Option<usize>)
        ensures
            r == (if self.tasks().contains_key(tid) {
                Some(self.tasks()[tid])
            } else {
                None::<usize>
            }),
    {
        match self.tasks.get(&tid) {
            Some(t) => Some(*t),
            None => None,
        }
    }

    /// Every task, in increasing order of thread id.
    pub fn tasks_group(&self) -> (r: Vec<usize>)
        ensures
            in_tid_order(self.tasks(), r@),
    {
        let mut out: Vec<usize> = Vec::new();
        let values = self.tasks.values();
        let ghost key_seq: Seq<usize> = choose|key_seq: Seq<usize>|
            {
                &&& increasing_seq(key_seq)
                &&& key_seq.to_set() == self.tasks@.dom()
                &&& key_seq.no_duplicates()
                &&& IteratorSpec::remaining(&values) == key_seq.map(|i: int, k: usize| &self.tasks@[k])
            };
        for t in it: values
            invariant
                IteratorSpec::remaining(&values) == key_seq.map(|i: int, k: usize| &self.tasks@[k]),
                it.seq() == IteratorSpec::remaining(&values),
                out@.len() == it.index(),
                forall|j: int| 0 <= j < it.index() ==> out@[j] == *it.seq()[j],
        {
            out.push(*t);
        }
        proof {
            assert(out@ =~= key_seq.map_values(|k: usize| self.tasks@[k]));
            assert(vstd::laws_cmp::obeys_cmp::<usize>());
            assert(increasing_seq(key_seq));
            assert forall|i: int, j: int| 0 <= i < j < key_seq.len() implies key_seq[i] < key_seq[j] by {
                assert(vstd::std_specs::cmp::OrdSpec::cmp_spec(&key_seq[i], &key_seq[j]) is Less);
            }
        }
        out
    }
}

/// `r` holds the tasks of `m`, each once, in increasing order of thread id.
pub open spec fn in_tid_order(m: Map<usize, usize>, r: Seq<usize>) -> bool {
    exists|keys: Seq<usize>|
        {
            &&& forall|i: int, j: int| 0 <= i < j < keys.len() ==> keys[i] < keys[j]
            &&& keys.to_set() == m.dom()
            &&& r == keys.map_values(|k: usize| m[k])
        }
}

/// The process groups, by group id: the thread ids of their members.
pub struct ProcessGroupManager {
    groups: BTreeMap<usize, Vec<usize>>,
}

impl ProcessGroupManager {
    /// The members of each group, by group id.
    pub closed spec fn groups(&self) -> Map<usize, Seq<usize>> {
        self.groups@.map_values(|v: Vec<usize>| v@)
    }

    /// No group.
    pub fn new() -> (r: Self)
        ensures
            r.groups() == Map::<usize, Seq<usize>>::empty(),
    {
        let r = ProcessGroupManager { groups: BTreeMap::new() };
        assert(r.groups() =~= Map::<usize, Seq<usize>>::empty());
        r
    }

    /// Make a group led by task `leader`: its id is the leader's thread id
    /// (which becomes the leader's group id) and the leader its only
    /// member. Returns the group id.
    pub fn add_group(&mut self, leader: usize) -> (pgid: usize)
        ensures
            pgid == leader,
            final(self).groups() == old(self).groups().insert(leader, seq![leader]),
    {
        let mut group: Vec<usize> = Vec::new();
        group.push(leader);
        self.groups.insert(leader, group);
        assert(self.groups() =~= old(self).groups().insert(leader, seq![leader]));
        leader
    }

    /// Add task `tid` to group `pgid`, which must exist.
    pub fn add_task_to_group(&mut self, pgid: usize, tid: usize)
        requires
            old(self).groups().contains_key(pgid),
        ensures
            final(self).groups() == old(self).groups().insert(pgid, old(self).groups()[pgid].push(tid)),
    {
        let mut members = match self.groups.remove(&pgid) {
            Some(v) => v,
            None => Vec::new(),
        };
        members.push(tid);
        self.groups.insert(pgid, members);
        assert(self.groups() =~= old(self).groups().insert(pgid, old(self).groups()[pgid].push(tid)));
    }

    /// The members of group `pgid`.
    pub fn get_group(&self, pgid: usize) -> (r: Option<Vec<usize>>)
        ensures
            self.groups().contains_key(pgid) ==> (r matches Some(v) && v@ == self.groups()[pgid]),
            !self.groups().contains_key(pgid) ==> r is None,
    {
        match self.groups.get(&pgid) {
            Some(v) => Some(v.clone()),
            None => None,
        }
    }

    /// Take task `tid` out of its group `pgid`, which must exist: the
    /// group keeps only the members that are that task.
    pub fn remove(&mut self, pgid: usize, tid: usize)
        requires
            old(self).groups().contains_key(pgid),
        ensures
            final(self).groups() == old(self).groups().insert(pgid, old(self).groups()[pgid].filter(|t: usize| t == tid)),
    {
        let members = match self.groups.remove(&pgid) {
            Some(v) => v,
            None => Vec::new(),
        };
        let ghost before = members@;
        let mut kept: Vec<usize> = Vec::new();
        let mut i: usize = 0;
        while i < members.len()
            invariant
                i <= members@.len(),
                members@ == before,
                kept@ == before.subrange(0, i as int).filter(|t: usize| t == tid),
            decreases members@.len() - i,
        {
            proof {
                reveal(Seq::filter);
                assert(before.subrange(0, i as int + 1).drop_last() == before.subrange(0, i as int));
            }
            if members[i] == tid {
                kept.push(members[i]);
            }
            i = i + 1;
        }
        assert(before.subrange(0, before.len() as int) == before);
        self.groups.insert(pgid, kept);
        assert(self.groups() =~= old(self).groups().insert(pgid, old(self).groups()[pgid].filter(|t: usize| t == tid)));
    }
}

} // verus!
