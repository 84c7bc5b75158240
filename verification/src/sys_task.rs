//! Process and scheduling system calls, as far as they are decided by the
//! calling task's identifiers and the arguments; the task records and
//! managers that hold those identifiers are the caller's.

use vstd::prelude::*;
use crate::errno::{SysError, SysResult};

verus! {

/// Identifiers of the calling task.
#[derive(Clone, Copy, Debug, PartialEq, Eq, Structural)]
pub struct TaskIds {
    /// Process id (thread-group leader's id).
    pub pid: usize,
    /// Thread id.
    pub tid: usize,
    /// Process-group id.
    pub pgid: usize,
    /// Parent's process id, if the parent is alive.
    pub ppid: Option<usize>,
}

/// syscall getpid.
pub fn sys_getpid(task: &TaskIds) -> (r: SysResult)
    ensures
        r == Ok::<isize, SysError>(task.pid as isize),
{
    Ok(task.pid as isize)
}

/// syscall gettid.
pub fn sys_gettid(task: &TaskIds) -> (r: SysResult)
    ensures
        r == Ok::<isize, SysError>(task.tid as isize),
{
    Ok(task.tid as isize)
}

/// syscall getppid: the parent's pid, or the init process's when the parent is gone.
pub fn sys_getppid(task: &TaskIds, init_pid: usize) -> (r: SysResult)
    ensures
        task.ppid matches Some(p) ==> r == Ok::<isize, SysError>(p as isize),
        task.ppid is None ==> r == Ok::<isize, SysError>(init_pid as isize),
{
    match task.ppid {
        Some(p) => Ok(p as isize),
        None => Ok(init_pid as isize),
    }
}

/// syscall getpgid: the caller's group for `pid` 0, else the group of the
/// task `pid` (`target_pgid`, `None` when there is no such task: `ESRCH`).
pub fn sys_getpgid(task: &TaskIds, pid: usize, target_pgid: Option<usize>) -> (r: SysResult)
    ensures
        pid == 0 ==> r == Ok::<isize, SysError>(task.pgid as isize),
        pid != 0 ==> (target_pgid matches Some(g) ==> r == Ok::<isize, SysError>(g as isize)),
        pid != 0 && target_pgid is None ==> r == Err::<isize, SysError>(SysError::ESRCH),
{
    if pid == 0 {
        Ok(task.pgid as isize)
    } else {
        match target_pgid {
            Some(g) => Ok(g as isize),
            None => Err(SysError::ESRCH),
        }
    }
}

/// What `setpgid` does with the task.
#[derive(Clone, Copy, Debug, PartialEq, Eq, Structural)]
pub enum PgidAction {
    /// Make the task the leader of a new group.
    NewGroup,
    /// Add the task to the existing group.
    JoinGroup(usize),
}

/// syscall setpgid: group 0, or a group that does not exist, makes a new
/// group led by the task; an existing group is joined.
pub fn sys_setpgid(pgid: usize, group_exists: bool) -> (r: PgidAction)
    ensures
        pgid == 0 || !group_exists ==> r == PgidAction::NewGroup,
        pgid != 0 && group_exists ==> r == PgidAction::JoinGroup(pgid),
{
    if pgid == 0 {
        PgidAction::NewGroup
    } else if group_exists {
        PgidAction::JoinGroup(pgid)
    } else {
        PgidAction::NewGroup
    }
}

/// syscall setsid: returns the caller's pid.
pub fn sys_setsid(task: &TaskIds) -> (r: SysResult)
    ensures
        r == Ok::<isize, SysError>(task.pid as isize),
{
    Ok(task.pid as isize)
}

/// syscall getuid: every task runs as user 0.
pub fn sys_getuid() -> (r: SysResult)
    ensures
        r == Ok::<isize, SysError>(0),
{
    Ok(0)
}

/// syscall geteuid: every task runs as user 0.
pub fn sys_geteuid() -> (r: SysResult)
    ensures
        r == Ok::<isize, SysError>(0),
{
    Ok(0)
}

/// syscall getegid: every task runs in group 0.
pub fn sys_getegid() -> (r: SysResult)
    ensures
        r == Ok::<isize, SysError>(0),
{
    Ok(0)
}

/// syscall set_tid_address: the address to record as the clear-child-tid
/// address, and the result, the caller's tid.
pub fn sys_set_tid_address(task: &TaskIds, tid_ptr: usize) -> (r: (Option<usize>, SysResult))
    ensures
        r == (Some(tid_ptr), Ok::<isize, SysError>(task.tid as isize)),
{
    (Some(tid_ptr), Ok(task.tid as isize))
}

/// The wait status of a task that exited with `exit_code`.
pub fn wait_status(exit_code: i32) -> (r: i32)
    ensures
        r == ((exit_code & 0xff) << 8u32),
{
    (exit_code & 0xff) << 8u32
}

/// syscall exit_group: the exit code recorded for the group.
pub fn sys_exit_group(exit_code: i32) -> (r: i32)
    ensures
        r == ((exit_code & 0xff) << 8u32),
{
    wait_status(exit_code)
}

/// What `waitpid` knows of one child.
#[derive(Clone, Copy, Debug, PartialEq, Eq, Structural)]
pub struct ChildInfo {
    /// The child's pid.
    pub pid: usize,
    /// The child's process group.
    pub pgid: usize,
    /// The child has exited.
    pub zombie: bool,
    /// Threads in the child's thread group.
    pub threads: usize,
}

/// The child can be reaped: it has exited and its group has one thread.
pub open spec fn reapable(c: ChildInfo) -> bool {
    c.zombie && c.threads == 1
}

/// The child is one `waitpid` waits for: any child for -1; the child with
/// that pid for a positive pid; a child of the caller's process group
/// (`own_pgid`) for 0; a child of group `-pid` for a pid below -1.
pub open spec fn wait_matches(c: ChildInfo, pid: isize, own_pgid: usize) -> bool {
    if pid == -1 {
        true
    } else if pid > 0 {
        c.pid == pid
    } else if pid == 0 {
        c.pgid == own_pgid
    } else {
        c.pgid == -pid
    }
}

/// The index of the first child from `from` on that `waitpid` waits for
/// and may reap.
pub open spec fn first_reapable(children: Seq<ChildInfo>, pid: isize, own_pgid: usize, from: int) -> Option<int>
    decreases children.len() - from,
{
    if from >= children.len() || from < 0 {
        None
    } else if wait_matches(children[from], pid, own_pgid) && reapable(children[from]) {
        Some(from)
    } else {
        first_reapable(children, pid, own_pgid, from + 1)
    }
}

/// Some child is one `waitpid` waits for.
pub open spec fn has_child(children: Seq<ChildInfo>, pid: isize, own_pgid: usize) -> bool {
    exists|i: int| 0 <= i < children.len() && wait_matches(#[trigger] children[i], pid, own_pgid)
}

/// Whether `waitpid` waits for child `c`.
fn child_matches(c: &ChildInfo, pid: isize, own_pgid: usize) -> (r: bool)
    ensures
        r == wait_matches(*c, pid, own_pgid),
{
    if pid == -1 {
        true
    } else if pid > 0 {
        c.pid == pid as usize
    } else if pid == 0 {
        c.pgid == own_pgid
    } else {
        let group: usize = (-(pid + 1)) as usize + 1;
        c.pgid == group
    }
}

/// The first child `waitpid` waits for and may reap, and whether it waits
/// for any child at all.
pub fn select_child(children: &[ChildInfo], pid: isize, own_pgid: usize) -> (r: (Option<usize>, bool))
    ensures
        r.0 matches Some(i) ==> Some(i as int) == first_reapable(children@, pid, own_pgid, 0),
        r.0 is None ==> first_reapable(children@, pid, own_pgid, 0) is None,
        r.1 == has_child(children@, pid, own_pgid),
{
    let mut found: Option<usize> = None;
    let mut any = false;
    let mut i: usize = 0;
    while i < children.len()
        invariant
            i <= children@.len(),
            found is None ==> first_reapable(children@, pid, own_pgid, i as int) == first_reapable(children@, pid, own_pgid, 0),
            found matches Some(j) ==> j < i && Some(j as int) == first_reapable(children@, pid, own_pgid, 0),
            any <==> exists|j: int| 0 <= j < i && wait_matches(#[trigger] children@[j], pid, own_pgid),
        decreases children@.len() - i,
    {
        let c = children[i];
        if child_matches(&c, pid, own_pgid) {
            any = true;
            if found.is_none() && c.zombie && c.threads == 1 {
                found = Some(i);
            }
        }
        i = i + 1;
    }
    (found, any)
}

/// What `waitpid` does.
#[derive(Clone, Copy, Debug, PartialEq, Eq, Structural)]
pub enum WaitDecision {
    /// Reap the child at this index and return its pid.
    Reap(usize),
    /// Nothing to reap and `WNOHANG`: return 0.
    NoHang,
    /// Nothing to reap: sleep until a child exits, then look again.
    Block,
}

/// `WNOHANG` wait option.
pub const WNOHANG: i32 = 1;

/// syscall waitpid, each time the children are looked at, for a caller in
/// process group `own_pgid`: -1 waits for any child, a positive pid for
/// that child, 0 for a child of the caller's group, a pid below -1 for a
/// child of group `-pid`. When no child is waited for (among them: no
/// child at all) it is `ECHILD`.
pub fn sys_waitpid(children: &[ChildInfo], pid: isize, option: i32, own_pgid: usize) -> (r: Result<
    WaitDecision,
    SysError,
>)
    ensures
        !has_child(children@, pid, own_pgid) ==> r == Err::<WaitDecision, SysError>(SysError::ECHILD),
        has_child(children@, pid, own_pgid) ==> match first_reapable(children@, pid, own_pgid, 0) {
            Some(i) => r == Ok::<WaitDecision, SysError>(WaitDecision::Reap(i as usize)),
            None => if option & WNOHANG != 0 {
                r == Ok::<WaitDecision, SysError>(WaitDecision::NoHang)
            } else {
                r == Ok::<WaitDecision, SysError>(WaitDecision::Block)
            },
        },
{
    let (found, any) = select_child(children, pid, own_pgid);
    if !any {
        return Err(SysError::ECHILD);
    }
    match found {
        Some(i) => Ok(WaitDecision::Reap(i)),
        None => if option & WNOHANG != 0 {
            Ok(WaitDecision::NoHang)
        } else {
            Ok(WaitDecision::Block)
        },
    }
}

/// The child `first_reapable` picks from `from` on is one it may pick: it
/// lies at or after `from`, is reapable and is waited for.
proof fn lemma_first_reapable_picks(children: Seq<ChildInfo>, pid: isize, own_pgid: usize, from: int)
    requires
        0 <= from,
    ensures
        first_reapable(children, pid, own_pgid, from) matches Some(i) ==> from <= i < children.len()
            && reapable(children[i]) && wait_matches(children[i], pid, own_pgid),
        first_reapable(children, pid, own_pgid, from) is None ==> forall|i: int|
            from <= i < children.len() ==> !(reapable(#[trigger] children[i]) && wait_matches(
                children[i],
                pid,
                own_pgid,
            )),
    decreases children.len() - from,
{
    if from < children.len() {
        lemma_first_reapable_picks(children, pid, own_pgid, from + 1);
    }
}

/// `waitpid` for a positive pid reaps only the child with that pid, and
/// only once it has exited with its group down to one thread; while that
/// child runs, no other child is taken in its place. For any pid the child
/// reaped has exited, and for -1 it is the first child that has.
pub proof fn lemma_waitpid_reaps_the_named_child(children: Seq<ChildInfo>, pid: isize, own_pgid: usize)
    ensures
        pid > 0 ==> (first_reapable(children, pid, own_pgid, 0) matches Some(i) ==> children[i].pid == pid
            && children[i].zombie && children[i].threads == 1),
        pid > 0 ==> (has_child(children, pid, own_pgid) <==> exists|i: int|
            0 <= i < children.len() && (#[trigger] children[i]).pid == pid),
        pid > 0 && (forall|i: int| 0 <= i < children.len() && (#[trigger] children[i]).pid == pid ==> !children[i].zombie)
            ==> first_reapable(children, pid, own_pgid, 0) is None,
        first_reapable(children, pid, own_pgid, 0) matches Some(i) ==> 0 <= i < children.len()
            && children[i].zombie,
        pid == -1 ==> (first_reapable(children, pid, own_pgid, 0) matches Some(i) ==> forall|j: int|
            0 <= j < i ==> !reapable(#[trigger] children[j])),
{
    lemma_first_reapable_picks(children, pid, own_pgid, 0);
    if pid == -1 {
        lemma_first_reapable_is_first(children, pid, own_pgid, 0);
    }
    if pid > 0 {
        assert(forall|i: int| 0 <= i < children.len() ==> (wait_matches(#[trigger] children[i], pid, own_pgid) <==> children[i].pid == pid));
    }
}

/// No child before the one `first_reapable` picks may be picked.
proof fn lemma_first_reapable_is_first(children: Seq<ChildInfo>, pid: isize, own_pgid: usize, from: int)
    requires
        0 <= from,
    ensures
        first_reapable(children, pid, own_pgid, from) matches Some(i) ==> forall|j: int|
            from <= j < i ==> !(reapable(#[trigger] children[j]) && wait_matches(children[j], pid, own_pgid)),
    decreases children.len() - from,
{
    if from < children.len() {
        lemma_first_reapable_is_first(children, pid, own_pgid, from + 1);
    }
}

/// syscall sched_setscheduler: not supported; 0 is returned.
pub fn sys_sched_setscheduler() -> (r: SysResult)
    ensures
        r == Ok::<isize, SysError>(0),
{
    Ok(0)
}

/// syscall sched_getscheduler: not supported; 0 is returned.
pub fn sys_sched_getscheduler() -> (r: SysResult)
    ensures
        r == Ok::<isize, SysError>(0),
{
    Ok(0)
}

/// syscall sched_getparam: not supported; 0 is returned.
pub fn sys_sched_getparam() -> (r: SysResult)
    ensures
        r == Ok::<isize, SysError>(0),
{
    Ok(0)
}

/// `which` of get/setpriority: a process.
pub const PRIO_PROCESS: usize = 0;
/// `which` of get/setpriority: a process group.
pub const PRIO_PGRP: usize = 1;
/// `which` of get/setpriority: a user.
pub const PRIO_USER: usize = 2;
/// Lowest priority value.
pub const MIN_PRIORITY: i32 = 0;
/// Highest priority value.
pub const MAX_PRIORITY: i32 = 39;
/// Priority of nice value 0.
pub const NZERO: i32 = 20;

/// The priority a nice value maps to: `NZERO + nice`, kept within
/// `MIN_PRIORITY..=MAX_PRIORITY`.
pub open spec fn priority_of(nice: int) -> int {
    let p = NZERO + nice;
    if p < MIN_PRIORITY {
        MIN_PRIORITY as int
    } else if p > MAX_PRIORITY {
        MAX_PRIORITY as int
    } else {
        p
    }
}

/// syscall setpriority: the priority to give the target's threads (`None`:
/// nothing to do, for users); an unknown `which` is `EINVAL`.
pub fn sys_set_priority(which: usize, process_priority: i32) -> (r: Result<Option<i32>, SysError>)
    requires
        NZERO + process_priority <= i32::MAX,
    ensures
        (which == PRIO_PROCESS || which == PRIO_PGRP) ==> r == Ok::<Option<i32>, SysError>(
            Some(priority_of(process_priority as int) as i32),
        ),
        which == PRIO_USER ==> r == Ok::<Option<i32>, SysError>(None),
        which > 2 ==> r == Err::<Option<i32>, SysError>(SysError::EINVAL),
{
    if which == PRIO_PROCESS || which == PRIO_PGRP {
        let p = NZERO + process_priority;
        let p = if p < MIN_PRIORITY {
            MIN_PRIORITY
        } else {
            p
        };
        let p = if p > MAX_PRIORITY {
            MAX_PRIORITY
        } else {
            p
        };
        Ok(Some(p))
    } else if which == PRIO_USER {
        Ok(None)
    } else {
        Err(SysError::EINVAL)
    }
}

/// The smallest of `MAX_PRIORITY` and the priorities `s[i]`, `i < n`.
pub open spec fn min_priority(s: Seq<i32>, n: int) -> int
    decreases n,
{
    if n <= 0 {
        MAX_PRIORITY as int
    } else {
        let m = min_priority(s, n - 1);
        if s[n - 1] < m {
            s[n - 1] as int
        } else {
            m
        }
    }
}

/// syscall getpriority: `2 * NZERO` less the target's priority (for a
/// process, `priorities` holds its priority; for a group, those of its
/// members, of which the smallest, capped at `MAX_PRIORITY`, counts); 0 for
/// users; an unknown `which` is `EINVAL`.
pub fn sys_get_priority(which: usize, priorities: &[i32]) -> (r: SysResult)
    requires
        which == PRIO_PROCESS ==> priorities@.len() == 1,
        forall|i: int| 0 <= i < priorities@.len() ==> #[trigger] priorities@[i] >= 40 - i32::MAX,
    ensures
        which == PRIO_PROCESS ==> r == Ok::<isize, SysError>((2 * NZERO - priorities@[0]) as isize),
        which == PRIO_PGRP ==> r == Ok::<isize, SysError>(
            (2 * NZERO - min_priority(priorities@, priorities@.len() as int)) as isize,
        ),
        which == PRIO_USER ==> r == Ok::<isize, SysError>(0),
        which > 2 ==> r == Err::<isize, SysError>(SysError::EINVAL),
{
    if which == PRIO_PROCESS {
        Ok((2 * NZERO - priorities[0]) as isize)
    } else if which == PRIO_PGRP {
        let mut m: i32 = MAX_PRIORITY;
        let mut i: usize = 0;
        while i < priorities.len()
            invariant
                i <= priorities@.len(),
                m == min_priority(priorities@, i as int),
                40 - i32::MAX <= m <= MAX_PRIORITY,
                forall|j: int| 0 <= j < priorities@.len() ==> #[trigger] priorities@[j] >= 40 - i32::MAX,
            decreases priorities@.len() - i,
        {
            if priorities[i] < m {
                m = priorities[i];
            }
            i = i + 1;
        }
        Ok((2 * NZERO - m) as isize)
    } else if which == PRIO_USER {
        Ok(0)
    } else {
        Err(SysError::EINVAL)
    }
}

/// syscall getcpu: the cpu and node numbers to write, both 0.
pub fn sys_getcpu() -> (r: (u32, u32))
    ensures
        r == (0u32, 0u32),
{
    (0, 0)
}

/// Processor mask: processor 0.
pub const CPU0: usize = 0b0001;
/// Processor mask: processor 1.
pub const CPU1: usize = 0b0010;
/// Processor mask: processor 2.
pub const CPU2: usize = 0b0100;
/// Processor mask: processor 3.
pub const CPU3: usize = 0b1000;
/// Processor mask: all four processors.
pub const CPU_ALL: usize = 0b1111;
/// The size of a processor mask in user memory.
pub const CPU_MASK_SIZE: usize = 8;

/// A mask the kernel knows: one processor, or all of them.
pub open spec fn known_mask(m: usize) -> bool {
    m == CPU0 || m == CPU1 || m == CPU2 || m == CPU3 || m == CPU_ALL
}

/// The mask of mask id `id` (0 to 3: one processor; 4: all); zero for
/// other ids.
pub fn get_cpu_mask(id: usize) -> (r: usize)
    ensures
        r == (if id == 0 {
            1
        } else if id == 1 {
            2
        } else if id == 2 {
            4
        } else if id == 3 {
            8
        } else if id == 4 {
            15usize
        } else {
            0
        }),
{
    match id {
        0 => 1,
        1 => 2,
        2 => 4,
        3 => 8,
        4 => 15,
        _ => 0,
    }
}

/// The id of a mask (the inverse of `get_cpu_mask` on known masks); zero
/// for other masks.
pub fn turn_cpu_mask_to_id(mask: usize) -> (r: usize)
    ensures
        known_mask(mask) ==> get_cpu_mask_spec(r) == mask,
        r == (if mask == 1 {
            0
        } else if mask == 2 {
            1
        } else if mask == 4 {
            2
        } else if mask == 8 {
            3
        } else if mask == 15 {
            4usize
        } else {
            0
        }),
{
    match mask {
        1 => 0,
        2 => 1,
        4 => 2,
        8 => 3,
        15 => 4,
        _ => 0,
    }
}

/// The mask of an id, as `get_cpu_mask` computes it.
pub open spec fn get_cpu_mask_spec(id: usize) -> usize {
    if id == 0 {
        1
    } else if id == 1 {
        2
    } else if id == 2 {
        4
    } else if id == 3 {
        8
    } else if id == 4 {
        15
    } else {
        0
    }
}

/// Mask ids and masks correspond one to one: turning a known mask into its
/// id and back gives the mask, and an id from 0 to 4 comes back from its mask.
pub proof fn lemma_cpu_mask_round_trip(mask: usize, id: usize)
    ensures
        known_mask(mask) ==> get_cpu_mask_spec(
            if mask == 1 {
                0
            } else if mask == 2 {
                1
            } else if mask == 4 {
                2
            } else if mask == 8 {
                3
            } else {
                4
            },
        ) == mask,
        id <= 4 ==> known_mask(get_cpu_mask_spec(id)),
{
}

/// syscall sched_setaffinity, for a target task (the caller for pid 0)
/// that was found or not, and the mask read (`None`: unreadable): a size
/// below a mask's is `EINVAL`, a task not found `ESRCH`, an unreadable mask
/// `EFAULT`; the task may then run on the processors of the mask.
pub fn sys_sched_setaffinity(cpusetsize: usize, found: bool, mask: Option<usize>) -> (r: Result<usize, SysError>)
    requires
        cpusetsize >= CPU_MASK_SIZE && found && mask is Some ==> known_mask(mask->Some_0),
    ensures
        r == (if cpusetsize < CPU_MASK_SIZE {
            Err::<usize, SysError>(SysError::EINVAL)
        } else if !found {
            Err::<usize, SysError>(SysError::ESRCH)
        } else {
            match mask {
                None => Err::<usize, SysError>(SysError::EFAULT),
                Some(m) => Ok::<usize, SysError>(m),
            }
        }),
{
    if cpusetsize < CPU_MASK_SIZE {
        return Err(SysError::EINVAL);
    }
    if !found {
        return Err(SysError::ESRCH);
    }
    match mask {
        None => Err(SysError::EFAULT),
        Some(m) => Ok(m),
    }
}

/// syscall sched_getaffinity, with the result buffer writable or not and
/// the target task (the caller for pid 0) found or not, as whether it leads
/// its process and its allowed processors: an unwritable buffer is
/// `EFAULT`, a size below a mask's `EINVAL`, a task not found or not a
/// process leader `ESRCH`. The task's mask is written and the mask size
/// returned.
pub fn sys_sched_getaffinity(cpusetsize: usize, writable: bool, target: Option<(bool, usize)>) -> (r: Result<
    (usize, isize),
    SysError,
>)
    requires
        writable && cpusetsize >= CPU_MASK_SIZE ==> (target matches Some((true, m)) ==> known_mask(m)),
    ensures
        r == (if !writable {
            Err::<(usize, isize), SysError>(SysError::EFAULT)
        } else if cpusetsize < CPU_MASK_SIZE {
            Err::<(usize, isize), SysError>(SysError::EINVAL)
        } else {
            match target {
                Some((true, m)) => Ok::<(usize, isize), SysError>((m, CPU_MASK_SIZE as isize)),
                _ => Err::<(usize, isize), SysError>(SysError::ESRCH),
            }
        }),
{
    if !writable {
        return Err(SysError::EFAULT);
    }
    if cpusetsize < CPU_MASK_SIZE {
        return Err(SysError::EINVAL);
    }
    match target {
        Some((true, m)) => Ok((m, CPU_MASK_SIZE as isize)),
        _ => Err(SysError::ESRCH),
    }
}

/// The process id of a task: its own id when it leads its process, else
/// its leader's.
pub fn task_pid(is_leader: bool, tid: usize, leader_tid: usize) -> (r: usize)
    ensures
        r == (if is_leader {
            tid
        } else {
            leader_tid
        }),
{
    if is_leader {
        tid
    } else {
        leader_tid
    }
}

/// The id of a task's allowed processors (TaskControlBlock::
/// turn_cpu_mask_id), which must be a mask the kernel knows.
pub fn turn_cpu_mask_id(cpu_allowed: usize) -> (r: usize)
    requires
        known_mask(cpu_allowed),
    ensures
        get_cpu_mask_spec(r) == cpu_allowed,
        r <= 4,
{
    turn_cpu_mask_to_id(cpu_allowed)
}

} // verus!
