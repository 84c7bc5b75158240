//! `clone` and `fork`: what a new task shares with its parent and which
//! of its registers and user words are set, by the clone flags.

use vstd::prelude::*;
use crate::thread_group::ThreadGroup;
use crate::manager::{TaskManager, ProcessGroupManager};

verus! {

/// Share the address space.
pub const CLONE_VM: u64 = 0x0000100;
/// Share file-system information.
pub const CLONE_FS: u64 = 0x0000200;
/// Share the descriptor table.
pub const CLONE_FILES: u64 = 0x0000400;
/// Share the signal handlers.
pub const CLONE_SIGHAND: u64 = 0x00000800;
/// Make a pid file descriptor.
pub const CLONE_PIDFD: u64 = 0x00001000;
/// Suspend the parent until the child execs or exits.
pub const CLONE_VFORK: u64 = 0x00004000;
/// The child's parent is the caller's parent.
pub const CLONE_PARENT: u64 = 0x00008000;
/// The child is a thread of the caller's process.
pub const CLONE_THREAD: u64 = 0x00010000;
/// Set the thread pointer of the child.
pub const CLONE_SETTLS: u64 = 0x00080000;
/// Store the child's id in the parent's memory.
pub const CLONE_PARENT_SETTID: u64 = 0x00100000;
/// Clear the child's id in its memory when it exits.
pub const CLONE_CHILD_CLEARTID: u64 = 0x00200000;
/// Store the child's id in its memory.
pub const CLONE_CHILD_SETTID: u64 = 0x01000000;

/// What a new task shares with its parent.
#[derive(Clone, Copy, Debug, PartialEq, Eq, Structural)]
pub struct ForkPlan {
    /// Start from a copy of the parent's signal handlers (else from the
    /// defaults).
    pub copy_sighand: bool,
    /// A thread: the leader, parent, children, thread group, process group,
    /// working directory, interval timers and program image are the
    /// parent's; otherwise the task leads a new process with its own copies
    /// (and no interval timers running).
    pub thread: bool,
    /// The address space is shared (else copied).
    pub share_vm: bool,
    /// The descriptor table is shared (else copied).
    pub share_files: bool,
    /// The parent waits for the child (`CLONE_VFORK`).
    pub vfork: bool,
}

/// fork (TaskControlBlock::fork): what the new task shares by `flags`.
pub fn fork(flags: u64) -> (r: ForkPlan)
    ensures
        r.copy_sighand == (flags & CLONE_SIGHAND != 0),
        r.thread == (flags & CLONE_THREAD != 0),
        r.share_vm == (flags & CLONE_VM != 0),
        r.share_files == (flags & CLONE_FILES != 0),
        r.vfork == (flags & CLONE_VFORK != 0),
{
    ForkPlan {
        copy_sighand: flags & CLONE_SIGHAND != 0,
        thread: flags & CLONE_THREAD != 0,
        share_vm: flags & CLONE_VM != 0,
        share_files: flags & CLONE_FILES != 0,
        vfork: flags & CLONE_VFORK != 0,
    }
}

/// The registries a task forked with `plan` joins, once it is made as
/// task `tid` (kept under `handle`) of process group `pgid`: a new process
/// becomes a child of the forking task (`children`, its children's ids)
/// and, leading its process, a member of its process group; a thread does
/// neither. Either way it joins `group`, its thread group (the parent's for
/// a thread, its own new one otherwise), alive, and the task registry.
pub fn fork_register(
    plan: &ForkPlan,
    children: &mut Vec<usize>,
    group: &mut ThreadGroup,
    tasks: &mut TaskManager,
    groups: &mut ProcessGroupManager,
    tid: usize,
    handle: usize,
    pgid: usize,
)
    requires
        old(group).alive_count() < usize::MAX,
        !plan.thread ==> old(groups).groups().contains_key(pgid),
    ensures
        final(children)@ == (if plan.thread {
            old(children)@
        } else {
            old(children)@.push(tid)
        }),
        final(group).tids().to_set() == old(group).tids().to_set().insert(tid),
        final(group).alive_count() == old(group).alive_count() + 1,
        final(group).exiting() == old(group).exiting(),
        final(tasks).tasks() == old(tasks).tasks().insert(tid, handle),
        final(groups).groups() == (if plan.thread {
            old(groups).groups()
        } else {
            old(groups).groups().insert(pgid, old(groups).groups()[pgid].push(tid))
        }),
{
    if !plan.thread {
        children.push(tid);
    }
    group.push(tid, false);
    if !plan.thread {
        groups.add_task_to_group(pgid, tid);
    }
    tasks.add_task(tid, handle);
}

/// What `clone` sets up for the new task `new_tid`.
#[derive(Clone, Copy, Debug, PartialEq, Eq, Structural)]
pub struct ClonePlan {
    /// The flags the task is forked with (the exit signal, in the low byte,
    /// left out).
    pub flags: u64,
    /// The child's stack pointer, when one is given.
    pub stack: Option<usize>,
    /// Where to store the new id in the parent's memory.
    pub parent_settid: Option<usize>,
    /// Where to store the new id in the child's memory (also recorded as
    /// its set-child-tid address).
    pub child_settid: Option<usize>,
    /// The child's clear-child-tid address.
    pub clear_child_tid: Option<usize>,
    /// The child's thread pointer.
    pub tls: Option<usize>,
    /// What the call returns to the parent.
    pub ret: isize,
}

/// syscall clone, once the task `new_tid` is forked with the flags less
/// their low byte (the child returns zero): a non-zero stack becomes the
/// child's stack pointer, and the settid, cleartid and TLS flags say
/// which addresses are written or recorded. The parent gets the new id.
pub fn sys_clone(flags: usize, stack: usize, parent_tid: usize, tls: usize, child_tid: usize, new_tid: usize) -> (r:
    ClonePlan)
    requires
        (flags as u64) < 0x1_0000_0000,
        new_tid <= isize::MAX,
    ensures
        r.flags == (flags as u64) & !0xffu64,
        r.stack == (if stack != 0 {
            Some(stack)
        } else {
            None
        }),
        r.parent_settid == (if r.flags & CLONE_PARENT_SETTID != 0 {
            Some(parent_tid)
        } else {
            None
        }),
        r.child_settid == (if r.flags & CLONE_CHILD_SETTID != 0 {
            Some(child_tid)
        } else {
            None
        }),
        r.clear_child_tid == (if r.flags & CLONE_CHILD_CLEARTID != 0 {
            Some(child_tid)
        } else {
            None
        }),
        r.tls == (if r.flags & CLONE_SETTLS != 0 {
            Some(tls)
        } else {
            None
        }),
        r.ret == new_tid as isize,
{
    let f = (flags as u64) & !0xffu64;
    ClonePlan {
        flags: f,
        stack: if stack != 0 {
            Some(stack)
        } else {
            None
        },
        parent_settid: if f & CLONE_PARENT_SETTID != 0 {
            Some(parent_tid)
        } else {
            None
        },
        child_settid: if f & CLONE_CHILD_SETTID != 0 {
            Some(child_tid)
        } else {
            None
        },
        clear_child_tid: if f & CLONE_CHILD_CLEARTID != 0 {
            Some(child_tid)
        } else {
            None
        },
        tls: if f & CLONE_SETTLS != 0 {
            Some(tls)
        } else {
            None
        },
        ret: new_tid as isize,
    }
}

/// The size of the first version of `struct clone_args`.
pub const CLONE_ARGS_SIZE_VER0: usize = 64;

/// syscall clone3, its size check before the arguments are read: a size
/// above a page is `E2BIG`, one below the first version's `EINVAL`. The
/// call then goes on as `clone` with the stack's top (its base plus its
/// size) as the stack.
pub fn sys_clone3(size: usize, stack: usize, stack_size: usize) -> (r: Result<usize, crate::errno::SysError>)
    requires
        stack + stack_size <= usize::MAX,
    ensures
        r == (if size > 4096 {
            Err::<usize, crate::errno::SysError>(crate::errno::SysError::E2BIG)
        } else if size < CLONE_ARGS_SIZE_VER0 {
            Err::<usize, crate::errno::SysError>(crate::errno::SysError::EINVAL)
        } else {
            Ok::<usize, crate::errno::SysError>((stack + stack_size) as usize)
        }),
{
    if size > 4096 {
        return Err(crate::errno::SysError::E2BIG);
    }
    if size < CLONE_ARGS_SIZE_VER0 {
        return Err(crate::errno::SysError::EINVAL);
    }
    Ok(stack + stack_size)
}

} // verus!
