//! Traps: what the kernel does for each kind of trap from user space or
//! from the kernel itself, and how a system call's result goes back.

use vstd::prelude::*;
use crate::errno::{SysError, SysResult};

verus! {

/// Breakpoint trap signal.
pub const SIGTRAP: usize = 5;
/// Illegal instruction signal.
pub const SIGILL: usize = 4;
/// Invalid memory reference signal.
pub const SIGSEGV: usize = 11;

/// The kinds of trap.
#[derive(Clone, Copy, Debug, PartialEq, Eq, Structural)]
pub enum TrapKind {
    /// A breakpoint instruction.
    Breakpoint,
    /// A system call.
    Syscall,
    /// A store to this address faulted.
    StorePageFault(usize),
    /// Fetching an instruction at this address faulted.
    InstructionPageFault(usize),
    /// A load from this address faulted.
    LoadPageFault(usize),
    /// An illegal instruction.
    IllegalInstruction(usize),
    /// The timer fired.
    Timer,
    /// A device interrupt.
    ExternalInterrupt,
    /// Already handled.
    Processed,
    /// Anything else.
    Other,
}

/// The access that caused a page fault.
#[derive(Clone, Copy, Debug, PartialEq, Eq, Structural)]
pub enum PageFaultAccess {
    /// A read.
    Read,
    /// A write.
    Write,
    /// An instruction fetch.
    Execute,
}

/// What is done for a trap.
#[derive(Clone, Copy, Debug, PartialEq, Eq, Structural)]
pub enum TrapAction {
    /// Send this signal to the task.
    Signal(usize),
    /// Run the system call (the return address moves past the call).
    Syscall,
    /// Handle a page fault at this address for this access.
    PageFault(usize, PageFaultAccess),
    /// Check the timers, set the next timer event (and, from user space,
    /// yield).
    Timer,
    /// Let the device manager handle the interrupt.
    Irq,
    /// Nothing.
    Nothing,
}

/// The action for a trap of a kind both handlers share.
pub open spec fn common_action(kind: TrapKind) -> TrapAction {
    match kind {
        TrapKind::StorePageFault(a) => TrapAction::PageFault(a, PageFaultAccess::Write),
        TrapKind::LoadPageFault(a) => TrapAction::PageFault(a, PageFaultAccess::Read),
        TrapKind::InstructionPageFault(a) => TrapAction::PageFault(a, PageFaultAccess::Execute),
        TrapKind::Timer => TrapAction::Timer,
        TrapKind::ExternalInterrupt => TrapAction::Irq,
        _ => TrapAction::Nothing,
    }
}

/// The action for a trap from user space: a breakpoint sends `SIGTRAP`,
/// an illegal instruction `SIGILL`; a system call runs; page faults are
/// handled for their access; the timer and devices are served. Other
/// traps are not supported.
pub fn user_trap_handler(kind: TrapKind) -> (r: TrapAction)
    requires
        kind != TrapKind::Other,
    ensures
        r == (match kind {
            TrapKind::Breakpoint => TrapAction::Signal(SIGTRAP),
            TrapKind::Syscall => TrapAction::Syscall,
            TrapKind::IllegalInstruction(_) => TrapAction::Signal(SIGILL),
            _ => common_action(kind),
        }),
{
    match kind {
        TrapKind::Breakpoint => TrapAction::Signal(SIGTRAP),
        TrapKind::Syscall => TrapAction::Syscall,
        TrapKind::StorePageFault(a) => TrapAction::PageFault(a, PageFaultAccess::Write),
        TrapKind::LoadPageFault(a) => TrapAction::PageFault(a, PageFaultAccess::Read),
        TrapKind::InstructionPageFault(a) => TrapAction::PageFault(a, PageFaultAccess::Execute),
        TrapKind::IllegalInstruction(_) => TrapAction::Signal(SIGILL),
        TrapKind::Timer => TrapAction::Timer,
        TrapKind::ExternalInterrupt => TrapAction::Irq,
        _ => TrapAction::Nothing,
    }
}

/// The action for a trap taken in the kernel: page faults (of a running
/// task) are handled, the timer and devices are served; other traps are
/// not supported.
pub fn kernel_trap_handler(kind: TrapKind) -> (r: TrapAction)
    requires
        kind != TrapKind::Other,
        kind != TrapKind::Breakpoint,
        kind != TrapKind::Syscall,
        !(kind is IllegalInstruction),
    ensures
        r == common_action(kind),
{
    match kind {
        TrapKind::StorePageFault(a) => TrapAction::PageFault(a, PageFaultAccess::Write),
        TrapKind::LoadPageFault(a) => TrapAction::PageFault(a, PageFaultAccess::Read),
        TrapKind::InstructionPageFault(a) => TrapAction::PageFault(a, PageFaultAccess::Execute),
        TrapKind::Timer => TrapAction::Timer,
        TrapKind::ExternalInterrupt => TrapAction::Irq,
        _ => TrapAction::Nothing,
    }
}

/// What follows a page fault from user space: one that could not be
/// handled sends `SIGSEGV`.
pub fn user_page_fault_outcome(handled: bool) -> (r: Option<usize>)
    ensures
        r == (if handled {
            None::<usize>
        } else {
            Some(SIGSEGV)
        }),
{
    if handled {
        None
    } else {
        Some(SIGSEGV)
    }
}

/// The value a system call's result puts in the return register: the
/// value on success, the negated error number on failure.
pub fn syscall_return_value(result: SysResult) -> (r: isize)
    ensures
        r == (match result {
            Ok(v) => v as int,
            Err(e) => -e.spec_code(),
        }),
{
    match result {
        Ok(v) => v,
        Err(e) => -e.code(),
    }
}

/// After a system call from user space: the return register's new value,
/// and whether the call was interrupted (its value is `-EINTR`), in which
/// case the trap handler reports it.
pub fn syscall_outcome(ret: isize) -> (r: (usize, bool))
    ensures
        r.0 == ret as usize,
        r.1 == (ret == -4),
{
    (ret as usize, ret == -SysError::EINTR.code())
}

} // verus!
