//! Signals: the checks of the signal system calls, which task a signal
//! goes to, and how the blocked, pending and wake-up sets change.
//!
//! A signal set is a `u64` in which signal `n` (1 to 64) is bit `n - 1`,
//! as in the masks that user programs hand over.

use vstd::prelude::*;
use crate::errno::{SysError, SysResult};

verus! {

/// The highest signal number.
pub const SIGRTMAX: usize = 64;
/// Kill (cannot be caught or blocked).
pub const SIGKILL: usize = 9;
/// Stop (cannot be caught or blocked).
pub const SIGSTOP: usize = 19;
/// Handler value: the default action.
pub const SIG_DFL: usize = 0;
/// Handler value: ignore the signal.
pub const SIG_IGN: usize = 1;
/// `rt_sigprocmask`: add to the blocked set.
pub const SIG_BLOCK: i32 = 0;
/// `rt_sigprocmask`: remove from the blocked set.
pub const SIG_UNBLOCK: i32 = 1;
/// `rt_sigprocmask`: replace the blocked set.
pub const SIG_SETMASK: i32 = 2;
/// The bits of `SIGKILL` and `SIGSTOP`.
pub const UNBLOCKABLE: u64 = 0x4_0100;

/// The bit of signal `signo` in a set.
pub open spec fn sig_bit(signo: int) -> u64 {
    (1u64 << ((signo - 1) as u64)) as u64
}

/// The bit of signal `signo` (1 to 64) in a set.
pub fn sig_bit_of(signo: usize) -> (r: u64)
    requires
        1 <= signo <= SIGRTMAX,
    ensures
        r == sig_bit(signo as int),
{
    let s = (signo - 1) as u64;
    1u64 << s
}

/// Whom `kill` sends a signal to.
#[derive(Clone, Copy, Debug, PartialEq, Eq, Structural)]
pub enum KillTarget {
    /// Signal 0: nothing is sent.
    Nothing,
    /// Every process of the caller's process group.
    OwnGroup,
    /// Every process but init.
    Everyone,
    /// The task of the caller's process group with this id.
    GroupTask(usize),
    /// The process with this id.
    Process(usize),
}

/// syscall kill: signal 0 sends nothing; a negative signal or one from
/// `SIGRTMAX` on is `EINVAL`. Pid 0 means the caller's group, -1 every
/// process, a pid below -1 the task of the caller's group with id `-pid`
/// (`ESRCH` when the caller has no group), and a positive pid that process
/// (`target` is the lookup of the task: whether it leads its process, or
/// `None`; a task that is no process leader is `ESRCH` too).
pub fn sys_kill(pid: isize, signo: i32, own_group_exists: bool, target: Option<bool>) -> (r: Result<KillTarget, SysError>)
    requires
        pid != isize::MIN,
        signo > 0 && signo < SIGRTMAX && pid == 0 ==> own_group_exists,
    ensures
        signo == 0 ==> r == Ok::<KillTarget, SysError>(KillTarget::Nothing),
        signo < 0 || signo >= SIGRTMAX ==> r == Err::<KillTarget, SysError>(SysError::EINVAL),
        0 < signo < SIGRTMAX ==> r == (if pid == 0 {
            Ok::<KillTarget, SysError>(KillTarget::OwnGroup)
        } else if pid == -1 {
            Ok::<KillTarget, SysError>(KillTarget::Everyone)
        } else if pid < -1 {
            if own_group_exists {
                Ok::<KillTarget, SysError>(KillTarget::GroupTask((-pid) as usize))
            } else {
                Err::<KillTarget, SysError>(SysError::ESRCH)
            }
        } else if target == Some(true) {
            Ok::<KillTarget, SysError>(KillTarget::Process(pid as usize))
        } else {
            Err::<KillTarget, SysError>(SysError::ESRCH)
        }),
{
    if signo == 0 {
        return Ok(KillTarget::Nothing);
    } else if signo < 0 || signo as usize >= SIGRTMAX {
        return Err(SysError::EINVAL);
    }
    if pid == 0 {
        Ok(KillTarget::OwnGroup)
    } else if pid == -1 {
        Ok(KillTarget::Everyone)
    } else if pid < -1 {
        if !own_group_exists {
            return Err(SysError::ESRCH);
        }
        Ok(KillTarget::GroupTask((-pid) as usize))
    } else {
        match target {
            Some(true) => Ok(KillTarget::Process(pid as usize)),
            _ => Err(SysError::ESRCH),
        }
    }
}

/// syscall tkill: the thread to signal; a signal out of range or a
/// negative thread id is `EINVAL`, a thread not found (`found`) `ESRCH`.
pub fn sys_tkill(tid: isize, sig: i32, found: bool) -> (r: Result<usize, SysError>)
    ensures
        (sig < 0 || sig >= SIGRTMAX || tid < 0) ==> r == Err::<usize, SysError>(SysError::EINVAL),
        !(sig < 0 || sig >= SIGRTMAX || tid < 0) ==> r == (if found {
            Ok::<usize, SysError>(tid as usize)
        } else {
            Err::<usize, SysError>(SysError::ESRCH)
        }),
{
    if sig < 0 || sig as usize >= SIGRTMAX || tid < 0 {
        return Err(SysError::EINVAL);
    }
    if !found {
        return Err(SysError::ESRCH);
    }
    Ok(tid as usize)
}

/// syscall tgkill: the thread `tid` of thread group `tgid` to signal;
/// `group` is the lookup of task `tgid`: whether it leads its process, and
/// the ids of the threads of its group. Arguments out of range are
/// `EINVAL`; a task not found, not a leader, or without thread `tid` is
/// `ESRCH`.
pub fn sys_tgkill(tgid: isize, tid: isize, signo: i32, group: Option<(bool, Vec<usize>)>) -> (r: Result<usize, SysError>)
    ensures
        (signo < 0 || signo >= SIGRTMAX || tid < 0 || tgid < 0) ==> r == Err::<usize, SysError>(SysError::EINVAL),
        !(signo < 0 || signo >= SIGRTMAX || tid < 0 || tgid < 0) ==> r == (match group {
            Some((true, threads)) => if threads@.contains(tid as usize) {
                Ok::<usize, SysError>(tid as usize)
            } else {
                Err::<usize, SysError>(SysError::ESRCH)
            },
            _ => Err::<usize, SysError>(SysError::ESRCH),
        }),
{
    if signo < 0 || signo as usize >= SIGRTMAX || tid < 0 {
        return Err(SysError::EINVAL);
    }
    if tgid < 0 || tid < 0 {
        return Err(SysError::EINVAL);
    }
    match group {
        Some((true, threads)) => {
            let want = tid as usize;
            let mut i: usize = 0;
            while i < threads.len()
                invariant
                    i <= threads@.len(),
                    want == tid as usize,
                    group == Some((true, threads)),
                    !(signo < 0 || signo >= SIGRTMAX || tid < 0 || tgid < 0),
                    forall|j: int| 0 <= j < i ==> threads@[j] != want,
                decreases threads@.len() - i,
            {
                if threads[i] == want {
                    assert(threads@[i as int] == want);
                    return Ok(want);
                }
                i = i + 1;
            }
            Err(SysError::ESRCH)
        },
        _ => Err(SysError::ESRCH),
    }
}

/// How a signal is handled.
#[derive(Clone, Copy, Debug, PartialEq, Eq, Structural)]
pub enum SigDisposition {
    /// The default action of the signal.
    Default,
    /// Ignored (by the kernel's ignoring handler).
    Ignore,
    /// The user's handler at this address.
    User(usize),
}

/// What `rt_sigaction` does: the handler reported as the old one (when
/// asked for), and the new disposition (when one is given).
#[derive(Clone, Copy, Debug, PartialEq, Eq, Structural)]
pub struct SigactionOutcome {
    /// The old handler written back.
    pub old_handler: Option<usize>,
    /// The new disposition.
    pub new: Option<SigDisposition>,
}

/// The disposition that handler value `h` asks for.
pub open spec fn disposition(h: usize) -> SigDisposition {
    if h == SIG_DFL {
        SigDisposition::Default
    } else if h == SIG_IGN {
        SigDisposition::Ignore
    } else {
        SigDisposition::User(h)
    }
}

/// syscall rt_sigaction, for the current handler of the signal (its
/// address, and whether it is the user's): a signal out of range, `SIGKILL`
/// or `SIGSTOP` is `EINVAL`. The old handler reported is the current one
/// when it is the user's and `SIG_DFL` otherwise; a new handler value picks
/// the default action, ignoring, or the user's handler.
pub fn sys_rt_sigaction(
    signo: i32,
    current_handler: usize,
    current_is_user: bool,
    want_old: bool,
    new_handler: Option<usize>,
) -> (r: Result<SigactionOutcome, SysError>)
    requires
        !(signo < 0 || signo > SIGRTMAX || signo == SIGKILL || signo == SIGSTOP) ==> new_handler != Some(usize::MAX),
    ensures
        (signo < 0 || signo > SIGRTMAX || signo == SIGKILL || signo == SIGSTOP) ==> r == Err::<
            SigactionOutcome,
            SysError,
        >(SysError::EINVAL),
        !(signo < 0 || signo > SIGRTMAX || signo == SIGKILL || signo == SIGSTOP) ==> r == Ok::<
            SigactionOutcome,
            SysError,
        >(
            SigactionOutcome {
                old_handler: if want_old {
                    Some(
                        if current_is_user {
                            current_handler
                        } else {
                            SIG_DFL
                        },
                    )
                } else {
                    None
                },
                new: match new_handler {
                    Some(h) => Some(disposition(h)),
                    None => None,
                },
            },
        ),
{
    if signo < 0 || signo as usize > SIGRTMAX || signo as usize == SIGKILL || signo as usize == SIGSTOP {
        return Err(SysError::EINVAL);
    }
    let old_handler = if want_old {
        Some(
            if current_is_user {
                current_handler
            } else {
                SIG_DFL
            },
        )
    } else {
        None
    };
    let new = match new_handler {
        Some(h) => Some(
            if h == SIG_DFL {
                SigDisposition::Default
            } else if h == SIG_IGN {
                SigDisposition::Ignore
            } else {
                SigDisposition::User(h)
            },
        ),
        None => None,
    };
    Ok(SigactionOutcome { old_handler, new })
}

/// The blocked set after `rt_sigprocmask` on blocked set `blocked`.
pub open spec fn sigprocmask_spec(blocked: u64, how: i32, set: Option<Option<u64>>) -> Result<u64, SysError> {
    match set {
        None => Ok(blocked),
        Some(None) => Err(SysError::EINVAL),
        Some(Some(m)) => if how == SIG_BLOCK {
            Ok(blocked | m)
        } else if how == SIG_UNBLOCK {
            Ok(blocked & !m)
        } else if how == SIG_SETMASK {
            Ok(m)
        } else {
            Err(SysError::EINVAL)
        },
    }
}

/// syscall rt_sigprocmask, on blocked set `blocked`: the new blocked set.
/// `set` is `None` for a null pointer (nothing changes), `Some(None)` when
/// the set cannot be read or holds unknown signals (`EINVAL`); `how` adds,
/// removes or replaces, and any other value is `EINVAL`.
pub fn sys_rt_sigprocmask(blocked: u64, how: i32, set: Option<Option<u64>>) -> (r: Result<u64, SysError>)
    ensures
        r == sigprocmask_spec(blocked, how, set),
{
    let m = match set {
        None => {
            return Ok(blocked);
        },
        Some(None) => {
            return Err(SysError::EINVAL);
        },
        Some(Some(m)) => m,
    };
    if how == SIG_BLOCK {
        Ok(blocked | m)
    } else if how == SIG_UNBLOCK {
        Ok(blocked & !m)
    } else if how == SIG_SETMASK {
        Ok(m)
    } else {
        Err(SysError::EINVAL)
    }
}

/// How `rt_sigsuspend` waits.
#[derive(Clone, Copy, Debug, PartialEq, Eq, Structural)]
pub struct SuspendPlan {
    /// The blocked set while waiting.
    pub blocked: u64,
    /// The signals that wake the task; `None`: a wanted signal is already
    /// pending and the call fails at once with `EINTR`, leaving `blocked`
    /// in place.
    pub wake: Option<u64>,
}

/// syscall rt_sigsuspend: the blocked set becomes `mask` without `SIGKILL`
/// and `SIGSTOP`; the task then waits for an unblocked signal or one with
/// a user handler (`user_defined`), unless such a signal is already pending.
/// Once woken, the old blocked set comes back and the call fails with
/// `EINTR`.
pub fn sys_rt_sigsuspend(mask: u64, pending: u64, user_defined: u64) -> (r: SuspendPlan)
    ensures
        r.blocked == mask & !UNBLOCKABLE,
        r.wake == (if pending & (!(mask & !UNBLOCKABLE) | user_defined) != 0 {
            None::<u64>
        } else {
            Some(!(mask & !UNBLOCKABLE) | user_defined)
        }),
{
    let m = mask & !UNBLOCKABLE;
    let wake = !m | user_defined;
    if pending & wake != 0 {
        SuspendPlan { blocked: m, wake: None }
    } else {
        SuspendPlan { blocked: m, wake: Some(wake) }
    }
}

/// The signals `rt_sigtimedwait` waits for: those of `set` but `SIGKILL`
/// and `SIGSTOP`; and the signals that wake it, which add those two.
pub fn sigtimedwait_sets(set: u64) -> (r: (u64, u64))
    ensures
        r.0 == set & !UNBLOCKABLE,
        r.1 == (set & !UNBLOCKABLE) | UNBLOCKABLE,
{
    let s = set & !UNBLOCKABLE;
    (s, s | UNBLOCKABLE)
}

/// syscall rt_sigtimedwait, once woken: the number of the waited-for signal
/// taken from the queue, or `EAGAIN` when none came.
pub fn sys_rt_sigtimedwait(taken: Option<usize>) -> (r: SysResult)
    requires
        taken matches Some(s) ==> s <= SIGRTMAX,
    ensures
        r == (match taken {
            Some(s) => Ok::<isize, SysError>(s as isize),
            None => Err::<isize, SysError>(SysError::EAGAIN),
        }),
{
    match taken {
        Some(s) => Ok(s as isize),
        None => Err(SysError::EAGAIN),
    }
}

/// The signals that wake an interruptible task waiting with mask `sigs`:
/// `SIGKILL` and `SIGSTOP` always do.
pub fn set_wake_up_sigs(sigs: u64) -> (r: u64)
    ensures
        r == sigs | UNBLOCKABLE,
{
    sigs | UNBLOCKABLE
}

/// Whether a wait with mask `mask` is cut short by signals: some pending
/// signal is not in the mask.
pub fn interrupted_by_signal(pending: u64, mask: u64) -> (r: bool)
    ensures
        r == (pending & !mask != 0),
{
    pending & !mask != 0
}

/// The thread of a process that takes a process-wide signal: the first
/// whose blocked set (`blocked[i]`) lacks it, else the first thread.
pub fn recv_sigs_process_level(blocked: &Vec<u64>, signo: usize) -> (r: usize)
    requires
        blocked@.len() > 0,
        1 <= signo <= SIGRTMAX,
    ensures
        r < blocked@.len(),
        (exists|i: int| 0 <= i < blocked@.len() && blocked@[i] & sig_bit(signo as int) == 0) ==> blocked@[r as int]
            & sig_bit(signo as int) == 0 && forall|j: int| 0 <= j < r ==> blocked@[j] & sig_bit(signo as int) != 0,
        (forall|i: int| 0 <= i < blocked@.len() ==> blocked@[i] & sig_bit(signo as int) != 0) ==> r == 0,
{
    let bit = sig_bit_of(signo);
    let mut i: usize = 0;
    while i < blocked.len()
        invariant
            i <= blocked@.len(),
            bit == sig_bit(signo as int),
            forall|j: int| 0 <= j < i ==> blocked@[j] & bit != 0,
        decreases blocked@.len() - i,
    {
        if blocked[i] & bit == 0 {
            return i;
        }
        i = i + 1;
    }
    0
}

/// The blocked set while a user handler for `signo` runs: the signal
/// itself and the handler's mask are added.
pub fn handler_blocked(blocked: u64, signo: usize, sa_mask: u64) -> (r: u64)
    requires
        1 <= signo <= SIGRTMAX,
    ensures
        r == (blocked | sig_bit(signo as int)) | sa_mask,
{
    (blocked | sig_bit_of(signo)) | sa_mask
}

/// Handler flag: pass the signal information and context to the handler.
pub const SA_SIGINFO: usize = 0x4;
/// Handler flag: restart an interrupted system call.
pub const SA_RESTART: usize = 0x10000000;

/// The user stack and registers set up to run a user handler.
#[derive(Clone, Copy, Debug, PartialEq, Eq, Structural)]
pub struct SignalFrame {
    /// The blocked set while the handler runs.
    pub blocked: u64,
    /// Where the saved context (holding the old blocked set) goes.
    pub ucontext_at: usize,
    /// Where the signal information goes, with `SA_SIGINFO`; the handler
    /// then gets the saved context's address as second argument and this
    /// one as third.
    pub siginfo_at: Option<usize>,
    /// The stack pointer the handler starts with.
    pub sp: usize,
    /// The handler's address, where it starts.
    pub pc: usize,
    /// The handler's first argument: the signal number.
    pub arg0: usize,
}

/// How a dequeued signal is delivered.
#[derive(Clone, Copy, Debug, PartialEq, Eq, Structural)]
pub enum SignalDelivery {
    /// No signal was pending.
    Nothing,
    /// Run the user's handler with this frame (its return goes to the
    /// signal-return trampoline); `restart` says whether an interrupted
    /// call is restarted.
    User { frame: SignalFrame, restart: bool },
    /// Run the kernel's handler for the signal.
    Kernel { restart: bool },
}

/// The delivery of the signal taken from the queue (TaskControlBlock::
/// check_and_handle), for its handler (address, whether it is the user's,
/// its flags and mask), the blocked set, the user stack pointer and the
/// sizes of the saved context and of the signal information: a user
/// handler gets the saved context below the stack pointer and, with
/// `SA_SIGINFO`, the signal information below that, the signal and its
/// mask blocked, and the signal number as first argument.
pub fn check_and_handle(
    signo: Option<usize>,
    handler: usize,
    is_user: bool,
    sa_flags: usize,
    sa_mask: u64,
    blocked: u64,
    sp: usize,
    ucontext_size: usize,
    siginfo_size: usize,
) -> (r: SignalDelivery)
    requires
        signo matches Some(s) ==> 1 <= s <= SIGRTMAX,
        sp >= ucontext_size + siginfo_size,
    ensures
        signo is None ==> r == SignalDelivery::Nothing,
        signo matches Some(s) ==> (if is_user {
            r == (SignalDelivery::User {
                frame: SignalFrame {
                    blocked: (blocked | sig_bit(s as int)) | sa_mask,
                    ucontext_at: (sp - ucontext_size) as usize,
                    siginfo_at: if sa_flags & SA_SIGINFO != 0 {
                        Some((sp - ucontext_size - siginfo_size) as usize)
                    } else {
                        None
                    },
                    sp: if sa_flags & SA_SIGINFO != 0 {
                        (sp - ucontext_size - siginfo_size) as usize
                    } else {
                        (sp - ucontext_size) as usize
                    },
                    pc: handler,
                    arg0: s,
                },
                restart: sa_flags & SA_RESTART != 0,
            })
        } else {
            r == (SignalDelivery::Kernel { restart: sa_flags & SA_RESTART != 0 })
        }),
{
    let s = match signo {
        None => {
            return SignalDelivery::Nothing;
        },
        Some(s) => s,
    };
    let restart = sa_flags & SA_RESTART != 0;
    if !is_user {
        return SignalDelivery::Kernel { restart };
    }
    let new_blocked = handler_blocked(blocked, s, sa_mask);
    let uc = sp - ucontext_size;
    let mut new_sp = uc;
    let mut info = None;
    if sa_flags & SA_SIGINFO != 0 {
        new_sp = new_sp - siginfo_size;
        info = Some(new_sp);
    }
    SignalDelivery::User {
        frame: SignalFrame { blocked: new_blocked, ucontext_at: uc, siginfo_at: info, sp: new_sp, pc: handler, arg0: s },
        restart,
    }
}

/// Whether a task that receives signal `signo` is woken (TaskControlBlock::
/// recv_sigs): when the signal is one of its wake-up signals and it is
/// waiting interruptibly, or is a zombie finishing its exit.
pub fn recv_sigs(wake_sigs: u64, signo: usize, interruptable: bool, zombie: bool) -> (r: bool)
    requires
        1 <= signo <= SIGRTMAX,
    ensures
        r == (wake_sigs & sig_bit(signo as int) != 0 && (interruptable || zombie)),
{
    let wanted = wake_sigs & sig_bit_of(signo) != 0;
    if wanted && interruptable {
        true
    } else if wanted && zombie {
        true
    } else {
        false
    }
}

/// The child-exit signal.
pub const SIGCHLD: usize = 17;

/// The signal a task's parent gets when the task exits
/// (TaskControlBlock::notify_parent): `SIGCHLD`, when the parent still
/// exists.
pub fn notify_parent(parent_alive: bool) -> (r: Option<usize>)
    ensures
        r == (if parent_alive {
            Some(SIGCHLD)
        } else {
            None::<usize>
        }),
{
    if parent_alive {
        Some(SIGCHLD)
    } else {
        None
    }
}

/// syscall rt_sigpending: the set of pending signals (`pending`) is what is
/// written to the user's set; a set that cannot be written is `EFAULT`.
pub fn sys_rt_sigpending(pending: u64, writable: bool) -> (r: Result<u64, SysError>)
    ensures
        r == (if writable {
            Ok::<u64, SysError>(pending)
        } else {
            Err::<u64, SysError>(SysError::EFAULT)
        }),
{
    if writable {
        Ok(pending)
    } else {
        Err(SysError::EFAULT)
    }
}

/// `SIGKILL` and `SIGSTOP` cannot be blocked by `rt_sigsuspend`: whatever
/// the mask given, the blocked set while suspended holds neither.
pub proof fn lemma_sigsuspend_never_blocks_kill_stop(mask: u64)
    ensures
        (mask & !UNBLOCKABLE) & UNBLOCKABLE == 0,
{
    assert((mask & !0x4_0100u64) & 0x4_0100u64 == 0) by (bit_vector);
}

/// `SIGKILL` and `SIGSTOP` always wake an interruptible task, whatever
/// the wake-up set asked for.
pub proof fn lemma_kill_stop_always_wake(sigs: u64)
    ensures
        (sigs | UNBLOCKABLE) & UNBLOCKABLE == UNBLOCKABLE,
{
    assert((sigs | 0x4_0100u64) & 0x4_0100u64 == 0x4_0100u64) by (bit_vector);
}

/// `rt_sigtimedwait` never waits for `SIGKILL` or `SIGSTOP`, but is always
/// woken by them.
pub proof fn lemma_sigtimedwait_sets(set: u64)
    ensures
        (set & !UNBLOCKABLE) & UNBLOCKABLE == 0,
        ((set & !UNBLOCKABLE) | UNBLOCKABLE) & UNBLOCKABLE == UNBLOCKABLE,
{
    assert((set & !0x4_0100u64) & 0x4_0100u64 == 0) by (bit_vector);
    assert(((set & !0x4_0100u64) | 0x4_0100u64) & 0x4_0100u64 == 0x4_0100u64) by (bit_vector);
}

/// Unblocking a set right after blocking it leaves what was blocked
/// outside that set: `SIG_UNBLOCK` undoes `SIG_BLOCK` on signals that were
/// not blocked before.
pub proof fn lemma_block_then_unblock(blocked: u64, m: u64)
    ensures
        sigprocmask_spec(blocked, SIG_BLOCK, Some(Some(m))) matches Ok(b1) && sigprocmask_spec(
            b1,
            SIG_UNBLOCK,
            Some(Some(m)),
        ) == Ok::<u64, SysError>(blocked & !m),
        blocked & m == 0 ==> (sigprocmask_spec(blocked, SIG_BLOCK, Some(Some(m))) matches Ok(b1)
            && sigprocmask_spec(b1, SIG_UNBLOCK, Some(Some(m))) == Ok::<u64, SysError>(blocked)),
{
    assert((blocked | m) & !m == blocked & !m) by (bit_vector);
    assert(blocked & m == 0 ==> (blocked | m) & !m == blocked) by (bit_vector);
}

/// `SIG_SETMASK` makes the blocked set the mask given, whatever it was:
/// two tasks that set the same mask block the same signals.
pub proof fn lemma_setmask_replaces(a: u64, b: u64, m: u64)
    ensures
        sigprocmask_spec(a, SIG_SETMASK, Some(Some(m))) == sigprocmask_spec(b, SIG_SETMASK, Some(Some(m))),
        sigprocmask_spec(a, SIG_SETMASK, Some(Some(m))) == Ok::<u64, SysError>(m),
{
}

/// `SIG_BLOCK` adds the signals of the mask to those already blocked: from
/// any blocked set `b`, the new blocked set holds every signal of `m` and
/// every signal of `b`, and no other.
pub proof fn lemma_block_adds_mask(b: u64, m: u64)
    ensures
        sigprocmask_spec(b, SIG_BLOCK, Some(Some(m))) matches Ok(r) && r & m == m && r & b == b && r
            & !(b | m) == 0,
        sigprocmask_spec(b, SIG_BLOCK, Some(Some(m))) == Ok::<u64, SysError>(b | m),
{
    assert((b | m) & m == m) by (bit_vector);
    assert((b | m) & b == b) by (bit_vector);
    assert((b | m) & !(b | m) == 0) by (bit_vector);
}

/// `SIG_UNBLOCK` takes the signals of the mask out and keeps the others:
/// the new blocked set holds no signal of `m`, and exactly the signals of
/// `b` outside `m`.
pub proof fn lemma_unblock_removes_mask(b: u64, m: u64)
    ensures
        sigprocmask_spec(b, SIG_UNBLOCK, Some(Some(m))) matches Ok(r) && r & m == 0 && r & !m == b
            & !m && r & !b == 0,
{
    assert((b & !m) & m == 0) by (bit_vector);
    assert((b & !m) & !m == b & !m) by (bit_vector);
    assert((b & !m) & !b == 0) by (bit_vector);
}

} // verus!
