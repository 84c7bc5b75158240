//! Resource limits (`getrlimit`/`prlimit64`).

use vstd::prelude::*;

verus! {

/// "No limit".
pub const RLIM_INFINITY: usize = usize::MAX;

/// A resource limit.
#[derive(Clone, Copy, Debug, PartialEq, Eq, Structural)]
pub struct RLimit {
    /// Soft limit: the kernel enforces it for the corresponding resource.
    pub rlim_cur: usize,
    /// Hard limit (ceiling for `rlim_cur`).
    pub rlim_max: usize,
}

impl RLimit {
    /// A limit with the given soft value and no hard ceiling.
    pub fn new(rlim_cur: usize) -> (r: Self)
        ensures
            r.rlim_cur == rlim_cur,
            r.rlim_max == RLIM_INFINITY,
    {
        Self { rlim_cur, rlim_max: RLIM_INFINITY }
    }
}

/// The resources a limit can be asked for (`RLIMIT_*`).
#[derive(Clone, Copy, Debug, PartialEq, Eq, Structural)]
pub enum Resource {
    /// Per-process CPU limit, in seconds.
    CPU,
    /// Largest file that can be created, in bytes.
    FSIZE,
    /// Maximum size of data segment, in bytes.
    DATA,
    /// Maximum size of stack segment, in bytes.
    STACK,
    /// Largest core file that can be created, in bytes.
    CORE,
    /// Largest resident set size, in bytes.
    RSS,
    /// Number of processes.
    NPROC,
    /// Number of open files.
    NOFILE,
    /// Locked-in-memory address space.
    MEMLOCK,
    /// Address space limit.
    AS,
    /// Maximum number of file locks.
    LOCKS,
    /// Maximum number of pending signals.
    SIGPENDING,
    /// Maximum bytes in POSIX message queues.
    MSGQUEUE,
    /// Maximum nice priority allowed to raise to.
    NICE,
    /// Maximum realtime priority allowed for non-privileged processes.
    RTPRIO,
    /// Maximum CPU time in microseconds a real-time task may consume without blocking.
    RTTIME,
}

impl Resource {
    /// The number of this resource.
    pub open spec fn spec_repr(self) -> int {
        match self {
            Resource::CPU => 0,
            Resource::FSIZE => 1,
            Resource::DATA => 2,
            Resource::STACK => 3,
            Resource::CORE => 4,
            Resource::RSS => 5,
            Resource::NPROC => 6,
            Resource::NOFILE => 7,
            Resource::MEMLOCK => 8,
            Resource::AS => 9,
            Resource::LOCKS => 10,
            Resource::SIGPENDING => 11,
            Resource::MSGQUEUE => 12,
            Resource::NICE => 13,
            Resource::RTPRIO => 14,
            Resource::RTTIME => 15,
        }
    }

    /// The resource with number `v`, if there is one.
    pub fn from_repr(v: i32) -> (r: Option<Resource>)
        ensures
            r matches Some(res) ==> res.spec_repr() == v,
            r is None <==> !(0 <= v < 16),
    {
        match v {
            0 => Some(Resource::CPU),
            1 => Some(Resource::FSIZE),
            2 => Some(Resource::DATA),
            3 => Some(Resource::STACK),
            4 => Some(Resource::CORE),
            5 => Some(Resource::RSS),
            6 => Some(Resource::NPROC),
            7 => Some(Resource::NOFILE),
            8 => Some(Resource::MEMLOCK),
            9 => Some(Resource::AS),
            10 => Some(Resource::LOCKS),
            11 => Some(Resource::SIGPENDING),
            12 => Some(Resource::MSGQUEUE),
            13 => Some(Resource::NICE),
            14 => Some(Resource::RTPRIO),
            15 => Some(Resource::RTTIME),
            _ => None,
        }
    }
}

} // verus!
