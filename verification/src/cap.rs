//! Linux capabilities (linux/capability.h).

use vstd::prelude::*;

verus! {

/// A capability.
#[derive(Clone, Copy, Debug, PartialEq, Eq, Structural)]
pub enum Capability {
    /// Override file ownership restrictions.
    Chown,
    /// Override all DAC access restrictions.
    DacOverride,
    /// Override file and directory read and search restrictions.
    DacReadSearch,
    /// Bypass permission checks that require the file owner's UID.
    Fowner,
    /// Bypass setuid/setgid bit restrictions.
    Fsetid,
    /// Bypass permission checks for sending signals.
    Kill,
    /// Allow manipulation of group identities.
    Setgid,
    /// Allow manipulation of user identities.
    Setuid,
    /// Modify capability sets.
    Setpcap,
    /// Modify immutable and append-only file attributes.
    LinuxImmutable,
    /// Bind sockets to privileged ports.
    NetBindService,
    /// Broadcast and listen to multicast.
    NetBroadcast,
    /// Network administration.
    NetAdmin,
    /// Use raw and packet sockets.
    NetRaw,
    /// Lock memory.
    IpcLock,
    /// Bypass IPC ownership checks.
    IpcOwner,
    /// Load and unload kernel modules.
    SysModule,
    /// Raw I/O access.
    SysRawio,
    /// Use chroot.
    SysChroot,
    /// Trace any process.
    SysPtrace,
    /// Configure process accounting.
    SysPacct,
    /// System administration.
    SysAdmin,
    /// Reboot the system.
    SysBoot,
    /// Raise priorities and set scheduling policies.
    SysNice,
    /// Override resource limits.
    SysResource,
    /// Set the system clock.
    SysTime,
    /// Configure terminal devices.
    SysTtyConfig,
    /// Create special files.
    Mknod,
    /// Take file leases.
    Lease,
    /// Write the audit log.
    AuditWrite,
    /// Configure auditing.
    AuditControl,
    /// Set file capabilities.
    Setfcap,
    /// Override mandatory access control.
    MacOverride,
    /// Administer mandatory access control.
    MacAdmin,
    /// Configure the kernel log.
    Syslog,
    /// Trigger system wake-ups.
    WakeAlarm,
    /// Block system suspend.
    BlockSuspend,
    /// Read the audit log.
    AuditRead,
    /// Privileged performance monitoring.
    Perfmon,
    /// Privileged BPF operations.
    Bpf,
    /// Checkpoint and restore operations.
    CheckpointRestore,
}

/// The number of the last capability (`CAP_LAST_CAP`).
pub const CAP_LAST_CAP: u32 = 40;

impl Capability {
    /// The number of the capability.
    pub open spec fn spec_value(self) -> u32 {
        match self {
            Capability::Chown => 0,
            Capability::DacOverride => 1,
            Capability::DacReadSearch => 2,
            Capability::Fowner => 3,
            Capability::Fsetid => 4,
            Capability::Kill => 5,
            Capability::Setgid => 6,
            Capability::Setuid => 7,
            Capability::Setpcap => 8,
            Capability::LinuxImmutable => 9,
            Capability::NetBindService => 10,
            Capability::NetBroadcast => 11,
            Capability::NetAdmin => 12,
            Capability::NetRaw => 13,
            Capability::IpcLock => 14,
            Capability::IpcOwner => 15,
            Capability::SysModule => 16,
            Capability::SysRawio => 17,
            Capability::SysChroot => 18,
            Capability::SysPtrace => 19,
            Capability::SysPacct => 20,
            Capability::SysAdmin => 21,
            Capability::SysBoot => 22,
            Capability::SysNice => 23,
            Capability::SysResource => 24,
            Capability::SysTime => 25,
            Capability::SysTtyConfig => 26,
            Capability::Mknod => 27,
            Capability::Lease => 28,
            Capability::AuditWrite => 29,
            Capability::AuditControl => 30,
            Capability::Setfcap => 31,
            Capability::MacOverride => 32,
            Capability::MacAdmin => 33,
            Capability::Syslog => 34,
            Capability::WakeAlarm => 35,
            Capability::BlockSuspend => 36,
            Capability::AuditRead => 37,
            Capability::Perfmon => 38,
            Capability::Bpf => 39,
            Capability::CheckpointRestore => 40,
        }
    }

    /// The number of the capability.
    pub fn value(self) -> (r: u32)
        ensures
            r == self.spec_value(),
    {
        match self {
            Capability::Chown => 0,
            Capability::DacOverride => 1,
            Capability::DacReadSearch => 2,
            Capability::Fowner => 3,
            Capability::Fsetid => 4,
            Capability::Kill => 5,
            Capability::Setgid => 6,
            Capability::Setuid => 7,
            Capability::Setpcap => 8,
            Capability::LinuxImmutable => 9,
            Capability::NetBindService => 10,
            Capability::NetBroadcast => 11,
            Capability::NetAdmin => 12,
            Capability::NetRaw => 13,
            Capability::IpcLock => 14,
            Capability::IpcOwner => 15,
            Capability::SysModule => 16,
            Capability::SysRawio => 17,
            Capability::SysChroot => 18,
            Capability::SysPtrace => 19,
            Capability::SysPacct => 20,
            Capability::SysAdmin => 21,
            Capability::SysBoot => 22,
            Capability::SysNice => 23,
            Capability::SysResource => 24,
            Capability::SysTime => 25,
            Capability::SysTtyConfig => 26,
            Capability::Mknod => 27,
            Capability::Lease => 28,
            Capability::AuditWrite => 29,
            Capability::AuditControl => 30,
            Capability::Setfcap => 31,
            Capability::MacOverride => 32,
            Capability::MacAdmin => 33,
            Capability::Syslog => 34,
            Capability::WakeAlarm => 35,
            Capability::BlockSuspend => 36,
            Capability::AuditRead => 37,
            Capability::Perfmon => 38,
            Capability::Bpf => 39,
            Capability::CheckpointRestore => 40,
        }
    }

    /// The last supported capability.
    pub fn last() -> (r: Capability)
        ensures
            r.spec_value() == CAP_LAST_CAP,
    {
        Capability::CheckpointRestore
    }

    /// Whether `value` is the number of a capability (`cap_valid`).
    pub fn is_valid(value: u32) -> (r: bool)
        ensures
            r == (value <= CAP_LAST_CAP),
    {
        value <= CAP_LAST_CAP
    }

    /// Index of the capability's word in a capability set (`CAP_TO_INDEX`).
    pub fn to_index(self) -> (r: usize)
        ensures
            r == self.spec_value() / 32,
    {
        let v = self.value();
        assert(v >> 5u32 == v / 32) by (bit_vector);
        (v >> 5u32) as usize
    }

    /// Mask of the capability's bit in its word (`CAP_TO_MASK`).
    pub fn to_mask(self) -> (r: u32)
        ensures
            r == 1u32 << (self.spec_value() % 32),
    {
        let v = self.value();
        assert(v & 31 == v % 32) by (bit_vector);
        1u32 << (v & 31)
    }

    /// The capability with number `value`, if it is valid.
    pub fn from_u32(value: u32) -> (r: Option<Capability>)
        ensures
            r matches Some(c) ==> c.spec_value() == value,
            r is None <==> value > CAP_LAST_CAP,
    {
        match value {
            0 => Some(Capability::Chown),
            1 => Some(Capability::DacOverride),
            2 => Some(Capability::DacReadSearch),
            3 => Some(Capability::Fowner),
            4 => Some(Capability::Fsetid),
            5 => Some(Capability::Kill),
            6 => Some(Capability::Setgid),
            7 => Some(Capability::Setuid),
            8 => Some(Capability::Setpcap),
            9 => Some(Capability::LinuxImmutable),
            10 => Some(Capability::NetBindService),
            11 => Some(Capability::NetBroadcast),
            12 => Some(Capability::NetAdmin),
            13 => Some(Capability::NetRaw),
            14 => Some(Capability::IpcLock),
            15 => Some(Capability::IpcOwner),
            16 => Some(Capability::SysModule),
            17 => Some(Capability::SysRawio),
            18 => Some(Capability::SysChroot),
            19 => Some(Capability::SysPtrace),
            20 => Some(Capability::SysPacct),
            21 => Some(Capability::SysAdmin),
            22 => Some(Capability::SysBoot),
            23 => Some(Capability::SysNice),
            24 => Some(Capability::SysResource),
            25 => Some(Capability::SysTime),
            26 => Some(Capability::SysTtyConfig),
            27 => Some(Capability::Mknod),
            28 => Some(Capability::Lease),
            29 => Some(Capability::AuditWrite),
            30 => Some(Capability::AuditControl),
            31 => Some(Capability::Setfcap),
            32 => Some(Capability::MacOverride),
            33 => Some(Capability::MacAdmin),
            34 => Some(Capability::Syslog),
            35 => Some(Capability::WakeAlarm),
            36 => Some(Capability::BlockSuspend),
            37 => Some(Capability::AuditRead),
            38 => Some(Capability::Perfmon),
            39 => Some(Capability::Bpf),
            40 => Some(Capability::CheckpointRestore),
            _ => None,
        }
    }

    /// All capabilities, in order of their numbers.
    pub fn all() -> (r: Vec<Capability>)
        ensures
            r@.len() == 41,
            forall|i: int| 0 <= i < 41 ==> #[trigger] r@[i].spec_value() == i,
    {
        let mut v: Vec<Capability> = Vec::new();
        let mut i: u32 = 0;
        while i <= CAP_LAST_CAP
            invariant
                i <= CAP_LAST_CAP + 1,
                v@.len() == i,
                forall|j: int| 0 <= j < i ==> #[trigger] v@[j].spec_value() == j,
            decreases CAP_LAST_CAP + 1 - i,
        {
            match Self::from_u32(i) {
                Some(c) => v.push(c),
                None => {},
            }
            i = i + 1;
        }
        v
    }
}

/// Distinct capabilities have distinct numbers.
pub proof fn lemma_value_injective(a: Capability, b: Capability)
    ensures
        a.spec_value() == b.spec_value() <==> a == b,
{
}

} // verus!
