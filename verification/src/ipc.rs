//! System V shared memory: getting, attaching, detaching and controlling
//! segments.

use vstd::prelude::*;
use crate::errno::SysError;

verus! {

/// `shmctl` command: remove the segment.
pub const IPC_RMID: i32 = 0;
/// `shmctl` command: set the segment's attributes.
pub const IPC_SET: i32 = 1;
/// `shmctl` command: read the segment's attributes.
pub const IPC_STAT: i32 = 2;

/// What `shmctl` does to the segment.
#[derive(Clone, Copy, Debug, PartialEq, Eq, Structural)]
pub enum ShmctlAction {
    /// Copy the segment's attributes to the user's record.
    Stat,
    /// Remove the segment.
    Remove,
}

/// syscall shmctl, given whether segment `shmid` exists: reading and
/// removing need the segment (`ENOENT`); setting and other commands are
/// `EINVAL`.
pub fn sys_shmctl(shmid: i32, op: i32, exists: bool) -> (r: Result<ShmctlAction, SysError>)
    ensures
        op == IPC_STAT ==> r == (if exists {
            Ok::<ShmctlAction, SysError>(ShmctlAction::Stat)
        } else {
            Err::<ShmctlAction, SysError>(SysError::ENOENT)
        }),
        op == IPC_RMID ==> r == (if exists {
            Ok::<ShmctlAction, SysError>(ShmctlAction::Remove)
        } else {
            Err::<ShmctlAction, SysError>(SysError::ENOENT)
        }),
        op != IPC_STAT && op != IPC_RMID ==> r == Err::<ShmctlAction, SysError>(SysError::EINVAL),
{
    if op == IPC_STAT {
        if exists {
            Ok(ShmctlAction::Stat)
        } else {
            Err(SysError::ENOENT)
        }
    } else if op == IPC_RMID {
        if exists {
            Ok(ShmctlAction::Remove)
        } else {
            Err(SysError::ENOENT)
        }
    } else {
        Err(SysError::EINVAL)
    }
}

/// The key that always makes a new segment.
pub const IPC_PRIVATE: i32 = 0;
/// `shmget` flag: create the segment.
pub const IPC_CREAT: i32 = 0x200;
/// `shmget` flag: with `IPC_CREAT`, fail if it exists.
pub const IPC_EXCL: i32 = 0x400;
/// `shmat` flag: attach read-only.
pub const SHM_RDONLY: i32 = 0x1000;
/// `shmat` flag: round the address down to a page.
pub const SHM_RND: i32 = 0x2000;
/// `shmat` flag: allow execution.
pub const SHM_EXEC: i32 = 0x8000;

/// What `shmget` does.
#[derive(Clone, Copy, Debug, PartialEq, Eq, Structural)]
pub enum ShmGet {
    /// Make a new private segment of this size; its id is returned.
    Private(usize),
    /// Use the existing segment with this key, which is returned.
    Existing(i32),
    /// Make a segment of this size under the key; its id is returned.
    Create(usize),
}

/// syscall shmget, given the size of the segment with the key (`None`:
/// none): the size is rounded up to whole pages. The private key always
/// makes a segment; an existing segment is `EEXIST` under
/// `IPC_CREAT | IPC_EXCL` and `EINVAL` when smaller than asked; a missing
/// one is made under `IPC_CREAT`, else `ENOENT`.
pub fn sys_shmget(key: i32, size: usize, shmflg: i32, existing: Option<usize>) -> (r: Result<ShmGet, SysError>)
    requires
        1 <= size <= usize::MAX - 4095,
    ensures
        ({
            let rounded = ((size + 4095) / 4096 * 4096) as usize;
            r == (if key == IPC_PRIVATE {
                Ok::<ShmGet, SysError>(ShmGet::Private(rounded))
            } else {
                match existing {
                    Some(segsz) => if shmflg & IPC_CREAT != 0 && shmflg & IPC_EXCL != 0 {
                        Err::<ShmGet, SysError>(SysError::EEXIST)
                    } else if segsz < size {
                        Err::<ShmGet, SysError>(SysError::EINVAL)
                    } else {
                        Ok::<ShmGet, SysError>(ShmGet::Existing(key))
                    },
                    None => if shmflg & IPC_CREAT != 0 {
                        Ok::<ShmGet, SysError>(ShmGet::Create(rounded))
                    } else {
                        Err::<ShmGet, SysError>(SysError::ENOENT)
                    },
                }
            })
        }),
{
    let x = size - 1 + 4096;
    let rounded = x & !0xfffusize;
    assert(rounded == x - x % 4096) by (bit_vector)
        requires
            rounded == x & !0xfffusize,
    ;
    if key == IPC_PRIVATE {
        return Ok(ShmGet::Private(rounded));
    }
    match existing {
        Some(segsz) => {
            if shmflg & IPC_CREAT != 0 && shmflg & IPC_EXCL != 0 {
                return Err(SysError::EEXIST);
            }
            if segsz < size {
                return Err(SysError::EINVAL);
            }
            Ok(ShmGet::Existing(key))
        },
        None => {
            if shmflg & IPC_CREAT != 0 {
                Ok(ShmGet::Create(rounded))
            } else {
                Err(SysError::ENOENT)
            }
        },
    }
}

/// How a segment is attached.
#[derive(Clone, Copy, Debug, PartialEq, Eq, Structural)]
pub struct ShmAttach {
    /// The address asked for, rounded down to a page (zero: anywhere).
    pub addr: usize,
    /// The segment's size.
    pub size: usize,
    /// Writable.
    pub write: bool,
    /// Executable.
    pub execute: bool,
}

/// syscall shmat, given the size of segment `shmid` (`None`: no such
/// segment, `EINVAL`): an address off a page boundary is `EINVAL` unless
/// `SHM_RND` rounds it down. The mapping is readable, writable unless
/// `SHM_RDONLY`, and executable with `SHM_EXEC`.
pub fn sys_shmat(shmaddr: usize, shmflg: i32, segment: Option<usize>) -> (r: Result<ShmAttach, SysError>)
    ensures
        r == (if shmaddr % 4096 != 0 && shmflg & SHM_RND == 0 {
            Err::<ShmAttach, SysError>(SysError::EINVAL)
        } else {
            match segment {
                None => Err::<ShmAttach, SysError>(SysError::EINVAL),
                Some(size) => Ok::<ShmAttach, SysError>(
                    ShmAttach {
                        addr: (shmaddr - shmaddr % 4096) as usize,
                        size,
                        write: shmflg & SHM_RDONLY == 0,
                        execute: shmflg & SHM_EXEC != 0,
                    },
                ),
            }
        }),
{
    if shmaddr % 4096 != 0 && shmflg & SHM_RND == 0 {
        return Err(SysError::EINVAL);
    }
    let addr = shmaddr - shmaddr % 4096;
    match segment {
        None => Err(SysError::EINVAL),
        Some(size) => Ok(ShmAttach { addr, size, write: shmflg & SHM_RDONLY == 0, execute: shmflg & SHM_EXEC != 0 }),
    }
}

/// syscall shmdt, for the area at `shmaddr` (`None`: no area; `Some(None)`:
/// an area not backed by a segment): an address off a page boundary, no
/// area, or an area of no segment is `EINVAL`; otherwise the area is
/// unmapped and the segment (returned) detached.
pub fn sys_shmdt(shmaddr: usize, area: Option<Option<usize>>) -> (r: Result<usize, SysError>)
    ensures
        r == (if shmaddr % 4096 != 0 {
            Err::<usize, SysError>(SysError::EINVAL)
        } else {
            match area {
                Some(Some(id)) => Ok::<usize, SysError>(id),
                _ => Err::<usize, SysError>(SysError::EINVAL),
            }
        }),
{
    if shmaddr % 4096 != 0 {
        return Err(SysError::EINVAL);
    }
    match area {
        Some(Some(id)) => Ok(id),
        _ => Err(SysError::EINVAL),
    }
}

} // verus!
