//! Memory-mapping system calls: the checks and choices of `mmap`,
//! `mremap`, `munmap` and `mprotect` made before the address space is
//! touched, and how `process_vm_readv`/`process_vm_writev` pair the two
//! sides' buffers and split each copy at page boundaries.

use vstd::prelude::*;
use crate::errno::SysError;
use crate::fd_table::{slot_used, FdTable, FileId};
use crate::sys_fs::IoVec;

verus! {

/// The size of a page.
pub const PAGE_SIZE: usize = 4096;

/// `mmap` flag: share changes.
pub const MAP_SHARED: i32 = 0x01;
/// `mmap` flag: changes are private.
pub const MAP_PRIVATE: i32 = 0x02;
/// `mmap` flag: share changes and validate the flags.
pub const MAP_SHARED_VALIDATE: i32 = 0x03;
/// The bits of the sharing type.
pub const MAP_TYPE_MASK: i32 = 0x03;
/// `mmap` flag: place the mapping exactly at the address.
pub const MAP_FIXED: i32 = 0x10;
/// `mmap` flag: no file behind the mapping.
pub const MAP_ANONYMOUS: i32 = 0x20;
/// `mmap` flag: no swap reservation.
pub const MAP_NORESERVE: i32 = 0x4000;

/// `mremap` flag: the mapping may move.
pub const MREMAP_MAYMOVE: i32 = 1;
/// `mremap` flag: move to the given address.
pub const MREMAP_FIXED: i32 = 2;
/// `mremap` flag: leave the old mapping in place.
pub const MREMAP_DONTUNMAP: i32 = 4;

/// What an `mmap` maps.
#[derive(Clone, Copy, Debug, PartialEq, Eq, Structural)]
pub enum MmapKind {
    /// Shared anonymous memory (a new shared-memory segment).
    SharedAnon,
    /// A shared mapping of a file.
    SharedFile(FileId),
    /// Private anonymous memory.
    PrivateAnon,
    /// A private mapping of a file.
    PrivateFile(FileId),
    /// Neither shared nor private: the call fails with `EINVAL`.
    Invalid,
}

/// How an `mmap` goes on once its arguments are checked.
#[derive(Clone, Copy, Debug, PartialEq, Eq, Structural)]
pub struct MmapPlan {
    /// Unmap the range first (`MAP_FIXED`).
    pub unmap_first: bool,
    /// The protection bits kept (read, write, execute).
    pub prot: i32,
    /// What is mapped.
    pub kind: MmapKind,
}

/// The plan of `mmap` on descriptor table `slots`.
pub open spec fn mmap_result(
    slots: Seq<Option<crate::fd_table::FdInfo>>,
    addr: usize,
    length: usize,
    prot: i32,
    flags: i32,
    fd: usize,
    offset: usize,
) -> Result<MmapPlan, SysError> {
    let anon = flags & MAP_ANONYMOUS != 0;
    if !anon && !slot_used(slots, fd as int) {
        Err(SysError::EBADF)
    } else if length == 0 || (addr == 0 && flags & MAP_FIXED != 0) || offset % PAGE_SIZE != 0 {
        Err(SysError::EINVAL)
    } else {
        let kind = if flags & MAP_TYPE_MASK == MAP_SHARED {
            if anon {
                MmapKind::SharedAnon
            } else {
                MmapKind::SharedFile(slots[fd as int].unwrap().file)
            }
        } else if flags & MAP_TYPE_MASK == MAP_PRIVATE {
            if anon {
                MmapKind::PrivateAnon
            } else {
                MmapKind::PrivateFile(slots[fd as int].unwrap().file)
            }
        } else {
            MmapKind::Invalid
        };
        Ok(MmapPlan { unmap_first: flags & MAP_FIXED != 0, prot: prot & 7, kind })
    }
}

/// syscall mmap, before the address space is changed: a mapping of a file
/// needs an open descriptor (`EBADF`); a zero length, a fixed mapping at
/// address zero or an offset off a page boundary is `EINVAL`. A fixed
/// mapping first unmaps the range; then the sharing type picks what is
/// mapped (neither shared nor private fails, after that unmap).
pub fn sys_mmap(table: &FdTable, addr: usize, length: usize, prot: i32, flags: i32, fd: usize, offset: usize) -> (r:
    Result<MmapPlan, SysError>)
    ensures
        r == mmap_result(table.slots(), addr, length, prot, flags, fd, offset),
{
    let anon = flags & MAP_ANONYMOUS != 0;
    let mut file: FileId = 0;
    if !anon {
        match table.get_file(fd) {
            Ok(f) => {
                file = f;
            },
            Err(e) => {
                return Err(e);
            },
        }
    }
    if length == 0 {
        return Err(SysError::EINVAL);
    } else if addr == 0 && flags & MAP_FIXED != 0 {
        return Err(SysError::EINVAL);
    } else if offset % PAGE_SIZE != 0 {
        return Err(SysError::EINVAL);
    }
    let kind = if flags & MAP_TYPE_MASK == MAP_SHARED {
        if anon {
            MmapKind::SharedAnon
        } else {
            MmapKind::SharedFile(file)
        }
    } else if flags & MAP_TYPE_MASK == MAP_PRIVATE {
        if anon {
            MmapKind::PrivateAnon
        } else {
            MmapKind::PrivateFile(file)
        }
    } else {
        MmapKind::Invalid
    };
    Ok(MmapPlan { unmap_first: flags & MAP_FIXED != 0, prot: prot & 7, kind })
}

/// What backs a mapped area.
#[derive(Clone, Copy, Debug, PartialEq, Eq, Structural)]
pub enum VmBacking {
    /// A file.
    File(FileId),
    /// A shared-memory segment.
    Shm(usize),
    /// Nothing: anonymous memory.
    Anon,
}

/// What `mremap` needs to know of the area that holds the old address.
#[derive(Clone, Copy, Debug, PartialEq, Eq, Structural)]
pub struct MremapArea {
    /// The end of the area.
    pub end: usize,
    /// It was made by `mmap`.
    pub is_mmap: bool,
    /// Its `mmap` flags hold both `MAP_PRIVATE` and `MAP_ANONYMOUS`.
    pub private_anon: bool,
    /// It is mapped shared.
    pub shared: bool,
    /// What backs it.
    pub backing: VmBacking,
}

/// How an `mremap` goes on.
#[derive(Clone, Copy, Debug, PartialEq, Eq, Structural)]
pub enum MremapPlan {
    /// Shrink or extend the area in place from `old_size` to `new_size`;
    /// the call returns `old_size`.
    InPlace { old_size: usize, new_size: usize },
    /// Map `new_size` bytes with the same backing at `at` (zero: anywhere),
    /// move the pages there, and unmap the old range unless `keep_old`;
    /// the call returns the new address.
    Move { at: usize, new_size: usize, backing: VmBacking, keep_old: bool },
}

/// The size `mremap` works with for a given size: one less than a page
/// more, with the page-size bit cleared.
pub open spec fn mremap_size(size: usize) -> usize {
    ((size - 1 + PAGE_SIZE) as usize) & !PAGE_SIZE
}

/// The plan of `mremap`; `tail_free` says whether the range after the old
/// one up to the new size is free, `target_free` whether the requested
/// new range is.
pub open spec fn mremap_result(
    old_addr: usize,
    old_size: usize,
    new_size: usize,
    flags: i32,
    new_address: usize,
    area: Option<MremapArea>,
    tail_free: bool,
    target_free: bool,
) -> Result<MremapPlan, SysError> {
    let os = mremap_size(old_size);
    let ns = mremap_size(new_size);
    if old_addr % PAGE_SIZE != 0 {
        Err(SysError::EINVAL)
    } else if flags & !7i32 != 0 {
        Err(SysError::EINVAL)
    } else if (flags & MREMAP_FIXED != 0 || flags & MREMAP_DONTUNMAP != 0) && flags & MREMAP_MAYMOVE == 0 {
        Err(SysError::EINVAL)
    } else if area is None {
        Err(SysError::EINVAL)
    } else {
        let a = area.unwrap();
        if a.end - old_addr < os || !a.is_mmap || (flags & MREMAP_DONTUNMAP != 0 && !a.private_anon) {
            Err(SysError::EINVAL)
        } else if (flags == 0 || flags == MREMAP_MAYMOVE) && (os >= ns || tail_free) {
            Ok(MremapPlan::InPlace { old_size: os, new_size: ns })
        } else if flags == 0 {
            Err(SysError::ENOMEM)
        } else if flags & MREMAP_FIXED != 0 && !target_free {
            Err(SysError::ENOMEM)
        } else {
            Ok(
                MremapPlan::Move {
                    at: if flags & MREMAP_FIXED != 0 {
                        new_address
                    } else {
                        0
                    },
                    new_size: ns,
                    backing: a.backing,
                    keep_old: flags & MREMAP_DONTUNMAP != 0,
                },
            )
        }
    }
}

/// syscall mremap, for the area that holds `old_addr` (`None`: no such
/// area): the old address must be page-aligned, the flags known, and
/// `MREMAP_FIXED` or `MREMAP_DONTUNMAP` come with `MREMAP_MAYMOVE`; the
/// area must reach the old size, be an `mmap` area, and for
/// `MREMAP_DONTUNMAP` be private and anonymous (`EINVAL` otherwise).
/// Without flags or with `MREMAP_MAYMOVE` alone, an area that shrinks, or
/// whose tail is free, is resized in place; without flags it cannot move
/// (`ENOMEM`). A fixed target that is not free is `ENOMEM`.
pub fn sys_mremap(
    old_addr: usize,
    old_size: usize,
    new_size: usize,
    flags: i32,
    new_address: usize,
    area: Option<MremapArea>,
    tail_free: bool,
    target_free: bool,
) -> (r: Result<MremapPlan, SysError>)
    requires
        1 <= old_size <= usize::MAX - PAGE_SIZE + 1,
        1 <= new_size <= usize::MAX - PAGE_SIZE + 1,
        area matches Some(a) ==> a.end >= old_addr,
        area matches Some(a) ==> (a.backing == VmBacking::Anon ==> !a.shared),
    ensures
        r == mremap_result(old_addr, old_size, new_size, flags, new_address, area, tail_free, target_free),
{
    if old_addr % PAGE_SIZE != 0 {
        return Err(SysError::EINVAL);
    }
    let os = (old_size - 1 + PAGE_SIZE) & !PAGE_SIZE;
    let ns = (new_size - 1 + PAGE_SIZE) & !PAGE_SIZE;
    if flags & !7i32 != 0 {
        return Err(SysError::EINVAL);
    }
    if (flags & MREMAP_FIXED != 0 || flags & MREMAP_DONTUNMAP != 0) && flags & MREMAP_MAYMOVE == 0 {
        return Err(SysError::EINVAL);
    }
    let a = match area {
        Some(a) => a,
        None => {
            return Err(SysError::EINVAL);
        },
    };
    if a.end - old_addr < os {
        return Err(SysError::EINVAL);
    }
    if !a.is_mmap {
        return Err(SysError::EINVAL);
    }
    if flags & MREMAP_DONTUNMAP != 0 && !a.private_anon {
        return Err(SysError::EINVAL);
    }
    if flags == 0 || flags == MREMAP_MAYMOVE {
        if os >= ns {
            return Ok(MremapPlan::InPlace { old_size: os, new_size: ns });
        }
        if tail_free {
            return Ok(MremapPlan::InPlace { old_size: os, new_size: ns });
        }
        if flags == 0 {
            return Err(SysError::ENOMEM);
        }
    }
    let at = if flags & MREMAP_FIXED != 0 {
        if !target_free {
            return Err(SysError::ENOMEM);
        }
        new_address
    } else {
        0
    };
    Ok(MremapPlan::Move { at, new_size: ns, backing: a.backing, keep_old: flags & MREMAP_DONTUNMAP != 0 })
}

/// The most buffers `process_vm_readv` and `process_vm_writev` take on
/// each side.
pub const IOV_MAX: usize = 1024;

/// The checks of `process_vm_readv` and `process_vm_writev` before any
/// buffer is read: more than `IOV_MAX` buffers on a side, or flags, are
/// `EINVAL`; a target task not found is `ESRCH`.
pub fn process_vm_check(liovcnt: usize, riovcnt: usize, flags: usize, found: bool) -> (r: Result<(), SysError>)
    ensures
        r == (if liovcnt > IOV_MAX || riovcnt > IOV_MAX || flags != 0 {
            Err::<(), SysError>(SysError::EINVAL)
        } else if !found {
            Err::<(), SysError>(SysError::ESRCH)
        } else {
            Ok::<(), SysError>(())
        }),
{
    if liovcnt > IOV_MAX || riovcnt > IOV_MAX || flags != 0 {
        return Err(SysError::EINVAL);
    }
    if !found {
        return Err(SysError::ESRCH);
    }
    Ok(())
}

/// The total length of the first `n` buffers of `v`.
pub open spec fn iov_total(v: Seq<IoVec>, n: int) -> int
    decreases n,
{
    if n <= 0 {
        0
    } else {
        iov_total(v, n - 1) + v[n - 1].len
    }
}

/// The buffer that holds byte `p` of the stream the buffers of `v` make,
/// searching from buffer `i` (`v.len()` when there is none).
pub open spec fn iov_index_from(v: Seq<IoVec>, p: int, i: int) -> int
    decreases v.len() - i,
{
    if i >= v.len() {
        i
    } else if p < iov_total(v, i + 1) {
        i
    } else {
        iov_index_from(v, p, i + 1)
    }
}

/// The address of byte `p` of the stream the buffers of `v` make.
pub open spec fn iov_addr(v: Seq<IoVec>, p: int) -> int {
    let i = iov_index_from(v, p, 0);
    v[i].base + (p - iov_total(v, i))
}

/// The bytes from byte `p` of the stream to the end of its buffer.
pub open spec fn iov_room(v: Seq<IoVec>, p: int) -> int {
    iov_total(v, iov_index_from(v, p, 0) + 1) - p
}

/// The byte of the stream at which segment `k` of a copy starts: the
/// lengths of the segments before it.
pub open spec fn seg_start(segs: Seq<(usize, usize, usize)>, k: int) -> int
    decreases k,
{
    if k <= 0 {
        0
    } else {
        seg_start(segs, k - 1) + segs[k - 1].2
    }
}

/// The totals only grow.
proof fn lemma_iov_total_mono(v: Seq<IoVec>, i: int, j: int)
    requires
        0 <= i <= j <= v.len(),
    ensures
        iov_total(v, i) <= iov_total(v, j),
    decreases j - i,
{
    if i < j {
        lemma_iov_total_mono(v, i, j - 1);
    }
}

/// A byte within buffer `i` is found in buffer `i`.
proof fn lemma_iov_index(v: Seq<IoVec>, p: int, j: int, i: int)
    requires
        0 <= j <= i < v.len(),
        iov_total(v, i) <= p < iov_total(v, i + 1),
    ensures
        iov_index_from(v, p, j) == i,
    decreases i - j,
{
    if j < i {
        lemma_iov_total_mono(v, j + 1, i);
        lemma_iov_index(v, p, j + 1, i);
    }
}

/// How `process_vm_readv` and `process_vm_writev` pair the caller's
/// buffers `local` with the target's buffers `remote`: both are taken as
/// one stream of bytes, and the copy is cut into segments, each running
/// from where the previous one ended to the nearer end of a buffer on
/// either side, until either side runs out. Each segment is (local
/// address, remote address, length); the total copied is returned.
pub fn process_vm_segments(local: &Vec<IoVec>, remote: &Vec<IoVec>) -> (r: (Vec<(usize, usize, usize)>, usize))
    requires
        iov_total(local@, local@.len() as int) <= usize::MAX,
        iov_total(remote@, remote@.len() as int) <= usize::MAX,
        forall|i: int| 0 <= i < local@.len() ==> local@[i].base + local@[i].len <= usize::MAX,
        forall|i: int| 0 <= i < remote@.len() ==> remote@[i].base + remote@[i].len <= usize::MAX,
    ensures
        r.1 == (if iov_total(local@, local@.len() as int) <= iov_total(remote@, remote@.len() as int) {
            iov_total(local@, local@.len() as int)
        } else {
            iov_total(remote@, remote@.len() as int)
        }),
        r.1 == seg_start(r.0@, r.0@.len() as int),
        forall|k: int| 0 <= k < r.0@.len() ==> {
            let p = seg_start(r.0@, k);
            let (a, b, n) = #[trigger] r.0@[k];
            &&& a == iov_addr(local@, p)
            &&& b == iov_addr(remote@, p)
            &&& n == (if iov_room(local@, p) <= iov_room(remote@, p) {
                iov_room(local@, p)
            } else {
                iov_room(remote@, p)
            })
            &&& n > 0
        },
{
    let ghost l = local@;
    let ghost rv = remote@;
    let ghost tl = iov_total(l, l.len() as int);
    let ghost tr = iov_total(rv, rv.len() as int);
    let mut segs: Vec<(usize, usize, usize)> = Vec::new();
    let mut total: usize = 0;
    let mut ci: usize = 0;
    let mut ti: usize = 0;
    let mut co: usize = 0;
    let mut to: usize = 0;
    while ci < local.len() && ti < remote.len()
        invariant
            l == local@,
            rv == remote@,
            tl == iov_total(l, l.len() as int),
            tr == iov_total(rv, rv.len() as int),
            tl <= usize::MAX,
            tr <= usize::MAX,
            forall|i: int| 0 <= i < l.len() ==> l[i].base + l[i].len <= usize::MAX,
            forall|i: int| 0 <= i < rv.len() ==> rv[i].base + rv[i].len <= usize::MAX,
            ci <= l.len(),
            ti <= rv.len(),
            ci < l.len() ==> co <= l[ci as int].len,
            ci == l.len() ==> co == 0,
            ti < rv.len() ==> to <= rv[ti as int].len,
            ti == rv.len() ==> to == 0,
            total == iov_total(l, ci as int) + co,
            total == iov_total(rv, ti as int) + to,
            total == seg_start(segs@, segs@.len() as int),
            forall|k: int| 0 <= k < segs@.len() ==> {
                let p = seg_start(segs@, k);
                let (a, b, n) = #[trigger] segs@[k];
                &&& a == iov_addr(l, p)
                &&& b == iov_addr(rv, p)
                &&& n == (if iov_room(l, p) <= iov_room(rv, p) {
                    iov_room(l, p)
                } else {
                    iov_room(rv, p)
                })
                &&& n > 0
            },
        decreases (tl - total) + (tr - total) + (l.len() - ci) + (rv.len() - ti),
    {
        proof {
            lemma_iov_total_mono(l, ci as int + 1, l.len() as int);
            lemma_iov_total_mono(rv, ti as int + 1, rv.len() as int);
        }
        let crem = local[ci].len - co;
        let trem = remote[ti].len - to;
        let n = if crem <= trem {
            crem
        } else {
            trem
        };
        if n == 0 {
            if crem == 0 {
                ci = ci + 1;
                co = 0;
            }
            if trem == 0 {
                ti = ti + 1;
                to = 0;
            }
        } else {
            let a = local[ci].base + co;
            let b = remote[ti].base + to;
            proof {
                let p = total as int;
                lemma_iov_index(l, p, 0, ci as int);
                lemma_iov_index(rv, p, 0, ti as int);
            }
            let ghost before = segs@;
            segs.push((a, b, n));
            proof {
                assert forall|k: int| 0 <= k < segs@.len() implies seg_start(segs@, k) == seg_start(before, k) by {
                    lemma_seg_start_prefix(before, segs@, k);
                }
                assert(seg_start(segs@, segs@.len() as int) == seg_start(segs@, before.len() as int) + n);
            }
            total = total + n;
            co = co + n;
            to = to + n;
        }
    }
    proof {
        lemma_iov_total_mono(l, ci as int, l.len() as int);
        lemma_iov_total_mono(rv, ti as int, rv.len() as int);
        if ci < l.len() {
            lemma_iov_total_mono(l, ci as int + 1, l.len() as int);
        }
        if ti < rv.len() {
            lemma_iov_total_mono(rv, ti as int + 1, rv.len() as int);
        }
    }
    (segs, total)
}

/// Segment starts depend only on the segments before.
proof fn lemma_seg_start_prefix(a: Seq<(usize, usize, usize)>, b: Seq<(usize, usize, usize)>, k: int)
    requires
        0 <= k <= a.len(),
        a.len() <= b.len(),
        forall|i: int| 0 <= i < a.len() ==> a[i] == b[i],
    ensures
        seg_start(a, k) == seg_start(b, k),
    decreases k,
{
    if k > 0 {
        lemma_seg_start_prefix(a, b, k - 1);
    }
}

/// The length of chunk `k` of a copy of `len` bytes between `a` and `b`
/// that starts at byte `c`: up to the nearer page end on either side, and
/// no further than the copy.
pub open spec fn chunk_len(a: int, b: int, len: int, c: int) -> int {
    let x = PAGE_SIZE - (a + c) % PAGE_SIZE as int;
    let y = PAGE_SIZE - (b + c) % PAGE_SIZE as int;
    let m = if x <= y { x } else { y };
    if m <= len - c { m } else { len - c }
}

/// How a copy of `len` bytes between the caller's address `caller` and
/// the target's address `target` goes page by page (as
/// `copy_from_userspace_unsafe` and `copy_to_userspace_unsafe` do it): each
/// chunk (caller address, target address, length) runs from where the
/// previous one ended to the nearer page end on either side; together they
/// cover the copy.
pub fn copy_chunks(caller: usize, target: usize, len: usize) -> (r: Vec<(usize, usize, usize)>)
    requires
        caller + len <= usize::MAX,
        target + len <= usize::MAX,
    ensures
        seg_start(r@, r@.len() as int) == len,
        forall|k: int| 0 <= k < r@.len() ==> {
            let c = seg_start(r@, k);
            let (a, b, n) = #[trigger] r@[k];
            &&& a == caller + c
            &&& b == target + c
            &&& n == chunk_len(caller as int, target as int, len as int, c)
            &&& n > 0
        },
{
    let mut out: Vec<(usize, usize, usize)> = Vec::new();
    let mut cur: usize = 0;
    while cur < len
        invariant
            cur <= len,
            caller + len <= usize::MAX,
            target + len <= usize::MAX,
            cur == seg_start(out@, out@.len() as int),
            forall|k: int| 0 <= k < out@.len() ==> {
                let c = seg_start(out@, k);
                let (a, b, n) = #[trigger] out@[k];
                &&& a == caller + c
                &&& b == target + c
                &&& n == chunk_len(caller as int, target as int, len as int, c)
                &&& n > 0
            },
        decreases len - cur,
    {
        let t_off = (target + cur) % PAGE_SIZE;
        let c_off = (caller + cur) % PAGE_SIZE;
        let x = PAGE_SIZE - c_off;
        let y = PAGE_SIZE - t_off;
        let m = if x <= y {
            x
        } else {
            y
        };
        let n = if m <= len - cur {
            m
        } else {
            len - cur
        };
        let ghost before = out@;
        out.push((caller + cur, target + cur, n));
        proof {
            assert forall|k: int| 0 <= k < out@.len() implies seg_start(out@, k) == seg_start(before, k) by {
                lemma_seg_start_prefix(before, out@, k);
            }
            assert(seg_start(out@, out@.len() as int) == seg_start(out@, before.len() as int) + n);
        }
        cur = cur + n;
    }
    out
}

/// syscall munmap: the length unmapped, rounded up to whole pages; `None`
/// for a zero length, which unmaps nothing.
pub fn sys_munmap(length: usize) -> (r: Option<usize>)
    requires
        length <= usize::MAX - PAGE_SIZE + 1,
    ensures
        length == 0 ==> r is None,
        length != 0 ==> (r matches Some(n) && n == (length + 4095) / 4096 * 4096),
{
    if length == 0 {
        return None;
    }
    let x = length - 1 + PAGE_SIZE;
    let r = x & !0xfffusize;
    assert(r == x - x % 4096) by (bit_vector)
        requires
            r == x & !0xfffusize,
    ;
    Some(r)
}

/// syscall mprotect, its checks: an address off a page boundary, or a
/// length that is zero or not a whole number of pages, is `EINVAL`; the
/// protection bits kept (read, write, execute) are returned.
pub fn sys_mprotect(addr: usize, length: usize, prot: i32) -> (r: Result<i32, SysError>)
    ensures
        r == (if addr % PAGE_SIZE != 0 || length == 0 || length % PAGE_SIZE != 0 {
            Err::<i32, SysError>(SysError::EINVAL)
        } else {
            Ok::<i32, SysError>(prot & 7)
        }),
{
    if addr % PAGE_SIZE != 0 || length == 0 || length % PAGE_SIZE != 0 {
        return Err(SysError::EINVAL);
    }
    Ok(prot & 7)
}

/// What `process_vm_segments` gives for `local` and `remote`.
pub open spec fn segments_of(local: Seq<IoVec>, remote: Seq<IoVec>, segs: Seq<(usize, usize, usize)>, total: usize) -> bool {
    &&& total == (if iov_total(local, local.len() as int) <= iov_total(remote, remote.len() as int) {
        iov_total(local, local.len() as int)
    } else {
        iov_total(remote, remote.len() as int)
    })
    &&& total == seg_start(segs, segs.len() as int)
    &&& forall|k: int| 0 <= k < segs.len() ==> {
        let p = seg_start(segs, k);
        let (a, b, n) = #[trigger] segs[k];
        &&& a == iov_addr(local, p)
        &&& b == iov_addr(remote, p)
        &&& n == (if iov_room(local, p) <= iov_room(remote, p) {
            iov_room(local, p)
        } else {
            iov_room(remote, p)
        })
        &&& n > 0
    }
}

/// syscall process_vm_readv, once the target is looked up (`found`) and
/// the buffer lists are read: the checks of `process_vm_check`, then the
/// segments copied from the target's buffers `remote` into the caller's
/// buffers `local` (see `process_vm_segments`) and their total, which the
/// call returns.
pub fn sys_process_vm_readv(
    flags: usize,
    found: bool,
    local: &Vec<IoVec>,
    remote: &Vec<IoVec>,
) -> (r: Result<(Vec<(usize, usize, usize)>, usize), SysError>)
    requires
        iov_total(local@, local@.len() as int) <= usize::MAX,
        iov_total(remote@, remote@.len() as int) <= usize::MAX,
        forall|i: int| 0 <= i < local@.len() ==> local@[i].base + local@[i].len <= usize::MAX,
        forall|i: int| 0 <= i < remote@.len() ==> remote@[i].base + remote@[i].len <= usize::MAX,
    ensures
        (local@.len() > IOV_MAX || remote@.len() > IOV_MAX || flags != 0) ==> r == Err::<
            (Vec<(usize, usize, usize)>, usize),
            SysError,
        >(SysError::EINVAL),
        !(local@.len() > IOV_MAX || remote@.len() > IOV_MAX || flags != 0) && !found ==> r == Err::<
            (Vec<(usize, usize, usize)>, usize),
            SysError,
        >(SysError::ESRCH),
        r matches Ok((segs, total)) ==> segments_of(local@, remote@, segs@, total),
        !(local@.len() > IOV_MAX || remote@.len() > IOV_MAX || flags != 0) && found ==> r is Ok,
{
    match process_vm_check(local.len(), remote.len(), flags, found) {
        Err(e) => Err(e),
        Ok(()) => Ok(process_vm_segments(local, remote)),
    }
}

/// syscall process_vm_writev, once the target is looked up (`found`) and
/// the buffer lists are read: the checks of `process_vm_check`, then the
/// segments copied from the caller's buffers `local` into the target's
/// buffers `remote` (see `process_vm_segments`) and their total, which the
/// call returns.
pub fn sys_process_vm_writev(
    flags: usize,
    found: bool,
    local: &Vec<IoVec>,
    remote: &Vec<IoVec>,
) -> (r: Result<(Vec<(usize, usize, usize)>, usize), SysError>)
    requires
        iov_total(local@, local@.len() as int) <= usize::MAX,
        iov_total(remote@, remote@.len() as int) <= usize::MAX,
        forall|i: int| 0 <= i < local@.len() ==> local@[i].base + local@[i].len <= usize::MAX,
        forall|i: int| 0 <= i < remote@.len() ==> remote@[i].base + remote@[i].len <= usize::MAX,
    ensures
        (local@.len() > IOV_MAX || remote@.len() > IOV_MAX || flags != 0) ==> r == Err::<
            (Vec<(usize, usize, usize)>, usize),
            SysError,
        >(SysError::EINVAL),
        !(local@.len() > IOV_MAX || remote@.len() > IOV_MAX || flags != 0) && !found ==> r == Err::<
            (Vec<(usize, usize, usize)>, usize),
            SysError,
        >(SysError::ESRCH),
        r matches Ok((segs, total)) ==> segments_of(local@, remote@, segs@, total),
        !(local@.len() > IOV_MAX || remote@.len() > IOV_MAX || flags != 0) && found ==> r is Ok,
{
    match process_vm_check(local.len(), remote.len(), flags, found) {
        Err(e) => Err(e),
        Ok(()) => Ok(process_vm_segments(local, remote)),
    }
}

/// Every chunk of a page-by-page copy lies within one page on the caller's
/// side and within one page on the target's side, and is not empty while
/// bytes remain.
pub proof fn lemma_chunks_within_pages(caller: int, target: int, len: int, c: int)
    requires
        0 <= c < len,
        caller >= 0,
        target >= 0,
    ensures
        0 < chunk_len(caller, target, len, c),
        (caller + c) % 4096 + chunk_len(caller, target, len, c) <= 4096,
        (target + c) % 4096 + chunk_len(caller, target, len, c) <= 4096,
        c + chunk_len(caller, target, len, c) <= len,
{
}

/// Without `MREMAP_MAYMOVE` a mapping never moves: it is resized in place
/// or the call fails.
pub proof fn lemma_mremap_without_maymove_stays(
    old_addr: usize,
    old_size: usize,
    new_size: usize,
    flags: i32,
    new_address: usize,
    area: Option<MremapArea>,
    tail_free: bool,
    target_free: bool,
)
    requires
        flags & MREMAP_MAYMOVE == 0,
    ensures
        !(mremap_result(old_addr, old_size, new_size, flags, new_address, area, tail_free, target_free) matches Ok(
            MremapPlan::Move { .. },
        )),
{
    if flags & !7i32 == 0 && flags & MREMAP_FIXED == 0 && flags & MREMAP_DONTUNMAP == 0 && flags & MREMAP_MAYMOVE == 0 {
        assert(flags == 0) by (bit_vector)
            requires
                flags & !7i32 == 0,
                flags & 2i32 == 0,
                flags & 4i32 == 0,
                flags & 1i32 == 0,
        ;
    }
}

/// A mapping moved with `MREMAP_FIXED` lands exactly at the address asked
/// for, and one moved with `MREMAP_DONTUNMAP` keeps its old range.
pub proof fn lemma_mremap_fixed_lands_there(
    old_addr: usize,
    old_size: usize,
    new_size: usize,
    flags: i32,
    new_address: usize,
    area: Option<MremapArea>,
    tail_free: bool,
    target_free: bool,
)
    ensures
        mremap_result(old_addr, old_size, new_size, flags, new_address, area, tail_free, target_free) matches Ok(
            MremapPlan::Move { at, keep_old, .. },
        ) ==> (flags & MREMAP_FIXED != 0 ==> at == new_address) && (flags & MREMAP_FIXED == 0 ==> at == 0) && (
        keep_old == (flags & MREMAP_DONTUNMAP != 0)),
{
}

/// The sharing type decides the kind of mapping: with `MAP_ANONYMOUS` and
/// the sharing type `MAP_SHARED`, a successful plan maps shared anonymous
/// memory; a shared sharing type never gives a private mapping, and a
/// private mapping (anonymous or of a file) comes only from the sharing
/// type `MAP_PRIVATE`.
pub proof fn lemma_mmap_sharing_type(
    slots: Seq<Option<crate::fd_table::FdInfo>>,
    addr: usize,
    length: usize,
    prot: i32,
    flags: i32,
    fd: usize,
    offset: usize,
)
    ensures
        mmap_result(slots, addr, length, prot, flags, fd, offset) matches Ok(p) ==> {
            &&& (flags & MAP_ANONYMOUS != 0 && flags & MAP_TYPE_MASK == MAP_SHARED ==> p.kind
                == MmapKind::SharedAnon)
            &&& (flags & MAP_ANONYMOUS != 0 && flags & MAP_TYPE_MASK == MAP_PRIVATE ==> p.kind
                == MmapKind::PrivateAnon)
            &&& (p.kind is PrivateAnon || p.kind is PrivateFile ==> flags & MAP_TYPE_MASK
                == MAP_PRIVATE)
            &&& (p.kind is SharedAnon || p.kind is SharedFile ==> flags & MAP_TYPE_MASK
                == MAP_SHARED)
            &&& (p.kind is SharedAnon || p.kind is PrivateAnon <==> flags & MAP_ANONYMOUS != 0)
                || p.kind is Invalid
        },
{
}

} // verus!
