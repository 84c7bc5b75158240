//! `getdents64`: directory entries as the records written to the user's
//! buffer.

use vstd::prelude::*;
use crate::errno::SysError;
use crate::fd_table::{slot_used, FdTable, FileId};
use crate::bytes::{le_bytes, write_le, lemma_le_bytes_len};

verus! {

/// The bytes of a record before the name: inode number, offset, record
/// length and type.
pub const LEN_BEFORE_NAME: usize = 19;

/// A directory entry.
pub struct DirEntry {
    /// Its inode number.
    pub ino: u64,
    /// Its type.
    pub dtype: u8,
    /// Its name.
    pub name: Vec<u8>,
}

/// The length of the record of a name of `n` bytes: the fixed part, the
/// name and its terminating zero, rounded up to eight bytes.
pub open spec fn rec_len(n: int) -> int {
    (LEN_BEFORE_NAME + n + 1 + 7) / 8 * 8
}

/// The record of entry `e` at directory offset `off`: inode number,
/// offset and record length in little-endian order (the length kept to 16
/// bits), the type, the name, a zero, and zeros up to the record length.
pub open spec fn dirent_record(e: DirEntry, off: int) -> Seq<u8> {
    let n = e.name@.len() as int;
    le_bytes(e.ino as nat, 8) + le_bytes(off as nat, 8) + le_bytes(rec_len(n) as nat, 2) + seq![e.dtype]
        + e.name@ + seq![0u8] + Seq::new((rec_len(n) - LEN_BEFORE_NAME - n - 1) as nat, |i: int| 0u8)
}

/// The bytes of the records of entries `pos` to `pos + k - 1`.
pub open spec fn dirent_records(es: Seq<DirEntry>, pos: int, k: int) -> Seq<u8>
    decreases k,
{
    if k <= 0 {
        Seq::empty()
    } else {
        dirent_records(es, pos, k - 1) + dirent_record(es[pos + k - 1], pos + k - 1)
    }
}

/// The total length of the records of entries `pos` to `pos + k - 1`.
pub open spec fn records_len(es: Seq<DirEntry>, pos: int, k: int) -> int
    decreases k,
{
    if k <= 0 {
        0
    } else {
        records_len(es, pos, k - 1) + rec_len(es[pos + k - 1].name@.len() as int)
    }
}

/// How many entries from `pos` fit in `len` bytes, going on from `k`
/// entries: records are taken in order until the next one does not fit.
pub open spec fn dirents_fitting(es: Seq<DirEntry>, pos: int, len: int, k: int) -> int
    decreases es.len() - pos - k,
{
    if pos + k < es.len() && records_len(es, pos, k + 1) <= len {
        dirents_fitting(es, pos, len, k + 1)
    } else {
        k
    }
}

/// The record length for a name of `n` bytes, as the record is laid out.
fn record_length(n: usize) -> (r: usize)
    requires
        n <= usize::MAX - 27,
    ensures
        r == rec_len(n as int),
{
    let x = LEN_BEFORE_NAME + n + 1 + 7;
    let r = x & !0x7usize;
    assert(r == x - x % 8) by (bit_vector)
        requires
            r == x & !0x7usize,
    ;
    r
}

/// The record of `e` at offset `off`.
fn make_record(e: &DirEntry, off: usize) -> (r: Vec<u8>)
    requires
        e.name@.len() <= usize::MAX - 27,
    ensures
        r@ == dirent_record(*e, off as int),
        r@.len() == rec_len(e.name@.len() as int),
{
    let n = e.name.len();
    let rl = record_length(n);
    let mut out = write_le(e.ino, 8);
    let mut b = write_le(off as u64, 8);
    out.append(&mut b);
    let mut c = write_le(rl as u64, 2);
    out.append(&mut c);
    out.push(e.dtype);
    let mut name = e.name.clone();
    out.append(&mut name);
    out.push(0u8);
    let ghost head = out@;
    let pad = rl - LEN_BEFORE_NAME - n - 1;
    let mut i: usize = 0;
    while i < pad
        invariant
            i <= pad,
            out@ == head + Seq::new(i as nat, |j: int| 0u8),
        decreases pad - i,
    {
        out.push(0u8);
        i = i + 1;
        assert(out@ =~= head + Seq::new(i as nat, |j: int| 0u8));
    }
    proof {
        lemma_le_bytes_len(e.ino as nat, 8);
        lemma_le_bytes_len(off as nat, 8);
        lemma_le_bytes_len(rl as nat, 2);
        assert(out@ =~= dirent_record(*e, off as int));
    }
    out
}

/// The totals grow with each record.
proof fn lemma_records_len_grow(es: Seq<DirEntry>, pos: int, k: int)
    requires
        k >= 0,
    ensures
        records_len(es, pos, k) >= 0,
        records_len(es, pos, k + 1) > records_len(es, pos, k),
    decreases k,
{
    if k > 0 {
        lemma_records_len_grow(es, pos, k - 1);
    }
}

/// The bytes of the records have the records' total length.
proof fn lemma_records_bytes_len(es: Seq<DirEntry>, pos: int, k: int)
    requires
        k >= 0,
    ensures
        dirent_records(es, pos, k).len() == records_len(es, pos, k),
    decreases k,
{
    if k > 0 {
        lemma_records_bytes_len(es, pos, k - 1);
        let e = es[pos + k - 1];
        lemma_le_bytes_len(e.ino as nat, 8);
        lemma_le_bytes_len((pos + k - 1) as nat, 8);
        lemma_le_bytes_len(rec_len(e.name@.len() as int) as nat, 2);
    }
}

/// syscall getdents64, for the directory open on `fd` whose entries are
/// `children` and whose position is `pos`, into a buffer of `len` bytes
/// (`writable`: whether it can be written): an unwritable buffer is
/// `EINVAL`, a descriptor not open `EBADF`. Records for the entries from
/// the position on are laid out while they fit; the bytes and the number
/// of entries taken (by which the position moves) are returned.
pub fn sys_getdents64(
    table: &FdTable,
    fd: usize,
    writable: bool,
    children: &Vec<DirEntry>,
    pos: usize,
    len: usize,
) -> (r: Result<(Vec<u8>, usize), SysError>)
    requires
        len <= isize::MAX,
        forall|i: int| 0 <= i < children@.len() ==> #[trigger] children@[i].name@.len() <= 65535,
    ensures
        !writable ==> r == Err::<(Vec<u8>, usize), SysError>(SysError::EINVAL),
        writable && !slot_used(table.slots(), fd as int) ==> r == Err::<(Vec<u8>, usize), SysError>(
            SysError::EBADF,
        ),
        writable && slot_used(table.slots(), fd as int) ==> r is Ok,
        r matches Ok((bytes, taken)) ==> {
            &&& pos <= children@.len() ==> taken == dirents_fitting(children@, pos as int, len as int, 0)
            &&& pos > children@.len() ==> taken == 0
            &&& bytes@ == dirent_records(children@, pos as int, taken as int)
            &&& bytes@.len() == records_len(children@, pos as int, taken as int)
            &&& bytes@.len() <= len
        },
{
    if !writable {
        return Err(SysError::EINVAL);
    }
    let _file: FileId = match table.get_file(fd) {
        Ok(f) => f,
        Err(e) => {
            return Err(e);
        },
    };
    let mut out: Vec<u8> = Vec::new();
    let mut taken: usize = 0;
    let mut written: usize = 0;
    if pos > children.len() {
        return Ok((out, 0));
    }
    let ghost es = children@;
    while taken < children.len() - pos
        invariant_except_break
            pos <= es.len(),
            es == children@,
            pos + taken <= es.len(),
            len <= isize::MAX,
            forall|i: int| 0 <= i < es.len() ==> #[trigger] es[i].name@.len() <= 65535,
            written == records_len(es, pos as int, taken as int),
            written <= len,
            out@ == dirent_records(es, pos as int, taken as int),
            dirents_fitting(es, pos as int, len as int, taken as int) == dirents_fitting(es, pos as int, len as int, 0),
        ensures
            written == records_len(es, pos as int, taken as int),
            written <= len,
            out@ == dirent_records(es, pos as int, taken as int),
            taken == dirents_fitting(es, pos as int, len as int, 0),
        decreases es.len() - pos - taken,
    {
        let e = &children[pos + taken];
        let rl = record_length(e.name.len());
        if written + rl > len {
            break;
        }
        let mut rec = make_record(e, pos + taken);
        out.append(&mut rec);
        written = written + rl;
        taken = taken + 1;
    }
    proof {
        lemma_records_bytes_len(es, pos as int, taken as int);
    }
    Ok((out, taken))
}

/// Every record is aligned to eight bytes and holds its fixed part, its
/// name and the name's zero; so the records laid out end at a multiple of
/// eight.
pub proof fn lemma_records_aligned(es: Seq<DirEntry>, pos: int, k: int)
    requires
        k >= 0,
    ensures
        records_len(es, pos, k) % 8 == 0,
        forall|n: int| n >= 0 ==> #[trigger] rec_len(n) % 8 == 0 && rec_len(n) >= LEN_BEFORE_NAME + n + 1
            && rec_len(n) < LEN_BEFORE_NAME + n + 1 + 8,
    decreases k,
{
    assert forall|n: int| n >= 0 implies #[trigger] rec_len(n) % 8 == 0 && rec_len(n) >= LEN_BEFORE_NAME + n + 1
        && rec_len(n) < LEN_BEFORE_NAME + n + 1 + 8 by {
        let x = LEN_BEFORE_NAME + n + 1 + 7;
        assert(x / 8 * 8 % 8 == 0) by (nonlinear_arith)
            requires
                x >= 0,
        ;
        assert(x / 8 * 8 <= x && x / 8 * 8 > x - 8) by (nonlinear_arith)
            requires
                x >= 0,
        ;
    }
    if k > 0 {
        lemma_records_aligned(es, pos, k - 1);
        let n = es[pos + k - 1].name@.len() as int;
        assert(rec_len(n) % 8 == 0);
        assert((records_len(es, pos, k - 1) + rec_len(n)) % 8 == 0) by (nonlinear_arith)
            requires
                records_len(es, pos, k - 1) % 8 == 0,
                rec_len(n) % 8 == 0,
        ;
    }
}

} // verus!
