//! Integers read from and written to byte buffers, in the little-endian
//! order of the kernel's target and in network (big-endian) order.

use vstd::prelude::*;

verus! {

/// The value of the first four bytes of `s`, least significant first.
pub open spec fn le_u32(s: Seq<u8>) -> int {
    s[0] + 256 * s[1] + 65536 * s[2] + 16777216 * s[3]
}

/// The value of the first four bytes of `s`, most significant first.
pub open spec fn be_u32(s: Seq<u8>) -> int {
    s[3] + 256 * s[2] + 65536 * s[1] + 16777216 * s[0]
}

/// The value of the first eight bytes of `s`, least significant first.
pub open spec fn le_u64(s: Seq<u8>) -> int {
    le_u32(s) + 4294967296 * le_u32(s.subrange(4, 8))
}

/// The `n` bytes of `v` (taken modulo 256 to the `n`), least significant first.
pub open spec fn le_bytes(v: nat, n: nat) -> Seq<u8>
    decreases n,
{
    if n == 0 {
        Seq::empty()
    } else {
        seq![(v % 256) as u8] + le_bytes(v / 256, (n - 1) as nat)
    }
}

/// The little-endian `u32` at the start of `b`.
pub fn read_u32_le(b: &[u8]) -> (r: u32)
    requires
        b@.len() >= 4,
    ensures
        r == le_u32(b@),
{
    let v: u32 = b[0] as u32 + 256 * (b[1] as u32) + 65536 * (b[2] as u32) + 16777216 * (
    b[3] as u32);
    v
}

/// The big-endian `u32` at the start of `b`.
pub fn read_u32_be(b: &[u8]) -> (r: u32)
    requires
        b@.len() >= 4,
    ensures
        r == be_u32(b@),
{
    let v: u32 = b[3] as u32 + 256 * (b[2] as u32) + 65536 * (b[1] as u32) + 16777216 * (
    b[0] as u32);
    v
}

/// The little-endian `u64` at `b[at..at + 8]`.
pub fn read_u64_le(b: &[u8], at: usize) -> (r: u64)
    requires
        at + 8 <= b@.len(),
    ensures
        r == le_u64(b@.subrange(at as int, at + 8)),
{
    let lo: u64 = b[at] as u64 + 256 * (b[at + 1] as u64) + 65536 * (b[at + 2] as u64) + 16777216
        * (b[at + 3] as u64);
    let hi: u64 = b[at + 4] as u64 + 256 * (b[at + 5] as u64) + 65536 * (b[at + 6] as u64)
        + 16777216 * (b[at + 7] as u64);
    let ghost s = b@.subrange(at as int, at + 8);
    assert(s.subrange(4, 8) =~= b@.subrange(at + 4, at + 8));
    lo + 4294967296 * hi
}

/// The `n` least significant bytes of `v`, least significant first.
pub fn write_le(v: u64, n: usize) -> (r: Vec<u8>)
    requires
        n <= 8,
    ensures
        r@ == le_bytes(v as nat, n as nat),
        r@.len() == n,
    decreases n,
{
    if n == 0 {
        Vec::new()
    } else {
        let mut rest = write_le(v / 256, n - 1);
        let low: u8 = (v % 256) as u8;
        rest.insert(0, low);
        assert(rest@ =~= seq![low] + le_bytes((v / 256) as nat, (n - 1) as nat));
        rest
    }
}

/// `dst` with its first `src.len()` bytes replaced by `src`; `dst` must be
/// at least as long.
pub fn copy_prefix(dst: &mut Vec<u8>, src: &Vec<u8>)
    requires
        src@.len() <= old(dst)@.len(),
    ensures
        final(dst)@ == src@ + old(dst)@.subrange(src@.len() as int, old(dst)@.len() as int),
{
    let mut i: usize = 0;
    while i < src.len()
        invariant
            i <= src@.len() <= dst@.len(),
            dst@.len() == old(dst)@.len(),
            forall|j: int| 0 <= j < i ==> dst@[j] == src@[j],
            forall|j: int| i <= j < dst@.len() ==> dst@[j] == old(dst)@[j],
        decreases src@.len() - i,
    {
        dst.set(i, src[i]);
        i = i + 1;
    }
    assert(dst@ =~= src@ + old(dst)@.subrange(src@.len() as int, old(dst)@.len() as int));
}


/// Reading back four bytes written least significant first gives the value.
pub proof fn lemma_le_u32_round_trip(v: u32)
    ensures
        le_bytes(v as nat, 4).len() == 4,
        le_u32(le_bytes(v as nat, 4)) == v,
{
    reveal_with_fuel(le_bytes, 5);
    let b = le_bytes(v as nat, 4);
    assert(b[0] == (v % 256) as u8);
    assert(b[1] == ((v / 256) % 256) as u8);
    assert(b[2] == ((v / 256 / 256) % 256) as u8);
    assert(b[3] == ((v / 256 / 256 / 256) % 256) as u8);
    assert(v == (v % 256) + 256 * ((v / 256) % 256) + 65536 * ((v / 256 / 256) % 256) + 16777216 * ((v
        / 256 / 256 / 256) % 256)) by (nonlinear_arith);
}


/// `le_bytes(v, n)` has `n` bytes.
pub proof fn lemma_le_bytes_len(v: nat, n: nat)
    ensures
        le_bytes(v, n).len() == n,
    decreases n,
{
    if n > 0 {
        lemma_le_bytes_len(v / 256, (n - 1) as nat);
    }
}

} // verus!
