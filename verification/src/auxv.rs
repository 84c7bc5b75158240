//! The auxiliary vector handed to a new program, and the arithmetic of
//! pushing values onto its user stack (the stack grows downwards).

use vstd::prelude::*;
use crate::bytes::{le_bytes, write_le};

verus! {

/// end of vector
pub const AT_NULL: usize = 0;
/// entry should be ignored
pub const AT_IGNORE: usize = 1;
/// file descriptor of program
pub const AT_EXECFD: usize = 2;
/// program headers for program
pub const AT_PHDR: usize = 3;
/// size of program header entry
pub const AT_PHENT: usize = 4;
/// number of program headers
pub const AT_PHNUM: usize = 5;
/// system page size
pub const AT_PAGESZ: usize = 6;
/// base address of interpreter
pub const AT_BASE: usize = 7;
/// flags
pub const AT_FLAGS: usize = 8;
/// entry point of program
pub const AT_ENTRY: usize = 9;
/// program is not ELF
pub const AT_NOTELF: usize = 10;
/// real uid
pub const AT_UID: usize = 11;
/// effective uid
pub const AT_EUID: usize = 12;
/// real gid
pub const AT_GID: usize = 13;
/// effective gid
pub const AT_EGID: usize = 14;
/// string identifying CPU for optimizations
pub const AT_PLATFORM: usize = 15;
/// arch dependent hints at CPU capabilities
pub const AT_HWCAP: usize = 16;
/// frequency at which times() increments
pub const AT_CLKTCK: usize = 17;
/// secure mode boolean
pub const AT_SECURE: usize = 23;
/// string identifying real platform, may differ from AT_PLATFORM
pub const AT_BASE_PLATFORM: usize = 24;
/// address of 16 random bytes
pub const AT_RANDOM: usize = 25;
/// extension of AT_HWCAP
pub const AT_HWCAP2: usize = 26;
/// filename of program
pub const AT_EXECFN: usize = 31;
/// entry point to the system call function in the vDSO
pub const AT_SYSINFO: usize = 32;
/// address of a page containing the vDSO
pub const AT_SYSINFO_EHDR: usize = 33;

/// The size of a page.
pub const PAGE_SIZE: usize = 4096;

/// Auxiliary header
#[derive(Clone, Copy, Debug, PartialEq, Eq, Structural)]
pub struct AuxHeader {
    /// Type
    pub aux_type: usize,
    /// Value
    pub value: usize,
}

impl AuxHeader {
    /// new a AuxHeader
    pub fn new(aux_type: usize, value: usize) -> (r: Self)
        ensures
            r == (AuxHeader { aux_type, value }),
    {
        Self { aux_type, value }
    }
}

/// The entries of the early auxiliary vector, in order.
pub open spec fn early_auxv(ph_entry_size: usize, ph_count: usize, entry_point: usize) -> Seq<AuxHeader> {
    seq![
        AuxHeader { aux_type: AT_PHENT, value: ph_entry_size },
        AuxHeader { aux_type: AT_PHNUM, value: ph_count },
        AuxHeader { aux_type: AT_PAGESZ, value: PAGE_SIZE },
        AuxHeader { aux_type: AT_FLAGS, value: 0 },
        AuxHeader { aux_type: AT_ENTRY, value: entry_point },
        AuxHeader { aux_type: AT_UID, value: 0 },
        AuxHeader { aux_type: AT_EUID, value: 0 },
        AuxHeader { aux_type: AT_GID, value: 0 },
        AuxHeader { aux_type: AT_EGID, value: 0 },
        AuxHeader { aux_type: AT_PLATFORM, value: 0 },
        AuxHeader { aux_type: AT_HWCAP, value: 0 },
        AuxHeader { aux_type: AT_CLKTCK, value: 100 },
        AuxHeader { aux_type: AT_SECURE, value: 0 },
    ]
}

/// create a new auxv: the program headers' entry size and count, the page
/// size, the entry point, a clock tick of 100, and zero for the flags,
/// user and group ids, platform, capabilities and secure mode.
pub fn generate_early_auxv(ph_entry_size: usize, ph_count: usize, entry_point: usize) -> (r: Vec<
    AuxHeader,
>)
    ensures
        r@ == early_auxv(ph_entry_size, ph_count, entry_point),
{
    let mut auxv: Vec<AuxHeader> = Vec::with_capacity(32);
    auxv.push(AuxHeader::new(AT_PHENT, ph_entry_size));
    auxv.push(AuxHeader::new(AT_PHNUM, ph_count));
    auxv.push(AuxHeader::new(AT_PAGESZ, PAGE_SIZE));
    auxv.push(AuxHeader::new(AT_FLAGS, 0));
    auxv.push(AuxHeader::new(AT_ENTRY, entry_point));
    auxv.push(AuxHeader::new(AT_UID, 0));
    auxv.push(AuxHeader::new(AT_EUID, 0));
    auxv.push(AuxHeader::new(AT_GID, 0));
    auxv.push(AuxHeader::new(AT_EGID, 0));
    auxv.push(AuxHeader::new(AT_PLATFORM, 0));
    auxv.push(AuxHeader::new(AT_HWCAP, 0));
    auxv.push(AuxHeader::new(AT_CLKTCK, 100));
    auxv.push(AuxHeader::new(AT_SECURE, 0));
    assert(auxv@ =~= early_auxv(ph_entry_size, ph_count, entry_point));
    auxv
}

/// align the addr to 16: the highest multiple of 16 below `sp`.
pub fn align16(sp: &mut usize)
    requires
        *old(sp) >= 1,
    ensures
        *final(sp) == (*old(sp) - 1) - (*old(sp) - 1) % 16,
        *final(sp) % 16 == 0,
        *final(sp) < *old(sp),
        *old(sp) <= *final(sp) + 16,
{
    let s = *sp - 1;
    let r = s & !0xfusize;
    assert(r == s - s % 16 && r % 16 == 0) by (bit_vector)
        requires
            r == s & !0xfusize,
    ;
    *sp = r;
}

/// Push a string and its terminating zero: the stack pointer moves down
/// by its length plus one, and the bytes to store there are returned with
/// the new stack pointer.
pub fn push_str(sp: &mut usize, s: &[u8]) -> (r: (usize, Vec<u8>))
    requires
        s@.len() + 1 <= *old(sp),
    ensures
        *final(sp) == *old(sp) - (s@.len() + 1),
        r.0 == *final(sp),
        r.1@ == s@.push(0u8),
{
    let len = s.len();
    *sp = *sp - (len + 1);
    let mut bytes = vstd::slice::slice_to_vec(s);
    bytes.push(0u8);
    (*sp, bytes)
}

/// Push an auxiliary header (sixteen bytes: its type, then its value):
/// the bytes to store at the new stack pointer.
pub fn push_aux(sp: &mut usize, elm: &AuxHeader) -> (r: Vec<u8>)
    requires
        *old(sp) >= 16,
    ensures
        *final(sp) == *old(sp) - 16,
        r@ == le_bytes(elm.aux_type as nat, 8) + le_bytes(elm.value as nat, 8),
{
    *sp = *sp - 16;
    let mut bytes = write_le(elm.aux_type as u64, 8);
    let mut v = write_le(elm.value as u64, 8);
    bytes.append(&mut v);
    bytes
}

/// Push a pointer-sized value (eight bytes): the bytes to store at the new
/// stack pointer.
pub fn push_usize(sp: &mut usize, ptr: usize) -> (r: Vec<u8>)
    requires
        *old(sp) >= 8,
    ensures
        *final(sp) == *old(sp) - 8,
        r@ == le_bytes(ptr as nat, 8),
{
    *sp = *sp - 8;
    write_le(ptr as u64, 8)
}

/// The platform string put on a new program's stack.
pub const PLATFORM_LEN: usize = 8;
/// The sixteen bytes put on a new program's stack as random bytes (a
/// fixed string of fifteen characters and its zero).
pub const RANDOM_LEN: usize = 15;

/// The room the first `k` strings of `v` take, each with its zero.
pub open spec fn strs_len(v: Seq<Vec<u8>>, k: int) -> int
    decreases k,
{
    if k <= 0 {
        0
    } else {
        strs_len(v, k - 1) + v[k - 1]@.len() + 1
    }
}

/// Where everything goes on a new program's stack.
pub struct StackLayout {
    /// The final stack pointer, where the argument count lies.
    pub sp: usize,
    /// The argument count.
    pub argc: usize,
    /// The argument pointer array: the strings' addresses, then zero.
    pub argv_ptr: usize,
    /// The environment pointer array: the strings' addresses, then zero.
    pub envp_ptr: usize,
    /// The auxiliary vector: the given entries, then `AT_EXECFN`, then
    /// `AT_NULL`, sixteen bytes each.
    pub aux_at: usize,
    /// The address of each environment string.
    pub env_strs: Vec<usize>,
    /// The address of each argument string.
    pub arg_strs: Vec<usize>,
    /// Where the platform string goes.
    pub platform_at: usize,
    /// Where the random bytes go.
    pub random_at: usize,
    /// The value of `AT_EXECFN`.
    pub execfn: usize,
    /// The pages below the initial stack pointer to fault in first.
    pub frames: usize,
}

/// The bottom of the string area, aligned down to sixteen bytes below the
/// strings, platform and random bytes of a stack starting at `sp`.
pub open spec fn strings_bottom(sp: int, argv: Seq<Vec<u8>>, envp: Seq<Vec<u8>>) -> int {
    let x = sp - strs_len(envp, envp.len() as int) - strs_len(argv, argv.len() as int) - (PLATFORM_LEN + 1) - (RANDOM_LEN + 1) - 1;
    x - x % 16
}

/// `r` lays out a stack below `sp` for arguments `argv`, environment
/// `envp` and `k` auxiliary entries, as `user_stack_init` does.
pub open spec fn is_stack_layout(sp: int, argv: Seq<Vec<u8>>, envp: Seq<Vec<u8>>, k: int, r: StackLayout) -> bool {
    let e = strs_len(envp, envp.len() as int);
    let a = strs_len(argv, argv.len() as int);
    let top = strings_bottom(sp, argv, envp);
    let n = envp.len() as int;
    let m = argv.len() as int;
    &&& r.env_strs@.len() == n
    &&& forall|i: int| 0 <= i < n ==> #[trigger] r.env_strs@[i] == sp - e + strs_len(envp, i)
    &&& r.arg_strs@.len() == m
    &&& forall|i: int| 0 <= i < m ==> #[trigger] r.arg_strs@[i] == sp - e - a + strs_len(argv, i)
    &&& r.platform_at == sp - e - a - (PLATFORM_LEN + 1)
    &&& r.random_at == sp - e - a - (PLATFORM_LEN + 1) - (RANDOM_LEN + 1)
    &&& r.aux_at == top - 16 * (k + 2)
    &&& r.execfn == sp - a
    &&& r.envp_ptr == r.aux_at - 8 * (n + 1)
    &&& r.argv_ptr == r.envp_ptr - 8 * (m + 1)
    &&& r.sp == r.argv_ptr - 8
    &&& r.argc == m
    &&& r.frames == (sp - (top - 16 * (k + 1) - 8 * (n + 1) - 8 * (n + 1) - 8) + 4095) / 4096
}

/// The layout of a new program's stack below `sp` (user_stack_init): the
/// environment strings at the top, in order, then the argument strings,
/// the platform string and the random bytes; below them, aligned to
/// sixteen bytes, the auxiliary vector, the environment and argument
/// pointer arrays, and the argument count. `AT_EXECFN` points where the
/// argument strings would start were they at the top. The page count
/// reckons the argument array with as many entries as the environment
/// array.
pub fn user_stack_init(sp: usize, argv: &Vec<Vec<u8>>, envp: &Vec<Vec<u8>>, auxv: &Vec<AuxHeader>) -> (r: StackLayout)
    requires
        strs_len(envp@, envp@.len() as int) + strs_len(argv@, argv@.len() as int) + 26 + 16 * (auxv@.len() + 2) + 8 * (
        envp@.len() + argv@.len() + 3) + 8 * (envp@.len() + 1) + 16 <= sp,
    ensures
        is_stack_layout(sp as int, argv@, envp@, auxv@.len() as int, r),
{
    let ghost ev = envp@;
    let ghost av = argv@;
    proof {
        lemma_strs_len_nonneg(ev, ev.len() as int);
        lemma_strs_len_nonneg(av, av.len() as int);
    }
    let mut e: usize = 0;
    let mut i: usize = 0;
    while i < envp.len()
        invariant
            i <= ev.len(),
            ev == envp@,
            e == strs_len(ev, i as int),
            strs_len(ev, ev.len() as int) <= sp,
        decreases ev.len() - i,
    {
        proof {
            lemma_strs_len_mono(ev, i as int + 1, ev.len() as int);
        }
        e = e + envp[i].len() + 1;
        i = i + 1;
    }
    let mut a: usize = 0;
    i = 0;
    while i < argv.len()
        invariant
            i <= av.len(),
            av == argv@,
            a == strs_len(av, i as int),
            strs_len(av, av.len() as int) <= sp,
        decreases av.len() - i,
    {
        proof {
            lemma_strs_len_mono(av, i as int + 1, av.len() as int);
        }
        a = a + argv[i].len() + 1;
        i = i + 1;
    }
    let env_base = sp - e;
    let mut env_strs: Vec<usize> = Vec::new();
    let mut cur = env_base;
    i = 0;
    while i < envp.len()
        invariant
            i <= ev.len(),
            ev == envp@,
            e == strs_len(ev, ev.len() as int),
            e <= sp,
            env_base == sp - e,
            cur == env_base + strs_len(ev, i as int),
            env_strs@.len() == i,
            forall|j: int| 0 <= j < i ==> #[trigger] env_strs@[j] == sp - e + strs_len(ev, j),
        decreases ev.len() - i,
    {
        proof {
            lemma_strs_len_mono(ev, i as int + 1, ev.len() as int);
        }
        env_strs.push(cur);
        cur = cur + envp[i].len() + 1;
        i = i + 1;
    }
    let arg_base = sp - e - a;
    let mut arg_strs: Vec<usize> = Vec::new();
    cur = arg_base;
    i = 0;
    while i < argv.len()
        invariant
            i <= av.len(),
            av == argv@,
            a == strs_len(av, av.len() as int),
            e + a <= sp,
            arg_base == sp - e - a,
            cur == arg_base + strs_len(av, i as int),
            arg_strs@.len() == i,
            forall|j: int| 0 <= j < i ==> #[trigger] arg_strs@[j] == sp - e - a + strs_len(av, j),
        decreases av.len() - i,
    {
        proof {
            lemma_strs_len_mono(av, i as int + 1, av.len() as int);
        }
        arg_strs.push(cur);
        cur = cur + argv[i].len() + 1;
        i = i + 1;
    }
    let platform_at = arg_base - (PLATFORM_LEN + 1);
    let random_at = platform_at - (RANDOM_LEN + 1);
    let mut top = random_at;
    align16(&mut top);
    let k = auxv.len();
    let aux_at = top - 16 * (k + 2);
    let n = envp.len();
    let m = argv.len();
    let envp_ptr = aux_at - 8 * (n + 1);
    let argv_ptr = envp_ptr - 8 * (m + 1);
    let est = top - 16 * (k + 1) - 8 * (n + 1) - 8 * (n + 1) - 8;
    let span = sp - est;
    let frames = span / 4096 + if span % 4096 != 0 {
        1
    } else {
        0
    };
    assert(frames == (span + 4095) / 4096) by (nonlinear_arith)
        requires
            frames == span / 4096 + if span % 4096 != 0 {
                1int
            } else {
                0int
            },
            span >= 0,
    ;
    StackLayout {
        sp: argv_ptr - 8,
        argc: m,
        argv_ptr,
        envp_ptr,
        aux_at,
        env_strs,
        arg_strs,
        platform_at,
        random_at,
        execfn: sp - a,
        frames,
    }
}

/// The room of the strings only grows.
proof fn lemma_strs_len_mono(v: Seq<Vec<u8>>, i: int, j: int)
    requires
        0 <= i <= j <= v.len(),
    ensures
        0 <= strs_len(v, i) <= strs_len(v, j),
    decreases j - i,
{
    lemma_strs_len_nonneg(v, i);
    if i < j {
        lemma_strs_len_mono(v, i, j - 1);
    }
}

/// The room of the strings is never negative.
proof fn lemma_strs_len_nonneg(v: Seq<Vec<u8>>, i: int)
    ensures
        0 <= strs_len(v, i),
    decreases i,
{
    if i > 0 {
        lemma_strs_len_nonneg(v, i - 1);
    }
}

/// The parts of a new program's stack do not overlap and come in order
/// from the top: environment strings (each above the next one's start),
/// argument strings, platform string, random bytes; then, sixteen-byte
/// aligned, the auxiliary vector, the environment pointers, the argument
/// pointers, and the argument count at the final stack pointer.
pub proof fn lemma_stack_layout_ordered(sp: int, argv: Seq<Vec<u8>>, envp: Seq<Vec<u8>>, k: int, r: StackLayout)
    requires
        is_stack_layout(sp, argv, envp, k, r),
        k >= 0,
    ensures
        forall|i: int| 0 <= i < envp.len() ==> r.env_strs@[i] + envp[i]@.len() + 1 <= (if i + 1 < envp.len() {
            r.env_strs@[i + 1] as int
        } else {
            sp
        }),
        forall|i: int| 0 <= i < argv.len() ==> r.arg_strs@[i] + argv[i]@.len() + 1 <= (if i + 1 < argv.len() {
            r.arg_strs@[i + 1] as int
        } else {
            sp - strs_len(envp, envp.len() as int)
        }),
        r.platform_at + PLATFORM_LEN + 1 == sp - strs_len(envp, envp.len() as int) - strs_len(argv, argv.len() as int),
        r.random_at + RANDOM_LEN + 1 == r.platform_at,
        r.aux_at % 16 == 0,
        r.aux_at + 16 * (k + 2) < r.random_at + 1,
        r.envp_ptr + 8 * (envp.len() + 1) == r.aux_at,
        r.argv_ptr + 8 * (argv.len() + 1) == r.envp_ptr,
        r.sp + 8 == r.argv_ptr,
{
    let top = strings_bottom(sp, argv, envp);
    let x = sp - strs_len(envp, envp.len() as int) - strs_len(argv, argv.len() as int) - (PLATFORM_LEN + 1) - (RANDOM_LEN + 1) - 1;
    assert(top == x - x % 16);
    assert((x - x % 16) % 16 == 0) by (nonlinear_arith);
    assert(16 * (k + 2) % 16 == 0) by (nonlinear_arith);
    assert((top - 16 * (k + 2)) % 16 == 0) by (nonlinear_arith)
        requires
            top % 16 == 0,
    ;
}

} // verus!
