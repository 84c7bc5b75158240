//! System identification (`uname`, host and domain names).

use vstd::prelude::*;
use vstd::utf8::{valid_utf8, decode_utf8, encode_utf8};
use vstd::string::StringExecFns;
use crate::errno::{SysError, SysResult};

verus! {

/// Length of each field of `struct utsname`.
pub const UTS_LEN: usize = 65;

/// `struct utsname` (defined in <sys/utsname.h>): NUL-padded names.
#[derive(Clone, Copy, Debug)]
pub struct UtsName {
    /// Name of the implementation of the operating system.
    pub sysname: [u8; 65],
    /// Name of this node on the network.
    pub nodename: [u8; 65],
    /// Current release level of this implementation.
    pub release: [u8; 65],
    /// Current version level of this release.
    pub version: [u8; 65],
    /// Name of the hardware type the system is running on.
    pub machine: [u8; 65],
    /// Name of the domain of this node on the network.
    pub domainname: [u8; 65],
}

/// A field holding `b` followed by zero bytes.
pub open spec fn padded_field(b: Seq<u8>) -> Seq<u8> {
    b + Seq::new((65 - b.len()) as nat, |i: int| 0u8)
}

/// The bytes of `s` followed by zero bytes, as a `utsname` field.
fn name_field(s: &String) -> (r: [u8; 65])
    requires
        s@.len() <= 65 && encode_utf8(s@).len() <= 65,
    ensures
        r@ == padded_field(encode_utf8(s@)),
{
    let bytes = s.as_str().as_bytes();
    let mut data: [u8; 65] = [0u8; 65];
    let n = bytes.len();
    let mut i: usize = 0;
    while i < n
        invariant
            n == bytes@.len(),
            n <= 65,
            bytes@ == encode_utf8(s@),
            i <= n,
            data@.len() == 65,
            forall|j: int| 0 <= j < i ==> #[trigger] data@[j] == bytes@[j],
            forall|j: int| n <= j < 65 ==> #[trigger] data@[j] == 0u8,
        decreases n - i,
    {
        data[i] = bytes[i];
        i = i + 1;
    }
    assert(data@ =~= padded_field(encode_utf8(s@)));
    data
}

/// The names the system reports.
pub struct UtsManager {
    /// Name of the implementation of the operating system.
    pub sysname: String,
    /// Name of this node on the network.
    pub nodename: String,
    /// Current release level of this implementation.
    pub release: String,
    /// Current version level of this release.
    pub version: String,
    /// Name of the hardware type the system is running on.
    pub machine: String,
    /// Name of the domain of this node on the network.
    pub domainname: String,
}

/// The UTF-8 encoding of `s` fits a `utsname` field.
pub open spec fn fits_field(s: &String) -> bool {
    s@.len() <= 65 && encode_utf8(s@).len() <= 65
}

/// `bytes` decoded as UTF-8, if they are valid UTF-8 (`String::from_utf8`).
#[verifier::external_body]
pub(crate) fn string_from_utf8(bytes: Vec<u8>) -> (r: Option<String>)
    ensures
        r is Some <==> valid_utf8(bytes@),
        r matches Some(s) ==> s@ == decode_utf8(bytes@),
{
    String::from_utf8(bytes).ok()
}

/// An ASCII name of at most 65 characters fits a `utsname` field.
proof fn lemma_ascii_fits(s: Seq<char>)
    requires
        s.len() <= 65,
        vstd::utf8::is_ascii_chars(s),
    ensures
        encode_utf8(s).len() <= 65,
{
    vstd::utf8::is_ascii_chars_encode_utf8(s);
}

impl UtsManager {
    /// Every name fits a `utsname` field.
    pub open spec fn fits(&self) -> bool {
        &&& fits_field(&self.sysname)
        &&& fits_field(&self.nodename)
        &&& fits_field(&self.release)
        &&& fits_field(&self.version)
        &&& fits_field(&self.machine)
        &&& fits_field(&self.domainname)
    }

    /// The names the kernel reports by default.
    pub fn new() -> (r: Self)
        ensures
            r.sysname@ == "Linux"@,
            r.nodename@ == "Linux"@,
            r.release@ == "5.19.0-42-generic"@,
            r.version@ == "#43~22.04.1-Ubuntu SMP PREEMPT_DYNAMIC Fri Apr 21 16:51:08 UTC 2"@,
            r.machine@ == "RISC-V SiFive Freedom U740 SoC"@,
            r.domainname@ == "localhost"@,
            r.fits(),
    {
        proof {
            reveal_strlit("Linux");
            reveal_strlit("5.19.0-42-generic");
            reveal_strlit("#43~22.04.1-Ubuntu SMP PREEMPT_DYNAMIC Fri Apr 21 16:51:08 UTC 2");
            reveal_strlit("RISC-V SiFive Freedom U740 SoC");
            reveal_strlit("localhost");
            lemma_ascii_fits("Linux"@);
            lemma_ascii_fits("5.19.0-42-generic"@);
            lemma_ascii_fits("#43~22.04.1-Ubuntu SMP PREEMPT_DYNAMIC Fri Apr 21 16:51:08 UTC 2"@);
            lemma_ascii_fits("RISC-V SiFive Freedom U740 SoC"@);
            lemma_ascii_fits("localhost"@);
        }
        Self {
            sysname: String::from_str("Linux"),
            nodename: String::from_str("Linux"),
            release: String::from_str("5.19.0-42-generic"),
            version: String::from_str(
                "#43~22.04.1-Ubuntu SMP PREEMPT_DYNAMIC Fri Apr 21 16:51:08 UTC 2",
            ),
            machine: String::from_str("RISC-V SiFive Freedom U740 SoC"),
            domainname: String::from_str("localhost"),
        }
    }

    /// The names as a `utsname` record.
    pub fn get_utsname(&self) -> (r: UtsName)
        requires
            self.fits(),
        ensures
            r.sysname@ == padded_field(encode_utf8(self.sysname@)),
            r.nodename@ == padded_field(encode_utf8(self.nodename@)),
            r.release@ == padded_field(encode_utf8(self.release@)),
            r.version@ == padded_field(encode_utf8(self.version@)),
            r.machine@ == padded_field(encode_utf8(self.machine@)),
            r.domainname@ == padded_field(encode_utf8(self.domainname@)),
    {
        UtsName {
            sysname: name_field(&self.sysname),
            nodename: name_field(&self.nodename),
            release: name_field(&self.release),
            version: name_field(&self.version),
            machine: name_field(&self.machine),
            domainname: name_field(&self.domainname),
        }
    }

    /// Set the node name.
    pub fn set_nodename(&mut self, nodename: &str)
        ensures
            final(self).nodename@ == nodename@,
            final(self).sysname == old(self).sysname,
            final(self).release == old(self).release,
            final(self).version == old(self).version,
            final(self).machine == old(self).machine,
            final(self).domainname == old(self).domainname,
    {
        self.nodename = String::from_str(nodename);
    }

    /// Set the domain name.
    pub fn set_domainname(&mut self, domainname: &str)
        ensures
            final(self).domainname@ == domainname@,
            final(self).sysname == old(self).sysname,
            final(self).nodename == old(self).nodename,
            final(self).release == old(self).release,
            final(self).version == old(self).version,
            final(self).machine == old(self).machine,
    {
        self.domainname = String::from_str(domainname);
    }
}

/// syscall uname: the record to copy to the user's buffer.
pub fn sys_uname(uts: &UtsManager) -> (r: UtsName)
    requires
        uts.fits(),
    ensures
        r.sysname@ == padded_field(encode_utf8(uts.sysname@)),
        r.nodename@ == padded_field(encode_utf8(uts.nodename@)),
        r.release@ == padded_field(encode_utf8(uts.release@)),
        r.version@ == padded_field(encode_utf8(uts.version@)),
        r.machine@ == padded_field(encode_utf8(uts.machine@)),
        r.domainname@ == padded_field(encode_utf8(uts.domainname@)),
{
    uts.get_utsname()
}

/// syscall getdomainname: the first `len` bytes of the domain-name field, to
/// copy to the user's buffer of that length.
pub fn sys_getdomainname(uts: &UtsManager, len: usize) -> (r: Vec<u8>)
    requires
        uts.fits(),
        len <= 65,
    ensures
        r@ == padded_field(encode_utf8(uts.domainname@)).subrange(0, len as int),
{
    let name = uts.get_utsname().domainname;
    let mut out: Vec<u8> = Vec::new();
    let mut i: usize = 0;
    while i < len
        invariant
            i <= len,
            len <= 65,
            name@ == padded_field(encode_utf8(uts.domainname@)),
            out@ == name@.subrange(0, i as int),
        decreases len - i,
    {
        out.push(name[i]);
        i = i + 1;
        assert(out@ =~= name@.subrange(0, i as int));
    }
    out
}

/// syscall setdomainname, argument checks made before the user's buffer is
/// read: a length that is negative or above 64 is `EINVAL`, a null buffer `EFAULT`.
pub fn setdomainname_check(buf_ptr: usize, len: isize) -> (r: Result<(), SysError>)
    ensures
        (len < 0 || len > 64) ==> r == Err::<(), SysError>(SysError::EINVAL),
        !(len < 0 || len > 64) && buf_ptr == 0 ==> r == Err::<(), SysError>(SysError::EFAULT),
        !(len < 0 || len > 64) && buf_ptr != 0 ==> r is Ok,
{
    if len < 0 || len > 64 {
        return Err(SysError::EINVAL);
    }
    if buf_ptr == 0 {
        return Err(SysError::EFAULT);
    }
    Ok(())
}

/// syscall setdomainname, once the user's buffer has been read: the bytes
/// must be valid UTF-8 (else `EINVAL`); they become the domain name.
pub fn sys_setdomainname(uts: &mut UtsManager, bytes: Vec<u8>) -> (r: SysResult)
    ensures
        valid_utf8(bytes@) ==> r == Ok::<isize, SysError>(0) && final(uts).domainname@
            == decode_utf8(bytes@),
        !valid_utf8(bytes@) ==> r == Err::<isize, SysError>(SysError::EINVAL),
        final(uts).sysname == old(uts).sysname,
        final(uts).nodename == old(uts).nodename,
        final(uts).release == old(uts).release,
        final(uts).version == old(uts).version,
        final(uts).machine == old(uts).machine,
        !valid_utf8(bytes@) ==> final(uts).domainname == old(uts).domainname,
{
    match string_from_utf8(bytes) {
        Some(name) => {
            uts.set_domainname(name.as_str());
            Ok(0)
        },
        None => Err(SysError::EINVAL),
    }
}


/// What `getdomainname` reads back after `setdomainname` wrote valid UTF-8
/// `bytes`: the domain-name field holds exactly those bytes, zero-padded.
pub proof fn lemma_domainname_read_after_write(bytes: Seq<u8>, name: Seq<char>)
    requires
        valid_utf8(bytes),
        name == decode_utf8(bytes),
    ensures
        padded_field(encode_utf8(name)) == padded_field(bytes),
{
    vstd::utf8::decode_utf8_encode_utf8(bytes);
}

} // verus!
