//! Helpers for paths: the name and the parent of an absolute path, and
//! an absolute path made of a parent and a relative path.

use vstd::prelude::*;
use crate::errno::SysError;
use crate::fd_table::{FdTable, FileId, slot_used};
use crate::sys_fs::{AT_EMPTY_PATH, AT_SYMLINK_NOFOLLOW};
use crate::uts::string_from_utf8;
use vstd::utf8::{valid_utf8, decode_utf8};

verus! {

/// `s` without its trailing slashes.
pub open spec fn trim_end_slashes(s: Seq<char>) -> Seq<char>
    decreases s.len(),
{
    if s.len() > 0 && s.last() == '/' {
        trim_end_slashes(s.drop_last())
    } else {
        s
    }
}

/// The index of the last slash of `s`, or -1 when it has none.
pub open spec fn last_slash(s: Seq<char>) -> int
    decreases s.len(),
{
    if s.len() == 0 {
        -1
    } else if s.last() == '/' {
        s.len() - 1
    } else {
        last_slash(s.drop_last())
    }
}

/// `s` without its leading `./` prefixes.
pub open spec fn trim_dot_slashes(s: Seq<char>) -> Seq<char>
    decreases s.len(),
{
    if s.len() >= 2 && s[0] == '.' && s[1] == '/' {
        trim_dot_slashes(s.subrange(2, s.len() as int))
    } else {
        s
    }
}

proof fn lemma_trim_end_slashes(s: Seq<char>)
    ensures
        trim_end_slashes(s).len() <= s.len(),
        trim_end_slashes(s) == s.subrange(0, trim_end_slashes(s).len() as int),
        trim_end_slashes(s).len() > 0 ==> trim_end_slashes(s).last() != '/',
    decreases s.len(),
{
    if s.len() > 0 && s.last() == '/' {
        lemma_trim_end_slashes(s.drop_last());
        assert(s.drop_last().subrange(0, trim_end_slashes(s).len() as int) =~= s.subrange(
            0,
            trim_end_slashes(s).len() as int,
        ));
    } else {
        assert(s.subrange(0, s.len() as int) =~= s);
    }
}

proof fn lemma_last_slash(s: Seq<char>)
    ensures
        -1 <= last_slash(s) < s.len(),
        last_slash(s) >= 0 ==> s[last_slash(s)] == '/',
        forall|j: int| last_slash(s) < j < s.len() ==> s[j] != '/',
    decreases s.len(),
{
    if s.len() > 0 && s.last() != '/' {
        lemma_last_slash(s.drop_last());
        assert forall|j: int| last_slash(s) < j < s.len() implies s[j] != '/' by {
            if j < s.len() - 1 {
                assert(s.drop_last()[j] == s[j]);
            }
        }
    }
}

/// The length of `s` without its trailing slashes.
fn trimmed_len(s: &str) -> (r: usize)
    ensures
        r == trim_end_slashes(s@).len(),
{
    let n = s.unicode_len();
    let mut end: usize = n;
    proof {
        assert(s@.subrange(0, n as int) =~= s@);
    }
    while end > 0 && s.get_char(end - 1) == '/'
        invariant
            end <= s@.len(),
            trim_end_slashes(s@) == trim_end_slashes(s@.subrange(0, end as int)),
        decreases end,
    {
        proof {
            assert(s@.subrange(0, end as int).drop_last() =~= s@.subrange(0, end - 1));
        }
        end = end - 1;
    }
    proof {
        if end > 0 {
            assert(s@.subrange(0, end as int).last() == s@[end - 1]);
        }
    }
    end
}

/// The index of the last slash among the first `end` characters of `s`.
fn find_last_slash(s: &str, end: usize) -> (r: Option<usize>)
    requires
        end <= s@.len(),
    ensures
        r is None <==> last_slash(s@.subrange(0, end as int)) == -1,
        r matches Some(p) ==> p == last_slash(s@.subrange(0, end as int)),
{
    let mut i: usize = end;
    while i > 0 && s.get_char(i - 1) != '/'
        invariant
            i <= end <= s@.len(),
            last_slash(s@.subrange(0, end as int)) == last_slash(s@.subrange(0, i as int)),
        decreases i,
    {
        proof {
            assert(s@.subrange(0, i as int).drop_last() =~= s@.subrange(0, i - 1));
        }
        i = i - 1;
    }
    if i == 0 {
        None
    } else {
        proof {
            assert(s@.subrange(0, i as int).last() == s@[i - 1]);
        }
        Some(i - 1)
    }
}

/// get the file name using the absolute path: the part after the last
/// slash once trailing slashes are gone (for example: a/b/c -> c,
/// /a/b/c/ -> c); `None` for an empty path.
pub fn abs_path_to_name(path: &str) -> (r: Option<String>)
    ensures
        path@.len() == 0 ==> r is None,
        path@.len() > 0 ==> r is Some && r->Some_0@ == ({
            let t = trim_end_slashes(path@);
            t.subrange(last_slash(t) + 1, t.len() as int)
        }),
{
    if path.unicode_len() == 0 {
        return None;
    }
    let end = trimmed_len(path);
    proof {
        lemma_trim_end_slashes(path@);
    }
    proof {
        lemma_last_slash(path@.subrange(0, end as int));
    }
    let start: usize = match find_last_slash(path, end) {
        Some(p) => p + 1,
        None => 0,
    };
    let name = path.substring_char(start, end);
    proof {
        let t = trim_end_slashes(path@);
        assert(t.subrange(last_slash(t) + 1, t.len() as int) =~= path@.subrange(start as int, end as int));
    }
    Some(String::from_str(name))
}

/// get the parent path using absolute path: what precedes the last slash
/// once trailing slashes are gone, or "/" when that slash is the first
/// character (for example: /a/b/c -> /a/b); `None` when there is no
/// slash.
pub fn abs_path_to_parent(path: &str) -> (r: Option<String>)
    ensures
        ({
            let t = trim_end_slashes(path@);
            let p = last_slash(t);
            &&& p == -1 ==> r is None
            &&& p == 0 ==> r is Some && r->Some_0@ == seq!['/']
            &&& p > 0 ==> r is Some && r->Some_0@ == t.subrange(0, p)
        }),
{
    let end = trimmed_len(path);
    proof {
        lemma_trim_end_slashes(path@);
        lemma_last_slash(path@.subrange(0, end as int));
    }
    match find_last_slash(path, end) {
        None => None,
        Some(pos) => {
            if pos == 0 {
                let root = "/";
                proof {
                    reveal_strlit("/");
                }
                Some(String::from_str(root))
            } else {
                let parent = path.substring_char(0, pos);
                proof {
                    let t = trim_end_slashes(path@);
                    assert(t.subrange(0, pos as int) =~= path@.subrange(0, pos as int));
                }
                Some(String::from_str(parent))
            }
        },
    }
}

/// The parent path as it is joined to a relative path: itself when it is
/// "/" or ends with a slash, else with a slash added.
pub open spec fn joined_parent(parent: Seq<char>) -> Seq<char> {
    if parent.len() == 1 || parent.last() == '/' {
        parent
    } else {
        parent.push('/')
    }
}

/// use the parent path and the relative path to generate the absolute
/// path: the parent must be absolute (`None` otherwise); leading "./" of
/// the relative path are dropped, and when nothing (or ".") is left the
/// result is the parent without trailing slashes, or "/" when the parent
/// is the root, so the result is always absolute.
pub fn rel_path_to_abs(parent_path: &str, rel_path: &str) -> (r: Option<String>)
    ensures
        !(parent_path@.len() > 0 && parent_path@[0] == '/') ==> r is None,
        r matches Some(p) ==> p@.len() > 0 && p@[0] == '/',
        parent_path@.len() > 0 && parent_path@[0] == '/' ==> r is Some && ({
            let abs = joined_parent(parent_path@);
            let rel = trim_dot_slashes(rel_path@);
            r->Some_0@ == (if rel.len() == 0 || rel == seq!['.'] {
                if trim_end_slashes(abs).len() == 0 {
                    seq!['/']
                } else {
                    trim_end_slashes(abs)
                }
            } else {
                abs + rel
            })
        }),
{
    let plen = parent_path.unicode_len();
    if plen == 0 || parent_path.get_char(0) != '/' {
        return None;
    }
    let mut abs_path = String::from_str(parent_path);
    if plen == 1 || parent_path.get_char(plen - 1) == '/' {
    } else {
        let slash = "/";
        proof {
            reveal_strlit("/");
        }
        abs_path.append(slash);
    }
    assert(abs_path@ =~= joined_parent(parent_path@));
    let rlen = rel_path.unicode_len();
    let mut start: usize = 0;
    proof {
        assert(rel_path@.subrange(0, rlen as int) =~= rel_path@);
    }
    while rlen - start >= 2 && rel_path.get_char(start) == '.' && rel_path.get_char(start + 1) == '/'
        invariant
            start <= rlen,
            rlen == rel_path@.len(),
            trim_dot_slashes(rel_path@) == trim_dot_slashes(rel_path@.subrange(start as int, rlen as int)),
        decreases rlen - start,
    {
        proof {
            let s = rel_path@.subrange(start as int, rlen as int);
            assert(s.subrange(2, s.len() as int) =~= rel_path@.subrange(start + 2, rlen as int));
        }
        start = start + 2;
    }
    let rel = rel_path.substring_char(start, rlen);
    proof {
        let s = rel_path@.subrange(start as int, rlen as int);
        assert(rel@ == s);
        assert(!(s.len() >= 2 && s[0] == '.' && s[1] == '/'));
        assert(trim_dot_slashes(rel_path@) == s);
    }
    let rel_len = rel.unicode_len();
    if rel_len == 0 || (rel_len == 1 && rel.get_char(0) == '.') {
        proof {
            if rel_len == 1 {
                assert(rel@ =~= seq!['.']);
            }
        }
        let end = trimmed_len(abs_path.as_str());
        proof {
            lemma_trim_end_slashes(abs_path@);
        }
        if end == 0 {
            let root = "/";
            proof {
                reveal_strlit("/");
            }
            return Some(String::from_str(root));
        }
        let trimmed = abs_path.as_str().substring_char(0, end);
        return Some(String::from_str(trimmed));
    }
    proof {
        if rel@ == seq!['.'] {
            assert(rel@.len() == 1);
        }
    }
    abs_path.append(rel);
    Some(abs_path)
}

/// translate a user space string to path: the bytes of the string (`None`
/// for a null pointer, or why they could not be read) must be UTF-8 and
/// not empty (`EINVAL`).
pub fn user_path_to_string(cpath: Option<Result<Vec<u8>, SysError>>) -> (r: Result<String, SysError>)
    ensures
        cpath is None ==> r == Err::<String, SysError>(SysError::EINVAL),
        cpath matches Some(Err(e)) ==> r == Err::<String, SysError>(e),
        cpath matches Some(Ok(b)) ==> (if !valid_utf8(b@) || b@.len() == 0 {
            r == Err::<String, SysError>(SysError::EINVAL)
        } else {
            r is Ok && r->Ok_0@ == decode_utf8(b@)
        }),
{
    let bytes = match cpath {
        None => return Err(SysError::EINVAL),
        Some(Err(e)) => return Err(e),
        Some(Ok(b)) => b,
    };
    let empty = bytes.len() == 0;
    match string_from_utf8(bytes) {
        None => Err(SysError::EINVAL),
        Some(s) => {
            if empty {
                Err(SysError::EINVAL)
            } else {
                Ok(s)
            }
        },
    }
}


proof fn lemma_last_slash_concat(a: Seq<char>, b: Seq<char>)
    requires
        a.len() > 0,
        a.last() == '/',
        forall|i: int| 0 <= i < b.len() ==> b[i] != '/',
    ensures
        last_slash(a + b) == a.len() - 1,
    decreases b.len(),
{
    if b.len() == 0 {
        assert(a + b =~= a);
    } else {
        assert((a + b).drop_last() =~= a + b.drop_last());
        lemma_last_slash_concat(a, b.drop_last());
    }
}

/// Joining a plain name (no slash, not ".") to an absolute parent and then
/// taking the name of the result gives the name back.
pub proof fn lemma_join_then_name(parent: Seq<char>, rel: Seq<char>)
    requires
        parent.len() > 0,
        parent[0] == '/',
        rel.len() > 0,
        forall|i: int| 0 <= i < rel.len() ==> rel[i] != '/',
        rel != seq!['.'],
    ensures
        trim_dot_slashes(rel) == rel,
        ({
            let t = trim_end_slashes(joined_parent(parent) + rel);
            t.subrange(last_slash(t) + 1, t.len() as int) == rel
        }),
{
    let jp = joined_parent(parent);
    let abs = jp + rel;
    assert(jp.len() > 0 && jp.last() == '/') by {
        if parent.len() == 1 {
            assert(parent.last() == parent[0]);
        }
    }
    assert(abs.last() == rel.last());
    assert(trim_end_slashes(abs) == abs);
    lemma_last_slash_concat(jp, rel);
    assert(abs.subrange(jp.len() as int, abs.len() as int) =~= rel);
    if rel.len() >= 2 {
        assert(rel[1] != '/');
    }
}


/// The working directory, as a directory descriptor.
pub const AT_FDCWD: isize = -100;

/// `s` without its leading `../` prefixes.
pub open spec fn trim_dot_dot_slashes(s: Seq<char>) -> Seq<char>
    decreases s.len(),
{
    if s.len() >= 3 && s[0] == '.' && s[1] == '.' && s[2] == '/' {
        trim_dot_dot_slashes(s.subrange(3, s.len() as int))
    } else {
        s
    }
}

/// The directory a relative path is looked up from.
#[derive(Clone, Copy, Debug, PartialEq, Eq, Structural)]
pub enum AtBase {
    /// The working directory.
    Cwd,
    /// The directory open as this file.
    File(FileId),
}

/// Where a `*at` system call looks its path up.
#[derive(Debug)]
pub enum AtLookup {
    /// This absolute path, from the root.
    Global(String),
    /// This relative path, joined to the base directory's path.
    Relative(AtBase, String),
    /// The base directory itself (an empty path with `AT_EMPTY_PATH`).
    Base(AtBase),
}

/// The base of `dirfd`: the working directory for `AT_FDCWD` (compared as a
/// 32-bit number), else the file open on it (`EBADF` when none is).
pub open spec fn at_base(table: &FdTable, dirfd: isize) -> Result<AtBase, SysError> {
    if dirfd as i32 == AT_FDCWD as i32 {
        Ok(AtBase::Cwd)
    } else if slot_used(table.slots(), dirfd as usize as int) {
        Ok(AtBase::File(table.slots()[dirfd as usize as int].unwrap().file))
    } else {
        Err(SysError::EBADF)
    }
}

fn base_of(table: &FdTable, dirfd: isize) -> (r: Result<AtBase, SysError>)
    ensures
        r == at_base(table, dirfd),
{
    if dirfd as i32 == AT_FDCWD as i32 {
        Ok(AtBase::Cwd)
    } else {
        match table.get_file(dirfd as usize) {
            Ok(f) => Ok(AtBase::File(f)),
            Err(e) => Err(e),
        }
    }
}

/// The lookup of a non-empty path `p`: an absolute path from the root, a
/// relative one, without its leading `../`, from the base of `dirfd`; and
/// whether the final symbolic link is followed.
pub open spec fn resolves(table: &FdTable, dirfd: isize, p: Seq<char>, flags: i32, r: Result<(AtLookup, bool), SysError>) -> bool {
    let follow = flags & AT_SYMLINK_NOFOLLOW == 0;
    if p.len() > 0 && p[0] == '/' {
        r matches Ok((AtLookup::Global(q), f)) && q@ == p && f == follow
    } else {
        match at_base(table, dirfd) {
            Err(e) => r matches Err(x) && x == e,
            Ok(base) => r matches Ok((AtLookup::Relative(x, rel), f)) && x == base && rel@
                == trim_dot_dot_slashes(p) && f == follow,
        }
    }
}

/// Where a `*at` call looks `path` up, and whether the final symbolic link
/// is followed (unless `AT_SYMLINK_NOFOLLOW`): an absolute path from the
/// root; a relative one, without its leading `../` (which do not climb),
/// from the base of `dirfd`; an empty one, with `AT_EMPTY_PATH`, is the
/// base itself (`ENOENT` without it).
pub fn at_helper1(table: &FdTable, dirfd: isize, path: &str, flags: i32) -> (r: Result<(AtLookup, bool), SysError>)
    ensures
        ({
            let follow = flags & AT_SYMLINK_NOFOLLOW == 0;
            if path@.len() == 0 {
                if flags & AT_EMPTY_PATH == 0 {
                    r matches Err(e) && e == SysError::ENOENT
                } else {
                    match at_base(table, dirfd) {
                        Err(e) => r matches Err(x) && x == e,
                        Ok(b) => r matches Ok((AtLookup::Base(x), f)) && x == b && f == follow,
                    }
                }
            } else {
                resolves(table, dirfd, path@, flags, r)
            }
        }),
{
    let follow = flags & AT_SYMLINK_NOFOLLOW == 0;
    let n = path.unicode_len();
    if n == 0 {
        if flags & AT_EMPTY_PATH == 0 {
            return Err(SysError::ENOENT);
        }
        return match base_of(table, dirfd) {
            Ok(b) => Ok((AtLookup::Base(b), follow)),
            Err(e) => Err(e),
        };
    }
    if path.get_char(0) == '/' {
        return Ok((AtLookup::Global(String::from_str(path)), follow));
    }
    let base = match base_of(table, dirfd) {
        Ok(b) => b,
        Err(e) => return Err(e),
    };
    let mut start: usize = 0;
    proof {
        assert(path@.subrange(0, n as int) =~= path@);
    }
    while n - start >= 3 && path.get_char(start) == '.' && path.get_char(start + 1) == '.'
        && path.get_char(start + 2) == '/'
        invariant
            start <= n,
            n == path@.len(),
            trim_dot_dot_slashes(path@) == trim_dot_dot_slashes(path@.subrange(start as int, n as int)),
        decreases n - start,
    {
        proof {
            let s = path@.subrange(start as int, n as int);
            assert(s.subrange(3, s.len() as int) =~= path@.subrange(start + 3, n as int));
        }
        start = start + 3;
    }
    let rel = path.substring_char(start, n);
    proof {
        let s = path@.subrange(start as int, n as int);
        assert(rel@ == s);
        assert(!(s.len() >= 3 && s[0] == '.' && s[1] == '.' && s[2] == '/'));
    }
    Ok((AtLookup::Relative(base, String::from_str(rel)), follow))
}

/// Where a `*at` call with a path argument looks up: a null path without
/// `AT_EMPTY_PATH` is `EFAULT`; the path is read as `user_path_to_string`
/// reads it, then resolved as `at_helper1` resolves it.
pub fn at_helper(table: &FdTable, dirfd: isize, cpath: Option<Result<Vec<u8>, SysError>>, flags: i32) -> (r:
    Result<(AtLookup, bool), SysError>)
    ensures
        cpath is None && flags & AT_EMPTY_PATH == 0 ==> (r matches Err(e) && e == SysError::EFAULT),
        cpath is None && flags & AT_EMPTY_PATH != 0 ==> (r matches Err(e) && e == SysError::EINVAL),
        cpath matches Some(Err(e)) ==> (r matches Err(x) && x == e),
        cpath matches Some(Ok(b)) && (!valid_utf8(b@) || b@.len() == 0) ==> (r matches Err(e) && e
            == SysError::EINVAL),
        cpath matches Some(Ok(b)) ==> (valid_utf8(b@) && b@.len() > 0 ==> resolves(
            table,
            dirfd,
            decode_utf8(b@),
            flags,
            r,
        )),
{
    if cpath.is_none() && flags & AT_EMPTY_PATH == 0 {
        return Err(SysError::EFAULT);
    }
    let ghost c = cpath;
    let path = match user_path_to_string(cpath) {
        Ok(p) => p,
        Err(e) => return Err(e),
    };
    proof {
        if let Some(Ok(b)) = c {
            assert(path@ == decode_utf8(b@));
            vstd::utf8::decode_utf8_encode_utf8(b@);
            assert(path@.len() > 0);
        }
    }
    at_helper1(table, dirfd, path.as_str(), flags)
}

} // verus!
