//! `execve`: which program runs (a shell script runs under the shell) and
//! which threads end when a process runs a new program.

use vstd::prelude::*;
use crate::errno::SysError;

verus! {

/// The path of the shell that runs shell scripts.
pub fn script_shell() -> (r: String)
    ensures
        r@ == "/musl/busybox"@,
{
    String::from_str("/musl/busybox")
}

/// Where `execve` looks for the program.
#[derive(Clone, Copy, Debug, PartialEq, Eq, Structural)]
pub enum ExecLookup {
    /// The shell, by its absolute path.
    Shell,
    /// The path given, from the working directory.
    Given,
}

/// A path names a shell script: it ends in `.sh`.
pub open spec fn is_script(path: Seq<char>) -> bool {
    path.len() >= 3 && path[path.len() - 3] == '.' && path[path.len() - 2] == 's' && path[path.len() - 1] == 'h'
}

/// syscall execve, once the path and the argument strings are read: a
/// shell script runs under the shell, with `busybox` and `sh` put before
/// the arguments; any other path is run with the arguments as given.
pub fn sys_execve(path: &str, argv: Vec<String>) -> (r: (ExecLookup, Vec<String>))
    ensures
        is_script(path@) ==> r.0 == ExecLookup::Shell && r.1@.len() == argv@.len() + 2 && r.1@[0]@ == "busybox"@
            && r.1@[1]@ == "sh"@ && forall|i: int| 0 <= i < argv@.len() ==> #[trigger] r.1@[i + 2] == argv@[i],
        !is_script(path@) ==> r.0 == ExecLookup::Given && r.1@ == argv@,
{
    let n = path.unicode_len();
    let script = n >= 3 && path.get_char(n - 3) == '.' && path.get_char(n - 2) == 's' && path.get_char(n - 1)
        == 'h';
    if script {
        let mut args: Vec<String> = Vec::new();
        args.push(String::from_str("busybox"));
        args.push(String::from_str("sh"));
        let ghost front = args@;
        let mut rest = argv;
        let ghost given = rest@;
        args.append(&mut rest);
        assert(args@ == front + given);
        (ExecLookup::Shell, args)
    } else {
        (ExecLookup::Given, argv)
    }
}

/// The result of `execve` for the program found at the path: a path with
/// nothing behind it is `ENOENT`.
pub fn exec_found(exists: bool) -> (r: Result<(), SysError>)
    ensures
        exists ==> r is Ok,
        !exists ==> r == Err::<(), SysError>(SysError::ENOENT),
{
    if exists {
        Ok(())
    } else {
        Err(SysError::ENOENT)
    }
}

/// The threads of a process that end when thread `me` runs a new program:
/// all the others, in order.
pub fn exec_exiting_threads(threads: &Vec<usize>, me: usize) -> (r: Vec<usize>)
    ensures
        r@ == threads@.filter(|t: usize| t != me),
{
    let mut out: Vec<usize> = Vec::new();
    let mut i: usize = 0;
    while i < threads.len()
        invariant
            i <= threads@.len(),
            out@ == threads@.subrange(0, i as int).filter(|t: usize| t != me),
        decreases threads@.len() - i,
    {
        proof {
            reveal(Seq::filter);
            assert(threads@.subrange(0, i as int + 1).drop_last() == threads@.subrange(0, i as int));
        }
        if threads[i] != me {
            out.push(threads[i]);
        }
        i = i + 1;
    }
    assert(threads@.subrange(0, threads@.len() as int) == threads@);
    out
}

} // verus!
