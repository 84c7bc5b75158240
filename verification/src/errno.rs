//! Error numbers returned by system calls (linux/include/uapi/asm-generic/errno.h).

use vstd::prelude::*;

verus! {

/// A system-call error; its number is given by `SysError::code`.
#[derive(Clone, Copy, Debug, PartialEq, Eq, Structural)]
pub enum SysError {
    /// Operation not permitted
    EPERM,
    /// No such file or directory
    ENOENT,
    /// No such process
    ESRCH,
    /// Interrupted system call
    EINTR,
    /// I/O error
    EIO,
    /// No such device or address
    ENXIO,
    /// Argument list too long
    E2BIG,
    /// Exec format error
    ENOEXEC,
    /// Bad file number
    EBADF,
    /// No child processes
    ECHILD,
    /// Resource temporarily unavailable
    EAGAIN,
    /// Out of memory
    ENOMEM,
    /// Permission denied
    EACCES,
    /// Bad address
    EFAULT,
    /// Block device required
    ENOTBLK,
    /// Device or resource busy
    EBUSY,
    /// File exists
    EEXIST,
    /// Cross-device link
    EXDEV,
    /// No such device
    ENODEV,
    /// Not a directory
    ENOTDIR,
    /// Is a directory
    EISDIR,
    /// Invalid argument
    EINVAL,
    /// File table overflow
    ENFILE,
    /// Too many open files
    EMFILE,
    /// Not a typewriter
    ENOTTY,
    /// Text file busy
    ETXTBSY,
    /// File too large
    EFBIG,
    /// No space left on device
    ENOSPC,
    /// Illegal seek
    ESPIPE,
    /// Read-only file system
    EROFS,
    /// Too many links
    EMLINK,
    /// Broken pipe
    EPIPE,
    /// Math argument out of domain of func
    EDOM,
    /// Math result not representable
    ERANGE,
    /// Resource deadlock would occur
    EDEADLK,
    /// File name too long
    ENAMETOOLONG,
    /// No record locks available
    ENOLCK,
    /// Invalid system call number
    ENOSYS,
    /// Directory not empty
    ENOTEMPTY,
    /// Too many symbolic links encountered
    ELOOP,
    /// Timer expired
    ETIME,
    /// Socket operation on non-socket
    ENOTSOCK,
    /// Message too long
    EMSGSIZE,
    /// Socket option not supported
    ENOPROTOOPT,
    /// Protocol not supported
    EPROTONOSUPPORT,
    /// Operation not supported
    EOPNOTSUPP,
    /// Address family not supported
    EAFNOSUPPORT,
    /// Socket address is already in use
    EADDRINUSE,
    /// Address not available
    EADDRNOTAVAIL,
    /// Connection reset
    ECONNRESET,
    /// Transport endpoint is already connected
    EISCONN,
    /// The socket is not connected
    ENOTCONN,
    /// Timed out
    ETIMEOUT,
    /// Connection refused
    ECONNREFUSED,
    /// Operation now in progress
    EINPROGRESS,
    /// Owner died
    EOWNERDIED,
}

/// The result of a system call: a non-negative value on success.
pub type SysResult = Result<isize, SysError>;

impl SysError {
    /// The error number of this error.
    pub open spec fn spec_code(self) -> int {
        match self {
            SysError::EPERM => 1,
            SysError::ENOENT => 2,
            SysError::ESRCH => 3,
            SysError::EINTR => 4,
            SysError::EIO => 5,
            SysError::ENXIO => 6,
            SysError::E2BIG => 7,
            SysError::ENOEXEC => 8,
            SysError::EBADF => 9,
            SysError::ECHILD => 10,
            SysError::EAGAIN => 11,
            SysError::ENOMEM => 12,
            SysError::EACCES => 13,
            SysError::EFAULT => 14,
            SysError::ENOTBLK => 15,
            SysError::EBUSY => 16,
            SysError::EEXIST => 17,
            SysError::EXDEV => 18,
            SysError::ENODEV => 19,
            SysError::ENOTDIR => 20,
            SysError::EISDIR => 21,
            SysError::EINVAL => 22,
            SysError::ENFILE => 23,
            SysError::EMFILE => 24,
            SysError::ENOTTY => 25,
            SysError::ETXTBSY => 26,
            SysError::EFBIG => 27,
            SysError::ENOSPC => 28,
            SysError::ESPIPE => 29,
            SysError::EROFS => 30,
            SysError::EMLINK => 31,
            SysError::EPIPE => 32,
            SysError::EDOM => 33,
            SysError::ERANGE => 34,
            SysError::EDEADLK => 35,
            SysError::ENAMETOOLONG => 36,
            SysError::ENOLCK => 37,
            SysError::ENOSYS => 38,
            SysError::ENOTEMPTY => 39,
            SysError::ELOOP => 40,
            SysError::ETIME => 62,
            SysError::ENOTSOCK => 88,
            SysError::EMSGSIZE => 90,
            SysError::ENOPROTOOPT => 92,
            SysError::EPROTONOSUPPORT => 93,
            SysError::EOPNOTSUPP => 95,
            SysError::EAFNOSUPPORT => 97,
            SysError::EADDRINUSE => 98,
            SysError::EADDRNOTAVAIL => 99,
            SysError::ECONNRESET => 104,
            SysError::EISCONN => 106,
            SysError::ENOTCONN => 107,
            SysError::ETIMEOUT => 110,
            SysError::ECONNREFUSED => 111,
            SysError::EINPROGRESS => 115,
            SysError::EOWNERDIED => 130,
        }
    }

    /// Get the error number as an `isize`.
    pub fn code(self) -> (r: isize)
        ensures
            r == self.spec_code(),
    {
        match self {
            SysError::EPERM => 1,
            SysError::ENOENT => 2,
            SysError::ESRCH => 3,
            SysError::EINTR => 4,
            SysError::EIO => 5,
            SysError::ENXIO => 6,
            SysError::E2BIG => 7,
            SysError::ENOEXEC => 8,
            SysError::EBADF => 9,
            SysError::ECHILD => 10,
            SysError::EAGAIN => 11,
            SysError::ENOMEM => 12,
            SysError::EACCES => 13,
            SysError::EFAULT => 14,
            SysError::ENOTBLK => 15,
            SysError::EBUSY => 16,
            SysError::EEXIST => 17,
            SysError::EXDEV => 18,
            SysError::ENODEV => 19,
            SysError::ENOTDIR => 20,
            SysError::EISDIR => 21,
            SysError::EINVAL => 22,
            SysError::ENFILE => 23,
            SysError::EMFILE => 24,
            SysError::ENOTTY => 25,
            SysError::ETXTBSY => 26,
            SysError::EFBIG => 27,
            SysError::ENOSPC => 28,
            SysError::ESPIPE => 29,
            SysError::EROFS => 30,
            SysError::EMLINK => 31,
            SysError::EPIPE => 32,
            SysError::EDOM => 33,
            SysError::ERANGE => 34,
            SysError::EDEADLK => 35,
            SysError::ENAMETOOLONG => 36,
            SysError::ENOLCK => 37,
            SysError::ENOSYS => 38,
            SysError::ENOTEMPTY => 39,
            SysError::ELOOP => 40,
            SysError::ETIME => 62,
            SysError::ENOTSOCK => 88,
            SysError::EMSGSIZE => 90,
            SysError::ENOPROTOOPT => 92,
            SysError::EPROTONOSUPPORT => 93,
            SysError::EOPNOTSUPP => 95,
            SysError::EAFNOSUPPORT => 97,
            SysError::EADDRINUSE => 98,
            SysError::EADDRNOTAVAIL => 99,
            SysError::ECONNRESET => 104,
            SysError::EISCONN => 106,
            SysError::ENOTCONN => 107,
            SysError::ETIMEOUT => 110,
            SysError::ECONNREFUSED => 111,
            SysError::EINPROGRESS => 115,
            SysError::EOWNERDIED => 130,
        }
    }

    /// Get the error whose number is `e`; `e` must be the number of some error.
    pub fn from_i32(e: i32) -> (r: SysError)
        requires
            is_errno(e as int),
        ensures
            r.spec_code() == e,
    {
        match e {
            1 => SysError::EPERM,
            2 => SysError::ENOENT,
            3 => SysError::ESRCH,
            4 => SysError::EINTR,
            5 => SysError::EIO,
            6 => SysError::ENXIO,
            7 => SysError::E2BIG,
            8 => SysError::ENOEXEC,
            9 => SysError::EBADF,
            10 => SysError::ECHILD,
            11 => SysError::EAGAIN,
            12 => SysError::ENOMEM,
            13 => SysError::EACCES,
            14 => SysError::EFAULT,
            15 => SysError::ENOTBLK,
            16 => SysError::EBUSY,
            17 => SysError::EEXIST,
            18 => SysError::EXDEV,
            19 => SysError::ENODEV,
            20 => SysError::ENOTDIR,
            21 => SysError::EISDIR,
            22 => SysError::EINVAL,
            23 => SysError::ENFILE,
            24 => SysError::EMFILE,
            25 => SysError::ENOTTY,
            26 => SysError::ETXTBSY,
            27 => SysError::EFBIG,
            28 => SysError::ENOSPC,
            29 => SysError::ESPIPE,
            30 => SysError::EROFS,
            31 => SysError::EMLINK,
            32 => SysError::EPIPE,
            33 => SysError::EDOM,
            34 => SysError::ERANGE,
            35 => SysError::EDEADLK,
            36 => SysError::ENAMETOOLONG,
            37 => SysError::ENOLCK,
            38 => SysError::ENOSYS,
            39 => SysError::ENOTEMPTY,
            40 => SysError::ELOOP,
            62 => SysError::ETIME,
            88 => SysError::ENOTSOCK,
            90 => SysError::EMSGSIZE,
            92 => SysError::ENOPROTOOPT,
            93 => SysError::EPROTONOSUPPORT,
            95 => SysError::EOPNOTSUPP,
            97 => SysError::EAFNOSUPPORT,
            98 => SysError::EADDRINUSE,
            99 => SysError::EADDRNOTAVAIL,
            104 => SysError::ECONNRESET,
            106 => SysError::EISCONN,
            107 => SysError::ENOTCONN,
            110 => SysError::ETIMEOUT,
            111 => SysError::ECONNREFUSED,
            115 => SysError::EINPROGRESS,
            130 => SysError::EOWNERDIED,
            _ => SysError::EOWNERDIED,
        }
    }
}

/// Whether `e` is the number of some `SysError`.
pub open spec fn is_errno(e: int) -> bool {
    exists|s: SysError| s.spec_code() == e
}

/// Distinct errors have distinct numbers.
pub proof fn lemma_code_injective(a: SysError, b: SysError)
    ensures
        a.spec_code() == b.spec_code() <==> a == b,
{
}

} // verus!
