//! Verified core of the Chronix kernel: the file-descriptor table, the
//! range set, timers and time bookkeeping, path helpers, the system-call
//! decisions that operate on them, and the user-side system-call encoding.

pub mod errno;
pub mod resource;
pub mod fd_table;

pub mod range_set;
pub mod duration;
pub mod time;
pub mod recorder;
pub mod timer;
pub mod cap;
pub mod uts;
pub mod sys_fs;
pub mod io;
pub mod sys_task;
pub mod sys_time;
pub mod bytes;
pub mod net;
pub mod futex;
pub mod round;
pub mod path;
pub mod auxv;
pub mod env;
pub mod user_syscall;
pub mod user_lib;
pub mod poll;
pub mod ipc;
pub mod tid;
pub mod mq;
pub mod vm;
pub mod signal;
pub mod clone;
pub mod exec;
pub mod dirent;
pub mod thread_group;
pub mod trap;
pub mod manager;
