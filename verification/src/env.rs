//! Whether the supervisor may touch user memory (the SUM bit of `sstatus`):
//! the flag each processor keeps, and what must be done to the bit.

use vstd::prelude::*;

verus! {

/// The processor's environment.
#[derive(Clone, Copy, Debug, PartialEq, Eq, Structural)]
pub struct EnvContext {
    /// Permit supervisor user memory access
    sum_flag: usize,
}

impl EnvContext {
    /// The flag: 1 when user memory access is permitted.
    pub closed spec fn spec_sum_flag(self) -> usize {
        self.sum_flag
    }

    /// A context that does not permit user memory access.
    pub fn new() -> (r: Self)
        ensures
            r.spec_sum_flag() == 0,
    {
        Self { sum_flag: 0 }
    }

    /// What the SUM bit must become for this context: set unless the flag
    /// is zero.
    pub fn auto_sum(&self) -> (r: bool)
        ensures
            r == (self.spec_sum_flag() != 0),
    {
        self.sum_flag != 0
    }

    /// What the SUM bit must become when switching to `new`.
    pub fn change_env(&self, new: &Self) -> (r: bool)
        ensures
            r == (new.spec_sum_flag() != 0),
    {
        new.auto_sum()
    }

    /// Permit user memory access: when it was not yet, the flag becomes 1
    /// and the bit must be set (the result is true).
    pub fn sum_inc(&mut self) -> (r: bool)
        ensures
            r == (old(self).spec_sum_flag() == 0),
            final(self).spec_sum_flag() == (if old(self).spec_sum_flag() == 0 {
                1
            } else {
                old(self).spec_sum_flag()
            }),
    {
        if self.sum_flag == 0 {
            self.sum_flag = 1;
            true
        } else {
            false
        }
    }

    /// Forbid user memory access: when the flag was 1, it becomes 0 and the
    /// bit must be cleared (the result is true).
    pub fn sum_dec(&mut self) -> (r: bool)
        ensures
            r == (old(self).spec_sum_flag() == 1),
            final(self).spec_sum_flag() == (if old(self).spec_sum_flag() == 1 {
                0
            } else {
                old(self).spec_sum_flag()
            }),
    {
        if self.sum_flag == 1 {
            self.sum_flag = 0;
            true
        } else {
            false
        }
    }
}

/// Permission to touch user memory while it lives.
pub struct SumGuard {}

impl SumGuard {
    /// Take the permission in `env`; the flag is then 1, and the result
    /// says whether the bit must be set now.
    pub fn new(env: &mut EnvContext) -> (r: (Self, bool))
        ensures
            r.1 == (old(env).spec_sum_flag() == 0),
            final(env).spec_sum_flag() == (if old(env).spec_sum_flag() == 0 {
                1
            } else {
                old(env).spec_sum_flag()
            }),
    {
        let set = env.sum_inc();
        (SumGuard {  }, set)
    }

    /// Give the permission back to `env`; the result says whether the bit
    /// must be cleared now.
    pub fn release(self, env: &mut EnvContext) -> (r: bool)
        ensures
            r == (old(env).spec_sum_flag() == 1),
            final(env).spec_sum_flag() == (if old(env).spec_sum_flag() == 1 {
                0
            } else {
                old(env).spec_sum_flag()
            }),
    {
        env.sum_dec()
    }
}

} // verus!
