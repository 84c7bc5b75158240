//! Per-task bookkeeping of user and kernel time.
//!
//! The recording methods take the current time, read from the hardware
//! timer by the caller.

use vstd::prelude::*;
use crate::duration::{Duration, max_nanos};

verus! {

/// Time recorder for events in tasks and kernel functions.
pub struct TimeRecorder {
    /// User time.
    user_time: Duration,
    /// Kernel time.
    kernel_time: Duration,
    /// When the current kernel stretch started.
    kernel_start: Duration,
    /// When the current user stretch started.
    user_start: Duration,
    /// User time of waited-for children.
    child_user_time: Duration,
    /// Kernel time of waited-for children.
    child_kernel_time: Duration,
}

impl TimeRecorder {
    /// User time.
    pub closed spec fn spec_user_time(&self) -> Duration {
        self.user_time
    }

    /// Kernel time.
    pub closed spec fn spec_kernel_time(&self) -> Duration {
        self.kernel_time
    }

    /// Start of the current kernel stretch.
    pub closed spec fn spec_kernel_start(&self) -> Duration {
        self.kernel_start
    }

    /// Start of the current user stretch.
    pub closed spec fn spec_user_start(&self) -> Duration {
        self.user_start
    }

    /// User time of children.
    pub closed spec fn spec_child_user_time(&self) -> Duration {
        self.child_user_time
    }

    /// Kernel time of children.
    pub closed spec fn spec_child_kernel_time(&self) -> Duration {
        self.child_kernel_time
    }

    /// A recorder with every time zero.
    pub fn new() -> (r: Self)
        ensures
            r.spec_user_time()@ == 0,
            r.spec_kernel_time()@ == 0,
            r.spec_kernel_start()@ == 0,
            r.spec_user_start()@ == 0,
            r.spec_child_user_time()@ == 0,
            r.spec_child_kernel_time()@ == 0,
    {
        Self {
            user_time: Duration::zero(),
            kernel_time: Duration::zero(),
            kernel_start: Duration::zero(),
            user_start: Duration::zero(),
            child_user_time: Duration::zero(),
            child_kernel_time: Duration::zero(),
        }
    }

    /// User and kernel time.
    pub fn time_pair(&self) -> (r: (Duration, Duration))
        ensures
            r == (self.spec_user_time(), self.spec_kernel_time()),
    {
        (self.user_time, self.kernel_time)
    }

    /// User and kernel time of children.
    pub fn child_time_pair(&self) -> (r: (Duration, Duration))
        ensures
            r == (self.spec_child_user_time(), self.spec_child_kernel_time()),
    {
        (self.child_user_time, self.child_kernel_time)
    }

    /// User time.
    pub fn user_time(&self) -> (r: Duration)
        ensures
            r == self.spec_user_time(),
    {
        self.user_time
    }

    /// Kernel time.
    pub fn kernel_time(&self) -> (r: Duration)
        ensures
            r == self.spec_kernel_time(),
    {
        self.kernel_time
    }

    /// Time used on the processor: kernel plus user time.
    pub fn processor_time(&self) -> (r: Duration)
        requires
            self.spec_kernel_time()@ + self.spec_user_time()@ <= max_nanos(),
        ensures
            r@ == self.spec_kernel_time()@ + self.spec_user_time()@,
    {
        self.kernel_time.add(&self.user_time)
    }

    /// Set the start of the current user stretch.
    pub fn update_user_start(&mut self, user_start: Duration)
        ensures
            final(self).spec_user_start() == user_start,
            final(self).spec_user_time() == old(self).spec_user_time(),
            final(self).spec_kernel_time() == old(self).spec_kernel_time(),
            final(self).spec_kernel_start() == old(self).spec_kernel_start(),
            final(self).spec_child_user_time() == old(self).spec_child_user_time(),
            final(self).spec_child_kernel_time() == old(self).spec_child_kernel_time(),
    {
        self.user_start = user_start;
    }

    /// Add a waited-for child's user and kernel time to the children's totals.
    pub fn update_child_time(&mut self, child: (Duration, Duration))
        requires
            old(self).spec_child_user_time()@ + child.0@ <= max_nanos(),
            old(self).spec_child_kernel_time()@ + child.1@ <= max_nanos(),
        ensures
            final(self).spec_child_user_time()@ == old(self).spec_child_user_time()@ + child.0@,
            final(self).spec_child_kernel_time()@ == old(self).spec_child_kernel_time()@
                + child.1@,
            final(self).spec_user_time() == old(self).spec_user_time(),
            final(self).spec_kernel_time() == old(self).spec_kernel_time(),
            final(self).spec_kernel_start() == old(self).spec_kernel_start(),
            final(self).spec_user_start() == old(self).spec_user_start(),
    {
        self.child_user_time = self.child_user_time.add(&child.0);
        self.child_kernel_time = self.child_kernel_time.add(&child.1);
    }

    /// The task is switched in at `now`: a kernel stretch starts.
    pub fn record_switch_in(&mut self, now: Duration)
        ensures
            final(self).spec_kernel_start() == now,
            final(self).spec_user_time() == old(self).spec_user_time(),
            final(self).spec_kernel_time() == old(self).spec_kernel_time(),
            final(self).spec_user_start() == old(self).spec_user_start(),
            final(self).spec_child_user_time() == old(self).spec_child_user_time(),
            final(self).spec_child_kernel_time() == old(self).spec_child_kernel_time(),
    {
        self.kernel_start = now;
    }

    /// The task is switched out at `now`: the kernel stretch since the last
    /// switch-in or trap is added to the kernel time.
    pub fn record_switch_out(&mut self, now: Duration)
        requires
            old(self).spec_kernel_start()@ <= now@,
            old(self).spec_kernel_time()@ + (now@ - old(self).spec_kernel_start()@) <= max_nanos(),
        ensures
            final(self).spec_kernel_time()@ == old(self).spec_kernel_time()@ + (now@ - old(self).spec_kernel_start()@),
            final(self).spec_user_time() == old(self).spec_user_time(),
            final(self).spec_kernel_start() == old(self).spec_kernel_start(),
            final(self).spec_user_start() == old(self).spec_user_start(),
            final(self).spec_child_user_time() == old(self).spec_child_user_time(),
            final(self).spec_child_kernel_time() == old(self).spec_child_kernel_time(),
    {
        let slice = now.sub(&self.kernel_start);
        self.kernel_time = self.kernel_time.add(&slice);
    }

    /// A trap from user to kernel at `now`: the user stretch is added to the
    /// user time and a kernel stretch starts.
    pub fn record_trap(&mut self, now: Duration)
        requires
            old(self).spec_user_start()@ <= now@,
            old(self).spec_user_time()@ + (now@ - old(self).spec_user_start()@) <= max_nanos(),
        ensures
            final(self).spec_kernel_start() == now,
            final(self).spec_user_time()@ == old(self).spec_user_time()@ + (now@ - old(self).spec_user_start()@),
            final(self).spec_kernel_time() == old(self).spec_kernel_time(),
            final(self).spec_user_start() == old(self).spec_user_start(),
            final(self).spec_child_user_time() == old(self).spec_child_user_time(),
            final(self).spec_child_kernel_time() == old(self).spec_child_kernel_time(),
    {
        self.kernel_start = now;
        let slice = now.sub(&self.user_start);
        self.user_time = self.user_time.add(&slice);
    }

    /// The return from a trap to user at `now`: the kernel stretch, which
    /// started at the trap, is added to the kernel time, and a user stretch
    /// starts.
    pub fn record_trap_return(&mut self, now: Duration)
        requires
            old(self).spec_kernel_start()@ <= now@,
            old(self).spec_kernel_time()@ + (now@ - old(self).spec_kernel_start()@) <= max_nanos(),
        ensures
            final(self).spec_user_start() == now,
            final(self).spec_kernel_time()@ == old(self).spec_kernel_time()@ + (now@ - old(self).spec_kernel_start()@),
            final(self).spec_user_time() == old(self).spec_user_time(),
            final(self).spec_kernel_start() == old(self).spec_kernel_start(),
            final(self).spec_child_user_time() == old(self).spec_child_user_time(),
            final(self).spec_child_kernel_time() == old(self).spec_child_kernel_time(),
    {
        let slice = now.sub(&self.kernel_start);
        self.kernel_time = self.kernel_time.add(&slice);
        self.user_start = now;
    }
}

/// The total, in nanoseconds, of the first `n` durations.
pub open spec fn total_nanos(v: Seq<Duration>, n: int) -> int
    decreases n,
{
    if n <= 0 {
        0
    } else {
        total_nanos(v, n - 1) + v[n - 1]@
    }
}

/// The totals only grow.
proof fn lemma_total_nanos_mono(v: Seq<Duration>, i: int, j: int)
    requires
        0 <= i <= j <= v.len(),
    ensures
        total_nanos(v, i) <= total_nanos(v, j),
    decreases j - i,
{
    if i < j {
        lemma_total_nanos_mono(v, i, j - 1);
        Duration::lemma_nonneg(v[j - 1]);
    }
}

/// The sum of the times of a process's threads (each thread's user,
/// kernel or processor time), as `process_user_time` and
/// `process_cpu_time` add them up; a process has at least one thread.
pub fn process_time_sum(times: &Vec<Duration>) -> (r: Duration)
    requires
        times@.len() > 0,
        total_nanos(times@, times@.len() as int) <= max_nanos(),
    ensures
        r@ == total_nanos(times@, times@.len() as int),
{
    let mut acc = times[0];
    let mut i: usize = 1;
    assert(total_nanos(times@, 0) == 0);
    assert(total_nanos(times@, 1) == times@[0]@);
    while i < times.len()
        invariant
            1 <= i <= times@.len(),
            acc@ == total_nanos(times@, i as int),
            total_nanos(times@, times@.len() as int) <= max_nanos(),
        decreases times@.len() - i,
    {
        proof {
            lemma_total_nanos_mono(times@, i as int + 1, times@.len() as int);
        }
        acc = acc.add(&times[i]);
        i = i + 1;
    }
    acc
}

/// The user and kernel time of a process: the sums over its threads' pairs.
pub fn process_time_pair(pairs: &Vec<(Duration, Duration)>) -> (r: (Duration, Duration))
    requires
        pairs@.len() > 0,
        total_nanos(pairs@.map_values(|p: (Duration, Duration)| p.0), pairs@.len() as int) <= max_nanos(),
        total_nanos(pairs@.map_values(|p: (Duration, Duration)| p.1), pairs@.len() as int) <= max_nanos(),
    ensures
        r.0@ == total_nanos(pairs@.map_values(|p: (Duration, Duration)| p.0), pairs@.len() as int),
        r.1@ == total_nanos(pairs@.map_values(|p: (Duration, Duration)| p.1), pairs@.len() as int),
{
    let mut users: Vec<Duration> = Vec::new();
    let mut kernels: Vec<Duration> = Vec::new();
    let mut i: usize = 0;
    while i < pairs.len()
        invariant
            i <= pairs@.len(),
            users@ == pairs@.subrange(0, i as int).map_values(|p: (Duration, Duration)| p.0),
            kernels@ == pairs@.subrange(0, i as int).map_values(|p: (Duration, Duration)| p.1),
        decreases pairs@.len() - i,
    {
        let (u, k) = pairs[i];
        users.push(u);
        kernels.push(k);
        proof {
            assert(pairs@.subrange(0, i as int + 1).map_values(|p: (Duration, Duration)| p.0) =~= users@);
            assert(pairs@.subrange(0, i as int + 1).map_values(|p: (Duration, Duration)| p.1) =~= kernels@);
        }
        i = i + 1;
    }
    assert(pairs@.subrange(0, pairs@.len() as int) == pairs@);
    (process_time_sum(&users), process_time_sum(&kernels))
}

} // verus!
