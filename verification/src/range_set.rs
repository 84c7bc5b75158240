//! A set of points of a fixed range, kept as a segment tree whose nodes are
//! empty, full or half filled.
//!
//! A node over `[s, e)` splits at `s + (e - s) / 2`. A full or empty node
//! says the same of every point below it; a half node leaves the answer to
//! its children. A half node may lack a child; the points of a missing child
//! are then unknown, and a query that reaches them cannot be answered.

use vstd::prelude::*;
use core::ops::Range;

verus! {

/// The fill state of a tree node.
#[derive(Clone, Copy, Debug, PartialEq, Eq, Structural)]
enum NodeStatus {
    /// No point below the node is in the set.
    Empty,
    /// The children decide.
    Half,
    /// Every point below the node is in the set.
    Full,
}

/// Status of a node after its children changed.
spec fn combine(a: NodeStatus, b: NodeStatus) -> NodeStatus {
    if a != b {
        NodeStatus::Half
    } else {
        b
    }
}

fn combine_exec(a: NodeStatus, b: NodeStatus) -> (r: NodeStatus)
    ensures
        r == combine(a, b),
{
    if a != b {
        NodeStatus::Half
    } else {
        b
    }
}

/// Split point of the node range `[s, e)`.
pub open spec fn mid(s: int, e: int) -> int {
    s + (e - s) / 2
}

/// A node of the tree.
struct RangeSetNode {
    left: Option<Box<RangeSetNode>>,
    right: Option<Box<RangeSetNode>>,
    status: NodeStatus,
}

/// The number of points of `[a, b)` for which `f` holds.
pub open spec fn count_in(f: spec_fn(int) -> bool, a: int, b: int) -> nat
    decreases b - a,
{
    if b <= a {
        0
    } else {
        count_in(f, a, b - 1) + if f(b - 1) {
            1nat
        } else {
            0nat
        }
    }
}

/// Counting splits over adjacent intervals.
pub proof fn lemma_count_split(f: spec_fn(int) -> bool, a: int, b: int, c: int)
    requires
        a <= b <= c,
    ensures
        count_in(f, a, c) == count_in(f, a, b) + count_in(f, b, c),
    decreases c - b,
{
    if c > b {
        lemma_count_split(f, a, b, c - 1);
    }
}

/// Counting only depends on the values on the interval.
pub proof fn lemma_count_ext(f: spec_fn(int) -> bool, g: spec_fn(int) -> bool, a: int, b: int)
    requires
        forall|x: int| a <= x < b ==> #[trigger] f(x) == g(x),
    ensures
        count_in(f, a, b) == count_in(g, a, b),
    decreases b - a,
{
    if b > a {
        lemma_count_ext(f, g, a, b - 1);
    }
}

/// The count is at most the length, and reaches it exactly when `f` holds everywhere.
pub proof fn lemma_count_bounds(f: spec_fn(int) -> bool, a: int, b: int)
    requires
        a <= b,
    ensures
        count_in(f, a, b) <= b - a,
        count_in(f, a, b) == b - a <==> forall|x: int| a <= x < b ==> #[trigger] f(x),
        count_in(f, a, b) == 0 <==> forall|x: int| a <= x < b ==> !#[trigger] f(x),
    decreases b - a,
{
    if b > a {
        lemma_count_bounds(f, a, b - 1);
        if count_in(f, a, b) == b - a {
            assert forall|x: int| a <= x < b implies #[trigger] f(x) by {
                if x < b - 1 {
                } else {
                }
            }
        }
    }
}

impl RangeSetNode {
    /// A fresh, empty node.
    fn new() -> (r: Self)
        ensures
            r.left is None,
            r.right is None,
            r.status == NodeStatus::Empty,
    {
        Self { left: None, right: None, status: NodeStatus::Empty }
    }

    /// Whether point `x` of the node range `[s, e)` is in the set
    /// (`None`: unknown, below a missing child).
    spec fn view_at(self, s: int, e: int, x: int) -> Option<bool>
        decreases self,
    {
        match self.status {
            NodeStatus::Full => Some(true),
            NodeStatus::Empty => Some(false),
            NodeStatus::Half => {
                if x < mid(s, e) {
                    match self.left {
                        Some(l) => l.view_at(s, mid(s, e), x),
                        None => None,
                    }
                } else {
                    match self.right {
                        Some(r) => r.view_at(mid(s, e), e, x),
                        None => None,
                    }
                }
            },
        }
    }

    /// Every node below has status `st`.
    spec fn uniform(self, st: NodeStatus) -> bool
        decreases self,
    {
        &&& self.status == st
        &&& (match self.left {
            Some(l) => l.uniform(st),
            None => true,
        })
        &&& (match self.right {
            Some(r) => r.uniform(st),
            None => true,
        })
    }

    /// Shape invariant of the node over `[s, e)`: half nodes have at least
    /// two points and well-formed children, other nodes are uniform.
    spec fn wf(self, s: int, e: int) -> bool
        decreases self,
    {
        if self.status == NodeStatus::Half {
            &&& e - s >= 2
            &&& (match self.left {
                Some(l) => l.wf(s, mid(s, e)),
                None => true,
            })
            &&& (match self.right {
                Some(r) => r.wf(mid(s, e), e),
                None => true,
            })
        } else {
            self.uniform(self.status)
        }
    }

    /// The child used when an operation reaches it: the present one or a fresh empty node.
    spec fn child_or_new(c: Option<Box<RangeSetNode>>) -> RangeSetNode {
        match c {
            Some(n) => *n,
            None => RangeSetNode { left: None, right: None, status: NodeStatus::Empty },
        }
    }

    /// Status a child contributes to its parent's (the parent's own when missing).
    spec fn child_status(c: Option<Box<RangeSetNode>>, own: NodeStatus) -> NodeStatus {
        match c {
            Some(n) => n.status,
            None => own,
        }
    }

    /// The node over `[s, e)` after setting `[os, oe)` to `st`.
    spec fn spec_op(self, s: int, e: int, os: int, oe: int, st: NodeStatus) -> RangeSetNode
        decreases e - s,
        when s <= e
    {
        if os <= s && oe >= e {
            RangeSetNode { left: None, right: None, status: st }
        } else {
            let m = mid(s, e);
            let l = if s < oe && m > os {
                Some(Box::new(Self::child_or_new(self.left).spec_op(s, m, os, oe, st)))
            } else {
                self.left
            };
            let r = if m < oe && e > os {
                Some(Box::new(Self::child_or_new(self.right).spec_op(m, e, os, oe, st)))
            } else {
                self.right
            };
            RangeSetNode {
                left: l,
                right: r,
                status: combine(
                    Self::child_status(l, self.status),
                    Self::child_status(r, self.status),
                ),
            }
        }
    }

    /// Set `[os, oe)` to `st` below this node, which covers `[s, e)`.
    fn operation(&mut self, s: usize, e: usize, os: usize, oe: usize, st: NodeStatus)
        requires
            s <= e,
        ensures
            *final(self) == old(self).spec_op(s as int, e as int, os as int, oe as int, st),
        decreases e - s,
    {
        if os <= s && oe >= e {
            self.status = st;
            self.left = None;
            self.right = None;
            return ;
        }
        let m = s + (e - s) / 2;
        if s < oe && m > os {
            let mut l = match self.left.take() {
                Some(b) => b,
                None => Box::new(Self::new()),
            };
            (&mut *l).operation(s, m, os, oe, st);
            self.left = Some(l);
        }
        if m < oe && e > os {
            let mut r = match self.right.take() {
                Some(b) => b,
                None => Box::new(Self::new()),
            };
            (&mut *r).operation(m, e, os, oe, st);
            self.right = Some(r);
        }
        let ls = match &self.left {
            Some(n) => n.status,
            None => self.status,
        };
        let rs = match &self.right {
            Some(n) => n.status,
            None => self.status,
        };
        self.status = combine_exec(ls, rs);
    }
}


/// `uniform` pins the status of the node itself.
proof fn lemma_uniform_status(n: RangeSetNode, st: NodeStatus)
    requires
        n.uniform(st),
    ensures
        n.status == st,
{
}

/// A node that is not half is answered by its status alone.
proof fn lemma_view_not_half(n: RangeSetNode, s: int, e: int, x: int)
    requires
        n.status != NodeStatus::Half,
    ensures
        n.view_at(s, e, x) == Some(n.status == NodeStatus::Full),
{
}

/// Setting `[os, oe)` gives every point of it inside the node the new value.
proof fn lemma_op_sets(n: RangeSetNode, s: int, e: int, os: int, oe: int, st: NodeStatus, x: int)
    requires
        s <= e,
        st != NodeStatus::Half,
        s <= x < e,
        os <= x < oe,
    ensures
        n.spec_op(s, e, os, oe, st).view_at(s, e, x) == Some(st == NodeStatus::Full),
    decreases e - s,
{
    let r = n.spec_op(s, e, os, oe, st);
    if os <= s && oe >= e {
    } else {
        let m = mid(s, e);
        if x < m {
            let c = RangeSetNode::child_or_new(n.left);
            lemma_op_sets(c, s, m, os, oe, st, x);
            let l = c.spec_op(s, m, os, oe, st);
            if r.status != NodeStatus::Half {
                lemma_view_not_half(l, s, m, x);
            }
        } else {
            let c = RangeSetNode::child_or_new(n.right);
            lemma_op_sets(c, m, e, os, oe, st, x);
            let rr = c.spec_op(m, e, os, oe, st);
            if r.status != NodeStatus::Half {
                lemma_view_not_half(rr, m, e, x);
            }
        }
    }
}

/// A uniform node that is not half is well formed over any range.
proof fn lemma_uniform_wf(n: RangeSetNode, st: NodeStatus, s: int, e: int)
    requires
        n.uniform(st),
        st != NodeStatus::Half,
    ensures
        n.wf(s, e),
{
}

/// Setting a range keeps the shape invariant.
proof fn lemma_op_wf(n: RangeSetNode, s: int, e: int, os: int, oe: int, st: NodeStatus)
    requires
        s <= e,
        st != NodeStatus::Half,
        n.wf(s, e),
    ensures
        n.spec_op(s, e, os, oe, st).wf(s, e),
    decreases e - s,
{
    let r = n.spec_op(s, e, os, oe, st);
    if os <= s && oe >= e {
    } else {
        let m = mid(s, e);
        let lt = s < oe && m > os;
        let rt = m < oe && e > os;
        if lt || rt {
            assert(e - s >= 2);
        }
        if lt {
            let c = RangeSetNode::child_or_new(n.left);
            if n.status == NodeStatus::Half {
            } else {
                match n.left {
                    Some(b) => {
                        lemma_uniform_status(*b, n.status);
                        lemma_uniform_wf(*b, n.status, s, m);
                    },
                    None => {},
                }
            }
            assert(c.wf(s, m));
            lemma_op_wf(c, s, m, os, oe, st);
        } else {
            if n.status != NodeStatus::Half {
                match n.left {
                    Some(b) => {
                        lemma_uniform_status(*b, n.status);
                        lemma_uniform_wf(*b, n.status, s, m);
                    },
                    None => {},
                }
            }
        }
        if rt {
            let c = RangeSetNode::child_or_new(n.right);
            if n.status == NodeStatus::Half {
            } else {
                match n.right {
                    Some(b) => {
                        lemma_uniform_status(*b, n.status);
                        lemma_uniform_wf(*b, n.status, m, e);
                    },
                    None => {},
                }
            }
            assert(c.wf(m, e));
            lemma_op_wf(c, m, e, os, oe, st);
        } else {
            if n.status != NodeStatus::Half {
                match n.right {
                    Some(b) => {
                        lemma_uniform_status(*b, n.status);
                        lemma_uniform_wf(*b, n.status, m, e);
                    },
                    None => {},
                }
            }
        }
        if r.status != NodeStatus::Half {
            match r.left {
                Some(b) => {
                    assert(b.wf(s, m));
                },
                None => {},
            }
            match r.right {
                Some(b) => {
                    assert(b.wf(m, e));
                },
                None => {},
            }
        } else {
            if !(lt || rt) {
                assert(n.status == NodeStatus::Half);
            }
        }
    }
}


/// The larger of two integers.
pub open spec fn imax(a: int, b: int) -> int {
    if a >= b {
        a
    } else {
        b
    }
}

/// The smaller of two integers.
pub open spec fn imin(a: int, b: int) -> int {
    if a <= b {
        a
    } else {
        b
    }
}

impl RangeSetNode {
    /// Point `x` is known to be in the set.
    spec fn filled(self, s: int, e: int) -> spec_fn(int) -> bool {
        |x: int| self.view_at(s, e, x) == Some(true)
    }

    /// Every point of `[a, b)` is known (in or out).
    spec fn defined_on(self, s: int, e: int, a: int, b: int) -> bool {
        forall|x: int| a <= x < b ==> (#[trigger] self.view_at(s, e, x)) is Some
    }

    /// Number of points of `[os, oe)` in the set below this node, which covers `[s, e)`.
    fn intersect(&self, s: usize, e: usize, os: usize, oe: usize) -> (r: usize)
        requires
            s <= e,
            os < oe,
            self.wf(s as int, e as int),
            self.defined_on(
                s as int,
                e as int,
                imax(s as int, os as int),
                imin(e as int, oe as int),
            ),
            self.status == NodeStatus::Full ==> imax(s as int, os as int) <= imin(
                e as int,
                oe as int,
            ),
        ensures
            r == count_in(
                self.filled(s as int, e as int),
                imax(s as int, os as int),
                imin(e as int, oe as int),
            ),
        decreases e - s,
    {
        let ghost a = imax(s as int, os as int);
        let ghost b = imin(e as int, oe as int);
        let ghost f = self.filled(s as int, e as int);
        if self.status == NodeStatus::Full {
            proof {
                lemma_count_bounds(f, a, b);
            }
            let hi = if e <= oe {
                e
            } else {
                oe
            };
            let lo = if s >= os {
                s
            } else {
                os
            };
            return hi - lo;
        } else if self.status == NodeStatus::Empty {
            proof {
                if a <= b {
                    lemma_count_bounds(f, a, b);
                }
            }
            return 0;
        }
        let m = s + (e - s) / 2;
        let ghost c = imax(a, imin(b, m as int));
        let mut ret: usize = 0;
        let ghost rl: int = 0;
        let ghost rr: int = 0;
        if s < oe && m > os {
            match &self.left {
                Some(l) => {
                    proof {
                        assert forall|x: int|
                            imax(s as int, os as int) <= x < imin(
                                m as int,
                                oe as int,
                            ) implies (#[trigger] l.view_at(s as int, m as int, x)) is Some by {
                            assert(self.view_at(s as int, e as int, x) is Some);
                        }
                    }
                    let v = l.intersect(s, m, os, oe);
                    proof {
                        rl = v as int;
                        lemma_count_ext(f, l.filled(s as int, m as int), a, c);
                        lemma_count_bounds(l.filled(s as int, m as int), a, c);
                    }
                    ret = v;
                },
                None => {
                    proof {
                        assert(a < b && a < m);
                        assert(self.view_at(s as int, e as int, a) is Some);
                    }
                },
            }
        }
        if m < oe && e > os {
            match &self.right {
                Some(r) => {
                    proof {
                        assert forall|x: int|
                            imax(m as int, os as int) <= x < imin(
                                e as int,
                                oe as int,
                            ) implies (#[trigger] r.view_at(m as int, e as int, x)) is Some by {
                            assert(self.view_at(s as int, e as int, x) is Some);
                        }
                    }
                    let v = r.intersect(m, e, os, oe);
                    proof {
                        rr = v as int;
                        lemma_count_ext(f, r.filled(m as int, e as int), c, b);
                        lemma_count_bounds(r.filled(m as int, e as int), c, b);
                    }
                    ret = ret + v;
                },
                None => {
                    proof {
                        assert(imax(a, m as int) < b && a <= imax(a, m as int));
                        assert(self.view_at(s as int, e as int, imax(a, m as int)) is Some);
                    }
                },
            }
        }
        proof {
            if a < b {
                lemma_count_split(f, a, c, b);
            }
        }
        ret
    }
}


/// A set of points of the range it was made with.
pub struct RangeSet {
    root: RangeSetNode,
    range: Range<usize>,
}

impl RangeSet {
    /// First point of the range.
    pub closed spec fn lo(self) -> int {
        self.range.start as int
    }

    /// End (exclusive) of the range.
    pub closed spec fn hi(self) -> int {
        self.range.end as int
    }

    /// The range is ordered and the tree well formed.
    pub closed spec fn wf(self) -> bool {
        &&& self.range.start <= self.range.end
        &&& self.root.wf(self.lo(), self.hi())
    }

    /// Whether `x` is in the set; `None` when the tree cannot tell.
    /// Points outside the range are never in the set.
    pub closed spec fn point(self, x: int) -> Option<bool> {
        if self.lo() <= x < self.hi() {
            self.root.view_at(self.lo(), self.hi(), x)
        } else {
            Some(false)
        }
    }

    /// The whole range is filled at the root.
    pub closed spec fn root_full(self) -> bool {
        self.root.status == NodeStatus::Full
    }

    /// The set after filling (`fill`) or clearing `[os, oe)`.
    pub closed spec fn after_op(self, os: int, oe: int, fill: bool) -> RangeSet {
        if os >= oe {
            self
        } else {
            RangeSet {
                root: self.root.spec_op(
                    self.lo(),
                    self.hi(),
                    os,
                    oe,
                    if fill {
                        NodeStatus::Full
                    } else {
                        NodeStatus::Empty
                    },
                ),
                range: self.range,
            }
        }
    }

    /// A query on `[os, oe)` can be answered: every point of it is known, and
    /// a fully filled root is not asked about a range that misses it.
    pub open spec fn answerable(self, os: int, oe: int) -> bool {
        &&& forall|x: int| os <= x < oe ==> (#[trigger] self.point(x)) is Some
        &&& self.root_full() ==> (os <= self.hi() && self.lo() <= oe)
    }

    /// Every point of `[os, oe)` is in the set.
    pub open spec fn covers(self, os: int, oe: int) -> bool {
        forall|x: int| os <= x < oe ==> #[trigger] self.point(x) == Some(true)
    }

    /// Some point of `[os, oe)` is in the set.
    pub open spec fn meets(self, os: int, oe: int) -> bool {
        exists|x: int| os <= x < oe && #[trigger] self.point(x) == Some(true)
    }

    /// An empty set over `range`.
    pub fn new(range: Range<usize>) -> (r: Self)
        ensures
            r.lo() == range.start,
            r.hi() == range.end,
            r.wf() == (range.start <= range.end),
            forall|x: int| #[trigger] r.point(x) == Some(false),
    {
        Self { root: RangeSetNode::new(), range }
    }

    fn operate(&mut self, range: Range<usize>, fill: bool)
        requires
            old(self).wf(),
            range.start < range.end,
        ensures
            *final(self) == old(self).after_op(range.start as int, range.end as int, fill),
            final(self).wf(),
            final(self).lo() == old(self).lo(),
            final(self).hi() == old(self).hi(),
            forall|x: int|
                range.start <= x < range.end ==> #[trigger] final(self).point(x) == Some(
                    fill && old(self).lo() <= x < old(self).hi(),
                ),
    {
        let st = if fill {
            NodeStatus::Full
        } else {
            NodeStatus::Empty
        };
        let s = self.range.start;
        let e = self.range.end;
        proof {
            lemma_op_wf(self.root, s as int, e as int, range.start as int, range.end as int, st);
            assert forall|x: int|
                range.start <= x < range.end implies #[trigger] old(self).after_op(
                    range.start as int,
                    range.end as int,
                    fill,
                ).point(x) == Some(fill && old(self).lo() <= x < old(self).hi()) by {
                if s <= x < e {
                    lemma_op_sets(
                        self.root,
                        s as int,
                        e as int,
                        range.start as int,
                        range.end as int,
                        st,
                        x,
                    );
                }
            }
        }
        self.root.operation(s, e, range.start, range.end, st);
    }

    /// Add every point of `range` to the set.
    pub fn insert(&mut self, range: Range<usize>)
        requires
            old(self).wf(),
        ensures
            *final(self) == old(self).after_op(range.start as int, range.end as int, true),
            final(self).wf(),
            final(self).lo() == old(self).lo(),
            final(self).hi() == old(self).hi(),
            forall|x: int|
                range.start <= x < range.end ==> #[trigger] final(self).point(x) == Some(
                    old(self).lo() <= x < old(self).hi(),
                ),
    {
        if range.start >= range.end {
            return ;
        }
        self.operate(range, true);
    }

    /// Remove every point of `range` from the set.
    pub fn remove(&mut self, range: Range<usize>)
        requires
            old(self).wf(),
        ensures
            *final(self) == old(self).after_op(range.start as int, range.end as int, false),
            final(self).wf(),
            final(self).lo() == old(self).lo(),
            final(self).hi() == old(self).hi(),
            forall|x: int|
                range.start <= x < range.end ==> #[trigger] final(self).point(x) == Some(false),
    {
        if range.start >= range.end {
            return ;
        }
        self.operate(range, false);
    }

    /// Number of points of `[os, oe)` in the set, with the facts that tie it to `point`.
    fn count(&self, os: usize, oe: usize) -> (r: usize)
        requires
            self.wf(),
            os < oe,
            self.answerable(os as int, oe as int),
        ensures
            r <= oe - os,
            r == oe - os <==> self.covers(os as int, oe as int),
            r == 0 <==> !self.meets(os as int, oe as int),
    {
        let s = self.range.start;
        let e = self.range.end;
        let ghost a = imax(s as int, os as int);
        let ghost b = imin(e as int, oe as int);
        proof {
            assert forall|x: int| a <= x < b implies (#[trigger] self.root.view_at(
                s as int,
                e as int,
                x,
            )) is Some by {
                assert(self.point(x) is Some);
            }
        }
        let v = self.root.intersect(s, e, os, oe);
        proof {
            let f = self.root.filled(s as int, e as int);
            if a <= b {
                lemma_count_bounds(f, a, b);
            }
            if v == oe - os {
                assert(a == os && b == oe);
                assert forall|x: int| os <= x < oe implies #[trigger] self.point(x) == Some(
                    true,
                ) by {
                    assert(f(x));
                }
            }
            if self.covers(os as int, oe as int) {
                assert(self.point(os as int) == Some(true));
                assert(self.point(oe - 1) == Some(true));
                assert(a == os && b == oe);
                assert forall|x: int| a <= x < b implies #[trigger] f(x) by {
                    assert(self.point(x) == Some(true));
                }
            }
            if v == 0 {
                if self.meets(os as int, oe as int) {
                    let x = choose|x: int| os <= x < oe && #[trigger] self.point(x) == Some(true);
                    assert(f(x));
                }
            } else {
                assert(a < b);
                let x = choose|x: int| a <= x < b && !!#[trigger] f(x);
                assert(self.point(x) == Some(true));
            }
        }
        v
    }

    /// Whether every point of `range` is in the set (true for an empty range).
    pub fn contains(&self, range: Range<usize>) -> (r: bool)
        requires
            self.wf(),
            self.answerable(range.start as int, range.end as int),
        ensures
            r == self.covers(range.start as int, range.end as int),
    {
        if range.start >= range.end {
            return true;
        }
        let v = self.count(range.start, range.end);
        v == range.end - range.start
    }

    /// Whether some point of `range` is in the set (false for an empty range).
    pub fn intersects(&self, range: Range<usize>) -> (r: bool)
        requires
            self.wf(),
            self.answerable(range.start as int, range.end as int),
        ensures
            r == self.meets(range.start as int, range.end as int),
    {
        if range.start >= range.end {
            return false;
        }
        let v = self.count(range.start, range.end);
        v != 0
    }

    /// A fully filled root holds every point of the range.
    pub proof fn lemma_root_full(self)
        ensures
            self.root_full() ==> self.covers(self.lo(), self.hi()),
    {
    }

    /// Law: after adding a range that lies inside the set's range, a query on
    /// it can be answered, and every point of it is in the set.
    pub proof fn lemma_insert_then_contains(self, os: int, oe: int)
        requires
            self.wf(),
            self.lo() <= os < oe <= self.hi(),
        ensures
            self.after_op(os, oe, true).answerable(os, oe),
            self.after_op(os, oe, true).covers(os, oe),
    {
        let n = self.after_op(os, oe, true);
        assert forall|x: int| os <= x < oe implies #[trigger] n.point(x) == Some(true) by {
            lemma_op_sets(self.root, self.lo(), self.hi(), os, oe, NodeStatus::Full, x);
        }
    }

    /// Law: after removing a range, a query on it can be answered, and no
    /// point of it is in the set.
    pub proof fn lemma_remove_then_disjoint(self, os: int, oe: int)
        requires
            self.wf(),
            os < oe,
            self.lo() <= os && oe <= self.hi(),
        ensures
            self.after_op(os, oe, false).answerable(os, oe),
            !self.after_op(os, oe, false).meets(os, oe),
    {
        let n = self.after_op(os, oe, false);
        assert forall|x: int| os <= x < oe implies #[trigger] n.point(x) == Some(false) by {
            lemma_op_sets(self.root, self.lo(), self.hi(), os, oe, NodeStatus::Empty, x);
        }
    }
}

} // verus!
