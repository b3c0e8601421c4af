//! The branching undo history: an append-only, rooted, multi-child tree of
//! diffs. Nodes are identified by small integer handles in creation order;
//! a node's children are ordered by creation time (most recent branch last).
//! The tree has an implicit root: a node whose parent is `None` is a child
//! of the initial, pre-edit state.

use vstd::prelude::*;

verus! {

struct HistoryNode<D> {
    diff: D,
    parent: Option<usize>,
}

/// An arena of history nodes. The tree only ever grows: recording appends a
/// node; nothing removes or reparents one.
pub struct HistoryTree<D> {
    nodes: Vec<HistoryNode<D>>,
}

impl<D> HistoryTree<D> {
    /// Number of nodes ever recorded.
    pub closed spec fn spec_len(self) -> nat {
        self.nodes@.len()
    }

    /// The diff stored at a node.
    pub closed spec fn diff_at(self, i: int) -> D {
        self.nodes@[i].diff
    }

    /// The parent handle of a node; `None` means the implicit root.
    pub closed spec fn parent_at(self, i: int) -> Option<usize> {
        self.nodes@[i].parent
    }

    /// Every node's parent was recorded before it.
    pub open spec fn wf(self) -> bool {
        forall|i: int| 0 <= i < self.spec_len() ==> (#[trigger] self.parent_at(i) matches Some(p)
            ==> p < i)
    }

    /// The children of `p` among the first `n` nodes, in creation order.
    pub open spec fn children_upto(self, p: Option<usize>, n: int) -> Seq<usize>
        decreases n,
    {
        if n <= 0 {
            Seq::empty()
        } else if self.parent_at(n - 1) == p {
            self.children_upto(p, n - 1).push((n - 1) as usize)
        } else {
            self.children_upto(p, n - 1)
        }
    }

    /// The children of `p` (the implicit root for `None`), in creation order.
    pub open spec fn children(self, p: Option<usize>) -> Seq<usize> {
        self.children_upto(p, self.spec_len() as int)
    }

    /// How one recording step relates the old and the new tree: one node is
    /// appended, holding `d` under parent `p`; all earlier nodes are kept
    /// unchanged.
    pub open spec fn record_post(pre: Self, post: Self, d: D, p: Option<usize>) -> bool {
        &&& post.spec_len() == pre.spec_len() + 1
        &&& (forall|i: int| 0 <= i < pre.spec_len() ==> #[trigger] post.diff_at(i)
            == pre.diff_at(i))
        &&& (forall|i: int| 0 <= i < pre.spec_len() ==> #[trigger] post.parent_at(i)
            == pre.parent_at(i))
        &&& post.diff_at(pre.spec_len() as int) == d
        &&& post.parent_at(pre.spec_len() as int) == p
    }

    /// Create an empty history.
    pub fn new() -> (t: Self)
        ensures
            t.spec_len() == 0,
            t.wf(),
    {
        HistoryTree { nodes: Vec::new() }
    }

    /// Number of nodes ever recorded.
    pub fn len(&self) -> (n: usize)
        ensures
            n == self.spec_len(),
    {
        self.nodes.len()
    }

    /// Append a new node holding `diff` as the last child of `parent` (of
    /// the implicit root if `parent` is `None`) and return its handle.
    pub fn record(&mut self, diff: D, parent: Option<usize>) -> (id: usize)
        requires
            old(self).wf(),
            parent matches Some(p) ==> p < old(self).spec_len(),
        ensures
            final(self).wf(),
            id == old(self).spec_len(),
            Self::record_post(*old(self), *final(self), diff, parent),
    {
        let id = self.nodes.len();
        self.nodes.push(HistoryNode { diff, parent });
        proof {
            assert forall|i: int| 0 <= i < self.spec_len() implies (#[trigger] self.parent_at(i)
                matches Some(p) ==> p < i) by {
                if i < id {
                    assert(self.parent_at(i) == old(self).parent_at(i));
                }
            }
        }
        id
    }

    /// The parent handle of a node.
    pub fn parent_of(&self, id: usize) -> (p: Option<usize>)
        requires
            id < self.spec_len(),
        ensures
            p == self.parent_at(id as int),
    {
        self.nodes[id].parent
    }

    /// The diff stored at a node.
    pub fn diff_of(&self, id: usize) -> (d: &D)
        requires
            id < self.spec_len(),
        ensures
            *d == self.diff_at(id as int),
    {
        &self.nodes[id].diff
    }

    /// The children of `p`, in creation order.
    pub fn children_of(&self, p: Option<usize>) -> (v: Vec<usize>)
        ensures
            v@ == self.children(p),
    {
        let mut v: Vec<usize> = Vec::new();
        let n = self.nodes.len();
        let mut i: usize = 0;
        while i < n
            invariant
                n == self.spec_len(),
                i <= n,
                v@ == self.children_upto(p, i as int),
            decreases n - i,
        {
            if opt_eq(self.nodes[i].parent, p) {
                v.push(i);
            }
            i = i + 1;
        }
        v
    }

    /// The most recently appended child of `p`, if any.
    pub fn latest_child_of(&self, p: Option<usize>) -> (r: Option<usize>)
        ensures
            r is None <==> self.children(p).len() == 0,
            r matches Some(k) ==> self.children(p).len() > 0 && k == self.children(p).last(),
    {
        let mut r: Option<usize> = None;
        let n = self.nodes.len();
        let mut i: usize = 0;
        while i < n
            invariant
                n == self.spec_len(),
                i <= n,
                r is None <==> self.children_upto(p, i as int).len() == 0,
                r matches Some(k) ==> self.children_upto(p, i as int).len() > 0 && k
                    == self.children_upto(p, i as int).last(),
            decreases n - i,
        {
            if opt_eq(self.nodes[i].parent, p) {
                r = Some(i);
            }
            i = i + 1;
        }
        r
    }

    /// The node count fits a handle: the nodes live in one vector.
    pub proof fn lemma_len_bound(self)
        ensures
            self.spec_len() <= usize::MAX,
    {
        assert(vstd::std_specs::vec::spec_vec_len(&self.nodes) == self.nodes@.len());
    }

    /// Every child handle of `p` among the first `n` nodes names a node
    /// before `n`, and its parent is `p`.
    proof fn lemma_children_upto_in_range(self, p: Option<usize>, n: int)
        requires
            0 <= n <= self.spec_len(),
        ensures
            forall|j: int| 0 <= j < self.children_upto(p, n).len()
                ==> #[trigger] self.children_upto(p, n)[j] < n && self.parent_at(
                self.children_upto(p, n)[j] as int,
            ) == p,
        decreases n,
    {
        if n > 0 {
            self.lemma_len_bound();
            self.lemma_children_upto_in_range(p, n - 1);
            assert forall|j: int| 0 <= j < self.children_upto(p, n).len() implies #[trigger] self
                .children_upto(p, n)[j] < n && self.parent_at(self.children_upto(p, n)[j] as int)
                == p by {
                if self.parent_at(n - 1) == p {
                    assert(self.children_upto(p, n) == self.children_upto(p, n - 1).push(
                        (n - 1) as usize,
                    ));
                    if j < self.children_upto(p, n - 1).len() {
                        assert(self.children_upto(p, n)[j] == self.children_upto(p, n - 1)[j]);
                    } else {
                        assert(self.children_upto(p, n)[j] == (n - 1) as usize);
                    }
                } else {
                    assert(self.children_upto(p, n) == self.children_upto(p, n - 1));
                }
            }
        }
    }

    /// Every child handle of `p` names a node of the tree whose parent is `p`.
    pub proof fn lemma_children_in_range(self, p: Option<usize>)
        ensures
            forall|j: int| 0 <= j < self.children(p).len() ==> #[trigger] self.children(p)[j]
                < self.spec_len() && self.parent_at(self.children(p)[j] as int) == p,
    {
        self.lemma_children_upto_in_range(p, self.spec_len() as int);
    }

    /// Children among the first `n` nodes agree between two trees that agree
    /// on those nodes.
    proof fn lemma_children_upto_agree(pre: Self, post: Self, p: Option<usize>, n: int)
        requires
            0 <= n <= pre.spec_len(),
            n <= post.spec_len(),
            forall|i: int| 0 <= i < n ==> #[trigger] post.parent_at(i) == pre.parent_at(i),
        ensures
            post.children_upto(p, n) == pre.children_upto(p, n),
        decreases n,
    {
        if n > 0 {
            Self::lemma_children_upto_agree(pre, post, p, n - 1);
        }
    }

    /// Recording a node extends its parent's children by exactly that node,
    /// at the end, and leaves every other node's children unchanged.
    pub proof fn lemma_record_children(pre: Self, post: Self, d: D, p: Option<usize>)
        requires
            Self::record_post(pre, post, d, p),
        ensures
            post.children(p) == pre.children(p).push(pre.spec_len() as usize),
            forall|q: Option<usize>| q != p ==> #[trigger] post.children(q) == pre.children(q),
    {
        let n = pre.spec_len() as int;
        Self::lemma_children_upto_agree(pre, post, p, n);
        assert(post.children_upto(p, n + 1) == post.children_upto(p, n).push(n as usize));
        assert forall|q: Option<usize>| q != p implies #[trigger] post.children(q)
            == pre.children(q) by {
            Self::lemma_children_upto_agree(pre, post, q, n);
            assert(post.children_upto(q, n + 1) == post.children_upto(q, n));
        }
    }

    /// Branching on undo-then-edit. In a fresh tree, record edit `a` at the
    /// root; moving the cursor (an undo) does not touch the tree; record
    /// edit `b` at the root again. Both edits then stand as children of the
    /// root, in creation order, and neither is removed.
    pub proof fn lemma_branching_keeps_both_edits(t0: Self, t1: Self, t2: Self, a: D, b: D)
        requires
            t0.spec_len() == 0,
            Self::record_post(t0, t1, a, None),
            Self::record_post(t1, t2, b, None),
        ensures
            t2.spec_len() == 2,
            t2.children(None) =~= seq![0usize, 1usize],
            t2.diff_at(0) == a,
            t2.diff_at(1) == b,
    {
        Self::lemma_record_children(t0, t1, a, None);
        Self::lemma_record_children(t1, t2, b, None);
        assert(t0.children(None) =~= Seq::<usize>::empty());
        assert(t2.diff_at(0) == t1.diff_at(0));
    }
}

/// Equality test for optional node handles.
fn opt_eq(a: Option<usize>, b: Option<usize>) -> (r: bool)
    ensures
        r == (a == b),
{
    match (a, b) {
        (None, None) => true,
        (Some(x), Some(y)) => x == y,
        _ => false,
    }
}

} // verus!
