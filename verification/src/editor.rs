//! The engine: owns the document, the mode, the branching history and the
//! history cursor, and drives the per-token processing loop.
//!
//! Undo and redo are intercepted before document interpretation: they walk
//! the history tree and replay recorded diffs (or their inverses); they are
//! the only place a diff not freshly produced by `interpret` reaches
//! `Document::apply`. The tree itself is append-only: undo and redo move the
//! cursor, they never remove or change a node.

use std::marker::PhantomData;

use vstd::prelude::*;

use crate::document::Diff;
use crate::document::Document;
use crate::document::Operation;
use crate::history::HistoryTree;
use crate::mode::ModeGraph;
use crate::mode::TransitionResult;

verus! {

pub struct Editor<ModeT, ModeGraphT, OperationT, DiffT, DocumentT> where
    OperationT: Operation,
    ModeGraphT: ModeGraph<ModeT, OperationT>,
    DiffT: Diff,
    DocumentT: Document<OperationT, DiffT>,
 {
    /// The current mode of the input state machine.
    pub current_mode: ModeT,
    /// The mode graph for this document.
    pub mode_graph: ModeGraphT,
    /// The document, as materialized with respect to the current position in
    /// the history tree.
    pub document: DocumentT,
    /// The undo tree of this editing session.
    pub history_tree: HistoryTree<DiffT>,
    /// The node corresponding to the last edit of the document, or `None`
    /// for the pre-edit initial state.
    pub last_edit: Option<usize>,
    /// The last non-fatal message to show.
    pub status_line: String,
    /// The document state each recorded diff was produced against.
    pub node_before: Ghost<Seq<<DocumentT as View>::V>>,
    /// The document state each recorded diff led to.
    pub node_after: Ghost<Seq<<DocumentT as View>::V>>,
    /// Marks the operation type the mode graph and document share.
    pub op_marker: PhantomData<OperationT>,
}

impl<ModeT, ModeGraphT, OperationT, DiffT, DocumentT> Editor<
    ModeT,
    ModeGraphT,
    OperationT,
    DiffT,
    DocumentT,
> where
    OperationT: Operation,
    ModeGraphT: ModeGraph<ModeT, OperationT>,
    DiffT: Diff,
    DocumentT: Document<OperationT, DiffT>,
 {
    /// What is known of one recorded node: the diff was produced against the
    /// state recorded before it, leads to the state recorded after it, both
    /// states are well formed, and inverting the diff there returns exactly
    /// to the state before.
    pub open spec fn node_ok(
        tree: HistoryTree<DiffT>,
        nb: Seq<<DocumentT as View>::V>,
        na: Seq<<DocumentT as View>::V>,
        i: int,
    ) -> bool {
        &&& DocumentT::wf_state(nb[i])
        &&& DocumentT::wf_state(na[i])
        &&& na[i] == DocumentT::apply_state(nb[i], tree.diff_at(i))
        &&& DocumentT::apply_state(na[i], tree.diff_at(i).spec_invert()) == nb[i]
    }

    /// Every recorded node is known as `node_ok` says.
    pub open spec fn nodes_ok(
        tree: HistoryTree<DiffT>,
        nb: Seq<<DocumentT as View>::V>,
        na: Seq<<DocumentT as View>::V>,
    ) -> bool {
        forall|i: int| 0 <= i < tree.spec_len() ==> #[trigger] Self::node_ok(tree, nb, na, i)
    }

    /// The engine invariant.
    pub open spec fn wf(self) -> bool {
        &&& self.history_tree.wf()
        &&& self.node_before@.len() == self.history_tree.spec_len()
        &&& self.node_after@.len() == self.history_tree.spec_len()
        &&& (self.last_edit matches Some(c) ==> c < self.history_tree.spec_len())
        &&& DocumentT::wf_state(self.document@)
        &&& Self::nodes_ok(self.history_tree, self.node_before@, self.node_after@)
    }

    /// Document, history tree, cursor and recorded states are untouched.
    pub open spec fn core_unchanged(pre: Self, post: Self) -> bool {
        &&& post.document == pre.document
        &&& post.history_tree == pre.history_tree
        &&& post.last_edit == pre.last_edit
        &&& post.node_before@ == pre.node_before@
        &&& post.node_after@ == pre.node_after@
    }

    /// Undo semantics. At the root it is a no-op, reported on the status
    /// line. Otherwise the cursor's diff is inverted and applied, and the
    /// cursor moves to the parent. The tree is never touched.
    pub open spec fn undo_post(pre: Self, post: Self) -> bool {
        &&& post.history_tree == pre.history_tree
        &&& post.node_before@ == pre.node_before@
        &&& post.node_after@ == pre.node_after@
        &&& match pre.last_edit {
            Option::None => {
                &&& post.document == pre.document
                &&& post.last_edit == pre.last_edit
                &&& post.status_line@ == "nothing to undo"@
            },
            Option::Some(c) => {
                &&& post.document@ == DocumentT::apply_state(
                    pre.document@,
                    pre.history_tree.diff_at(c as int).spec_invert(),
                )
                &&& post.last_edit == pre.history_tree.parent_at(c as int)
                &&& post.status_line == pre.status_line
            },
        }
    }

    /// Redo semantics. Without a child it is a no-op, reported on the status
    /// line. Otherwise the most recently appended child's diff is applied
    /// and the cursor moves to that child. The tree is never touched.
    pub open spec fn redo_post(pre: Self, post: Self) -> bool {
        &&& post.history_tree == pre.history_tree
        &&& post.node_before@ == pre.node_before@
        &&& post.node_after@ == pre.node_after@
        &&& if pre.history_tree.children(pre.last_edit).len() == 0 {
            &&& post.document == pre.document
            &&& post.last_edit == pre.last_edit
            &&& post.status_line@ == "nothing to redo"@
        } else {
            let k = pre.history_tree.children(pre.last_edit).last();
            &&& post.document@ == DocumentT::apply_state(
                pre.document@,
                pre.history_tree.diff_at(k as int),
            )
            &&& post.last_edit == Some(k)
            &&& post.status_line == pre.status_line
        }
    }

    /// The effect of one ordinary (neither undo nor redo) operation. A
    /// rejected operation is inert: only the status line may change. A
    /// successful one is applied to the document; exactly when it is an
    /// edit, its diff is appended to the tree under the old cursor and the
    /// cursor advances to the new node.
    pub open spec fn op_post(pre: Self, post: Self, op: OperationT) -> bool {
        match DocumentT::interp_state(pre.document@, op) {
            Option::None => {
                &&& Self::core_unchanged(pre, post)
                &&& post.status_line@ == DocumentT::err_state(pre.document@, op)
            },
            Option::Some(d) => {
                &&& post.document@ == DocumentT::apply_state(pre.document@, d)
                &&& post.status_line == pre.status_line
                &&& if op.spec_is_edit() {
                    &&& HistoryTree::record_post(
                        pre.history_tree,
                        post.history_tree,
                        d,
                        pre.last_edit,
                    )
                    &&& post.last_edit == Some(pre.history_tree.spec_len() as usize)
                    &&& post.node_before@ == pre.node_before@.push(pre.document@)
                    &&& post.node_after@ == pre.node_after@.push(
                        DocumentT::apply_state(pre.document@, d),
                    )
                } else {
                    &&& post.history_tree == pre.history_tree
                    &&& post.last_edit == pre.last_edit
                    &&& post.node_before@ == pre.node_before@
                    &&& post.node_after@ == pre.node_after@
                }
            },
        }
    }

    /// Create an engine over a fresh document, an empty history and the
    /// initial mode.
    pub fn new() -> (e: Self)
        ensures
            e.wf(),
            e.history_tree.spec_len() == 0,
            e.last_edit is None,
            e.document@ == DocumentT::init_state(),
            e.current_mode == ModeGraphT::spec_initial(),
            e.status_line@ == Seq::<char>::empty(),
    {
        Editor {
            current_mode: ModeGraphT::initial(),
            mode_graph: ModeGraphT::new(),
            document: DocumentT::new(),
            history_tree: HistoryTree::new(),
            last_edit: None,
            status_line: String::new(),
            node_before: Ghost(Seq::empty()),
            node_after: Ghost(Seq::empty()),
            op_marker: PhantomData,
        }
    }

    /// Undo the last edit, if any: see `undo_post`.
    pub fn undo(&mut self)
        requires
            old(self).wf(),
        ensures
            final(self).wf(),
            Self::undo_post(*old(self), *final(self)),
            final(self).current_mode == old(self).current_mode,
            final(self).mode_graph == old(self).mode_graph,
    {
        match self.last_edit {
            None => {
                self.status_line = String::from_str("nothing to undo");
            },
            Some(c) => {
                let d = self.history_tree.diff_of(c).invert();
                self.document.apply(&d);
                self.last_edit = self.history_tree.parent_of(c);
            },
        }
    }

    /// Redo into the most recent branch, if any: see `redo_post`.
    pub fn redo(&mut self)
        requires
            old(self).wf(),
        ensures
            final(self).wf(),
            Self::redo_post(*old(self), *final(self)),
            final(self).current_mode == old(self).current_mode,
            final(self).mode_graph == old(self).mode_graph,
    {
        match self.history_tree.latest_child_of(self.last_edit) {
            None => {
                self.status_line = String::from_str("nothing to redo");
            },
            Some(k) => {
                proof {
                    self.history_tree.lemma_children_in_range(self.last_edit);
                }
                let d = self.history_tree.diff_of(k);
                self.document.apply(d);
                self.last_edit = Some(k);
            },
        }
    }

    /// Process one input token: interpret it in the current mode, intercept
    /// undo/redo against the history tree, and otherwise interpret the
    /// emitted operation on the document, apply the resulting diff, and
    /// record it in the tree exactly when the operation is an edit. The mode
    /// always advances to the mode the graph returned.
    pub fn process_input(&mut self, chr: char)
        requires
            old(self).wf(),
        ensures
            final(self).wf(),
            final(self).mode_graph == old(self).mode_graph,
            match old(self).mode_graph.spec_emits(old(self).current_mode, chr) {
                Option::Some((op, m)) => {
                    &&& final(self).current_mode == m
                    &&& (op.spec_is_undo() ==> Self::undo_post(*old(self), *final(self)))
                    &&& (!op.spec_is_undo() && op.spec_is_redo() ==> Self::redo_post(
                        *old(self),
                        *final(self),
                    ))
                    &&& (!op.spec_is_undo() && !op.spec_is_redo() ==> Self::op_post(
                        *old(self),
                        *final(self),
                        op,
                    ))
                },
                Option::None => {
                    &&& final(self).current_mode == old(self).mode_graph.spec_next_mode(
                        old(self).current_mode,
                        chr,
                    )
                    &&& final(self).status_line@ == old(self).mode_graph.spec_message(
                        old(self).current_mode,
                        chr,
                    )
                    &&& Self::core_unchanged(*old(self), *final(self))
                },
            },
    {
        let r = self.mode_graph.interpret(&self.current_mode, chr);
        match r {
            TransitionResult::Apply(op, next_mode) => {
                if op.is_undo() {
                    self.undo();
                } else if op.is_redo() {
                    self.redo();
                } else {
                    match self.document.interpret(op) {
                        Ok(diff) => {
                            let ghost before = self.document@;
                            self.document.apply(&diff);
                            if op.is_edit() {
                                let ghost after = self.document@;
                                let id = self.history_tree.record(diff, self.last_edit);
                                self.node_before = Ghost(self.node_before@.push(before));
                                self.node_after = Ghost(self.node_after@.push(after));
                                self.last_edit = Some(id);
                                proof {
                                    assert forall|i: int|
                                        0 <= i < self.history_tree.spec_len() implies #[trigger] Self::node_ok(
                                        self.history_tree,
                                        self.node_before@,
                                        self.node_after@,
                                        i,
                                    ) by {
                                        if i < old(self).history_tree.spec_len() {
                                            assert(Self::node_ok(
                                                old(self).history_tree,
                                                old(self).node_before@,
                                                old(self).node_after@,
                                                i,
                                            ));
                                            assert(self.history_tree.diff_at(i) == old(
                                                self,
                                            ).history_tree.diff_at(i));
                                            assert(self.node_before@[i] == old(self).node_before@[i]);
                                            assert(self.node_after@[i] == old(self).node_after@[i]);
                                        } else {
                                            assert(self.node_before@[i] == before);
                                            assert(self.node_after@[i] == after);
                                        }
                                    }
                                }
                            }
                        },
                        Err(msg) => {
                            self.status_line = String::from_str(msg);
                        },
                    }
                }
                self.current_mode = next_mode;
            },
            TransitionResult::ModeChange(next_mode, msg) => {
                self.status_line = msg;
                self.current_mode = next_mode;
            },
        }
    }
}

impl<ModeT, ModeGraphT, OperationT, DiffT, DocumentT> Editor<
    ModeT,
    ModeGraphT,
    OperationT,
    DiffT,
    DocumentT,
> where
    OperationT: Operation,
    ModeGraphT: ModeGraph<ModeT, OperationT>,
    DiffT: Diff,
    DocumentT: Document<OperationT, DiffT>,
 {
    /// One undo from a document that sits exactly on the cursor node's
    /// recorded after-state returns it exactly to that node's recorded
    /// before-state — the state the edit was made on — and moves the cursor
    /// to the parent. Chained over a path of edits (see
    /// `crate::document::lemma_undo_redo_round_trip`), undoing each edit in
    /// turn returns the document to the initial state.
    pub proof fn lemma_undo_restores_recorded_state(pre: Self, post: Self, c: usize)
        requires
            pre.wf(),
            Self::undo_post(pre, post),
            pre.last_edit == Some(c),
            pre.document@ == pre.node_after@[c as int],
        ensures
            post.document@ == pre.node_before@[c as int],
            post.last_edit == pre.history_tree.parent_at(c as int),
    {
        assert(Self::node_ok(pre.history_tree, pre.node_before@, pre.node_after@, c as int));
    }

    /// One redo from a document that sits exactly on the recorded
    /// before-state of the cursor's most recently appended child returns it
    /// exactly to that child's recorded after-state, and moves the cursor
    /// to the child.
    pub proof fn lemma_redo_restores_recorded_state(pre: Self, post: Self, k: usize)
        requires
            pre.wf(),
            Self::redo_post(pre, post),
            pre.history_tree.children(pre.last_edit).len() > 0,
            k == pre.history_tree.children(pre.last_edit).last(),
            pre.document@ == pre.node_before@[k as int],
        ensures
            post.document@ == pre.node_after@[k as int],
            post.last_edit == Some(k),
    {
        pre.history_tree.lemma_children_in_range(pre.last_edit);
        assert(Self::node_ok(pre.history_tree, pre.node_before@, pre.node_after@, k as int));
    }

    /// The cursor sits at the end of a synced chain of `m` edits: walking
    /// parents from cursor `c`, each node's recorded after-state is the
    /// document state at that point, each node's recorded before-state is
    /// where the walk continues, and after `m` steps the walk ends at the
    /// root with state `base`.
    pub open spec fn chain_synced(
        tree: HistoryTree<DiffT>,
        nb: Seq<<DocumentT as View>::V>,
        na: Seq<<DocumentT as View>::V>,
        c: Option<usize>,
        doc: <DocumentT as View>::V,
        base: <DocumentT as View>::V,
        m: nat,
    ) -> bool
        decreases m,
    {
        if m == 0 {
            c is None && doc == base
        } else {
            match c {
                Option::Some(k) => {
                    &&& doc == na[k as int]
                    &&& Self::chain_synced(
                        tree,
                        nb,
                        na,
                        tree.parent_at(k as int),
                        nb[k as int],
                        base,
                        (m - 1) as nat,
                    )
                },
                Option::None => false,
            }
        }
    }

    /// Undoing a synced chain of `m` edits, one undo per edit, returns the
    /// cursor to the root and the document exactly to the state before the
    /// chain — for a chain built from the initial state, to the initial
    /// state. `es` are the editor states along the way, first state first.
    pub proof fn lemma_undo_chain_returns_to_base(es: Seq<Self>, base: <DocumentT as View>::V)
        requires
            es.len() >= 1,
            forall|i: int| 0 <= i < es.len() - 1 ==> (#[trigger] es[i]).wf(),
            forall|i: int| 0 <= i < es.len() - 1 ==> #[trigger] Self::undo_post(es[i], es[i + 1]),
            Self::chain_synced(
                es[0].history_tree,
                es[0].node_before@,
                es[0].node_after@,
                es[0].last_edit,
                es[0].document@,
                base,
                (es.len() - 1) as nat,
            ),
        ensures
            es.last().last_edit is None,
            es.last().document@ == base,
        decreases es.len(),
    {
        if es.len() > 1 {
            let e0 = es[0];
            let e1 = es[1];
            assert(es[0].wf());
            assert(Self::undo_post(es[0], es[0 as int + 1]));
            let m = (es.len() - 1) as nat;
            assert(e0.last_edit is Some);
            let k = e0.last_edit->Some_0;
            assert(Self::chain_synced(
                e0.history_tree,
                e0.node_before@,
                e0.node_after@,
                e0.history_tree.parent_at(k as int),
                e0.node_before@[k as int],
                base,
                (m - 1) as nat,
            ));
            Self::lemma_undo_restores_recorded_state(e0, e1, k);
            let tail = es.skip(1);
            assert forall|i: int| 0 <= i < tail.len() - 1 implies (#[trigger] tail[i]).wf()
                && Self::undo_post(tail[i], tail[i + 1]) by {
                assert(tail[i] == es[i + 1]);
                assert(tail[i + 1] == es[i + 2]);
                assert(Self::undo_post(es[i + 1], es[i + 1 + 1]));
            }
            assert(Self::chain_synced(
                e1.history_tree,
                e1.node_before@,
                e1.node_after@,
                e1.last_edit,
                e1.document@,
                base,
                (tail.len() - 1) as nat,
            ));
            Self::lemma_undo_chain_returns_to_base(tail, base);
            assert(es.last() == tail.last());
        }
    }

    /// From cursor `c` with document state `doc`, the nodes `cs` form a
    /// redoable chain: each is the most recently appended child of the one
    /// before it, and its recorded before-state is the document state
    /// reached at that point.
    pub open spec fn redo_chain(
        tree: HistoryTree<DiffT>,
        nb: Seq<<DocumentT as View>::V>,
        na: Seq<<DocumentT as View>::V>,
        c: Option<usize>,
        doc: <DocumentT as View>::V,
        cs: Seq<usize>,
    ) -> bool
        decreases cs.len(),
    {
        if cs.len() == 0 {
            true
        } else {
            let k = cs[0];
            &&& tree.children(c).len() > 0
            &&& k == tree.children(c).last()
            &&& doc == nb[k as int]
            &&& Self::redo_chain(tree, nb, na, Some(k), na[k as int], cs.skip(1))
        }
    }

    /// Redoing along a redoable chain of `cs.len()` nodes, one redo per
    /// node, moves the cursor to the last node of the chain and the
    /// document exactly to that node's recorded after-state — for a chain
    /// of edits undone without an intervening branch, back to the state
    /// after those edits. `es` are the editor states along the way, first
    /// state first.
    pub proof fn lemma_redo_chain_reaches_last(es: Seq<Self>, cs: Seq<usize>)
        requires
            es.len() >= 2,
            cs.len() == es.len() - 1,
            forall|i: int| 0 <= i < es.len() - 1 ==> (#[trigger] es[i]).wf(),
            forall|i: int| 0 <= i < es.len() - 1 ==> #[trigger] Self::redo_post(es[i], es[i + 1]),
            Self::redo_chain(
                es[0].history_tree,
                es[0].node_before@,
                es[0].node_after@,
                es[0].last_edit,
                es[0].document@,
                cs,
            ),
        ensures
            es.last().last_edit == Some(cs.last()),
            es.last().document@ == es[0].node_after@[cs.last() as int],
        decreases es.len(),
    {
        let e0 = es[0];
        let e1 = es[1];
        let k = cs[0];
        assert(es[0].wf());
        assert(Self::redo_post(es[0], es[0 as int + 1]));
        assert(Self::redo_chain(
            e0.history_tree,
            e0.node_before@,
            e0.node_after@,
            Some(k),
            e0.node_after@[k as int],
            cs.skip(1),
        ));
        Self::lemma_redo_restores_recorded_state(e0, e1, k);
        if es.len() == 2 {
            assert(es.last() == es[1]);
            assert(cs.last() == cs[0]);
        }
        if es.len() > 2 {
            let tail = es.skip(1);
            assert forall|i: int| 0 <= i < tail.len() - 1 implies (#[trigger] tail[i]).wf()
                && Self::redo_post(tail[i], tail[i + 1]) by {
                assert(tail[i] == es[i + 1]);
                assert(tail[i + 1] == es[i + 2]);
                assert(Self::redo_post(es[i + 1], es[i + 1 + 1]));
            }
            assert(Self::redo_chain(
                e1.history_tree,
                e1.node_before@,
                e1.node_after@,
                e1.last_edit,
                e1.document@,
                cs.skip(1),
            ));
            Self::lemma_redo_chain_reaches_last(tail, cs.skip(1));
            assert(es.last() == tail.last());
            assert(cs.last() == cs.skip(1).last());
        }
    }
}

impl<ModeT, ModeGraphT, OperationT, DiffT, DocumentT> Default for Editor<
    ModeT,
    ModeGraphT,
    OperationT,
    DiffT,
    DocumentT,
> where
    OperationT: Operation,
    ModeGraphT: ModeGraph<ModeT, OperationT>,
    DiffT: Diff,
    DocumentT: Document<OperationT, DiffT>,
 {
    /// Same as `Editor::new`.
    fn default() -> (e: Self)
        ensures
            e.wf(),
            e.history_tree.spec_len() == 0,
            e.last_edit is None,
            e.document@ == DocumentT::init_state(),
            e.current_mode == ModeGraphT::spec_initial(),
            e.status_line@ == Seq::<char>::empty(),
    {
        Editor::new()
    }
}

} // verus!
