//! The Operation / Diff / Document contract: deciding what changed
//! (`interpret`) is separated from mutating state (`apply`) and from
//! reversing a change (`invert`).

use vstd::prelude::*;

verus! {

/// An invertible description of a state change.
///
/// `spec_invert` is the mathematical inverse of the diff; `invert` computes
/// it. Inversion is local: the inverse is only guaranteed to undo the diff on
/// the state the diff was produced against (see `Document::interpret`).
pub trait Diff: Sized {
    /// The inverse diff, as a mathematical value.
    spec fn spec_invert(self) -> Self;

    /// Return the opposite of this diff, such that applying the diff and then
    /// its inverse to the originating state is a no-op.
    fn invert(&self) -> (r: Self)
        ensures
            r == self.spec_invert(),
    ;
}

/// A description of user intent, not yet applied to a document.
///
/// Two distinguished members, undo and redo, are intercepted by the engine
/// and never reach `Document::interpret`. Every other member carries a fixed
/// classification: an edit enters the history tree, a navigation or view
/// operation does not.
pub trait Operation: Sized + Copy {
    /// Whether this operation is the distinguished undo member.
    spec fn spec_is_undo(self) -> bool;

    /// Whether this operation is the distinguished redo member.
    spec fn spec_is_redo(self) -> bool;

    /// Whether this operation is classified as an edit.
    spec fn spec_is_edit(self) -> bool;

    /// The canonical undo value.
    fn undo() -> (r: Self)
        ensures
            r.spec_is_undo(),
            !r.spec_is_redo(),
    ;

    /// The canonical redo value.
    fn redo() -> (r: Self)
        ensures
            r.spec_is_redo(),
            !r.spec_is_undo(),
    ;

    /// True if this operation is considered an edit, as opposed to an
    /// edit-less operation. This determines whether the diff produced by the
    /// operation is recorded in the undo tree.
    fn is_edit(&self) -> (b: bool)
        ensures
            b == self.spec_is_edit(),
    ;

    /// Test against the distinguished undo member.
    fn is_undo(&self) -> (b: bool)
        ensures
            b == self.spec_is_undo(),
    ;

    /// Test against the distinguished redo member.
    fn is_redo(&self) -> (b: bool)
        ensures
            b == self.spec_is_redo(),
    ;
}

/// A document: the owner of the actual state.
///
/// The state is reachable only through `interpret` (read-only) and `apply`
/// (read-write). The mathematical model of the state is the document's view
/// (`Self::V`); the contract is stated over four abstract spec functions that
/// every implementation must supply:
///
/// - `wf_state`: which states are well formed;
/// - `init_state`: the deterministic initial state;
/// - `apply_state`: the effect of applying a diff to a state;
/// - `interp_state`: which diff (if any) an operation yields on a state.
///
/// `interpret` must be locally invertible: whenever it produces a diff,
/// applying the diff and then its inverse to the originating state is a
/// no-op. That promise is only about the originating state; nothing is said
/// about applying the inverse anywhere else.
pub trait Document<P: Operation, D: Diff>: View + Sized {
    /// The type returned by `render`: a displayable projection of the state.
    type Repr: View;

    /// Which states are well formed. Every state reachable through this
    /// trait's methods is.
    spec fn wf_state(s: Self::V) -> bool;

    /// The initial state produced by `new`.
    spec fn init_state() -> Self::V;

    /// The effect of applying a diff to a state. Total: every diff yields
    /// some state, and well-formedness is preserved.
    spec fn apply_state(s: Self::V, d: D) -> Self::V;

    /// The diff an operation yields on a state: `Some(d)` exactly when
    /// interpretation succeeds, and then with exactly that diff.
    spec fn interp_state(s: Self::V, op: P) -> Option<D>;

    /// The error message reported when interpretation fails on a state.
    spec fn err_state(s: Self::V, op: P) -> Seq<char>;

    /// What `render` shows of a state.
    spec fn render_state(s: Self::V) -> <Self::Repr as View>::V;

    /// Create the initial document. Deterministic: no randomness, no
    /// external input.
    fn new() -> (doc: Self)
        ensures
            doc@ == Self::init_state(),
            Self::wf_state(doc@),
    ;

    /// Interpret an operation on the current document, producing a diff that
    /// can then be stored and applied, or an error message. Never mutates;
    /// never sees the distinguished undo/redo members.
    ///
    /// On success the produced diff is locally invertible against the
    /// current state.
    fn interpret(&self, op: P) -> (r: Result<D, &'static str>)
        requires
            Self::wf_state(self@),
            !op.spec_is_undo(),
            !op.spec_is_redo(),
        ensures
            (r matches Ok(d) ==> Self::interp_state(self@, op) == Some(d)),
            (r matches Err(m) ==> Self::interp_state(self@, op) is None && m@ == Self::err_state(
                self@,
                op,
            )),
            (r matches Ok(d) ==> Self::wf_state(Self::apply_state(self@, d))
                && Self::apply_state(Self::apply_state(self@, d), d.spec_invert()) == self@),
    ;

    /// Apply a diff to the current state, mutating it according to the diff.
    /// Total: it never fails, whatever the diff.
    fn apply(&mut self, d: &D)
        requires
            Self::wf_state(old(self)@),
        ensures
            final(self)@ == Self::apply_state(old(self)@, *d),
            Self::wf_state(final(self)@),
    ;

    /// A pure projection of the current state for display.
    fn render(&self) -> (r: Self::Repr)
        ensures
            r@ == Self::render_state(self@),
    ;
}

/// Applying a sequence of diffs to a state, first diff first.
pub open spec fn apply_seq<P: Operation, D: Diff, Doc: Document<P, D>>(
    s: Doc::V,
    ds: Seq<D>,
) -> Doc::V
    decreases ds.len(),
{
    if ds.len() == 0 {
        s
    } else {
        apply_seq::<P, D, Doc>(Doc::apply_state(s, ds[0]), ds.skip(1))
    }
}

/// Applying the inverses of a sequence of diffs to a state, last diff first.
pub open spec fn unapply_seq<P: Operation, D: Diff, Doc: Document<P, D>>(
    s: Doc::V,
    ds: Seq<D>,
) -> Doc::V
    decreases ds.len(),
{
    if ds.len() == 0 {
        s
    } else {
        unapply_seq::<P, D, Doc>(Doc::apply_state(s, ds.last().spec_invert()), ds.drop_last())
    }
}

/// Undo/redo round trip. Given a chain of edits: a start state `s0`, diffs
/// `ds`, and the states `states` reached after each diff, where each diff
/// takes the previous state to the next and is locally invertible there,
/// then: redoing the whole chain from `s0` reaches the last state, and
/// undoing the whole chain from the last state returns exactly to `s0`.
pub proof fn lemma_undo_redo_round_trip<P: Operation, D: Diff, Doc: Document<P, D>>(
    s0: Doc::V,
    ds: Seq<D>,
    states: Seq<Doc::V>,
)
    requires
        states.len() == ds.len(),
        forall|i: int| 0 <= i < ds.len() ==> #[trigger] states[i] == Doc::apply_state(
            if i == 0 { s0 } else { states[i - 1] },
            ds[i],
        ),
        forall|i: int| 0 <= i < ds.len() ==> Doc::apply_state(
            #[trigger] states[i],
            ds[i].spec_invert(),
        ) == if i == 0 { s0 } else { states[i - 1] },
    ensures
        apply_seq::<P, D, Doc>(s0, ds) == if ds.len() == 0 { s0 } else { states.last() },
        unapply_seq::<P, D, Doc>(if ds.len() == 0 { s0 } else { states.last() }, ds) == s0,
    decreases ds.len(),
{
    if ds.len() > 0 {
        let n = ds.len() as int;
        lemma_undo_redo_round_trip::<P, D, Doc>(s0, ds.drop_last(), states.drop_last());
        lemma_apply_seq_snoc::<P, D, Doc>(s0, ds.drop_last(), ds.last());
        assert(ds.drop_last().push(ds.last()) =~= ds);
        if n == 1 {
            assert(unapply_seq::<P, D, Doc>(states.last(), ds) == s0);
        } else {
            assert(states.drop_last().last() == states[n - 2]);
        }
    }
}

/// Appending one diff to a chain extends the redo fold by one application.
proof fn lemma_apply_seq_snoc<P: Operation, D: Diff, Doc: Document<P, D>>(
    s: Doc::V,
    ds: Seq<D>,
    d: D,
)
    ensures
        apply_seq::<P, D, Doc>(s, ds.push(d)) == Doc::apply_state(
            apply_seq::<P, D, Doc>(s, ds),
            d,
        ),
    decreases ds.len(),
{
    if ds.len() == 0 {
        assert(ds.push(d).skip(1) =~= Seq::<D>::empty());
        assert(ds.push(d)[0] == d);
        assert(apply_seq::<P, D, Doc>(s, ds) == s);
        assert(apply_seq::<P, D, Doc>(s, ds.push(d)) == apply_seq::<P, D, Doc>(
            Doc::apply_state(s, d),
            Seq::<D>::empty(),
        ));
        assert(apply_seq::<P, D, Doc>(Doc::apply_state(s, d), Seq::<D>::empty())
            == Doc::apply_state(s, d));
    } else {
        assert(ds.push(d).skip(1) =~= ds.skip(1).push(d));
        assert(ds.push(d)[0] == ds[0]);
        lemma_apply_seq_snoc::<P, D, Doc>(Doc::apply_state(s, ds[0]), ds.skip(1), d);
        assert(apply_seq::<P, D, Doc>(s, ds.push(d)) == apply_seq::<P, D, Doc>(
            Doc::apply_state(s, ds[0]),
            ds.skip(1).push(d),
        ));
        assert(apply_seq::<P, D, Doc>(s, ds) == apply_seq::<P, D, Doc>(
            Doc::apply_state(s, ds[0]),
            ds.skip(1),
        ));
    }
}

} // verus!
