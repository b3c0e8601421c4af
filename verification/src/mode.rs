//! The modal input-interpretation state machine: a pure function of
//! (mode, token) that either emits an operation or only switches mode.

use vstd::prelude::*;
use crate::document::Operation;

verus! {

/// The outcome of interpreting one input token.
pub enum TransitionResult<M, P: Operation> {
    /// The token produces this operation, and the mode becomes the given
    /// next mode whether or not the operation succeeds on the document.
    Apply(P, M),
    /// No operation: only the mode changes, with a message to show (possibly
    /// empty, for a silent switch).
    ModeChange(M, String),
}

/// A finite-state machine over raw input tokens whose states are opaque mode
/// values. Interpretation is a pure function of (mode, token); it never sees
/// the document. Its behaviour is pinned by three abstract spec functions:
///
/// - `spec_emits`: the operation and next mode a token produces, or `None`
///   when the token only switches mode;
/// - `spec_next_mode`: the mode after the token, in either case;
/// - `spec_message`: the message shown when no operation is produced.
pub trait ModeGraph<M, P: Operation>: Sized {
    /// The starting mode.
    spec fn spec_initial() -> M;

    /// The operation emitted for a token in a mode, with the next mode, or
    /// `None` when the token is a pure mode change.
    spec fn spec_emits(self, mode: M, chr: char) -> Option<(P, M)>;

    /// The mode after a token, whether or not an operation was emitted.
    spec fn spec_next_mode(self, mode: M, chr: char) -> M;

    /// The message shown when a token produces no operation.
    spec fn spec_message(self, mode: M, chr: char) -> Seq<char>;

    /// Create the mode graph.
    fn new() -> (g: Self);

    /// The initial mode.
    fn initial() -> (m: M)
        ensures
            m == Self::spec_initial(),
    ;

    /// Interpret one token in the given mode.
    fn interpret(&self, mode: &M, chr: char) -> (r: TransitionResult<M, P>)
        ensures
            match r {
                TransitionResult::Apply(op, m) => self.spec_emits(*mode, chr) == Some((op, m))
                    && m == self.spec_next_mode(*mode, chr),
                TransitionResult::ModeChange(m, msg) => self.spec_emits(*mode, chr) is None
                    && m == self.spec_next_mode(*mode, chr)
                    && msg@ == self.spec_message(*mode, chr),
            },
    ;
}

} // verus!
