//! A concrete document plug-in: a non-empty list of integers with a cursor.
//!
//! It supplies the three types the engine is parameterized by — an operation
//! set with the distinguished undo/redo members, an invertible diff, and the
//! document itself — together with a small modal key map. The list starts as
//! a single element holding 1.

use vstd::prelude::*;

use crate::document::Diff;
use crate::document::Document;
use crate::document::Operation;
use crate::editor::Editor;
use crate::mode::ModeGraph;
use crate::mode::TransitionResult;

verus! {

/// One user-intent action on the integer-list document.
#[derive(Clone, Copy, PartialEq, Eq, Structural, Debug)]
pub enum IntOp {
    /// The distinguished undo member.
    Undo,
    /// The distinguished redo member.
    Redo,
    /// Add one to the value under the cursor (an edit).
    Increment,
    /// Subtract one from the value under the cursor (an edit).
    Decrement,
    /// Insert a zero after the cursor and move onto it (an edit).
    Insert,
    /// Remove the value under the cursor (an edit).
    Remove,
    /// Move the cursor one element left (not an edit).
    MoveLeft,
    /// Move the cursor one element right (not an edit).
    MoveRight,
}

impl Operation for IntOp {
    open spec fn spec_is_undo(self) -> bool {
        self == IntOp::Undo
    }

    open spec fn spec_is_redo(self) -> bool {
        self == IntOp::Redo
    }

    open spec fn spec_is_edit(self) -> bool {
        ||| self == IntOp::Increment
        ||| self == IntOp::Decrement
        ||| self == IntOp::Insert
        ||| self == IntOp::Remove
    }

    fn undo() -> (r: Self) {
        IntOp::Undo
    }

    fn redo() -> (r: Self) {
        IntOp::Redo
    }

    fn is_edit(&self) -> (b: bool) {
        match self {
            IntOp::Increment | IntOp::Decrement | IntOp::Insert | IntOp::Remove => true,
            _ => false,
        }
    }

    fn is_undo(&self) -> (b: bool) {
        *self == IntOp::Undo
    }

    fn is_redo(&self) -> (b: bool) {
        *self == IntOp::Redo
    }
}

/// One atomic change to the integer list.
#[derive(Clone, Copy, PartialEq, Eq, Debug)]
pub enum IntChange {
    /// The value at `idx` was `before` and becomes `after`.
    Put { idx: usize, before: i64, after: i64 },
    /// `val` is inserted at position `idx`.
    Ins { idx: usize, val: i64 },
    /// `val` is deleted from position `idx`.
    Del { idx: usize, val: i64 },
}

impl IntChange {
    /// The reverse atomic change: before and after swap, an insertion
    /// becomes a deletion and the other way round.
    pub open spec fn spec_swapped(self) -> IntChange {
        match self {
            IntChange::Put { idx, before, after } => IntChange::Put {
                idx,
                before: after,
                after: before,
            },
            IntChange::Ins { idx, val } => IntChange::Del { idx, val },
            IntChange::Del { idx, val } => IntChange::Ins { idx, val },
        }
    }

    /// Compute the reverse atomic change.
    pub fn swapped(&self) -> (r: IntChange)
        ensures
            r == self.spec_swapped(),
    {
        match *self {
            IntChange::Put { idx, before, after } => IntChange::Put {
                idx,
                before: after,
                after: before,
            },
            IntChange::Ins { idx, val } => IntChange::Del { idx, val },
            IntChange::Del { idx, val } => IntChange::Ins { idx, val },
        }
    }
}

/// A recorded state change: at most one atomic change, plus the cursor
/// before and after the change. Immutable once created.
#[derive(Clone, Copy, PartialEq, Eq, Debug)]
pub struct IntDiff {
    /// The atomic change, or `None` for a cursor-only change.
    pub change: Option<IntChange>,
    /// The cursor before the change.
    pub cursor_before: usize,
    /// The cursor after the change.
    pub cursor_after: usize,
}

impl Diff for IntDiff {
    open spec fn spec_invert(self) -> IntDiff {
        IntDiff {
            change: match self.change {
                Option::None => Option::None,
                Option::Some(c) => Option::Some(c.spec_swapped()),
            },
            cursor_before: self.cursor_after,
            cursor_after: self.cursor_before,
        }
    }

    fn invert(&self) -> (r: IntDiff) {
        IntDiff {
            change: match &self.change {
                None => None,
                Some(c) => Some(c.swapped()),
            },
            cursor_before: self.cursor_after,
            cursor_after: self.cursor_before,
        }
    }
}

/// The mathematical state of the integer-list document.
pub struct IntDocState {
    /// The list of values.
    pub values: Seq<i64>,
    /// The cursor: an index into `values`.
    pub cursor: int,
}

/// The effect of an atomic change on the list of values. Total: a change
/// that does not fit the list leaves it unchanged, and a deletion never
/// empties the list.
pub open spec fn apply_change(vals: Seq<i64>, c: Option<IntChange>) -> Seq<i64> {
    match c {
        Option::None => vals,
        Option::Some(IntChange::Put { idx, before, after }) => if idx < vals.len() {
            vals.update(idx as int, after)
        } else {
            vals
        },
        Option::Some(IntChange::Ins { idx, val }) => if idx <= vals.len() {
            vals.insert(idx as int, val)
        } else {
            vals
        },
        Option::Some(IntChange::Del { idx, val }) => if idx < vals.len() && vals.len() > 1 {
            vals.remove(idx as int)
        } else {
            vals
        },
    }
}

/// A non-empty list of integers with a cursor.
pub struct IntDoc {
    values: Vec<i64>,
    cursor: usize,
}

impl View for IntDoc {
    type V = IntDocState;

    closed spec fn view(&self) -> IntDocState {
        IntDocState { values: self.values@, cursor: self.cursor as int }
    }
}

impl Document<IntOp, IntDiff> for IntDoc {
    type Repr = Vec<i64>;

    open spec fn wf_state(s: IntDocState) -> bool {
        &&& s.values.len() >= 1
        &&& 0 <= s.cursor < s.values.len()
    }

    open spec fn init_state() -> IntDocState {
        IntDocState { values: seq![1i64], cursor: 0 }
    }

    open spec fn apply_state(s: IntDocState, d: IntDiff) -> IntDocState {
        let vals = apply_change(s.values, d.change);
        IntDocState {
            values: vals,
            cursor: if d.cursor_after < vals.len() {
                d.cursor_after as int
            } else {
                vals.len() - 1
            },
        }
    }

    open spec fn interp_state(s: IntDocState, op: IntOp) -> Option<IntDiff> {
        match op {
            IntOp::Increment => if s.values[s.cursor] == i64::MAX {
                Option::None
            } else {
                Option::Some(
                    IntDiff {
                        change: Option::Some(
                            IntChange::Put {
                                idx: s.cursor as usize,
                                before: s.values[s.cursor],
                                after: (s.values[s.cursor] + 1) as i64,
                            },
                        ),
                        cursor_before: s.cursor as usize,
                        cursor_after: s.cursor as usize,
                    },
                )
            },
            IntOp::Decrement => if s.values[s.cursor] == i64::MIN {
                Option::None
            } else {
                Option::Some(
                    IntDiff {
                        change: Option::Some(
                            IntChange::Put {
                                idx: s.cursor as usize,
                                before: s.values[s.cursor],
                                after: (s.values[s.cursor] - 1) as i64,
                            },
                        ),
                        cursor_before: s.cursor as usize,
                        cursor_after: s.cursor as usize,
                    },
                )
            },
            IntOp::Insert => if s.values.len() >= usize::MAX {
                Option::None
            } else {
                Option::Some(
                    IntDiff {
                        change: Option::Some(
                            IntChange::Ins { idx: (s.cursor + 1) as usize, val: 0 },
                        ),
                        cursor_before: s.cursor as usize,
                        cursor_after: (s.cursor + 1) as usize,
                    },
                )
            },
            IntOp::Remove => if s.values.len() <= 1 {
                Option::None
            } else {
                Option::Some(
                    IntDiff {
                        change: Option::Some(
                            IntChange::Del { idx: s.cursor as usize, val: s.values[s.cursor] },
                        ),
                        cursor_before: s.cursor as usize,
                        cursor_after: if s.cursor == s.values.len() - 1 {
                            (s.cursor - 1) as usize
                        } else {
                            s.cursor as usize
                        },
                    },
                )
            },
            IntOp::MoveLeft => if s.cursor == 0 {
                Option::None
            } else {
                Option::Some(
                    IntDiff {
                        change: Option::None,
                        cursor_before: s.cursor as usize,
                        cursor_after: (s.cursor - 1) as usize,
                    },
                )
            },
            IntOp::MoveRight => if s.cursor == s.values.len() - 1 {
                Option::None
            } else {
                Option::Some(
                    IntDiff {
                        change: Option::None,
                        cursor_before: s.cursor as usize,
                        cursor_after: (s.cursor + 1) as usize,
                    },
                )
            },
            IntOp::Undo => Option::None,
            IntOp::Redo => Option::None,
        }
    }

    open spec fn err_state(s: IntDocState, op: IntOp) -> Seq<char> {
        match op {
            IntOp::Increment => "cannot increment further"@,
            IntOp::Decrement => "cannot decrement further"@,
            IntOp::Insert => "document is full"@,
            IntOp::Remove => "cannot remove the last element"@,
            IntOp::MoveLeft => "already at the first element"@,
            IntOp::MoveRight => "already at the last element"@,
            IntOp::Undo => "reserved operation"@,
            IntOp::Redo => "reserved operation"@,
        }
    }

    open spec fn render_state(s: IntDocState) -> Seq<i64> {
        s.values
    }

    fn new() -> (doc: Self) {
        let mut values: Vec<i64> = Vec::new();
        values.push(1);
        proof {
            assert(values@ =~= seq![1i64]);
        }
        IntDoc { values, cursor: 0 }
    }

    fn interpret(&self, op: IntOp) -> (r: Result<IntDiff, &'static str>) {
        let n = self.values.len();
        match op {
            IntOp::Increment => {
                let v = self.values[self.cursor];
                if v == i64::MAX {
                    Err("cannot increment further")
                } else {
                    let d = IntDiff {
                        change: Some(
                            IntChange::Put { idx: self.cursor, before: v, after: v + 1 },
                        ),
                        cursor_before: self.cursor,
                        cursor_after: self.cursor,
                    };
                    proof {
                        lemma_set_round_trip(self@, d);
                    }
                    Ok(d)
                }
            },
            IntOp::Decrement => {
                let v = self.values[self.cursor];
                if v == i64::MIN {
                    Err("cannot decrement further")
                } else {
                    let d = IntDiff {
                        change: Some(
                            IntChange::Put { idx: self.cursor, before: v, after: v - 1 },
                        ),
                        cursor_before: self.cursor,
                        cursor_after: self.cursor,
                    };
                    proof {
                        lemma_set_round_trip(self@, d);
                    }
                    Ok(d)
                }
            },
            IntOp::Insert => {
                if n == usize::MAX {
                    Err("document is full")
                } else {
                    let d = IntDiff {
                        change: Some(IntChange::Ins { idx: self.cursor + 1, val: 0 }),
                        cursor_before: self.cursor,
                        cursor_after: self.cursor + 1,
                    };
                    proof {
                        lemma_ins_round_trip(self@, d);
                    }
                    Ok(d)
                }
            },
            IntOp::Remove => {
                if n <= 1 {
                    Err("cannot remove the last element")
                } else {
                    let d = IntDiff {
                        change: Some(
                            IntChange::Del { idx: self.cursor, val: self.values[self.cursor] },
                        ),
                        cursor_before: self.cursor,
                        cursor_after: if self.cursor == n - 1 {
                            self.cursor - 1
                        } else {
                            self.cursor
                        },
                    };
                    proof {
                        lemma_del_round_trip(self@, d);
                    }
                    Ok(d)
                }
            },
            IntOp::MoveLeft => {
                if self.cursor == 0 {
                    Err("already at the first element")
                } else {
                    let d = IntDiff {
                        change: None,
                        cursor_before: self.cursor,
                        cursor_after: self.cursor - 1,
                    };
                    proof {
                        lemma_move_round_trip(self@, d);
                    }
                    Ok(d)
                }
            },
            IntOp::MoveRight => {
                if self.cursor == n - 1 {
                    Err("already at the last element")
                } else {
                    let d = IntDiff {
                        change: None,
                        cursor_before: self.cursor,
                        cursor_after: self.cursor + 1,
                    };
                    proof {
                        lemma_move_round_trip(self@, d);
                    }
                    Ok(d)
                }
            },
            IntOp::Undo => Err("reserved operation"),
            IntOp::Redo => Err("reserved operation"),
        }
    }

    fn apply(&mut self, d: &IntDiff) {
        match d.change {
            None => {},
            Some(IntChange::Put { idx, before, after }) => {
                if idx < self.values.len() {
                    self.values[idx] = after;
                }
            },
            Some(IntChange::Ins { idx, val }) => {
                if idx <= self.values.len() {
                    self.values.insert(idx, val);
                }
            },
            Some(IntChange::Del { idx, val }) => {
                if idx < self.values.len() && self.values.len() > 1 {
                    self.values.remove(idx);
                }
            },
        }
        if d.cursor_after < self.values.len() {
            self.cursor = d.cursor_after;
        } else {
            self.cursor = self.values.len() - 1;
        }
    }

    fn render(&self) -> (r: Vec<i64>) {
        let mut r: Vec<i64> = Vec::new();
        let n = self.values.len();
        let mut i: usize = 0;
        while i < n
            invariant
                n == self.values@.len(),
                i <= n,
                r@ == self.values@.subrange(0, i as int),
            decreases n - i,
        {
            r.push(self.values[i]);
            proof {
                assert(r@ =~= self.values@.subrange(0, i + 1));
            }
            i = i + 1;
        }
        proof {
            assert(r@ =~= self.values@);
        }
        r
    }
}

/// A value change inverts: setting a value and setting it back restores the
/// state the diff was produced against.
proof fn lemma_set_round_trip(s: IntDocState, d: IntDiff)
    requires
        IntDoc::wf_state(s),
        d.change matches Some(c) && c matches IntChange::Put { idx, before, after } && idx
            == s.cursor && before == s.values[s.cursor],
        d.cursor_before == s.cursor,
        d.cursor_after == s.cursor,
    ensures
        IntDoc::wf_state(IntDoc::apply_state(s, d)),
        IntDoc::apply_state(IntDoc::apply_state(s, d), d.spec_invert()) == s,
{
    let s1 = IntDoc::apply_state(s, d);
    let s2 = IntDoc::apply_state(s1, d.spec_invert());
    assert(s2.values =~= s.values);
    assert(s2 == s);
}

/// An insertion inverts: inserting an element and deleting it again
/// restores the state the diff was produced against.
proof fn lemma_ins_round_trip(s: IntDocState, d: IntDiff)
    requires
        IntDoc::wf_state(s),
        s.values.len() < usize::MAX,
        d.change matches Some(c) && c matches IntChange::Ins { idx, val } && idx == s.cursor + 1,
        d.cursor_before == s.cursor,
        d.cursor_after == s.cursor + 1,
    ensures
        IntDoc::wf_state(IntDoc::apply_state(s, d)),
        IntDoc::apply_state(IntDoc::apply_state(s, d), d.spec_invert()) == s,
{
    let s1 = IntDoc::apply_state(s, d);
    let s2 = IntDoc::apply_state(s1, d.spec_invert());
    assert(s2.values =~= s.values);
    assert(s2 == s);
}

/// A deletion inverts: deleting an element and inserting it back restores
/// the state the diff was produced against.
proof fn lemma_del_round_trip(s: IntDocState, d: IntDiff)
    requires
        IntDoc::wf_state(s),
        s.values.len() > 1,
        d.change matches Some(c) && c matches IntChange::Del { idx, val } && idx == s.cursor
            && val == s.values[s.cursor],
        d.cursor_before == s.cursor,
        d.cursor_after == if s.cursor == s.values.len() - 1 {
            s.cursor - 1
        } else {
            s.cursor
        },
    ensures
        IntDoc::wf_state(IntDoc::apply_state(s, d)),
        IntDoc::apply_state(IntDoc::apply_state(s, d), d.spec_invert()) == s,
{
    let s1 = IntDoc::apply_state(s, d);
    let s2 = IntDoc::apply_state(s1, d.spec_invert());
    assert(s2.values =~= s.values);
    assert(s2 == s);
}

/// A cursor-only change inverts: moving back restores the state.
proof fn lemma_move_round_trip(s: IntDocState, d: IntDiff)
    requires
        IntDoc::wf_state(s),
        d.change is None,
        d.cursor_before == s.cursor,
        0 <= d.cursor_after < s.values.len(),
    ensures
        IntDoc::wf_state(IntDoc::apply_state(s, d)),
        IntDoc::apply_state(IntDoc::apply_state(s, d), d.spec_invert()) == s,
{
    let s1 = IntDoc::apply_state(s, d);
    let s2 = IntDoc::apply_state(s1, d.spec_invert());
    assert(s2 == s);
}

/// The two modes of the integer-list key map.
#[derive(Clone, Copy, PartialEq, Eq, Structural, Debug)]
pub enum EdMode {
    /// Keys are commands: edits, moves, undo and redo.
    Command,
    /// Keys only move the cursor; edits are disabled.
    Browse,
}

/// The key map for the integer-list document.
pub struct IntModeGraph;

impl ModeGraph<EdMode, IntOp> for IntModeGraph {
    open spec fn spec_initial() -> EdMode {
        EdMode::Command
    }

    open spec fn spec_emits(self, mode: EdMode, chr: char) -> Option<(IntOp, EdMode)> {
        match mode {
            EdMode::Command => match chr {
                'i' => Option::Some((IntOp::Increment, EdMode::Command)),
                'd' => Option::Some((IntOp::Decrement, EdMode::Command)),
                'a' => Option::Some((IntOp::Insert, EdMode::Command)),
                'x' => Option::Some((IntOp::Remove, EdMode::Command)),
                'h' => Option::Some((IntOp::MoveLeft, EdMode::Command)),
                'l' => Option::Some((IntOp::MoveRight, EdMode::Command)),
                'u' => Option::Some((IntOp::Undo, EdMode::Command)),
                'r' => Option::Some((IntOp::Redo, EdMode::Command)),
                _ => Option::None,
            },
            EdMode::Browse => match chr {
                'h' => Option::Some((IntOp::MoveLeft, EdMode::Browse)),
                'l' => Option::Some((IntOp::MoveRight, EdMode::Browse)),
                _ => Option::None,
            },
        }
    }

    open spec fn spec_next_mode(self, mode: EdMode, chr: char) -> EdMode {
        match mode {
            EdMode::Command => if chr == 'b' {
                EdMode::Browse
            } else {
                EdMode::Command
            },
            EdMode::Browse => if chr == 'q' {
                EdMode::Command
            } else {
                EdMode::Browse
            },
        }
    }

    open spec fn spec_message(self, mode: EdMode, chr: char) -> Seq<char> {
        match mode {
            EdMode::Command => if chr == 'b' {
                "browse mode"@
            } else {
                "unknown key"@
            },
            EdMode::Browse => if chr == 'q' {
                "command mode"@
            } else {
                "browse only"@
            },
        }
    }

    fn new() -> (g: Self) {
        IntModeGraph
    }

    fn initial() -> (m: EdMode) {
        EdMode::Command
    }

    fn interpret(&self, mode: &EdMode, chr: char) -> (r: TransitionResult<EdMode, IntOp>) {
        match mode {
            EdMode::Command => {
                if chr == 'i' {
                    TransitionResult::Apply(IntOp::Increment, EdMode::Command)
                } else if chr == 'd' {
                    TransitionResult::Apply(IntOp::Decrement, EdMode::Command)
                } else if chr == 'a' {
                    TransitionResult::Apply(IntOp::Insert, EdMode::Command)
                } else if chr == 'x' {
                    TransitionResult::Apply(IntOp::Remove, EdMode::Command)
                } else if chr == 'h' {
                    TransitionResult::Apply(IntOp::MoveLeft, EdMode::Command)
                } else if chr == 'l' {
                    TransitionResult::Apply(IntOp::MoveRight, EdMode::Command)
                } else if chr == 'u' {
                    TransitionResult::Apply(IntOp::Undo, EdMode::Command)
                } else if chr == 'r' {
                    TransitionResult::Apply(IntOp::Redo, EdMode::Command)
                } else if chr == 'b' {
                    TransitionResult::ModeChange(EdMode::Browse, String::from_str("browse mode"))
                } else {
                    TransitionResult::ModeChange(EdMode::Command, String::from_str("unknown key"))
                }
            },
            EdMode::Browse => {
                if chr == 'h' {
                    TransitionResult::Apply(IntOp::MoveLeft, EdMode::Browse)
                } else if chr == 'l' {
                    TransitionResult::Apply(IntOp::MoveRight, EdMode::Browse)
                } else if chr == 'q' {
                    TransitionResult::ModeChange(EdMode::Command, String::from_str("command mode"))
                } else {
                    TransitionResult::ModeChange(EdMode::Browse, String::from_str("browse only"))
                }
            },
        }
    }
}

/// The engine instantiated with the integer-list document and key map.
pub type IntEditor = Editor<EdMode, IntModeGraph, IntOp, IntDiff, IntDoc>;

} // verus!
