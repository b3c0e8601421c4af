use modal_editor::document::Diff;
use modal_editor::document::Document;
use modal_editor::document::Operation;
use modal_editor::intdoc::IntChange;
use modal_editor::intdoc::IntDiff;
use modal_editor::intdoc::IntDoc;
use modal_editor::intdoc::IntOp;

#[test]
fn increment_diff_records_old_and_new_value() {
    // A single-element sequence holding 1, cursor at index 0.
    let mut doc = IntDoc::new();
    assert_eq!(doc.render(), vec![1]);

    let d = doc.interpret(IntOp::Increment).unwrap();
    assert_eq!(
        d.change,
        Some(IntChange::Put {
            idx: 0,
            before: 1,
            after: 2
        })
    );
    assert_eq!(d.cursor_before, 0);
    assert_eq!(d.cursor_after, 0);

    doc.apply(&d);
    assert_eq!(doc.render(), vec![2]);

    let inv = d.invert();
    assert_eq!(
        inv.change,
        Some(IntChange::Put {
            idx: 0,
            before: 2,
            after: 1
        })
    );
    doc.apply(&inv);
    assert_eq!(doc.render(), vec![1]);
}

#[test]
fn insert_diff_inverts_to_deletion() {
    let mut doc = IntDoc::new();
    let d = doc.interpret(IntOp::Insert).unwrap();
    assert_eq!(d.change, Some(IntChange::Ins { idx: 1, val: 0 }));
    assert_eq!(d.cursor_before, 0);
    assert_eq!(d.cursor_after, 1);

    doc.apply(&d);
    assert_eq!(doc.render(), vec![1, 0]);

    let inv = d.invert();
    assert_eq!(inv.change, Some(IntChange::Del { idx: 1, val: 0 }));
    doc.apply(&inv);
    assert_eq!(doc.render(), vec![1]);
}

#[test]
fn remove_diff_inverts_to_insertion() {
    let mut doc = IntDoc::new();
    let ins = doc.interpret(IntOp::Insert).unwrap();
    doc.apply(&ins);
    assert_eq!(doc.render(), vec![1, 0]);

    // Cursor sits on the inserted 0, the last element.
    let del = doc.interpret(IntOp::Remove).unwrap();
    assert_eq!(del.change, Some(IntChange::Del { idx: 1, val: 0 }));
    assert_eq!(del.cursor_before, 1);
    assert_eq!(del.cursor_after, 0);

    doc.apply(&del);
    assert_eq!(doc.render(), vec![1]);

    let inv = del.invert();
    assert_eq!(inv.change, Some(IntChange::Ins { idx: 1, val: 0 }));
    doc.apply(&inv);
    assert_eq!(doc.render(), vec![1, 0]);
}

#[test]
fn remove_last_element_is_rejected() {
    let doc = IntDoc::new();
    assert_eq!(
        doc.interpret(IntOp::Remove),
        Err("cannot remove the last element")
    );
}

#[test]
fn moves_at_the_edges_are_rejected() {
    let doc = IntDoc::new();
    assert_eq!(
        doc.interpret(IntOp::MoveLeft),
        Err("already at the first element")
    );
    assert_eq!(
        doc.interpret(IntOp::MoveRight),
        Err("already at the last element")
    );
}

#[test]
fn increment_at_max_is_rejected() {
    let mut doc = IntDoc::new();
    // Drive the single value to the numeric edge with one crafted diff.
    doc.apply(&IntDiff {
        change: Some(IntChange::Put {
            idx: 0,
            before: 1,
            after: i64::MAX,
        }),
        cursor_before: 0,
        cursor_after: 0,
    });
    assert_eq!(doc.render(), vec![i64::MAX]);
    assert_eq!(
        doc.interpret(IntOp::Increment),
        Err("cannot increment further")
    );
    let d = doc.interpret(IntOp::Decrement).unwrap();
    doc.apply(&d);
    assert_eq!(doc.render(), vec![i64::MAX - 1]);
}

#[test]
fn decrement_at_min_is_rejected() {
    let mut doc = IntDoc::new();
    doc.apply(&IntDiff {
        change: Some(IntChange::Put {
            idx: 0,
            before: 1,
            after: i64::MIN,
        }),
        cursor_before: 0,
        cursor_after: 0,
    });
    assert_eq!(
        doc.interpret(IntOp::Decrement),
        Err("cannot decrement further")
    );
}

#[test]
fn operation_classification() {
    assert!(IntOp::Increment.is_edit());
    assert!(IntOp::Decrement.is_edit());
    assert!(IntOp::Insert.is_edit());
    assert!(IntOp::Remove.is_edit());
    assert!(!IntOp::MoveLeft.is_edit());
    assert!(!IntOp::MoveRight.is_edit());

    let u = IntOp::undo();
    let r = IntOp::redo();
    assert!(u.is_undo());
    assert!(!u.is_redo());
    assert!(r.is_redo());
    assert!(!r.is_undo());
}

#[test]
fn move_diff_changes_cursor_only() {
    let mut doc = IntDoc::new();
    let ins = doc.interpret(IntOp::Insert).unwrap();
    doc.apply(&ins);

    let mv = doc.interpret(IntOp::MoveLeft).unwrap();
    assert_eq!(mv.change, None);
    assert_eq!(mv.cursor_before, 1);
    assert_eq!(mv.cursor_after, 0);
    doc.apply(&mv);
    // The values are untouched by a pure cursor move.
    assert_eq!(doc.render(), vec![1, 0]);
}
