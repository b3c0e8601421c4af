use modal_editor::document::Document;
use modal_editor::intdoc::EdMode;
use modal_editor::intdoc::IntEditor;

#[test]
fn initial_engine_state() {
    let e = IntEditor::new();
    assert_eq!(e.document.render(), vec![1]);
    assert_eq!(e.status_line, "");
    assert_eq!(e.last_edit, None);
    assert_eq!(e.history_tree.len(), 0);
    assert_eq!(e.current_mode, EdMode::Command);
}

#[test]
fn edit_applies_and_records() {
    let mut e = IntEditor::new();
    e.process_input('i');
    assert_eq!(e.document.render(), vec![2]);
    assert_eq!(e.history_tree.len(), 1);
    assert_eq!(e.last_edit, Some(0));
}

#[test]
fn non_edit_does_not_record() {
    let mut e = IntEditor::new();
    e.process_input('a');
    assert_eq!(e.document.render(), vec![1, 0]);
    assert_eq!(e.history_tree.len(), 1);
    assert_eq!(e.last_edit, Some(0));

    // A successful cursor move mutates the document's cursor but must not
    // create a history node or move the history cursor.
    e.process_input('h');
    assert_eq!(e.document.render(), vec![1, 0]);
    assert_eq!(e.history_tree.len(), 1);
    assert_eq!(e.last_edit, Some(0));
}

#[test]
fn rejected_operation_is_inert() {
    let mut e = IntEditor::new();
    let before = e.document.render();
    // Moving left at the first element is rejected by the document.
    e.process_input('h');
    assert_eq!(e.document.render(), before);
    assert_eq!(e.history_tree.len(), 0);
    assert_eq!(e.last_edit, None);
    assert_eq!(e.status_line, "already at the first element");
}

#[test]
fn undo_at_root_is_a_noop() {
    let mut e = IntEditor::new();
    e.process_input('u');
    assert_eq!(e.document.render(), vec![1]);
    assert_eq!(e.last_edit, None);
    assert_eq!(e.status_line, "nothing to undo");
}

#[test]
fn redo_without_children_is_a_noop() {
    let mut e = IntEditor::new();
    e.process_input('r');
    assert_eq!(e.document.render(), vec![1]);
    assert_eq!(e.last_edit, None);
    assert_eq!(e.status_line, "nothing to redo");
}

#[test]
fn undo_redo_round_trip() {
    let mut e = IntEditor::new();
    e.process_input('i');
    e.process_input('i');
    assert_eq!(e.document.render(), vec![3]);
    assert_eq!(e.last_edit, Some(1));

    e.process_input('u');
    assert_eq!(e.document.render(), vec![2]);
    assert_eq!(e.last_edit, Some(0));
    e.process_input('u');
    assert_eq!(e.document.render(), vec![1]);
    assert_eq!(e.last_edit, None);

    e.process_input('r');
    e.process_input('r');
    assert_eq!(e.document.render(), vec![3]);
    assert_eq!(e.last_edit, Some(1));
}

#[test]
fn undo_then_edit_branches() {
    let mut e = IntEditor::new();
    e.process_input('i'); // node 0: 1 -> 2
    e.process_input('u'); // back to the root
    e.process_input('d'); // node 1: 1 -> 0, a sibling of node 0
    assert_eq!(e.document.render(), vec![0]);
    assert_eq!(e.history_tree.len(), 2);
    assert_eq!(e.last_edit, Some(1));
    // Both edits stand as root children, in creation order.
    assert_eq!(e.history_tree.children_of(None), vec![0, 1]);
    assert_eq!(e.history_tree.parent_of(0), None);
    assert_eq!(e.history_tree.parent_of(1), None);
}

#[test]
fn redo_picks_the_most_recent_branch() {
    let mut e = IntEditor::new();
    e.process_input('i'); // node 0
    e.process_input('u');
    e.process_input('d'); // node 1, most recent root child
    e.process_input('u');
    assert_eq!(e.document.render(), vec![1]);
    assert_eq!(e.last_edit, None);

    e.process_input('r');
    assert_eq!(e.document.render(), vec![0]);
    assert_eq!(e.last_edit, Some(1));
}

#[test]
fn mode_changes_and_back() {
    let mut e = IntEditor::new();
    e.process_input('b');
    assert_eq!(e.current_mode, EdMode::Browse);
    assert_eq!(e.status_line, "browse mode");

    // In browse mode edit keys are unknown and change nothing.
    e.process_input('i');
    assert_eq!(e.current_mode, EdMode::Browse);
    assert_eq!(e.status_line, "browse only");
    assert_eq!(e.document.render(), vec![1]);
    assert_eq!(e.history_tree.len(), 0);

    e.process_input('q');
    assert_eq!(e.current_mode, EdMode::Command);
    assert_eq!(e.status_line, "command mode");
}

#[test]
fn unknown_key_reports_status() {
    let mut e = IntEditor::new();
    e.process_input('z');
    assert_eq!(e.current_mode, EdMode::Command);
    assert_eq!(e.status_line, "unknown key");
    assert_eq!(e.history_tree.len(), 0);
}

#[test]
fn browse_mode_still_moves_the_cursor() {
    let mut e = IntEditor::new();
    e.process_input('a'); // [1, 0], cursor on the 0
    e.process_input('b');
    e.process_input('h'); // move left in browse mode
    assert_eq!(e.current_mode, EdMode::Browse);
    assert_eq!(e.history_tree.len(), 1);
    e.process_input('q');
    e.process_input('i'); // back in command mode: increments element 0
    assert_eq!(e.document.render(), vec![2, 0]);
}
