use modal_editor::history::HistoryTree;

#[test]
fn record_appends_and_links() {
    let mut t: HistoryTree<u32> = HistoryTree::new();
    assert_eq!(t.len(), 0);

    let a = t.record(10, None);
    let b = t.record(20, Some(a));
    let c = t.record(30, Some(a));
    assert_eq!((a, b, c), (0, 1, 2));
    assert_eq!(t.len(), 3);

    assert_eq!(t.parent_of(a), None);
    assert_eq!(t.parent_of(b), Some(a));
    assert_eq!(t.parent_of(c), Some(a));
    assert_eq!(*t.diff_of(a), 10);
    assert_eq!(*t.diff_of(b), 20);
    assert_eq!(*t.diff_of(c), 30);
}

#[test]
fn children_are_in_creation_order() {
    let mut t: HistoryTree<u32> = HistoryTree::new();
    let a = t.record(1, None);
    let b = t.record(2, None);
    let c = t.record(3, Some(a));
    let d = t.record(4, Some(a));

    assert_eq!(t.children_of(None), vec![a, b]);
    assert_eq!(t.children_of(Some(a)), vec![c, d]);
    assert_eq!(t.children_of(Some(b)), Vec::<usize>::new());
}

#[test]
fn latest_child_is_the_most_recent() {
    let mut t: HistoryTree<u32> = HistoryTree::new();
    assert_eq!(t.latest_child_of(None), None);

    let a = t.record(1, None);
    assert_eq!(t.latest_child_of(None), Some(a));
    let b = t.record(2, None);
    assert_eq!(t.latest_child_of(None), Some(b));
    assert_eq!(t.latest_child_of(Some(a)), None);

    let c = t.record(3, Some(a));
    assert_eq!(t.latest_child_of(Some(a)), Some(c));
    // Recording under a node never unseats the root's latest child.
    assert_eq!(t.latest_child_of(None), Some(b));
}
