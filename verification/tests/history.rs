use chalkak::model::{EditorDocument, EditorOperationModel, SelectionState};

fn doc() -> EditorDocument {
    EditorDocument::new(800, 450)
}

#[test]
fn editor_undo_redo_records_operations_and_restores_snapshots() {
    let mut model = EditorOperationModel::new(doc());

    model.commit("add title", |document: &EditorDocument| {
        let mut next = document.clone();
        next.add_element("title");
        next
    });
    model.commit("add body", |document: &EditorDocument| {
        let mut next = document.clone();
        next.add_element("body");
        next
    });

    assert_eq!(model.current().elements, vec!["title", "body"]);
    assert_eq!(model.undo_len(), 2);
    assert_eq!(model.redo_len(), 0);
    assert!(model.can_undo());
    assert!(!model.can_redo());

    let undone = model.undo().expect("first undo should exist");
    assert_eq!(undone.summary(), "add body");
    assert_eq!(model.current().elements, vec!["title"]);
    assert_eq!(model.redo_len(), 1);

    let undone = model.undo().expect("second undo should exist");
    assert_eq!(undone.summary(), "add title");
    assert!(model.current().elements.is_empty());
    assert!(!model.can_undo());
    assert!(model.can_redo());

    let redone = model.redo().expect("redo should restore last op");
    assert_eq!(redone.summary(), "add title");
    assert_eq!(model.current().elements, vec!["title"]);
    assert!(model.can_undo());

    let redone = model.redo().expect("second redo should restore next op");
    assert_eq!(redone.summary(), "add body");
    assert_eq!(model.current().elements, vec!["title", "body"]);
    assert!(!model.can_redo());
}

#[test]
fn editor_undo_redo_clears_redo_after_new_record() {
    let mut model = EditorOperationModel::new(doc());

    model.commit("add marker", |document: &EditorDocument| {
        let mut next = document.clone();
        next.add_element("marker-a");
        next
    });
    model.undo().expect("undo should exist");
    assert!(model.can_redo());

    model.commit("replace with marker", |document: &EditorDocument| {
        let mut next = document.clone();
        next.elements.clear();
        next.add_element("marker-b");
        next
    });

    assert_eq!(model.current().elements, vec!["marker-b"]);
    assert_eq!(model.undo_len(), 1);
    assert_eq!(model.redo_len(), 0);
    assert!(model.can_undo());
}

#[test]
fn editor_selection_state_starts_empty() {
    let selection = SelectionState::Empty;
    assert!(selection.is_empty());
}

#[test]
fn editor_selection_single_replaces_previous_selection() {
    let mut selection = SelectionState::Empty;

    selection.select(11);
    selection.select(22);

    assert!(selection.is_selected(22));
    assert!(!selection.is_selected(11));
    assert_eq!(selection.single_id(), Some(22));
}

#[test]
fn editor_selection_clear_removes_selection() {
    let mut selection = SelectionState::Single(88);

    selection.clear();

    assert!(selection.is_empty());
    assert_eq!(selection.single_id(), None);
    assert!(!selection.is_selected(88));
}

#[test]
fn commit_with_skips_unchanged_documents() {
    let mut model = EditorOperationModel::new(doc());
    model.commit_with("noop", doc());
    assert_eq!(model.undo_len(), 0);
    assert_eq!(model.operation_count(), 0);

    let mut next = doc();
    next.add_element("title");
    model.commit_with("add title", next);
    assert_eq!(model.undo_len(), 1);
    assert_eq!(model.current().elements, vec!["title"]);

    model.clear();
    assert_eq!(model.undo_len(), 0);
    assert_eq!(model.redo_len(), 0);
    assert_eq!(model.current().elements, vec!["title"]);
}

#[test]
fn record_is_a_synonym_for_commit() {
    let mut model = EditorOperationModel::new(doc());
    model.record("add note", |document: &EditorDocument| {
        let mut next = document.clone();
        next.add_element("note");
        next
    });
    assert_eq!(model.current().elements, vec!["note"]);
    assert_eq!(model.undo_len(), 1);

    let op = model.undo().expect("undo should exist");
    assert_eq!(op.id(), 1);
    assert_eq!(op.before_snapshot().elements.len(), 0);
    assert_eq!(op.after_snapshot().elements, vec!["note"]);

    let mut removed = model.current().clone();
    assert_eq!(removed.remove_last_element(), None);
    removed.add_element("x");
    assert_eq!(removed.remove_last_element().as_deref(), Some("x"));
}
