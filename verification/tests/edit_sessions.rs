use todo_store::store::TaskStore;
use todo_store::task::EditState;

fn add(store: &mut TaskStore, text: &str) -> u64 {
    let id = store.next_id;
    store.add_task(text.to_string());
    id
}

fn edit_state(store: &TaskStore, id: u64) -> EditState {
    store.get_task(id).unwrap().edit.clone()
}

#[test]
fn begin_edit_snapshots_the_text() {
    let mut store = TaskStore::new();
    let a = add(&mut store, "original");
    store.begin_edit(a);
    assert_eq!(
        edit_state(&store, a),
        EditState::Editing { draft: "original".to_string(), stash: "original".to_string() }
    );
    assert_eq!(store.get_task(a).unwrap().text, "original");
}

#[test]
fn update_draft_changes_the_draft_only() {
    let mut store = TaskStore::new();
    let a = add(&mut store, "original");
    store.begin_edit(a);
    store.update_draft(a, "changed".to_string());
    assert_eq!(
        edit_state(&store, a),
        EditState::Editing { draft: "changed".to_string(), stash: "original".to_string() }
    );
    assert_eq!(store.get_task(a).unwrap().text, "original");
}

#[test]
fn commit_applies_the_draft_and_returns_to_viewing() {
    let mut store = TaskStore::new();
    let a = add(&mut store, "original");
    store.begin_edit(a);
    store.update_draft(a, "committed".to_string());
    store.commit_edit(a);
    assert_eq!(store.get_task(a).unwrap().text, "committed");
    assert_eq!(edit_state(&store, a), EditState::Viewing);
}

#[test]
fn commit_with_empty_draft_stays_in_the_session() {
    let mut store = TaskStore::new();
    let a = add(&mut store, "original");
    store.begin_edit(a);
    store.update_draft(a, "".to_string());
    store.commit_edit(a);
    assert_eq!(store.get_task(a).unwrap().text, "original");
    assert_eq!(
        edit_state(&store, a),
        EditState::Editing { draft: "".to_string(), stash: "original".to_string() }
    );
}

#[test]
fn cancel_restores_the_pre_edit_text() {
    let mut store = TaskStore::new();
    let a = add(&mut store, "original");
    store.begin_edit(a);
    store.update_draft(a, "X".to_string());
    store.cancel_edit(a);
    assert_eq!(store.get_task(a).unwrap().text, "original");
    assert_eq!(edit_state(&store, a), EditState::Viewing);
}

#[test]
fn update_draft_without_a_session_is_noop() {
    let mut store = TaskStore::new();
    let a = add(&mut store, "original");
    store.update_draft(a, "ignored".to_string());
    assert_eq!(edit_state(&store, a), EditState::Viewing);
    assert_eq!(store.get_task(a).unwrap().text, "original");
}

#[test]
fn commit_and_cancel_without_a_session_are_noops() {
    let mut store = TaskStore::new();
    let a = add(&mut store, "original");
    store.commit_edit(a);
    store.cancel_edit(a);
    assert_eq!(store.get_task(a).unwrap().text, "original");
    assert_eq!(edit_state(&store, a), EditState::Viewing);
    store.commit_edit(404);
    store.cancel_edit(404);
    assert_eq!(store.task_count(), 1);
}

#[test]
fn exclusive_editing_ends_the_other_session() {
    let mut store = TaskStore::new();
    store.set_exclusive_edit(true);
    let a = add(&mut store, "a");
    let b = add(&mut store, "b");
    store.begin_edit(a);
    store.update_draft(a, "half typed".to_string());
    store.begin_edit(b);
    assert_eq!(edit_state(&store, a), EditState::Viewing);
    assert!(matches!(edit_state(&store, b), EditState::Editing { .. }));
    // the interrupted session committed nothing
    assert_eq!(store.get_task(a).unwrap().text, "a");
}

#[test]
fn non_exclusive_editing_keeps_both_sessions() {
    let mut store = TaskStore::new();
    let a = add(&mut store, "a");
    let b = add(&mut store, "b");
    store.begin_edit(a);
    store.begin_edit(b);
    assert!(store.get_task(a).unwrap().edit.is_editing());
    assert!(store.get_task(b).unwrap().edit.is_editing());
}

#[test]
fn begin_edit_on_unknown_id_is_noop_without_exclusivity() {
    let mut store = TaskStore::new();
    let a = add(&mut store, "a");
    store.begin_edit(500);
    assert_eq!(edit_state(&store, a), EditState::Viewing);
}

#[test]
fn rename_sets_text_and_ends_the_session() {
    let mut store = TaskStore::new();
    let a = add(&mut store, "before");
    store.begin_edit(a);
    store.rename(a, "after".to_string());
    assert_eq!(store.get_task(a).unwrap().text, "after");
    assert_eq!(edit_state(&store, a), EditState::Viewing);
}

#[test]
fn rename_with_empty_text_is_noop() {
    let mut store = TaskStore::new();
    let a = add(&mut store, "kept");
    store.rename(a, "".to_string());
    assert_eq!(store.get_task(a).unwrap().text, "kept");
}
