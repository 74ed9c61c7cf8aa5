use todo_store::store::TaskStore;
use todo_store::task::{EditState, Filter};

fn add(store: &mut TaskStore, text: &str) -> u64 {
    let id = store.next_id;
    store.add_task(text.to_string());
    id
}

#[test]
fn new_store_is_empty() {
    let store = TaskStore::new();
    assert_eq!(store.task_count(), 0);
    assert_eq!(store.active_count(), 0);
    assert!(!store.has_completed());
    assert_eq!(store.filter, Filter::All);
    assert_eq!(store.visible_ids(), Vec::<u64>::new());
    assert_eq!(store.draft_new_task, "");
    assert!(!store.exclusive_edit);
}

#[test]
fn add_task_appends_with_fresh_ids() {
    let mut store = TaskStore::new();
    let a = add(&mut store, "first");
    let b = add(&mut store, "second");
    assert_eq!((a, b), (0, 1));
    assert_eq!(store.task_count(), 2);
    assert_eq!(store.tasks[0].text, "first");
    assert_eq!(store.tasks[1].text, "second");
    assert!(!store.tasks[0].completed);
    assert!(!store.tasks[1].completed);
    assert_eq!(store.tasks[0].edit, EditState::Viewing);
    assert_eq!(store.visible_ids(), vec![0, 1]);
}

#[test]
fn add_blank_is_noop() {
    let mut store = TaskStore::new();
    add(&mut store, "kept");
    store.add_task("".to_string());
    assert_eq!(store.task_count(), 1);
    store.add_task("   ".to_string());
    assert_eq!(store.task_count(), 1);
    store.add_task("\t\r\n ".to_string());
    assert_eq!(store.task_count(), 1);
    assert_eq!(store.next_id, 1);
}

#[test]
fn toggle_flips_and_unknown_id_is_noop() {
    let mut store = TaskStore::new();
    let a = add(&mut store, "one");
    store.toggle(a);
    assert!(store.tasks[0].completed);
    store.toggle(a);
    assert!(!store.tasks[0].completed);
    store.toggle(999);
    assert_eq!(store.task_count(), 1);
    assert!(!store.tasks[0].completed);
}

#[test]
fn toggle_all_uniform_both_ways() {
    let mut store = TaskStore::new();
    let a = add(&mut store, "one");
    add(&mut store, "two");
    store.toggle(a);
    // one completed, one active: everything becomes completed
    store.toggle_all();
    assert!(store.tasks.iter().all(|t| t.completed));
    // none active: everything becomes active again
    store.toggle_all();
    assert!(store.tasks.iter().all(|t| !t.completed));
}

#[test]
fn toggle_all_on_empty_store_is_noop() {
    let mut store = TaskStore::new();
    store.toggle_all();
    assert_eq!(store.task_count(), 0);
}

#[test]
fn delete_removes_only_that_task_and_keeps_order() {
    let mut store = TaskStore::new();
    let a = add(&mut store, "one");
    let b = add(&mut store, "two");
    let c = add(&mut store, "three");
    store.delete_task(b);
    assert_eq!(store.task_count(), 2);
    assert_eq!(store.tasks[0].id, a);
    assert_eq!(store.tasks[1].id, c);
    assert_eq!(store.tasks[0].text, "one");
    assert_eq!(store.tasks[1].text, "three");
}

#[test]
fn delete_unknown_id_is_noop() {
    let mut store = TaskStore::new();
    add(&mut store, "one");
    store.delete_task(42);
    assert_eq!(store.task_count(), 1);
}

#[test]
fn clear_completed_removes_exactly_completed_in_order() {
    let mut store = TaskStore::new();
    let a = add(&mut store, "a");
    let b = add(&mut store, "b");
    let c = add(&mut store, "c");
    let d = add(&mut store, "d");
    store.toggle(a);
    store.toggle(c);
    store.clear_completed();
    assert_eq!(store.task_count(), 2);
    assert_eq!(store.tasks[0].id, b);
    assert_eq!(store.tasks[1].id, d);
    assert!(!store.has_completed());
    // nothing completed: a second call changes nothing
    store.clear_completed();
    assert_eq!(store.task_count(), 2);
}

#[test]
fn ids_stay_distinct_and_are_never_reused() {
    let mut store = TaskStore::new();
    let a = add(&mut store, "a");
    let b = add(&mut store, "b");
    store.delete_task(b);
    let c = add(&mut store, "c");
    assert_ne!(c, a);
    assert_ne!(c, b);
    store.delete_task(a);
    let d = add(&mut store, "d");
    let ids: Vec<u64> = store.tasks.iter().map(|t| t.id).collect();
    assert_eq!(ids, vec![c, d]);
    assert_ne!(c, d);
}

#[test]
fn visible_ids_follow_the_filter() {
    let mut store = TaskStore::new();
    let a = add(&mut store, "a");
    let b = add(&mut store, "b");
    let c = add(&mut store, "c");
    store.toggle(b);
    store.set_filter(Filter::Active);
    assert_eq!(store.visible_ids(), vec![a, c]);
    store.set_filter(Filter::Completed);
    assert_eq!(store.visible_ids(), vec![b]);
    store.set_filter(Filter::All);
    assert_eq!(store.visible_ids(), vec![a, b, c]);
}

#[test]
fn set_filter_is_idempotent_and_hides_no_data() {
    let mut store = TaskStore::new();
    add(&mut store, "a");
    store.set_filter(Filter::Completed);
    store.set_filter(Filter::Completed);
    assert_eq!(store.filter, Filter::Completed);
    assert_eq!(store.visible_ids(), Vec::<u64>::new());
    assert_eq!(store.task_count(), 1);
}

#[test]
fn active_count_and_has_completed_track_flags() {
    let mut store = TaskStore::new();
    let a = add(&mut store, "a");
    add(&mut store, "b");
    assert_eq!(store.active_count(), 2);
    assert!(!store.has_completed());
    store.toggle(a);
    assert_eq!(store.active_count(), 1);
    assert!(store.has_completed());
}

#[test]
fn submit_draft_adds_task_and_clears_draft() {
    let mut store = TaskStore::new();
    store.set_new_task_draft("from the draft".to_string());
    store.submit_draft();
    assert_eq!(store.task_count(), 1);
    assert_eq!(store.tasks[0].text, "from the draft");
    assert_eq!(store.draft_new_task, "");
}

#[test]
fn submit_blank_draft_changes_nothing() {
    let mut store = TaskStore::new();
    store.set_new_task_draft("  ".to_string());
    store.submit_draft();
    assert_eq!(store.task_count(), 0);
    assert_eq!(store.draft_new_task, "  ");
}

#[test]
fn scenario_add_toggle_filter_clear() {
    let mut store = TaskStore::new();
    let id1 = store.next_id;
    store.add_task("write spec".to_string());
    store.add_task("".to_string());
    assert_eq!(store.task_count(), 1);
    store.toggle(id1);
    assert_eq!(store.active_count(), 0);
    assert!(store.has_completed());
    store.set_filter(Filter::Active);
    assert_eq!(store.visible_ids(), Vec::<u64>::new());
    store.clear_completed();
    assert_eq!(store.task_count(), 0);
}

#[test]
fn active_view_matches_what_clear_completed_keeps() {
    let mut store = TaskStore::new();
    let a = add(&mut store, "a");
    let b = add(&mut store, "b");
    let c = add(&mut store, "c");
    store.toggle(b);
    store.set_filter(Filter::Active);
    let active_view = store.visible_ids();
    store.set_filter(Filter::Completed);
    let completed_view = store.visible_ids();
    assert_eq!(active_view.len() + completed_view.len(), store.task_count());
    store.clear_completed();
    let kept: Vec<u64> = store.tasks.iter().map(|t| t.id).collect();
    assert_eq!(active_view, kept);
    assert_eq!(kept, vec![a, c]);
}

#[test]
fn get_task_finds_by_id() {
    let mut store = TaskStore::new();
    let a = add(&mut store, "hello");
    assert_eq!(store.get_task(a).map(|t| t.text.as_str()), Some("hello"));
    assert!(store.get_task(77).is_none());
}
