//! The store's laws: properties that relate several operations, stated over
//! the specification-level transitions that the operations' contracts use.

use vstd::prelude::*;
use crate::store::{
    active_tasks, spec_any_active, spec_begin_edit, spec_cancel_edit, spec_commit_edit,
    spec_toggle_all, spec_update_draft, spec_visible_ids, task_ids, TaskStore,
};
use crate::task::{spec_matches, EditState, Filter, Task};

verus! {

/// In a well-formed store the task ids are pairwise distinct. A fresh store
/// is well formed and every mutation's contract both assumes and re-ensures
/// well-formedness, so along any sequence of mutations the ids stay pairwise
/// distinct at every point in time.
pub proof fn lemma_ids_pairwise_distinct(s: TaskStore)
    requires
        s.wf(),
    ensures
        forall|i: int, j: int|
            0 <= i < j < s.tasks@.len() ==> s.tasks@[i].id != s.tasks@[j].id,
{
}

/// After `toggleAll`, either every task is completed (some task was still
/// active before the call) or every task is active again (none was); and the
/// flags stay uniform over a second immediate call.
pub proof fn lemma_toggle_all_uniform(tasks: Seq<Task>)
    ensures
        spec_toggle_all(tasks).len() == tasks.len(),
        spec_any_active(tasks) ==> forall|i: int|
            0 <= i < tasks.len() ==> (#[trigger] spec_toggle_all(tasks)[i]).completed,
        !spec_any_active(tasks) ==> forall|i: int|
            0 <= i < tasks.len() ==> !(#[trigger] spec_toggle_all(tasks)[i]).completed,
        forall|i: int, j: int|
            0 <= i < tasks.len() && 0 <= j < tasks.len() ==> (#[trigger] spec_toggle_all(
                spec_toggle_all(tasks),
            )[i]).completed == (#[trigger] spec_toggle_all(spec_toggle_all(tasks))[j]).completed,
{
    let once = spec_toggle_all(tasks);
    let twice = spec_toggle_all(once);
    assert(forall|i: int|
        0 <= i < tasks.len() ==> (#[trigger] once[i]).completed == spec_any_active(tasks));
    assert(forall|i: int|
        0 <= i < tasks.len() ==> (#[trigger] twice[i]).completed == spec_any_active(once));
}

/// `cancelEdit` is a true no-op on the text relative to the state before
/// `beginEdit`: opening a session on a task, replacing its draft, and then
/// cancelling leaves every task's id, text and completion flag exactly as
/// they were — whatever draft was entered, whether or not the id is known,
/// and whether or not edit sessions are exclusive.
pub proof fn lemma_cancel_edit_restores_text(
    tasks: Seq<Task>,
    id: u64,
    draft: String,
    exclusive: bool,
)
    ensures
        ({
            let after = spec_cancel_edit(
                spec_update_draft(spec_begin_edit(tasks, id, exclusive), id, draft),
                id,
            );
            &&& after.len() == tasks.len()
            &&& forall|i: int|
                0 <= i < tasks.len() ==> {
                    &&& (#[trigger] after[i]).text == tasks[i].text
                    &&& after[i].id == tasks[i].id
                    &&& after[i].completed == tasks[i].completed
                }
        }),
{
}

/// `commitEdit` with a non-empty draft sets the text to exactly that draft
/// and returns the task to `Viewing`; every other task's text is untouched.
pub proof fn lemma_commit_edit_applies_draft(
    tasks: Seq<Task>,
    id: u64,
    draft: String,
    exclusive: bool,
)
    requires
        draft@.len() > 0,
    ensures
        ({
            let after = spec_commit_edit(
                spec_update_draft(spec_begin_edit(tasks, id, exclusive), id, draft),
                id,
            );
            &&& after.len() == tasks.len()
            &&& forall|i: int|
                0 <= i < tasks.len() && tasks[i].id == id ==> {
                    &&& (#[trigger] after[i]).text == draft
                    &&& after[i].edit == EditState::Viewing
                }
            &&& forall|i: int|
                0 <= i < tasks.len() && tasks[i].id != id ==> (#[trigger] after[i]).text
                    == tasks[i].text
        }),
{
}

/// Under filter `All` the visible ids are exactly the ids of every task, in
/// store order: the filter hides nothing.
pub proof fn lemma_visible_ids_all(tasks: Seq<Task>)
    ensures
        spec_visible_ids(tasks, Filter::All) == task_ids(tasks),
{
    lemma_filter_all_identity(tasks);
}

/// The filter predicate of `All` holds of every task, so filtering with it
/// keeps the sequence as it is.
proof fn lemma_filter_all_identity(tasks: Seq<Task>)
    ensures
        tasks.filter(|t: Task| spec_matches(Filter::All, t.completed)) == tasks,
    decreases tasks.len(),
{
    reveal(Seq::filter);
    let pred = |t: Task| spec_matches(Filter::All, t.completed);
    if tasks.len() == 0 {
        assert(tasks.filter(pred) =~= tasks);
    } else {
        lemma_filter_all_identity(tasks.drop_last());
        assert(tasks.filter(pred) == tasks.drop_last().filter(pred).push(tasks.last()));
        assert(tasks.drop_last().push(tasks.last()) =~= tasks);
    }
}

/// Filtering with predicates that agree on every task gives the same
/// sequence.
proof fn lemma_filter_congruent(tasks: Seq<Task>, p1: spec_fn(Task) -> bool, p2: spec_fn(
    Task,
) -> bool)
    requires
        forall|t: Task| #[trigger] p1(t) == #[trigger] p2(t),
    ensures
        tasks.filter(p1) == tasks.filter(p2),
    decreases tasks.len(),
{
    reveal(Seq::filter);
    if tasks.len() > 0 {
        lemma_filter_congruent(tasks.drop_last(), p1, p2);
    }
}

/// The ids visible under filter `Active` are exactly the ids of the tasks
/// that `clearCompleted` would keep, in the same order.
pub proof fn lemma_visible_ids_active(tasks: Seq<Task>)
    ensures
        spec_visible_ids(tasks, Filter::Active) == task_ids(active_tasks(tasks)),
{
    lemma_filter_congruent(
        tasks,
        |t: Task| spec_matches(Filter::Active, t.completed),
        |t: Task| !t.completed,
    );
}

/// The views under `Active` and under `Completed` partition the store:
/// together they show every task exactly once.
pub proof fn lemma_active_completed_partition(tasks: Seq<Task>)
    ensures
        spec_visible_ids(tasks, Filter::Active).len() + spec_visible_ids(
            tasks,
            Filter::Completed,
        ).len() == tasks.len(),
    decreases tasks.len(),
{
    reveal(Seq::filter);
    if tasks.len() > 0 {
        lemma_active_completed_partition(tasks.drop_last());
    }
}

/// `clearCompleted` keeps exactly the active tasks: everything it keeps was
/// in the store and still active, and every active task of the store is
/// kept. Their relative order is unchanged, because the kept sequence is the
/// filtered original (the ensures of `clear_completed`).
pub proof fn lemma_clear_completed_exact(tasks: Seq<Task>)
    ensures
        forall|i: int|
            0 <= i < active_tasks(tasks).len() ==> {
                &&& !(#[trigger] active_tasks(tasks)[i]).completed
                &&& tasks.contains(active_tasks(tasks)[i])
            },
        forall|i: int|
            0 <= i < tasks.len() && !(#[trigger] tasks[i]).completed ==> active_tasks(
                tasks,
            ).contains(tasks[i]),
{
    let pred = |t: Task| !t.completed;
    crate::store::lemma_filter_elems_occur(tasks, pred);
    broadcast use vstd::seq_lib::group_filter_ensures;

}

} // verus!

