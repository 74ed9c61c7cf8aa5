//! The task store: the ordered task collection, the active filter, the draft
//! for a task being created, and the mutation operations a front-end calls.

use vstd::prelude::*;
use crate::task::{
    begin_edit_task, cancel_edit_task, commit_edit_task, end_edit_task, is_blank, set_completed_task,
    spec_matches, text_is_blank, update_draft_task, EditState, Filter, Task, TaskMessage,
};

verus! {

/// Pairwise-distinct ids: no two tasks in the sequence share an id.
pub open spec fn ids_distinct(tasks: Seq<Task>) -> bool {
    forall|i: int, j: int|
        0 <= i < j < tasks.len() ==> tasks[i].id != tasks[j].id
}

/// Every id in the sequence lies below `bound`.
pub open spec fn ids_below(tasks: Seq<Task>, bound: u64) -> bool {
    forall|i: int| 0 <= i < tasks.len() ==> tasks[i].id < bound
}

/// Some task in the sequence carries the id.
pub open spec fn contains_id(tasks: Seq<Task>, id: u64) -> bool {
    exists|i: int| 0 <= i < tasks.len() && tasks[i].id == id
}

/// The position of the task carrying the id; meaningful when the id occurs
/// and the ids are pairwise distinct.
pub open spec fn index_of_id(tasks: Seq<Task>, id: u64) -> int {
    choose|i: int| 0 <= i < tasks.len() && tasks[i].id == id
}

/// Inside an open edit session the stash always equals the task's text: the
/// session snapshots the text on entry and the text does not change until the
/// session ends.
pub open spec fn stash_consistent(tasks: Seq<Task>) -> bool {
    forall|i: int|
        0 <= i < tasks.len() ==> (#[trigger] tasks[i].edit matches EditState::Editing { stash, .. }
            ==> stash == tasks[i].text)
}

/// Some task in the sequence is still active (not completed).
pub open spec fn spec_any_active(tasks: Seq<Task>) -> bool {
    exists|i: int| 0 <= i < tasks.len() && !tasks[i].completed
}

/// Some task in the sequence is completed.
pub open spec fn spec_any_completed(tasks: Seq<Task>) -> bool {
    exists|i: int| 0 <= i < tasks.len() && tasks[i].completed
}

/// The tasks that are still active, in store order.
pub open spec fn active_tasks(tasks: Seq<Task>) -> Seq<Task> {
    tasks.filter(|t: Task| !t.completed)
}

/// The ids of the tasks, in store order.
pub open spec fn task_ids(tasks: Seq<Task>) -> Seq<u64> {
    tasks.map_values(|t: Task| t.id)
}

/// The ids of the tasks passing the filter, in store order.
pub open spec fn spec_visible_ids(tasks: Seq<Task>, f: Filter) -> Seq<u64> {
    task_ids(tasks.filter(|t: Task| spec_matches(f, t.completed)))
}

/// `toggle`: flip the completion flag of the task carrying the id.
pub open spec fn spec_toggle(tasks: Seq<Task>, id: u64) -> Seq<Task> {
    tasks.map_values(
        |t: Task|
            if t.id == id {
                set_completed_task(t, !t.completed)
            } else {
                t
            },
    )
}

/// Setting the completion flag of the task carrying the id.
pub open spec fn spec_set_completed(tasks: Seq<Task>, id: u64, completed: bool) -> Seq<Task> {
    tasks.map_values(
        |t: Task|
            if t.id == id {
                set_completed_task(t, completed)
            } else {
                t
            },
    )
}

/// `toggleAll`: every task's completion flag becomes true when any task was
/// still active, false when none was.
pub open spec fn spec_toggle_all(tasks: Seq<Task>) -> Seq<Task> {
    tasks.map_values(|t: Task| set_completed_task(t, spec_any_active(tasks)))
}

/// `beginEdit`: open a session on the task carrying the id. With exclusive
/// editing the sessions of every other task are ended (their drafts are
/// discarded, their texts untouched).
pub open spec fn spec_begin_edit(tasks: Seq<Task>, id: u64, exclusive: bool) -> Seq<Task> {
    tasks.map_values(
        |t: Task|
            if t.id == id {
                begin_edit_task(t)
            } else if exclusive {
                end_edit_task(t)
            } else {
                t
            },
    )
}

/// `updateDraft`: replace the draft of the task carrying the id, when its
/// session is open.
pub open spec fn spec_update_draft(tasks: Seq<Task>, id: u64, text: String) -> Seq<Task> {
    tasks.map_values(
        |t: Task|
            if t.id == id {
                update_draft_task(t, text)
            } else {
                t
            },
    )
}

/// `commitEdit`: apply the draft of the task carrying the id, when its
/// session is open and the draft is non-empty.
pub open spec fn spec_commit_edit(tasks: Seq<Task>, id: u64) -> Seq<Task> {
    tasks.map_values(
        |t: Task|
            if t.id == id {
                commit_edit_task(t)
            } else {
                t
            },
    )
}

/// `cancelEdit`: discard the draft of the task carrying the id and restore
/// its stashed text, when its session is open.
pub open spec fn spec_cancel_edit(tasks: Seq<Task>, id: u64) -> Seq<Task> {
    tasks.map_values(
        |t: Task|
            if t.id == id {
                cancel_edit_task(t)
            } else {
                t
            },
    )
}

/// `rename`: non-empty text replaces the text of the task carrying the id
/// and ends any open session; empty text changes nothing.
pub open spec fn spec_rename(tasks: Seq<Task>, id: u64, text: String) -> Seq<Task> {
    tasks.map_values(
        |t: Task|
            if t.id == id && text@.len() > 0 {
                Task { text, edit: EditState::Viewing, ..t }
            } else {
                t
            },
    )
}

/// Every element of a filtered sequence occurs in the sequence it was
/// filtered from.
pub proof fn lemma_filter_elems_occur(tasks: Seq<Task>, pred: spec_fn(Task) -> bool)
    ensures
        forall|i: int|
            0 <= i < tasks.filter(pred).len() ==> tasks.contains(#[trigger] tasks.filter(pred)[i]),
    decreases tasks.len(),
{
    reveal(Seq::filter);
    if tasks.len() > 0 {
        let rest = tasks.drop_last();
        lemma_filter_elems_occur(rest, pred);
        assert forall|i: int|
            0 <= i < tasks.filter(pred).len() implies tasks.contains(
            #[trigger] tasks.filter(pred)[i],
        ) by {
            let fs = tasks.filter(pred);
            if pred(tasks.last()) && i == fs.len() - 1 {
                assert(tasks[tasks.len() - 1] == fs[i]);
            } else {
                assert(rest.contains(rest.filter(pred)[i]));
                let j = choose|j: int| 0 <= j < rest.len() && rest[j] == rest.filter(pred)[i];
                assert(tasks[j] == fs[i]);
            }
        }
    }
}

/// Filtering keeps the parts of the store invariant that constrain the task
/// sequence: distinct ids stay distinct, a bound on the ids stays a bound,
/// and the stash of every open session still equals its task's text.
pub proof fn lemma_filter_keeps_invariants(tasks: Seq<Task>, pred: spec_fn(Task) -> bool, bound: u64)
    requires
        ids_distinct(tasks),
        ids_below(tasks, bound),
        stash_consistent(tasks),
    ensures
        ids_distinct(tasks.filter(pred)),
        ids_below(tasks.filter(pred), bound),
        stash_consistent(tasks.filter(pred)),
    decreases tasks.len(),
{
    reveal(Seq::filter);
    lemma_filter_elems_occur(tasks, pred);
    if tasks.len() > 0 {
        let rest = tasks.drop_last();
        lemma_filter_keeps_invariants(rest, pred, bound);
        if pred(tasks.last()) {
            let rf = rest.filter(pred);
            assert forall|i: int| 0 <= i < rf.len() implies rf[i].id != tasks.last().id by {
                lemma_filter_elems_occur(rest, pred);
                assert(rest.contains(rf[i]));
                let j = choose|j: int| 0 <= j < rest.len() && rest[j] == rf[i];
                assert(tasks[j] == rf[i]);
            }
        }
    }
}

/// The reactive state store: the ordered task collection (insertion order is
/// the canonical order), the view filter, the not-yet-submitted text for task
/// creation, the edit-exclusivity configuration, and the id allocator.
pub struct TaskStore {
    pub tasks: Vec<Task>,
    pub filter: Filter,
    pub draft_new_task: String,
    pub exclusive_edit: bool,
    pub next_id: u64,
}

impl TaskStore {
    /// The store's invariant: ids are pairwise distinct and below the next
    /// id to be handed out (so a fresh id never collides and a deleted id is
    /// never reused), and inside every open edit session the stash equals
    /// the task's current text.
    pub open spec fn wf(self) -> bool {
        &&& ids_distinct(self.tasks@)
        &&& ids_below(self.tasks@, self.next_id)
        &&& stash_consistent(self.tasks@)
    }

    /// Everything except the task sequence is unchanged.
    pub open spec fn same_but_tasks(pre: TaskStore, post: TaskStore) -> bool {
        &&& post.filter == pre.filter
        &&& post.draft_new_task == pre.draft_new_task
        &&& post.exclusive_edit == pre.exclusive_edit
        &&& post.next_id == pre.next_id
    }

    /// A fresh store: no tasks, filter `All`, empty creation draft, edit
    /// sessions not exclusive.
    pub fn new() -> (s: TaskStore)
        ensures
            s.wf(),
            s.tasks@ == Seq::<Task>::empty(),
            s.filter == Filter::All,
            s.draft_new_task@ == Seq::<char>::empty(),
            !s.exclusive_edit,
            s.next_id == 0,
    {
        TaskStore {
            tasks: Vec::new(),
            filter: Filter::All,
            draft_new_task: String::new(),
            exclusive_edit: false,
            next_id: 0,
        }
    }

    /// Configure whether opening an edit session ends every other session.
    pub fn set_exclusive_edit(&mut self, exclusive: bool)
        ensures
            *final(self) == (TaskStore { exclusive_edit: exclusive, ..*old(self) }),
    {
        self.exclusive_edit = exclusive;
    }

    /// `setFilter`: replace the view filter; the underlying collection is
    /// untouched.
    pub fn set_filter(&mut self, f: Filter)
        ensures
            *final(self) == (TaskStore { filter: f, ..*old(self) }),
    {
        self.filter = f;
    }

    /// Replace the not-yet-submitted text for task creation.
    pub fn set_new_task_draft(&mut self, text: String)
        ensures
            *final(self) == (TaskStore { draft_new_task: text, ..*old(self) }),
    {
        self.draft_new_task = text;
    }

    /// `addTask`: append a fresh task with the given text, not completed, no
    /// session open, carrying a never-before-used id. Blank text (empty or
    /// whitespace only) is a silent no-op.
    pub fn add_task(&mut self, text: String)
        requires
            old(self).wf(),
            old(self).next_id < u64::MAX,
        ensures
            final(self).wf(),
            is_blank(text@) ==> *final(self) == *old(self),
            !is_blank(text@) ==> {
                &&& final(self).tasks@ == old(self).tasks@.push(
                    (Task {
                        id: old(self).next_id,
                        text,
                        completed: false,
                        edit: EditState::Viewing,
                    }),
                )
                &&& final(self).next_id == old(self).next_id + 1
                &&& final(self).filter == old(self).filter
                &&& final(self).draft_new_task == old(self).draft_new_task
                &&& final(self).exclusive_edit == old(self).exclusive_edit
            },
    {
        if text_is_blank(text.as_str()) {
            return;
        }
        let id = self.next_id;
        self.next_id = self.next_id + 1;
        self.tasks.push(Task::new(id, text));
    }

    /// The position of the task carrying the id, when there is one.
    fn find_index(&self, id: u64) -> (r: Option<usize>)
        ensures
            match r {
                Some(k) => k < self.tasks@.len() && self.tasks@[k as int].id == id,
                None => !contains_id(self.tasks@, id),
            },
            r is Some <==> contains_id(self.tasks@, id),
            (r matches Some(k) && ids_distinct(self.tasks@)) ==> r->0 as int == index_of_id(
                self.tasks@,
                id,
            ),
    {
        let n = self.tasks.len();
        let mut i: usize = 0;
        while i < n
            invariant
                i <= n,
                n == self.tasks@.len(),
                forall|j: int| 0 <= j < i ==> self.tasks@[j].id != id,
            decreases n - i,
        {
            if self.tasks[i].id == id {
                proof {
                    if ids_distinct(self.tasks@) {
                        let c = index_of_id(self.tasks@, id);
                        assert(0 <= c < self.tasks@.len() && self.tasks@[c].id == id);
                    }
                }
                return Some(i);
            }
            i = i + 1;
        }
        None
    }

    /// `toggle`: flip the completion flag of the task carrying the id.
    /// Unknown id: silent no-op.
    pub fn toggle(&mut self, id: u64)
        requires
            old(self).wf(),
        ensures
            final(self).wf(),
            Self::same_but_tasks(*old(self), *final(self)),
            final(self).tasks@ == spec_toggle(old(self).tasks@, id),
            !contains_id(old(self).tasks@, id) ==> final(self).tasks@ == old(self).tasks@,
    {
        if let Some(k) = self.find_index(id) {
            let done = self.tasks[k].completed;
            self.tasks[k].completed = !done;
        }
        proof {
            let pre = old(self).tasks@;
            assert(self.tasks@ =~= spec_toggle(pre, id));
            if !contains_id(pre, id) {
                assert(self.tasks@ =~= pre);
            }
        }
    }

    /// Set the completion flag of the task carrying the id to the given
    /// value. Unknown id: silent no-op.
    pub fn set_completed(&mut self, id: u64, completed: bool)
        requires
            old(self).wf(),
        ensures
            final(self).wf(),
            Self::same_but_tasks(*old(self), *final(self)),
            final(self).tasks@ == spec_set_completed(old(self).tasks@, id, completed),
            !contains_id(old(self).tasks@, id) ==> final(self).tasks@ == old(self).tasks@,
    {
        if let Some(k) = self.find_index(id) {
            self.tasks[k].completed = completed;
        }
        proof {
            let pre = old(self).tasks@;
            assert(self.tasks@ =~= spec_set_completed(pre, id, completed));
            if !contains_id(pre, id) {
                assert(self.tasks@ =~= pre);
            }
        }
    }

    /// Whether some task is still active (not completed).
    fn any_active(&self) -> (r: bool)
        ensures
            r == spec_any_active(self.tasks@),
    {
        let n = self.tasks.len();
        let mut i: usize = 0;
        while i < n
            invariant
                i <= n,
                n == self.tasks@.len(),
                forall|j: int| 0 <= j < i ==> self.tasks@[j].completed,
            decreases n - i,
        {
            if !self.tasks[i].completed {
                return true;
            }
            i = i + 1;
        }
        false
    }

    /// `toggleAll`: when any task is still active, every task becomes
    /// completed; when all are already completed, every task becomes active
    /// again. The flag is applied uniformly, not toggled per task.
    pub fn toggle_all(&mut self)
        requires
            old(self).wf(),
        ensures
            final(self).wf(),
            Self::same_but_tasks(*old(self), *final(self)),
            final(self).tasks@ == spec_toggle_all(old(self).tasks@),
    {
        let check = self.any_active();
        let n = self.tasks.len();
        let mut i: usize = 0;
        while i < n
            invariant
                i <= n,
                n == self.tasks@.len(),
                n == old(self).tasks@.len(),
                Self::same_but_tasks(*old(self), *self),
                check == spec_any_active(old(self).tasks@),
                forall|j: int|
                    0 <= j < i ==> self.tasks@[j] == set_completed_task(
                        old(self).tasks@[j],
                        check,
                    ),
                forall|j: int| i <= j < n ==> self.tasks@[j] == old(self).tasks@[j],
            decreases n - i,
        {
            self.tasks[i].completed = check;
            i = i + 1;
        }
        proof {
            assert(self.tasks@ =~= spec_toggle_all(old(self).tasks@));
        }
    }

    /// `deleteTask`: remove the task carrying the id from the sequence; the
    /// order of the remaining tasks is unchanged. Unknown id: silent no-op.
    pub fn delete_task(&mut self, id: u64)
        requires
            old(self).wf(),
        ensures
            final(self).wf(),
            Self::same_but_tasks(*old(self), *final(self)),
            !contains_id(old(self).tasks@, id) ==> final(self).tasks@ == old(self).tasks@,
            contains_id(old(self).tasks@, id) ==> final(self).tasks@ == old(self).tasks@.remove(
                index_of_id(old(self).tasks@, id),
            ),
    {
        if let Some(k) = self.find_index(id) {
            self.tasks.remove(k);
        }
    }

    /// `clearCompleted`: remove every completed task and keep the active
    /// ones in their relative order. A silent no-op when none is completed.
    pub fn clear_completed(&mut self)
        requires
            old(self).wf(),
        ensures
            final(self).wf(),
            Self::same_but_tasks(*old(self), *final(self)),
            final(self).tasks@ == active_tasks(old(self).tasks@),
    {
        let ghost pred = |t: Task| !t.completed;
        let mut kept: Vec<Task> = Vec::new();
        let n = self.tasks.len();
        let mut i: usize = 0;
        while i < n
            invariant
                i <= n,
                n == self.tasks@.len(),
                pred == (|t: Task| !t.completed),
                kept@ == self.tasks@.take(i as int).filter(pred),
            decreases n - i,
        {
            proof {
                let prefix = self.tasks@.take(i as int);
                let t = self.tasks@[i as int];
                self.tasks@.lemma_take_succ_push(i as int);
                prefix.lemma_filter_push(t, pred);
            }
            if !self.tasks[i].completed {
                let t = self.tasks[i].clone();
                kept.push(t);
            }
            i = i + 1;
        }
        proof {
            assert(self.tasks@.take(n as int) =~= self.tasks@);
            lemma_filter_keeps_invariants(self.tasks@, pred, self.next_id);
        }
        self.tasks = kept;
    }

    /// `beginEdit`: open an edit session on the task carrying the id, with
    /// the draft and the stash seeded from its current text. With exclusive
    /// editing configured, every other task's session is ended (drafts
    /// discarded, texts untouched). Without it, an unknown id is a silent
    /// no-op.
    pub fn begin_edit(&mut self, id: u64)
        requires
            old(self).wf(),
        ensures
            final(self).wf(),
            Self::same_but_tasks(*old(self), *final(self)),
            final(self).tasks@ == spec_begin_edit(
                old(self).tasks@,
                id,
                old(self).exclusive_edit,
            ),
            !old(self).exclusive_edit && !contains_id(old(self).tasks@, id)
                ==> final(self).tasks@ == old(self).tasks@,
    {
        let exclusive = self.exclusive_edit;
        let n = self.tasks.len();
        let mut i: usize = 0;
        while i < n
            invariant
                i <= n,
                n == self.tasks@.len(),
                n == old(self).tasks@.len(),
                Self::same_but_tasks(*old(self), *self),
                exclusive == old(self).exclusive_edit,
                forall|j: int|
                    0 <= j < i ==> self.tasks@[j] == (if old(self).tasks@[j].id == id {
                        begin_edit_task(old(self).tasks@[j])
                    } else if exclusive {
                        end_edit_task(old(self).tasks@[j])
                    } else {
                        old(self).tasks@[j]
                    }),
                forall|j: int| i <= j < n ==> self.tasks@[j] == old(self).tasks@[j],
            decreases n - i,
        {
            if self.tasks[i].id == id {
                let text = self.tasks[i].text.clone();
                self.tasks[i].edit = EditState::Editing { draft: text.clone(), stash: text };
            } else if exclusive {
                self.tasks[i].edit = EditState::Viewing;
            }
            i = i + 1;
        }
        proof {
            let pre = old(self).tasks@;
            assert(self.tasks@ =~= spec_begin_edit(pre, id, old(self).exclusive_edit));
            if !old(self).exclusive_edit && !contains_id(pre, id) {
                assert(self.tasks@ =~= pre);
            }
        }
    }

    /// `updateDraft`: replace the draft of the task carrying the id; its
    /// text and stash stay untouched until the session is committed or
    /// cancelled. A task without an open session, or an unknown id, is a
    /// silent no-op.
    pub fn update_draft(&mut self, id: u64, text: String)
        requires
            old(self).wf(),
        ensures
            final(self).wf(),
            Self::same_but_tasks(*old(self), *final(self)),
            final(self).tasks@ == spec_update_draft(old(self).tasks@, id, text),
            !contains_id(old(self).tasks@, id) ==> final(self).tasks@ == old(self).tasks@,
    {
        if let Some(k) = self.find_index(id) {
            let stash_opt = match &self.tasks[k].edit {
                EditState::Editing { stash, .. } => Some(stash.clone()),
                EditState::Viewing => None,
            };
            if let Some(stash) = stash_opt {
                self.tasks[k].edit = EditState::Editing { draft: text, stash };
            }
        }
        proof {
            let pre = old(self).tasks@;
            assert(self.tasks@ =~= spec_update_draft(pre, id, text));
            if !contains_id(pre, id) {
                assert(self.tasks@ =~= pre);
            }
        }
    }

    /// `commitEdit`: a non-empty draft becomes the task's text and the
    /// session closes. An empty draft is a silent no-op that stays in the
    /// session; so is an unknown id or a task without an open session.
    pub fn commit_edit(&mut self, id: u64)
        requires
            old(self).wf(),
        ensures
            final(self).wf(),
            Self::same_but_tasks(*old(self), *final(self)),
            final(self).tasks@ == spec_commit_edit(old(self).tasks@, id),
            !contains_id(old(self).tasks@, id) ==> final(self).tasks@ == old(self).tasks@,
    {
        if let Some(k) = self.find_index(id) {
            let new_text = match &self.tasks[k].edit {
                EditState::Editing { draft, .. } => if draft.as_str().is_empty() {
                    None
                } else {
                    Some(draft.clone())
                },
                EditState::Viewing => None,
            };
            if let Some(t) = new_text {
                self.tasks[k].text = t;
                self.tasks[k].edit = EditState::Viewing;
            }
        }
        proof {
            let pre = old(self).tasks@;
            assert(self.tasks@ =~= spec_commit_edit(pre, id));
            if !contains_id(pre, id) {
                assert(self.tasks@ =~= pre);
            }
        }
    }

    /// `cancelEdit`: the draft is discarded, the stashed pre-edit text is
    /// restored, and the session closes. A task without an open session, or
    /// an unknown id, is a silent no-op.
    pub fn cancel_edit(&mut self, id: u64)
        requires
            old(self).wf(),
        ensures
            final(self).wf(),
            Self::same_but_tasks(*old(self), *final(self)),
            final(self).tasks@ == spec_cancel_edit(old(self).tasks@, id),
            !contains_id(old(self).tasks@, id) ==> final(self).tasks@ == old(self).tasks@,
    {
        if let Some(k) = self.find_index(id) {
            let stashed = match &self.tasks[k].edit {
                EditState::Editing { stash, .. } => Some(stash.clone()),
                EditState::Viewing => None,
            };
            if let Some(t) = stashed {
                self.tasks[k].text = t;
                self.tasks[k].edit = EditState::Viewing;
            }
        }
        proof {
            let pre = old(self).tasks@;
            assert(self.tasks@ =~= spec_cancel_edit(pre, id));
            if !contains_id(pre, id) {
                assert(self.tasks@ =~= pre);
            }
        }
    }

    /// `rename`: non-empty text replaces the text of the task carrying the
    /// id directly and ends any open session. Empty text, or an unknown id,
    /// is a silent no-op.
    pub fn rename(&mut self, id: u64, text: String)
        requires
            old(self).wf(),
        ensures
            final(self).wf(),
            Self::same_but_tasks(*old(self), *final(self)),
            final(self).tasks@ == spec_rename(old(self).tasks@, id, text),
            !contains_id(old(self).tasks@, id) ==> final(self).tasks@ == old(self).tasks@,
    {
        if text.as_str().is_empty() {
            proof {
                assert(self.tasks@ =~= spec_rename(self.tasks@, id, text));
            }
            return;
        }
        if let Some(k) = self.find_index(id) {
            self.tasks[k].text = text;
            self.tasks[k].edit = EditState::Viewing;
        }
        proof {
            let pre = old(self).tasks@;
            assert(self.tasks@ =~= spec_rename(pre, id, text));
            if !contains_id(pre, id) {
                assert(self.tasks@ =~= pre);
            }
        }
    }

    /// How submitting the creation draft relates the store before the call
    /// to the store after it: a blank draft changes nothing; a non-blank
    /// draft becomes a fresh appended task and the draft is cleared.
    pub open spec fn submit_outcome(pre: TaskStore, post: TaskStore) -> bool {
        if is_blank(pre.draft_new_task@) {
            post == pre
        } else {
            &&& post.tasks@ == pre.tasks@.push(
                (Task {
                    id: pre.next_id,
                    text: pre.draft_new_task,
                    completed: false,
                    edit: EditState::Viewing,
                }),
            )
            &&& post.next_id == pre.next_id + 1
            &&& post.draft_new_task@ == Seq::<char>::empty()
            &&& post.filter == pre.filter
            &&& post.exclusive_edit == pre.exclusive_edit
        }
    }

    /// Submit the store-owned creation draft: a non-blank draft becomes a
    /// fresh task and the draft is cleared; a blank draft changes nothing.
    pub fn submit_draft(&mut self)
        requires
            old(self).wf(),
            old(self).next_id < u64::MAX,
        ensures
            final(self).wf(),
            Self::submit_outcome(*old(self), *final(self)),
    {
        if text_is_blank(self.draft_new_task.as_str()) {
            return;
        }
        let text = self.draft_new_task.clone();
        self.draft_new_task = String::new();
        self.add_task(text);
    }

    /// Route a per-task front-end message to the mutation it stands for:
    /// `Completed` sets the flag, `Edit` opens a session, `DescriptionEdited`
    /// replaces the draft, `FinishEdition` commits, `Delete` removes the
    /// task.
    pub fn apply_task_message(&mut self, id: u64, message: TaskMessage)
        requires
            old(self).wf(),
        ensures
            final(self).wf(),
            Self::same_but_tasks(*old(self), *final(self)),
            (message matches TaskMessage::Completed(done) ==> final(self).tasks@
                == spec_set_completed(old(self).tasks@, id, done)),
            message is Edit ==> final(self).tasks@ == spec_begin_edit(
                old(self).tasks@,
                id,
                old(self).exclusive_edit,
            ),
            (message matches TaskMessage::DescriptionEdited(text) ==> final(self).tasks@
                == spec_update_draft(old(self).tasks@, id, text)),
            message is FinishEdition ==> final(self).tasks@ == spec_commit_edit(
                old(self).tasks@,
                id,
            ),
            message is Delete && contains_id(old(self).tasks@, id) ==> final(self).tasks@ == old(
                self,
            ).tasks@.remove(index_of_id(old(self).tasks@, id)),
            message is Delete && !contains_id(old(self).tasks@, id) ==> final(self).tasks@ == old(
                self,
            ).tasks@,
    {
        match message {
            TaskMessage::Completed(done) => self.set_completed(id, done),
            TaskMessage::Edit => self.begin_edit(id),
            TaskMessage::DescriptionEdited(text) => self.update_draft(id, text),
            TaskMessage::FinishEdition => self.commit_edit(id),
            TaskMessage::Delete => self.delete_task(id),
        }
    }

    /// `visibleIds`: the ids of the tasks passing the current filter, in
    /// store order.
    pub fn visible_ids(&self) -> (r: Vec<u64>)
        ensures
            r@ == spec_visible_ids(self.tasks@, self.filter),
    {
        let ghost f = self.filter;
        let ghost pred = |t: Task| spec_matches(f, t.completed);
        let mut r: Vec<u64> = Vec::new();
        let n = self.tasks.len();
        let mut i: usize = 0;
        while i < n
            invariant
                i <= n,
                n == self.tasks@.len(),
                f == self.filter,
                pred == (|t: Task| spec_matches(f, t.completed)),
                r@ == task_ids(self.tasks@.take(i as int).filter(pred)),
            decreases n - i,
        {
            proof {
                let prefix = self.tasks@.take(i as int);
                let t = self.tasks@[i as int];
                self.tasks@.lemma_take_succ_push(i as int);
                prefix.lemma_filter_push(t, pred);
                prefix.filter(pred).lemma_push_map_commute(|t: Task| t.id, t);
            }
            if self.filter.matches(&self.tasks[i]) {
                r.push(self.tasks[i].id);
            }
            i = i + 1;
        }
        proof {
            assert(self.tasks@.take(n as int) =~= self.tasks@);
        }
        r
    }

    /// `activeCount`: how many tasks are not completed.
    pub fn active_count(&self) -> (n: usize)
        ensures
            n == active_tasks(self.tasks@).len(),
    {
        let ghost pred = |t: Task| !t.completed;
        let mut count: usize = 0;
        let len = self.tasks.len();
        let mut i: usize = 0;
        while i < len
            invariant
                i <= len,
                len == self.tasks@.len(),
                pred == (|t: Task| !t.completed),
                count == self.tasks@.take(i as int).filter(pred).len(),
                count <= i,
            decreases len - i,
        {
            proof {
                let prefix = self.tasks@.take(i as int);
                let t = self.tasks@[i as int];
                self.tasks@.lemma_take_succ_push(i as int);
                prefix.lemma_filter_len_push(pred, t);
            }
            if !self.tasks[i].completed {
                count = count + 1;
            }
            i = i + 1;
        }
        proof {
            assert(self.tasks@.take(len as int) =~= self.tasks@);
        }
        count
    }

    /// `hasCompleted`: whether any task is completed (whether a "clear
    /// completed" affordance applies).
    pub fn has_completed(&self) -> (r: bool)
        ensures
            r == spec_any_completed(self.tasks@),
    {
        let n = self.tasks.len();
        let mut i: usize = 0;
        while i < n
            invariant
                i <= n,
                n == self.tasks@.len(),
                forall|j: int| 0 <= j < i ==> !self.tasks@[j].completed,
            decreases n - i,
        {
            if self.tasks[i].completed {
                return true;
            }
            i = i + 1;
        }
        false
    }

    /// How many tasks the store holds, whatever the filter.
    pub fn task_count(&self) -> (n: usize)
        ensures
            n == self.tasks@.len(),
    {
        self.tasks.len()
    }

    /// The task carrying the id, when there is one.
    pub fn get_task(&self, id: u64) -> (r: Option<&Task>)
        requires
            self.wf(),
        ensures
            r is Some <==> contains_id(self.tasks@, id),
            r matches Some(t) ==> *t == self.tasks@[index_of_id(self.tasks@, id)] && t.id == id,
    {
        match self.find_index(id) {
            Some(k) => Some(&self.tasks[k]),
            None => None,
        }
    }
}

} // verus!
