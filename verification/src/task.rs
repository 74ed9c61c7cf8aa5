//! A single to-do entry, its edit-session state machine, and the view filter.

use vstd::prelude::*;
use vstd::string::StrSliceExecFns;

verus! {

/// A view predicate applied to derive the visible subset of tasks without
/// mutating the underlying collection.
#[derive(Clone, Copy, Debug, PartialEq, Eq, Structural)]
pub enum Filter {
    All,
    Active,
    Completed,
}

/// The edit-session state machine embedded in each task.
///
/// `Viewing` is both the initial state and the state every session returns
/// to; there is no terminal state. Entering `Editing` snapshots the pre-edit
/// text into `stash` and seeds `draft` with it; the task's own text is
/// untouched until the session is committed.
#[derive(Debug, PartialEq)]
pub enum EditState {
    Viewing,
    Editing { draft: String, stash: String },
}

impl Clone for EditState {
    /// An exact copy.
    fn clone(&self) -> (res: Self)
        ensures
            res == *self,
    {
        match self {
            EditState::Viewing => EditState::Viewing,
            EditState::Editing { draft, stash } => EditState::Editing {
                draft: draft.clone(),
                stash: stash.clone(),
            },
        }
    }
}

/// A front-end message about one task: the store applies it to the task
/// carrying a given id.
#[derive(Debug, PartialEq)]
pub enum TaskMessage {
    /// Set the completion flag to the given value.
    Completed(bool),
    /// Open an edit session.
    Edit,
    /// Replace the draft of the open edit session.
    DescriptionEdited(String),
    /// Commit the open edit session.
    FinishEdition,
    /// Remove the task.
    Delete,
}

impl Clone for TaskMessage {
    /// An exact copy.
    fn clone(&self) -> (res: Self)
        ensures
            res == *self,
    {
        match self {
            TaskMessage::Completed(done) => TaskMessage::Completed(*done),
            TaskMessage::Edit => TaskMessage::Edit,
            TaskMessage::DescriptionEdited(text) => TaskMessage::DescriptionEdited(text.clone()),
            TaskMessage::FinishEdition => TaskMessage::FinishEdition,
            TaskMessage::Delete => TaskMessage::Delete,
        }
    }
}

/// A single to-do entry: stable id, display text, completion flag, and the
/// transient edit-session state.
#[derive(Debug, PartialEq)]
pub struct Task {
    pub id: u64,
    pub text: String,
    pub completed: bool,
    pub edit: EditState,
}

impl Clone for Task {
    /// An exact copy.
    fn clone(&self) -> (res: Self)
        ensures
            res == *self,
    {
        Task {
            id: self.id,
            text: self.text.clone(),
            completed: self.completed,
            edit: self.edit.clone(),
        }
    }
}

/// Whether a task with completion flag `completed` passes the filter `f`.
pub open spec fn spec_matches(f: Filter, completed: bool) -> bool {
    match f {
        Filter::All => true,
        Filter::Active => !completed,
        Filter::Completed => completed,
    }
}

impl Filter {
    /// Whether `task` passes this filter: every task under `All`, the
    /// not-completed ones under `Active`, the completed ones under
    /// `Completed`.
    pub fn matches(self, task: &Task) -> (r: bool)
        ensures
            r == spec_matches(self, task.completed),
    {
        match self {
            Filter::All => true,
            Filter::Active => !task.completed,
            Filter::Completed => task.completed,
        }
    }
}

/// ASCII whitespace, the characters that blank-text detection ignores.
pub open spec fn is_space(c: char) -> bool {
    c == ' ' || c == '\t' || c == '\n' || c == '\r'
}

/// Text that task creation rejects: empty, or whitespace throughout.
pub open spec fn is_blank(s: Seq<char>) -> bool {
    forall|i: int| 0 <= i < s.len() ==> is_space(s[i])
}

/// Whether `s` is empty or consists of whitespace only.
pub fn text_is_blank(s: &str) -> (r: bool)
    ensures
        r == is_blank(s@),
{
    let n = s.unicode_len();
    for i in 0..n
        invariant
            n == s@.len(),
            forall|j: int| 0 <= j < i ==> is_space(s@[j]),
    {
        let c = s.get_char(i);
        match c {
            ' ' | '\t' | '\n' | '\r' => {},
            _ => {
                return false;
            },
        }
    }
    true
}

impl EditState {
    /// Whether an edit session is open.
    pub open spec fn spec_is_editing(self) -> bool {
        self is Editing
    }

    /// Whether an edit session is open.
    pub fn is_editing(&self) -> (r: bool)
        ensures
            r == self.spec_is_editing(),
    {
        match self {
            EditState::Editing { .. } => true,
            EditState::Viewing => false,
        }
    }
}

impl Task {
    /// A fresh entry: not completed, no edit session open.
    pub fn new(id: u64, text: String) -> (t: Task)
        ensures
            t == (Task { id, text, completed: false, edit: EditState::Viewing }),
    {
        Task { id, text, completed: false, edit: EditState::Viewing }
    }
}

/// `beginEdit` on one task: open (or restart) the session with the draft and
/// the stash both seeded from the current text.
pub open spec fn begin_edit_task(t: Task) -> Task {
    Task { edit: EditState::Editing { draft: t.text, stash: t.text }, ..t }
}

/// Ending a session without touching the text: the draft is discarded.
pub open spec fn end_edit_task(t: Task) -> Task {
    Task { edit: EditState::Viewing, ..t }
}

/// `updateDraft` on one task: replace the draft, keep the stash and the text.
/// A task without an open session is untouched.
pub open spec fn update_draft_task(t: Task, text: String) -> Task {
    match t.edit {
        EditState::Editing { draft, stash } => (Task {
            edit: EditState::Editing { draft: text, stash },
            ..t
        }),
        EditState::Viewing => t,
    }
}

/// `commitEdit` on one task: a non-empty draft becomes the text and the
/// session closes; an empty draft leaves the session open and the task
/// unchanged. A task without an open session is untouched.
pub open spec fn commit_edit_task(t: Task) -> Task {
    match t.edit {
        EditState::Editing { draft, stash } => if draft@.len() > 0 {
            Task { text: draft, edit: EditState::Viewing, ..t }
        } else {
            t
        },
        EditState::Viewing => t,
    }
}

/// `cancelEdit` on one task: the draft is discarded, the stashed pre-edit
/// text is restored, and the session closes. A task without an open session
/// is untouched.
pub open spec fn cancel_edit_task(t: Task) -> Task {
    match t.edit {
        EditState::Editing { draft, stash } => (Task {
            text: stash,
            edit: EditState::Viewing,
            ..t
        }),
        EditState::Viewing => t,
    }
}

/// Setting the completion flag of one task.
pub open spec fn set_completed_task(t: Task, completed: bool) -> Task {
    Task { completed, ..t }
}

} // verus!
