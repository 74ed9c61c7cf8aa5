//! The decision cores of the input controllers and of the application
//! delegate: which store mutation each input event or dispatched command
//! stands for. A front-end's event loop owns the widgets and the focus; it
//! hands the key press or the command here and re-reads the store afterwards.

use vstd::prelude::*;
use crate::store::{
    contains_id, index_of_id, spec_begin_edit, spec_cancel_edit, spec_commit_edit, TaskStore,
};

verus! {

/// A key press that the controllers decide on. Keys they do not decide on
/// arrive as `Other` and are left to the widget.
#[derive(Clone, Copy, Debug, PartialEq, Eq, Structural)]
pub enum InputKey {
    Enter,
    Tab,
    Escape,
    Other,
}

/// The controller of the new-task input row: Enter submits the store-owned
/// creation draft.
pub struct AddTodoController;

impl AddTodoController {
    /// Decide on a key press in the new-task input row. Enter submits the
    /// creation draft and is reported as handled; every other key leaves the
    /// store untouched.
    pub fn event(&self, store: &mut TaskStore, key: InputKey) -> (handled: bool)
        requires
            old(store).wf(),
            old(store).next_id < u64::MAX,
        ensures
            final(store).wf(),
            handled == (key is Enter),
            key is Enter ==> TaskStore::submit_outcome(*old(store), *final(store)),
            !(key is Enter) ==> *final(store) == *old(store),
    {
        match key {
            InputKey::Enter => {
                store.submit_draft();
                true
            },
            _ => false,
        }
    }
}

/// The controller of one task's row while its text is being edited: Enter
/// and Tab commit the edit session, Escape cancels it.
pub struct TodoItemController;

impl TodoItemController {
    /// Decide on a key press in a task's edit widget. Enter and Tab commit
    /// the session of the task carrying the id, Escape cancels it, and all
    /// three are reported as handled; every other key leaves the store
    /// untouched.
    pub fn event(&self, store: &mut TaskStore, id: u64, key: InputKey) -> (handled: bool)
        requires
            old(store).wf(),
        ensures
            final(store).wf(),
            TaskStore::same_but_tasks(*old(store), *final(store)),
            handled == (key is Enter || key is Tab || key is Escape),
            key is Enter || key is Tab ==> final(store).tasks@ == spec_commit_edit(
                old(store).tasks@,
                id,
            ),
            key is Escape ==> final(store).tasks@ == spec_cancel_edit(old(store).tasks@, id),
            key is Other ==> *final(store) == *old(store),
    {
        match key {
            InputKey::Enter | InputKey::Tab => {
                store.commit_edit(id);
                true
            },
            InputKey::Escape => {
                store.cancel_edit(id);
                true
            },
            InputKey::Other => false,
        }
    }
}

/// A command about one task, dispatched by a front-end's message bus.
#[derive(Clone, Copy, Debug, PartialEq, Eq, Structural)]
pub enum StoreCommand {
    /// Select a task for editing.
    Select(u64),
    /// End a task's edit session, keeping the edited text.
    Unselect(u64),
    /// Remove a task.
    Delete(u64),
}

/// The store-facing part of the application delegate: it receives the
/// commands that widgets dispatch and routes each to the mutation it stands
/// for.
pub struct Delegate;

impl Delegate {
    /// Route one dispatched command: `Select` opens the task's edit session
    /// (ending every other session when exclusive editing is configured),
    /// `Unselect` commits the session, `Delete` removes the task.
    pub fn command(&self, store: &mut TaskStore, command: StoreCommand)
        requires
            old(store).wf(),
        ensures
            final(store).wf(),
            TaskStore::same_but_tasks(*old(store), *final(store)),
            (command matches StoreCommand::Select(id) ==> final(store).tasks@ == spec_begin_edit(
                old(store).tasks@,
                id,
                old(store).exclusive_edit,
            )),
            (command matches StoreCommand::Unselect(id) ==> final(store).tasks@
                == spec_commit_edit(old(store).tasks@, id)),
            (command matches StoreCommand::Delete(id) ==> if contains_id(old(store).tasks@, id) {
                final(store).tasks@ == old(store).tasks@.remove(index_of_id(old(store).tasks@, id))
            } else {
                final(store).tasks@ == old(store).tasks@
            }),
    {
        match command {
            StoreCommand::Select(id) => store.begin_edit(id),
            StoreCommand::Unselect(id) => store.commit_edit(id),
            StoreCommand::Delete(id) => store.delete_task(id),
        }
    }
}

} // verus!
