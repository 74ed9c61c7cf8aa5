//! State store for a single-list task manager.
//!
//! The store owns an ordered collection of tasks and the active view filter,
//! exposes the mutation operations that a front-end binds its widgets to, and
//! computes the filtered id sequence and aggregate counts on demand. Inline
//! editing of a task's text runs through a small per-task state machine with
//! an explicit draft and a stashed pre-edit text, so that an edit session can
//! be committed or cancelled without losing data.
//!
//! Every mutation either changes the state observably or is a silent no-op
//! (unknown id, blank text where text is required); none of them panics.

pub mod controllers;
pub mod laws;
pub mod store;
pub mod task;
