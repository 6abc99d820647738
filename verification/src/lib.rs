//! A verified todo-list store: one ordered list of task records, exposed
//! through three mutating operations (add, toggle, remove) and one read
//! operation (list). A task's externally visible id is its 1-based position
//! in the list at query time, so ids are not stable across removals.

pub mod error;
pub mod laws;
pub mod state;
