use vstd::prelude::*;

verus! {

/// The ways an operation on the task list can fail. Callers are expected to
/// surface the specific kind, so that bad input, a missing position and a
/// full list stay distinguishable.
#[derive(Debug, PartialEq)]
pub enum TodoError {
    /// A caller-supplied value fails a structural precondition:
    /// an empty title, or a non-positive id.
    InvalidInput { val: String },
    /// The id does not address an existing item at call time.
    NotFound,
    /// The list is full; the caller must remove items before adding more.
    CapacityExceeded { val: String },
}

} // verus!
