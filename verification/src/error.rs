//! The failures that the window layer reports.

use vstd::prelude::*;

verus! {

#[derive(Clone, Copy, Debug, PartialEq, Eq, Structural)]
pub enum NwgError {
    /// A control was used before it was bound to a window.
    Unbound,
    /// The window system refused to create the window.
    CreationFailed,
    /// The identifier is absent from the control collection.
    NotFound,
    /// The window carries no identity record.
    NoUi,
}

} // verus!
