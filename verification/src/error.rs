//! The ways in which the menu itself can refuse a request.

use vstd::prelude::*;

verus! {

/// A request that the menu cannot serve. Failures of the drawing surface are
/// not among these: they belong to the surface and pass through unchanged.
#[derive(Clone, Copy, Debug, PartialEq, Eq, Structural)]
pub enum MenuError {
    /// A menu without entries: there is nothing for the cursor to stand on.
    InvalidState,
}

} // verus!
