//! Why an access or a view request was turned down.

use vstd::prelude::*;

verus! {

/// The cause for which a checked operation refused its input.
#[derive(Clone, Copy, Debug, PartialEq, Eq, Structural)]
pub enum Fault {
    /// The cell lies outside the extent, or the layout maps it outside the
    /// buffer.
    OutOfBounds,
    /// The requested sub-rectangle does not lie inside the source.
    InvalidView,
}

} // verus!
