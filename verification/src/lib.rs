use vstd::prelude::*;

pub mod grid;
pub mod history;
pub mod session;

verus! {

/// The ways an edit or a construction request can be rejected.
#[derive(Clone, Copy, Debug, PartialEq, Eq, Structural)]
pub enum GridError {
    /// The requested dimensions describe a cell count that cannot be addressed.
    InvalidDimension,
    /// The edit coordinates lie outside the grid.
    OutOfBounds,
    /// The color payload does not hold exactly three channel values.
    MalformedColor,
}

} // verus!
