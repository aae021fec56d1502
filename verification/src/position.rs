//! Grid coordinates.

use vstd::prelude::*;

verus! {

/// A grid cell coordinate: origin at the top-left, `x` increasing rightward,
/// `y` increasing downward. Immutable once constructed.
#[derive(Debug, Copy, Clone, PartialEq, Eq, Structural)]
pub struct Position {
    pub x: u16,
    pub y: u16,
}

} // verus!
