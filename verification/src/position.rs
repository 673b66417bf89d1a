//! Screen-space coordinates: a cell position and the terminal size.

use vstd::prelude::*;

verus! {

/// A screen-space position or scroll offset, both coordinates measured in
/// display columns/rows (never in grapheme counts).
#[derive(Clone, Copy, Debug, PartialEq, Eq, Structural)]
pub struct Position {
    pub col: usize,
    pub row: usize,
}

/// The size of the visible text area, in screen cells.
#[derive(Clone, Copy, Debug, PartialEq, Eq, Structural)]
pub struct Size {
    pub height: usize,
    pub width: usize,
}

impl Position {
    /// Component-wise difference, clamped at zero.
    pub fn saturating_sub(&self, other: &Self) -> (r: Self)
        ensures
            r.col == if self.col >= other.col {
                self.col - other.col
            } else {
                0
            },
            r.row == if self.row >= other.row {
                self.row - other.row
            } else {
                0
            },
    {
        Self {
            col: if self.col >= other.col {
                self.col - other.col
            } else {
                0
            },
            row: if self.row >= other.row {
                self.row - other.row
            } else {
                0
            },
        }
    }
}

impl Default for Position {
    /// The top-left cell.
    fn default() -> (r: Self)
        ensures
            r.col == 0 && r.row == 0,
    {
        Self { col: 0, row: 0 }
    }
}

impl Default for Size {
    /// A zero-area screen; every dimension comes from a later resize.
    fn default() -> (r: Self)
        ensures
            r.height == 0 && r.width == 0,
    {
        Self { height: 0, width: 0 }
    }
}

} // verus!
