//! Text-space cursor coordinate: a line index and a grapheme index.

use vstd::prelude::*;

verus! {

/// A text-space cursor coordinate.  `line` indexes into the buffer;
/// `index` is a grapheme offset into that line, where the position one
/// past the last grapheme is valid (the append position).
#[derive(Clone, Copy, Debug, PartialEq, Eq, Structural)]
pub struct Location {
    pub line: usize,
    pub index: usize,
}

impl Location {
    /// Component-wise difference, clamped at zero.
    pub fn sub(&self, other: &Self) -> (r: Self)
        ensures
            r.line == if self.line >= other.line {
                self.line - other.line
            } else {
                0
            },
            r.index == if self.index >= other.index {
                self.index - other.index
            } else {
                0
            },
    {
        Self {
            line: if self.line >= other.line {
                self.line - other.line
            } else {
                0
            },
            index: if self.index >= other.index {
                self.index - other.index
            } else {
                0
            },
        }
    }
}

impl Default for Location {
    /// The start of the buffer.
    fn default() -> (r: Self)
        ensures
            r.line == 0 && r.index == 0,
    {
        Self { line: 0, index: 0 }
    }
}

} // verus!
