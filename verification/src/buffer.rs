//! Ordered storage of the document's lines.

use crate::line::{line_model_of, FragModel, Line};
use crate::text::split_lines;
use vstd::prelude::*;

verus! {

/// An ordered sequence of lines, insertion order = file order.  Pure
/// storage: built once from file contents and immutable afterwards.  An
/// empty buffer is the valid state of a new, unsaved document.
pub struct Buffer {
    pub lines: Vec<Line>,
}

impl View for Buffer {
    type V = Seq<Seq<FragModel>>;

    open spec fn view(&self) -> Seq<Seq<FragModel>> {
        self.lines@.map_values(|l: Line| l@)
    }
}

/// The line models that loading a text appends to a buffer: one line of
/// fragments per input text line.
pub open spec fn buffer_model_of(s: Seq<char>) -> Seq<Seq<FragModel>> {
    split_lines(s).map_values(|l: Seq<char>| line_model_of(l))
}

impl Buffer {
    /// Whether the buffer holds no line at all.
    pub fn is_empty(&self) -> (r: bool)
        ensures
            r == (self@.len() == 0),
    {
        self.lines.is_empty()
    }

    /// The number of lines.
    pub fn line_count(&self) -> (r: usize)
        ensures
            r == self@.len(),
    {
        self.lines.len()
    }
}

impl Default for Buffer {
    /// An empty buffer.
    fn default() -> (r: Self)
        ensures
            r@ == Seq::<Seq<FragModel>>::empty(),
    {
        let r = Buffer { lines: Vec::new() };
        proof {
            assert(r@ =~= Seq::<Seq<FragModel>>::empty());
        }
        r
    }
}

} // verus!
