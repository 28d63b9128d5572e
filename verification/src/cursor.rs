//! The logical cursor: a position in the document, counted in characters.

use vstd::prelude::*;

verus! {

/// A position in the document. Both coordinates start at zero; `column`
/// counts characters from the start of the line, not display cells.
#[derive(Debug, Clone, Copy, PartialEq, Eq, Structural)]
pub struct Cursor {
    pub row: usize,
    pub column: usize,
}

impl Default for Cursor {
    /// The origin of the document.
    fn default() -> (c: Cursor)
        ensures
            c.row == 0,
            c.column == 0,
    {
        Cursor { row: 0, column: 0 }
    }
}

} // verus!
