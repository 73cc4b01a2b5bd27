//! Two-dimensional buffer positions.

use vstd::prelude::*;

verus! {

/// A zero-based position in the buffer: `row` is the line index, `col` the
/// character offset within that line.
#[derive(Clone, Copy, Debug, PartialEq, Eq, Structural)]
pub struct Index2 {
    pub row: usize,
    pub col: usize,
}

impl Index2 {
    /// Creates a new position from a row and a column index.
    pub fn new(row: usize, col: usize) -> (r: Index2)
        ensures
            r.row == row,
            r.col == col,
    {
        Index2 { row, col }
    }
}

/// Document order on positions: first by row, then by column.
pub open spec fn pos_le(a: Index2, b: Index2) -> bool {
    a.row < b.row || (a.row == b.row && a.col <= b.col)
}

/// Strict document order on positions.
pub open spec fn pos_lt(a: Index2, b: Index2) -> bool {
    pos_le(a, b) && a != b
}

/// Returns true when `a` comes no later than `b` in document order.
pub fn pos_before(a: Index2, b: Index2) -> (r: bool)
    ensures
        r == pos_le(a, b),
{
    a.row < b.row || (a.row == b.row && a.col <= b.col)
}

} // verus!
