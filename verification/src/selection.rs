//! The selection model: an anchor plus the live end of the selected span.

use vstd::prelude::*;

use crate::position::{pos_le, Index2};

verus! {

/// An inclusive span of the buffer in document order between `start` and
/// `end`. `start` is the anchor; `end` follows the cursor while the selection
/// is extended. The two may appear in either document order.
#[derive(Clone, Copy, Debug, PartialEq, Eq, Structural)]
pub struct Selection {
    pub start: Index2,
    pub end: Index2,
}

/// The earlier endpoint of the selection in document order.
pub open spec fn sel_front(s: Selection) -> Index2 {
    if pos_le(s.start, s.end) {
        s.start
    } else {
        s.end
    }
}

/// The later endpoint of the selection in document order.
pub open spec fn sel_back(s: Selection) -> Index2 {
    if pos_le(s.start, s.end) {
        s.end
    } else {
        s.start
    }
}

impl Selection {
    /// Creates a selection anchored and ending at the same position.
    pub fn at(pos: Index2) -> (r: Selection)
        ensures
            r.start == pos,
            r.end == pos,
    {
        Selection { start: pos, end: pos }
    }

    /// Returns the earlier endpoint in document order.
    pub fn front(&self) -> (r: Index2)
        ensures
            r == sel_front(*self),
    {
        if crate::position::pos_before(self.start, self.end) {
            self.start
        } else {
            self.end
        }
    }

    /// Returns the later endpoint in document order.
    pub fn back(&self) -> (r: Index2)
        ensures
            r == sel_back(*self),
    {
        if crate::position::pos_before(self.start, self.end) {
            self.end
        } else {
            self.start
        }
    }
}

/// Anchors a new selection at `pos` when none exists, and otherwise extends
/// the live end of the present one to `pos`.
pub fn set_selection(selection: &mut Option<Selection>, pos: Index2)
    ensures
        *final(selection) == Option::Some(
            Selection {
                start: match *old(selection) {
                    Option::Some(s) => s.start,
                    Option::None => pos,
                },
                end: pos,
            },
        ),
{
    match selection {
        Option::Some(s) => {
            s.end = pos;
        },
        Option::None => {
            *selection = Option::Some(Selection::at(pos));
        },
    }
}

} // verus!
