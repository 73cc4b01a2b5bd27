//! Viewport scroll tracking.
//!
//! The viewport keeps a row/col scroll offset so that the cursor stays inside
//! the visible rectangle: an offset snaps down to the cursor when the cursor
//! lies before it, and moves up by exactly the overflow when the cursor lies
//! past the far edge. No smoothing, no centering.

use vstd::prelude::*;

use crate::position::Index2;

verus! {

/// Scroll offsets of the editor's viewport plus the screen-space origin of
/// the rendered area.
#[derive(Clone, Copy, Debug, PartialEq, Eq, Structural)]
pub struct ViewState {
    /// The column offset of the viewport.
    pub viewport_x: usize,
    /// The row offset of the viewport.
    pub viewport_y: usize,
    /// The column of the editor's origin on the screen.
    pub screen_x: usize,
    /// The row of the editor's origin on the screen.
    pub screen_y: usize,
}

/// The new scroll offset along one axis, given the old offset `off`, the
/// visible extent `size` along that axis, and the cursor coordinate `c`.
///
/// If the cursor lies before the offset, the offset snaps down to the cursor;
/// if it lies on or past `off + size - 1` it becomes `c - (size - 1)` so the
/// cursor lands on the far edge; otherwise it is unchanged.
pub open spec fn scrolled_offset(off: int, size: int, c: int) -> int {
    let span = if size == 0 { 0 } else { size - 1 };
    if c < off {
        c
    } else if c >= off + span {
        c - span
    } else {
        off
    }
}

impl ViewState {
    /// Creates a viewport with zero offsets and a zero screen origin.
    pub fn new() -> (r: ViewState)
        ensures
            r.viewport_x == 0,
            r.viewport_y == 0,
            r.screen_x == 0,
            r.screen_y == 0,
    {
        ViewState { viewport_x: 0, viewport_y: 0, screen_x: 0, screen_y: 0 }
    }

    /// Sets the editor's origin on the screen: the upper-left coordinate of
    /// the editor in the global coordinate system.
    pub fn set_screen_offset(&mut self, x_offset: usize, y_offset: usize)
        ensures
            final(self).screen_x == x_offset,
            final(self).screen_y == y_offset,
            final(self).viewport_x == old(self).viewport_x,
            final(self).viewport_y == old(self).viewport_y,
    {
        self.screen_x = x_offset;
        self.screen_y = y_offset;
    }

    /// Updates the scroll offsets for a visible `size = (cols, rows)` and a
    /// cursor in absolute buffer coordinates, and returns the new offsets as
    /// `(x, y)`.
    pub fn update_viewport_offset(&mut self, size: (usize, usize), cursor: Index2) -> (r: (
        usize,
        usize,
    ))
        ensures
            final(self).viewport_x == scrolled_offset(
                old(self).viewport_x as int,
                size.0 as int,
                cursor.col as int,
            ),
            final(self).viewport_y == scrolled_offset(
                old(self).viewport_y as int,
                size.1 as int,
                cursor.row as int,
            ),
            r.0 == final(self).viewport_x,
            r.1 == final(self).viewport_y,
            final(self).screen_x == old(self).screen_x,
            final(self).screen_y == old(self).screen_y,
    {
        let span_x: usize = if size.0 == 0 {
            0
        } else {
            size.0 - 1
        };
        let span_y: usize = if size.1 == 0 {
            0
        } else {
            size.1 - 1
        };
        // scroll left
        if cursor.col < self.viewport_x {
            self.viewport_x = cursor.col;
        } else if cursor.col - self.viewport_x >= span_x {
            // scroll right: land the cursor on the far edge
            self.viewport_x = cursor.col - span_x;
        }
        // scroll up
        if cursor.row < self.viewport_y {
            self.viewport_y = cursor.row;
        } else if cursor.row - self.viewport_y >= span_y {
            // scroll down: land the cursor on the far edge
            self.viewport_y = cursor.row - span_y;
        }
        (self.viewport_x, self.viewport_y)
    }
}

/// Viewport containment: for any prior offset, a visible extent of at least
/// one, and any cursor coordinate, the updated offset keeps the cursor inside
/// `[offset, offset + size - 1]` along that axis.
pub proof fn lemma_viewport_containment(off: int, size: int, c: int)
    requires
        0 <= off,
        1 <= size,
        0 <= c,
    ensures
        scrolled_offset(off, size, c) <= c,
        c <= scrolled_offset(off, size, c) + size - 1,
        scrolled_offset(off, size, c) >= 0,
{
}


} // verus!

