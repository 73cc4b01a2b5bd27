//! Mouse handling: screen-to-buffer translation and the mouse's effect on
//! mode, selection, and cursor.

use vstd::prelude::*;

use crate::buffer::{last_row_index, last_row_spec, max_col, max_col_spec, rows_of, Lines};
use crate::mode::EditorMode;
use crate::position::Index2;
use crate::selection::{set_selection, Selection};
use crate::state::{pos_in_bounds, EditorState};
use crate::view::ViewState;

verus! {

/// A mouse event at a screen position. Kinds the editor does not handle map
/// to `Unrecognized` and are dropped.
#[derive(Clone, Copy, Debug, PartialEq, Eq, Structural)]
pub enum MouseEvent {
    /// A mouse press.
    Down(MousePosition),
    /// A mouse release.
    Up(MousePosition),
    /// A mouse drag.
    Drag(MousePosition),
    /// A mouse event the editor does not handle.
    Unrecognized,
}

/// The screen position of a mouse event.
#[derive(Clone, Copy, Debug, PartialEq, Eq, Structural)]
pub struct MousePosition {
    /// The screen row of the event.
    pub row: usize,
    /// The screen column of the event.
    pub col: usize,
}

impl MousePosition {
    /// Creates a mouse position from a host's 16-bit screen coordinates.
    pub fn new(row: u16, col: u16) -> (r: MousePosition)
        ensures
            r.row == row as usize,
            r.col == col as usize,
    {
        MousePosition { row: row as usize, col: col as usize }
    }
}

/// `a + b - c` within `usize`: the sum saturates at the largest `usize`, the
/// difference at zero.
pub open spec fn sat_add_sub(a: int, b: int, c: int) -> int {
    let s = if a + b <= usize::MAX {
        a + b
    } else {
        usize::MAX as int
    };
    if s >= c {
        s - c
    } else {
        0
    }
}

/// Where a mouse event at screen position `m` lands in the buffer: the screen
/// origin is subtracted, the scroll offset added, and the result clamped —
/// the row to the last valid row, then the column to that row's last valid
/// column.
pub open spec fn mouse_target(rows: Seq<Seq<char>>, view: ViewState, m: MousePosition) -> Index2 {
    let row0 = sat_add_sub(m.row as int, view.viewport_y as int, view.screen_y as int);
    let col0 = sat_add_sub(m.col as int, view.viewport_x as int, view.screen_x as int);
    crate::buffer::clamp_pos_spec(rows, Index2 { row: row0 as usize, col: col0 as usize })
}

/// `a + b - c` with a saturating sum and difference.
fn sat_add_sub_exec(a: usize, b: usize, c: usize) -> (r: usize)
    ensures
        r == sat_add_sub(a as int, b as int, c as int),
{
    let s = if a <= usize::MAX - b {
        a + b
    } else {
        usize::MAX
    };
    if s >= c {
        s - c
    } else {
        0
    }
}

/// Translates a mouse position into a buffer position that is always in
/// bounds.
fn translate(l: &Lines, view: &ViewState, m: MousePosition) -> (r: Index2)
    ensures
        r == mouse_target(rows_of(*l), *view, m),
        pos_in_bounds(rows_of(*l), r, EditorMode::Normal),
{
    let row0 = sat_add_sub_exec(m.row, view.viewport_y, view.screen_y);
    let col0 = sat_add_sub_exec(m.col, view.viewport_x, view.screen_x);
    crate::buffer::clamp_pos(l, Index2::new(row0, col0))
}

/// Handles mouse events.
#[derive(Clone, Debug)]
pub struct MouseEventHandler {}

/// The selection anchor a drag uses: the present selection's anchor, or the
/// cursor (its column clamped for visual mode) when none exists.
pub open spec fn drag_anchor(rows: Seq<Seq<char>>, sel: Option<Selection>, c: Index2) -> Index2 {
    match sel {
        Option::Some(s) => s.start,
        Option::None => Index2 {
            row: c.row,
            col: vstd::math::min(
                c.col as int,
                max_col_spec(rows, c.row as int, EditorMode::Visual),
            ) as usize,
        },
    }
}

/// The exact effect of one mouse event: a press clears the selection, forces
/// visual mode back to normal, and moves the cursor to the translated
/// position; a release only moves the cursor; a drag forces visual mode
/// (anchoring at the pre-drag position) and extends the selection to the
/// translated position; an unrecognized event is dropped.
pub open spec fn mouse_step_rel(pre: EditorState, post: EditorState, event: MouseEvent) -> bool {
    match event {
        MouseEvent::Unrecognized => post == pre,
        MouseEvent::Down(m) => post == (EditorState {
            cursor: mouse_target(rows_of(pre.lines), pre.view, m),
            selection: Option::None,
            mode: if pre.mode == EditorMode::Visual {
                EditorMode::Normal
            } else {
                pre.mode
            },
            ..pre
        }),
        MouseEvent::Up(m) => post == (EditorState {
            cursor: mouse_target(rows_of(pre.lines), pre.view, m),
            ..pre
        }),
        MouseEvent::Drag(m) => post == (EditorState {
            cursor: mouse_target(rows_of(pre.lines), pre.view, m),
            selection: Option::Some(
                Selection {
                    start: drag_anchor(rows_of(pre.lines), pre.selection, pre.cursor),
                    end: mouse_target(rows_of(pre.lines), pre.view, m),
                },
            ),
            mode: EditorMode::Visual,
            ..pre
        }),
    }
}

impl MouseEventHandler {
    /// Handles one mouse event; see [`mouse_step_rel`]. The cursor never
    /// leaves the buffer.
    pub fn on_event(event: MouseEvent, state: &mut EditorState)
        requires
            old(state).wf(),
        ensures
            final(state).wf(),
            mouse_step_rel(*old(state), *final(state), event),
    {
        match event {
            MouseEvent::Unrecognized => {},
            MouseEvent::Down(m) => {
                state.selection = Option::None;
                if matches!(state.mode, EditorMode::Visual) {
                    crate::actions::switch_mode(state, EditorMode::Normal);
                }
                let target = translate(&state.lines, &state.view, m);
                state.cursor = target;
            },
            MouseEvent::Up(m) => {
                let target = translate(&state.lines, &state.view, m);
                state.cursor = target;
            },
            MouseEvent::Drag(m) => {
                if !matches!(state.mode, EditorMode::Visual) {
                    crate::actions::switch_mode(state, EditorMode::Visual);
                } else if state.selection.is_none() {
                    let mc = max_col(&state.lines, state.cursor.row, EditorMode::Visual);
                    let anchor_col = if state.cursor.col <= mc {
                        state.cursor.col
                    } else {
                        mc
                    };
                    let anchored = Index2::new(state.cursor.row, anchor_col);
                    set_selection(&mut state.selection, anchored);
                }
                let target = translate(&state.lines, &state.view, m);
                state.cursor = target;
                set_selection(&mut state.selection, target);
            },
        }
    }
}

} // verus!
