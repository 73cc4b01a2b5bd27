//! The editor's aggregate state: buffer, cursor, mode, selection, history,
//! search, viewport, and clipboard.

use vstd::prelude::*;

use crate::buffer::{last_row_spec, lines_default, max_col, max_col_spec, rows_of, Lines};
use crate::clipboard::Clipboard;
use crate::history::{hist_view, snap_ok, HistModel, Snapshot};
use crate::mode::EditorMode;
use crate::position::Index2;
use crate::search::{chars_to_string, SearchState};
use crate::selection::Selection;
use crate::view::ViewState;

verus! {

/// Whether `p` is a valid cursor position in `rows` under `mode`: the row is
/// at most the last row, and the column at most the mode's largest column for
/// that row.
pub open spec fn pos_in_bounds(rows: Seq<Seq<char>>, p: Index2, mode: EditorMode) -> bool {
    &&& p.row <= last_row_spec(rows)
    &&& p.col <= max_col_spec(rows, p.row as int, mode)
}

/// Decides whether every snapshot on a stack keeps its cursor inside its own
/// buffer.
fn stack_ok(stack: &Vec<Snapshot>) -> (r: bool)
    ensures
        r == forall|i: int| 0 <= i < stack@.len() ==> snap_ok(#[trigger] stack@[i]),
{
    let mut i: usize = 0;
    while i < stack.len()
        invariant
            i <= stack@.len(),
            forall|j: int| 0 <= j < i ==> snap_ok(#[trigger] stack@[j]),
        decreases stack@.len() - i,
    {
        let s = &stack[i];
        let lr = crate::buffer::last_row_index(&s.lines);
        let n = crate::buffer::row_count(&s.lines);
        let len = if s.cursor.row < n {
            crate::buffer::row_len(&s.lines, s.cursor.row)
        } else {
            0
        };
        if !(s.cursor.row <= lr && s.cursor.col <= len) {
            return false;
        }
        i += 1;
    }
    true
}

/// Whether `post` differs from `pre` at most in the cursor and the selection.
pub open spec fn moves_cursor_only(pre: EditorState, post: EditorState) -> bool {
    post == (EditorState { cursor: post.cursor, selection: post.selection, ..pre })
}

/// Whether `post` differs from `pre` at most in the buffer, the cursor, the
/// selection, and the two history stacks: what a mutating edit may touch.
pub open spec fn edits_only(pre: EditorState, post: EditorState) -> bool {
    post == (EditorState {
        lines: post.lines,
        cursor: post.cursor,
        selection: post.selection,
        undo: post.undo,
        redo: post.redo,
        ..pre
    })
}

/// Whether `post` differs from `pre` at most in the buffer and the cursor.
pub open spec fn edits_lines_cursor_only(pre: EditorState, post: EditorState) -> bool {
    post == (EditorState { lines: post.lines, cursor: post.cursor, ..pre })
}

/// The state of an editor session. It is mutated only through action
/// execution and direct character insertion; every public operation keeps it
/// well-formed.
#[derive(Debug)]
pub struct EditorState {
    /// The text in the editor.
    pub lines: Lines,
    /// The current cursor position.
    pub cursor: Index2,
    /// The active mode.
    pub mode: EditorMode,
    /// The selection, if any.
    pub selection: Option<Selection>,
    /// Scroll offsets and screen origin of the viewport.
    pub view: ViewState,
    /// The state of the current literal search.
    pub search: SearchState,
    /// The undo stack.
    pub undo: Vec<Snapshot>,
    /// The redo stack.
    pub redo: Vec<Snapshot>,
    /// The clipboard for yank and paste operations.
    pub clip: Clipboard,
}

impl EditorState {
    /// The selection-independent part of well-formedness: the cursor lies
    /// inside the buffer, the current search index points into the match
    /// list, and every snapshot's cursor lies inside its own buffer.
    pub open spec fn wf_core(self) -> bool {
        &&& pos_in_bounds(rows_of(self.lines), self.cursor, self.mode)
        &&& match self.search.index {
            Option::Some(i) => i < self.search.matches@.len(),
            Option::None => true,
        }
        &&& forall|i: int| 0 <= i < self.undo@.len() ==> snap_ok(#[trigger] self.undo@[i])
        &&& forall|i: int| 0 <= i < self.redo@.len() ==> snap_ok(#[trigger] self.redo@[i])
    }

    /// Any present selection resolves to two valid positions.
    pub open spec fn sel_ok(self) -> bool {
        match self.selection {
            Option::Some(s) => pos_in_bounds(rows_of(self.lines), s.start, EditorMode::Normal)
                && pos_in_bounds(rows_of(self.lines), s.end, EditorMode::Normal),
            Option::None => true,
        }
    }

    /// Well-formedness of the whole state.
    pub open spec fn wf(self) -> bool {
        self.wf_core() && self.sel_ok()
    }

    /// The history-relevant part of the state.
    pub open spec fn hist_model(self) -> HistModel {
        HistModel {
            lines: rows_of(self.lines),
            cursor: self.cursor,
            undo: hist_view(self.undo@),
            redo: hist_view(self.redo@),
        }
    }

    /// Creates a new editor state over the given buffer: cursor at the
    /// origin, normal mode, no selection, empty history, empty search, and an
    /// empty clipboard.
    pub fn new(lines: Lines) -> (r: EditorState)
        ensures
            rows_of(r.lines) == rows_of(lines),
            r.cursor == (Index2 { row: 0, col: 0 }),
            r.mode == EditorMode::Normal,
            r.selection is None,
            r.view == (ViewState { viewport_x: 0, viewport_y: 0, screen_x: 0, screen_y: 0 }),
            r.search.pattern@.len() == 0,
            r.search.matches@.len() == 0,
            r.search.index is None,
            r.undo@.len() == 0,
            r.redo@.len() == 0,
            r.clip.data@.len() == 0,
            r.wf(),
    {
        EditorState {
            lines,
            cursor: Index2::new(0, 0),
            mode: EditorMode::Normal,
            selection: Option::None,
            view: ViewState::new(),
            search: SearchState::new(),
            undo: Vec::new(),
            redo: Vec::new(),
            clip: Clipboard::new(),
        }
    }

    /// Replaces the clipboard.
    pub fn set_clipboard(&mut self, clipboard: Clipboard)
        ensures
            final(self).clip.data@ == clipboard.data@,
            *final(self) == (EditorState { clip: clipboard, ..*old(self) }),
    {
        self.clip = clipboard;
    }

    /// Returns the current search pattern.
    pub fn search_pattern(&self) -> (r: String)
        ensures
            r@ == self.search.pattern@,
    {
        chars_to_string(&self.search.pattern)
    }

    /// Clamps the cursor column to the largest valid column of the current
    /// row under the current mode.
    pub fn clamp_column(&mut self)
        ensures
            *final(self) == (EditorState {
                cursor: Index2 {
                    row: old(self).cursor.row,
                    col: final(self).cursor.col,
                },
                ..*old(self)
            }),
            final(self).cursor.col == if old(self).cursor.col <= max_col_spec(
                rows_of(old(self).lines),
                old(self).cursor.row as int,
                old(self).mode,
            ) {
                old(self).cursor.col as int
            } else {
                max_col_spec(rows_of(old(self).lines), old(self).cursor.row as int, old(self).mode)
            },
    {
        let mc = max_col(&self.lines, self.cursor.row, self.mode);
        if self.cursor.col > mc {
            self.cursor.col = mc;
        }
    }

    /// Decides well-formedness of the state.
    pub fn is_well_formed(&self) -> (r: bool)
        ensures
            r == self.wf(),
    {
        let rows = crate::buffer::row_count(&self.lines);
        let last_row = crate::buffer::last_row_index(&self.lines);
        let cursor_ok = self.cursor.row <= last_row && self.cursor.col <= max_col(
            &self.lines,
            self.cursor.row,
            self.mode,
        );
        let sel_ok = match &self.selection {
            Option::Some(s) => s.start.row <= last_row && s.start.col <= max_col(
                &self.lines,
                s.start.row,
                EditorMode::Normal,
            ) && s.end.row <= last_row && s.end.col <= max_col(
                &self.lines,
                s.end.row,
                EditorMode::Normal,
            ),
            Option::None => true,
        };
        let search_ok = match self.search.index {
            Option::Some(i) => i < self.search.matches.len(),
            Option::None => true,
        };
        cursor_ok && sel_ok && search_ok && stack_ok(&self.undo) && stack_ok(&self.redo)
    }
}

impl Default for EditorState {
    /// Creates an editor state over an empty buffer.
    fn default() -> (r: EditorState)
        ensures
            rows_of(r.lines) == Seq::<Seq<char>>::empty(),
            r.cursor == (Index2 { row: 0, col: 0 }),
            r.mode == EditorMode::Normal,
            r.wf(),
    {
        EditorState::new(lines_default())
    }
}

} // verus!
