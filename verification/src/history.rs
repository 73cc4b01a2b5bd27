//! Linear undo/redo history: snapshot stacks of (buffer, cursor) pairs.

use vstd::prelude::*;

use crate::buffer::{lines_clone, rows_of, Lines};
use crate::position::Index2;

verus! {

/// A captured (buffer, cursor) pair, pushed before a mutating action runs.
#[derive(Debug)]
pub struct Snapshot {
    pub lines: Lines,
    pub cursor: Index2,
}

/// The mathematical content of a snapshot: the rows it holds and the cursor.
pub ghost struct HistEntry {
    pub lines: Seq<Seq<char>>,
    pub cursor: Index2,
}

/// The content of one snapshot.
pub open spec fn snap_view(s: Snapshot) -> HistEntry {
    HistEntry { lines: rows_of(s.lines), cursor: s.cursor }
}

/// Whether a snapshot's cursor lies inside the snapshot's own buffer: its row
/// is at most the last row, and its column at most that row's length.
pub open spec fn snap_ok(s: Snapshot) -> bool {
    &&& s.cursor.row <= crate::buffer::last_row_spec(rows_of(s.lines))
    &&& s.cursor.col <= crate::buffer::row_len_spec(rows_of(s.lines), s.cursor.row as int)
}

/// The content of a snapshot stack, bottom first.
pub open spec fn hist_view(st: Seq<Snapshot>) -> Seq<HistEntry> {
    st.map_values(|s: Snapshot| snap_view(s))
}

/// Pushes a snapshot of `lines` and `cursor` onto a stack.
pub fn push_snapshot(stack: &mut Vec<Snapshot>, lines: &Lines, cursor: Index2)
    ensures
        hist_view(final(stack)@) == hist_view(old(stack)@).push(
            HistEntry { lines: rows_of(*lines), cursor },
        ),
        final(stack)@ == old(stack)@.push(final(stack)@.last()),
        rows_of(final(stack)@.last().lines) == rows_of(*lines),
        final(stack)@.last().cursor == cursor,
{
    let snap = Snapshot { lines: lines_clone(lines), cursor };
    stack.push(snap);
    proof {
        assert(hist_view(stack@) =~= hist_view(old(stack)@).push(
            HistEntry { lines: rows_of(*lines), cursor },
        ));
    }
}

/// Pops the most recent snapshot, or returns `None` on an empty stack.
pub fn pop_snapshot(stack: &mut Vec<Snapshot>) -> (r: Option<Snapshot>)
    ensures
        old(stack)@.len() == 0 ==> r is None && final(stack)@ == old(stack)@,
        old(stack)@.len() > 0 ==> r == Option::Some(old(stack)@.last()) && final(stack)@ == old(
            stack,
        )@.drop_last(),
{
    stack.pop()
}

/// The history-relevant part of the editor state: the buffer rows, the
/// cursor, and the two snapshot stacks.
pub ghost struct HistModel {
    pub lines: Seq<Seq<char>>,
    pub cursor: Index2,
    pub undo: Seq<HistEntry>,
    pub redo: Seq<HistEntry>,
}

/// How a mutating action affects the history: it pushes a snapshot of the
/// state it found onto the undo stack and clears the redo stack.
pub open spec fn mutate_rel(pre: HistModel, post: HistModel) -> bool {
    &&& post.undo == pre.undo.push(HistEntry { lines: pre.lines, cursor: pre.cursor })
    &&& post.redo.len() == 0
}

/// The cursor a snapshot entry restores under `mode`: the entry's cursor with
/// its column clamped to the entry's buffer under that mode.
pub open spec fn restored_cursor(e: HistEntry, mode: crate::mode::EditorMode) -> Index2 {
    Index2 {
        row: e.cursor.row,
        col: if e.cursor.col <= crate::buffer::max_col_spec(e.lines, e.cursor.row as int, mode) {
            e.cursor.col
        } else {
            crate::buffer::max_col_spec(e.lines, e.cursor.row as int, mode) as usize
        },
    }
}

/// Whether restoring `e` under `mode` gives back exactly the cursor that was
/// captured.
pub open spec fn entry_restores_exactly(e: HistEntry, mode: crate::mode::EditorMode) -> bool {
    restored_cursor(e, mode) == e.cursor
}

/// What an undo does under the current `mode`: a no-op on an empty undo
/// stack; otherwise it pops the top snapshot, restores its buffer and cursor
/// (the cursor column clamped for the current mode), and pushes the state it
/// found onto the redo stack.
pub open spec fn undo_rel(pre: HistModel, post: HistModel, mode: crate::mode::EditorMode) -> bool {
    if pre.undo.len() == 0 {
        post == pre
    } else {
        &&& post.lines == pre.undo.last().lines
        &&& post.cursor == restored_cursor(pre.undo.last(), mode)
        &&& post.undo == pre.undo.drop_last()
        &&& post.redo == pre.redo.push(HistEntry { lines: pre.lines, cursor: pre.cursor })
    }
}

/// What a redo does: the mirror image of [`undo_rel`].
pub open spec fn redo_rel(pre: HistModel, post: HistModel, mode: crate::mode::EditorMode) -> bool {
    if pre.redo.len() == 0 {
        post == pre
    } else {
        &&& post.lines == pre.redo.last().lines
        &&& post.cursor == restored_cursor(pre.redo.last(), mode)
        &&& post.redo == pre.redo.drop_last()
        &&& post.undo == pre.undo.push(HistEntry { lines: pre.lines, cursor: pre.cursor })
    }
}

} // verus!
