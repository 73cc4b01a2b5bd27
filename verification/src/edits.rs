//! Mutating buffer edits.
//!
//! Every mutating edit in this module pushes exactly one snapshot of the
//! state it found onto the undo stack and clears the redo stack before it
//! changes anything — even when the edit turns out to change nothing — so
//! that one undo step reverts exactly one mutating action. A repeated action
//! (count `n`) is one action and takes one snapshot. (Deleting the selection
//! lives in [`crate::clipops`] and, having no valid target without a
//! selection, is then a silent no-op that takes none.)

use vstd::prelude::*;

use crate::buffer::{
    clamp_pos, clamp_pos_spec, get_row, insert_row, max_col, max_col_spec, remove_row, row_count,
    rows_of, set_row,
};
use crate::history::{hist_view, mutate_rel, redo_rel, undo_rel, HistEntry};
use crate::mode::EditorMode;
use crate::position::Index2;
use crate::selection::Selection;
use crate::state::{edits_lines_cursor_only, edits_only, EditorState};

verus! {

/// `x + 1`, saturating at the largest `usize`.
pub open spec fn inc_sat(x: int) -> int {
    if x + 1 <= usize::MAX {
        x + 1
    } else {
        x
    }
}

/// The buffer and cursor after inserting `c` at the cursor: an empty buffer
/// gains its first row (the cursor landing on `mode`'s largest column);
/// otherwise `c` lands at the cursor's column and the cursor moves one column
/// right.
pub open spec fn insert_char_step(rows: Seq<Seq<char>>, cur: Index2, c: char, mode: EditorMode) -> (
    Seq<Seq<char>>,
    Index2,
) {
    if rows.len() == 0 {
        (seq![seq![c]], Index2 { row: 0, col: max_col_spec(seq![seq![c]], 0, mode) as usize })
    } else {
        let r = cur.row as int;
        let rows2 = rows.update(r, rows[r].insert(cur.col as int, c));
        (
            rows2,
            Index2 {
                row: cur.row,
                col: vstd::math::min(
                    inc_sat(cur.col as int),
                    max_col_spec(rows2, r, mode),
                ) as usize,
            },
        )
    }
}

/// The buffer and cursor after a line break at the cursor: the current row is
/// split at the cursor column and the cursor moves to the start of the new
/// row below.
pub open spec fn line_break_step(rows: Seq<Seq<char>>, cur: Index2) -> (Seq<Seq<char>>, Index2) {
    if rows.len() == 0 {
        (seq![Seq::<char>::empty(), Seq::<char>::empty()], Index2 { row: 1, col: 0 })
    } else {
        let r = cur.row as int;
        (
            rows.update(r, rows[r].take(cur.col as int)).insert(r + 1, rows[r].skip(cur.col as int)),
            Index2 { row: inc_sat(cur.row as int) as usize, col: 0 },
        )
    }
}

/// The buffer and cursor after removing the character under the cursor: a
/// no-op on an empty buffer or row; otherwise the character leaves and the
/// cursor is clamped to the shortened row.
pub open spec fn remove_char_step(rows: Seq<Seq<char>>, cur: Index2) -> (Seq<Seq<char>>, Index2) {
    if rows.len() == 0 {
        (rows, cur)
    } else {
        let r = cur.row as int;
        let len = rows[r].len() as int;
        if len == 0 {
            (rows, cur)
        } else {
            let ce = vstd::math::min(cur.col as int, len - 1);
            (
                rows.update(r, rows[r].remove(ce)),
                Index2 {
                    row: cur.row,
                    col: vstd::math::min(ce, vstd::math::max(len - 2, 0)) as usize,
                },
            )
        }
    }
}

/// The buffer and cursor after deleting the character before the cursor:
/// within a row the previous character leaves and the cursor moves left; at
/// column zero the row is joined onto the previous one and the cursor lands
/// at the join, clamped for `mode`; at the origin nothing changes.
pub open spec fn delete_char_step(rows: Seq<Seq<char>>, cur: Index2, mode: EditorMode) -> (
    Seq<Seq<char>>,
    Index2,
) {
    if rows.len() == 0 {
        (rows, cur)
    } else {
        let r = cur.row as int;
        if cur.col > 0 {
            let ce = vstd::math::min(cur.col as int, rows[r].len() as int);
            if ce == 0 {
                (rows, cur)
            } else {
                (
                    rows.update(r, rows[r].remove(ce - 1)),
                    Index2 { row: cur.row, col: (ce - 1) as usize },
                )
            }
        } else if cur.row > 0 {
            let merged = rows[r - 1] + rows[r];
            let rows2 = rows.update(r - 1, merged).remove(r);
            (
                rows2,
                Index2 {
                    row: (cur.row - 1) as usize,
                    col: vstd::math::min(
                        rows[r - 1].len() as int,
                        max_col_spec(rows2, r - 1, mode),
                    ) as usize,
                },
            )
        } else {
            (rows, cur)
        }
    }
}

/// The buffer and cursor after deleting the current row: the sole row of a
/// one-row buffer is emptied instead; otherwise the row leaves, the following
/// line slides up under the cursor, and the cursor moves to its start.
pub open spec fn delete_line_step(rows: Seq<Seq<char>>, cur: Index2) -> (Seq<Seq<char>>, Index2) {
    if rows.len() == 0 {
        (rows, cur)
    } else if rows.len() == 1 {
        (seq![Seq::<char>::empty()], Index2 { row: 0, col: 0 })
    } else {
        let r = vstd::math::min(cur.row as int, rows.len() - 1);
        let rows2 = rows.remove(r);
        (rows2, Index2 { row: vstd::math::min(r, rows2.len() - 1) as usize, col: 0 })
    }
}

/// The buffer and cursor after appending a new empty row below the current
/// one; an empty buffer gains its first row.
pub open spec fn append_newline_step(rows: Seq<Seq<char>>, cur: Index2) -> (Seq<Seq<char>>, Index2) {
    if rows.len() == 0 {
        (seq![Seq::<char>::empty()], Index2 { row: 0, col: 0 })
    } else {
        let r = cur.row as int;
        (
            rows.insert(r + 1, Seq::<char>::empty()),
            Index2 { row: inc_sat(cur.row as int) as usize, col: 0 },
        )
    }
}

/// The buffer and cursor after inserting a new empty row at the current one;
/// an empty buffer gains its first row.
pub open spec fn insert_newline_step(rows: Seq<Seq<char>>, cur: Index2) -> (Seq<Seq<char>>, Index2) {
    if rows.len() == 0 {
        (seq![Seq::<char>::empty()], Index2 { row: 0, col: 0 })
    } else {
        let r = cur.row as int;
        (rows.insert(r, Seq::<char>::empty()), Index2 { row: cur.row, col: 0 })
    }
}

/// Selects one of the repeatable edit steps.
pub enum EditKind {
    LineBreak,
    RemoveChar,
    DeleteChar,
    DeleteLine,
    AppendNewline,
    InsertNewline,
}

/// One application of the edit step selected by `kind`.
pub open spec fn edit_step(kind: EditKind, s: (Seq<Seq<char>>, Index2), mode: EditorMode) -> (
    Seq<Seq<char>>,
    Index2,
) {
    match kind {
        EditKind::LineBreak => line_break_step(s.0, s.1),
        EditKind::RemoveChar => remove_char_step(s.0, s.1),
        EditKind::DeleteChar => delete_char_step(s.0, s.1, mode),
        EditKind::DeleteLine => delete_line_step(s.0, s.1),
        EditKind::AppendNewline => append_newline_step(s.0, s.1),
        EditKind::InsertNewline => insert_newline_step(s.0, s.1),
    }
}

/// `k`-fold application of the edit step selected by `kind`.
pub open spec fn iterate_edit(
    kind: EditKind,
    mode: EditorMode,
    k: nat,
    s: (Seq<Seq<char>>, Index2),
) -> (Seq<Seq<char>>, Index2)
    decreases k,
{
    if k == 0 {
        s
    } else {
        iterate_edit(kind, mode, (k - 1) as nat, edit_step(kind, s, mode))
    }
}

/// Unrolling [`iterate_edit`] from the back: one more application applies the
/// step to the result so far.
pub proof fn lemma_iterate_snoc(kind: EditKind, mode: EditorMode, k: nat, s: (Seq<Seq<char>>, Index2))
    ensures
        iterate_edit(kind, mode, k + 1, s) == edit_step(kind, iterate_edit(kind, mode, k, s), mode),
    decreases k,
{
    if k == 0 {
        assert(iterate_edit(kind, mode, 1, s) == iterate_edit(kind, mode, 0, edit_step(kind, s, mode)));
    } else {
        lemma_iterate_snoc(kind, mode, (k - 1) as nat, edit_step(kind, s, mode));
        assert(iterate_edit(kind, mode, k + 1, s) == iterate_edit(kind, mode, k, edit_step(kind, s, mode)));
    }
}

/// Any present selection with both endpoints clamped into `rows`.
pub open spec fn clamped_sel(rows: Seq<Seq<char>>, sel: Option<Selection>) -> Option<Selection> {
    match sel {
        Option::Some(s) => Option::Some(
            Selection { start: clamp_pos_spec(rows, s.start), end: clamp_pos_spec(rows, s.end) },
        ),
        Option::None => Option::None,
    }
}

/// Pushes a snapshot of the current buffer and cursor onto the undo stack and
/// clears the redo stack.
pub(crate) fn take_snapshot(state: &mut EditorState)
    requires
        old(state).wf_core(),
    ensures
        final(state).wf_core(),
        *final(state) == (EditorState {
            undo: final(state).undo,
            redo: final(state).redo,
            ..*old(state)
        }),
        mutate_rel(old(state).hist_model(), final(state).hist_model()),
        hist_view(final(state).undo@) == hist_view(old(state).undo@).push(
            HistEntry { lines: rows_of(old(state).lines), cursor: old(state).cursor },
        ),
        final(state).redo@.len() == 0,
{
    crate::history::push_snapshot(&mut state.undo, &state.lines, state.cursor);
    state.redo = Vec::new();
    proof {
        assert(forall|i: int|
            0 <= i < state.undo@.len() - 1 ==> state.undo@[i] == old(state).undo@[i]);
        assert(crate::history::snap_ok(state.undo@.last()));
    }
}

/// Clamps both endpoints of any present selection into the current buffer.
pub(crate) fn clamp_selection(state: &mut EditorState)
    ensures
        *final(state) == (EditorState { selection: final(state).selection, ..*old(state) }),
        final(state).selection == match old(state).selection {
            Option::Some(s) => Option::Some(
                Selection {
                    start: clamp_pos_spec(rows_of(old(state).lines), s.start),
                    end: clamp_pos_spec(rows_of(old(state).lines), s.end),
                },
            ),
            Option::None => Option::None::<Selection>,
        },
        final(state).sel_ok(),
{
    let sel = state.selection;
    match sel {
        Option::Some(s) => {
            let a = clamp_pos(&state.lines, s.start);
            let b = clamp_pos(&state.lines, s.end);
            state.selection = Option::Some(Selection { start: a, end: b });
        },
        Option::None => {},
    }
}

/// Inserts `c` at the cursor without touching the history.
pub(crate) fn raw_insert_char(state: &mut EditorState, c: char)
    requires
        old(state).wf_core(),
    ensures
        final(state).wf_core(),
        edits_lines_cursor_only(*old(state), *final(state)),
        (rows_of(final(state).lines), final(state).cursor) == insert_char_step(
            rows_of(old(state).lines),
            old(state).cursor,
            c,
            old(state).mode,
        ),
{
    let n = row_count(&state.lines);
    if n == 0 {
        let mut v: Vec<char> = Vec::new();
        v.push(c);
        insert_row(&mut state.lines, 0, v);
        proof {
            assert(rows_of(state.lines) =~= seq![seq![c]]);
        }
        let mc = max_col(&state.lines, 0, state.mode);
        state.cursor = Index2::new(0, mc);
    } else {
        let mut v = get_row(&state.lines, state.cursor.row);
        v.insert(state.cursor.col, c);
        set_row(&mut state.lines, state.cursor.row, v);
        let next = if state.cursor.col < usize::MAX {
            state.cursor.col + 1
        } else {
            state.cursor.col
        };
        let mc = max_col(&state.lines, state.cursor.row, state.mode);
        state.cursor.col = if next <= mc {
            next
        } else {
            mc
        };
    }
}

/// Splits the current row at the cursor without touching the history.
pub(crate) fn raw_line_break(state: &mut EditorState)
    requires
        old(state).wf_core(),
    ensures
        final(state).wf_core(),
        edits_lines_cursor_only(*old(state), *final(state)),
        (rows_of(final(state).lines), final(state).cursor) == line_break_step(
            rows_of(old(state).lines),
            old(state).cursor,
        ),
{
    let n = row_count(&state.lines);
    if n == 0 {
        insert_row(&mut state.lines, 0, Vec::new());
        insert_row(&mut state.lines, 1, Vec::new());
        state.cursor = Index2::new(1, 0);
        proof {
            assert(rows_of(state.lines) =~= seq![Seq::<char>::empty(), Seq::<char>::empty()]);
        }
    } else {
        let r = state.cursor.row;
        let mut v = get_row(&state.lines, r);
        let rest = v.split_off(state.cursor.col);
        set_row(&mut state.lines, r, v);
        insert_row(&mut state.lines, r + 1, rest);
        state.cursor = Index2::new(r + 1, 0);
        proof {
            let rows = rows_of(old(state).lines);
            let rr = old(state).cursor.row as int;
            let ce = old(state).cursor.col as int;
            assert(rows_of(state.lines) =~= rows.update(rr, rows[rr].take(ce)).insert(
                rr + 1,
                rows[rr].skip(ce),
            ));
        }
    }
}

/// Removes the character under the cursor without touching the history.
fn raw_remove_char(state: &mut EditorState)
    requires
        old(state).wf_core(),
    ensures
        final(state).wf_core(),
        edits_lines_cursor_only(*old(state), *final(state)),
        (rows_of(final(state).lines), final(state).cursor) == remove_char_step(
            rows_of(old(state).lines),
            old(state).cursor,
        ),
{
    let n = row_count(&state.lines);
    if n == 0 {
        return ;
    }
    let r = state.cursor.row;
    let mut v = get_row(&state.lines, r);
    let len = v.len();
    if len == 0 {
        return ;
    }
    let ce = if state.cursor.col <= len - 1 {
        state.cursor.col
    } else {
        len - 1
    };
    v.remove(ce);
    set_row(&mut state.lines, r, v);
    let new_max = if len >= 2 {
        len - 2
    } else {
        0
    };
    state.cursor.col = if ce <= new_max {
        ce
    } else {
        new_max
    };
}

/// Deletes the character before the cursor without touching the history,
/// joining rows at column zero.
fn raw_delete_char(state: &mut EditorState)
    requires
        old(state).wf_core(),
    ensures
        final(state).wf_core(),
        edits_lines_cursor_only(*old(state), *final(state)),
        (rows_of(final(state).lines), final(state).cursor) == delete_char_step(
            rows_of(old(state).lines),
            old(state).cursor,
            old(state).mode,
        ),
{
    let n = row_count(&state.lines);
    if n == 0 {
        return ;
    }
    let r = state.cursor.row;
    if state.cursor.col > 0 {
        let mut v = get_row(&state.lines, r);
        let len = v.len();
        let ce = if state.cursor.col <= len {
            state.cursor.col
        } else {
            len
        };
        if ce == 0 {
            return ;
        }
        v.remove(ce - 1);
        set_row(&mut state.lines, r, v);
        state.cursor.col = ce - 1;
    } else if r > 0 {
        let ghost rows = rows_of(state.lines);
        let prev = get_row(&state.lines, r - 1);
        let prev_len = prev.len();
        let cur_row = remove_row(&mut state.lines, r);
        let mut merged = prev;
        let mut i: usize = 0;
        while i < cur_row.len()
            invariant
                i <= cur_row@.len(),
                merged@ == rows[r - 1].add(cur_row@.subrange(0, i as int)),
                cur_row@ == rows[r as int],
            decreases cur_row@.len() - i,
        {
            merged.push(cur_row[i]);
            i += 1;
        }
        proof {
            assert(merged@ =~= rows[r - 1] + rows[r as int]);
        }
        set_row(&mut state.lines, r - 1, merged);
        proof {
            assert(rows_of(state.lines) =~= rows.update(r - 1, rows[r - 1] + rows[r as int]).remove(
                r as int,
            ));
        }
        state.cursor.row = r - 1;
        let mc = max_col(&state.lines, r - 1, state.mode);
        state.cursor.col = if prev_len <= mc {
            prev_len
        } else {
            mc
        };
    }
}

/// Deletes the current row without touching the history.
fn raw_delete_line(state: &mut EditorState)
    requires
        old(state).wf_core(),
    ensures
        final(state).wf_core(),
        edits_lines_cursor_only(*old(state), *final(state)),
        (rows_of(final(state).lines), final(state).cursor) == delete_line_step(
            rows_of(old(state).lines),
            old(state).cursor,
        ),
{
    let n = row_count(&state.lines);
    if n == 0 {
        return ;
    }
    if n == 1 {
        let _ = remove_row(&mut state.lines, 0);
        insert_row(&mut state.lines, 0, Vec::new());
        state.cursor = Index2::new(0, 0);
        proof {
            assert(rows_of(state.lines) =~= seq![Seq::<char>::empty()]);
        }
        return ;
    }
    let r = if state.cursor.row <= n - 1 {
        state.cursor.row
    } else {
        n - 1
    };
    let _ = remove_row(&mut state.lines, r);
    state.cursor.row = if r <= n - 2 {
        r
    } else {
        n - 2
    };
    state.cursor.col = 0;
}

/// Appends a new empty row below the current one without touching the
/// history.
fn raw_append_newline(state: &mut EditorState)
    requires
        old(state).wf_core(),
    ensures
        final(state).wf_core(),
        edits_lines_cursor_only(*old(state), *final(state)),
        (rows_of(final(state).lines), final(state).cursor) == append_newline_step(
            rows_of(old(state).lines),
            old(state).cursor,
        ),
{
    let n = row_count(&state.lines);
    if n == 0 {
        insert_row(&mut state.lines, 0, Vec::new());
        state.cursor = Index2::new(0, 0);
        proof {
            assert(rows_of(state.lines) =~= seq![Seq::<char>::empty()]);
        }
        return ;
    }
    let r = state.cursor.row;
    insert_row(&mut state.lines, r + 1, Vec::new());
    state.cursor = Index2::new(r + 1, 0);
}

/// Inserts a new empty row at the current one without touching the history.
fn raw_insert_newline(state: &mut EditorState)
    requires
        old(state).wf_core(),
    ensures
        final(state).wf_core(),
        edits_lines_cursor_only(*old(state), *final(state)),
        (rows_of(final(state).lines), final(state).cursor) == insert_newline_step(
            rows_of(old(state).lines),
            old(state).cursor,
        ),
{
    let n = row_count(&state.lines);
    if n == 0 {
        insert_row(&mut state.lines, 0, Vec::new());
        state.cursor = Index2::new(0, 0);
        proof {
            assert(rows_of(state.lines) =~= seq![Seq::<char>::empty()]);
        }
        return ;
    }
    let r = state.cursor.row;
    insert_row(&mut state.lines, r, Vec::new());
    state.cursor = Index2::new(r, 0);
}

/// Inserts the character `c` at the cursor as one mutating action.
pub fn insert_char(state: &mut EditorState, c: char)
    requires
        old(state).wf(),
    ensures
        final(state).wf(),
        edits_only(*old(state), *final(state)),
        mutate_rel(old(state).hist_model(), final(state).hist_model()),
        (rows_of(final(state).lines), final(state).cursor) == insert_char_step(
            rows_of(old(state).lines),
            old(state).cursor,
            c,
            old(state).mode,
        ),
        final(state).selection == clamped_sel(rows_of(final(state).lines), old(state).selection),
{
    take_snapshot(state);
    raw_insert_char(state, c);
    clamp_selection(state);
}

/// Breaks the current line at the cursor `n` times as one mutating action.
pub fn line_break(state: &mut EditorState, n: usize)
    requires
        old(state).wf(),
    ensures
        final(state).wf(),
        edits_only(*old(state), *final(state)),
        mutate_rel(old(state).hist_model(), final(state).hist_model()),
        (rows_of(final(state).lines), final(state).cursor) == iterate_edit(
            EditKind::LineBreak,
            old(state).mode,
            n as nat,
            (rows_of(old(state).lines), old(state).cursor),
        ),
        final(state).selection == clamped_sel(rows_of(final(state).lines), old(state).selection),
{
    take_snapshot(state);
    let ghost s0 = (rows_of(state.lines), state.cursor);
    let ghost mid = *state;
    let mut i: usize = 0;
    while i < n
        invariant
            state.wf_core(),
            i <= n,
            *state == (EditorState { lines: state.lines, cursor: state.cursor, ..mid }),
            (rows_of(state.lines), state.cursor) == iterate_edit(EditKind::LineBreak, old(state).mode, i as nat, s0),
        decreases n - i,
    {
        let ghost pre = (rows_of(state.lines), state.cursor);
        raw_line_break(state);
        proof {
            lemma_iterate_snoc(EditKind::LineBreak, old(state).mode, i as nat, s0);
            assert(edit_step(EditKind::LineBreak, pre, old(state).mode) == line_break_step(pre.0, pre.1));
        }
        i += 1;
    }
    clamp_selection(state);
}

/// Removes `n` characters under the cursor as one mutating action.
pub fn remove_char(state: &mut EditorState, n: usize)
    requires
        old(state).wf(),
    ensures
        final(state).wf(),
        edits_only(*old(state), *final(state)),
        mutate_rel(old(state).hist_model(), final(state).hist_model()),
        (rows_of(final(state).lines), final(state).cursor) == iterate_edit(
            EditKind::RemoveChar,
            old(state).mode,
            n as nat,
            (rows_of(old(state).lines), old(state).cursor),
        ),
        final(state).selection == clamped_sel(rows_of(final(state).lines), old(state).selection),
{
    take_snapshot(state);
    let ghost s0 = (rows_of(state.lines), state.cursor);
    let ghost mid = *state;
    let mut i: usize = 0;
    while i < n
        invariant
            state.wf_core(),
            i <= n,
            *state == (EditorState { lines: state.lines, cursor: state.cursor, ..mid }),
            (rows_of(state.lines), state.cursor) == iterate_edit(EditKind::RemoveChar, old(state).mode, i as nat, s0),
        decreases n - i,
    {
        let ghost pre = (rows_of(state.lines), state.cursor);
        raw_remove_char(state);
        proof {
            lemma_iterate_snoc(EditKind::RemoveChar, old(state).mode, i as nat, s0);
            assert(edit_step(EditKind::RemoveChar, pre, old(state).mode) == remove_char_step(pre.0, pre.1));
        }
        i += 1;
    }
    clamp_selection(state);
}

/// Deletes `n` characters before the cursor as one mutating action, joining
/// rows at column zero.
pub fn delete_char(state: &mut EditorState, n: usize)
    requires
        old(state).wf(),
    ensures
        final(state).wf(),
        edits_only(*old(state), *final(state)),
        mutate_rel(old(state).hist_model(), final(state).hist_model()),
        (rows_of(final(state).lines), final(state).cursor) == iterate_edit(
            EditKind::DeleteChar,
            old(state).mode,
            n as nat,
            (rows_of(old(state).lines), old(state).cursor),
        ),
        final(state).selection == clamped_sel(rows_of(final(state).lines), old(state).selection),
{
    take_snapshot(state);
    let ghost s0 = (rows_of(state.lines), state.cursor);
    let ghost mid = *state;
    let mut i: usize = 0;
    while i < n
        invariant
            state.wf_core(),
            i <= n,
            state.mode == old(state).mode,
            *state == (EditorState { lines: state.lines, cursor: state.cursor, ..mid }),
            (rows_of(state.lines), state.cursor) == iterate_edit(EditKind::DeleteChar, old(state).mode, i as nat, s0),
        decreases n - i,
    {
        let ghost pre = (rows_of(state.lines), state.cursor);
        raw_delete_char(state);
        proof {
            lemma_iterate_snoc(EditKind::DeleteChar, old(state).mode, i as nat, s0);
            assert(edit_step(EditKind::DeleteChar, pre, old(state).mode) == delete_char_step(pre.0, pre.1, old(state).mode));
        }
        i += 1;
    }
    clamp_selection(state);
}

/// Deletes `n` lines at the cursor as one mutating action.
pub fn delete_line(state: &mut EditorState, n: usize)
    requires
        old(state).wf(),
    ensures
        final(state).wf(),
        edits_only(*old(state), *final(state)),
        mutate_rel(old(state).hist_model(), final(state).hist_model()),
        (rows_of(final(state).lines), final(state).cursor) == iterate_edit(
            EditKind::DeleteLine,
            old(state).mode,
            n as nat,
            (rows_of(old(state).lines), old(state).cursor),
        ),
        final(state).selection == clamped_sel(rows_of(final(state).lines), old(state).selection),
{
    take_snapshot(state);
    let ghost s0 = (rows_of(state.lines), state.cursor);
    let ghost mid = *state;
    let mut i: usize = 0;
    while i < n
        invariant
            state.wf_core(),
            i <= n,
            *state == (EditorState { lines: state.lines, cursor: state.cursor, ..mid }),
            (rows_of(state.lines), state.cursor) == iterate_edit(EditKind::DeleteLine, old(state).mode, i as nat, s0),
        decreases n - i,
    {
        let ghost pre = (rows_of(state.lines), state.cursor);
        raw_delete_line(state);
        proof {
            lemma_iterate_snoc(EditKind::DeleteLine, old(state).mode, i as nat, s0);
            assert(edit_step(EditKind::DeleteLine, pre, old(state).mode) == delete_line_step(pre.0, pre.1));
        }
        i += 1;
    }
    clamp_selection(state);
}

/// Appends `n` new empty rows below the current one as one mutating action.
pub fn append_newline(state: &mut EditorState, n: usize)
    requires
        old(state).wf(),
    ensures
        final(state).wf(),
        edits_only(*old(state), *final(state)),
        mutate_rel(old(state).hist_model(), final(state).hist_model()),
        (rows_of(final(state).lines), final(state).cursor) == iterate_edit(
            EditKind::AppendNewline,
            old(state).mode,
            n as nat,
            (rows_of(old(state).lines), old(state).cursor),
        ),
        final(state).selection == clamped_sel(rows_of(final(state).lines), old(state).selection),
{
    take_snapshot(state);
    let ghost s0 = (rows_of(state.lines), state.cursor);
    let ghost mid = *state;
    let mut i: usize = 0;
    while i < n
        invariant
            state.wf_core(),
            i <= n,
            *state == (EditorState { lines: state.lines, cursor: state.cursor, ..mid }),
            (rows_of(state.lines), state.cursor) == iterate_edit(EditKind::AppendNewline, old(state).mode, i as nat, s0),
        decreases n - i,
    {
        let ghost pre = (rows_of(state.lines), state.cursor);
        raw_append_newline(state);
        proof {
            lemma_iterate_snoc(EditKind::AppendNewline, old(state).mode, i as nat, s0);
            assert(edit_step(EditKind::AppendNewline, pre, old(state).mode) == append_newline_step(pre.0, pre.1));
        }
        i += 1;
    }
    clamp_selection(state);
}

/// Inserts `n` new empty rows at the current one as one mutating action.
pub fn insert_newline(state: &mut EditorState, n: usize)
    requires
        old(state).wf(),
    ensures
        final(state).wf(),
        edits_only(*old(state), *final(state)),
        mutate_rel(old(state).hist_model(), final(state).hist_model()),
        (rows_of(final(state).lines), final(state).cursor) == iterate_edit(
            EditKind::InsertNewline,
            old(state).mode,
            n as nat,
            (rows_of(old(state).lines), old(state).cursor),
        ),
        final(state).selection == clamped_sel(rows_of(final(state).lines), old(state).selection),
{
    take_snapshot(state);
    let ghost s0 = (rows_of(state.lines), state.cursor);
    let ghost mid = *state;
    let mut i: usize = 0;
    while i < n
        invariant
            state.wf_core(),
            i <= n,
            *state == (EditorState { lines: state.lines, cursor: state.cursor, ..mid }),
            (rows_of(state.lines), state.cursor) == iterate_edit(EditKind::InsertNewline, old(state).mode, i as nat, s0),
        decreases n - i,
    {
        let ghost pre = (rows_of(state.lines), state.cursor);
        raw_insert_newline(state);
        proof {
            lemma_iterate_snoc(EditKind::InsertNewline, old(state).mode, i as nat, s0);
            assert(edit_step(EditKind::InsertNewline, pre, old(state).mode) == insert_newline_step(pre.0, pre.1));
        }
        i += 1;
    }
    clamp_selection(state);
}

/// The buffer and cursor after inserting `text` at the cursor, character by
/// character: `'\n'` breaks the line, every other character is inserted.
pub open spec fn paste_step(
    rows: Seq<Seq<char>>,
    cur: Index2,
    text: Seq<char>,
    mode: EditorMode,
) -> (Seq<Seq<char>>, Index2)
    decreases text.len(),
{
    if text.len() == 0 {
        (rows, cur)
    } else {
        let s1 = if text[0] == '\n' {
            line_break_step(rows, cur)
        } else {
            insert_char_step(rows, cur, text[0], mode)
        };
        paste_step(s1.0, s1.1, text.drop_first(), mode)
    }
}

/// Inserts `text[i..]` at the cursor without touching the history.
fn raw_paste(state: &mut EditorState, text: &Vec<char>, i: usize)
    requires
        old(state).wf_core(),
        i <= text@.len(),
    ensures
        final(state).wf_core(),
        edits_lines_cursor_only(*old(state), *final(state)),
        (rows_of(final(state).lines), final(state).cursor) == paste_step(
            rows_of(old(state).lines),
            old(state).cursor,
            text@.skip(i as int),
            old(state).mode,
        ),
    decreases text@.len() - i,
{
    if i == text.len() {
        proof {
            assert(text@.skip(i as int) =~= Seq::<char>::empty());
        }
        return ;
    }
    let c = text[i];
    proof {
        assert(text@.skip(i as int)[0] == text@[i as int]);
        assert(text@.skip(i as int).drop_first() =~= text@.skip(i + 1));
    }
    if c == '\n' {
        raw_line_break(state);
    } else {
        raw_insert_char(state, c);
    }
    raw_paste(state, text, i + 1);
}

/// Inserts the clipboard text at the cursor as one mutating action: `'\n'`
/// breaks the line, every other character is inserted in order.
pub fn paste(state: &mut EditorState)
    requires
        old(state).wf(),
    ensures
        final(state).wf(),
        edits_only(*old(state), *final(state)),
        mutate_rel(old(state).hist_model(), final(state).hist_model()),
        (rows_of(final(state).lines), final(state).cursor) == paste_step(
            rows_of(old(state).lines),
            old(state).cursor,
            old(state).clip.data@,
            old(state).mode,
        ),
        final(state).selection == clamped_sel(rows_of(final(state).lines), old(state).selection),
{
    take_snapshot(state);
    let text = state.clip.read();
    raw_paste(state, &text, 0);
    proof {
        assert(text@.skip(0) =~= text@);
    }
    clamp_selection(state);
}

/// Undoes the most recent mutating action: restores the top undo snapshot and
/// pushes the current state onto the redo stack; a no-op when the undo stack
/// is empty. The restored cursor column is clamped for the current mode, and
/// any selection is clamped into the restored buffer.
pub fn undo(state: &mut EditorState)
    requires
        old(state).wf(),
    ensures
        final(state).wf(),
        edits_only(*old(state), *final(state)),
        undo_rel(old(state).hist_model(), final(state).hist_model(), old(state).mode),
        final(state).selection == clamped_sel(rows_of(final(state).lines), old(state).selection),
{
    let popped = crate::history::pop_snapshot(&mut state.undo);
    match popped {
        Option::Some(snap) => {
            crate::history::push_snapshot(&mut state.redo, &state.lines, state.cursor);
            state.lines = snap.lines;
            state.cursor = snap.cursor;
            state.clamp_column();
            proof {
                assert(hist_view(state.undo@) =~= hist_view(old(state).undo@).drop_last());
            }
        },
        Option::None => {},
    }
    clamp_selection(state);
}

/// Redoes the most recently undone action: restores the top redo snapshot and
/// pushes the current state onto the undo stack; a no-op when the redo stack
/// is empty. The restored cursor column is clamped for the current mode, and
/// any selection is clamped into the restored buffer.
pub fn redo(state: &mut EditorState)
    requires
        old(state).wf(),
    ensures
        final(state).wf(),
        edits_only(*old(state), *final(state)),
        redo_rel(old(state).hist_model(), final(state).hist_model(), old(state).mode),
        final(state).selection == clamped_sel(rows_of(final(state).lines), old(state).selection),
{
    let popped = crate::history::pop_snapshot(&mut state.redo);
    match popped {
        Option::Some(snap) => {
            crate::history::push_snapshot(&mut state.undo, &state.lines, state.cursor);
            state.lines = snap.lines;
            state.cursor = snap.cursor;
            state.clamp_column();
            proof {
                assert(hist_view(state.redo@) =~= hist_view(old(state).redo@).drop_last());
            }
        },
        Option::None => {},
    }
    clamp_selection(state);
}


} // verus!


