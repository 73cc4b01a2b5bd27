//! Cursor motions: character, line-boundary, and word motions.
//!
//! Every motion keeps the cursor in bounds, touches nothing but the cursor
//! and the selection, and extends the selection to the cursor while the
//! editor is in visual mode.

use vstd::prelude::*;

use crate::buffer::{
    get_char, last_row_index, last_row_spec, max_col, max_col_spec, row_count, row_len,
    row_len_spec, rows_of, Lines,
};
use crate::mode::EditorMode;
use crate::position::{pos_le, Index2};
use crate::selection::{set_selection, Selection};
use crate::state::{moves_cursor_only, pos_in_bounds, EditorState};

verus! {

/// The selection after a motion: in visual mode the live end follows the
/// cursor (anchoring at the cursor when no selection exists); in every other
/// mode the selection is untouched.
pub open spec fn tracked_selection(
    mode: EditorMode,
    sel: Option<Selection>,
    c: Index2,
) -> Option<Selection> {
    if mode == EditorMode::Visual {
        Option::Some(
            Selection {
                start: match sel {
                    Option::Some(s) => s.start,
                    Option::None => c,
                },
                end: c,
            },
        )
    } else {
        sel
    }
}

/// In visual mode, extends the selection to the current cursor.
fn track_selection(state: &mut EditorState)
    ensures
        *final(state) == (EditorState {
            selection: tracked_selection(
                old(state).mode,
                old(state).selection,
                old(state).cursor,
            ),
            ..*old(state)
        }),
{
    if matches!(state.mode, EditorMode::Visual) {
        set_selection(&mut state.selection, state.cursor);
    }
}

/// Moves the cursor right by `n` columns, stopping at the mode's largest
/// column of the current row.
pub fn move_forward(state: &mut EditorState, n: usize)
    requires
        old(state).wf(),
    ensures
        final(state).wf(),
        moves_cursor_only(*old(state), *final(state)),
        final(state).cursor.row == old(state).cursor.row,
        final(state).cursor.col == vstd::math::min(
            old(state).cursor.col + n,
            max_col_spec(
                rows_of(old(state).lines),
                old(state).cursor.row as int,
                old(state).mode,
            ),
        ),
        final(state).selection == tracked_selection(
            old(state).mode,
            old(state).selection,
            final(state).cursor,
        ),
{
    let mc = max_col(&state.lines, state.cursor.row, state.mode);
    if n >= mc - state.cursor.col {
        state.cursor.col = mc;
    } else {
        state.cursor.col = state.cursor.col + n;
    }
    track_selection(state);
}

/// Moves the cursor left by `n` columns, stopping at column zero.
pub fn move_backward(state: &mut EditorState, n: usize)
    requires
        old(state).wf(),
    ensures
        final(state).wf(),
        moves_cursor_only(*old(state), *final(state)),
        final(state).cursor.row == old(state).cursor.row,
        final(state).cursor.col == vstd::math::max(old(state).cursor.col - n, 0),
        final(state).selection == tracked_selection(
            old(state).mode,
            old(state).selection,
            final(state).cursor,
        ),
{
    if state.cursor.col >= n {
        state.cursor.col = state.cursor.col - n;
    } else {
        state.cursor.col = 0;
    }
    track_selection(state);
}

/// Moves the cursor up by `n` rows, stopping at the first row; the column is
/// clamped to the target row.
pub fn move_up(state: &mut EditorState, n: usize)
    requires
        old(state).wf(),
    ensures
        final(state).wf(),
        moves_cursor_only(*old(state), *final(state)),
        final(state).cursor.row == vstd::math::max(old(state).cursor.row - n, 0),
        final(state).cursor.col == vstd::math::min(
            old(state).cursor.col as int,
            max_col_spec(
                rows_of(old(state).lines),
                final(state).cursor.row as int,
                old(state).mode,
            ),
        ),
        final(state).selection == tracked_selection(
            old(state).mode,
            old(state).selection,
            final(state).cursor,
        ),
{
    if state.cursor.row >= n {
        state.cursor.row = state.cursor.row - n;
    } else {
        state.cursor.row = 0;
    }
    state.clamp_column();
    track_selection(state);
}

/// Moves the cursor down by `n` rows, stopping at the last row; the column is
/// clamped to the target row.
pub fn move_down(state: &mut EditorState, n: usize)
    requires
        old(state).wf(),
    ensures
        final(state).wf(),
        moves_cursor_only(*old(state), *final(state)),
        final(state).cursor.row == vstd::math::min(
            old(state).cursor.row + n,
            last_row_spec(rows_of(old(state).lines)),
        ),
        final(state).cursor.col == vstd::math::min(
            old(state).cursor.col as int,
            max_col_spec(
                rows_of(old(state).lines),
                final(state).cursor.row as int,
                old(state).mode,
            ),
        ),
        final(state).selection == tracked_selection(
            old(state).mode,
            old(state).selection,
            final(state).cursor,
        ),
{
    let lr = last_row_index(&state.lines);
    if state.cursor.row >= lr || n >= lr - state.cursor.row {
        state.cursor.row = lr;
    } else {
        state.cursor.row = state.cursor.row + n;
    }
    state.clamp_column();
    track_selection(state);
}

/// Moves the cursor to column zero of the current row.
pub fn move_to_start(state: &mut EditorState)
    requires
        old(state).wf(),
    ensures
        final(state).wf(),
        moves_cursor_only(*old(state), *final(state)),
        final(state).cursor.row == old(state).cursor.row,
        final(state).cursor.col == 0,
        final(state).selection == tracked_selection(
            old(state).mode,
            old(state).selection,
            final(state).cursor,
        ),
{
    state.cursor.col = 0;
    track_selection(state);
}

/// Whether a character counts as blank for word motions.
pub open spec fn is_blank_spec(c: char) -> bool {
    c == ' ' || c == '\t'
}

/// Whether a character belongs to the word class (alphanumeric or `_`) for
/// word motions.
pub open spec fn is_word_char_spec(c: char) -> bool {
    (c as u32 >= 48 && c as u32 <= 57) || (c as u32 >= 65 && c as u32 <= 90) || (c as u32 >= 97
        && c as u32 <= 122) || c as u32 == 95
}

/// The word-motion class of a character: 0 blank, 1 word, 2 punctuation.
pub open spec fn char_class_spec(c: char) -> int {
    if is_blank_spec(c) {
        0
    } else if is_word_char_spec(c) {
        1
    } else {
        2
    }
}

/// Classifies one character for word motions.
fn char_class(c: char) -> (r: u8)
    ensures
        r as int == char_class_spec(c),
{
    let u = c as u32;
    if u == 32 || u == 9 {
        0
    } else if (u >= 48 && u <= 57) || (u >= 65 && u <= 90) || (u >= 97 && u <= 122) || u == 95 {
        1
    } else {
        2
    }
}

/// Moves the cursor to the first non-blank character of the current row, or
/// to column zero when the row is empty or all blank.
pub fn move_to_first(state: &mut EditorState)
    requires
        old(state).wf(),
    ensures
        final(state).wf(),
        moves_cursor_only(*old(state), *final(state)),
        final(state).cursor.row == old(state).cursor.row,
        ({
            let rows = rows_of(old(state).lines);
            let r = old(state).cursor.row as int;
            let fc = final(state).cursor.col;
            if exists|i: int| 0 <= i < row_len_spec(rows, r) && !is_blank_spec(rows[r][i]) {
                &&& fc < row_len_spec(rows, r)
                &&& !is_blank_spec(rows[r][fc as int])
                &&& forall|j: int| 0 <= j < fc ==> is_blank_spec(rows[r][j])
            } else {
                fc == 0
            }
        }),
        final(state).selection == tracked_selection(
            old(state).mode,
            old(state).selection,
            final(state).cursor,
        ),
{
    let ghost rows = rows_of(state.lines);
    let n = row_count(&state.lines);
    let mut target: usize = 0;
    if state.cursor.row < n {
        let len = row_len(&state.lines, state.cursor.row);
        let mut i: usize = 0;
        let mut found = false;
        while i < len && !found
            invariant
                rows == rows_of(state.lines),
                state.cursor.row < n,
                n == rows.len(),
                len == row_len_spec(rows, state.cursor.row as int),
                i <= len,
                !found ==> forall|j: int|
                    0 <= j < i ==> is_blank_spec(rows[state.cursor.row as int][j]),
                found ==> target < len && !is_blank_spec(
                    rows[state.cursor.row as int][target as int],
                ) && forall|j: int|
                    0 <= j < target ==> is_blank_spec(rows[state.cursor.row as int][j]),
            decreases len - i, (if found { 0int } else { 1int }),
        {
            let c = get_char(&state.lines, state.cursor.row, i);
            if char_class(c) != 0 {
                target = i;
                found = true;
            } else {
                i += 1;
            }
        }
        if !found {
            target = 0;
        }
    }
    state.cursor.col = target;
    track_selection(state);
}

/// Moves the cursor to the mode's largest column of the current row.
pub fn move_to_end(state: &mut EditorState)
    requires
        old(state).wf(),
    ensures
        final(state).wf(),
        moves_cursor_only(*old(state), *final(state)),
        final(state).cursor.row == old(state).cursor.row,
        final(state).cursor.col == max_col_spec(
            rows_of(old(state).lines),
            old(state).cursor.row as int,
            old(state).mode,
        ),
        final(state).selection == tracked_selection(
            old(state).mode,
            old(state).selection,
            final(state).cursor,
        ),
{
    state.cursor.col = max_col(&state.lines, state.cursor.row, state.mode);
    track_selection(state);
}

/// The word-motion class at a position: the class of the character there, or
/// blank when the position holds no character.
pub open spec fn class_at_spec(rows: Seq<Seq<char>>, p: Index2) -> int {
    if p.row < rows.len() && p.col < rows[p.row as int].len() {
        char_class_spec(rows[p.row as int][p.col as int])
    } else {
        0
    }
}

/// Whether `p` is the last position a forward word scan can reach: on the
/// last row, at or past its final character.
pub open spec fn at_scan_end(rows: Seq<Seq<char>>, p: Index2) -> bool {
    p.row >= last_row_spec(rows) && p.col + 1 >= row_len_spec(rows, p.row as int)
}

/// Classifies the character at a position for word motions.
fn class_at(l: &Lines, p: Index2) -> (r: u8)
    ensures
        r <= 2,
        r as int == class_at_spec(rows_of(*l), p),
{
    let n = row_count(l);
    if p.row < n {
        let len = row_len(l, p.row);
        if p.col < len {
            return char_class(get_char(l, p.row, p.col));
        }
    }
    0
}

/// One step forward in document order: the next column of the same row while
/// one exists, else the start of the next row, else `None` at the end of the
/// buffer.
fn step_forward(l: &Lines, p: Index2) -> (r: Option<Index2>)
    ensures
        match r {
            Option::Some(q) => {
                let rows = rows_of(*l);
                &&& pos_le(p, q)
                &&& q != p
                &&& pos_in_bounds(rows, q, EditorMode::Normal)
                &&& (q.row == p.row + 1 && q.col == 0 || q.row == p.row && q.col == p.col + 1
                    && q.col < row_len_spec(rows, q.row as int))
            },
            Option::None => at_scan_end(rows_of(*l), p),
        },
{
    let n = row_count(l);
    let lr = last_row_index(l);
    if p.row < n {
        let len = row_len(l, p.row);
        if p.col < usize::MAX && p.col + 1 < len {
            return Option::Some(Index2::new(p.row, p.col + 1));
        }
    }
    if p.row < lr {
        return Option::Some(Index2::new(p.row + 1, 0));
    }
    Option::None
}

/// One step backward in document order: the previous column of the same row,
/// else the last valid column of the previous row, else `None` at the start
/// of the buffer or from a position outside it.
fn step_backward(l: &Lines, p: Index2) -> (r: Option<Index2>)
    ensures
        match r {
            Option::Some(q) => {
                let rows = rows_of(*l);
                &&& pos_le(q, p)
                &&& q != p
                &&& pos_in_bounds(rows, q, EditorMode::Normal)
                &&& (q.row < p.row || q.col < p.col)
            },
            Option::None => p == (Index2 { row: 0, col: 0 }) || p.row > last_row_spec(
                rows_of(*l),
            ) || p.col > 1 + max_col_spec(rows_of(*l), p.row as int, EditorMode::Normal),
        },
{
    if p.col > 0 {
        let q = Index2::new(p.row, p.col - 1);
        let mc = max_col(l, q.row, EditorMode::Normal);
        let lr = last_row_index(l);
        if q.row <= lr && q.col <= mc {
            return Option::Some(q);
        }
        return Option::None;
    }
    if p.row > 0 {
        let pr = p.row - 1;
        let lr = last_row_index(l);
        if pr <= lr {
            let mc = max_col(l, pr, EditorMode::Normal);
            return Option::Some(Index2::new(pr, mc));
        }
    }
    Option::None
}

/// Moves the cursor forward by one word boundary: past the current character
/// class run, then past any blanks.
fn word_forward_once(state: &mut EditorState)
    requires
        old(state).wf(),
    ensures
        final(state).wf(),
        moves_cursor_only(*old(state), *final(state)),
        final(state).selection == old(state).selection,
        pos_le(old(state).cursor, final(state).cursor),
        class_at_spec(rows_of(old(state).lines), final(state).cursor) != 0 || at_scan_end(
            rows_of(old(state).lines),
            final(state).cursor,
        ),
        final(state).cursor != old(state).cursor || at_scan_end(
            rows_of(old(state).lines),
            old(state).cursor,
        ),
{
    let ghost rows = rows_of(state.lines);
    let start_class = class_at(&state.lines, state.cursor);
    let mut p = state.cursor;
    let mut stop = false;
    if start_class != 0 {
        while !stop
            invariant
                rows == rows_of(state.lines),
                pos_in_bounds(rows, p, old(state).mode) || pos_in_bounds(
                    rows,
                    p,
                    EditorMode::Normal,
                ),
                pos_le(old(state).cursor, p),
                p.row <= last_row_spec(rows),
                p == old(state).cursor ==> class_at_spec(rows, p) == start_class as int,
                stop ==> p != old(state).cursor || at_scan_end(rows, p),
            decreases
                    last_row_spec(rows) - p.row,
                    row_len_spec(rows, p.row as int) + 1 - p.col,
                    (if stop {
                        0int
                    } else {
                        1int
                    }),
        {
            if class_at(&state.lines, p) != start_class {
                stop = true;
            } else {
                match step_forward(&state.lines, p) {
                    Option::Some(q) => {
                        p = q;
                    },
                    Option::None => {
                        stop = true;
                    },
                }
            }
        }
    }
    // skip blanks (and row ends) to the next character
    stop = false;
    while !stop
        invariant
            rows == rows_of(state.lines),
            pos_in_bounds(rows, p, old(state).mode) || pos_in_bounds(rows, p, EditorMode::Normal),
            pos_le(old(state).cursor, p),
            p.row <= last_row_spec(rows),
            p == old(state).cursor ==> class_at_spec(rows, p) == start_class as int,
            start_class != 0 && p == old(state).cursor ==> at_scan_end(rows, p),
            stop ==> class_at_spec(rows, p) != 0 || at_scan_end(rows, p),
            stop ==> p != old(state).cursor || at_scan_end(rows, p),
        decreases
                last_row_spec(rows) - p.row,
                row_len_spec(rows, p.row as int) + 1 - p.col,
                (if stop {
                    0int
                } else {
                    1int
                }),
    {
        if class_at(&state.lines, p) != 0 {
            stop = true;
        } else {
            match step_forward(&state.lines, p) {
                Option::Some(q) => {
                    p = q;
                },
                Option::None => {
                    stop = true;
                },
            }
        }
    }
    state.cursor = p;
}

/// Moves the cursor backward by one word boundary: past any blanks, then to
/// the start of the previous character class run.
fn word_backward_once(state: &mut EditorState)
    requires
        old(state).wf(),
    ensures
        final(state).wf(),
        moves_cursor_only(*old(state), *final(state)),
        final(state).selection == old(state).selection,
        pos_le(final(state).cursor, old(state).cursor),
        final(state).cursor == old(state).cursor || class_at_spec(
            rows_of(old(state).lines),
            final(state).cursor,
        ) != 0 || final(state).cursor == (Index2 { row: 0, col: 0 }),
        final(state).cursor != old(state).cursor || old(state).cursor == (Index2 {
            row: 0,
            col: 0,
        }),
{
    let ghost rows = rows_of(state.lines);
    let mut p = state.cursor;
    match step_backward(&state.lines, p) {
        Option::Some(q) => {
            p = q;
        },
        Option::None => {
            return ;
        },
    }
    let mut stop = false;
    while !stop
        invariant
            rows == rows_of(state.lines),
            pos_in_bounds(rows, p, EditorMode::Normal),
            pos_le(p, old(state).cursor),
            p != old(state).cursor,
            stop ==> class_at_spec(rows, p) != 0 || p == (Index2 { row: 0, col: 0 }),
        decreases p.row, p.col, (if stop { 0int } else { 1int }),
    {
        if class_at(&state.lines, p) != 0 {
            stop = true;
        } else {
            match step_backward(&state.lines, p) {
                Option::Some(q) => {
                    p = q;
                },
                Option::None => {
                    stop = true;
                },
            }
        }
    }
    let cls = class_at(&state.lines, p);
    if cls != 0 {
        stop = false;
        while !stop
            invariant
                rows == rows_of(state.lines),
                pos_in_bounds(rows, p, EditorMode::Normal),
                pos_le(p, old(state).cursor),
                p != old(state).cursor,
                class_at_spec(rows, p) == cls,
                cls != 0,
            decreases p.row, p.col, (if stop { 0int } else { 1int }),
        {
            let prev = step_backward(&state.lines, p);
            match prev {
                Option::Some(q) => {
                    if class_at(&state.lines, q) == cls {
                        p = q;
                    } else {
                        stop = true;
                    }
                },
                Option::None => {
                    stop = true;
                },
            }
        }
    }
    state.cursor = p;
}

/// Moves the cursor forward by `n` word boundaries; the selection follows in
/// visual mode. The cursor never moves backward in document order.
pub fn move_word_forward(state: &mut EditorState, n: usize)
    requires
        old(state).wf(),
    ensures
        final(state).wf(),
        moves_cursor_only(*old(state), *final(state)),
        pos_le(old(state).cursor, final(state).cursor),
        n > 0 ==> class_at_spec(rows_of(old(state).lines), final(state).cursor) != 0
            || at_scan_end(rows_of(old(state).lines), final(state).cursor),
        n > 0 ==> final(state).cursor != old(state).cursor || at_scan_end(
            rows_of(old(state).lines),
            old(state).cursor,
        ),
        final(state).selection == tracked_selection(
            old(state).mode,
            old(state).selection,
            final(state).cursor,
        ),
{
    let mut k: usize = 0;
    while k < n
        invariant
            state.wf(),
            moves_cursor_only(*old(state), *state),
            state.selection == old(state).selection,
            pos_le(old(state).cursor, state.cursor),
            k == 0 ==> *state == *old(state),
            k > 0 ==> class_at_spec(rows_of(old(state).lines), state.cursor) != 0 || at_scan_end(
                rows_of(old(state).lines),
                state.cursor,
            ),
            k > 0 ==> crate::position::pos_lt(old(state).cursor, state.cursor) || at_scan_end(
                rows_of(old(state).lines),
                old(state).cursor,
            ),
        decreases n - k,
    {
        word_forward_once(state);
        k += 1;
    }
    track_selection(state);
}

/// Moves the cursor backward by `n` word boundaries; the selection follows in
/// visual mode. The cursor never moves forward in document order.
pub fn move_word_backward(state: &mut EditorState, n: usize)
    requires
        old(state).wf(),
    ensures
        final(state).wf(),
        moves_cursor_only(*old(state), *final(state)),
        pos_le(final(state).cursor, old(state).cursor),
        n > 0 ==> final(state).cursor == old(state).cursor || class_at_spec(
            rows_of(old(state).lines),
            final(state).cursor,
        ) != 0 || final(state).cursor == (Index2 { row: 0, col: 0 }),
        n > 0 ==> final(state).cursor != old(state).cursor || old(state).cursor == (Index2 {
            row: 0,
            col: 0,
        }),
        final(state).selection == tracked_selection(
            old(state).mode,
            old(state).selection,
            final(state).cursor,
        ),
{
    let mut k: usize = 0;
    while k < n
        invariant
            state.wf(),
            moves_cursor_only(*old(state), *state),
            state.selection == old(state).selection,
            pos_le(state.cursor, old(state).cursor),
            k == 0 ==> *state == *old(state),
            k > 0 ==> state.cursor == old(state).cursor || class_at_spec(
                rows_of(old(state).lines),
                state.cursor,
            ) != 0 || state.cursor == (Index2 { row: 0, col: 0 }),
            k > 0 ==> crate::position::pos_lt(state.cursor, old(state).cursor) || old(
                state,
            ).cursor == (Index2 { row: 0, col: 0 }),
        decreases n - k,
    {
        let ghost prev = *state;
        word_backward_once(state);
        proof {
            assert(rows_of(prev.lines) == rows_of(old(state).lines));
            if state.cursor == prev.cursor && k > 0 {
                assert(state.cursor == old(state).cursor || class_at_spec(
                    rows_of(old(state).lines),
                    state.cursor,
                ) != 0 || state.cursor == (Index2 { row: 0, col: 0 }));
            }
        }
        k += 1;
    }
    track_selection(state);
}

} // verus!
