//! Selection operations: selecting spans, copying them to the clipboard,
//! deleting them, and pasting clipboard text.

use vstd::prelude::*;

use crate::buffer::{
    clamp_pos, clamp_pos_spec, get_char, get_row, max_col, max_col_spec, remove_row, row_count,
    row_len, rows_of, set_row, Lines,
};
use crate::edits::take_snapshot;
use crate::history::mutate_rel;
use crate::mode::EditorMode;
use crate::position::{pos_le, Index2};
use crate::selection::{sel_back, sel_front, Selection};
use crate::state::EditorState;

verus! {

/// The part of row `r` from column `c1` through column `c2` inclusive, each
/// bound clamped to the row; empty when the row does not exist.
pub open spec fn seg_spec(rows: Seq<Seq<char>>, r: int, c1: int, c2: int) -> Seq<char> {
    if 0 <= r < rows.len() {
        let len = rows[r].len() as int;
        let a = vstd::math::min(c1, len);
        let e = vstd::math::min(c2 + 1, len);
        if a <= e {
            rows[r].subrange(a, e)
        } else {
            Seq::empty()
        }
    } else {
        Seq::empty()
    }
}

/// The part of row `r` from column `c1` to the end of the row.
pub open spec fn seg_to_end_spec(rows: Seq<Seq<char>>, r: int, c1: int) -> Seq<char> {
    if 0 <= r < rows.len() {
        rows[r].skip(vstd::math::min(c1, rows[r].len() as int))
    } else {
        Seq::empty()
    }
}

/// The text of the inclusive span from `f` to `b`, rows separated by `'\n'`.
pub open spec fn span_text_spec(rows: Seq<Seq<char>>, f: Index2, b: Index2) -> Seq<char>
    decreases b.row - f.row,
{
    if b.row <= f.row {
        seg_spec(rows, f.row as int, f.col as int, b.col as int)
    } else {
        seg_to_end_spec(rows, f.row as int, f.col as int) + seq!['\n'] + span_text_spec(
            rows,
            Index2 { row: (f.row + 1) as usize, col: 0 },
            b,
        )
    }
}

/// Copies the part of row `r` from `c1` through `c2` inclusive.
fn seg_vec(l: &Lines, r: usize, c1: usize, c2: usize) -> (out: Vec<char>)
    ensures
        out@ == seg_spec(rows_of(*l), r as int, c1 as int, c2 as int),
{
    let mut out: Vec<char> = Vec::new();
    let n = row_count(l);
    if r >= n {
        proof {
            assert(out@ =~= seg_spec(rows_of(*l), r as int, c1 as int, c2 as int));
        }
        return out;
    }
    let len = row_len(l, r);
    let a = if c1 <= len {
        c1
    } else {
        len
    };
    let e = if c2 < len {
        c2 + 1
    } else {
        len
    };
    let mut i: usize = a;
    while i < e
        invariant
            a <= i,
            i <= e || e < a,
            e <= len,
            a <= len,
            r < rows_of(*l).len(),
            len == rows_of(*l)[r as int].len(),
            e < a ==> out@ == Seq::<char>::empty(),
            a <= e ==> out@ == rows_of(*l)[r as int].subrange(a as int, i as int),
        decreases len - i,
    {
        out.push(get_char(l, r, i));
        i += 1;
    }
    proof {
        assert(out@ =~= seg_spec(rows_of(*l), r as int, c1 as int, c2 as int));
    }
    out
}

/// Copies the part of row `r` from `c1` to the end of the row.
fn seg_to_end_vec(l: &Lines, r: usize, c1: usize) -> (out: Vec<char>)
    ensures
        out@ == seg_to_end_spec(rows_of(*l), r as int, c1 as int),
{
    let mut out: Vec<char> = Vec::new();
    let n = row_count(l);
    if r >= n {
        proof {
            assert(out@ =~= seg_to_end_spec(rows_of(*l), r as int, c1 as int));
        }
        return out;
    }
    let len = row_len(l, r);
    let a = if c1 <= len {
        c1
    } else {
        len
    };
    let mut i: usize = a;
    while i < len
        invariant
            a <= i,
            i <= len,
            a <= len,
            r < rows_of(*l).len(),
            len == rows_of(*l)[r as int].len(),
            out@ == rows_of(*l)[r as int].subrange(a as int, i as int),
        decreases len - i,
    {
        out.push(get_char(l, r, i));
        i += 1;
    }
    proof {
        assert(out@ =~= seg_to_end_spec(rows_of(*l), r as int, c1 as int));
    }
    out
}

/// Builds the text of the inclusive span from `f` to `b`, rows separated by
/// `'\n'`.
fn span_text(l: &Lines, f: Index2, b: Index2) -> (out: Vec<char>)
    ensures
        out@ == span_text_spec(rows_of(*l), f, b),
    decreases b.row - f.row,
{
    if b.row <= f.row {
        seg_vec(l, f.row, f.col, b.col)
    } else {
        let mut out = seg_to_end_vec(l, f.row, f.col);
        out.push('\n');
        let rest = span_text(l, Index2::new(f.row + 1, 0), b);
        let mut i: usize = 0;
        while i < rest.len()
            invariant
                i <= rest@.len(),
                out@ == seg_to_end_spec(rows_of(*l), f.row as int, f.col as int) + seq!['\n']
                    + rest@.subrange(0, i as int),
                rest@ == span_text_spec(rows_of(*l), Index2 { row: (f.row + 1) as usize, col: 0 }, b),
            decreases rest@.len() - i,
        {
            out.push(rest[i]);
            i += 1;
        }
        proof {
            assert(out@ =~= span_text_spec(rows_of(*l), f, b));
        }
        out
    }
}

/// The buffer after deleting the inclusive span from `f` to `b`: on one row
/// the span's characters leave it; across rows the first row keeps its prefix
/// and is joined with the suffix of the last row, and the rows between leave.
pub open spec fn delete_span_spec(rows: Seq<Seq<char>>, f: Index2, b: Index2) -> Seq<Seq<char>> {
    if rows.len() == 0 || f.row >= rows.len() || b.row < f.row {
        rows
    } else if f.row == b.row {
        let r = f.row as int;
        let len = rows[r].len() as int;
        let c1 = vstd::math::min(f.col as int, len);
        let c2 = vstd::math::min(b.col + 1, len);
        rows.update(r, rows[r].take(vstd::math::min(c1, c2)) + rows[r].skip(vstd::math::max(c1, c2)))
    } else {
        let r1 = f.row as int;
        let r2 = vstd::math::min(b.row as int, rows.len() - 1);
        let keep = rows[r1].take(vstd::math::min(f.col as int, rows[r1].len() as int)) + rows[r2].skip(
            vstd::math::min(b.col + 1, rows[r2].len() as int),
        );
        rows.subrange(0, r1) + seq![keep] + rows.subrange(r2 + 1, rows.len() as int)
    }
}

/// Applies the span deletion from `fr` to `ba` to the buffer and moves the
/// cursor to the clamped front of the span.
#[verifier::rlimit(100)]
fn apply_delete_span(state: &mut EditorState, fr: Index2, ba: Index2)
    requires
        old(state).wf_core(),
        pos_le(fr, ba),
    ensures
        final(state).wf_core(),
        crate::state::edits_lines_cursor_only(*old(state), *final(state)),
        rows_of(final(state).lines) == delete_span_spec(rows_of(old(state).lines), fr, ba),
        final(state).cursor == clamp_pos_spec(rows_of(final(state).lines), fr),
{
    let ghost rows0 = rows_of(state.lines);
    let n = row_count(&state.lines);
    if n == 0 || fr.row >= n {
    } else if fr.row == ba.row {
        let mut v = get_row(&state.lines, fr.row);
        let len = v.len();
        let c1 = if fr.col <= len {
            fr.col
        } else {
            len
        };
        let c2 = if ba.col < len {
            ba.col + 1
        } else {
            len
        };
        let lo = if c1 <= c2 {
            c1
        } else {
            c2
        };
        let hi = if c1 <= c2 {
            c2
        } else {
            c1
        };
        let tail = v.split_off(hi);
        let _mid = v.split_off(lo);
        let mut j: usize = 0;
        while j < tail.len()
            invariant
                j <= tail@.len(),
                v@ == rows0[fr.row as int].subrange(0, lo as int) + tail@.subrange(0, j as int),
                tail@ == rows0[fr.row as int].skip(hi as int),
                lo <= hi,
            decreases tail@.len() - j,
        {
            v.push(tail[j]);
            j += 1;
        }
        proof {
            assert(v@ =~= rows0[fr.row as int].take(lo as int) + rows0[fr.row as int].skip(
                hi as int,
            ));
        }
        set_row(&mut state.lines, fr.row, v);
        proof {
            assert(rows_of(state.lines) =~= delete_span_spec(rows0, fr, ba));
        }
    } else {
        let r1 = fr.row;
        let r2 = if ba.row <= n - 1 {
            ba.row
        } else {
            n - 1
        };
        let row1 = get_row(&state.lines, r1);
        let row2 = get_row(&state.lines, r2);
        let len1 = row1.len();
        let len2 = row2.len();
        let c1 = if fr.col <= len1 {
            fr.col
        } else {
            len1
        };
        let c2 = if ba.col < len2 {
            ba.col + 1
        } else {
            len2
        };
        let mut keep = row1;
        let _ = keep.split_off(c1);
        let mut j: usize = c2;
        while j < len2
            invariant
                c2 <= j,
                j <= len2 || len2 < c2,
                keep@ == rows0[r1 as int].take(c1 as int) + rows0[r2 as int].subrange(
                    c2 as int,
                    j as int,
                ),
                row2@ == rows0[r2 as int],
                len2 == row2@.len(),
                c1 <= len1,
                c2 <= len2,
                len1 == rows0[r1 as int].len(),
                r1 < rows0.len(),
                r2 < rows0.len(),
            decreases len2 - j,
        {
            keep.push(row2[j]);
            j += 1;
        }
        proof {
            assert(keep@ =~= rows0[r1 as int].take(c1 as int) + rows0[r2 as int].skip(c2 as int));
        }
        // remove the rows after the first one through the last one
        let ghost st0 = *state;
        let count = r2 - r1;
        let mut k: usize = 0;
        while k < count
            invariant
                *state == (EditorState { lines: state.lines, ..st0 }),
                k <= count,
                count == r2 - r1,
                r1 < rows0.len(),
                r2 < rows0.len(),
                r1 + 1 + (count - k) <= rows_of(state.lines).len(),
                rows_of(state.lines) == rows0.subrange(0, r1 + 1) + rows0.subrange(
                    r1 + 1 + k,
                    rows0.len() as int,
                ),
            decreases count - k,
        {
            let _ = remove_row(&mut state.lines, r1 + 1);
            proof {
                assert(rows_of(state.lines) =~= rows0.subrange(0, r1 + 1) + rows0.subrange(
                    r1 + 1 + k + 1,
                    rows0.len() as int,
                ));
            }
            k += 1;
        }
        set_row(&mut state.lines, r1, keep);
        proof {
            assert(rows_of(state.lines) =~= delete_span_spec(rows0, fr, ba));
        }
    }
    let c = clamp_pos(&state.lines, fr);
    state.cursor = c;
}

/// The exact effect of deleting the selection: with one, a snapshot is taken,
/// the span leaves the buffer, the cursor lands on the span's first position
/// (clamped into the shrunken buffer), the selection is cleared, and the
/// editor returns to normal mode; without a selection there is no valid
/// target and nothing changes.
pub open spec fn delete_selection_rel(pre: EditorState, post: EditorState) -> bool {
    match pre.selection {
        Option::Some(s) => {
            &&& mutate_rel(pre.hist_model(), post.hist_model())
            &&& post == (EditorState {
                lines: post.lines,
                cursor: post.cursor,
                mode: EditorMode::Normal,
                selection: Option::None,
                undo: post.undo,
                redo: post.redo,
                ..pre
            })
            &&& rows_of(post.lines) == delete_span_spec(
                rows_of(pre.lines),
                sel_front(s),
                sel_back(s),
            )
            &&& post.cursor == clamp_pos_spec(rows_of(post.lines), sel_front(s))
        },
        Option::None => post == pre,
    }
}

/// Deletes the selected span as one mutating action; a silent no-op without a
/// selection. See [`delete_selection_rel`].
pub fn delete_selection(state: &mut EditorState)
    requires
        old(state).wf(),
    ensures
        final(state).wf(),
        delete_selection_rel(*old(state), *final(state)),
{
    let sel = state.selection;
    match sel {
        Option::None => {},
        Option::Some(s) => {
            take_snapshot(state);
            let fr = s.front();
            let ba = s.back();
            apply_delete_span(state, fr, ba);
            state.selection = Option::None;
            state.mode = EditorMode::Normal;
        },
    }
}

/// Copies the selected span to the clipboard without mutating the buffer,
/// clears the selection, and returns to normal mode (the cursor column
/// clamped accordingly). A no-op without a selection.
pub fn copy_selection(state: &mut EditorState)
    requires
        old(state).wf(),
    ensures
        final(state).wf(),
        match old(state).selection {
            Option::Some(s) => {
                &&& *final(state) == (EditorState {
                    mode: EditorMode::Normal,
                    selection: Option::None,
                    cursor: final(state).cursor,
                    clip: final(state).clip,
                    ..*old(state)
                })
                &&& final(state).clip.data@ == span_text_spec(
                    rows_of(old(state).lines),
                    sel_front(s),
                    sel_back(s),
                )
                &&& final(state).cursor == clamp_pos_spec(
                    rows_of(old(state).lines),
                    old(state).cursor,
                )
            },
            Option::None => *final(state) == *old(state),
        },
{
    let sel = state.selection;
    match sel {
        Option::None => {},
        Option::Some(s) => {
            let fr = s.front();
            let ba = s.back();
            let text = span_text(&state.lines, fr, ba);
            state.clip.write(text);
            state.selection = Option::None;
            state.mode = EditorMode::Normal;
            let c = clamp_pos(&state.lines, state.cursor);
            state.cursor = c;
        },
    }
}

/// Selects the whole current row and enters visual mode; the cursor column is
/// clamped for visual mode.
pub fn select_line(state: &mut EditorState)
    requires
        old(state).wf(),
    ensures
        final(state).wf(),
        *final(state) == (EditorState {
            mode: EditorMode::Visual,
            selection: final(state).selection,
            cursor: final(state).cursor,
            ..*old(state)
        }),
        final(state).cursor == clamp_pos_spec(rows_of(old(state).lines), old(state).cursor),
        final(state).selection == Option::Some(
            Selection {
                start: Index2 { row: old(state).cursor.row, col: 0 },
                end: Index2 {
                    row: old(state).cursor.row,
                    col: max_col_spec(
                        rows_of(old(state).lines),
                        old(state).cursor.row as int,
                        EditorMode::Normal,
                    ) as usize,
                },
            },
        ),
{
    let row = state.cursor.row;
    let mc = max_col(&state.lines, row, EditorMode::Normal);
    state.selection = Option::Some(
        Selection { start: Index2::new(row, 0), end: Index2::new(row, mc) },
    );
    state.mode = EditorMode::Visual;
    let c = clamp_pos(&state.lines, state.cursor);
    state.cursor = c;
}

/// Whether `(l, rr)` is the nearest pair of `d`-delimiters around the cursor
/// in `row`: `l` is the last occurrence at or before `cl`, `rr` the first one
/// after `col`.
pub open spec fn nearest_pair(row: Seq<char>, cl: int, col: int, d: char, l: int, rr: int) -> bool {
    &&& 0 <= l <= cl
    &&& l < row.len()
    &&& row[l] == d
    &&& forall|k: int| l < k <= cl && k < row.len() ==> row[k] != d
    &&& col < rr < row.len()
    &&& row[rr] == d
    &&& forall|k: int| col < k < rr ==> row[k] != d
}

/// The nearest pair around a column is unique.
proof fn lemma_nearest_pair_unique(
    row: Seq<char>,
    cl: int,
    col: int,
    d: char,
    l1: int,
    r1: int,
    l2: int,
    r2: int,
)
    requires
        nearest_pair(row, cl, col, d, l1, r1),
        nearest_pair(row, cl, col, d, l2, r2),
    ensures
        l1 == l2,
        r1 == r2,
{
    if l1 < l2 {
        assert(row[l2] != d);
    } else if l2 < l1 {
        assert(row[l1] != d);
    }
    if r1 < r2 {
        assert(row[r1] != d);
    } else if r2 < r1 {
        assert(row[r2] != d);
    }
}

/// Scans the row for the nearest delimiter pair around column `col`: the last
/// `d` at or before `col` and the first `d` after `col`.
fn scan_delims(row: &Vec<char>, col: usize, d: char) -> (r: Option<(usize, usize)>)
    requires
        col < row@.len(),
    ensures
        match r {
            Option::Some(p) => nearest_pair(row@, col as int, col as int, d, p.0 as int, p.1 as int),
            Option::None => !exists|l: int, rr: int|
                nearest_pair(row@, col as int, col as int, d, l, rr),
        },
{
    let len = row.len();
    let mut li: usize = col;
    let mut lfound = false;
    loop
        invariant
            li <= col,
            col < len,
            len == row@.len(),
            !lfound ==> forall|k: int| li < k <= col ==> row@[k] != d,
            lfound ==> li <= col && row@[li as int] == d && forall|k: int|
                li < k <= col ==> row@[k] != d,
        ensures
            lfound ==> li <= col && row@[li as int] == d && forall|k: int|
                li < k <= col ==> row@[k] != d,
            !lfound ==> forall|k: int| 0 <= k <= col ==> row@[k] != d,
        decreases li, (if lfound { 0int } else { 1int }),
    {
        if row[li] == d {
            lfound = true;
            break ;
        }
        if li == 0 {
            break ;
        }
        li -= 1;
    }
    if !lfound {
        return Option::None;
    }
    let mut ri: usize = col + 1;
    let mut rfound = false;
    while ri < len && !rfound
        invariant
            col + 1 <= ri,
            ri <= len,
            col < len,
            len == row@.len(),
            !rfound ==> forall|k: int| col < k < ri ==> row@[k] != d,
            rfound ==> ri < len && row@[ri as int] == d && forall|k: int|
                col < k < ri ==> row@[k] != d,
        decreases len - ri, (if rfound { 0int } else { 1int }),
    {
        if row[ri] == d {
            rfound = true;
        } else {
            ri += 1;
        }
    }
    if !rfound {
        return Option::None;
    }
    Option::Some((li, ri))
}

/// Selects the span strictly between the nearest pair of `d`-delimiters
/// around the cursor on the current row and enters visual mode; a no-op when
/// no such pair with at least one character between exists.
pub fn select_between(state: &mut EditorState, d: char)
    requires
        old(state).wf(),
    ensures
        final(state).wf(),
        ({
            let rows = rows_of(old(state).lines);
            let r = old(state).cursor.row as int;
            let col = old(state).cursor.col as int;
            if old(state).cursor.row < rows.len() && col < rows[r].len() {
                let row = rows[r];
                if exists|l: int, rr: int| nearest_pair(row, col, col, d, l, rr) && rr >= l + 2 {
                    &&& *final(state) == (EditorState {
                        mode: EditorMode::Visual,
                        selection: final(state).selection,
                        ..*old(state)
                    })
                    &&& match final(state).selection {
                        Option::Some(s) => s.start.row == old(state).cursor.row && s.end.row == old(
                            state,
                        ).cursor.row && s.start.col >= 1 && nearest_pair(
                            row,
                            col,
                            col,
                            d,
                            s.start.col - 1,
                            s.end.col + 1,
                        ) && s.start.col <= s.end.col,
                        Option::None => false,
                    }
                } else {
                    *final(state) == *old(state)
                }
            } else {
                *final(state) == *old(state)
            }
        }),
{
    let n = row_count(&state.lines);
    let r = state.cursor.row;
    if r >= n {
        return ;
    }
    let row = get_row(&state.lines, r);
    let len = row.len();
    let col = state.cursor.col;
    if col >= len {
        return ;
    }
    let pair = scan_delims(&row, col, d);
    match pair {
        Option::None => {},
        Option::Some(p) => {
            let (li, ri) = p;
            if ri >= li + 2 {
                state.selection = Option::Some(
                    Selection { start: Index2::new(r, li + 1), end: Index2::new(r, ri - 1) },
                );
                state.mode = EditorMode::Visual;
            } else {
                proof {
                    assert forall|l2: int, rr2: int|
                        nearest_pair(row@, col as int, col as int, d, l2, rr2) implies !(rr2 >= l2
                        + 2) by {
                        lemma_nearest_pair_unique(
                            row@,
                            col as int,
                            col as int,
                            d,
                            li as int,
                            ri as int,
                            l2,
                            rr2,
                        );
                    };
                }
            }
        },
    }
}

} // verus!