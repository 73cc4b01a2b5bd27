//! The text buffer: ordered rows of characters.
//!
//! Storage is delegated to `edtui_jagged::Jagged<char>`, an external
//! container of rows of characters. The container is used through a small
//! trusted interface; everything above it reasons about the buffer's contents
//! through [`rows_of`], the sequence of rows a buffer holds.

use vstd::prelude::*;

use crate::mode::EditorMode;
use crate::position::Index2;

verus! {

/// The buffer type: ordered rows of characters with 2D indexing.
pub type Lines = edtui_jagged::Jagged<char>;

#[verifier::external_type_specification]
#[verifier::external_body]
#[verifier::reject_recursive_types(T)]
pub struct ExJagged<T>(edtui_jagged::Jagged<T>);

/// The rows of characters a buffer holds, outermost first.
pub uninterp spec fn rows_of(l: Lines) -> Seq<Seq<char>>;

/// Relies on `Jagged::default`: the underlying vector of rows starts empty.
#[verifier::external_body]
pub fn lines_default() -> (r: Lines)
    ensures
        rows_of(r) == Seq::<Seq<char>>::empty(),
{
    edtui_jagged::Jagged::default()
}

/// Relies on `Jagged::new`: the given vector of rows becomes the buffer's rows.
#[verifier::external_body]
pub fn lines_from_vecs(data: Vec<Vec<char>>) -> (r: Lines)
    ensures
        rows_of(r) == data.deep_view(),
{
    edtui_jagged::Jagged::new(data)
}

/// Relies on `Jagged`'s derived `Clone`: it clones the underlying rows.
#[verifier::external_body]
pub fn lines_clone(l: &Lines) -> (r: Lines)
    ensures
        rows_of(r) == rows_of(*l),
{
    l.clone()
}

/// Relies on `Jagged::len`: the number of rows.
#[verifier::external_body]
pub fn row_count(l: &Lines) -> (r: usize)
    ensures
        r == rows_of(*l).len(),
{
    l.len()
}

/// Relies on `Jagged::len_col_unchecked`: the number of characters in a row.
#[verifier::external_body]
pub fn row_len(l: &Lines, row: usize) -> (r: usize)
    requires
        row < rows_of(*l).len(),
    ensures
        r == rows_of(*l)[row as int].len(),
{
    l.len_col_unchecked(row)
}

/// Relies on `Jagged::get` with a `RowIndex`: it hands back the row at that
/// index, which is cloned.
#[verifier::external_body]
pub fn get_row(l: &Lines, row: usize) -> (r: Vec<char>)
    requires
        row < rows_of(*l).len(),
    ensures
        r@ == rows_of(*l)[row as int],
{
    l.get(edtui_jagged::index::RowIndex::new(row)).unwrap().clone()
}

/// Relies on `Jagged::insert` with a `RowIndex` and a row vector: it inserts
/// the row at that index, shifting the rows after it.
#[verifier::external_body]
pub fn insert_row(l: &mut Lines, row: usize, v: Vec<char>)
    requires
        row <= rows_of(*old(l)).len(),
    ensures
        rows_of(*final(l)) == rows_of(*old(l)).insert(row as int, v@),
{
    l.insert(edtui_jagged::index::RowIndex::new(row), v);
}

/// Relies on `Jagged::remove` with a `RowIndex`: it removes and returns the
/// row at that index.
#[verifier::external_body]
pub fn remove_row(l: &mut Lines, row: usize) -> (r: Vec<char>)
    requires
        row < rows_of(*old(l)).len(),
    ensures
        rows_of(*final(l)) == rows_of(*old(l)).remove(row as int),
        r@ == rows_of(*old(l))[row as int],
{
    l.remove(edtui_jagged::index::RowIndex::new(row))
}

/// Replaces the row at `row` with `v`.
pub fn set_row(l: &mut Lines, row: usize, v: Vec<char>)
    requires
        row < rows_of(*old(l)).len(),
    ensures
        rows_of(*final(l)) == rows_of(*old(l)).update(row as int, v@),
{
    let _ = remove_row(l, row);
    insert_row(l, row, v);
    proof {
        assert(rows_of(*l) =~= rows_of(*old(l)).update(row as int, v@));
    }
}

/// Reads the character at a position that is in bounds.
pub fn get_char(l: &Lines, row: usize, col: usize) -> (r: char)
    requires
        row < rows_of(*l).len(),
        col < rows_of(*l)[row as int].len(),
    ensures
        r == rows_of(*l)[row as int][col as int],
{
    let v = get_row(l, row);
    v[col]
}

/// The index of the last row: zero when the buffer has no rows.
pub open spec fn last_row_spec(rows: Seq<Seq<char>>) -> int {
    if rows.len() == 0 {
        0
    } else {
        rows.len() - 1
    }
}

/// The length of a row, zero when the row does not exist.
pub open spec fn row_len_spec(rows: Seq<Seq<char>>, row: int) -> int {
    if 0 <= row < rows.len() {
        rows[row].len() as int
    } else {
        0
    }
}

/// The largest column the cursor may rest on in `row`: the row length in
/// insert mode (the append point), one less in every other mode, and zero for
/// an empty or missing row.
pub open spec fn max_col_spec(rows: Seq<Seq<char>>, row: int, mode: EditorMode) -> int {
    if mode == EditorMode::Insert {
        row_len_spec(rows, row)
    } else if row_len_spec(rows, row) == 0 {
        0
    } else {
        row_len_spec(rows, row) - 1
    }
}

/// The index of the last row.
pub fn last_row_index(l: &Lines) -> (r: usize)
    ensures
        r == last_row_spec(rows_of(*l)),
{
    let n = row_count(l);
    if n == 0 {
        0
    } else {
        n - 1
    }
}

/// The index of the last valid cursor column in `row` outside insert mode.
pub fn last_col_index(l: &Lines, row: usize) -> (r: usize)
    ensures
        r == max_col_spec(rows_of(*l), row as int, EditorMode::Normal),
{
    let n = row_count(l);
    if row < n {
        let len = row_len(l, row);
        if len == 0 {
            0
        } else {
            len - 1
        }
    } else {
        0
    }
}

/// The position `p` clamped into the buffer: the row to the last row, then
/// the column to that row's largest normal-mode column.
pub open spec fn clamp_pos_spec(rows: Seq<Seq<char>>, p: Index2) -> Index2 {
    let r: int = if p.row <= last_row_spec(rows) {
        p.row as int
    } else {
        last_row_spec(rows)
    };
    let c: int = if p.col <= max_col_spec(rows, r, EditorMode::Normal) {
        p.col as int
    } else {
        max_col_spec(rows, r, EditorMode::Normal)
    };
    Index2 { row: r as usize, col: c as usize }
}

/// Clamps a position into the buffer: the row to the last row, then the
/// column to that row's largest normal-mode column.
pub fn clamp_pos(l: &Lines, p: Index2) -> (r: Index2)
    ensures
        r == clamp_pos_spec(rows_of(*l), p),
        r.row <= last_row_spec(rows_of(*l)),
        r.col <= max_col_spec(rows_of(*l), r.row as int, EditorMode::Normal),
{
    let lr = last_row_index(l);
    let row = if p.row <= lr {
        p.row
    } else {
        lr
    };
    let mc = max_col(l, row, EditorMode::Normal);
    let col = if p.col <= mc {
        p.col
    } else {
        mc
    };
    Index2::new(row, col)
}

/// The largest column the cursor may rest on in `row` under `mode`.
pub fn max_col(l: &Lines, row: usize, mode: EditorMode) -> (r: usize)
    ensures
        r == max_col_spec(rows_of(*l), row as int, mode),
{
    let n = row_count(l);
    let len = if row < n {
        row_len(l, row)
    } else {
        0
    };
    if matches!(mode, EditorMode::Insert) {
        len
    } else if len == 0 {
        0
    } else {
        len - 1
    }
}

} // verus!
