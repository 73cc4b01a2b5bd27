//! The action layer: every editing operation as one executable, composable
//! unit over the editor state.

use vstd::prelude::*;

use crate::buffer::{clamp_pos_spec, last_row_spec, max_col_spec, row_len_spec, rows_of};
use crate::clipops::{
    copy_selection, delete_selection, delete_selection_rel, nearest_pair, select_between,
    select_line, span_text_spec,
};
use crate::edits::{
    append_newline, clamped_sel, delete_char, delete_line, insert_char, insert_char_step,
    insert_newline, iterate_edit, line_break, paste, paste_step, redo, remove_char, undo,
    EditKind,
};
use crate::history::{mutate_rel, redo_rel, undo_rel};
use crate::mode::EditorMode;
use crate::motion::{
    at_scan_end, class_at_spec, is_blank_spec, move_backward, move_down, move_forward,
    move_to_end, move_to_first, move_to_start, move_up, move_word_backward, move_word_forward,
    tracked_selection,
};
use crate::position::{pos_le, Index2};
use crate::search::{matches_ok, next_index_spec, prev_index_spec};
use crate::selection::{sel_back, sel_front, Selection};
use crate::state::{edits_only, moves_cursor_only, EditorState};

verus! {

/// The selection after switching from mode `from` to mode `to` with the
/// cursor at `c`: entering visual mode anchors a selection at the cursor if
/// none exists; leaving visual mode clears it.
pub open spec fn switched_selection(
    from: EditorMode,
    to: EditorMode,
    sel: Option<Selection>,
    c: Index2,
) -> Option<Selection> {
    if to == EditorMode::Visual {
        match sel {
            Option::None => Option::Some(Selection { start: c, end: c }),
            Option::Some(s) => sel,
        }
    } else if from == EditorMode::Visual {
        Option::None
    } else {
        sel
    }
}

/// Switches the editor to mode `m`: the cursor column is clamped to the new
/// mode's largest column; entering visual mode anchors a selection at the
/// cursor if none exists; leaving visual mode clears the selection.
pub fn switch_mode(state: &mut EditorState, m: EditorMode)
    requires
        old(state).wf(),
    ensures
        final(state).wf(),
        *final(state) == (EditorState {
            mode: m,
            cursor: final(state).cursor,
            selection: final(state).selection,
            ..*old(state)
        }),
        final(state).cursor.row == old(state).cursor.row,
        final(state).cursor.col == vstd::math::min(
            old(state).cursor.col as int,
            max_col_spec(rows_of(old(state).lines), old(state).cursor.row as int, m),
        ),
        final(state).selection == switched_selection(
            old(state).mode,
            m,
            old(state).selection,
            final(state).cursor,
        ),
{
    let from_visual = matches!(state.mode, EditorMode::Visual);
    state.mode = m;
    state.clamp_column();
    if matches!(m, EditorMode::Visual) {
        if state.selection.is_none() {
            state.selection = Option::Some(Selection::at(state.cursor));
        }
    } else if from_visual {
        state.selection = Option::None;
    }
}

/// Enters insert mode and moves the cursor one column forward, onto the
/// append point when at the end of the row.
pub fn append(state: &mut EditorState)
    requires
        old(state).wf(),
    ensures
        final(state).wf(),
        *final(state) == (EditorState {
            mode: EditorMode::Insert,
            cursor: final(state).cursor,
            selection: final(state).selection,
            ..*old(state)
        }),
        final(state).cursor.row == old(state).cursor.row,
        final(state).cursor.col == vstd::math::min(
            old(state).cursor.col + 1,
            row_len_spec(rows_of(old(state).lines), old(state).cursor.row as int),
        ),
        final(state).selection == switched_selection(
            old(state).mode,
            EditorMode::Insert,
            old(state).selection,
            final(state).cursor,
        ),
{
    switch_mode(state, EditorMode::Insert);
    move_forward(state, 1);
}

/// Enters search mode and resets the pattern, the matches, and the match
/// index; the cursor column is clamped for the new mode.
pub fn start_search(state: &mut EditorState)
    requires
        old(state).wf(),
    ensures
        final(state).wf(),
        *final(state) == (EditorState {
            mode: EditorMode::Search,
            cursor: final(state).cursor,
            search: final(state).search,
            ..*old(state)
        }),
        final(state).search.pattern@.len() == 0,
        final(state).search.matches@.len() == 0,
        final(state).search.index is None,
        final(state).cursor.row == old(state).cursor.row,
        final(state).cursor.col == vstd::math::min(
            old(state).cursor.col as int,
            max_col_spec(
                rows_of(old(state).lines),
                old(state).cursor.row as int,
                EditorMode::Search,
            ),
        ),
{
    state.search.clear();
    state.mode = EditorMode::Search;
    state.clamp_column();
}

/// Leaves search mode for normal mode, discarding the pattern and the
/// matches; the cursor column is clamped for the new mode.
pub fn stop_search(state: &mut EditorState)
    requires
        old(state).wf(),
    ensures
        final(state).wf(),
        *final(state) == (EditorState {
            mode: EditorMode::Normal,
            cursor: final(state).cursor,
            search: final(state).search,
            ..*old(state)
        }),
        final(state).search.pattern@.len() == 0,
        final(state).search.matches@.len() == 0,
        final(state).search.index is None,
        final(state).cursor.row == old(state).cursor.row,
        final(state).cursor.col == vstd::math::min(
            old(state).cursor.col as int,
            max_col_spec(
                rows_of(old(state).lines),
                old(state).cursor.row as int,
                EditorMode::Normal,
            ),
        ),
{
    state.search.clear();
    state.mode = EditorMode::Normal;
    state.clamp_column();
}

/// Appends one character to the search pattern.
pub fn append_char_to_search(state: &mut EditorState, c: char)
    requires
        old(state).wf(),
    ensures
        final(state).wf(),
        *final(state) == (EditorState { search: final(state).search, ..*old(state) }),
        final(state).search.pattern@ == old(state).search.pattern@.push(c),
        final(state).search.matches@ == old(state).search.matches@,
        final(state).search.index == old(state).search.index,
{
    state.search.push_char(c);
}

/// Removes the last character of the search pattern, if any.
pub fn remove_char_from_search(state: &mut EditorState)
    requires
        old(state).wf(),
    ensures
        final(state).wf(),
        *final(state) == (EditorState { search: final(state).search, ..*old(state) }),
        final(state).search.pattern@ == if old(state).search.pattern@.len() == 0 {
            old(state).search.pattern@
        } else {
            old(state).search.pattern@.drop_last()
        },
        final(state).search.matches@ == old(state).search.matches@,
        final(state).search.index == old(state).search.index,
{
    state.search.pop_char();
}

/// Computes all matches of the pattern, returns to normal mode, and moves the
/// cursor to the first match at or after its position, wrapping to the first
/// match overall when none follows; with no matches the cursor stays (its
/// column clamped for normal mode).
pub fn trigger_search(state: &mut EditorState)
    requires
        old(state).wf(),
    ensures
        final(state).wf(),
        *final(state) == (EditorState {
            mode: EditorMode::Normal,
            cursor: final(state).cursor,
            search: final(state).search,
            ..*old(state)
        }),
        final(state).search.pattern@ == old(state).search.pattern@,
        matches_ok(
            rows_of(old(state).lines),
            old(state).search.pattern@,
            final(state).search.matches@,
        ),
        final(state).search.matches@.len() == 0 ==> {
            &&& final(state).search.index is None
            &&& final(state).cursor.row == old(state).cursor.row
            &&& final(state).cursor.col == vstd::math::min(
                old(state).cursor.col as int,
                max_col_spec(
                    rows_of(old(state).lines),
                    old(state).cursor.row as int,
                    EditorMode::Normal,
                ),
            )
        },
        final(state).search.matches@.len() > 0 ==> match final(state).search.index {
            Option::Some(i) => {
                let m = final(state).search.matches@;
                &&& i < m.len()
                &&& final(state).cursor == m[i as int]
                &&& if exists|j: int|
                    0 <= j < m.len() && crate::position::pos_le(old(state).cursor, #[trigger] m[j]) {
                    crate::position::pos_le(old(state).cursor, m[i as int]) && forall|j: int|
                        0 <= j < i ==> !crate::position::pos_le(old(state).cursor, #[trigger] m[j])
                } else {
                    i == 0
                }
            },
            Option::None => false,
        },
{
    let found = crate::search::find_matches(&state.lines, &state.search.pattern);
    state.search.matches = found;
    state.mode = EditorMode::Normal;
    let len = state.search.matches.len();
    if len == 0 {
        state.search.index = Option::None;
        state.clamp_column();
        return ;
    }
    let cur = state.cursor;
    let mut i: usize = 0;
    let mut found_at = false;
    while i < len && !found_at
        invariant
            i <= len,
            len == state.search.matches@.len(),
            !found_at ==> forall|j: int|
                0 <= j < i ==> !crate::position::pos_le(cur, #[trigger] state.search.matches@[j]),
            found_at ==> i < len && crate::position::pos_le(cur, state.search.matches@[i as int])
                && forall|j: int|
                0 <= j < i ==> !crate::position::pos_le(cur, #[trigger] state.search.matches@[j]),
        decreases len - i, (if found_at { 0int } else { 1int }),
    {
        if crate::position::pos_before(cur, state.search.matches[i]) {
            found_at = true;
        } else {
            i += 1;
        }
    }
    let sel: usize = if found_at {
        i
    } else {
        0
    };
    state.search.index = Option::Some(sel);
    state.cursor = state.search.matches[sel];
}

/// Moves cyclically to the next match; with stale matches the target is
/// clamped into the buffer. A no-op without matches.
pub fn find_next(state: &mut EditorState)
    requires
        old(state).wf(),
    ensures
        final(state).wf(),
        *final(state) == (EditorState {
            cursor: final(state).cursor,
            search: final(state).search,
            ..*old(state)
        }),
        final(state).search.pattern@ == old(state).search.pattern@,
        final(state).search.matches@ == old(state).search.matches@,
        old(state).search.matches@.len() == 0 ==> *final(state) == *old(state),
        old(state).search.matches@.len() > 0 ==> {
            let ni = crate::search::next_index_spec(
                old(state).search.matches@.len() as int,
                old(state).search.index,
            );
            &&& final(state).search.index == Option::Some(ni as usize)
            &&& final(state).cursor == crate::buffer::clamp_pos_spec(
                rows_of(old(state).lines),
                old(state).search.matches@[ni],
            )
        },
{
    match state.search.next_match() {
        Option::Some(p) => {
            let c = crate::buffer::clamp_pos(&state.lines, p);
            state.cursor = c;
        },
        Option::None => {},
    }
}

/// Moves cyclically to the previous match; with stale matches the target is
/// clamped into the buffer. A no-op without matches.
pub fn find_previous(state: &mut EditorState)
    requires
        old(state).wf(),
    ensures
        final(state).wf(),
        *final(state) == (EditorState {
            cursor: final(state).cursor,
            search: final(state).search,
            ..*old(state)
        }),
        final(state).search.pattern@ == old(state).search.pattern@,
        final(state).search.matches@ == old(state).search.matches@,
        old(state).search.matches@.len() == 0 ==> *final(state) == *old(state),
        old(state).search.matches@.len() > 0 ==> {
            let pi = crate::search::prev_index_spec(
                old(state).search.matches@.len() as int,
                old(state).search.index,
            );
            &&& final(state).search.index == Option::Some(pi as usize)
            &&& final(state).cursor == crate::buffer::clamp_pos_spec(
                rows_of(old(state).lines),
                old(state).search.matches@[pi],
            )
        },
{
    match state.search.prev_match() {
        Option::Some(p) => {
            let c = crate::buffer::clamp_pos(&state.lines, p);
            state.cursor = c;
        },
        Option::None => {},
    }
}

/// One editing operation. Motions carry a repeat count.
#[derive(Clone, Copy, Debug, PartialEq, Eq, Structural)]
pub enum BaseAction {
    SwitchMode(EditorMode),
    Append,
    MoveForward(usize),
    MoveBackward(usize),
    MoveUp(usize),
    MoveDown(usize),
    MoveWordForward(usize),
    MoveWordBackward(usize),
    MoveToStart,
    MoveToFirst,
    MoveToEnd,
    InsertChar(char),
    LineBreak(usize),
    AppendNewline(usize),
    InsertNewline(usize),
    RemoveChar(usize),
    DeleteChar(usize),
    DeleteLine(usize),
    DeleteSelection,
    SelectBetween(char),
    SelectLine,
    Undo,
    Redo,
    CopySelection,
    Paste,
    StartSearch,
    StopSearch,
    TriggerSearch,
    AppendCharToSearch(char),
    RemoveCharFromSearch,
    FindNext,
    FindPrevious,
}

/// Whether an action mutates the buffer: exactly these push a snapshot and
/// clear the redo stack.
pub open spec fn is_mutating(a: BaseAction) -> bool {
    match a {
        BaseAction::InsertChar(_) => true,
        BaseAction::LineBreak(_) => true,
        BaseAction::AppendNewline(_) => true,
        BaseAction::InsertNewline(_) => true,
        BaseAction::RemoveChar(_) => true,
        BaseAction::DeleteChar(_) => true,
        BaseAction::DeleteLine(_) => true,
        BaseAction::DeleteSelection => true,
        BaseAction::Paste => true,
        _ => false,
    }
}

/// An action bound to a key sequence: a single operation or an ordered list
/// executed as one caller-visible unit.
#[derive(Debug)]
pub enum Action {
    Base(BaseAction),
    Composed(Vec<BaseAction>),
}

/// The mathematical content of an action.
pub ghost enum ActionView {
    Base(BaseAction),
    Composed(Seq<BaseAction>),
}

impl View for Action {
    type V = ActionView;

    open spec fn view(&self) -> ActionView {
        match self {
            Action::Base(b) => ActionView::Base(*b),
            Action::Composed(v) => ActionView::Composed(v@),
        }
    }
}

impl Clone for Action {
    /// Cloning an action yields one with the same content.
    fn clone(&self) -> (res: Self)
        ensures
            res@ == self@,
    {
        match self {
            Action::Base(b) => Action::Base(*b),
            Action::Composed(v) => {
                let mut out: Vec<BaseAction> = Vec::new();
                let mut i: usize = 0;
                while i < v.len()
                    invariant
                        i <= v@.len(),
                        out@ == v@.subrange(0, i as int),
                    decreases v@.len() - i,
                {
                    out.push(v[i]);
                    i += 1;
                }
                proof {
                    assert(out@ =~= v@);
                }
                Action::Composed(out)
            },
        }
    }
}


/// The exact effect of [`switch_mode`].
pub open spec fn switch_mode_rel(pre: EditorState, post: EditorState, m: EditorMode) -> bool {
    &&& post == (EditorState { mode: m, cursor: post.cursor, selection: post.selection, ..pre })
    &&& post.cursor.row == pre.cursor.row
    &&& post.cursor.col == vstd::math::min(
        pre.cursor.col as int,
        max_col_spec(rows_of(pre.lines), pre.cursor.row as int, m),
    )
    &&& post.selection == switched_selection(pre.mode, m, pre.selection, post.cursor)
}

/// The exact effect of [`append`].
pub open spec fn append_rel(pre: EditorState, post: EditorState) -> bool {
    &&& post == (EditorState {
        mode: EditorMode::Insert,
        cursor: post.cursor,
        selection: post.selection,
        ..pre
    })
    &&& post.cursor.row == pre.cursor.row
    &&& post.cursor.col == vstd::math::min(
        pre.cursor.col + 1,
        row_len_spec(rows_of(pre.lines), pre.cursor.row as int),
    )
    &&& post.selection == switched_selection(
        pre.mode,
        EditorMode::Insert,
        pre.selection,
        post.cursor,
    )
}

/// The exact effect of [`crate::motion::move_forward`].
pub open spec fn move_forward_rel(pre: EditorState, post: EditorState, n: usize) -> bool {
    &&& moves_cursor_only(pre, post)
    &&& post.cursor.row == pre.cursor.row
    &&& post.cursor.col == vstd::math::min(
        pre.cursor.col + n,
        max_col_spec(rows_of(pre.lines), pre.cursor.row as int, pre.mode),
    )
    &&& post.selection == tracked_selection(pre.mode, pre.selection, post.cursor)
}

/// The exact effect of [`crate::motion::move_backward`].
pub open spec fn move_backward_rel(pre: EditorState, post: EditorState, n: usize) -> bool {
    &&& moves_cursor_only(pre, post)
    &&& post.cursor.row == pre.cursor.row
    &&& post.cursor.col == vstd::math::max(pre.cursor.col - n, 0)
    &&& post.selection == tracked_selection(pre.mode, pre.selection, post.cursor)
}

/// The exact effect of [`crate::motion::move_up`].
pub open spec fn move_up_rel(pre: EditorState, post: EditorState, n: usize) -> bool {
    &&& moves_cursor_only(pre, post)
    &&& post.cursor.row == vstd::math::max(pre.cursor.row - n, 0)
    &&& post.cursor.col == vstd::math::min(
        pre.cursor.col as int,
        max_col_spec(rows_of(pre.lines), post.cursor.row as int, pre.mode),
    )
    &&& post.selection == tracked_selection(pre.mode, pre.selection, post.cursor)
}

/// The exact effect of [`crate::motion::move_down`].
pub open spec fn move_down_rel(pre: EditorState, post: EditorState, n: usize) -> bool {
    &&& moves_cursor_only(pre, post)
    &&& post.cursor.row == vstd::math::min(pre.cursor.row + n, last_row_spec(rows_of(pre.lines)))
    &&& post.cursor.col == vstd::math::min(
        pre.cursor.col as int,
        max_col_spec(rows_of(pre.lines), post.cursor.row as int, pre.mode),
    )
    &&& post.selection == tracked_selection(pre.mode, pre.selection, post.cursor)
}

/// The exact effect of [`crate::motion::move_to_start`].
pub open spec fn move_to_start_rel(pre: EditorState, post: EditorState) -> bool {
    &&& moves_cursor_only(pre, post)
    &&& post.cursor.row == pre.cursor.row
    &&& post.cursor.col == 0
    &&& post.selection == tracked_selection(pre.mode, pre.selection, post.cursor)
}

/// The exact effect of [`crate::motion::move_to_first`].
pub open spec fn move_to_first_rel(pre: EditorState, post: EditorState) -> bool {
    &&& moves_cursor_only(pre, post)
    &&& post.cursor.row == pre.cursor.row
    &&& ({
        let rows = rows_of(pre.lines);
        let r = pre.cursor.row as int;
        let fc = post.cursor.col;
        if exists|i: int| 0 <= i < row_len_spec(rows, r) && !is_blank_spec(rows[r][i]) {
            &&& fc < row_len_spec(rows, r)
            &&& !is_blank_spec(rows[r][fc as int])
            &&& forall|j: int| 0 <= j < fc ==> is_blank_spec(rows[r][j])
        } else {
            fc == 0
        }
    })
    &&& post.selection == tracked_selection(pre.mode, pre.selection, post.cursor)
}

/// The exact effect of [`crate::motion::move_to_end`].
pub open spec fn move_to_end_rel(pre: EditorState, post: EditorState) -> bool {
    &&& moves_cursor_only(pre, post)
    &&& post.cursor.row == pre.cursor.row
    &&& post.cursor.col == max_col_spec(rows_of(pre.lines), pre.cursor.row as int, pre.mode)
    &&& post.selection == tracked_selection(pre.mode, pre.selection, post.cursor)
}

/// The effect of [`crate::motion::move_word_forward`]: the cursor advances in
/// document order (strictly, unless it already sits at the end of the scan)
/// and lands on a non-blank character or the scan end.
pub open spec fn move_word_forward_rel(pre: EditorState, post: EditorState, n: usize) -> bool {
    &&& moves_cursor_only(pre, post)
    &&& pos_le(pre.cursor, post.cursor)
    &&& (n > 0 ==> class_at_spec(rows_of(pre.lines), post.cursor) != 0 || at_scan_end(
        rows_of(pre.lines),
        post.cursor,
    ))
    &&& (n > 0 ==> post.cursor != pre.cursor || at_scan_end(rows_of(pre.lines), pre.cursor))
    &&& post.selection == tracked_selection(pre.mode, pre.selection, post.cursor)
}

/// The effect of [`crate::motion::move_word_backward`]: the cursor moves back
/// in document order (strictly, unless it already sits at the origin) and
/// lands on a non-blank character, the origin, or where it started.
pub open spec fn move_word_backward_rel(pre: EditorState, post: EditorState, n: usize) -> bool {
    &&& moves_cursor_only(pre, post)
    &&& pos_le(post.cursor, pre.cursor)
    &&& (n > 0 ==> post.cursor == pre.cursor || class_at_spec(rows_of(pre.lines), post.cursor)
        != 0 || post.cursor == (Index2 { row: 0, col: 0 }))
    &&& (n > 0 ==> post.cursor != pre.cursor || pre.cursor == (Index2 { row: 0, col: 0 }))
    &&& post.selection == tracked_selection(pre.mode, pre.selection, post.cursor)
}

/// The exact effect of [`crate::edits::insert_char`].
pub open spec fn insert_char_rel(pre: EditorState, post: EditorState, c: char) -> bool {
    &&& edits_only(pre, post)
    &&& mutate_rel(pre.hist_model(), post.hist_model())
    &&& (rows_of(post.lines), post.cursor) == insert_char_step(
        rows_of(pre.lines),
        pre.cursor,
        c,
        pre.mode,
    )
    &&& post.selection == clamped_sel(rows_of(post.lines), pre.selection)
}

/// The exact effect of the counted edits (line break, remove, delete, delete
/// line, append and insert newline): `n` applications of the step selected by
/// `kind`, as one mutating action.
pub open spec fn repeat_edit_rel(
    pre: EditorState,
    post: EditorState,
    kind: EditKind,
    n: usize,
) -> bool {
    &&& edits_only(pre, post)
    &&& mutate_rel(pre.hist_model(), post.hist_model())
    &&& (rows_of(post.lines), post.cursor) == iterate_edit(
        kind,
        pre.mode,
        n as nat,
        (rows_of(pre.lines), pre.cursor),
    )
    &&& post.selection == clamped_sel(rows_of(post.lines), pre.selection)
}

/// The exact effect of [`crate::edits::paste`].
pub open spec fn paste_rel(pre: EditorState, post: EditorState) -> bool {
    &&& edits_only(pre, post)
    &&& mutate_rel(pre.hist_model(), post.hist_model())
    &&& (rows_of(post.lines), post.cursor) == paste_step(
        rows_of(pre.lines),
        pre.cursor,
        pre.clip.data@,
        pre.mode,
    )
    &&& post.selection == clamped_sel(rows_of(post.lines), pre.selection)
}

/// The exact effect of [`crate::edits::undo`].
pub open spec fn undo_effect_rel(pre: EditorState, post: EditorState) -> bool {
    &&& edits_only(pre, post)
    &&& undo_rel(pre.hist_model(), post.hist_model(), pre.mode)
    &&& post.selection == clamped_sel(rows_of(post.lines), pre.selection)
}

/// The exact effect of [`crate::edits::redo`].
pub open spec fn redo_effect_rel(pre: EditorState, post: EditorState) -> bool {
    &&& edits_only(pre, post)
    &&& redo_rel(pre.hist_model(), post.hist_model(), pre.mode)
    &&& post.selection == clamped_sel(rows_of(post.lines), pre.selection)
}

/// The exact effect of [`crate::clipops::copy_selection`].
pub open spec fn copy_selection_rel(pre: EditorState, post: EditorState) -> bool {
    match pre.selection {
        Option::Some(s) => {
            &&& post == (EditorState {
                mode: EditorMode::Normal,
                selection: Option::None,
                cursor: post.cursor,
                clip: post.clip,
                ..pre
            })
            &&& post.clip.data@ == span_text_spec(rows_of(pre.lines), sel_front(s), sel_back(s))
            &&& post.cursor == clamp_pos_spec(rows_of(pre.lines), pre.cursor)
        },
        Option::None => post == pre,
    }
}

/// The exact effect of [`crate::clipops::select_line`].
pub open spec fn select_line_rel(pre: EditorState, post: EditorState) -> bool {
    &&& post == (EditorState {
        mode: EditorMode::Visual,
        selection: post.selection,
        cursor: post.cursor,
        ..pre
    })
    &&& post.cursor == clamp_pos_spec(rows_of(pre.lines), pre.cursor)
    &&& post.selection == Option::Some(
        Selection {
            start: Index2 { row: pre.cursor.row, col: 0 },
            end: Index2 {
                row: pre.cursor.row,
                col: max_col_spec(
                    rows_of(pre.lines),
                    pre.cursor.row as int,
                    EditorMode::Normal,
                ) as usize,
            },
        },
    )
}

/// The exact effect of [`crate::clipops::select_between`].
pub open spec fn select_between_rel(pre: EditorState, post: EditorState, d: char) -> bool {
    let rows = rows_of(pre.lines);
    let r = pre.cursor.row as int;
    let col = pre.cursor.col as int;
    if pre.cursor.row < rows.len() && col < rows[r].len() {
        let row = rows[r];
        if exists|l: int, rr: int| nearest_pair(row, col, col, d, l, rr) && rr >= l + 2 {
            &&& post == (EditorState {
                mode: EditorMode::Visual,
                selection: post.selection,
                ..pre
            })
            &&& match post.selection {
                Option::Some(s) => s.start.row == pre.cursor.row && s.end.row == pre.cursor.row
                    && s.start.col >= 1 && nearest_pair(
                    row,
                    col,
                    col,
                    d,
                    s.start.col - 1,
                    s.end.col + 1,
                ) && s.start.col <= s.end.col,
                Option::None => false,
            }
        } else {
            post == pre
        }
    } else {
        post == pre
    }
}

/// The exact effect of [`start_search`].
pub open spec fn start_search_rel(pre: EditorState, post: EditorState) -> bool {
    &&& post == (EditorState {
        mode: EditorMode::Search,
        cursor: post.cursor,
        search: post.search,
        ..pre
    })
    &&& post.search.pattern@.len() == 0
    &&& post.search.matches@.len() == 0
    &&& post.search.index is None
    &&& post.cursor.row == pre.cursor.row
    &&& post.cursor.col == vstd::math::min(
        pre.cursor.col as int,
        max_col_spec(rows_of(pre.lines), pre.cursor.row as int, EditorMode::Search),
    )
}

/// The exact effect of [`stop_search`].
pub open spec fn stop_search_rel(pre: EditorState, post: EditorState) -> bool {
    &&& post == (EditorState {
        mode: EditorMode::Normal,
        cursor: post.cursor,
        search: post.search,
        ..pre
    })
    &&& post.search.pattern@.len() == 0
    &&& post.search.matches@.len() == 0
    &&& post.search.index is None
    &&& post.cursor.row == pre.cursor.row
    &&& post.cursor.col == vstd::math::min(
        pre.cursor.col as int,
        max_col_spec(rows_of(pre.lines), pre.cursor.row as int, EditorMode::Normal),
    )
}

/// The exact effect of [`append_char_to_search`].
pub open spec fn append_char_to_search_rel(pre: EditorState, post: EditorState, c: char) -> bool {
    &&& post == (EditorState { search: post.search, ..pre })
    &&& post.search.pattern@ == pre.search.pattern@.push(c)
    &&& post.search.matches@ == pre.search.matches@
    &&& post.search.index == pre.search.index
}

/// The exact effect of [`remove_char_from_search`].
pub open spec fn remove_char_from_search_rel(pre: EditorState, post: EditorState) -> bool {
    &&& post == (EditorState { search: post.search, ..pre })
    &&& post.search.pattern@ == if pre.search.pattern@.len() == 0 {
        pre.search.pattern@
    } else {
        pre.search.pattern@.drop_last()
    }
    &&& post.search.matches@ == pre.search.matches@
    &&& post.search.index == pre.search.index
}

/// The exact effect of [`trigger_search`].
pub open spec fn trigger_search_rel(pre: EditorState, post: EditorState) -> bool {
    &&& post == (EditorState {
        mode: EditorMode::Normal,
        cursor: post.cursor,
        search: post.search,
        ..pre
    })
    &&& post.search.pattern@ == pre.search.pattern@
    &&& matches_ok(rows_of(pre.lines), pre.search.pattern@, post.search.matches@)
    &&& (post.search.matches@.len() == 0 ==> {
        &&& post.search.index is None
        &&& post.cursor.row == pre.cursor.row
        &&& post.cursor.col == vstd::math::min(
            pre.cursor.col as int,
            max_col_spec(rows_of(pre.lines), pre.cursor.row as int, EditorMode::Normal),
        )
    })
    &&& (post.search.matches@.len() > 0 ==> match post.search.index {
        Option::Some(i) => {
            let m = post.search.matches@;
            &&& i < m.len()
            &&& post.cursor == m[i as int]
            &&& if exists|j: int| 0 <= j < m.len() && pos_le(pre.cursor, #[trigger] m[j]) {
                pos_le(pre.cursor, m[i as int]) && forall|j: int|
                    0 <= j < i ==> !pos_le(pre.cursor, #[trigger] m[j])
            } else {
                i == 0
            }
        },
        Option::None => false,
    })
}

/// The exact effect of [`find_next`].
pub open spec fn find_next_rel(pre: EditorState, post: EditorState) -> bool {
    &&& post == (EditorState { cursor: post.cursor, search: post.search, ..pre })
    &&& post.search.pattern@ == pre.search.pattern@
    &&& post.search.matches@ == pre.search.matches@
    &&& (pre.search.matches@.len() == 0 ==> post == pre)
    &&& (pre.search.matches@.len() > 0 ==> {
        let ni = next_index_spec(pre.search.matches@.len() as int, pre.search.index);
        &&& post.search.index == Option::Some(ni as usize)
        &&& post.cursor == clamp_pos_spec(rows_of(pre.lines), pre.search.matches@[ni])
    })
}

/// The exact effect of [`find_previous`].
pub open spec fn find_previous_rel(pre: EditorState, post: EditorState) -> bool {
    &&& post == (EditorState { cursor: post.cursor, search: post.search, ..pre })
    &&& post.search.pattern@ == pre.search.pattern@
    &&& post.search.matches@ == pre.search.matches@
    &&& (pre.search.matches@.len() == 0 ==> post == pre)
    &&& (pre.search.matches@.len() > 0 ==> {
        let pi = prev_index_spec(pre.search.matches@.len() as int, pre.search.index);
        &&& post.search.index == Option::Some(pi as usize)
        &&& post.cursor == clamp_pos_spec(rows_of(pre.lines), pre.search.matches@[pi])
    })
}

/// The exact effect of one operation on the editor state: the conjunction of
/// the clauses the operation's own contract carries.
pub open spec fn base_step_rel(pre: EditorState, post: EditorState, a: BaseAction) -> bool {
    match a {
        BaseAction::SwitchMode(m) => switch_mode_rel(pre, post, m),
        BaseAction::Append => append_rel(pre, post),
        BaseAction::MoveForward(n) => move_forward_rel(pre, post, n),
        BaseAction::MoveBackward(n) => move_backward_rel(pre, post, n),
        BaseAction::MoveUp(n) => move_up_rel(pre, post, n),
        BaseAction::MoveDown(n) => move_down_rel(pre, post, n),
        BaseAction::MoveWordForward(n) => move_word_forward_rel(pre, post, n),
        BaseAction::MoveWordBackward(n) => move_word_backward_rel(pre, post, n),
        BaseAction::MoveToStart => move_to_start_rel(pre, post),
        BaseAction::MoveToFirst => move_to_first_rel(pre, post),
        BaseAction::MoveToEnd => move_to_end_rel(pre, post),
        BaseAction::InsertChar(c) => insert_char_rel(pre, post, c),
        BaseAction::LineBreak(n) => repeat_edit_rel(pre, post, EditKind::LineBreak, n),
        BaseAction::AppendNewline(n) => repeat_edit_rel(pre, post, EditKind::AppendNewline, n),
        BaseAction::InsertNewline(n) => repeat_edit_rel(pre, post, EditKind::InsertNewline, n),
        BaseAction::RemoveChar(n) => repeat_edit_rel(pre, post, EditKind::RemoveChar, n),
        BaseAction::DeleteChar(n) => repeat_edit_rel(pre, post, EditKind::DeleteChar, n),
        BaseAction::DeleteLine(n) => repeat_edit_rel(pre, post, EditKind::DeleteLine, n),
        BaseAction::DeleteSelection => delete_selection_rel(pre, post),
        BaseAction::SelectBetween(d) => select_between_rel(pre, post, d),
        BaseAction::SelectLine => select_line_rel(pre, post),
        BaseAction::Undo => undo_effect_rel(pre, post),
        BaseAction::Redo => redo_effect_rel(pre, post),
        BaseAction::CopySelection => copy_selection_rel(pre, post),
        BaseAction::Paste => paste_rel(pre, post),
        BaseAction::StartSearch => start_search_rel(pre, post),
        BaseAction::StopSearch => stop_search_rel(pre, post),
        BaseAction::TriggerSearch => trigger_search_rel(pre, post),
        BaseAction::AppendCharToSearch(c) => append_char_to_search_rel(pre, post, c),
        BaseAction::RemoveCharFromSearch => remove_char_from_search_rel(pre, post),
        BaseAction::FindNext => find_next_rel(pre, post),
        BaseAction::FindPrevious => find_previous_rel(pre, post),
    }
}

/// The exact effect of a list of operations executed in order: each step
/// satisfies [`base_step_rel`] and leaves a well-formed state.
pub open spec fn steps_rel(pre: EditorState, post: EditorState, actions: Seq<BaseAction>) -> bool
    decreases actions.len(),
{
    if actions.len() == 0 {
        post == pre
    } else {
        exists|mid: EditorState|
            {
                &&& #[trigger] base_step_rel(pre, mid, actions[0])
                &&& mid.wf()
                &&& steps_rel(mid, post, actions.drop_first())
            }
    }
}

/// Extending a step chain by one operation at the back.
proof fn lemma_steps_snoc(
    pre: EditorState,
    mid: EditorState,
    post: EditorState,
    s: Seq<BaseAction>,
    a: BaseAction,
)
    requires
        steps_rel(pre, mid, s),
        base_step_rel(mid, post, a),
        post.wf(),
    ensures
        steps_rel(pre, post, s.push(a)),
    decreases s.len(),
{
    if s.len() == 0 {
        assert(mid == pre);
        assert(s.push(a)[0] == a);
        assert(s.push(a).drop_first() =~= Seq::<BaseAction>::empty());
        assert(base_step_rel(pre, post, s.push(a)[0]));
        assert(steps_rel(post, post, s.push(a).drop_first()));
    } else {
        let m1 = choose|m: EditorState|
            {
                &&& #[trigger] base_step_rel(pre, m, s[0])
                &&& m.wf()
                &&& steps_rel(m, mid, s.drop_first())
            };
        lemma_steps_snoc(m1, mid, post, s.drop_first(), a);
        assert(s.push(a).drop_first() =~= s.drop_first().push(a));
        assert(s.push(a)[0] == s[0]);
        assert(base_step_rel(pre, m1, s.push(a)[0]));
    }
}

/// The exact effect of firing an action with the given content: a single
/// operation steps once, a composed list steps operation after operation.
pub open spec fn action_view_rel(pre: EditorState, post: EditorState, av: ActionView) -> bool {
    match av {
        ActionView::Base(b) => base_step_rel(pre, post, b),
        ActionView::Composed(s) => steps_rel(pre, post, s),
    }
}

/// Executes one operation: the state it leaves is exactly what the
/// operation's relation says ([`base_step_rel`]) and stays well-formed.
/// Mutating actions with a valid target push exactly one snapshot of the
/// state they found and clear the redo stack, undo and redo walk the history
/// stacks, and every other action leaves the buffer and the history
/// untouched; no action touches the viewport.
#[verifier::rlimit(100)]
pub fn execute_base(state: &mut EditorState, a: BaseAction)
    requires
        old(state).wf(),
    ensures
        final(state).wf(),
        base_step_rel(*old(state), *final(state), a),
        final(state).view == old(state).view,
        is_mutating(a) && !(a == BaseAction::DeleteSelection && old(state).selection is None)
            ==> mutate_rel(old(state).hist_model(), final(state).hist_model()),
        a == BaseAction::DeleteSelection && old(state).selection is None ==> *final(state)
            == *old(state),
        a == BaseAction::Undo ==> undo_rel(
            old(state).hist_model(),
            final(state).hist_model(),
            old(state).mode,
        ),
        a == BaseAction::Redo ==> redo_rel(
            old(state).hist_model(),
            final(state).hist_model(),
            old(state).mode,
        ),
        !is_mutating(a) && a != BaseAction::Undo && a != BaseAction::Redo ==> {
            &&& final(state).undo@ == old(state).undo@
            &&& final(state).redo@ == old(state).redo@
            &&& rows_of(final(state).lines) == rows_of(old(state).lines)
        },
{
    match a {
        BaseAction::SwitchMode(m) => switch_mode(state, m),
        BaseAction::Append => append(state),
        BaseAction::MoveForward(n) => move_forward(state, n),
        BaseAction::MoveBackward(n) => move_backward(state, n),
        BaseAction::MoveUp(n) => move_up(state, n),
        BaseAction::MoveDown(n) => move_down(state, n),
        BaseAction::MoveWordForward(n) => move_word_forward(state, n),
        BaseAction::MoveWordBackward(n) => move_word_backward(state, n),
        BaseAction::MoveToStart => move_to_start(state),
        BaseAction::MoveToFirst => move_to_first(state),
        BaseAction::MoveToEnd => move_to_end(state),
        BaseAction::InsertChar(c) => insert_char(state, c),
        BaseAction::LineBreak(n) => line_break(state, n),
        BaseAction::AppendNewline(n) => append_newline(state, n),
        BaseAction::InsertNewline(n) => insert_newline(state, n),
        BaseAction::RemoveChar(n) => remove_char(state, n),
        BaseAction::DeleteChar(n) => delete_char(state, n),
        BaseAction::DeleteLine(n) => delete_line(state, n),
        BaseAction::DeleteSelection => delete_selection(state),
        BaseAction::SelectBetween(d) => select_between(state, d),
        BaseAction::SelectLine => select_line(state),
        BaseAction::Undo => undo(state),
        BaseAction::Redo => redo(state),
        BaseAction::CopySelection => copy_selection(state),
        BaseAction::Paste => paste(state),
        BaseAction::StartSearch => start_search(state),
        BaseAction::StopSearch => stop_search(state),
        BaseAction::TriggerSearch => trigger_search(state),
        BaseAction::AppendCharToSearch(c) => append_char_to_search(state, c),
        BaseAction::RemoveCharFromSearch => remove_char_from_search(state),
        BaseAction::FindNext => find_next(state),
        BaseAction::FindPrevious => find_previous(state),
    }
}

/// Executes an action: a single operation directly, a composed one operation
/// after operation as one caller-visible unit. The state it leaves is exactly
/// what the action's relation says ([`action_view_rel`]), stays well-formed,
/// and keeps the viewport untouched.
pub fn execute(state: &mut EditorState, a: &Action)
    requires
        old(state).wf(),
    ensures
        final(state).wf(),
        final(state).view == old(state).view,
        action_view_rel(*old(state), *final(state), a@),
{
    match a {
        Action::Base(b) => execute_base(state, *b),
        Action::Composed(v) => {
            let mut i: usize = 0;
            while i < v.len()
                invariant
                    state.wf(),
                    state.view == old(state).view,
                    i <= v@.len(),
                    steps_rel(*old(state), *state, v@.subrange(0, i as int)),
                decreases v@.len() - i,
            {
                let ghost mid = *state;
                execute_base(state, v[i]);
                proof {
                    lemma_steps_snoc(
                        *old(state),
                        mid,
                        *state,
                        v@.subrange(0, i as int),
                        v@[i as int],
                    );
                    assert(v@.subrange(0, i as int).push(v@[i as int]) =~= v@.subrange(
                        0,
                        i + 1,
                    ));
                }
                i += 1;
            }
            proof {
                assert(v@.subrange(0, v@.len() as int) =~= v@);
            }
        },
    }
}

} // verus!
