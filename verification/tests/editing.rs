//! Unit tests of the action layer: edits, history, motions, and selections.

use edtui::actions::{execute, Action, BaseAction};
use edtui::buffer::{get_row, lines_from_vecs, row_count};
use edtui::{EditorMode, EditorState, Lines};

fn lines_of(rows: &[&str]) -> Lines {
    lines_from_vecs(rows.iter().map(|s| s.chars().collect()).collect())
}

fn row_string(l: &Lines, r: usize) -> String {
    get_row(l, r).into_iter().collect()
}

fn run(state: &mut EditorState, a: BaseAction) {
    execute(state, &Action::Base(a));
}

#[test]
fn undo_round_trip_restores_buffer_and_cursor() {
    let mut state = EditorState::new(lines_of(&["abc"]));
    run(&mut state, BaseAction::RemoveChar(1));
    run(&mut state, BaseAction::DeleteLine(1));
    assert_eq!(row_string(&state.lines, 0), "");
    run(&mut state, BaseAction::Undo);
    assert_eq!(row_string(&state.lines, 0), "bc");
    run(&mut state, BaseAction::Undo);
    assert_eq!(row_string(&state.lines, 0), "abc");
    assert_eq!((state.cursor.row, state.cursor.col), (0, 0));
    // and redo walks forward again
    run(&mut state, BaseAction::Redo);
    assert_eq!(row_string(&state.lines, 0), "bc");
    run(&mut state, BaseAction::Redo);
    assert_eq!(row_string(&state.lines, 0), "");
}

#[test]
fn new_mutation_clears_redo() {
    let mut state = EditorState::new(lines_of(&["abc"]));
    run(&mut state, BaseAction::RemoveChar(1));
    run(&mut state, BaseAction::Undo);
    assert_eq!(row_string(&state.lines, 0), "abc");
    run(&mut state, BaseAction::DeleteLine(1));
    // the redo stack was cleared by the new mutating action
    run(&mut state, BaseAction::Redo);
    assert_eq!(row_string(&state.lines, 0), "");
    assert_eq!(state.redo.len(), 0);
}

#[test]
fn undo_in_normal_mode_clamps_restored_column() {
    let mut state = EditorState::new(lines_of(&["ab"]));
    state.mode = EditorMode::Insert;
    state.cursor.col = 2;
    run(&mut state, BaseAction::InsertChar('c'));
    assert_eq!(row_string(&state.lines, 0), "abc");
    run(&mut state, BaseAction::SwitchMode(EditorMode::Normal));
    // the snapshot captured the insert-mode append point (0, 2); restoring it
    // in normal mode clamps the column to the last character
    run(&mut state, BaseAction::Undo);
    assert_eq!(row_string(&state.lines, 0), "ab");
    assert_eq!((state.cursor.row, state.cursor.col), (0, 1));
}

#[test]
fn default_state_is_empty_and_well_formed() {
    let state = EditorState::default();
    assert_eq!(edtui::buffer::row_count(&state.lines), 0);
    assert_eq!(state.mode, EditorMode::Normal);
    assert_eq!((state.cursor.row, state.cursor.col), (0, 0));
    assert!(state.is_well_formed());
    assert_eq!(state.search_pattern(), "");
}

#[test]
fn undo_on_empty_history_is_a_no_op() {
    let mut state = EditorState::new(lines_of(&["abc"]));
    run(&mut state, BaseAction::Undo);
    assert_eq!(row_string(&state.lines, 0), "abc");
    run(&mut state, BaseAction::Redo);
    assert_eq!(row_string(&state.lines, 0), "abc");
}

#[test]
fn line_break_splits_row() {
    let mut state = EditorState::new(lines_of(&["abcd"]));
    state.mode = EditorMode::Insert;
    state.cursor.col = 2;
    run(&mut state, BaseAction::LineBreak(1));
    assert_eq!(row_count(&state.lines), 2);
    assert_eq!(row_string(&state.lines, 0), "ab");
    assert_eq!(row_string(&state.lines, 1), "cd");
    assert_eq!((state.cursor.row, state.cursor.col), (1, 0));
}

#[test]
fn delete_char_joins_rows_at_column_zero() {
    let mut state = EditorState::new(lines_of(&["ab", "cd"]));
    state.mode = EditorMode::Insert;
    state.cursor.row = 1;
    run(&mut state, BaseAction::DeleteChar(1));
    assert_eq!(row_count(&state.lines), 1);
    assert_eq!(row_string(&state.lines, 0), "abcd");
    assert_eq!((state.cursor.row, state.cursor.col), (0, 2));
}

#[test]
fn delete_line_moves_to_following_line_start() {
    let mut state = EditorState::new(lines_of(&["aa", "bb", "cc"]));
    state.cursor.row = 1;
    state.cursor.col = 1;
    run(&mut state, BaseAction::DeleteLine(1));
    assert_eq!(row_count(&state.lines), 2);
    assert_eq!(row_string(&state.lines, 0), "aa");
    assert_eq!(row_string(&state.lines, 1), "cc");
    assert_eq!((state.cursor.row, state.cursor.col), (1, 0));
}

#[test]
fn delete_last_line_clamps_row() {
    let mut state = EditorState::new(lines_of(&["aa", "bb"]));
    state.cursor.row = 1;
    run(&mut state, BaseAction::DeleteLine(1));
    assert_eq!(row_count(&state.lines), 1);
    assert_eq!(row_string(&state.lines, 0), "aa");
    assert_eq!((state.cursor.row, state.cursor.col), (0, 0));
}

#[test]
fn insert_char_into_empty_buffer_creates_row() {
    let mut state = EditorState::new(lines_from_vecs(Vec::new()));
    state.mode = EditorMode::Insert;
    run(&mut state, BaseAction::InsertChar('x'));
    assert_eq!(row_count(&state.lines), 1);
    assert_eq!(row_string(&state.lines, 0), "x");
    assert_eq!((state.cursor.row, state.cursor.col), (0, 1));
}

#[test]
fn motions_clamp_to_buffer() {
    let mut state = EditorState::new(lines_of(&["abc", "x"]));
    run(&mut state, BaseAction::MoveForward(10));
    assert_eq!((state.cursor.row, state.cursor.col), (0, 2));
    run(&mut state, BaseAction::MoveDown(10));
    assert_eq!((state.cursor.row, state.cursor.col), (1, 0));
    run(&mut state, BaseAction::MoveUp(10));
    assert_eq!((state.cursor.row, state.cursor.col), (0, 0));
    run(&mut state, BaseAction::MoveBackward(10));
    assert_eq!((state.cursor.row, state.cursor.col), (0, 0));
}

#[test]
fn line_boundary_motions() {
    let mut state = EditorState::new(lines_of(&["  hi there"]));
    run(&mut state, BaseAction::MoveToEnd);
    assert_eq!(state.cursor.col, 9);
    run(&mut state, BaseAction::MoveToFirst);
    assert_eq!(state.cursor.col, 2);
    run(&mut state, BaseAction::MoveToStart);
    assert_eq!(state.cursor.col, 0);
}

#[test]
fn word_motions_move_by_class_boundaries() {
    let mut state = EditorState::new(lines_of(&["foo bar, baz"]));
    run(&mut state, BaseAction::MoveWordForward(1));
    assert_eq!((state.cursor.row, state.cursor.col), (0, 4));
    run(&mut state, BaseAction::MoveWordForward(1));
    assert_eq!((state.cursor.row, state.cursor.col), (0, 7));
    run(&mut state, BaseAction::MoveWordForward(1));
    assert_eq!((state.cursor.row, state.cursor.col), (0, 9));
    run(&mut state, BaseAction::MoveWordBackward(1));
    assert_eq!((state.cursor.row, state.cursor.col), (0, 7));
}

#[test]
fn select_between_quotes() {
    let mut state = EditorState::new(lines_of(&["say \"hi\" now"]));
    state.cursor.col = 5;
    run(&mut state, BaseAction::SelectBetween('"'));
    assert_eq!(state.mode, EditorMode::Visual);
    let sel = state.selection.expect("a selection");
    assert_eq!((sel.start.row, sel.start.col), (0, 5));
    assert_eq!((sel.end.row, sel.end.col), (0, 6));
}

#[test]
fn select_between_without_pair_is_a_no_op() {
    let mut state = EditorState::new(lines_of(&["say hi now"]));
    state.cursor.col = 5;
    run(&mut state, BaseAction::SelectBetween('"'));
    assert_eq!(state.mode, EditorMode::Normal);
    assert!(state.selection.is_none());
}

#[test]
fn delete_selection_without_selection_is_a_no_op() {
    let mut state = EditorState::new(lines_of(&["abc"]));
    run(&mut state, BaseAction::DeleteSelection);
    assert_eq!(row_string(&state.lines, 0), "abc");
    assert_eq!(state.mode, EditorMode::Normal);
    assert_eq!(state.undo.len(), 0);
    // with nothing on the undo stack, undo stays a no-op
    run(&mut state, BaseAction::Undo);
    assert_eq!(row_string(&state.lines, 0), "abc");
}

#[test]
fn select_line_spans_whole_row() {
    let mut state = EditorState::new(lines_of(&["hello"]));
    state.cursor.col = 2;
    run(&mut state, BaseAction::SelectLine);
    assert_eq!(state.mode, EditorMode::Visual);
    let sel = state.selection.expect("a selection");
    assert_eq!((sel.start.col, sel.end.col), (0, 4));
}

#[test]
fn copy_multirow_selection_flattens_with_newline() {
    let mut state = EditorState::new(lines_of(&["abc", "def"]));
    run(&mut state, BaseAction::SwitchMode(EditorMode::Visual));
    run(&mut state, BaseAction::MoveDown(1));
    run(&mut state, BaseAction::MoveForward(1));
    run(&mut state, BaseAction::CopySelection);
    let copied: String = state.clip.data.iter().collect();
    assert_eq!(copied, "abc\nde");
}

#[test]
fn paste_with_newline_breaks_line() {
    let mut state = EditorState::new(lines_of(&["xy"]));
    state.mode = EditorMode::Insert;
    state.cursor.col = 1;
    let mut clip = edtui::Clipboard::new();
    clip.write("a\nb".chars().collect());
    state.set_clipboard(clip);
    run(&mut state, BaseAction::Paste);
    assert_eq!(row_count(&state.lines), 2);
    assert_eq!(row_string(&state.lines, 0), "xa");
    assert_eq!(row_string(&state.lines, 1), "by");
}

#[test]
fn delete_multirow_selection_joins_ends() {
    let mut state = EditorState::new(lines_of(&["abcd", "skip", "wxyz"]));
    state.cursor.col = 1;
    run(&mut state, BaseAction::SwitchMode(EditorMode::Visual));
    run(&mut state, BaseAction::MoveDown(2));
    run(&mut state, BaseAction::MoveForward(1));
    run(&mut state, BaseAction::DeleteSelection);
    assert_eq!(row_count(&state.lines), 1);
    assert_eq!(row_string(&state.lines, 0), "az");
    assert_eq!((state.cursor.row, state.cursor.col), (0, 1));
}

#[test]
fn composed_action_is_one_unit() {
    let mut state = EditorState::new(lines_of(&["  abc"]));
    state.cursor.col = 4;
    execute(
        &mut state,
        &Action::Composed(vec![
            BaseAction::MoveToFirst,
            BaseAction::SwitchMode(EditorMode::Insert),
        ]),
    );
    assert_eq!(state.mode, EditorMode::Insert);
    assert_eq!(state.cursor.col, 2);
}

#[test]
fn search_pattern_reads_back_typed_pattern() {
    let mut state = EditorState::new(lines_of(&["abc"]));
    run(&mut state, BaseAction::StartSearch);
    run(&mut state, BaseAction::AppendCharToSearch('a'));
    run(&mut state, BaseAction::AppendCharToSearch('b'));
    assert_eq!(state.search_pattern(), "ab");
    run(&mut state, BaseAction::RemoveCharFromSearch);
    assert_eq!(state.search_pattern(), "a");
    run(&mut state, BaseAction::StopSearch);
    assert_eq!(state.search_pattern(), "");
    assert_eq!(state.mode, EditorMode::Normal);
}
