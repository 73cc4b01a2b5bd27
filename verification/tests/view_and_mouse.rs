//! Tests of the viewport tracker, the search internals, and mouse handling.

use edtui::buffer::{get_row, lines_from_vecs};
use edtui::mouse::{MouseEvent, MouseEventHandler, MousePosition};
use edtui::search::find_matches;
use edtui::view::ViewState;
use edtui::{EditorMode, EditorState, Index2, Lines};

fn lines_of(rows: &[&str]) -> Lines {
    lines_from_vecs(rows.iter().map(|s| s.chars().collect()).collect())
}

// A viewport scrolled to offsets exactly (x, y): with a one-cell visible
// size, the update lands both offsets on the cursor coordinate.
fn view(x: usize, y: usize) -> ViewState {
    let mut v = ViewState::new();
    let _ = v.update_viewport_offset((1, 1), Index2::new(y, x));
    v
}

#[test]
fn scroll_up() {
    let mut v = view(0, 1);
    assert_eq!((v.viewport_x, v.viewport_y), (0, 1));
    let offset = v.update_viewport_offset((1, 2), Index2::new(0, 0));
    assert_eq!(offset, (0, 0));
}

#[test]
fn scroll_down() {
    let mut v = ViewState::new();
    let offset = v.update_viewport_offset((1, 2), Index2::new(2, 0));
    assert_eq!(offset, (0, 1));
}

#[test]
fn scroll_left() {
    let mut v = view(1, 0);
    assert_eq!((v.viewport_x, v.viewport_y), (1, 0));
    let offset = v.update_viewport_offset((2, 1), Index2::new(0, 0));
    assert_eq!(offset, (0, 0));
}

#[test]
fn scroll_right() {
    let mut v = ViewState::new();
    let offset = v.update_viewport_offset((2, 1), Index2::new(0, 2));
    assert_eq!(offset, (1, 0));
}

#[test]
fn viewport_keeps_cursor_visible() {
    let mut v = ViewState::new();
    let size = (10, 4);
    for (row, col) in [(0, 0), (7, 25), (2, 3), (100, 0), (0, 100)] {
        let (x, y) = v.update_viewport_offset(size, Index2::new(row, col));
        assert!(x <= col && col <= x + size.0 - 1);
        assert!(y <= row && row <= y + size.1 - 1);
    }
}

#[test]
fn find_matches_lists_ordered_positions() {
    let l = lines_of(&["foo bar foo", "oof foo"]);
    let pat: Vec<char> = "foo".chars().collect();
    let found = find_matches(&l, &pat);
    let positions: Vec<(usize, usize)> = found.iter().map(|p| (p.row, p.col)).collect();
    assert_eq!(positions, vec![(0, 0), (0, 8), (1, 4)]);
}

#[test]
fn find_matches_empty_pattern_has_none() {
    let l = lines_of(&["abc"]);
    let found = find_matches(&l, &Vec::new());
    assert_eq!(found.len(), 0);
}

#[test]
fn find_matches_overlapping() {
    let l = lines_of(&["aaa"]);
    let pat: Vec<char> = "aa".chars().collect();
    let found = find_matches(&l, &pat);
    let positions: Vec<(usize, usize)> = found.iter().map(|p| (p.row, p.col)).collect();
    assert_eq!(positions, vec![(0, 0), (0, 1)]);
}

#[test]
fn mouse_down_relocates_and_leaves_visual() {
    let mut state = EditorState::new(lines_of(&["abc", "defgh"]));
    edtui::actions::execute(
        &mut state,
        &edtui::Action::Base(edtui::BaseAction::SwitchMode(EditorMode::Visual)),
    );
    MouseEventHandler::on_event(MouseEvent::Down(MousePosition::new(1, 2)), &mut state);
    assert_eq!(state.mode, EditorMode::Normal);
    assert!(state.selection.is_none());
    assert_eq!((state.cursor.row, state.cursor.col), (1, 2));
}

#[test]
fn mouse_position_clamps_into_buffer() {
    let mut state = EditorState::new(lines_of(&["abc", "defgh"]));
    MouseEventHandler::on_event(MouseEvent::Up(MousePosition::new(9, 9)), &mut state);
    assert_eq!((state.cursor.row, state.cursor.col), (1, 4));
    MouseEventHandler::on_event(MouseEvent::Up(MousePosition::new(0, 9)), &mut state);
    assert_eq!((state.cursor.row, state.cursor.col), (0, 2));
}

#[test]
fn mouse_past_last_row_keeps_translated_column() {
    // the row clamps to the last row, the column only to that row's last
    // valid column
    let mut state = EditorState::new(lines_of(&["a", "abcde"]));
    MouseEventHandler::on_event(MouseEvent::Up(MousePosition::new(5, 1)), &mut state);
    assert_eq!((state.cursor.row, state.cursor.col), (1, 1));
}

#[test]
fn mouse_drag_extends_selection() {
    let mut state = EditorState::new(lines_of(&["abcdef"]));
    MouseEventHandler::on_event(MouseEvent::Up(MousePosition::new(0, 1)), &mut state);
    MouseEventHandler::on_event(MouseEvent::Drag(MousePosition::new(0, 4)), &mut state);
    assert_eq!(state.mode, EditorMode::Visual);
    let sel = state.selection.expect("a selection");
    assert_eq!((sel.start.row, sel.start.col), (0, 1));
    assert_eq!((sel.end.row, sel.end.col), (0, 4));
    assert_eq!((state.cursor.row, state.cursor.col), (0, 4));
}

#[test]
fn mouse_translation_respects_screen_origin_and_scroll() {
    let mut state = EditorState::new(lines_of(&["0123456789", "abcdefghij"]));
    state.view.set_screen_offset(2, 1);
    // screen (1, 4) with origin (2, 1) and no scroll lands at buffer (0, 2)
    MouseEventHandler::on_event(MouseEvent::Up(MousePosition::new(1, 4)), &mut state);
    assert_eq!((state.cursor.row, state.cursor.col), (0, 2));
}

#[test]
fn buffer_round_trip_through_rows() {
    let l = lines_of(&["one", "", "three"]);
    assert_eq!(edtui::buffer::row_count(&l), 3);
    let r0: String = get_row(&l, 0).into_iter().collect();
    let r1: String = get_row(&l, 1).into_iter().collect();
    let r2: String = get_row(&l, 2).into_iter().collect();
    assert_eq!((r0.as_str(), r1.as_str(), r2.as_str()), ("one", "", "three"));
    assert_eq!(edtui::buffer::row_len(&l, 2), 5);
    assert_eq!(edtui::buffer::last_row_index(&l), 2);
    assert_eq!(edtui::buffer::last_col_index(&l, 1), 0);
    assert_eq!(edtui::buffer::get_char(&l, 2, 1), 'h');
}
