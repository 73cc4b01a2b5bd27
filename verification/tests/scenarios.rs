//! End-to-end key-press scenarios through the default binding table.

use edtui::buffer::{get_row, lines_from_vecs, row_count};
use edtui::{
    Action, BaseAction, EditorEvent, EditorHandler, EditorInput, EditorMode, EditorState, Key,
    Lines, RegisterKey,
};

fn lines_of(rows: &[&str]) -> Lines {
    lines_from_vecs(rows.iter().map(|s| s.chars().collect()).collect())
}

fn row_string(l: &Lines, r: usize) -> String {
    get_row(l, r).into_iter().collect()
}

fn press(handler: &mut EditorHandler, state: &mut EditorState, key: Key) {
    handler.on_event(EditorEvent::Key(key), state);
}

#[test]
fn normal_x_removes_char_under_cursor() {
    let mut state = EditorState::new(lines_of(&["abc"]));
    let mut handler = EditorHandler::default();
    press(&mut handler, &mut state, Key::Char('x'));
    assert_eq!(row_count(&state.lines), 1);
    assert_eq!(row_string(&state.lines, 0), "bc");
    assert_eq!(state.cursor.row, 0);
    assert_eq!(state.cursor.col, 0);
}

#[test]
fn dd_waits_then_deletes_line() {
    let mut state = EditorState::new(lines_of(&["abc"]));
    let mut handler = EditorHandler::default();
    press(&mut handler, &mut state, Key::Char('d'));
    // pending: nothing has changed yet
    assert_eq!(row_string(&state.lines, 0), "abc");
    press(&mut handler, &mut state, Key::Char('d'));
    assert_eq!(row_count(&state.lines), 1);
    assert_eq!(row_string(&state.lines, 0), "");
    assert_eq!(state.cursor.row, 0);
    assert_eq!(state.cursor.col, 0);
}

#[test]
fn insert_hi_then_escape_clamps_column() {
    let mut state = EditorState::new(lines_of(&["abc"]));
    let mut handler = EditorHandler::default();
    press(&mut handler, &mut state, Key::Char('i'));
    assert_eq!(state.mode, EditorMode::Insert);
    press(&mut handler, &mut state, Key::Char('h'));
    press(&mut handler, &mut state, Key::Char('i'));
    assert_eq!(row_string(&state.lines, 0), "hiabc");
    press(&mut handler, &mut state, Key::Esc);
    assert_eq!(state.mode, EditorMode::Normal);
    assert_eq!(state.cursor.col, 2.min(row_string(&state.lines, 0).len() - 1));
    assert_eq!(row_string(&state.lines, 0), "hiabc");
}

#[test]
fn insert_at_line_end_then_escape_clamps_to_last_char() {
    let mut state = EditorState::new(lines_of(&["ab"]));
    let mut handler = EditorHandler::default();
    // 'a' appends: insert mode, cursor one right
    press(&mut handler, &mut state, Key::Char('a'));
    assert_eq!(state.mode, EditorMode::Insert);
    assert_eq!(state.cursor.col, 1);
    press(&mut handler, &mut state, Key::Char('z'));
    assert_eq!(row_string(&state.lines, 0), "azb");
    assert_eq!(state.cursor.col, 2);
    press(&mut handler, &mut state, Key::Esc);
    assert_eq!(state.mode, EditorMode::Normal);
    assert_eq!(state.cursor.col, 2);
}

#[test]
fn search_foo_finds_wraps() {
    let mut state = EditorState::new(lines_of(&["foo bar foo"]));
    let mut handler = EditorHandler::default();
    press(&mut handler, &mut state, Key::Char('/'));
    assert_eq!(state.mode, EditorMode::Search);
    press(&mut handler, &mut state, Key::Char('f'));
    press(&mut handler, &mut state, Key::Char('o'));
    press(&mut handler, &mut state, Key::Char('o'));
    assert_eq!(state.search_pattern(), "foo");
    press(&mut handler, &mut state, Key::Enter);
    assert_eq!(state.mode, EditorMode::Normal);
    assert_eq!((state.cursor.row, state.cursor.col), (0, 0));
    press(&mut handler, &mut state, Key::Char('n'));
    assert_eq!((state.cursor.row, state.cursor.col), (0, 8));
    press(&mut handler, &mut state, Key::Char('n'));
    assert_eq!((state.cursor.row, state.cursor.col), (0, 0));
    press(&mut handler, &mut state, Key::Char('N'));
    assert_eq!((state.cursor.row, state.cursor.col), (0, 8));
}

#[test]
fn unbound_sequence_resets_pending() {
    let mut state = EditorState::new(lines_of(&["abc"]));
    let mut handler = EditorHandler::default();
    // 'd' starts the pending sequence; 'q' matches no binding, so the
    // pending sequence resets and a later 'x' fires normally
    press(&mut handler, &mut state, Key::Char('d'));
    press(&mut handler, &mut state, Key::Char('q'));
    assert_eq!(row_string(&state.lines, 0), "abc");
    press(&mut handler, &mut state, Key::Char('x'));
    assert_eq!(row_string(&state.lines, 0), "bc");
}

#[test]
fn visual_delete_selection() {
    let mut state = EditorState::new(lines_of(&["abcde"]));
    let mut handler = EditorHandler::default();
    press(&mut handler, &mut state, Key::Char('v'));
    assert_eq!(state.mode, EditorMode::Visual);
    press(&mut handler, &mut state, Key::Char('l'));
    press(&mut handler, &mut state, Key::Char('l'));
    press(&mut handler, &mut state, Key::Char('d'));
    assert_eq!(state.mode, EditorMode::Normal);
    assert_eq!(row_string(&state.lines, 0), "de");
    assert_eq!((state.cursor.row, state.cursor.col), (0, 0));
}

#[test]
fn yank_and_paste() {
    let mut state = EditorState::new(lines_of(&["abc"]));
    let mut handler = EditorHandler::default();
    press(&mut handler, &mut state, Key::Char('v'));
    press(&mut handler, &mut state, Key::Char('l'));
    press(&mut handler, &mut state, Key::Char('y'));
    assert_eq!(state.mode, EditorMode::Normal);
    assert_eq!(row_string(&state.lines, 0), "abc");
    // the yank left the cursor on column 1; the paste inserts there
    assert_eq!((state.cursor.row, state.cursor.col), (0, 1));
    press(&mut handler, &mut state, Key::Char('p'));
    assert_eq!(row_string(&state.lines, 0), "aabbc");
}

#[test]
fn open_line_below_enters_insert() {
    let mut state = EditorState::new(lines_of(&["abc"]));
    let mut handler = EditorHandler::default();
    press(&mut handler, &mut state, Key::Char('o'));
    assert_eq!(state.mode, EditorMode::Insert);
    assert_eq!(row_count(&state.lines), 2);
    assert_eq!(row_string(&state.lines, 1), "");
    assert_eq!((state.cursor.row, state.cursor.col), (1, 0));
}

#[test]
fn replacing_the_binding_table() {
    let mut input = EditorInput::new(Vec::new());
    input.insert(
        RegisterKey::n(vec![Key::Char('z')]),
        Action::Base(BaseAction::DeleteLine(1)),
    );
    let mut handler = EditorHandler::new(input);
    let mut state = EditorState::new(lines_of(&["abc", "def"]));
    // 'x' is not bound in the replacement table
    press(&mut handler, &mut state, Key::Char('x'));
    assert_eq!(row_string(&state.lines, 0), "abc");
    press(&mut handler, &mut state, Key::Char('z'));
    assert_eq!(row_count(&state.lines), 1);
    assert_eq!(row_string(&state.lines, 0), "def");
}
