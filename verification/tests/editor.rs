use text_editor::editor::Editor;
use text_editor::editor::EditorAction;
use text_editor::editor::Key;
use text_editor::editor::Mode;
use text_editor::screen::Screen;
use text_editor::Buffer;
use text_editor::CursorStyle;

fn fresh() -> Editor {
    Editor::new(80, 24)
}

/// An editor whose active buffer was loaded from `text`.
fn with_loaded(text: &str) -> Editor {
    let mut e = fresh();
    e.add_buffer_from_text(text.to_string());
    e.current_buffer_index = 1;
    e
}

fn active_lines(e: &Editor) -> Vec<String> {
    e.get_current_buffer().expect("active buffer").lines.clone()
}

fn active_pos(e: &Editor) -> (usize, usize) {
    let b = e.get_current_buffer().expect("active buffer");
    (b.cursor.row, b.cursor.col)
}

#[test]
fn new_editor_starts_in_normal_mode_with_one_empty_buffer() {
    let e = fresh();
    assert_eq!(e.mode, Mode::Normal);
    assert_eq!(e.get_buffers().len(), 1);
    assert_eq!(e.current_buffer_index, 0);
    assert_eq!(active_lines(&e), vec![String::new()]);
    assert_eq!(e.get_screen().width, 80);
    assert_eq!(e.get_screen().height, 24);
}

#[test]
fn get_screen_mut_changes_only_the_screen() {
    let mut e = fresh();
    e.get_screen_mut().width = 132;
    assert_eq!(e.get_screen().width, 132);
    assert_eq!(e.get_screen().height, 24);
    assert_eq!(e.get_buffers().len(), 1);
}

#[test]
fn add_buffer_appends_a_default_buffer() {
    let mut e = fresh();
    let b = e.add_buffer();
    assert_eq!(b.lines, vec![String::new()]);
    assert_eq!(e.get_buffers().len(), 2);
    assert_eq!(e.current_buffer_index, 0);
}

#[test]
fn add_buffer_from_appends_the_given_buffer() {
    let mut e = fresh();
    let b = Buffer::from_text("xy".to_string());
    let added = e.add_buffer_from(b);
    assert_eq!(added.lines, vec!["xy".to_string()]);
    assert_eq!(e.get_buffers().len(), 2);
}

#[test]
fn add_buffer_from_text_loads_lines() {
    let mut e = fresh();
    let added = e.add_buffer_from_text("one\ntwo".to_string());
    assert_eq!(added.lines, vec!["one".to_string(), "two".to_string()]);
}

#[test]
fn remove_buffer_returns_the_removed_buffer() {
    let mut e = fresh();
    e.add_buffer_from_text("xy".to_string());
    let removed = e.remove_buffer(1).expect("index 1 exists");
    assert_eq!(removed.lines, vec!["xy".to_string()]);
    assert_eq!(e.get_buffers().len(), 1);
    assert!(e.remove_buffer(5).is_none());
}

#[test]
fn get_current_buffer_mut_reaches_the_active_buffer() {
    let mut e = fresh();
    e.get_current_buffer_mut().expect("active buffer").path = Some("a.txt".to_string());
    assert_eq!(
        e.get_current_buffer().expect("active buffer").path.as_deref(),
        Some("a.txt")
    );
    e.current_buffer_index = 7;
    assert!(e.get_current_buffer().is_none());
    assert!(e.get_current_buffer_mut().is_none());
}

#[test]
fn esc_in_normal_mode_quits() {
    let mut e = fresh();
    assert!(matches!(e.handle_key(Key::Esc), EditorAction::Quit));
    assert_eq!(e.mode, Mode::Normal);
}

#[test]
fn i_enters_insert_mode_with_bar_caret() {
    let mut e = fresh();
    assert!(matches!(e.handle_key(Key::Char('i')), EditorAction::Continue));
    assert_eq!(e.mode, Mode::Insert);
    assert_eq!(
        e.get_current_buffer().expect("active buffer").cursor.style,
        CursorStyle::SteadyBar
    );
}

#[test]
fn esc_in_insert_mode_returns_to_normal_with_block_caret() {
    let mut e = fresh();
    e.handle_key(Key::Char('i'));
    assert!(matches!(e.handle_key(Key::Esc), EditorAction::Continue));
    assert_eq!(e.mode, Mode::Normal);
    assert_eq!(
        e.get_current_buffer().expect("active buffer").cursor.style,
        CursorStyle::SteadyBlock
    );
}

#[test]
fn typing_in_insert_mode_inserts_characters() {
    let mut e = fresh();
    e.handle_key(Key::Char('i'));
    e.handle_key(Key::Char('h'));
    e.handle_key(Key::Char('i'));
    assert_eq!(active_lines(&e), vec!["hi".to_string()]);
    assert_eq!(active_pos(&e), (1, 3));
}

#[test]
fn backspace_and_enter_in_insert_mode_edit_the_buffer() {
    let mut e = fresh();
    e.handle_key(Key::Char('i'));
    e.handle_key(Key::Char('a'));
    e.handle_key(Key::Char('b'));
    e.handle_key(Key::Backspace);
    assert_eq!(active_lines(&e), vec!["a".to_string()]);
    assert_eq!(active_pos(&e), (1, 2));
    e.handle_key(Key::Enter);
    assert_eq!(active_lines(&e), vec!["a".to_string(), String::new()]);
    assert_eq!(active_pos(&e), (2, 1));
}

#[test]
fn backspace_and_enter_in_normal_mode_are_reserved() {
    let mut e = with_loaded("ab");
    assert!(matches!(e.handle_key(Key::Backspace), EditorAction::Continue));
    assert!(matches!(e.handle_key(Key::Enter), EditorAction::Continue));
    assert_eq!(active_lines(&e), vec!["ab".to_string()]);
    assert_eq!(e.mode, Mode::Normal);
}

#[test]
fn unbound_printable_keys_in_normal_mode_do_nothing() {
    let mut e = with_loaded("ab");
    assert!(matches!(e.handle_key(Key::Char('q')), EditorAction::Continue));
    assert_eq!(active_lines(&e), vec!["ab".to_string()]);
    assert_eq!(active_pos(&e), (1, 1));
    assert_eq!(e.mode, Mode::Normal);
}

#[test]
fn hjkl_navigate_in_normal_mode() {
    let mut e = with_loaded("abc\nde");
    e.handle_key(Key::Char('l'));
    assert_eq!(active_pos(&e), (1, 2));
    e.handle_key(Key::Char('j'));
    assert_eq!(active_pos(&e), (2, 2));
    e.handle_key(Key::Char('h'));
    assert_eq!(active_pos(&e), (2, 1));
    e.handle_key(Key::Char('k'));
    assert_eq!(active_pos(&e), (1, 1));
}

#[test]
fn arrow_keys_navigate_like_hjkl() {
    let mut e = with_loaded("abc\nde");
    e.handle_key(Key::Right);
    assert_eq!(active_pos(&e), (1, 2));
    e.handle_key(Key::Down);
    assert_eq!(active_pos(&e), (2, 2));
    e.handle_key(Key::Left);
    assert_eq!(active_pos(&e), (2, 1));
    e.handle_key(Key::Up);
    assert_eq!(active_pos(&e), (1, 1));
}

#[test]
fn left_and_up_clamp_at_one() {
    let mut e = with_loaded("ab");
    e.handle_key(Key::Char('h'));
    e.handle_key(Key::Char('k'));
    assert_eq!(active_pos(&e), (1, 1));
}

#[test]
fn right_at_line_length_is_rejected() {
    // Line "ab" has length 2.  From column 1 the move is allowed; at
    // column 2 the bounds check rejects it and the column stays put.
    let mut e = with_loaded("ab");
    e.handle_key(Key::Char('l'));
    assert_eq!(active_pos(&e), (1, 2));
    e.handle_key(Key::Char('l'));
    assert_eq!(active_pos(&e), (1, 2));
    e.handle_key(Key::Right);
    assert_eq!(active_pos(&e), (1, 2));
}

#[test]
fn down_moves_only_while_a_further_line_exists() {
    // Two loaded lines: from row 1 the move succeeds because 1 is below
    // the line count of 2; from row 2 it is rejected.
    let mut e = with_loaded("one\ntwo");
    e.handle_key(Key::Char('j'));
    assert_eq!(active_pos(&e), (2, 1));
    e.handle_key(Key::Char('j'));
    assert_eq!(active_pos(&e), (2, 1));
}

#[test]
fn movement_in_insert_mode_obeys_the_same_bounds() {
    let mut e = with_loaded("ab\nc");
    e.handle_key(Key::Char('i'));
    e.handle_key(Key::Right);
    assert_eq!(active_pos(&e), (1, 2));
    e.handle_key(Key::Right);
    assert_eq!(active_pos(&e), (1, 2));
    e.handle_key(Key::Down);
    assert_eq!(active_pos(&e), (2, 2));
    e.handle_key(Key::Down);
    assert_eq!(active_pos(&e), (2, 2));
    assert_eq!(active_lines(&e), vec!["ab".to_string(), "c".to_string()]);
}

#[test]
fn tab_without_a_path_skips_the_save() {
    let mut e = fresh();
    assert!(matches!(e.handle_key(Key::Tab), EditorAction::Continue));
}

#[test]
fn tab_in_insert_mode_does_not_save() {
    let mut e = fresh();
    e.get_current_buffer_mut().expect("active buffer").path = Some("notes.txt".to_string());
    e.handle_key(Key::Char('i'));
    assert!(matches!(e.handle_key(Key::Tab), EditorAction::Continue));
}

#[test]
fn typing_then_saving_yields_the_persisted_text() {
    // Start from an empty document with a path: enter Insert, type
    // "hi", leave Insert, press Tab.  The save payload is "hi\n".
    let mut e = fresh();
    e.get_current_buffer_mut().expect("active buffer").path = Some("notes.txt".to_string());
    e.handle_key(Key::Char('i'));
    assert_eq!(e.mode, Mode::Insert);
    e.handle_key(Key::Char('h'));
    e.handle_key(Key::Char('i'));
    e.handle_key(Key::Esc);
    assert_eq!(e.mode, Mode::Normal);
    match e.handle_key(Key::Tab) {
        EditorAction::Save { path, content } => {
            assert_eq!(path, "notes.txt");
            assert_eq!(content, "hi\n");
        },
        _ => panic!("Tab with a path set must ask for a save"),
    }
}

#[test]
fn draw_current_buffer_emits_one_full_frame() {
    let mut e = with_loaded("hi");
    let mut out = String::new();
    e.draw_current_buffer(&mut out);
    // In order: erase the frame; paint cursor parked and hidden; jump
    // to row 1 column 1 and write the line; editing cursor restored.
    assert_eq!(
        out,
        "\x1b[2J\x1b[1;1H\x1b[2 q\x1b[?25l\x1b[1;1Hhi\x1b[1;1H\x1b[2 q\x1b[?25h"
    );
}

#[test]
fn draw_current_buffer_paints_every_line_on_its_row() {
    let mut e = with_loaded("ab\ncd");
    let mut out = String::new();
    e.draw_current_buffer(&mut out);
    // As in the single-line frame, but "ab" lands on row 1 and "cd" on
    // row 2, each after an absolute jump to column 1.
    assert_eq!(
        out,
        "\x1b[2J\x1b[1;1H\x1b[2 q\x1b[?25l\x1b[1;1Hab\x1b[2;1Hcd\x1b[1;1H\x1b[2 q\x1b[?25h"
    );
}

#[test]
fn screen_erase_emits_the_erase_sequence() {
    let s = Screen::new(10, 5);
    assert_eq!((s.width, s.height), (10, 5));
    let mut out = String::new();
    Screen::erase(&mut out);
    assert_eq!(out, "\x1b[2J");
}

#[test]
fn draw_buffer_leaves_lines_cursor_and_path_alone() {
    let mut e = with_loaded("ab\ncd");
    let before_lines = active_lines(&e);
    let before_pos = active_pos(&e);
    let mut out = String::new();
    e.draw_current_buffer(&mut out);
    assert_eq!(active_lines(&e), before_lines);
    assert_eq!(active_pos(&e), before_pos);
    let b = e.get_current_buffer().expect("active buffer");
    assert!(!b.paint_cursor.visible);
    assert_eq!((b.paint_cursor.row, b.paint_cursor.col), (2, 1));
}

#[test]
fn full_session_edit_navigate_and_save() {
    let mut e = with_loaded("one\ntwo");
    e.get_current_buffer_mut().expect("active buffer").path = Some("story.txt".to_string());
    // Walk to column 3 of "one" (Right stops at the line length), then
    // insert before the 'e' there.
    e.handle_key(Key::Char('l'));
    e.handle_key(Key::Char('l'));
    e.handle_key(Key::Char('l'));
    assert_eq!(active_pos(&e), (1, 3));
    e.handle_key(Key::Char('i'));
    e.handle_key(Key::Char('!'));
    assert_eq!(active_lines(&e), vec!["on!e".to_string(), "two".to_string()]);
    assert_eq!(active_pos(&e), (1, 4));
    e.handle_key(Key::Esc);
    match e.handle_key(Key::Tab) {
        EditorAction::Save { path, content } => {
            assert_eq!(path, "story.txt");
            assert_eq!(content, "on!e\ntwo\n");
        },
        _ => panic!("Tab with a path set must ask for a save"),
    }
}
