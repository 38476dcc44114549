use text_editor::Cursor;
use text_editor::CursorStyle;
use text_editor::Direction;

fn fresh() -> Cursor {
    Cursor::default()
}

#[test]
fn default_cursor_is_top_left_visible_block() {
    let c = fresh();
    assert_eq!(c.row, 1);
    assert_eq!(c.col, 1);
    assert!(c.visible);
    assert_eq!(c.style, CursorStyle::SteadyBlock);
}

#[test]
fn style_values_follow_decscusr_numbering() {
    assert_eq!(CursorStyle::BlinkingBlock.value(), 1);
    assert_eq!(CursorStyle::SteadyBlock.value(), 2);
    assert_eq!(CursorStyle::BlinkingUnderline.value(), 3);
    assert_eq!(CursorStyle::SteadyUnderline.value(), 4);
    assert_eq!(CursorStyle::BlinkingBar.value(), 5);
    assert_eq!(CursorStyle::SteadyBar.value(), 6);
}

#[test]
fn move_up_and_left_clamp_at_one() {
    let mut c = fresh();
    c.move_by(Direction::Up, 1);
    c.move_by(Direction::Left, 1);
    assert_eq!((c.row, c.col), (1, 1));
    c.row = 3;
    c.col = 2;
    c.move_by(Direction::Up, 5);
    c.move_by(Direction::Left, 100);
    assert_eq!((c.row, c.col), (1, 1));
}

#[test]
fn long_move_sequence_never_underflows() {
    let mut c = fresh();
    let moves = [
        (Direction::Up, 7usize),
        (Direction::Left, 3),
        (Direction::Down, 2),
        (Direction::Up, 9),
        (Direction::Right, 1),
        (Direction::Left, 4),
        (Direction::Up, 1),
        (Direction::Left, 1),
    ];
    for (d, off) in moves {
        c.move_by(d, off);
        assert!(c.row >= 1);
        assert!(c.col >= 1);
    }
    assert_eq!((c.row, c.col), (1, 1));
}

#[test]
fn move_down_and_right_saturate() {
    let mut c = fresh();
    c.move_by(Direction::Down, 3);
    c.move_by(Direction::Right, 4);
    assert_eq!((c.row, c.col), (4, 5));
    c.move_by(Direction::Right, usize::MAX);
    assert_eq!(c.col, usize::MAX);
    c.move_by(Direction::Down, usize::MAX);
    c.move_by(Direction::Down, usize::MAX);
    assert_eq!(c.row, usize::MAX);
}

#[test]
fn jump_emits_absolute_position_sequence() {
    let mut c = fresh();
    let mut out = String::new();
    c.jump(5, 7, &mut out);
    assert_eq!((c.row, c.col), (5, 7));
    assert_eq!(out, "\x1b[5;7H");
}

#[test]
fn jump_renders_multi_digit_coordinates_in_decimal() {
    let mut c = fresh();
    let mut out = String::new();
    c.jump(120, 304, &mut out);
    assert_eq!(out, "\x1b[120;304H");
}

#[test]
fn jump_to_row_keeps_column() {
    let mut c = fresh();
    let mut out = String::new();
    c.jump(2, 9, &mut out);
    out.clear();
    c.jump_to_row(6, &mut out);
    assert_eq!((c.row, c.col), (6, 9));
    assert_eq!(out, "\x1b[6;9H");
}

#[test]
fn jump_to_col_keeps_row() {
    let mut c = fresh();
    let mut out = String::new();
    c.jump(2, 9, &mut out);
    out.clear();
    c.jump_to_col(4, &mut out);
    assert_eq!((c.row, c.col), (2, 4));
    assert_eq!(out, "\x1b[2;4H");
}

#[test]
fn set_visibility_emits_show_and_hide() {
    let mut c = fresh();
    let mut out = String::new();
    c.set_visibility(false, &mut out);
    assert!(!c.visible);
    assert_eq!(out, "\x1b[?25l");
    out.clear();
    c.set_visibility(true, &mut out);
    assert!(c.visible);
    assert_eq!(out, "\x1b[?25h");
}

#[test]
fn render_emits_position_style_visibility_in_order() {
    let mut c = fresh();
    let mut out = String::new();
    c.jump(2, 3, &mut out);
    c.set_style(CursorStyle::SteadyBar);
    out.clear();
    c.render(&mut out);
    assert_eq!(out, "\x1b[2;3H\x1b[6 q\x1b[?25h");
    // Idempotent: a second render appends the same bytes again.
    c.render(&mut out);
    assert_eq!(out, "\x1b[2;3H\x1b[6 q\x1b[?25h\x1b[2;3H\x1b[6 q\x1b[?25h");
}

#[test]
fn set_style_alone_emits_nothing() {
    let mut c = fresh();
    c.set_style(CursorStyle::BlinkingUnderline);
    assert_eq!(c.style, CursorStyle::BlinkingUnderline);
    let mut out = String::new();
    c.render(&mut out);
    assert_eq!(out, "\x1b[1;1H\x1b[3 q\x1b[?25h");
}
