//! Core of a modal terminal text editor.
//!
//! A [`Buffer`] holds the lines of one text document together with the
//! editing [`Cursor`] that marks where the next edit lands.  The
//! [`editor`] module drives the Normal/Insert key state machine over a
//! collection of buffers, and the [`screen`] module repaints a buffer as
//! one frame of terminal escape sequences.  Everything that touches a
//! real terminal or the file system stays outside this crate: rendering
//! is phrased as appending escape sequences to a caller-supplied
//! `String` sink, so every operation here is deterministic and carries a
//! proved contract.

use vstd::prelude::*;

pub mod term;
pub mod text;
pub mod screen;
pub mod editor;

verus! {

/// Glyph shapes a terminal caret can take, in the order of the DECSCUSR
/// style numbers (`CSI {n} q`).
#[derive(Clone, Copy, Debug, PartialEq, Eq, Structural)]
pub enum CursorStyle {
    BlinkingBlock,
    SteadyBlock,
    BlinkingUnderline,
    SteadyUnderline,
    BlinkingBar,
    SteadyBar,
}

impl CursorStyle {
    /// The DECSCUSR parameter that selects this glyph.
    pub open spec fn spec_value(self) -> u8 {
        match self {
            CursorStyle::BlinkingBlock => 1,
            CursorStyle::SteadyBlock => 2,
            CursorStyle::BlinkingUnderline => 3,
            CursorStyle::SteadyUnderline => 4,
            CursorStyle::BlinkingBar => 5,
            CursorStyle::SteadyBar => 6,
        }
    }

    pub fn value(&self) -> (v: u8)
        ensures
            v == self.spec_value(),
    {
        match self {
            CursorStyle::BlinkingBlock => 1,
            CursorStyle::SteadyBlock => 2,
            CursorStyle::BlinkingUnderline => 3,
            CursorStyle::SteadyUnderline => 4,
            CursorStyle::BlinkingBar => 5,
            CursorStyle::SteadyBar => 6,
        }
    }
}

/// The four directions a cursor can move in.
#[derive(Clone, Copy, Debug, PartialEq, Eq, Structural)]
pub enum Direction {
    Up,
    Down,
    Left,
    Right,
}

/// Position and appearance of a terminal caret.  Rows and columns are
/// 1-based, as in the terminal's own addressing: (1, 1) is the top-left
/// cell, and neither coordinate ever drops below 1.
#[derive(Clone, Copy, Debug, PartialEq, Eq, Structural)]
pub struct Cursor {
    pub row: usize,
    pub col: usize,
    pub visible: bool,
    pub style: CursorStyle,
}

/// `a - b`, clamped so the result never drops below the 1-based floor.
pub open spec fn floor_sub(a: usize, b: usize) -> usize {
    if a > b {
        (a - b) as usize
    } else {
        1
    }
}

impl Cursor {
    /// Both coordinates sit at or above their floor of 1.
    pub open spec fn wf(self) -> bool {
        self.row >= 1 && self.col >= 1
    }

    /// The position after moving `offset` steps in `direction`:
    /// decrements clamp at 1, increments saturate at `usize::MAX`.
    pub open spec fn spec_moved(self, direction: Direction, offset: usize) -> Cursor {
        match direction {
            Direction::Up => Cursor { row: floor_sub(self.row, offset), ..self },
            Direction::Down => Cursor { row: self.row.saturating_add(offset), ..self },
            Direction::Left => Cursor { col: floor_sub(self.col, offset), ..self },
            Direction::Right => Cursor { col: self.col.saturating_add(offset), ..self },
        }
    }

    /// The control sequences `render` emits: position, then glyph style,
    /// then visibility.
    pub open spec fn render_seq(self) -> Seq<char> {
        term::csi_jump(self.row as nat, self.col as nat) + term::csi_style_code(
            self.style.spec_value() as nat,
        ) + term::csi_visibility(self.visible)
    }

    /// Adjusts the row or column by `offset` with clamped arithmetic:
    /// moving up or left stops at 1, moving down or right saturates.
    /// Never panics and never wraps.
    pub fn move_by(&mut self, direction: Direction, offset: usize)
        ensures
            *final(self) == old(self).spec_moved(direction, offset),
            old(self).wf() ==> final(self).wf(),
    {
        match direction {
            Direction::Up => {
                self.row = if self.row > offset {
                    self.row - offset
                } else {
                    1
                };
            },
            Direction::Down => {
                self.row = self.row.saturating_add(offset);
            },
            Direction::Left => {
                self.col = if self.col > offset {
                    self.col - offset
                } else {
                    1
                };
            },
            Direction::Right => {
                self.col = self.col.saturating_add(offset);
            },
        }
    }

    /// Moves to an absolute position and appends the matching
    /// `CSI {row};{col}H` sequence to `out`.
    pub fn jump(&mut self, row: usize, col: usize, out: &mut String)
        requires
            row >= 1,
            col >= 1,
        ensures
            *final(self) == (Cursor { row, col, ..*old(self) }),
            final(self).wf(),
            final(out)@ == old(out)@ + term::csi_jump(row as nat, col as nat),
    {
        self.row = row;
        self.col = col;
        term::push_jump(out, row, col);
    }

    /// Moves to an absolute row, keeping the column.
    pub fn jump_to_row(&mut self, row: usize, out: &mut String)
        requires
            row >= 1,
            old(self).wf(),
        ensures
            *final(self) == (Cursor { row, ..*old(self) }),
            final(self).wf(),
            final(out)@ == old(out)@ + term::csi_jump(row as nat, old(self).col as nat),
    {
        let col = self.col;
        self.jump(row, col, out);
    }

    /// Moves to an absolute column, keeping the row.
    pub fn jump_to_col(&mut self, col: usize, out: &mut String)
        requires
            col >= 1,
            old(self).wf(),
        ensures
            *final(self) == (Cursor { col, ..*old(self) }),
            final(self).wf(),
            final(out)@ == old(out)@ + term::csi_jump(old(self).row as nat, col as nat),
    {
        let row = self.row;
        self.jump(row, col, out);
    }

    /// Records the new visibility and appends the show or hide sequence
    /// to `out`.
    pub fn set_visibility(&mut self, visible: bool, out: &mut String)
        ensures
            *final(self) == (Cursor { visible, ..*old(self) }),
            final(out)@ == old(out)@ + term::csi_visibility(visible),
    {
        self.visible = visible;
        term::push_visibility(out, visible);
    }

    /// Records the glyph style; it reaches the terminal on the next
    /// `render`.
    pub fn set_style(&mut self, style: CursorStyle)
        ensures
            *final(self) == (Cursor { style, ..*old(self) }),
    {
        self.style = style;
    }

    /// Re-emits position, style and visibility, in that order.  The
    /// cursor itself is left as it is, so calling this every frame is
    /// harmless.
    pub fn render(&self, out: &mut String)
        ensures
            final(out)@ == old(out)@ + self.render_seq(),
    {
        term::push_jump(out, self.row, self.col);
        term::push_style_code(out, self.style.value());
        term::push_visibility(out, self.visible);
        assert(out@ =~= old(out)@ + self.render_seq());
    }
}

impl Default for Cursor {
    /// The cursor every fresh buffer starts with: top-left cell,
    /// visible, steady block glyph.
    fn default() -> (c: Cursor)
        ensures
            c == (Cursor { row: 1, col: 1, visible: true, style: CursorStyle::SteadyBlock }),
            c.wf(),
    {
        Cursor { row: 1, col: 1, visible: true, style: CursorStyle::SteadyBlock }
    }
}

/// The cursor that a whole sequence of moves produces, applied first to
/// last.
pub open spec fn apply_moves(c: Cursor, moves: Seq<(Direction, usize)>) -> Cursor
    decreases moves.len(),
{
    if moves.len() == 0 {
        c
    } else {
        apply_moves(c.spec_moved(moves[0].0, moves[0].1), moves.drop_first())
    }
}

/// However many moves are applied, a cursor that starts at or above the
/// floor of 1 never falls below it: every decrement clamps and every
/// increment saturates, so no sequence of `move_by` calls underflows.
pub proof fn lemma_moves_never_underflow(c: Cursor, moves: Seq<(Direction, usize)>)
    requires
        c.wf(),
    ensures
        apply_moves(c, moves).wf(),
    decreases moves.len(),
{
    if moves.len() > 0 {
        lemma_moves_never_underflow(c.spec_moved(moves[0].0, moves[0].1), moves.drop_first());
    }
}

/// `n + 1`, saturating at the machine's largest value.
pub open spec fn sat_inc(n: nat) -> usize {
    if n < usize::MAX {
        (n + 1) as usize
    } else {
        usize::MAX
    }
}

/// The mathematical content of a [`Buffer`]: its lines as sequences of
/// characters, its two cursors, and its backing path.
pub ghost struct BufferView {
    pub lines: Seq<Seq<char>>,
    pub cursor: Cursor,
    pub paint_cursor: Cursor,
    pub path: Option<Seq<char>>,
}

impl BufferView {
    /// A buffer always holds at least one line, both cursors respect
    /// their floor of 1, and the paint cursor stays invisible.
    pub open spec fn wf(self) -> bool {
        &&& self.lines.len() >= 1
        &&& self.cursor.wf()
        &&& self.paint_cursor.wf()
        &&& !self.paint_cursor.visible
    }

    /// The editing cursor's row resolves to a line.
    pub open spec fn row_in_range(self) -> bool {
        1 <= self.cursor.row <= self.lines.len()
    }

    /// The line under the editing cursor.
    pub open spec fn current_line(self) -> Seq<char> {
        self.lines[self.cursor.row - 1]
    }

    /// The length of the line under the editing cursor, or 0 when the
    /// row resolves to no line.
    pub open spec fn current_line_len(self) -> nat {
        if self.row_in_range() {
            self.current_line().len()
        } else {
            0
        }
    }

    /// The cursor's column is a valid insertion point in the current
    /// line: at most one past its last character.
    pub open spec fn can_insert_at_cursor(self) -> bool {
        self.row_in_range() ==> self.cursor.col <= self.current_line().len() + 1
    }

    /// A freshly created buffer: one empty line, the default editing
    /// cursor, an invisible paint cursor, no backing path.
    pub open spec fn init() -> BufferView {
        BufferView {
            lines: seq![Seq::empty()],
            cursor: Cursor { row: 1, col: 1, visible: true, style: CursorStyle::SteadyBlock },
            paint_cursor: Cursor {
                row: 1,
                col: 1,
                visible: false,
                style: CursorStyle::SteadyBlock,
            },
            path: None,
        }
    }

    /// Inserting `c` before the cursor's column: the current line grows
    /// by one character and the cursor steps right.  A row that resolves
    /// to no line appends the character as a brand-new line instead.
    pub open spec fn with_inserted_char(self, c: char) -> BufferView {
        let moved = self.cursor.spec_moved(Direction::Right, 1);
        if self.row_in_range() {
            BufferView {
                lines: self.lines.update(
                    self.cursor.row - 1,
                    self.current_line().insert(self.cursor.col - 1, c),
                ),
                cursor: moved,
                ..self
            }
        } else {
            BufferView { lines: self.lines.push(seq![c]), cursor: moved, ..self }
        }
    }

    /// Backspace.  A nonempty current line loses its last character and
    /// a column above 1 steps left; an empty current line that is not
    /// the first is deleted, with the cursor landing one past the end of
    /// the previous line.  Everything else is left alone.
    pub open spec fn with_removed_char(self) -> BufferView {
        if self.row_in_range() {
            if self.current_line().len() > 0 {
                BufferView {
                    lines: self.lines.update(self.cursor.row - 1, self.current_line().drop_last()),
                    cursor: Cursor {
                        col: if self.cursor.col > 1 {
                            (self.cursor.col - 1) as usize
                        } else {
                            self.cursor.col
                        },
                        ..self.cursor
                    },
                    ..self
                }
            } else if self.cursor.row > 1 {
                BufferView {
                    lines: self.lines.remove(self.cursor.row - 1),
                    cursor: Cursor {
                        row: (self.cursor.row - 1) as usize,
                        col: sat_inc(self.lines[self.cursor.row - 2].len()),
                        ..self.cursor
                    },
                    ..self
                }
            } else {
                self
            }
        } else {
            self
        }
    }

    /// A new empty line appended at the end (not a split of the current
    /// line), with the cursor on column 1 of the new last row.
    pub open spec fn with_new_line(self) -> BufferView {
        BufferView {
            lines: self.lines.push(Seq::empty()),
            cursor: Cursor { row: sat_inc(self.lines.len()), col: 1, ..self.cursor },
            ..self
        }
    }

    /// A block of text spliced into the current line at the cursor's
    /// column, or appended as a brand-new line when the row resolves to
    /// no line.  The cursor stays put.
    pub open spec fn with_inserted_text(self, t: Seq<char>) -> BufferView {
        if self.row_in_range() {
            let line = self.current_line();
            BufferView {
                lines: self.lines.update(
                    self.cursor.row - 1,
                    line.subrange(0, self.cursor.col as int) + t + line.subrange(
                        self.cursor.col as int,
                        line.len() as int,
                    ),
                ),
                ..self
            }
        } else {
            BufferView { lines: self.lines.push(t), ..self }
        }
    }
}

/// One in-memory text document: its lines in display order, the editing
/// cursor the user sees, an always-invisible paint cursor that drives
/// repainting, and the path the document is persisted to, if any.
#[derive(Clone)]
pub struct Buffer {
    pub lines: Vec<String>,
    pub cursor: Cursor,
    pub paint_cursor: Cursor,
    pub path: Option<String>,
}

impl View for Buffer {
    type V = BufferView;

    open spec fn view(&self) -> BufferView {
        BufferView {
            lines: self.lines.deep_view(),
            cursor: self.cursor,
            paint_cursor: self.paint_cursor,
            path: self.path.deep_view(),
        }
    }
}

impl DeepView for Buffer {
    type V = BufferView;

    open spec fn deep_view(&self) -> BufferView {
        self@
    }
}

impl Default for Buffer {
    /// A fresh document: exactly one empty line, cursor at (1, 1).
    fn default() -> (b: Buffer)
        ensures
            b@ == BufferView::init(),
            b@.wf(),
    {
        let mut lines: Vec<String> = Vec::new();
        lines.push(String::new());
        let b = Buffer {
            lines,
            cursor: Cursor::default(),
            paint_cursor: Cursor { row: 1, col: 1, visible: false, style: CursorStyle::SteadyBlock },
            path: None,
        };
        proof {
            assert(b@.lines =~= seq![Seq::<char>::empty()]);
        }
        b
    }
}

/// The lines a loaded text yields: its newline-delimited segments, or a
/// single empty line when the text has none, so that a buffer is never
/// empty.
pub open spec fn loaded_lines(text: Seq<char>) -> Seq<Seq<char>> {
    if text::split_lines(text).len() == 0 {
        seq![Seq::<char>::empty()]
    } else {
        text::split_lines(text)
    }
}

impl Buffer {
    /// The buffer's invariant: at least one line, cursors at or above
    /// their floors, paint cursor invisible.
    pub open spec fn wf(self) -> bool {
        self@.wf()
    }

    /// A document loaded from text: one line per newline-delimited
    /// segment (at least one line), everything else as in a fresh
    /// document.
    pub fn from_text(text: String) -> (b: Buffer)
        ensures
            b@ == (BufferView { lines: loaded_lines(text@), ..BufferView::init() }),
            b@.wf(),
    {
        let mut lines = text::text_to_lines(text.as_str());
        if lines.is_empty() {
            lines.push(String::new());
            proof {
                assert(lines.deep_view() =~= seq![Seq::<char>::empty()]);
            }
        }
        Buffer {
            lines,
            cursor: Cursor::default(),
            paint_cursor: Cursor { row: 1, col: 1, visible: false, style: CursorStyle::SteadyBlock },
            path: None,
        }
    }

    /// Inserts `c` before the cursor's column in the current line
    /// (column minus 1 is the zero-based offset) and advances the cursor
    /// one column right.  When the cursor's row resolves to no line, the
    /// character is appended as a brand-new line instead of failing.
    pub fn insert_char(&mut self, c: char)
        requires
            old(self).wf(),
            old(self)@.can_insert_at_cursor(),
        ensures
            final(self)@ == old(self)@.with_inserted_char(c),
            final(self).wf(),
            old(self)@.row_in_range() ==> final(self)@.current_line_len() == old(
                self,
            )@.current_line_len() + 1,
            old(self)@.row_in_range() ==> final(self)@.lines[old(self)@.cursor.row - 1][old(
                self,
            )@.cursor.col - 1] == c,
            old(self)@.cursor.col < usize::MAX ==> final(self)@.cursor.col == old(
                self,
            )@.cursor.col + 1,
    {
        let row = self.cursor.row;
        let col = self.cursor.col;
        if row <= self.lines.len() {
            let idx = row - 1;
            let new_line = text::insert_char_at(self.lines[idx].as_str(), col - 1, c);
            let slot = &mut self.lines[idx];
            *slot = new_line;
            proof {
                assert(self.lines.deep_view() =~= old(self)@.lines.update(
                    old(self)@.cursor.row - 1,
                    old(self)@.current_line().insert(old(self)@.cursor.col - 1, c),
                ));
            }
        } else {
            let mut s = String::new();
            term::push_char(&mut s, c);
            self.lines.push(s);
            proof {
                assert(self.lines.deep_view() =~= old(self)@.lines.push(seq![c]));
            }
        }
        self.cursor.move_by(Direction::Right, 1);
    }

    /// Backspace.  A nonempty current line always loses its trailing
    /// character (whatever the column), and a column above 1 steps left.
    /// An empty current line that is not the first line is deleted, and
    /// the cursor lands one past the end of the previous line.  An empty
    /// first line, or a row that resolves to no line, is left alone.
    pub fn remove_char(&mut self)
        requires
            old(self).wf(),
        ensures
            final(self)@ == old(self)@.with_removed_char(),
            final(self).wf(),
            old(self)@.row_in_range() && old(self)@.current_line().len() > 0 ==> {
                &&& final(self)@.current_line() == old(self)@.current_line().drop_last()
                &&& final(self)@.current_line_len() == old(self)@.current_line_len() - 1
                &&& (old(self)@.cursor.col > 1 ==> final(self)@.cursor.col == old(
                    self,
                )@.cursor.col - 1)
            },
            old(self)@.row_in_range() && old(self)@.current_line().len() == 0 && old(
                self,
            )@.cursor.row > 1 ==> {
                &&& final(self)@.lines == old(self)@.lines.remove(old(self)@.cursor.row - 1)
                &&& final(self)@.cursor.row == old(self)@.cursor.row - 1
                &&& final(self)@.cursor.col == sat_inc(
                    old(self)@.lines[old(self)@.cursor.row - 2].len(),
                )
            },
    {
        let row = self.cursor.row;
        if row <= self.lines.len() {
            let idx = row - 1;
            let cur_len = text::line_len(&self.lines[idx]);
            if cur_len > 0 {
                let new_line = text::drop_last_char(self.lines[idx].as_str());
                let slot = &mut self.lines[idx];
                *slot = new_line;
                proof {
                    assert(self.lines.deep_view() =~= old(self)@.lines.update(
                        old(self)@.cursor.row - 1,
                        old(self)@.current_line().drop_last(),
                    ));
                }
                if self.cursor.col > 1 {
                    self.cursor.col = self.cursor.col - 1;
                }
            } else if row > 1 {
                let _removed = self.lines.remove(idx);
                proof {
                    assert(self.lines.deep_view() =~= old(self)@.lines.remove(
                        old(self)@.cursor.row - 1,
                    ));
                }
                let prev_len = text::line_len(&self.lines[idx - 1]);
                self.cursor.row = row - 1;
                self.cursor.col = prev_len.saturating_add(1);
            }
        }
    }

    /// Appends a new empty line at the end of the document (never a
    /// split of the current line, whatever the column) and puts the
    /// cursor on column 1 of the new last row.
    pub fn new_line(&mut self)
        requires
            old(self).wf(),
        ensures
            final(self)@ == old(self)@.with_new_line(),
            final(self).wf(),
            final(self)@.lines.len() == old(self)@.lines.len() + 1,
            final(self)@.cursor.row == final(self)@.lines.len(),
            final(self)@.cursor.col == 1,
    {
        self.lines.push(String::new());
        proof {
            assert(self.lines.deep_view() =~= old(self)@.lines.push(Seq::<char>::empty()));
        }
        let row = self.lines.len();
        self.cursor.row = row;
        self.cursor.col = 1;
    }

    /// Splices a block of text into the current line at the cursor's
    /// column, or appends it as a brand-new line when the row resolves
    /// to no line.  The cursor stays put.
    pub fn insert_text(&mut self, text: String)
        requires
            old(self).wf(),
            old(self)@.row_in_range() ==> old(self)@.cursor.col <= old(
                self,
            )@.current_line().len(),
        ensures
            final(self)@ == old(self)@.with_inserted_text(text@),
            final(self).wf(),
    {
        let row = self.cursor.row;
        let col = self.cursor.col;
        if row <= self.lines.len() {
            let idx = row - 1;
            let new_line = text::insert_str_at(self.lines[idx].as_str(), col, text.as_str());
            let slot = &mut self.lines[idx];
            *slot = new_line;
            proof {
                assert(self.lines.deep_view() =~= old(self)@.with_inserted_text(text@).lines);
            }
        } else {
            self.lines.push(text);
            proof {
                assert(self.lines.deep_view() =~= old(self)@.with_inserted_text(text@).lines);
            }
        }
    }

    /// The line under the cursor, or nothing when the cursor's row is
    /// beyond the document.
    pub fn get_current_row(&self) -> (r: Option<&String>)
        requires
            self.wf(),
        ensures
            match r {
                Some(line) => self@.row_in_range() && line@ == self@.current_line(),
                None => !self@.row_in_range(),
            },
    {
        let row = self.cursor.row;
        if row <= self.lines.len() {
            Some(&self.lines[row - 1])
        } else {
            None
        }
    }

    /// Mutable access to the line under the cursor, or nothing when the
    /// cursor's row is beyond the document (the buffer is then left
    /// untouched).
    pub fn get_current_row_mut(&mut self) -> (r: Option<&mut String>)
        requires
            old(self).wf(),
        ensures
            match r {
                Some(line) => {
                    &&& old(self)@.row_in_range()
                    &&& line@ == old(self)@.current_line()
                    &&& final(self).lines@ == old(self).lines@.update(
                        old(self).cursor.row - 1,
                        *final(line),
                    )
                    &&& final(self).cursor == old(self).cursor
                    &&& final(self).paint_cursor == old(self).paint_cursor
                    &&& final(self).path == old(self).path
                },
                None => !old(self)@.row_in_range() && *final(self) == *old(self),
            },
    {
        let row = self.cursor.row;
        if row <= self.lines.len() {
            Some(&mut self.lines[row - 1])
        } else {
            None
        }
    }

    /// Records a new glyph style for the editing cursor.
    pub fn set_cursor_style(&mut self, style: CursorStyle)
        ensures
            final(self)@ == (BufferView {
                cursor: Cursor { style, ..old(self)@.cursor },
                ..old(self)@
            }),
    {
        self.cursor.set_style(style);
    }

    /// The document's persisted form: every line followed by a newline.
    pub fn to_text(&self) -> (r: String)
        ensures
            r@ == text::join_lines(self@.lines),
    {
        text::lines_to_text(&self.lines)
    }
}

} // verus!
