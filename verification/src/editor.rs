//! The controller: a collection of buffers, the index of the active
//! one, and the Normal/Insert key state machine.
//!
//! [`Editor::handle_key`] is one step of that machine: it mutates the
//! active buffer exactly as the transition table in [`EditorView::stepped`]
//! says and reports what the caller still has to do — keep going, quit,
//! or persist the active buffer.  The blocking read-dispatch-repaint
//! loop around it belongs to the caller, since reading keys, writing
//! files and flushing a terminal are not this crate's business.

use vstd::prelude::*;

use crate::screen::frame_seq;
use crate::screen::Screen;
use crate::text;
use crate::Buffer;
use crate::BufferView;
use crate::Cursor;
use crate::CursorStyle;
use crate::Direction;

verus! {

/// The two input modes: Normal navigates and commands, Insert types.
#[derive(Clone, Copy, Debug, PartialEq, Eq, Structural)]
pub enum Mode {
    Normal,
    Insert,
}

/// One decoded key press, as the state machine sees it.
#[derive(Clone, Copy, Debug, PartialEq, Eq, Structural)]
pub enum Key {
    Esc,
    Left,
    Right,
    Up,
    Down,
    Backspace,
    Enter,
    Tab,
    Char(char),
}

/// What the caller must do after a key is handled: nothing beyond the
/// usual repaint, stop the run loop, or write `content` to `path`.
pub enum EditorAction {
    Continue,
    Quit,
    Save { path: String, content: String },
}

/// The mathematical content of an [`EditorAction`].
pub ghost enum ActionView {
    Continue,
    Quit,
    Save(Seq<char>, Seq<char>),
}

impl View for EditorAction {
    type V = ActionView;

    open spec fn view(&self) -> ActionView {
        match self {
            EditorAction::Continue => ActionView::Continue,
            EditorAction::Quit => ActionView::Quit,
            EditorAction::Save { path, content } => ActionView::Save(path@, content@),
        }
    }
}

/// The mathematical content of an [`Editor`].
pub ghost struct EditorView {
    pub screen: Screen,
    pub buffers: Seq<BufferView>,
    pub current_buffer_index: usize,
    pub mode: Mode,
}

impl EditorView {
    /// The active index resolves to a buffer and every buffer keeps its
    /// own invariant.
    pub open spec fn wf(self) -> bool {
        &&& self.current_buffer_index < self.buffers.len()
        &&& forall|i: int| 0 <= i < self.buffers.len() ==> (#[trigger] self.buffers[i]).wf()
    }

    /// The buffer all key handling acts on.
    pub open spec fn active(self) -> BufferView {
        self.buffers[self.current_buffer_index as int]
    }

    /// This editor with the active buffer replaced.
    pub open spec fn with_active(self, b: BufferView) -> EditorView {
        EditorView { buffers: self.buffers.update(self.current_buffer_index as int, b), ..self }
    }

    /// This editor with only the active buffer's editing cursor
    /// replaced.
    pub open spec fn with_active_cursor(self, c: Cursor) -> EditorView {
        self.with_active(BufferView { cursor: c, ..self.active() })
    }

    /// This editor after switching mode, with the active buffer's caret
    /// restyled so the glyph communicates the new mode.
    pub open spec fn with_mode(self, mode: Mode, style: CursorStyle) -> EditorView {
        EditorView {
            mode,
            ..self.with_active_cursor(Cursor { style, ..self.active().cursor })
        }
    }

    /// One navigation step of the active cursor.  Left and up always
    /// move (clamping at 1); right moves only while the column is below
    /// the current line's length, and down only while the row is above a
    /// further line.
    pub open spec fn navigated(self, direction: Direction) -> EditorView {
        let c = self.active().cursor;
        match direction {
            Direction::Left => self.with_active_cursor(c.spec_moved(Direction::Left, 1)),
            Direction::Up => self.with_active_cursor(c.spec_moved(Direction::Up, 1)),
            Direction::Right => {
                if (c.col as nat) < self.active().current_line_len() {
                    self.with_active_cursor(c.spec_moved(Direction::Right, 1))
                } else {
                    self
                }
            },
            Direction::Down => {
                if (c.row as nat) < self.active().lines.len() {
                    self.with_active_cursor(c.spec_moved(Direction::Down, 1))
                } else {
                    self
                }
            },
        }
    }

    /// The transition table for Normal mode: Esc quits (no state
    /// change), arrows and h/l/j/k navigate, `i` enters Insert with a
    /// bar caret, Tab persists, every other key is reserved and does
    /// nothing.
    pub open spec fn stepped_normal(self, key: Key) -> EditorView {
        match key {
            Key::Esc => self,
            Key::Left => self.navigated(Direction::Left),
            Key::Right => self.navigated(Direction::Right),
            Key::Up => self.navigated(Direction::Up),
            Key::Down => self.navigated(Direction::Down),
            Key::Backspace => self,
            Key::Enter => self,
            Key::Tab => self,
            Key::Char(c) => {
                if c == 'h' {
                    self.navigated(Direction::Left)
                } else if c == 'l' {
                    self.navigated(Direction::Right)
                } else if c == 'j' {
                    self.navigated(Direction::Down)
                } else if c == 'k' {
                    self.navigated(Direction::Up)
                } else if c == 'i' {
                    self.with_mode(Mode::Insert, CursorStyle::SteadyBar)
                } else {
                    self
                }
            },
        }
    }

    /// The transition table for Insert mode: Esc returns to Normal with
    /// a block caret, arrows navigate under the same bounds as Normal,
    /// Backspace removes, Enter opens a line, and a printable character
    /// is inserted at the cursor.
    pub open spec fn stepped_insert(self, key: Key) -> EditorView {
        match key {
            Key::Esc => self.with_mode(Mode::Normal, CursorStyle::SteadyBlock),
            Key::Left => self.navigated(Direction::Left),
            Key::Right => self.navigated(Direction::Right),
            Key::Up => self.navigated(Direction::Up),
            Key::Down => self.navigated(Direction::Down),
            Key::Backspace => self.with_active(self.active().with_removed_char()),
            Key::Enter => self.with_active(self.active().with_new_line()),
            Key::Tab => self,
            Key::Char(c) => self.with_active(self.active().with_inserted_char(c)),
        }
    }

    /// One step of the whole state machine.
    pub open spec fn stepped(self, key: Key) -> EditorView {
        match self.mode {
            Mode::Normal => self.stepped_normal(key),
            Mode::Insert => self.stepped_insert(key),
        }
    }

    /// What the caller must do for this key: quit on Esc in Normal mode,
    /// persist the active buffer on Tab in Normal mode when it has a
    /// path, otherwise just carry on.
    pub open spec fn action_for(self, key: Key) -> ActionView {
        match (self.mode, key) {
            (Mode::Normal, Key::Esc) => ActionView::Quit,
            (Mode::Normal, Key::Tab) => match self.active().path {
                Some(p) => ActionView::Save(p, text::join_lines(self.active().lines)),
                None => ActionView::Continue,
            },
            _ => ActionView::Continue,
        }
    }
}

/// The controller: every open buffer, the index of the active one, the
/// screen it paints to, and the current input mode.
pub struct Editor {
    pub screen: Screen,
    pub buffers: Vec<Buffer>,
    pub current_buffer_index: usize,
    pub mode: Mode,
}

impl View for Editor {
    type V = EditorView;

    open spec fn view(&self) -> EditorView {
        EditorView {
            screen: self.screen,
            buffers: self.buffers.deep_view(),
            current_buffer_index: self.current_buffer_index,
            mode: self.mode,
        }
    }
}

impl Editor {
    /// The controller's invariant.
    pub open spec fn wf(self) -> bool {
        self@.wf()
    }

    /// A fresh editor over a screen of the given dimensions: one default
    /// buffer, which is active, in Normal mode.
    pub fn new(width: u16, height: u16) -> (e: Editor)
        ensures
            e@ == (EditorView {
                screen: Screen { width, height },
                buffers: seq![BufferView::init()],
                current_buffer_index: 0,
                mode: Mode::Normal,
            }),
            e.wf(),
    {
        let mut buffers: Vec<Buffer> = Vec::new();
        buffers.push(Buffer::default());
        let e = Editor {
            screen: Screen::new(width, height),
            buffers,
            current_buffer_index: 0,
            mode: Mode::Normal,
        };
        proof {
            assert(e@.buffers =~= seq![BufferView::init()]);
        }
        e
    }

    /// The screen the editor paints to.
    pub fn get_screen(&self) -> (r: &Screen)
        ensures
            *r == self.screen,
    {
        &self.screen
    }

    /// Mutable access to the screen; the rest of the editor is
    /// untouched.
    pub fn get_screen_mut(&mut self) -> (r: &mut Screen)
        ensures
            *r == old(self).screen,
            final(self).screen == *final(r),
            final(self).buffers == old(self).buffers,
            final(self).current_buffer_index == old(self).current_buffer_index,
            final(self).mode == old(self).mode,
    {
        &mut self.screen
    }

    /// Every open buffer, in the order they were added.
    pub fn get_buffers(&self) -> (r: &Vec<Buffer>)
        ensures
            *r == self.buffers,
    {
        &self.buffers
    }

    /// Opens a fresh default buffer at the end of the collection and
    /// hands it back.  The active index does not change.
    pub fn add_buffer(&mut self) -> (r: &Buffer)
        ensures
            final(self)@ == (EditorView {
                buffers: old(self)@.buffers.push(BufferView::init()),
                ..old(self)@
            }),
            r@ == BufferView::init(),
            old(self).wf() ==> final(self).wf(),
    {
        self.buffers.push(Buffer::default());
        proof {
            assert(self@.buffers =~= old(self)@.buffers.push(BufferView::init()));
        }
        let n = self.buffers.len();
        &self.buffers[n - 1]
    }

    /// Adds an existing buffer at the end of the collection and hands it
    /// back.  The active index does not change.
    pub fn add_buffer_from(&mut self, buffer: Buffer) -> (r: &Buffer)
        ensures
            final(self)@ == (EditorView {
                buffers: old(self)@.buffers.push(buffer@),
                ..old(self)@
            }),
            *r == buffer,
            old(self).wf() && buffer.wf() ==> final(self).wf(),
    {
        self.buffers.push(buffer);
        proof {
            assert(self@.buffers =~= old(self)@.buffers.push(self.buffers@[self.buffers@.len()
                - 1]@));
        }
        let n = self.buffers.len();
        &self.buffers[n - 1]
    }

    /// Loads text into a new buffer at the end of the collection: one
    /// line per newline-delimited segment, at least one line.
    pub fn add_buffer_from_text(&mut self, text: String) -> (r: &Buffer)
        ensures
            final(self)@ == (EditorView {
                buffers: old(self)@.buffers.push(
                    BufferView { lines: crate::loaded_lines(text@), ..BufferView::init() },
                ),
                ..old(self)@
            }),
            r@ == (BufferView { lines: crate::loaded_lines(text@), ..BufferView::init() }),
            old(self).wf() ==> final(self).wf(),
    {
        let buffer = Buffer::from_text(text);
        self.add_buffer_from(buffer)
    }

    /// The active buffer, or nothing when the active index resolves to
    /// no buffer.
    pub fn get_current_buffer(&self) -> (r: Option<&Buffer>)
        ensures
            match r {
                Some(b) => self.current_buffer_index < self.buffers.len() && *b == self.buffers[
                    self.current_buffer_index as int
                ],
                None => self.current_buffer_index >= self.buffers.len(),
            },
    {
        if self.current_buffer_index < self.buffers.len() {
            Some(&self.buffers[self.current_buffer_index])
        } else {
            None
        }
    }

    /// Mutable access to the active buffer, or nothing when the active
    /// index resolves to no buffer (in which case the editor is
    /// untouched).
    pub fn get_current_buffer_mut(&mut self) -> (r: Option<&mut Buffer>)
        ensures
            match r {
                Some(b) => {
                    &&& old(self).current_buffer_index < old(self).buffers.len()
                    &&& *b == old(self).buffers[old(self).current_buffer_index as int]
                    &&& final(self).buffers@ == old(self).buffers@.update(
                        old(self).current_buffer_index as int,
                        *final(b),
                    )
                    &&& final(self).screen == old(self).screen
                    &&& final(self).current_buffer_index == old(self).current_buffer_index
                    &&& final(self).mode == old(self).mode
                },
                None => {
                    &&& old(self).current_buffer_index >= old(self).buffers.len()
                    &&& *final(self) == *old(self)
                },
            },
    {
        let idx = self.current_buffer_index;
        if idx < self.buffers.len() {
            Some(&mut self.buffers[idx])
        } else {
            None
        }
    }

    /// Removes and returns the buffer at `index`, or nothing when the
    /// index resolves to no buffer.  The active index does not change,
    /// so removing a buffer at or before it shifts which buffer is
    /// active.
    pub fn remove_buffer(&mut self, index: usize) -> (r: Option<Buffer>)
        ensures
            match r {
                Some(b) => {
                    &&& index < old(self).buffers.len()
                    &&& b == old(self).buffers[index as int]
                    &&& final(self)@ == (EditorView {
                        buffers: old(self)@.buffers.remove(index as int),
                        ..old(self)@
                    })
                },
                None => {
                    &&& index >= old(self).buffers.len()
                    &&& *final(self) == *old(self)
                },
            },
    {
        if index < self.buffers.len() {
            let b = self.buffers.remove(index);
            proof {
                assert(self@.buffers =~= old(self)@.buffers.remove(index as int));
            }
            Some(b)
        } else {
            None
        }
    }

    /// Repaints the active buffer as one frame appended to `out`; with
    /// no active buffer nothing is emitted.
    pub fn draw_current_buffer(&mut self, out: &mut String)
        requires
            old(self).wf(),
        ensures
            final(self).wf(),
            final(out)@ == old(out)@ + frame_seq(old(self)@.active()),
            final(self)@ == old(self)@.with_active(
                BufferView {
                    paint_cursor: Cursor {
                        row: old(self)@.active().lines.len() as usize,
                        col: 1,
                        ..old(self)@.active().paint_cursor
                    },
                    ..old(self)@.active()
                },
            ),
    {
        let idx = self.current_buffer_index;
        let buffer = &mut self.buffers[idx];
        self.screen.draw_buffer(buffer, out);
        proof {
            assert(self@.buffers =~= old(self)@.buffers.update(
                old(self)@.current_buffer_index as int,
                self.buffers@[idx as int]@,
            ));
        }
    }

    /// One navigation step of the active cursor, with the bounds checks
    /// of [`EditorView::navigated`]: right stops at the current line's
    /// length, down at the last line, left and up at 1.
    fn navigate(&mut self, direction: Direction)
        requires
            old(self).wf(),
        ensures
            final(self)@ == old(self)@.navigated(direction),
            final(self).wf(),
    {
        let idx = self.current_buffer_index;
        let allowed: bool = match direction {
            Direction::Left => true,
            Direction::Up => true,
            Direction::Right => {
                let b = &self.buffers[idx];
                b.cursor.row <= b.lines.len() && b.cursor.col < text::line_len(
                    &b.lines[b.cursor.row - 1],
                )
            },
            Direction::Down => {
                let b = &self.buffers[idx];
                b.cursor.row < b.lines.len()
            },
        };
        if allowed {
            let b = &mut self.buffers[idx];
            b.cursor.move_by(direction, 1);
            proof {
                assert(self@.buffers =~= old(self)@.navigated(direction).buffers);
            }
        } else {
            proof {
                assert(self@.buffers =~= old(self)@.navigated(direction).buffers);
            }
        }
    }

    /// Switches mode and restyles the active caret so its glyph
    /// communicates the mode.
    fn switch_mode(&mut self, mode: Mode, style: CursorStyle)
        requires
            old(self).wf(),
        ensures
            final(self)@ == old(self)@.with_mode(mode, style),
            final(self).wf(),
    {
        let idx = self.current_buffer_index;
        let b = &mut self.buffers[idx];
        b.cursor.set_style(style);
        self.mode = mode;
        proof {
            assert(self@.buffers =~= old(self)@.with_mode(mode, style).buffers);
        }
    }

    /// Handles one key press: mutates the active buffer as the current
    /// mode's transition table says, and reports whether the caller
    /// should carry on, quit, or persist the active buffer to its path.
    /// The caller repaints after every handled key.
    pub fn handle_key(&mut self, key: Key) -> (r: EditorAction)
        requires
            old(self).wf(),
            old(self)@.mode is Insert && key is Char ==> old(
                self,
            )@.active().can_insert_at_cursor(),
        ensures
            final(self)@ == old(self)@.stepped(key),
            final(self).wf(),
            r@ == old(self)@.action_for(key),
    {
        let idx = self.current_buffer_index;
        match self.mode {
            Mode::Normal => {
                match key {
                    Key::Esc => EditorAction::Quit,
                    Key::Left => {
                        self.navigate(Direction::Left);
                        EditorAction::Continue
                    },
                    Key::Right => {
                        self.navigate(Direction::Right);
                        EditorAction::Continue
                    },
                    Key::Up => {
                        self.navigate(Direction::Up);
                        EditorAction::Continue
                    },
                    Key::Down => {
                        self.navigate(Direction::Down);
                        EditorAction::Continue
                    },
                    Key::Tab => {
                        let b = &self.buffers[idx];
                        match &b.path {
                            Some(p) => {
                                let path = p.clone();
                                let content = text::lines_to_text(&b.lines);
                                EditorAction::Save { path, content }
                            },
                            None => EditorAction::Continue,
                        }
                    },
                    Key::Char(c) => {
                        if c == 'h' {
                            self.navigate(Direction::Left);
                        } else if c == 'l' {
                            self.navigate(Direction::Right);
                        } else if c == 'j' {
                            self.navigate(Direction::Down);
                        } else if c == 'k' {
                            self.navigate(Direction::Up);
                        } else if c == 'i' {
                            self.switch_mode(Mode::Insert, CursorStyle::SteadyBar);
                        }
                        EditorAction::Continue
                    },
                    Key::Backspace => EditorAction::Continue,
                    Key::Enter => EditorAction::Continue,
                }
            },
            Mode::Insert => {
                match key {
                    Key::Esc => {
                        self.switch_mode(Mode::Normal, CursorStyle::SteadyBlock);
                        EditorAction::Continue
                    },
                    Key::Left => {
                        self.navigate(Direction::Left);
                        EditorAction::Continue
                    },
                    Key::Right => {
                        self.navigate(Direction::Right);
                        EditorAction::Continue
                    },
                    Key::Up => {
                        self.navigate(Direction::Up);
                        EditorAction::Continue
                    },
                    Key::Down => {
                        self.navigate(Direction::Down);
                        EditorAction::Continue
                    },
                    Key::Backspace => {
                        let b = &mut self.buffers[idx];
                        b.remove_char();
                        proof {
                            assert(self@.buffers =~= old(self)@.stepped(key).buffers);
                        }
                        EditorAction::Continue
                    },
                    Key::Enter => {
                        let b = &mut self.buffers[idx];
                        b.new_line();
                        proof {
                            assert(self@.buffers =~= old(self)@.stepped(key).buffers);
                        }
                        EditorAction::Continue
                    },
                    Key::Tab => EditorAction::Continue,
                    Key::Char(c) => {
                        let b = &mut self.buffers[idx];
                        b.insert_char(c);
                        proof {
                            assert(self@.buffers =~= old(self)@.stepped(key).buffers);
                        }
                        EditorAction::Continue
                    },
                }
            },
        }
    }
}

} // verus!
