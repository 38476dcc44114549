//! Repainting a buffer as one frame of terminal output.
//!
//! A frame is a single run of escape sequences and text: erase the
//! visible area, hide and park the paint cursor, write every line at
//! column 1 of its row, and finally restore the editing cursor.  The
//! frame is appended to a `String` sink; delivering it to a terminal and
//! flushing is the caller's business.

use vstd::prelude::*;
use vstd::string::StringExecFns;

use crate::term;
use crate::Buffer;
use crate::BufferView;
use crate::Cursor;

verus! {

/// The output that painting the first `n` lines produces: each line is
/// written after an absolute jump to column 1 of its 1-based row.
pub open spec fn paint_upto(lines: Seq<Seq<char>>, n: int) -> Seq<char>
    decreases n,
{
    if n <= 0 {
        Seq::empty()
    } else {
        paint_upto(lines, n - 1) + term::csi_jump(n as nat, 1) + lines[n - 1]
    }
}

/// One full frame for `b`: erase, the paint cursor's own render (which
/// hides the caret while lines are written), every line in order, and
/// the editing cursor rendered last so it reappears at its true place.
pub open spec fn frame_seq(b: BufferView) -> Seq<char> {
    term::csi_erase() + b.paint_cursor.render_seq() + paint_upto(b.lines, b.lines.len() as int)
        + b.cursor.render_seq()
}

/// The terminal's character grid, by its dimensions.  Painting never
/// clips to them: the terminal itself scrolls or wraps overflow.
#[derive(Clone, Copy, Debug, PartialEq, Eq, Structural)]
pub struct Screen {
    pub width: u16,
    pub height: u16,
}

impl Screen {
    /// A screen of the given dimensions.  Measuring a real terminal is
    /// the caller's business.
    pub fn new(width: u16, height: u16) -> (s: Screen)
        ensures
            s == (Screen { width, height }),
    {
        Screen { width, height }
    }

    /// Appends the erase-frame sequence to `out`.
    pub fn erase(out: &mut String)
        ensures
            final(out)@ == old(out)@ + term::csi_erase(),
    {
        term::push_erase(out);
    }

    /// Appends one full frame for `buffer` to `out`: erase, every line
    /// repainted from the top, the editing cursor restored.  Only the
    /// buffer's paint cursor moves; its lines, editing cursor and path
    /// come through untouched.
    pub fn draw_buffer(&mut self, buffer: &mut Buffer, out: &mut String)
        requires
            old(buffer).wf(),
        ensures
            final(out)@ == old(out)@ + frame_seq(old(buffer)@),
            final(buffer)@ == (BufferView {
                paint_cursor: Cursor {
                    row: old(buffer)@.lines.len() as usize,
                    col: 1,
                    ..old(buffer)@.paint_cursor
                },
                ..old(buffer)@
            }),
            final(buffer).wf(),
            *final(self) == *old(self),
    {
        let ghost out0 = out@;
        let ghost b0 = buffer@;
        term::push_erase(out);
        buffer.paint_cursor.render(out);
        let n = buffer.lines.len();
        for i in 0..n
            invariant
                buffer@.lines == b0.lines,
                buffer@.cursor == b0.cursor,
                buffer@.path == b0.path,
                buffer@.paint_cursor.visible == b0.paint_cursor.visible,
                buffer@.paint_cursor.style == b0.paint_cursor.style,
                buffer@.paint_cursor.wf(),
                n == b0.lines.len(),
                i > 0 ==> buffer@.paint_cursor == (Cursor {
                    row: i as usize,
                    col: 1,
                    ..b0.paint_cursor
                }),
                i == 0 ==> buffer@.paint_cursor == b0.paint_cursor,
                out@ == out0 + term::csi_erase() + b0.paint_cursor.render_seq() + paint_upto(
                    b0.lines,
                    i as int,
                ),
        {
            let row = i + 1;
            buffer.paint_cursor.jump(row, 1, out);
            assert(buffer@.lines[i as int] == buffer.lines@[i as int]@);
            out.append(buffer.lines[i].as_str());
            assert(out@ =~= out0 + term::csi_erase() + b0.paint_cursor.render_seq() + paint_upto(
                b0.lines,
                i + 1 as int,
            ));
        }
        buffer.cursor.render(out);
        assert(out@ =~= out0 + frame_seq(b0));
    }
}

} // verus!
