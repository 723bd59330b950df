//! Text tool: places typed characters on the canvas, with newline,
//! backspace and delete handling.

use vstd::prelude::*;

use crate::svec::char_buffer_view;
use crate::svec::CharBuffer;
use crate::tools::clamp_to_grid;
use crate::tools::raster::coord_ok;
use crate::tools::DrawOp;
use crate::tools::ToolContext;
use crate::tools::ToolId;
use crate::tools::ToolResult;

verus! {

/// True for control characters: the C0 range and the C1 range including
/// delete.
pub open spec fn spec_is_control(c: char) -> bool {
    (c as u32) < 0x20 || (0x7f <= (c as u32) && (c as u32) <= 0x9f)
}

/// The operations that draw a text buffer: one glyph per buffered character,
/// advancing one column per character from the start position.
pub open spec fn spec_text_ops(start: (i32, i32), buffer: Seq<char>) -> Seq<DrawOp> {
    Seq::new(buffer.len(), |i: int| DrawOp::spec_new(start.0 + i, start.1 as int, buffer[i]))
}

/// Text tool: pointer-down commits any staged text and restarts the cursor
/// at the click point; keys edit the buffer. The tool stays active across
/// pointer-up.
pub struct TextTool {
    /// Current cursor position.
    cursor: Option<(i32, i32)>,
    /// Characters typed in the current session.
    buffer: CharBuffer,
    /// Starting position of the staged text.
    start_pos: Option<(i32, i32)>,
}

impl TextTool {
    /// The cursor position, if editing.
    pub closed spec fn spec_cursor(&self) -> Option<(i32, i32)> {
        self.cursor
    }

    /// The staged text start, if editing.
    pub closed spec fn spec_start(&self) -> Option<(i32, i32)> {
        self.start_pos
    }

    /// The staged characters.
    pub closed spec fn spec_buffer(&self) -> Seq<char> {
        char_buffer_view(self.buffer)
    }

    /// Recorded positions stay in the workable coordinate range, the buffer
    /// stays below the point where a staged glyph column would overflow a
    /// machine integer, and a cursor exists exactly while a start position
    /// does.
    pub open spec fn wf(&self) -> bool {
        &&& match self.spec_cursor() {
            Some(p) => coord_ok(p.0 as int) && -0x8000 <= p.1 <= 0x7fff_0000,
            None => true,
        }
        &&& match self.spec_start() {
            Some(p) => coord_ok(p.0 as int) && coord_ok(p.1 as int),
            None => true,
        }
        &&& (self.spec_cursor() is Some) == (self.spec_start() is Some)
        &&& self.spec_buffer().len() <= 0x7fff_0000
    }

    /// Create a new, idle text tool.
    pub fn new() -> (r: Self)
        ensures
            r.spec_cursor() is None,
            r.spec_start() is None,
            r.spec_buffer().len() == 0,
            r.wf(),
    {
        TextTool { cursor: None, buffer: CharBuffer::new(), start_pos: None }
    }

    /// The tool's identifier.
    pub fn id(&self) -> (r: ToolId)
        ensures
            r == ToolId::Text,
    {
        ToolId::Text
    }

    /// The current cursor position.
    pub fn cursor_position(&self) -> (r: Option<(i32, i32)>)
        ensures
            r == self.spec_cursor(),
    {
        self.cursor
    }

    /// Remove the last buffered character, when the cursor stands right of
    /// the start column: the cursor moves back and the vacated cell is
    /// blanked.
    pub fn backspace(&mut self) -> (r: Option<DrawOp>)
        requires
            old(self).wf(),
        ensures
            final(self).wf(),
            final(self).spec_start() == old(self).spec_start(),
            match (old(self).spec_start(), old(self).spec_cursor()) {
                (Some(s), Some(c)) => {
                    if c.0 - s.0 > 0 {
                        &&& final(self).spec_cursor() == Some(((c.0 - 1) as i32, c.1))
                        &&& final(self).spec_buffer() == (
                            if old(self).spec_buffer().len() > 0 {
                                old(self).spec_buffer().drop_last()
                            } else {
                                old(self).spec_buffer()
                            })
                        &&& r == Some(DrawOp::spec_new(c.0 - 1, c.1 as int, ' '))
                    } else {
                        *final(self) == *old(self) && r is None
                    }
                },
                _ => *final(self) == *old(self) && r is None,
            },
    {
        if let (Some(start), Some(cursor)) = (self.start_pos, self.cursor) {
            let relative_pos = cursor.0 - start.0;
            if relative_pos > 0 {
                let _popped = self.buffer.pop();
                let new_x = cursor.0 - 1;
                self.cursor = Some((new_x, cursor.1));
                return Some(DrawOp::new(new_x, cursor.1, ' '));
            }
        }
        None
    }

    /// Remove the buffered character at the cursor position, when one exists
    /// in the buffered range: the cell at the cursor is blanked and the
    /// cursor stays put.
    pub fn delete(&mut self) -> (r: Option<DrawOp>)
        requires
            old(self).wf(),
        ensures
            final(self).wf(),
            final(self).spec_start() == old(self).spec_start(),
            final(self).spec_cursor() == old(self).spec_cursor(),
            match (old(self).spec_start(), old(self).spec_cursor()) {
                (Some(s), Some(c)) => {
                    if 0 <= c.0 - s.0 < old(self).spec_buffer().len() {
                        &&& final(self).spec_buffer() == old(self).spec_buffer().remove(
                            c.0 - s.0,
                        )
                        &&& r == Some(DrawOp::spec_new(c.0 as int, c.1 as int, ' '))
                    } else {
                        final(self).spec_buffer() == old(self).spec_buffer() && r is None
                    }
                },
                _ => final(self).spec_buffer() == old(self).spec_buffer() && r is None,
            },
    {
        if let (Some(cursor), Some(start)) = (self.cursor, self.start_pos) {
            let relative_pos = cursor.0 - start.0;
            let buffer_len = self.buffer.len();
            if relative_pos >= 0 && (relative_pos as usize) < buffer_len {
                let idx = relative_pos as usize;
                self.buffer.remove(idx);
                return Some(DrawOp::new(cursor.0, cursor.1, ' '));
            }
        }
        None
    }

    /// The operations that draw the currently staged text.
    fn get_text_ops(&self) -> (r: Vec<DrawOp>)
        requires
            self.wf(),
        ensures
            r@ == match self.spec_start() {
                Some(s) => spec_text_ops(s, self.spec_buffer()),
                None => Seq::<DrawOp>::empty(),
            },
    {
        let mut ops: Vec<DrawOp> = Vec::new();
        if let Some(start) = self.start_pos {
            let n = self.buffer.len();
            let mut i: usize = 0;
            while i < n
                invariant
                    i <= n,
                    n == self.spec_buffer().len(),
                    self.wf(),
                    self.spec_start() == Some(start),
                    ops@.len() == i,
                    forall|j: int|
                        0 <= j < i ==> ops@[j] == spec_text_ops(start, self.spec_buffer())[j],
                decreases n - i,
            {
                let ch = self.buffer.get(i);
                ops.push(DrawOp::new(start.0 + i as i32, start.1, ch));
                i = i + 1;
            }
            proof {
                assert(ops@ =~= spec_text_ops(start, self.spec_buffer()));
            }
        }
        ops
    }

    /// Commit any staged text as operations, then restart the cursor and the
    /// buffer at the (clamped) click point.
    pub fn on_pointer_down(&mut self, x: i32, y: i32, ctx: &ToolContext) -> (r: ToolResult)
        requires
            old(self).wf(),
            ctx.valid(),
        ensures
            final(self).wf(),
            ({
                let cx = crate::tools::spec_clamp_coord(x as int, ctx.grid_width as int);
                let cy = crate::tools::spec_clamp_coord(y as int, ctx.grid_height as int);
                &&& final(self).spec_cursor() == Some((cx as i32, cy as i32))
                &&& final(self).spec_start() == Some((cx as i32, cy as i32))
                &&& final(self).spec_buffer().len() == 0
                &&& r.ops@ == match old(self).spec_start() {
                    Some(s) => spec_text_ops(s, old(self).spec_buffer()),
                    None => Seq::<DrawOp>::empty(),
                }
                &&& !r.finished
            }),
    {
        let (cx, cy) = clamp_to_grid(x, y, ctx.grid_width, ctx.grid_height);

        let prev_ops = self.get_text_ops();

        self.buffer.clear();
        self.cursor = Some((cx, cy));
        self.start_pos = Some((cx, cy));

        ToolResult::new().with_ops(prev_ops)
    }

    /// The text tool does not respond to drag.
    pub fn on_pointer_move(&mut self, _x: i32, _y: i32, _ctx: &ToolContext) -> (r: ToolResult)
        ensures
            *final(self) == *old(self),
            r.ops@.len() == 0,
            !r.modified,
            !r.finished,
    {
        ToolResult::new()
    }

    /// The text tool stays active after the pointer is released.
    pub fn on_pointer_up(&mut self, _x: i32, _y: i32, _ctx: &ToolContext) -> (r: ToolResult)
        ensures
            *final(self) == *old(self),
            r.ops@.len() == 0,
            !r.modified,
            !r.finished,
    {
        ToolResult::new()
    }

    /// Handle one key: newline moves the cursor to the start column one row
    /// down, backspace and delete edit the buffer, control characters are
    /// ignored, and a printable character is drawn at the cursor and
    /// advances it — unless the cursor or the start column has reached the
    /// grid's last column.
    pub fn on_key(&mut self, ch: char, ctx: &ToolContext) -> (r: ToolResult)
        requires
            old(self).wf(),
            ctx.valid(),
        ensures
            final(self).wf(),
            !r.finished,
            match (old(self).spec_cursor(), old(self).spec_start()) {
                (Some(c), Some(s)) => {
                    if ch == '\n' || ch == '\r' {
                        &&& final(self).spec_cursor() == (
                            if c.1 < 0x7fff_0000 {
                                Some((s.0, (c.1 + 1) as i32))
                            } else {
                                old(self).spec_cursor()
                            })
                        &&& final(self).spec_start() == old(self).spec_start()
                        &&& final(self).spec_buffer() == old(self).spec_buffer()
                        &&& r.ops@.len() == 0 && !r.modified
                    } else if ch == '\u{8}' {
                        if c.0 - s.0 > 0 {
                            &&& final(self).spec_cursor() == Some(((c.0 - 1) as i32, c.1))
                            &&& final(self).spec_start() == old(self).spec_start()
                            &&& final(self).spec_buffer() == (
                                if old(self).spec_buffer().len() > 0 {
                                    old(self).spec_buffer().drop_last()
                                } else {
                                    old(self).spec_buffer()
                                })
                            &&& r.ops@ == seq![DrawOp::spec_new(c.0 - 1, c.1 as int, ' ')]
                            &&& r.modified
                        } else {
                            &&& final(self).spec_cursor() == old(self).spec_cursor()
                            &&& final(self).spec_start() == old(self).spec_start()
                            &&& final(self).spec_buffer() == old(self).spec_buffer()
                            &&& r.ops@.len() == 0 && !r.modified
                        }
                    } else if ch == '\u{0}' {
                        if 0 <= c.0 - s.0 < old(self).spec_buffer().len() {
                            &&& final(self).spec_cursor() == old(self).spec_cursor()
                            &&& final(self).spec_start() == old(self).spec_start()
                            &&& final(self).spec_buffer() == old(self).spec_buffer().remove(
                                c.0 - s.0,
                            )
                            &&& r.ops@ == seq![DrawOp::spec_new(c.0 as int, c.1 as int, ' ')]
                            &&& r.modified
                        } else {
                            &&& final(self).spec_cursor() == old(self).spec_cursor()
                            &&& final(self).spec_start() == old(self).spec_start()
                            &&& final(self).spec_buffer() == old(self).spec_buffer()
                            &&& r.ops@.len() == 0 && !r.modified
                        }
                    } else if spec_is_control(ch) {
                        *final(self) == *old(self) && r.ops@.len() == 0 && !r.modified
                    } else if s.0 >= ctx.grid_width - 1 || c.0 >= ctx.grid_width - 1
                        || old(self).spec_buffer().len() >= 0x7fff_0000 {
                        *final(self) == *old(self) && r.ops@.len() == 0 && !r.modified
                    } else {
                        &&& final(self).spec_cursor() == Some(((c.0 + 1) as i32, c.1))
                        &&& final(self).spec_start() == old(self).spec_start()
                        &&& final(self).spec_buffer() == old(self).spec_buffer().push(ch)
                        &&& r.ops@ == seq![DrawOp::spec_new(c.0 as int, c.1 as int, ch)]
                        &&& r.modified
                    }
                },
                _ => *final(self) == *old(self) && r.ops@.len() == 0 && !r.modified,
            },
    {
        if let Some(cursor) = self.cursor {
            let (x, y) = cursor;
            let start_x = match self.start_pos {
                Some(s) => s.0,
                None => 0,
            };

            if ch == '\n' || ch == '\r' {
                if y < 0x7fff_0000 {
                    self.cursor = Some((start_x, y + 1));
                }
                return ToolResult::new();
            }

            if ch == '\u{8}' {
                if let Some(op) = self.backspace() {
                    return ToolResult::new().with_op(op);
                }
                return ToolResult::new();
            }

            if ch == '\u{0}' {
                if let Some(op) = self.delete() {
                    return ToolResult::new().with_op(op);
                }
                return ToolResult::new();
            }

            if is_control(ch) {
                return ToolResult::new();
            }

            let grid_width = ctx.grid_width as i32;
            if start_x >= grid_width - 1 || x >= grid_width - 1 {
                return ToolResult::new();
            }

            if self.buffer.len() >= 0x7fff_0000 {
                return ToolResult::new();
            }

            self.buffer.push(ch);

            let new_x = x + 1;
            self.cursor = Some((new_x, y));

            return ToolResult::new().with_op(DrawOp::new(x, y, ch));
        }

        ToolResult::new()
    }

    /// Abandon the staged text.
    pub fn reset(&mut self)
        ensures
            final(self).spec_cursor() is None,
            final(self).spec_start() is None,
            final(self).spec_buffer().len() == 0,
            final(self).wf(),
    {
        self.cursor = None;
        self.buffer.clear();
        self.start_pos = None;
    }

    /// True while a text session is open.
    pub fn is_active(&self) -> (r: bool)
        ensures
            r == (self.spec_cursor() is Some),
    {
        self.cursor.is_some()
    }
}

impl Default for TextTool {
    /// The default text tool is idle.
    fn default() -> (r: Self)
        ensures
            r.spec_cursor() is None,
            r.spec_start() is None,
            r.spec_buffer().len() == 0,
            r.wf(),
    {
        TextTool { cursor: None, buffer: CharBuffer::new(), start_pos: None }
    }
}

/// True for control characters.
pub fn is_control(c: char) -> (r: bool)
    ensures
        r == spec_is_control(c),
{
    (c as u32) < 0x20 || ((c as u32) >= 0x7f && (c as u32) <= 0x9f)
}

} // verus!
