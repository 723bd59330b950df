//! Freehand tool: draws a configurable glyph along the pointer path,
//! interpolating between pointer positions with Bresenham stepping.

use vstd::prelude::*;

use crate::svec::op_buffer_view;
use crate::svec::OpBuffer;
use crate::tools::raster::bres_march;
use crate::tools::raster::bres_points;
use crate::tools::raster::coord_ok;
use crate::tools::clamp_to_grid;
use crate::tools::DrawOp;
use crate::tools::ToolContext;
use crate::tools::ToolId;
use crate::tools::ToolResult;

verus! {

/// The draw operations of a freehand stroke segment: the Bresenham cells
/// from the last position to the current one, each holding the draw glyph.
pub open spec fn spec_stroke_ops(lx: int, ly: int, x: int, y: int, ch: char) -> Seq<DrawOp> {
    let pts = bres_points(lx, ly, x, y, false);
    Seq::new(pts.len(), |i: int| DrawOp::spec_new(pts[i].0, pts[i].1, ch))
}

/// Freehand drawing tool: pointer-down seeds the stroke and emits one glyph,
/// each move interpolates from the previous position, and pointer-up flushes
/// the buffered stroke as one finished batch.
pub struct FreehandTool {
    /// Whether a stroke is open.
    drawing: bool,
    /// Last pointer position, for interpolation.
    last_pos: Option<(i32, i32)>,
    /// The glyph drawn along the stroke.
    draw_char: char,
    /// All operations of the open stroke, flushed at pointer-up.
    ops_buffer: OpBuffer,
}

impl FreehandTool {
    /// Whether a stroke is open.
    pub closed spec fn spec_drawing(&self) -> bool {
        self.drawing
    }

    /// The recorded last position.
    pub closed spec fn spec_last_pos(&self) -> Option<(i32, i32)> {
        self.last_pos
    }

    /// The configured glyph.
    pub closed spec fn spec_char(&self) -> char {
        self.draw_char
    }

    /// The buffered stroke operations.
    pub closed spec fn spec_buffer(&self) -> Seq<DrawOp> {
        op_buffer_view(self.ops_buffer)
    }

    /// Any recorded position lies in the coordinate range the rasterizer
    /// accepts.
    pub open spec fn wf(&self) -> bool {
        match self.spec_last_pos() {
            Some(p) => coord_ok(p.0 as int) && coord_ok(p.1 as int),
            None => true,
        }
    }

    /// Create a new freehand tool drawing asterisks.
    pub fn new() -> (r: Self)
        ensures
            !r.spec_drawing(),
            r.spec_last_pos() is None,
            r.spec_char() == '*',
            r.spec_buffer().len() == 0,
            r.wf(),
    {
        FreehandTool { drawing: false, last_pos: None, draw_char: '*', ops_buffer: OpBuffer::new() }
    }

    /// The tool's identifier.
    pub fn id(&self) -> (r: ToolId)
        ensures
            r == ToolId::Freehand,
    {
        ToolId::Freehand
    }

    /// Set the glyph to draw with.
    pub fn set_char(&mut self, ch: char)
        ensures
            final(self).spec_char() == ch,
            final(self).spec_drawing() == old(self).spec_drawing(),
            final(self).spec_last_pos() == old(self).spec_last_pos(),
            final(self).spec_buffer() == old(self).spec_buffer(),
            final(self).wf() == old(self).wf(),
    {
        self.draw_char = ch;
    }

    /// The currently configured glyph.
    pub fn get_char(&self) -> (r: char)
        ensures
            r == self.spec_char(),
    {
        self.draw_char
    }

    /// Start a stroke at the (clamped) position: seed the cursor and emit
    /// one glyph.
    pub fn on_pointer_down(&mut self, x: i32, y: i32, ctx: &ToolContext) -> (r: ToolResult)
        requires
            ctx.valid(),
        ensures
            final(self).spec_drawing(),
            final(self).wf(),
            final(self).spec_char() == old(self).spec_char(),
            ({
                let cx = crate::tools::spec_clamp_coord(x as int, ctx.grid_width as int);
                let cy = crate::tools::spec_clamp_coord(y as int, ctx.grid_height as int);
                let op = DrawOp::spec_new(cx, cy, old(self).spec_char());
                &&& final(self).spec_last_pos() == Some((cx as i32, cy as i32))
                &&& final(self).spec_buffer() == seq![op]
                &&& r.ops@ == seq![op]
                &&& r.modified
                &&& !r.finished
            }),
    {
        let (cx, cy) = clamp_to_grid(x, y, ctx.grid_width, ctx.grid_height);

        self.drawing = true;
        self.last_pos = Some((cx, cy));
        self.ops_buffer.clear();

        let op = DrawOp::new(cx, cy, self.draw_char);
        self.ops_buffer.push(op);
        proof {
            assert(self.spec_buffer() =~= seq![op]);
        }

        ToolResult::new().with_op(op)
    }

    /// Extend the stroke to the (clamped) position, interpolating the path
    /// from the last position; a repeat of the same cell emits nothing.
    pub fn on_pointer_move(&mut self, x: i32, y: i32, ctx: &ToolContext) -> (r: ToolResult)
        requires
            old(self).wf(),
            ctx.valid(),
        ensures
            final(self).wf(),
            final(self).spec_drawing() == old(self).spec_drawing(),
            final(self).spec_char() == old(self).spec_char(),
            !old(self).spec_drawing() ==> *final(self) == *old(self) && r.ops@.len() == 0
                && !r.modified && !r.finished,
            old(self).spec_drawing() ==> ({
                let cx = crate::tools::spec_clamp_coord(x as int, ctx.grid_width as int);
                let cy = crate::tools::spec_clamp_coord(y as int, ctx.grid_height as int);
                if old(self).spec_last_pos() == Some((cx as i32, cy as i32)) {
                    *final(self) == *old(self) && r.ops@.len() == 0 && !r.modified && !r.finished
                } else {
                    let ops = match old(self).spec_last_pos() {
                        Some(p) => spec_stroke_ops(
                            p.0 as int,
                            p.1 as int,
                            cx,
                            cy,
                            old(self).spec_char(),
                        ),
                        None => seq![DrawOp::spec_new(cx, cy, old(self).spec_char())],
                    };
                    &&& final(self).spec_last_pos() == Some((cx as i32, cy as i32))
                    &&& final(self).spec_buffer() == old(self).spec_buffer() + ops
                    &&& r.ops@ == ops
                    &&& r.modified
                    &&& !r.finished
                }
            }),
    {
        if !self.drawing {
            return ToolResult::new();
        }

        let (cx, cy) = clamp_to_grid(x, y, ctx.grid_width, ctx.grid_height);

        let same = match self.last_pos {
            Some(p) => p.0 == cx && p.1 == cy,
            None => false,
        };
        if same {
            return ToolResult::new();
        }

        let ops = self.interpolate_to(cx, cy);
        self.last_pos = Some((cx, cy));

        let ghost buf0 = self.spec_buffer();
        let mut i: usize = 0;
        while i < ops.len()
            invariant
                i <= ops@.len(),
                self.spec_buffer() == buf0 + ops@.take(i as int),
                self.drawing == old(self).drawing,
                self.draw_char == old(self).draw_char,
                self.last_pos == Some((cx, cy)),
            decreases ops@.len() - i,
        {
            self.ops_buffer.push(ops[i]);
            proof {
                assert(buf0 + ops@.take(i as int + 1) =~= (buf0 + ops@.take(i as int)).push(
                    ops@[i as int],
                ));
            }
            i = i + 1;
        }
        proof {
            assert(ops@.take(ops@.len() as int) =~= ops@);
        }

        proof {
            assert(ops@.len() >= 1);
        }
        ToolResult::new().with_ops(ops)
    }

    /// Interpolate the stroke from the last position to the given cell.
    fn interpolate_to(&self, x: i32, y: i32) -> (r: Vec<DrawOp>)
        requires
            self.wf(),
            coord_ok(x as int),
            coord_ok(y as int),
        ensures
            r@ == match self.spec_last_pos() {
                Some(p) => spec_stroke_ops(p.0 as int, p.1 as int, x as int, y as int, self.spec_char()),
                None => seq![DrawOp::spec_new(x as int, y as int, self.spec_char())],
            },
            r@.len() >= 1,
    {
        let mut ops: Vec<DrawOp> = Vec::new();
        match self.last_pos {
            Some(p) => {
                let pts = bres_march(p.0, p.1, x, y, false);
                let mut i: usize = 0;
                while i < pts.len()
                    invariant
                        i <= pts@.len(),
                        ops@.len() == i,
                        forall|j: int|
                            0 <= j < i ==> ops@[j] == spec_stroke_ops(
                                p.0 as int,
                                p.1 as int,
                                x as int,
                                y as int,
                                self.spec_char(),
                            )[j],
                    decreases pts@.len() - i,
                {
                    let q = pts[i];
                    ops.push(DrawOp::new(q.0, q.1, self.draw_char));
                    i = i + 1;
                }
                proof {
                    assert(ops@ =~= spec_stroke_ops(
                        p.0 as int,
                        p.1 as int,
                        x as int,
                        y as int,
                        self.spec_char(),
                    ));
                }
            },
            None => {
                ops.push(DrawOp::new(x, y, self.draw_char));
                proof {
                    assert(ops@ =~= seq![
                        DrawOp::spec_new(x as int, y as int, self.spec_char()),
                    ]);
                }
            },
        }
        ops
    }

    /// Conclude the stroke: flush all buffered operations as one finished
    /// batch and clear the buffer.
    pub fn on_pointer_up(&mut self, _x: i32, _y: i32, _ctx: &ToolContext) -> (r: ToolResult)
        ensures
            !final(self).spec_drawing(),
            final(self).spec_last_pos() is None,
            final(self).spec_char() == old(self).spec_char(),
            final(self).spec_buffer().len() == 0,
            final(self).wf(),
            r.ops@ == old(self).spec_buffer(),
            r.finished,
            r.modified == (old(self).spec_buffer().len() > 0),
    {
        self.drawing = false;
        self.last_pos = None;

        let ops = self.ops_buffer.to_vec();
        self.ops_buffer.clear();

        ToolResult::new().with_ops(ops).finish()
    }

    /// Abandon the stroke, discarding the buffer.
    pub fn reset(&mut self)
        ensures
            !final(self).spec_drawing(),
            final(self).spec_last_pos() is None,
            final(self).spec_char() == old(self).spec_char(),
            final(self).spec_buffer().len() == 0,
            final(self).wf(),
    {
        self.drawing = false;
        self.last_pos = None;
        self.ops_buffer.clear();
    }

    /// True while a stroke is open.
    pub fn is_active(&self) -> (r: bool)
        ensures
            r == self.spec_drawing(),
    {
        self.drawing
    }
}

impl Default for FreehandTool {
    /// The default freehand tool draws asterisks and has no stroke open.
    fn default() -> (r: Self)
        ensures
            !r.spec_drawing(),
            r.spec_last_pos() is None,
            r.spec_char() == '*',
            r.spec_buffer().len() == 0,
            r.wf(),
    {
        FreehandTool { drawing: false, last_pos: None, draw_char: '*', ops_buffer: OpBuffer::new() }
    }
}

} // verus!
