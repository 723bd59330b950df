//! Line tool: draws straight character lines with Bresenham stepping.

use vstd::prelude::*;

use crate::tools::raster::bres_march;
use crate::tools::raster::bres_points;
use crate::tools::raster::coord_ok;
use crate::tools::clamp_to_grid;
use crate::tools::DrawOp;
use crate::tools::ToolContext;
use crate::tools::ToolId;
use crate::tools::ToolResult;

verus! {

/// The character a straight line is drawn with: a vertical or horizontal bar
/// on the axes, otherwise a diagonal picked by the sign of the slope.
pub open spec fn spec_line_char(x1: int, y1: int, x2: int, y2: int) -> char {
    let dx = if x1 < x2 { x2 - x1 } else { x1 - x2 };
    let dy = if y1 < y2 { y2 - y1 } else { y1 - y2 };
    if dx == 0 {
        '│'
    } else if dy == 0 {
        '─'
    } else if (x1 < x2) == (y1 < y2) {
        '\\'
    } else {
        '/'
    }
}

/// The draw operations of the line from `(x1, y1)` to `(x2, y2)`: the
/// Bresenham cells in order, each holding the line's character.
pub open spec fn spec_line_ops(x1: int, y1: int, x2: int, y2: int) -> Seq<DrawOp> {
    let pts = bres_points(x1, y1, x2, y2, false);
    Seq::new(pts.len(), |i: int| DrawOp::spec_new(pts[i].0, pts[i].1, spec_line_char(x1, y1, x2, y2)))
}

/// Line drawing tool: a two-state machine. Pointer-down records the anchor,
/// each move previews the line from the anchor to the pointer, pointer-up
/// commits it and resets.
pub struct LineTool {
    /// Start point of the current drag, if one is open.
    start: Option<(i32, i32)>,
}

impl LineTool {
    /// The recorded anchor, if a drag is open.
    pub closed spec fn spec_start(&self) -> Option<(i32, i32)> {
        self.start
    }

    /// Any recorded anchor lies in the coordinate range the rasterizer accepts.
    pub open spec fn wf(&self) -> bool {
        match self.spec_start() {
            Some(p) => coord_ok(p.0 as int) && coord_ok(p.1 as int),
            None => true,
        }
    }

    /// Create a new line tool with no drag open.
    pub fn new() -> (r: Self)
        ensures
            r.spec_start() is None,
            r.wf(),
    {
        LineTool { start: None }
    }

    /// The tool's identifier.
    pub fn id(&self) -> (r: ToolId)
        ensures
            r == ToolId::Line,
    {
        ToolId::Line
    }

    /// Compute the draw operations for a line between the two points.
    pub fn draw_line(&self, x1: i32, y1: i32, x2: i32, y2: i32) -> (r: Vec<DrawOp>)
        requires
            coord_ok(x1 as int),
            coord_ok(y1 as int),
            coord_ok(x2 as int),
            coord_ok(y2 as int),
        ensures
            r@ == spec_line_ops(x1 as int, y1 as int, x2 as int, y2 as int),
            r@.len() >= 1,
    {
        let dx: i32 = if x1 < x2 { x2 - x1 } else { x1 - x2 };
        let dy: i32 = if y1 < y2 { y2 - y1 } else { y1 - y2 };
        let ch: char = if dx == 0 {
            '│'
        } else if dy == 0 {
            '─'
        } else if (x1 < x2) == (y1 < y2) {
            '\\'
        } else {
            '/'
        };

        let pts = bres_march(x1, y1, x2, y2, false);
        let mut ops: Vec<DrawOp> = Vec::new();
        let mut i: usize = 0;
        while i < pts.len()
            invariant
                i <= pts@.len(),
                ops@.len() == i,
                forall|j: int|
                    0 <= j < i ==> ops@[j] == spec_line_ops(x1 as int, y1 as int, x2 as int, y2 as int)[j],
            decreases pts@.len() - i,
        {
            let p = pts[i];
            ops.push(DrawOp::new(p.0, p.1, ch));
            i = i + 1;
        }
        proof {
            assert(ops@ =~= spec_line_ops(x1 as int, y1 as int, x2 as int, y2 as int));
        }
        ops
    }

    /// Record the anchor of a new drag; emits nothing.
    pub fn on_pointer_down(&mut self, x: i32, y: i32, _ctx: &ToolContext) -> (r: ToolResult)
        requires
            coord_ok(x as int),
            coord_ok(y as int),
        ensures
            final(self).spec_start() == Some((x, y)),
            final(self).wf(),
            r.ops@.len() == 0,
            !r.finished,
            !r.modified,
    {
        self.start = Some((x, y));
        ToolResult::new()
    }

    /// Preview the line from the anchor to the (clamped) pointer position.
    pub fn on_pointer_move(&mut self, x: i32, y: i32, ctx: &ToolContext) -> (r: ToolResult)
        requires
            old(self).wf(),
            ctx.valid(),
        ensures
            *final(self) == *old(self),
            match old(self).spec_start() {
                Some(p) => {
                    &&& r.ops@ == spec_line_ops(
                        p.0 as int,
                        p.1 as int,
                        crate::tools::spec_clamp_coord(x as int, ctx.grid_width as int),
                        crate::tools::spec_clamp_coord(y as int, ctx.grid_height as int),
                    )
                    &&& r.modified
                    &&& !r.finished
                },
                None => r.ops@.len() == 0 && !r.modified && !r.finished,
            },
    {
        if let Some(start) = self.start {
            let (cx, cy) = clamp_to_grid(x, y, ctx.grid_width, ctx.grid_height);
            let ops = self.draw_line(start.0, start.1, cx, cy);
            proof {
                assert(ops@.len() >= 1);
            }
            ToolResult::new().with_ops(ops)
        } else {
            ToolResult::new()
        }
    }

    /// Draw the final line from the anchor to the (clamped) pointer position,
    /// conclude the gesture and reset.
    pub fn on_pointer_up(&mut self, x: i32, y: i32, ctx: &ToolContext) -> (r: ToolResult)
        requires
            old(self).wf(),
            ctx.valid(),
        ensures
            final(self).spec_start() is None,
            final(self).wf(),
            match old(self).spec_start() {
                Some(p) => {
                    &&& r.ops@ == spec_line_ops(
                        p.0 as int,
                        p.1 as int,
                        crate::tools::spec_clamp_coord(x as int, ctx.grid_width as int),
                        crate::tools::spec_clamp_coord(y as int, ctx.grid_height as int),
                    )
                    &&& r.ops@.len() > 0
                    &&& r.modified
                    &&& r.finished
                },
                None => r.ops@.len() == 0 && !r.modified && !r.finished,
            },
    {
        if let Some(start) = self.start {
            let (cx, cy) = clamp_to_grid(x, y, ctx.grid_width, ctx.grid_height);
            let ops = self.draw_line(start.0, start.1, cx, cy);
            self.start = None;
            proof {
                assert(ops@.len() >= 1);
            }
            ToolResult::new().with_ops(ops).finish()
        } else {
            self.start = None;
            ToolResult::new()
        }
    }

    /// Abandon any open drag without emitting anything.
    pub fn reset(&mut self)
        ensures
            final(self).spec_start() is None,
            final(self).wf(),
    {
        self.start = None;
    }

    /// True while a drag is open.
    pub fn is_active(&self) -> (r: bool)
        ensures
            r == (self.spec_start() is Some),
    {
        self.start.is_some()
    }
}

impl Default for LineTool {
    /// The default line tool has no drag open.
    fn default() -> (r: Self)
        ensures
            r.spec_start() is None,
            r.wf(),
    {
        LineTool { start: None }
    }
}

} // verus!
