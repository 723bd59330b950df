//! Arrow tool: draws a Bresenham line whose glyph follows the direction to
//! the target, then appends one arrowhead glyph at the endpoint.

use vstd::prelude::*;

use crate::tools::raster::bres_march;
use crate::tools::raster::bres_points;
use crate::tools::raster::coord_ok;
use crate::tools::clamp_to_grid;
use crate::tools::DrawOp;
use crate::tools::ToolContext;
use crate::tools::ToolId;
use crate::tools::ToolResult;

verus! {

/// The arrowhead glyph for a displacement `(dx, dy)`: directional glyphs on
/// the axes and near them, slash glyphs when nearly vertical, and plain
/// angle brackets in the middle band (the ratio of `|dx|` to `|dy|` between
/// 3:10 and 7:10, scaled by 10).
pub open spec fn spec_arrowhead(dx: int, dy: int) -> char {
    if dx == 0 && dy == 0 {
        '•'
    } else {
        let adx = if dx < 0 { -dx } else { dx };
        let ady = if dy < 0 { -dy } else { dy };
        if adx == 0 {
            if dy > 0 { '▼' } else { '▲' }
        } else if ady == 0 {
            if dx > 0 { '►' } else { '◄' }
        } else {
            let ratio = adx * 10 / ady;
            if ratio < 3 {
                if dx > 0 {
                    if dy > 0 { '╲' } else { '╱' }
                } else {
                    if dy > 0 { '╱' } else { '╲' }
                }
            } else if ratio > 7 {
                if dx > 0 { '►' } else { '◄' }
            } else {
                if dx > 0 { '>' } else { '<' }
            }
        }
    }
}

/// The line glyph used at `(x, y)` while heading for `(tx, ty)`: a bar on
/// the axes and near them, else a slash by the sign of the slope.
pub open spec fn spec_arrow_line_char(x: int, y: int, tx: int, ty: int) -> char {
    let dx = tx - x;
    let dy = ty - y;
    if dx == 0 {
        '│'
    } else if dy == 0 {
        '─'
    } else {
        let adx = if dx < 0 { -dx } else { dx };
        let ady = if dy < 0 { -dy } else { dy };
        let ratio = adx * 10 / ady;
        if ratio < 3 {
            '│'
        } else if ratio > 7 {
            '─'
        } else if (dx > 0 && dy < 0) || (dx < 0 && dy > 0) {
            '/'
        } else {
            '\\'
        }
    }
}

/// The draw operations of the arrow from `(x1, y1)` to `(x2, y2)`: the
/// Bresenham cells (stepping on ties), each with its directional line glyph,
/// followed by the arrowhead at the endpoint.
pub open spec fn spec_arrow_ops(x1: int, y1: int, x2: int, y2: int) -> Seq<DrawOp> {
    let pts = bres_points(x1, y1, x2, y2, true);
    Seq::new(
        pts.len(),
        |i: int| DrawOp::spec_new(pts[i].0, pts[i].1, spec_arrow_line_char(pts[i].0, pts[i].1, x2, y2)),
    ).push(DrawOp::spec_new(x2, y2, spec_arrowhead(x2 - x1, y2 - y1)))
}

/// Arrow drawing tool: pointer-down records the anchor, each move previews
/// the arrow from the anchor to the pointer, pointer-up commits it.
pub struct ArrowTool {
    /// Start point of the current drag, if one is open.
    start: Option<(i32, i32)>,
}

impl ArrowTool {
    /// The recorded anchor, if a drag is open.
    pub closed spec fn spec_start(&self) -> Option<(i32, i32)> {
        self.start
    }

    /// Any recorded anchor lies in the coordinate range the rasterizer accepts.
    pub open spec fn wf(&self) -> bool {
        match self.spec_start() {
            Some(p) => coord_ok(p.0 as int) && coord_ok(p.1 as int),
            None => true,
        }
    }

    /// Create a new arrow tool with no drag open.
    pub fn new() -> (r: Self)
        ensures
            r.spec_start() is None,
            r.wf(),
    {
        ArrowTool { start: None }
    }

    /// The tool's identifier.
    pub fn id(&self) -> (r: ToolId)
        ensures
            r == ToolId::Arrow,
    {
        ToolId::Arrow
    }

    /// The arrowhead glyph for a displacement.
    pub fn get_arrowhead(dx: i32, dy: i32) -> (r: char)
        requires
            -0x4000 <= dx <= 0x4000,
            -0x4000 <= dy <= 0x4000,
        ensures
            r == spec_arrowhead(dx as int, dy as int),
    {
        if dx == 0 && dy == 0 {
            return '•';
        }

        let abs_dx = if dx < 0 { -dx } else { dx };
        let abs_dy = if dy < 0 { -dy } else { dy };

        if abs_dx == 0 {
            if dy > 0 { '▼' } else { '▲' }
        } else if abs_dy == 0 {
            if dx > 0 { '►' } else { '◄' }
        } else {
            let ratio = abs_dx * 10 / abs_dy;
            if ratio < 3 {
                if dx > 0 {
                    if dy > 0 { '╲' } else { '╱' }
                } else {
                    if dy > 0 { '╱' } else { '╲' }
                }
            } else if ratio > 7 {
                if dx > 0 { '►' } else { '◄' }
            } else {
                if dx > 0 { '>' } else { '<' }
            }
        }
    }

    /// The line glyph used at the given cell while heading for the target.
    pub fn get_line_char(current_x: i32, current_y: i32, target_x: i32, target_y: i32) -> (r: char)
        requires
            coord_ok(current_x as int),
            coord_ok(current_y as int),
            coord_ok(target_x as int),
            coord_ok(target_y as int),
        ensures
            r == spec_arrow_line_char(
                current_x as int,
                current_y as int,
                target_x as int,
                target_y as int,
            ),
    {
        let dx = target_x - current_x;
        let dy = target_y - current_y;

        if dx == 0 {
            '│'
        } else if dy == 0 {
            '─'
        } else {
            let adx = if dx < 0 { -dx } else { dx };
            let ady = if dy < 0 { -dy } else { dy };
            let ratio = adx * 10 / ady;
            if ratio < 3 {
                '│'
            } else if ratio > 7 {
                '─'
            } else if (dx > 0 && dy < 0) || (dx < 0 && dy > 0) {
                '/'
            } else {
                '\\'
            }
        }
    }

    /// Compute the draw operations for the arrow between the two points.
    pub fn draw_arrow(&self, x1: i32, y1: i32, x2: i32, y2: i32) -> (r: Vec<DrawOp>)
        requires
            coord_ok(x1 as int),
            coord_ok(y1 as int),
            coord_ok(x2 as int),
            coord_ok(y2 as int),
        ensures
            r@ == spec_arrow_ops(x1 as int, y1 as int, x2 as int, y2 as int),
            r@.len() >= 2,
    {
        let pts = bres_march(x1, y1, x2, y2, true);
        let mut ops: Vec<DrawOp> = Vec::new();
        let ghost line = spec_arrow_ops(x1 as int, y1 as int, x2 as int, y2 as int);
        let mut i: usize = 0;
        while i < pts.len()
            invariant
                i <= pts@.len(),
                ops@.len() == i,
                forall|j: int|
                    0 <= j < i ==> ops@[j] == spec_arrow_ops(
                        x1 as int,
                        y1 as int,
                        x2 as int,
                        y2 as int,
                    )[j],
            decreases pts@.len() - i,
        {
            let p = pts[i];
            let ch = Self::get_line_char(p.0, p.1, x2, y2);
            ops.push(DrawOp::new(p.0, p.1, ch));
            i = i + 1;
        }

        let head = Self::get_arrowhead(x2 - x1, y2 - y1);
        ops.push(DrawOp::new(x2, y2, head));
        proof {
            assert(ops@ =~= spec_arrow_ops(x1 as int, y1 as int, x2 as int, y2 as int));
        }
        ops
    }

    /// Record the anchor of a new drag; emits nothing.
    pub fn on_pointer_down(&mut self, x: i32, y: i32, _ctx: &ToolContext) -> (r: ToolResult)
        requires
            coord_ok(x as int),
            coord_ok(y as int),
        ensures
            final(self).spec_start() == Some((x, y)),
            final(self).wf(),
            r.ops@.len() == 0,
            !r.finished,
            !r.modified,
    {
        self.start = Some((x, y));
        ToolResult::new()
    }

    /// Preview the arrow from the anchor to the (clamped) pointer position.
    pub fn on_pointer_move(&mut self, x: i32, y: i32, ctx: &ToolContext) -> (r: ToolResult)
        requires
            old(self).wf(),
            ctx.valid(),
        ensures
            *final(self) == *old(self),
            match old(self).spec_start() {
                Some(p) => {
                    &&& r.ops@ == spec_arrow_ops(
                        p.0 as int,
                        p.1 as int,
                        crate::tools::spec_clamp_coord(x as int, ctx.grid_width as int),
                        crate::tools::spec_clamp_coord(y as int, ctx.grid_height as int),
                    )
                    &&& r.modified
                    &&& !r.finished
                },
                None => r.ops@.len() == 0 && !r.modified && !r.finished,
            },
    {
        if let Some(start) = self.start {
            let (cx, cy) = clamp_to_grid(x, y, ctx.grid_width, ctx.grid_height);
            let ops = self.draw_arrow(start.0, start.1, cx, cy);
            ToolResult::new().with_ops(ops)
        } else {
            ToolResult::new()
        }
    }

    /// Draw the final arrow, conclude the gesture and reset.
    pub fn on_pointer_up(&mut self, x: i32, y: i32, ctx: &ToolContext) -> (r: ToolResult)
        requires
            old(self).wf(),
            ctx.valid(),
        ensures
            final(self).spec_start() is None,
            final(self).wf(),
            match old(self).spec_start() {
                Some(p) => {
                    &&& r.ops@ == spec_arrow_ops(
                        p.0 as int,
                        p.1 as int,
                        crate::tools::spec_clamp_coord(x as int, ctx.grid_width as int),
                        crate::tools::spec_clamp_coord(y as int, ctx.grid_height as int),
                    )
                    &&& r.ops@.len() > 0
                    &&& r.modified
                    &&& r.finished
                },
                None => r.ops@.len() == 0 && !r.modified && !r.finished,
            },
    {
        if let Some(start) = self.start {
            let (cx, cy) = clamp_to_grid(x, y, ctx.grid_width, ctx.grid_height);
            let ops = self.draw_arrow(start.0, start.1, cx, cy);
            self.start = None;
            ToolResult::new().with_ops(ops).finish()
        } else {
            self.start = None;
            ToolResult::new()
        }
    }

    /// Abandon any open drag without emitting anything.
    pub fn reset(&mut self)
        ensures
            final(self).spec_start() is None,
            final(self).wf(),
    {
        self.start = None;
    }

    /// True while a drag is open.
    pub fn is_active(&self) -> (r: bool)
        ensures
            r == (self.spec_start() is Some),
    {
        self.start.is_some()
    }
}

impl Default for ArrowTool {
    /// The default arrow tool has no drag open.
    fn default() -> (r: Self)
        ensures
            r.spec_start() is None,
            r.wf(),
    {
        ArrowTool { start: None }
    }
}

} // verus!
