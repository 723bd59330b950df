//! Rectangle tool: draws boxes with the configured border style.

use vstd::prelude::*;

use crate::tools::raster::coord_ok;
use crate::tools::clamp_to_grid;
use crate::tools::BorderStyle;
use crate::tools::DrawOp;
use crate::tools::ToolContext;
use crate::tools::ToolId;
use crate::tools::ToolResult;

verus! {

/// The smaller of two spec integers.
pub open spec fn min2(a: int, b: int) -> int {
    if a < b {
        a
    } else {
        b
    }
}

/// The larger of two spec integers.
pub open spec fn max2(a: int, b: int) -> int {
    if a < b {
        b
    } else {
        a
    }
}

/// The horizontal border runs of a rectangle: for each interior column, one
/// operation on the top edge and one on the bottom edge.
pub open spec fn h_runs(min_x: int, max_x: int, min_y: int, max_y: int, h: char) -> Seq<DrawOp> {
    Seq::new(
        (2 * (max_x - min_x - 1)) as nat,
        |i: int|
            DrawOp::spec_new(
                min_x + 1 + i / 2,
                if i % 2 == 0 {
                    min_y
                } else {
                    max_y
                },
                h,
            ),
    )
}

/// The vertical border runs of a rectangle: for each interior row, one
/// operation on the left edge and one on the right edge.
pub open spec fn v_runs(min_x: int, max_x: int, min_y: int, max_y: int, v: char) -> Seq<DrawOp> {
    Seq::new(
        (2 * (max_y - min_y - 1)) as nat,
        |i: int|
            DrawOp::spec_new(
                if i % 2 == 0 {
                    min_x
                } else {
                    max_x
                },
                min_y + 1 + i / 2,
                v,
            ),
    )
}

/// The draw operations of the rectangle spanned by the two corners: a single
/// corner glyph for a point, a straight run for a degenerate axis, otherwise
/// the four corners followed by the horizontal and vertical border runs
/// (corners are never overwritten by the runs).
pub open spec fn spec_rectangle_ops(x1: int, y1: int, x2: int, y2: int, style: BorderStyle) -> Seq<
    DrawOp,
> {
    let min_x = min2(x1, x2);
    let max_x = max2(x1, x2);
    let min_y = min2(y1, y2);
    let max_y = max2(y1, y2);
    let corners = style.spec_corners();
    let h = style.spec_horizontal();
    let v = style.spec_vertical();
    if min_x == max_x && min_y == max_y {
        seq![DrawOp::spec_new(min_x, min_y, corners[0])]
    } else if min_y == max_y {
        Seq::new((max_x - min_x + 1) as nat, |i: int| DrawOp::spec_new(min_x + i, min_y, h))
    } else if min_x == max_x {
        Seq::new((max_y - min_y + 1) as nat, |i: int| DrawOp::spec_new(min_x, min_y + i, v))
    } else {
        seq![
            DrawOp::spec_new(min_x, min_y, corners[0]),
            DrawOp::spec_new(max_x, min_y, corners[1]),
            DrawOp::spec_new(min_x, max_y, corners[2]),
            DrawOp::spec_new(max_x, max_y, corners[3]),
        ] + h_runs(min_x, max_x, min_y, max_y, h) + v_runs(min_x, max_x, min_y, max_y, v)
    }
}

/// Rectangle drawing tool: pointer-down records the anchor, each move
/// previews the box from the anchor to the pointer, pointer-up commits it.
pub struct RectangleTool {
    /// Start point of the current drag, if one is open.
    start: Option<(i32, i32)>,
    /// Current end point during the drag.
    end: Option<(i32, i32)>,
    /// Border style for the rectangle.
    border_style: BorderStyle,
}

impl RectangleTool {
    /// The recorded anchor, if a drag is open.
    pub closed spec fn spec_start(&self) -> Option<(i32, i32)> {
        self.start
    }

    /// The recorded current end point, if any.
    pub closed spec fn spec_end(&self) -> Option<(i32, i32)> {
        self.end
    }

    /// The configured border style.
    pub closed spec fn spec_border_style(&self) -> BorderStyle {
        self.border_style
    }

    /// Any recorded anchor lies in the coordinate range the tool accepts.
    pub open spec fn wf(&self) -> bool {
        match self.spec_start() {
            Some(p) => coord_ok(p.0 as int) && coord_ok(p.1 as int),
            None => true,
        }
    }

    /// Create a new rectangle tool with the default border style.
    pub fn new() -> (r: Self)
        ensures
            r.spec_start() is None,
            r.spec_end() is None,
            r.spec_border_style() == BorderStyle::Single,
            r.wf(),
    {
        RectangleTool { start: None, end: None, border_style: BorderStyle::Single }
    }

    /// The tool's identifier.
    pub fn id(&self) -> (r: ToolId)
        ensures
            r == ToolId::Rectangle,
    {
        ToolId::Rectangle
    }

    /// Set the border style, returning the tool for chaining.
    pub fn with_border_style(self, style: BorderStyle) -> (r: Self)
        ensures
            r.spec_border_style() == style,
            r.spec_start() == self.spec_start(),
            r.spec_end() == self.spec_end(),
    {
        RectangleTool { start: self.start, end: self.end, border_style: style }
    }

    /// Update the border style in place.
    pub fn set_border_style(&mut self, style: BorderStyle)
        ensures
            final(self).spec_border_style() == style,
            final(self).spec_start() == old(self).spec_start(),
            final(self).spec_end() == old(self).spec_end(),
    {
        self.border_style = style;
    }

    /// Compute the draw operations for the rectangle between the two corners.
    pub fn draw_rectangle(&self, x1: i32, y1: i32, x2: i32, y2: i32) -> (r: Vec<DrawOp>)
        requires
            coord_ok(x1 as int),
            coord_ok(y1 as int),
            coord_ok(x2 as int),
            coord_ok(y2 as int),
        ensures
            r@ == spec_rectangle_ops(x1 as int, y1 as int, x2 as int, y2 as int, self.spec_border_style()),
            r@.len() >= 1,
    {
        let mut ops: Vec<DrawOp> = Vec::new();

        let min_x = if x1 < x2 { x1 } else { x2 };
        let max_x = if x1 < x2 { x2 } else { x1 };
        let min_y = if y1 < y2 { y1 } else { y2 };
        let max_y = if y1 < y2 { y2 } else { y1 };

        let corners = self.border_style.corners();
        let h = self.border_style.horizontal();
        let v = self.border_style.vertical();

        if min_x == max_x && min_y == max_y {
            ops.push(DrawOp::new(min_x, min_y, corners[0]));
            proof {
                assert(ops@ =~= spec_rectangle_ops(
                    x1 as int,
                    y1 as int,
                    x2 as int,
                    y2 as int,
                    self.spec_border_style(),
                ));
            }
            return ops;
        }

        if min_y == max_y {
            let mut x = min_x;
            while x <= max_x
                invariant
                    min_x <= x && (x <= max_x + 1),
                    ops@.len() == x - min_x,
                    forall|j: int|
                        0 <= j < ops@.len() ==> ops@[j] == DrawOp::spec_new(min_x + j, min_y as int, h),
                decreases max_x + 1 - x,
            {
                ops.push(DrawOp::new(x, min_y, h));
                x = x + 1;
            }
            proof {
                assert(ops@ =~= spec_rectangle_ops(
                    x1 as int,
                    y1 as int,
                    x2 as int,
                    y2 as int,
                    self.spec_border_style(),
                ));
            }
            return ops;
        }

        if min_x == max_x {
            let mut y = min_y;
            while y <= max_y
                invariant
                    min_y <= y && (y <= max_y + 1),
                    ops@.len() == y - min_y,
                    forall|j: int|
                        0 <= j < ops@.len() ==> ops@[j] == DrawOp::spec_new(min_x as int, min_y + j, v),
                decreases max_y + 1 - y,
            {
                ops.push(DrawOp::new(min_x, y, v));
                y = y + 1;
            }
            proof {
                assert(ops@ =~= spec_rectangle_ops(
                    x1 as int,
                    y1 as int,
                    x2 as int,
                    y2 as int,
                    self.spec_border_style(),
                ));
            }
            return ops;
        }

        ops.push(DrawOp::new(min_x, min_y, corners[0]));
        ops.push(DrawOp::new(max_x, min_y, corners[1]));
        ops.push(DrawOp::new(min_x, max_y, corners[2]));
        ops.push(DrawOp::new(max_x, max_y, corners[3]));

        let ghost hs = h_runs(min_x as int, max_x as int, min_y as int, max_y as int, h);
        let ghost vs = v_runs(min_x as int, max_x as int, min_y as int, max_y as int, v);

        let mut x = min_x + 1;
        while x < max_x
            invariant
                min_x + 1 <= x <= max_x,
                ops@.len() == 4 + 2 * (x - min_x - 1),
                forall|j: int| 0 <= j < 4 ==> ops@[j] == spec_rectangle_ops(
                    x1 as int,
                    y1 as int,
                    x2 as int,
                    y2 as int,
                    self.spec_border_style(),
                )[j],
                forall|j: int| 0 <= j < 2 * (x - min_x - 1) ==> ops@[4 + j] == hs[j],
            decreases max_x - x,
        {
            ops.push(DrawOp::new(x, min_y, h));
            ops.push(DrawOp::new(x, max_y, h));
            proof {
                let k = 2 * (x - min_x - 1);
                assert(hs[k] == DrawOp::spec_new(x as int, min_y as int, h)) by {
                    assert(k % 2 == 0 && k / 2 == x - min_x - 1);
                }
                assert(hs[k + 1] == DrawOp::spec_new(x as int, max_y as int, h)) by {
                    assert((k + 1) % 2 == 1 && (k + 1) / 2 == x - min_x - 1);
                }
            }
            x = x + 1;
        }

        let mut y = min_y + 1;
        while y < max_y
            invariant
                min_y + 1 <= y <= max_y,
                ops@.len() == 4 + hs.len() + 2 * (y - min_y - 1),
                forall|j: int| 0 <= j < 4 ==> ops@[j] == spec_rectangle_ops(
                    x1 as int,
                    y1 as int,
                    x2 as int,
                    y2 as int,
                    self.spec_border_style(),
                )[j],
                forall|j: int| 0 <= j < hs.len() ==> ops@[4 + j] == hs[j],
                forall|j: int| 0 <= j < 2 * (y - min_y - 1) ==> ops@[4 + hs.len() + j] == vs[j],
            decreases max_y - y,
        {
            ops.push(DrawOp::new(min_x, y, v));
            ops.push(DrawOp::new(max_x, y, v));
            proof {
                let k = 2 * (y - min_y - 1);
                assert(vs[k] == DrawOp::spec_new(min_x as int, y as int, v)) by {
                    assert(k % 2 == 0 && k / 2 == y - min_y - 1);
                }
                assert(vs[k + 1] == DrawOp::spec_new(max_x as int, y as int, v)) by {
                    assert((k + 1) % 2 == 1 && (k + 1) / 2 == y - min_y - 1);
                }
            }
            y = y + 1;
        }

        proof {
            assert(ops@ =~= spec_rectangle_ops(
                x1 as int,
                y1 as int,
                x2 as int,
                y2 as int,
                self.spec_border_style(),
            ));
        }
        ops
    }

    /// Record the anchor of a new drag; emits nothing.
    pub fn on_pointer_down(&mut self, x: i32, y: i32, _ctx: &ToolContext) -> (r: ToolResult)
        requires
            coord_ok(x as int),
            coord_ok(y as int),
        ensures
            final(self).spec_start() == Some((x, y)),
            final(self).spec_end() == Some((x, y)),
            final(self).spec_border_style() == old(self).spec_border_style(),
            final(self).wf(),
            r.ops@.len() == 0,
            !r.finished,
            !r.modified,
    {
        self.start = Some((x, y));
        self.end = Some((x, y));
        ToolResult::new()
    }

    /// Preview the rectangle from the anchor to the (clamped) pointer position.
    pub fn on_pointer_move(&mut self, x: i32, y: i32, ctx: &ToolContext) -> (r: ToolResult)
        requires
            old(self).wf(),
            ctx.valid(),
        ensures
            final(self).spec_start() == old(self).spec_start(),
            final(self).spec_border_style() == old(self).spec_border_style(),
            final(self).wf(),
            match old(self).spec_start() {
                Some(p) => {
                    &&& r.ops@ == spec_rectangle_ops(
                        p.0 as int,
                        p.1 as int,
                        crate::tools::spec_clamp_coord(x as int, ctx.grid_width as int),
                        crate::tools::spec_clamp_coord(y as int, ctx.grid_height as int),
                        old(self).spec_border_style(),
                    )
                    &&& r.modified
                    &&& !r.finished
                },
                None => r.ops@.len() == 0 && !r.modified && !r.finished,
            },
    {
        if let Some(start) = self.start {
            let (cx, cy) = clamp_to_grid(x, y, ctx.grid_width, ctx.grid_height);
            self.end = Some((cx, cy));
            let ops = self.draw_rectangle(start.0, start.1, cx, cy);
            ToolResult::new().with_ops(ops)
        } else {
            ToolResult::new()
        }
    }

    /// Draw the final rectangle, conclude the gesture and reset.
    pub fn on_pointer_up(&mut self, x: i32, y: i32, ctx: &ToolContext) -> (r: ToolResult)
        requires
            old(self).wf(),
            ctx.valid(),
        ensures
            final(self).spec_start() is None,
            final(self).spec_end() is None,
            final(self).spec_border_style() == old(self).spec_border_style(),
            final(self).wf(),
            match old(self).spec_start() {
                Some(p) => {
                    &&& r.ops@ == spec_rectangle_ops(
                        p.0 as int,
                        p.1 as int,
                        crate::tools::spec_clamp_coord(x as int, ctx.grid_width as int),
                        crate::tools::spec_clamp_coord(y as int, ctx.grid_height as int),
                        old(self).spec_border_style(),
                    )
                    &&& r.ops@.len() > 0
                    &&& r.modified
                    &&& r.finished
                },
                None => r.ops@.len() == 0 && !r.modified && !r.finished,
            },
    {
        if let Some(start) = self.start {
            let (cx, cy) = clamp_to_grid(x, y, ctx.grid_width, ctx.grid_height);
            let ops = self.draw_rectangle(start.0, start.1, cx, cy);
            self.start = None;
            self.end = None;
            ToolResult::new().with_ops(ops).finish()
        } else {
            self.start = None;
            self.end = None;
            ToolResult::new()
        }
    }

    /// Abandon any open drag without emitting anything.
    pub fn reset(&mut self)
        ensures
            final(self).spec_start() is None,
            final(self).spec_end() is None,
            final(self).spec_border_style() == old(self).spec_border_style(),
            final(self).wf(),
    {
        self.start = None;
        self.end = None;
    }

    /// True while a drag is open.
    pub fn is_active(&self) -> (r: bool)
        ensures
            r == (self.spec_start() is Some),
    {
        self.start.is_some()
    }
}

impl Default for RectangleTool {
    /// The default rectangle tool has no drag open and a single-line border.
    fn default() -> (r: Self)
        ensures
            r.spec_start() is None,
            r.spec_end() is None,
            r.spec_border_style() == BorderStyle::Single,
            r.wf(),
    {
        RectangleTool { start: None, end: None, border_style: BorderStyle::Single }
    }
}

} // verus!
