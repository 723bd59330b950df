//! Eraser tool: blanks a square patch around the pointer, interpolating
//! between pointer positions with Bresenham stepping.

use vstd::prelude::*;

use crate::svec::op_buffer_view;
use crate::svec::OpBuffer;
use crate::tools::raster::bres_march;
use crate::tools::raster::bres_points;
use crate::tools::raster::coord_ok;
use crate::tools::clamp_to_grid;
use crate::tools::DrawOp;
use crate::tools::ToolContext;
use crate::tools::ToolId;
use crate::tools::ToolResult;

verus! {

/// The blanking operations of one eraser patch of the given size, centered
/// at `(x, y)`: a square of side `2 * size - 1`, row by row.
pub open spec fn spec_erase_at(x: int, y: int, size: int) -> Seq<DrawOp> {
    let side = 2 * size - 1;
    Seq::new(
        (side * side) as nat,
        |i: int| DrawOp::spec_new(x - (size - 1) + i % side, y - (size - 1) + i / side, ' '),
    )
}

/// The blanking operations along a path: one eraser patch per visited cell,
/// in order.
pub open spec fn spec_erase_path(pts: Seq<(int, int)>, size: int) -> Seq<DrawOp>
    decreases pts.len(),
{
    if pts.len() == 0 {
        Seq::empty()
    } else {
        spec_erase_path(pts.drop_last(), size) + spec_erase_at(pts.last().0, pts.last().1, size)
    }
}

/// An eraser patch of size 1 blanks exactly 1 cell, of size 2 exactly 9
/// cells, and in general a `(2*size - 1)`-sided square of distinct cells
/// around the center.
pub proof fn lemma_erase_patch(x: int, y: int, size: int)
    requires
        1 <= size <= 0x1000,
        coord_ok(x),
        coord_ok(y),
    ensures
        spec_erase_at(x, y, size).len() == (2 * size - 1) * (2 * size - 1),
        forall|i: int, j: int|
            0 <= i < j < spec_erase_at(x, y, size).len() ==> !((#[trigger] spec_erase_at(
                x,
                y,
                size,
            )[i]).x == (#[trigger] spec_erase_at(x, y, size)[j]).x && spec_erase_at(x, y, size)[i].y
                == spec_erase_at(x, y, size)[j].y),
{
    let side = 2 * size - 1;
    assert(side * side >= 0) by (nonlinear_arith)
        requires
            side >= 1,
    ;
    assert forall|i: int, j: int| 0 <= i < j < spec_erase_at(x, y, size).len() implies !((
    #[trigger] spec_erase_at(x, y, size)[i]).x == (#[trigger] spec_erase_at(x, y, size)[j]).x
        && spec_erase_at(x, y, size)[i].y == spec_erase_at(x, y, size)[j].y) by {
        vstd::arithmetic::div_mod::lemma_fundamental_div_mod(i, side);
        vstd::arithmetic::div_mod::lemma_fundamental_div_mod(j, side);
        assert(0 <= i % side < side && 0 <= j % side < side) by (nonlinear_arith)
            requires
                side >= 1,
                0 <= i,
                0 <= j,
        ;
        assert(i % side != j % side || i / side != j / side) by (nonlinear_arith)
            requires
                0 <= i < j,
                side >= 1,
                i == side * (i / side) + i % side,
                j == side * (j / side) + j % side,
                0 <= i % side < side,
                0 <= j % side < side,
        ;
        assert(0 <= i / side < side && 0 <= j / side < side) by (nonlinear_arith)
            requires
                side >= 1,
                0 <= i < side * side,
                0 <= j < side * side,
                i == side * (i / side) + i % side,
                j == side * (j / side) + j % side,
                0 <= i % side < side,
                0 <= j % side < side,
        ;
        assert(-0x4000 <= x - (size - 1) + i % side <= 0x4000 + 0x2000);
        assert(-0x4000 <= y - (size - 1) + i / side <= 0x4000 + 0x2000);
    }
}

/// Eraser tool: pointer-down opens a stroke and blanks a patch, each move
/// interpolates patches along the path, pointer-up flushes the whole stroke
/// as one finished batch.
pub struct EraserTool {
    /// Whether a stroke is open.
    erasing: bool,
    /// Last pointer position, for interpolation.
    last_pos: Option<(i32, i32)>,
    /// Eraser size: the blanked square has side `2 * size - 1`.
    size: i32,
    /// All operations of the open stroke, flushed at pointer-up.
    ops_buffer: OpBuffer,
}

impl EraserTool {
    /// Whether a stroke is open.
    pub closed spec fn spec_erasing(&self) -> bool {
        self.erasing
    }

    /// The recorded last position.
    pub closed spec fn spec_last_pos(&self) -> Option<(i32, i32)> {
        self.last_pos
    }

    /// The configured eraser size.
    pub closed spec fn spec_size(&self) -> int {
        self.size as int
    }

    /// The buffered stroke operations.
    pub closed spec fn spec_buffer(&self) -> Seq<DrawOp> {
        op_buffer_view(self.ops_buffer)
    }

    /// The size stays in a range whose patches fit the machine integers, and
    /// any recorded position lies in the rasterizer's coordinate range.
    pub open spec fn wf(&self) -> bool {
        &&& 1 <= self.spec_size() <= 0x1000
        &&& match self.spec_last_pos() {
            Some(p) => coord_ok(p.0 as int) && coord_ok(p.1 as int),
            None => true,
        }
    }

    /// Create a new eraser of size 1.
    pub fn new() -> (r: Self)
        ensures
            !r.spec_erasing(),
            r.spec_last_pos() is None,
            r.spec_size() == 1,
            r.spec_buffer().len() == 0,
            r.wf(),
    {
        EraserTool { erasing: false, last_pos: None, size: 1, ops_buffer: OpBuffer::new() }
    }

    /// The tool's identifier.
    pub fn id(&self) -> (r: ToolId)
        ensures
            r == ToolId::Eraser,
    {
        ToolId::Eraser
    }

    /// Set the eraser size; values below 1 are raised to 1.
    pub fn set_size(&mut self, size: i32)
        requires
            size <= 0x1000,
        ensures
            final(self).spec_size() == if size < 1 { 1int } else { size as int },
            final(self).spec_erasing() == old(self).spec_erasing(),
            final(self).spec_last_pos() == old(self).spec_last_pos(),
            final(self).spec_buffer() == old(self).spec_buffer(),
            old(self).wf() ==> final(self).wf(),
    {
        self.size = if size < 1 { 1 } else { size };
    }

    /// The current eraser size.
    pub fn size(&self) -> (r: i32)
        ensures
            r == self.spec_size(),
    {
        self.size
    }

    /// The blanking operations of one patch at the given center.
    pub fn erase_at(&self, x: i32, y: i32) -> (r: Vec<DrawOp>)
        requires
            self.wf(),
            coord_ok(x as int),
            coord_ok(y as int),
        ensures
            r@ == spec_erase_at(x as int, y as int, self.spec_size()),
            r@.len() >= 1,
    {
        let mut ops: Vec<DrawOp> = Vec::new();
        let side: i32 = 2 * self.size - 1;
        let ghost s = spec_erase_at(x as int, y as int, self.spec_size());
        proof {
            assert(s.len() == side * side) by (nonlinear_arith)
                requires
                    side == 2 * self.spec_size() - 1,
                    side >= 1,
                    s.len() == side * side,
            ;
            assert(side * side >= 1) by (nonlinear_arith)
                requires
                    side >= 1,
            ;
            assert(side * side <= 0x4000_0000) by (nonlinear_arith)
                requires
                    1 <= side <= 0x2000,
            ;
        }

        let mut dy: i32 = 0;
        while dy < side
            invariant
                0 <= dy <= side,
                1 <= side <= 0x2000,
                side == 2 * self.spec_size() - 1,
                s == spec_erase_at(x as int, y as int, self.spec_size()),
                s.len() == side * side,
                ops@.len() == dy * side,
                forall|j: int| 0 <= j < ops@.len() ==> ops@[j] == s[j],
            decreases side - dy,
        {
            let mut dx: i32 = 0;
            proof {
                assert(0 <= dy * side && dy * side + side <= side * side) by (nonlinear_arith)
                    requires
                        0 <= dy < side,
                ;
            }
            while dx < side
                invariant
                    0 <= dx <= side,
                    0 <= dy < side,
                    1 <= side <= 0x2000,
                    side == 2 * self.spec_size() - 1,
                    s == spec_erase_at(x as int, y as int, self.spec_size()),
                    s.len() == side * side,
                    0 <= dy * side && dy * side + side <= side * side,
                    ops@.len() == dy * side + dx,
                    forall|j: int| 0 <= j < ops@.len() ==> ops@[j] == s[j],
                decreases side - dx,
            {
                let ex = x - (self.size - 1) + dx;
                let ey = y - (self.size - 1) + dy;
                ops.push(DrawOp::new(ex, ey, ' '));
                proof {
                    let k = (dy as int) * (side as int) + (dx as int);
                    assert(k % (side as int) == dx && k / (side as int) == dy) by (nonlinear_arith)
                        requires
                            0 <= dx < side,
                            0 <= dy,
                            side >= 1,
                            k == (dy as int) * (side as int) + (dx as int),
                    ;
                    assert(s[k] == DrawOp::spec_new(
                        x - (self.spec_size() - 1) + dx,
                        y - (self.spec_size() - 1) + dy,
                        ' ',
                    ));
                }
                dx = dx + 1;
            }
            proof {
                assert((dy + 1) * side == dy * side + side) by (nonlinear_arith)
                    requires
                        true,
                ;
            }
            dy = dy + 1;
        }
        proof {
            assert(ops@ =~= s);
        }
        ops
    }

    /// The blanking operations interpolated from the last position to the
    /// given cell: one patch per visited cell.
    fn interpolate_to(&self, x: i32, y: i32) -> (r: Vec<DrawOp>)
        requires
            self.wf(),
            coord_ok(x as int),
            coord_ok(y as int),
        ensures
            r@ == match self.spec_last_pos() {
                Some(p) => spec_erase_path(
                    bres_points(p.0 as int, p.1 as int, x as int, y as int, false),
                    self.spec_size(),
                ),
                None => spec_erase_at(x as int, y as int, self.spec_size()),
            },
            r@.len() >= 1,
    {
        match self.last_pos {
            Some(p) => {
                let pts = bres_march(p.0, p.1, x, y, false);
                let ghost pv = crate::tools::raster::pairs_of(pts@);
                proof {
                    assert(pv =~= bres_points(p.0 as int, p.1 as int, x as int, y as int, false));
                }
                let mut ops: Vec<DrawOp> = Vec::new();
                proof {
                    assert(pv.take(0) =~= Seq::<(int, int)>::empty());
                }
                let mut i: usize = 0;
                while i < pts.len()
                    invariant
                        i <= pts@.len(),
                        pv == crate::tools::raster::pairs_of(pts@),
                        pv == bres_points(p.0 as int, p.1 as int, x as int, y as int, false),
                        self.wf(),
                        forall|j: int|
                            0 <= j < pts@.len() ==> coord_ok(pts@[j].0 as int) && coord_ok(
                                pts@[j].1 as int,
                            ),
                        ops@ == spec_erase_path(pv.take(i as int), self.spec_size()),
                    decreases pts@.len() - i,
                {
                    let q = pts[i];
                    let mut patch = self.erase_at(q.0, q.1);
                    let ghost before = ops@;
                    ops.append(&mut patch);
                    proof {
                        let next = pv.take(i + 1);
                        assert(next.drop_last() =~= pv.take(i as int));
                        assert(next.last() == pv[i as int]);
                        assert(ops@ =~= spec_erase_path(next, self.spec_size()));
                    }
                    i = i + 1;
                }
                proof {
                    assert(pv.take(pts@.len() as int) =~= pv);
                    assert(pv.len() >= 1);
                    assert(spec_erase_path(pv, self.spec_size()).len() >= spec_erase_at(
                        pv.last().0,
                        pv.last().1,
                        self.spec_size(),
                    ).len());
                    lemma_erase_patch(pv.last().0, pv.last().1, self.spec_size());
                    assert((2 * self.spec_size() - 1) * (2 * self.spec_size() - 1) >= 1)
                        by (nonlinear_arith)
                        requires
                            self.spec_size() >= 1,
                    ;
                }
                ops
            },
            None => self.erase_at(x, y),
        }
    }

    /// Start a stroke at the (clamped) position and blank one patch there.
    pub fn on_pointer_down(&mut self, x: i32, y: i32, ctx: &ToolContext) -> (r: ToolResult)
        requires
            old(self).wf(),
            ctx.valid(),
        ensures
            final(self).spec_erasing(),
            final(self).wf(),
            final(self).spec_size() == old(self).spec_size(),
            ({
                let cx = crate::tools::spec_clamp_coord(x as int, ctx.grid_width as int);
                let cy = crate::tools::spec_clamp_coord(y as int, ctx.grid_height as int);
                let ops = spec_erase_at(cx, cy, old(self).spec_size());
                &&& final(self).spec_last_pos() == Some((cx as i32, cy as i32))
                &&& final(self).spec_buffer() == ops
                &&& r.ops@ == ops
                &&& r.modified
                &&& !r.finished
            }),
    {
        let (cx, cy) = clamp_to_grid(x, y, ctx.grid_width, ctx.grid_height);

        self.erasing = true;
        self.last_pos = Some((cx, cy));
        self.ops_buffer.clear();

        let ops = self.erase_at(cx, cy);
        let ghost buf0 = self.spec_buffer();
        let mut i: usize = 0;
        while i < ops.len()
            invariant
                i <= ops@.len(),
                self.spec_buffer() == buf0 + ops@.take(i as int),
                self.erasing,
                self.size == old(self).size,
                self.last_pos == Some((cx, cy)),
            decreases ops@.len() - i,
        {
            self.ops_buffer.push(ops[i]);
            proof {
                assert(buf0 + ops@.take(i as int + 1) =~= (buf0 + ops@.take(i as int)).push(
                    ops@[i as int],
                ));
            }
            i = i + 1;
        }
        proof {
            assert(ops@.take(ops@.len() as int) =~= ops@);
            assert(buf0 + ops@ =~= ops@);
        }

        ToolResult::new().with_ops(ops)
    }

    /// Extend the stroke to the (clamped) position, blanking patches along
    /// the interpolated path; a repeat of the same cell emits nothing.
    pub fn on_pointer_move(&mut self, x: i32, y: i32, ctx: &ToolContext) -> (r: ToolResult)
        requires
            old(self).wf(),
            ctx.valid(),
        ensures
            final(self).wf(),
            final(self).spec_erasing() == old(self).spec_erasing(),
            final(self).spec_size() == old(self).spec_size(),
            !old(self).spec_erasing() ==> *final(self) == *old(self) && r.ops@.len() == 0
                && !r.modified && !r.finished,
            old(self).spec_erasing() ==> ({
                let cx = crate::tools::spec_clamp_coord(x as int, ctx.grid_width as int);
                let cy = crate::tools::spec_clamp_coord(y as int, ctx.grid_height as int);
                if old(self).spec_last_pos() == Some((cx as i32, cy as i32)) {
                    *final(self) == *old(self) && r.ops@.len() == 0 && !r.modified && !r.finished
                } else {
                    let ops = match old(self).spec_last_pos() {
                        Some(p) => spec_erase_path(
                            bres_points(p.0 as int, p.1 as int, cx, cy, false),
                            old(self).spec_size(),
                        ),
                        None => spec_erase_at(cx, cy, old(self).spec_size()),
                    };
                    &&& final(self).spec_last_pos() == Some((cx as i32, cy as i32))
                    &&& final(self).spec_buffer() == old(self).spec_buffer() + ops
                    &&& r.ops@ == ops
                    &&& r.modified
                    &&& !r.finished
                }
            }),
    {
        if !self.erasing {
            return ToolResult::new();
        }

        let (cx, cy) = clamp_to_grid(x, y, ctx.grid_width, ctx.grid_height);

        let same = match self.last_pos {
            Some(p) => p.0 == cx && p.1 == cy,
            None => false,
        };
        if same {
            return ToolResult::new();
        }

        let ops = self.interpolate_to(cx, cy);
        self.last_pos = Some((cx, cy));

        let ghost buf0 = self.spec_buffer();
        let mut i: usize = 0;
        while i < ops.len()
            invariant
                i <= ops@.len(),
                self.spec_buffer() == buf0 + ops@.take(i as int),
                self.erasing == old(self).erasing,
                self.size == old(self).size,
                self.last_pos == Some((cx, cy)),
            decreases ops@.len() - i,
        {
            self.ops_buffer.push(ops[i]);
            proof {
                assert(buf0 + ops@.take(i as int + 1) =~= (buf0 + ops@.take(i as int)).push(
                    ops@[i as int],
                ));
            }
            i = i + 1;
        }
        proof {
            assert(ops@.take(ops@.len() as int) =~= ops@);
        }

        ToolResult::new().with_ops(ops)
    }

    /// Conclude the stroke: flush all buffered operations as one finished
    /// batch and clear the buffer.
    pub fn on_pointer_up(&mut self, _x: i32, _y: i32, _ctx: &ToolContext) -> (r: ToolResult)
        ensures
            !final(self).spec_erasing(),
            final(self).spec_last_pos() is None,
            final(self).spec_size() == old(self).spec_size(),
            final(self).spec_buffer().len() == 0,
            old(self).wf() ==> final(self).wf(),
            r.ops@ == old(self).spec_buffer(),
            r.finished,
            r.modified == (old(self).spec_buffer().len() > 0),
    {
        self.erasing = false;
        self.last_pos = None;

        let ops = self.ops_buffer.to_vec();
        self.ops_buffer.clear();

        ToolResult::new().with_ops(ops).finish()
    }

    /// Abandon the stroke, discarding the buffer.
    pub fn reset(&mut self)
        ensures
            !final(self).spec_erasing(),
            final(self).spec_last_pos() is None,
            final(self).spec_size() == old(self).spec_size(),
            final(self).spec_buffer().len() == 0,
            old(self).wf() ==> final(self).wf(),
    {
        self.erasing = false;
        self.last_pos = None;
        self.ops_buffer.clear();
    }

    /// True while a stroke is open.
    pub fn is_active(&self) -> (r: bool)
        ensures
            r == self.spec_erasing(),
    {
        self.erasing
    }
}

impl Default for EraserTool {
    /// The default eraser has size 1 and no stroke open.
    fn default() -> (r: Self)
        ensures
            !r.spec_erasing(),
            r.spec_last_pos() is None,
            r.spec_size() == 1,
            r.spec_buffer().len() == 0,
            r.wf(),
    {
        EraserTool { erasing: false, last_pos: None, size: 1, ops_buffer: OpBuffer::new() }
    }
}

} // verus!
