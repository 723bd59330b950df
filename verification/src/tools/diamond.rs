//! Diamond tool: draws four interpolated half-diagonals from the bounding
//! box's center to its edge midpoints, then de-duplicates coincident cells
//! by sorting on `(y, x)` and removing adjacent duplicates.

use vstd::prelude::*;

use crate::tools::raster::coord_ok;
use crate::tools::clamp_to_grid;
use crate::tools::DrawOp;
use crate::tools::ToolContext;
use crate::tools::ToolId;
use crate::tools::ToolResult;

verus! {

/// Division by two truncating toward zero, as the machine performs it.
pub open spec fn div2_trunc(v: int) -> int {
    if v >= 0 {
        v / 2
    } else {
        -((-v) / 2)
    }
}

/// The cells of a simultaneous diagonal march from `(x1, y1)` to
/// `(x2, y2)`: both axes step every cell until each reaches its target.
pub open spec fn diag_points(x1: int, y1: int, x2: int, y2: int) -> Seq<(int, int)> {
    let dx = if x1 < x2 { x2 - x1 } else { x1 - x2 };
    let dy = if y1 < y2 { y2 - y1 } else { y1 - y2 };
    let sx: int = if x1 < x2 { 1 } else { -1 };
    let sy: int = if y1 < y2 { 1 } else { -1 };
    let n = if dx < dy { dy } else { dx };
    Seq::new(
        (n + 1) as nat,
        |t: int|
            (
                x1 + sx * (if t < dx { t } else { dx }),
                y1 + sy * (if t < dy { t } else { dy }),
            ),
    )
}

/// The glyph of a diagonal segment: `ch1` when it heads up-right or
/// down-left, `ch2` otherwise.
pub open spec fn diag_char(x1: int, y1: int, x2: int, y2: int, ch1: char, ch2: char) -> char {
    let sx: int = if x1 < x2 { 1 } else { -1 };
    let sy: int = if y1 < y2 { 1 } else { -1 };
    if (sx > 0 && sy < 0) || (sx < 0 && sy > 0) {
        ch1
    } else {
        ch2
    }
}

/// The draw operations of one diagonal segment.
pub open spec fn spec_diag_ops(x1: int, y1: int, x2: int, y2: int, ch1: char, ch2: char) -> Seq<
    DrawOp,
> {
    let pts = diag_points(x1, y1, x2, y2);
    let ch = diag_char(x1, y1, x2, y2, ch1, ch2);
    Seq::new(pts.len(), |i: int| DrawOp::spec_new(pts[i].0, pts[i].1, ch))
}

/// Ordering on operations by `(y, x)`.
pub open spec fn key_le(a: DrawOp, b: DrawOp) -> bool {
    a.y < b.y || (a.y == b.y && a.x <= b.x)
}

/// `op` inserted into `s` behind every element whose key is not greater:
/// among equal keys the new element comes last, which makes the sort stable.
pub open spec fn sorted_insert(s: Seq<DrawOp>, op: DrawOp) -> Seq<DrawOp>
    decreases s.len(),
{
    if s.len() == 0 {
        seq![op]
    } else if key_le(s.last(), op) {
        s.push(op)
    } else {
        sorted_insert(s.drop_last(), op).push(s.last())
    }
}

/// The stable sort of `s` by `(y, x)`: elements inserted in order.
pub open spec fn stable_sort(s: Seq<DrawOp>) -> Seq<DrawOp>
    decreases s.len(),
{
    if s.len() == 0 {
        Seq::empty()
    } else {
        sorted_insert(stable_sort(s.drop_last()), s.last())
    }
}

/// Two operations target the same cell.
pub open spec fn same_cell(a: DrawOp, b: DrawOp) -> bool {
    a.x == b.x && a.y == b.y
}

/// `s` with adjacent elements targeting the same cell collapsed to the
/// first of each run.
pub open spec fn dedup_adjacent(s: Seq<DrawOp>) -> Seq<DrawOp>
    decreases s.len(),
{
    if s.len() <= 1 {
        s
    } else if same_cell(s[s.len() - 1], s[s.len() - 2]) {
        dedup_adjacent(s.drop_last())
    } else {
        dedup_adjacent(s.drop_last()).push(s.last())
    }
}

/// The draw operations of the diamond spanned by the two corners: a single
/// filled-diamond glyph for a zero-extent drag, otherwise the four
/// center-to-edge diagonals, sorted by `(y, x)` and de-duplicated.
pub open spec fn spec_diamond_ops(x1: int, y1: int, x2: int, y2: int) -> Seq<DrawOp> {
    let cx = div2_trunc(x1 + x2);
    let cy = div2_trunc(y1 + y2);
    let half_width = div2_trunc(if x1 < x2 { x2 - x1 } else { x1 - x2 });
    let half_height = div2_trunc(if y1 < y2 { y2 - y1 } else { y1 - y2 });
    if half_width == 0 && half_height == 0 {
        seq![DrawOp::spec_new(cx, cy, '◆')]
    } else {
        let all = spec_diag_ops(cx, cy, cx, cy - half_height, '/', '\\') + spec_diag_ops(
            cx,
            cy,
            cx + half_width,
            cy,
            '/',
            '\\',
        ) + spec_diag_ops(cx, cy, cx, cy + half_height, '\\', '/') + spec_diag_ops(
            cx,
            cy,
            cx - half_width,
            cy,
            '\\',
            '/',
        );
        dedup_adjacent(stable_sort(all))
    }
}

/// Inserting at the position found by scanning greater keys off the end
/// splits the sequence exactly as `sorted_insert` does.
proof fn lemma_insert_at(s: Seq<DrawOp>, op: DrawOp, j: int)
    requires
        0 <= j <= s.len(),
        forall|k: int| j <= k < s.len() ==> !key_le(#[trigger] s[k], op),
        j > 0 ==> key_le(s[j - 1], op),
    ensures
        sorted_insert(s, op) == s.take(j) + seq![op] + s.skip(j),
    decreases s.len(),
{
    if s.len() == 0 {
        assert(sorted_insert(s, op) =~= s.take(j) + seq![op] + s.skip(j));
    } else if key_le(s.last(), op) {
        assert(j == s.len());
        assert(s.take(j) =~= s);
        assert(sorted_insert(s, op) =~= s.take(j) + seq![op] + s.skip(j));
    } else {
        assert(j < s.len());
        let init = s.drop_last();
        assert(forall|k: int| j <= k < init.len() ==> !key_le(#[trigger] init[k], op));
        if j > 0 {
            assert(init[j - 1] == s[j - 1]);
        }
        lemma_insert_at(init, op, j);
        assert(init.take(j) =~= s.take(j));
        assert(sorted_insert(s, op) == (s.take(j) + seq![op] + init.skip(j)).push(s.last()));
        assert((s.take(j) + seq![op] + init.skip(j)).push(s.last()) =~= s.take(j) + seq![op]
            + s.skip(j));
    }
}

/// Diamond drawing tool: pointer-down records the anchor, each move
/// previews the diamond, pointer-up commits it.
pub struct DiamondTool {
    /// Start point of the current drag, if one is open.
    start: Option<(i32, i32)>,
}

impl DiamondTool {
    /// The recorded anchor, if a drag is open.
    pub closed spec fn spec_start(&self) -> Option<(i32, i32)> {
        self.start
    }

    /// Any recorded anchor lies in the workable coordinate range.
    pub open spec fn wf(&self) -> bool {
        match self.spec_start() {
            Some(p) => coord_ok(p.0 as int) && coord_ok(p.1 as int),
            None => true,
        }
    }

    /// Create a new diamond tool with no drag open.
    pub fn new() -> (r: Self)
        ensures
            r.spec_start() is None,
            r.wf(),
    {
        DiamondTool { start: None }
    }

    /// The tool's identifier.
    pub fn id(&self) -> (r: ToolId)
        ensures
            r == ToolId::Diamond,
    {
        ToolId::Diamond
    }

    /// Compute the draw operations for the diamond between the two corners.
    pub fn draw_diamond(&self, x1: i32, y1: i32, x2: i32, y2: i32) -> (r: Vec<DrawOp>)
        requires
            coord_ok(x1 as int),
            coord_ok(y1 as int),
            coord_ok(x2 as int),
            coord_ok(y2 as int),
        ensures
            r@ == spec_diamond_ops(x1 as int, y1 as int, x2 as int, y2 as int),
    {
        let cx = div2(x1 + x2);
        let cy = div2(y1 + y2);
        let half_width = div2(if x1 < x2 { x2 - x1 } else { x1 - x2 });
        let half_height = div2(if y1 < y2 { y2 - y1 } else { y1 - y2 });

        if half_width == 0 && half_height == 0 {
            let mut ops: Vec<DrawOp> = Vec::new();
            ops.push(DrawOp::new(cx, cy, '◆'));
            proof {
                assert(ops@ =~= spec_diamond_ops(x1 as int, y1 as int, x2 as int, y2 as int));
            }
            return ops;
        }

        let mut all: Vec<DrawOp> = Vec::new();
        let mut seg = Self::draw_diagonal_line(cx, cy, cx, cy - half_height, '/', '\\');
        all.append(&mut seg);
        let mut seg = Self::draw_diagonal_line(cx, cy, cx + half_width, cy, '/', '\\');
        all.append(&mut seg);
        let mut seg = Self::draw_diagonal_line(cx, cy, cx, cy + half_height, '\\', '/');
        all.append(&mut seg);
        let mut seg = Self::draw_diagonal_line(cx, cy, cx - half_width, cy, '\\', '/');
        all.append(&mut seg);

        let sorted = sort_ops(all);
        let deduped = dedup_ops(sorted);
        proof {
            assert(deduped@ == spec_diamond_ops(x1 as int, y1 as int, x2 as int, y2 as int));
        }
        deduped
    }

    /// The draw operations of one diagonal segment: both axes step each cell
    /// until they reach the target.
    pub fn draw_diagonal_line(x1: i32, y1: i32, x2: i32, y2: i32, ch1: char, ch2: char) -> (r: Vec<
        DrawOp,
    >)
        requires
            -0x8000 <= x1 <= 0x8000,
            -0x8000 <= y1 <= 0x8000,
            -0x8000 <= x2 <= 0x8000,
            -0x8000 <= y2 <= 0x8000,
        ensures
            r@ == spec_diag_ops(x1 as int, y1 as int, x2 as int, y2 as int, ch1, ch2),
    {
        let dx: i32 = if x1 < x2 { x2 - x1 } else { x1 - x2 };
        let dy: i32 = if y1 < y2 { y2 - y1 } else { y1 - y2 };
        let sx: i32 = if x1 < x2 { 1 } else { -1 };
        let sy: i32 = if y1 < y2 { 1 } else { -1 };
        let n: i32 = if dx < dy { dy } else { dx };
        let ch = if (sx > 0 && sy < 0) || (sx < 0 && sy > 0) { ch1 } else { ch2 };

        let mut ops: Vec<DrawOp> = Vec::new();
        let mut t: i32 = 0;
        while t <= n
            invariant
                0 <= t <= n + 1,
                ops@.len() == t,
                forall|j: int|
                    0 <= j < t ==> ops@[j] == spec_diag_ops(
                        x1 as int,
                        y1 as int,
                        x2 as int,
                        y2 as int,
                        ch1,
                        ch2,
                    )[j],
            decreases n + 1 - t,
        {
            let xs: i32 = if t < dx { t } else { dx };
            let ys: i32 = if t < dy { t } else { dy };
            let px = if x1 < x2 { x1 + xs } else { x1 - xs };
            let py = if y1 < y2 { y1 + ys } else { y1 - ys };
            ops.push(DrawOp::new(px, py, ch));
            proof {
                assert(px == x1 + (if x1 < x2 { 1int } else { -1int }) * (if t < dx {
                    t as int
                } else {
                    dx as int
                }));
                assert(py == y1 + (if y1 < y2 { 1int } else { -1int }) * (if t < dy {
                    t as int
                } else {
                    dy as int
                }));
            }
            t = t + 1;
        }
        proof {
            assert(ops@ =~= spec_diag_ops(x1 as int, y1 as int, x2 as int, y2 as int, ch1, ch2));
        }
        ops
    }

    /// Record the anchor of a new drag; emits nothing.
    pub fn on_pointer_down(&mut self, x: i32, y: i32, _ctx: &ToolContext) -> (r: ToolResult)
        requires
            coord_ok(x as int),
            coord_ok(y as int),
        ensures
            final(self).spec_start() == Some((x, y)),
            final(self).wf(),
            r.ops@.len() == 0,
            !r.finished,
            !r.modified,
    {
        self.start = Some((x, y));
        ToolResult::new()
    }

    /// Preview the diamond from the anchor to the (clamped) pointer position.
    pub fn on_pointer_move(&mut self, x: i32, y: i32, ctx: &ToolContext) -> (r: ToolResult)
        requires
            old(self).wf(),
            ctx.valid(),
        ensures
            *final(self) == *old(self),
            match old(self).spec_start() {
                Some(p) => {
                    &&& r.ops@ == spec_diamond_ops(
                        p.0 as int,
                        p.1 as int,
                        crate::tools::spec_clamp_coord(x as int, ctx.grid_width as int),
                        crate::tools::spec_clamp_coord(y as int, ctx.grid_height as int),
                    )
                    &&& r.modified == (r.ops@.len() > 0)
                    &&& !r.finished
                },
                None => r.ops@.len() == 0 && !r.modified && !r.finished,
            },
    {
        if let Some(start) = self.start {
            let (cx, cy) = clamp_to_grid(x, y, ctx.grid_width, ctx.grid_height);
            let ops = self.draw_diamond(start.0, start.1, cx, cy);
            ToolResult::new().with_ops(ops)
        } else {
            ToolResult::new()
        }
    }

    /// Draw the final diamond, conclude the gesture and reset.
    pub fn on_pointer_up(&mut self, x: i32, y: i32, ctx: &ToolContext) -> (r: ToolResult)
        requires
            old(self).wf(),
            ctx.valid(),
        ensures
            final(self).spec_start() is None,
            final(self).wf(),
            match old(self).spec_start() {
                Some(p) => {
                    &&& r.ops@ == spec_diamond_ops(
                        p.0 as int,
                        p.1 as int,
                        crate::tools::spec_clamp_coord(x as int, ctx.grid_width as int),
                        crate::tools::spec_clamp_coord(y as int, ctx.grid_height as int),
                    )
                    &&& r.modified == (r.ops@.len() > 0)
                    &&& r.finished
                },
                None => r.ops@.len() == 0 && !r.modified && !r.finished,
            },
    {
        if let Some(start) = self.start {
            let (cx, cy) = clamp_to_grid(x, y, ctx.grid_width, ctx.grid_height);
            let ops = self.draw_diamond(start.0, start.1, cx, cy);
            self.start = None;
            ToolResult::new().with_ops(ops).finish()
        } else {
            self.start = None;
            ToolResult::new()
        }
    }

    /// Abandon any open drag without emitting anything.
    pub fn reset(&mut self)
        ensures
            final(self).spec_start() is None,
            final(self).wf(),
    {
        self.start = None;
    }

    /// True while a drag is open.
    pub fn is_active(&self) -> (r: bool)
        ensures
            r == (self.spec_start() is Some),
    {
        self.start.is_some()
    }
}

impl Default for DiamondTool {
    /// The default diamond tool has no drag open.
    fn default() -> (r: Self)
        ensures
            r.spec_start() is None,
            r.wf(),
    {
        DiamondTool { start: None }
    }
}

/// Division by two truncating toward zero.
fn div2(v: i32) -> (r: i32)
    requires
        i32::MIN < v,
    ensures
        r == div2_trunc(v as int),
{
    if v >= 0 {
        v / 2
    } else {
        -((-v) / 2)
    }
}

/// Stable insertion sort of the operations by `(y, x)`.
fn sort_ops(ops: Vec<DrawOp>) -> (r: Vec<DrawOp>)
    ensures
        r@ == stable_sort(ops@),
{
    let mut out: Vec<DrawOp> = Vec::new();
    let n = ops.len();
    let mut i: usize = 0;
    while i < n
        invariant
            i <= n,
            n == ops@.len(),
            out@ == stable_sort(ops@.take(i as int)),
        decreases n - i,
    {
        let op = ops[i];
        let mut j: usize = out.len();
        while j > 0 && key_gt(&out[j - 1], &op)
            invariant
                j <= out@.len(),
                forall|k: int| j <= k < out@.len() ==> !key_le(#[trigger] out@[k], op),
            decreases j,
        {
            j = j - 1;
        }
        let ghost before = out@;
        out.insert(j, op);
        proof {
            lemma_insert_at(before, op, j as int);
            assert(out@ =~= sorted_insert(before, op));
            let next = ops@.take(i + 1);
            assert(next.drop_last() =~= ops@.take(i as int));
            assert(next.last() == ops@[i as int]);
            assert(out@ == stable_sort(next));
        }
        i = i + 1;
    }
    proof {
        assert(ops@.take(n as int) =~= ops@);
    }
    out
}

/// Whether `a`'s key is strictly greater than `b`'s.
fn key_gt(a: &DrawOp, b: &DrawOp) -> (r: bool)
    ensures
        r == !key_le(*a, *b),
{
    a.y > b.y || (a.y == b.y && a.x > b.x)
}

/// Remove adjacent operations targeting the same cell, keeping the first of
/// each run.
fn dedup_ops(ops: Vec<DrawOp>) -> (r: Vec<DrawOp>)
    ensures
        r@ == dedup_adjacent(ops@),
{
    let mut out: Vec<DrawOp> = Vec::new();
    let n = ops.len();
    let mut i: usize = 0;
    while i < n
        invariant
            i <= n,
            n == ops@.len(),
            out@ == dedup_adjacent(ops@.take(i as int)),
            i > 0 ==> out@.len() > 0 && same_cell(out@.last(), ops@[i - 1]),
        decreases n - i,
    {
        let op = ops[i];
        let same = if out.len() > 0 {
            let last = out[out.len() - 1];
            last.x == op.x && last.y == op.y
        } else {
            false
        };
        proof {
            let next = ops@.take(i + 1);
            assert(next.drop_last() =~= ops@.take(i as int));
            assert(next.last() == ops@[i as int]);
            if i > 0 {
                assert(next[next.len() - 2] == ops@[i - 1]);
            }
        }
        if !same {
            out.push(op);
        }
        i = i + 1;
    }
    proof {
        assert(ops@.take(n as int) =~= ops@);
    }
    out
}

/// A zero-extent diamond is a single operation bearing the filled-diamond
/// glyph at the drag point.
pub proof fn lemma_diamond_degenerate(x: int, y: int)
    ensures
        spec_diamond_ops(x, y, x, y) == seq![DrawOp::spec_new(div2_trunc(2 * x), div2_trunc(2 * y), '◆')],
{
}

} // verus!
