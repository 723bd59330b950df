//! The draw-batch command: applies a list of draw operations atomically,
//! capturing each overwritten cell so that undo can restore them in reverse
//! order.

use vstd::prelude::*;
use vstd::arithmetic::div_mod::lemma_fundamental_div_mod;
use vstd::string::StringExecFns;

use crate::cell::Cell;
use crate::grid::Grid;
use crate::grid::GridView;
use crate::grid::lemma_idx_bounds;
use crate::grid::lemma_idx_injective;
use crate::strutil::draw_description;
use crate::strutil::push_decimal;
use crate::tools::DrawOp;

verus! {

/// A cell state captured before a draw operation overwrote it: the
/// coordinate, and the prior cell (`None` when the coordinate was out of
/// bounds, so nothing was overwritten).
pub type PrevEntry = (i32, i32, Option<Cell>);

/// The grid after the draw operations have been written in order.
/// Out-of-bounds operations change nothing.
pub open spec fn apply_ops(g: GridView, ops: Seq<DrawOp>) -> GridView
    decreases ops.len(),
{
    if ops.len() == 0 {
        g
    } else {
        apply_ops(g, ops.drop_last()).write(ops.last().x as int, ops.last().y as int, ops.last().cell)
    }
}

/// The prior cell states of the operations' targets, all read from the grid
/// as it stands before any of the operations is applied.
pub open spec fn capture(g: GridView, ops: Seq<DrawOp>) -> Seq<PrevEntry> {
    Seq::new(
        ops.len(),
        |i: int|
            (
                ops[i].x,
                ops[i].y,
                if g.in_bounds(ops[i].x as int, ops[i].y as int) {
                    Some(g.cell_at(ops[i].x as int, ops[i].y as int))
                } else {
                    None
                },
            ),
    )
}

/// One captured entry written back: a captured cell is restored, a `None`
/// capture clears the cell to the default (a no-op out of bounds).
pub open spec fn restore_one(g: GridView, e: PrevEntry) -> GridView {
    match e.2 {
        Some(c) => g.write(e.0 as int, e.1 as int, c),
        None => g.write(e.0 as int, e.1 as int, Cell::spec_default()),
    }
}

/// The grid after the captured entries have been written back in order.
pub open spec fn restore(g: GridView, entries: Seq<PrevEntry>) -> GridView
    decreases entries.len(),
{
    if entries.len() == 0 {
        g
    } else {
        restore_one(restore(g, entries.drop_last()), entries.last())
    }
}

/// The largest index of an operation targeting `(x, y)`, or `-1` if none does.
pub open spec fn last_touch(ops: Seq<DrawOp>, x: int, y: int) -> int
    decreases ops.len(),
{
    if ops.len() == 0 {
        -1
    } else if ops.last().x == x && ops.last().y == y {
        ops.len() - 1
    } else {
        last_touch(ops.drop_last(), x, y)
    }
}

/// The largest index of a captured entry targeting `(x, y)`, or `-1`.
pub open spec fn last_touch_prev(entries: Seq<PrevEntry>, x: int, y: int) -> int
    decreases entries.len(),
{
    if entries.len() == 0 {
        -1
    } else if entries.last().0 == x && entries.last().1 == y {
        entries.len() - 1
    } else {
        last_touch_prev(entries.drop_last(), x, y)
    }
}

/// `last_touch` finds a touching operation exactly when one exists, and the
/// index it returns touches `(x, y)`.
pub proof fn lemma_last_touch(ops: Seq<DrawOp>, x: int, y: int)
    ensures
        last_touch(ops, x, y) >= 0 <==> exists|i: int|
            0 <= i < ops.len() && ops[i].x == x && ops[i].y == y,
        last_touch(ops, x, y) >= 0 ==> {
            let lt = last_touch(ops, x, y);
            &&& lt < ops.len()
            &&& ops[lt].x == x
            &&& ops[lt].y == y
        },
    decreases ops.len(),
{
    if ops.len() > 0 {
        lemma_last_touch(ops.drop_last(), x, y);
        if !(ops.last().x == x && ops.last().y == y) {
            if exists|i: int| 0 <= i < ops.len() && ops[i].x == x && ops[i].y == y {
                let i = choose|i: int| 0 <= i < ops.len() && ops[i].x == x && ops[i].y == y;
                assert(i < ops.len() - 1);
                assert(ops.drop_last()[i] == ops[i]);
            }
        }
    }
}

/// `last_touch_prev` finds a touching entry exactly when one exists, and the
/// index it returns touches `(x, y)`.
pub proof fn lemma_last_touch_prev(entries: Seq<PrevEntry>, x: int, y: int)
    ensures
        last_touch_prev(entries, x, y) >= 0 <==> exists|i: int|
            0 <= i < entries.len() && entries[i].0 == x && entries[i].1 == y,
        last_touch_prev(entries, x, y) >= 0 ==> {
            let lt = last_touch_prev(entries, x, y);
            &&& lt < entries.len()
            &&& entries[lt].0 == x
            &&& entries[lt].1 == y
        },
    decreases entries.len(),
{
    if entries.len() > 0 {
        lemma_last_touch_prev(entries.drop_last(), x, y);
        if !(entries.last().0 == x && entries.last().1 == y) {
            if exists|i: int| 0 <= i < entries.len() && entries[i].0 == x && entries[i].1 == y {
                let i = choose|i: int|
                    0 <= i < entries.len() && entries[i].0 == x && entries[i].1 == y;
                assert(i < entries.len() - 1);
                assert(entries.drop_last()[i] == entries[i]);
            }
        }
    }
}

/// Applying draw operations keeps the grid's dimensions and well-formedness.
pub proof fn lemma_apply_ops_wf(g: GridView, ops: Seq<DrawOp>)
    ensures
        apply_ops(g, ops).width == g.width,
        apply_ops(g, ops).height == g.height,
        g.wf() ==> apply_ops(g, ops).wf(),
    decreases ops.len(),
{
    if ops.len() > 0 {
        lemma_apply_ops_wf(g, ops.drop_last());
        let h = apply_ops(g, ops.drop_last());
        if g.wf() && h.in_bounds(ops.last().x as int, ops.last().y as int) {
            lemma_idx_bounds(h, ops.last().x as int, ops.last().y as int);
        }
    }
}

/// What a cell holds after the operations are applied: the cell of the last
/// operation that targeted it, or its prior content if none did.
pub proof fn lemma_apply_ops_cell(g: GridView, ops: Seq<DrawOp>, x: int, y: int)
    requires
        g.wf(),
        g.in_bounds(x, y),
    ensures
        apply_ops(g, ops).cell_at(x, y) == if last_touch(ops, x, y) >= 0 {
            ops[last_touch(ops, x, y)].cell
        } else {
            g.cell_at(x, y)
        },
    decreases ops.len(),
{
    lemma_apply_ops_wf(g, ops);
    if ops.len() > 0 {
        lemma_apply_ops_cell(g, ops.drop_last(), x, y);
        lemma_apply_ops_wf(g, ops.drop_last());
        let h = apply_ops(g, ops.drop_last());
        let op = ops.last();
        lemma_idx_bounds(h, x, y);
        assert(apply_ops(g, ops) == h.write(op.x as int, op.y as int, op.cell));
        if op.x == x && op.y == y {
            assert(last_touch(ops, x, y) == ops.len() - 1);
            assert(h.in_bounds(op.x as int, op.y as int));
            assert(apply_ops(g, ops).cell_at(x, y) == op.cell);
        } else {
            assert(last_touch(ops, x, y) == last_touch(ops.drop_last(), x, y));
            if h.in_bounds(op.x as int, op.y as int) {
                lemma_idx_bounds(h, op.x as int, op.y as int);
                if h.idx(op.x as int, op.y as int) == h.idx(x, y) {
                    lemma_idx_injective(h, op.x as int, op.y as int, x, y);
                }
            }
            assert(apply_ops(g, ops).cell_at(x, y) == h.cell_at(x, y));
            if last_touch(ops, x, y) >= 0 {
                lemma_last_touch(ops.drop_last(), x, y);
                assert(ops.drop_last()[last_touch(ops, x, y)] == ops[last_touch(ops, x, y)]);
            }
        }
    }
}

/// Restoring captured entries keeps the grid's dimensions and well-formedness.
pub proof fn lemma_restore_wf(g: GridView, entries: Seq<PrevEntry>)
    ensures
        restore(g, entries).width == g.width,
        restore(g, entries).height == g.height,
        g.wf() ==> restore(g, entries).wf(),
    decreases entries.len(),
{
    if entries.len() > 0 {
        lemma_restore_wf(g, entries.drop_last());
        let h = restore(g, entries.drop_last());
        let e = entries.last();
        if g.wf() && h.in_bounds(e.0 as int, e.1 as int) {
            lemma_idx_bounds(h, e.0 as int, e.1 as int);
        }
    }
}

/// What a cell holds after the entries are restored: the value carried by the
/// last entry that targeted it, or its prior content if none did.
pub proof fn lemma_restore_cell(g: GridView, entries: Seq<PrevEntry>, x: int, y: int)
    requires
        g.wf(),
        g.in_bounds(x, y),
    ensures
        restore(g, entries).cell_at(x, y) == if last_touch_prev(entries, x, y) >= 0 {
            match entries[last_touch_prev(entries, x, y)].2 {
                Some(c) => c,
                None => Cell::spec_default(),
            }
        } else {
            g.cell_at(x, y)
        },
    decreases entries.len(),
{
    lemma_restore_wf(g, entries);
    if entries.len() > 0 {
        lemma_restore_cell(g, entries.drop_last(), x, y);
        lemma_restore_wf(g, entries.drop_last());
        let h = restore(g, entries.drop_last());
        let e = entries.last();
        lemma_idx_bounds(h, x, y);
        assert(restore(g, entries) == restore_one(h, e));
        if e.0 == x && e.1 == y {
            assert(last_touch_prev(entries, x, y) == entries.len() - 1);
            assert(h.in_bounds(e.0 as int, e.1 as int));
        } else {
            assert(last_touch_prev(entries, x, y) == last_touch_prev(entries.drop_last(), x, y));
            if h.in_bounds(e.0 as int, e.1 as int) {
                lemma_idx_bounds(h, e.0 as int, e.1 as int);
                if h.idx(e.0 as int, e.1 as int) == h.idx(x, y) {
                    lemma_idx_injective(h, e.0 as int, e.1 as int, x, y);
                }
            }
            assert(restore(g, entries).cell_at(x, y) == h.cell_at(x, y));
            if last_touch_prev(entries, x, y) >= 0 {
                lemma_last_touch_prev(entries.drop_last(), x, y);
                assert(entries.drop_last()[last_touch_prev(entries, x, y)] == entries[last_touch_prev(
                    entries,
                    x,
                    y,
                )]);
            }
        }
    }
}

/// Every flat index of a well-formed grid corresponds to one valid coordinate.
proof fn lemma_index_to_coords(g: GridView, k: int) -> (p: (int, int))
    requires
        g.wf(),
        0 <= k < g.cells.len(),
    ensures
        g.in_bounds(p.0, p.1),
        g.idx(p.0, p.1) == k,
{
    assert(g.width > 0) by (nonlinear_arith)
        requires
            g.cells.len() == g.width * g.height,
            k < g.cells.len(),
            0 <= k,
    ;
    let x = k % g.width as int;
    let y = k / g.width as int;
    lemma_fundamental_div_mod(k, g.width as int);
    assert(0 <= x < g.width);
    assert(y < g.height) by (nonlinear_arith)
        requires
            k == g.width * y + x,
            0 <= x < g.width,
            k < g.width * g.height,
            g.width > 0,
            0 <= k,
    ;
    assert(0 <= y) by (nonlinear_arith)
        requires
            k == g.width * y + x,
            0 <= x < g.width,
            0 <= k,
            g.width > 0,
    ;
    (x, y)
}

/// Round trip of a draw batch: applying a list of operations to a grid and
/// then writing the captured prior cells back in reverse order restores the
/// grid exactly, cell for cell — also when several operations target the same
/// cell, and also when operations fall outside the grid.
pub proof fn lemma_draw_round_trip(g: GridView, ops: Seq<DrawOp>)
    requires
        g.wf(),
    ensures
        restore(apply_ops(g, ops), capture(g, ops).reverse()) == g,
{
    let g1 = apply_ops(g, ops);
    let cap = capture(g, ops);
    let e = cap.reverse();
    let g2 = restore(g1, e);
    lemma_apply_ops_wf(g, ops);
    lemma_restore_wf(g1, e);

    assert forall|x: int, y: int| g.in_bounds(x, y) implies g2.cell_at(x, y) == g.cell_at(x, y) by {
        lemma_apply_ops_cell(g, ops, x, y);
        lemma_restore_cell(g1, e, x, y);
        lemma_last_touch(ops, x, y);
        lemma_last_touch_prev(e, x, y);
        let lt_e = last_touch_prev(e, x, y);
        if lt_e >= 0 {
            // The restoring entry was captured from `g` at `(x, y)` itself.
            assert(e[lt_e] == cap[cap.len() - 1 - lt_e]);
        } else {
            // No entry touches `(x, y)`, so no operation did either, and the
            // cell was never overwritten.
            if last_touch(ops, x, y) >= 0 {
                let i = last_touch(ops, x, y);
                assert(e[e.len() - 1 - i] == cap[i]);
                assert(e[e.len() - 1 - i].0 == x && e[e.len() - 1 - i].1 == y);
            }
        }
    }

    assert(g2.cells =~= g.cells) by {
        assert forall|k: int| 0 <= k < g.cells.len() implies g2.cells[k] == g.cells[k] by {
            let p = lemma_index_to_coords(g, k);
            assert(g2.cell_at(p.0, p.1) == g.cell_at(p.0, p.1));
        }
    }
    assert(g2 == g);
}

/// Mathematical model of a [`DrawCommand`].
pub ghost struct DrawModel {
    /// The operations to apply, in order.
    pub ops: Seq<DrawOp>,
    /// The captured prior cell states, in operation order.
    pub previous: Seq<PrevEntry>,
    /// Whether the command is currently applied.
    pub applied: bool,
    /// The human-readable description.
    pub description: Seq<char>,
}

impl DrawModel {
    /// The model after applying to a grid: capture first, then write all
    /// operations in order. A second apply, or an empty batch, changes nothing.
    pub open spec fn apply_t(self, g: GridView) -> (DrawModel, GridView) {
        if self.applied || self.ops.len() == 0 {
            (self, g)
        } else {
            (
                DrawModel {
                    ops: self.ops,
                    previous: capture(g, self.ops),
                    applied: true,
                    description: self.description,
                },
                apply_ops(g, self.ops),
            )
        }
    }

    /// The model after undoing against a grid: the captured prior states are
    /// written back in reverse order. Undo of an unapplied command changes
    /// nothing.
    pub open spec fn undo_t(self, g: GridView) -> (DrawModel, GridView) {
        if !self.applied {
            (self, g)
        } else {
            (
                DrawModel {
                    ops: self.ops,
                    previous: self.previous,
                    applied: false,
                    description: self.description,
                },
                restore(g, self.previous.reverse()),
            )
        }
    }
}

/// Command that applies a batch of draw operations.
pub struct DrawCommand {
    /// Operations to apply.
    ops: Vec<DrawOp>,
    /// Previous cell states for undo.
    previous: Vec<PrevEntry>,
    /// Whether the command has been applied.
    applied: bool,
    /// Description of the operation.
    description: String,
}

impl View for DrawCommand {
    type V = DrawModel;

    closed spec fn view(&self) -> DrawModel {
        DrawModel {
            ops: self.ops@,
            previous: self.previous@,
            applied: self.applied,
            description: self.description@,
        }
    }
}

impl DrawCommand {
    /// Create a new draw command from operations, not yet applied.
    pub fn new(ops: Vec<DrawOp>) -> (r: Self)
        ensures
            r@.ops == ops@,
            r@.previous.len() == 0,
            !r@.applied,
            r@.description == draw_description(ops@.len() as int),
    {
        let count = ops.len();
        let description = if count == 1 {
            let d = String::new();
            let d = d.concat("Draw");
            proof {
                assert(d@ =~= draw_description(1));
            }
            d
        } else {
            let d = String::new();
            let mut d = d.concat("Draw ");
            proof {
                assert(d@ =~= "Draw "@);
            }
            push_decimal(&mut d, count);
            let d = d.concat(" cells");
            proof {
                assert(d@ =~= draw_description(count as int));
            }
            d
        };
        DrawCommand { ops, previous: Vec::new(), applied: false, description }
    }

    /// Create a draw command with an explicit description.
    pub fn with_description(ops: Vec<DrawOp>, description: String) -> (r: Self)
        ensures
            r@.ops == ops@,
            r@.previous.len() == 0,
            !r@.applied,
            r@.description == description@,
    {
        DrawCommand { ops, previous: Vec::new(), applied: false, description }
    }

    /// Create a draw command from a single operation.
    pub fn single(x: i32, y: i32, ch: char) -> (r: Self)
        ensures
            r@.ops == seq![DrawOp::spec_new(x as int, y as int, ch)],
            r@.previous.len() == 0,
            !r@.applied,
            r@.description == draw_description(1),
    {
        let mut ops: Vec<DrawOp> = Vec::new();
        ops.push(DrawOp::new(x, y, ch));
        proof {
            assert(ops@ =~= seq![DrawOp::spec_new(x as int, y as int, ch)]);
        }
        DrawCommand::new(ops)
    }

    /// Get the number of operations.
    pub fn len(&self) -> (r: usize)
        ensures
            r == self@.ops.len(),
    {
        self.ops.len()
    }

    /// Check if the command holds no operations.
    pub fn is_empty(&self) -> (r: bool)
        ensures
            r == (self@.ops.len() == 0),
    {
        self.ops.len() == 0
    }

    /// The command's description.
    pub fn description(&self) -> (r: &str)
        ensures
            r@ == self@.description,
    {
        self.description.as_str()
    }

    /// Whether the command is currently applied.
    pub fn is_applied(&self) -> (r: bool)
        ensures
            r == self@.applied,
    {
        self.applied
    }

    /// Whether this batch may merge with another: only while the combined
    /// operation count stays under the cap.
    pub fn can_merge(&self, other: &DrawCommand) -> (r: bool)
        ensures
            r == (self@.ops.len() + other@.ops.len() < 1000),
    {
        self.ops.len() < 1000 && other.ops.len() < 1000 && self.ops.len() + other.ops.len() < 1000
    }

    /// Merge another batch into this one by concatenating the operation lists
    /// and refreshing the description; a no-op if this command is already
    /// applied.
    pub fn merge(&mut self, other: DrawCommand)
        ensures
            old(self)@.applied ==> *final(self) == *old(self),
            !old(self)@.applied ==> {
                &&& final(self)@.ops == old(self)@.ops + other@.ops
                &&& final(self)@.previous == old(self)@.previous
                &&& !final(self)@.applied
                &&& final(self)@.description == crate::strutil::draw_cells_description(
                    old(self)@.ops.len() + other@.ops.len() as int,
                )
            },
    {
        if !self.applied {
            let mut other_ops = other.ops;
            self.ops.append(&mut other_ops);
            let n = self.ops.len();
            let d = String::new();
            let mut d = d.concat("Draw ");
            proof {
                assert(d@ =~= "Draw "@);
            }
            push_decimal(&mut d, n);
            let d = d.concat(" cells");
            proof {
                assert(d@ =~= crate::strutil::draw_cells_description(n as int));
            }
            self.description = d;
        }
    }

    /// Apply the batch: capture every target cell's prior state, then write
    /// all operations in order. Does nothing when already applied or empty.
    pub fn apply(&mut self, grid: &mut Grid)
        requires
            old(grid).inv(),
        ensures
            final(grid).inv(),
            (final(self)@, final(grid)@) == old(self)@.apply_t(old(grid)@),
    {
        if !self.applied && self.ops.len() > 0 {
            self.previous = Vec::new();

            let ghost g0 = grid@;
            let n = self.ops.len();
            let mut i: usize = 0;
            while i < n
                invariant
                    i <= n,
                    n == self.ops@.len(),
                    grid@ == g0,
                    grid.inv(),
                    self.ops@ == old(self).ops@,
                    self.description@ == old(self).description@,
                    !self.applied,
                    self.previous@.len() == i,
                    forall|j: int| 0 <= j < i ==> self.previous@[j] == capture(g0, self.ops@)[j],
                decreases n - i,
            {
                let op = self.ops[i];
                let prev = match grid.get(op.x, op.y) {
                    Some(c) => Some(*c),
                    None => None,
                };
                self.previous.push((op.x, op.y, prev));
                i = i + 1;
            }
            proof {
                assert(self.previous@ =~= capture(g0, self.ops@));
            }

            let mut i: usize = 0;
            while i < n
                invariant
                    i <= n,
                    n == self.ops@.len(),
                    grid.inv(),
                    grid@ == apply_ops(g0, self.ops@.take(i as int)),
                decreases n - i,
            {
                let op = self.ops[i];
                let ghost prefix = self.ops@.take(i as int);
                grid.set(op.x, op.y, op.cell);
                proof {
                    let next = self.ops@.take(i + 1);
                    assert(next.drop_last() =~= prefix);
                    assert(next.last() == self.ops@[i as int]);
                    assert(apply_ops(g0, next) == apply_ops(g0, prefix).write(
                        op.x as int,
                        op.y as int,
                        op.cell,
                    ));
                }
                i = i + 1;
            }
            proof {
                assert(self.ops@.take(n as int) =~= self.ops@);
            }

            self.applied = true;
            proof {
                assert(self@.ops == old(self)@.ops);
                assert(self@.previous == capture(g0, old(self)@.ops));
                assert(self@.applied);
                assert(self@.description == old(self)@.description);
                assert(grid@ == apply_ops(g0, old(self)@.ops));
                assert(self@ == old(self)@.apply_t(g0).0);
                assert(grid@ == old(self)@.apply_t(g0).1);
            }
        }
    }

    /// Undo the batch: write the captured prior states back in reverse order.
    /// Does nothing when not applied.
    pub fn undo(&mut self, grid: &mut Grid)
        requires
            old(grid).inv(),
        ensures
            final(grid).inv(),
            (final(self)@, final(grid)@) == old(self)@.undo_t(old(grid)@),
    {
        if self.applied {
            let ghost g0 = grid@;
            let ghost rev = self.previous@.reverse();
            let n = self.previous.len();
            let mut k: usize = 0;
            while k < n
                invariant
                    k <= n,
                    n == self.previous@.len(),
                    rev == self.previous@.reverse(),
                    grid.inv(),
                    grid@ == restore(g0, rev.take(k as int)),
                decreases n - k,
            {
                let j = n - 1 - k;
                let (x, y, prev) = self.previous[j];
                let ghost prefix = rev.take(k as int);
                match prev {
                    Some(c) => {
                        grid.set(x, y, c);
                    },
                    None => {
                        grid.clear_cell(x, y);
                    },
                }
                proof {
                    let next = rev.take(k + 1);
                    assert(next.drop_last() =~= prefix);
                    assert(next.last() == rev[k as int]);
                    assert(rev[k as int] == self.previous@[j as int]);
                    assert(grid@ == restore_one(restore(g0, prefix), rev[k as int]));
                }
                k = k + 1;
            }
            proof {
                assert(rev.take(n as int) =~= rev);
            }
            self.applied = false;
        }
    }
}

} // verus!
