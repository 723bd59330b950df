//! Composite commands: an ordered group of child commands applied forward and
//! undone in reverse, toggled by one shared applied flag.

use vstd::prelude::*;

use crate::commands::ClearCellCommand;
use crate::commands::ClearCellModel;
use crate::commands::ClearGridCommand;
use crate::commands::ClearGridModel;
use crate::commands::SetCellCommand;
use crate::commands::SetCellModel;
use crate::commands::DrawCommand;
use crate::commands::DrawModel;
use crate::commands::lemma_set_cell_round_trip;
use crate::commands::lemma_clear_cell_round_trip;
use crate::commands::lemma_clear_grid_round_trip;
use crate::commands::draw::lemma_apply_ops_wf;
use crate::commands::draw::lemma_draw_round_trip;
use crate::grid::Grid;
use crate::grid::GridView;

verus! {

/// Mathematical model of a child command of a composite.
pub ghost enum BasicModel {
    /// A single-cell write.
    SetCell(SetCellModel),
    /// A single-cell clear.
    ClearCell(ClearCellModel),
    /// A whole-grid clear.
    ClearGrid(ClearGridModel),
    /// A draw batch.
    Draw(DrawModel),
}

impl BasicModel {
    /// Whether the child is currently applied.
    pub open spec fn applied(self) -> bool {
        match self {
            BasicModel::SetCell(c) => c.applied,
            BasicModel::ClearCell(c) => c.applied,
            BasicModel::ClearGrid(c) => c.applied,
            BasicModel::Draw(c) => c.applied,
        }
    }

    /// The child's validity: only the grid snapshot of a clear-grid child
    /// carries a constraint.
    pub open spec fn inv(self) -> bool {
        match self {
            BasicModel::ClearGrid(c) => c.inv(),
            _ => true,
        }
    }

    /// The child applied to a grid.
    pub open spec fn apply_t(self, g: GridView) -> (BasicModel, GridView) {
        match self {
            BasicModel::SetCell(c) => {
                let p = c.apply_t(g);
                (BasicModel::SetCell(p.0), p.1)
            },
            BasicModel::ClearCell(c) => {
                let p = c.apply_t(g);
                (BasicModel::ClearCell(p.0), p.1)
            },
            BasicModel::ClearGrid(c) => {
                let p = c.apply_t(g);
                (BasicModel::ClearGrid(p.0), p.1)
            },
            BasicModel::Draw(c) => {
                let p = c.apply_t(g);
                (BasicModel::Draw(p.0), p.1)
            },
        }
    }

    /// The child undone against a grid.
    pub open spec fn undo_t(self, g: GridView) -> (BasicModel, GridView) {
        match self {
            BasicModel::SetCell(c) => {
                let p = c.undo_t(g);
                (BasicModel::SetCell(p.0), p.1)
            },
            BasicModel::ClearCell(c) => {
                let p = c.undo_t(g);
                (BasicModel::ClearCell(p.0), p.1)
            },
            BasicModel::ClearGrid(c) => {
                let p = c.undo_t(g);
                (BasicModel::ClearGrid(p.0), p.1)
            },
            BasicModel::Draw(c) => {
                let p = c.undo_t(g);
                (BasicModel::Draw(p.0), p.1)
            },
        }
    }
}

/// A child command of a composite: one of the four concrete command kinds.
pub enum BasicCommand {
    /// A single-cell write.
    SetCell(SetCellCommand),
    /// A single-cell clear.
    ClearCell(ClearCellCommand),
    /// A whole-grid clear.
    ClearGrid(ClearGridCommand),
    /// A draw batch.
    Draw(DrawCommand),
}

impl View for BasicCommand {
    type V = BasicModel;

    open spec fn view(&self) -> BasicModel {
        match self {
            BasicCommand::SetCell(c) => BasicModel::SetCell(c@),
            BasicCommand::ClearCell(c) => BasicModel::ClearCell(c@),
            BasicCommand::ClearGrid(c) => BasicModel::ClearGrid(c@),
            BasicCommand::Draw(c) => BasicModel::Draw(c@),
        }
    }
}

impl BasicCommand {
    /// Apply the child to the grid.
    pub fn apply(&mut self, grid: &mut Grid)
        requires
            old(grid).inv(),
        ensures
            final(grid).inv(),
            (final(self)@, final(grid)@) == old(self)@.apply_t(old(grid)@),
            old(self)@.inv() ==> final(self)@.inv(),
    {
        match self {
            BasicCommand::SetCell(c) => c.apply(grid),
            BasicCommand::ClearCell(c) => c.apply(grid),
            BasicCommand::ClearGrid(c) => c.apply(grid),
            BasicCommand::Draw(c) => c.apply(grid),
        }
    }

    /// Undo the child on the grid.
    pub fn undo(&mut self, grid: &mut Grid)
        requires
            old(grid).inv(),
            old(self)@.inv(),
        ensures
            final(grid).inv(),
            (final(self)@, final(grid)@) == old(self)@.undo_t(old(grid)@),
            final(self)@.inv(),
    {
        match self {
            BasicCommand::SetCell(c) => c.undo(grid),
            BasicCommand::ClearCell(c) => c.undo(grid),
            BasicCommand::ClearGrid(c) => c.undo(grid),
            BasicCommand::Draw(c) => c.undo(grid),
        }
    }
}

/// The models of a list of child commands.
pub open spec fn models_of(s: Seq<BasicCommand>) -> Seq<BasicModel> {
    Seq::new(s.len(), |i: int| s[i]@)
}

/// A list of children applied in order to a grid: the transformed children
/// and the resulting grid.
pub open spec fn seq_apply_t(cs: Seq<BasicModel>, g: GridView) -> (Seq<BasicModel>, GridView)
    decreases cs.len(),
{
    if cs.len() == 0 {
        (cs, g)
    } else {
        let p = seq_apply_t(cs.drop_last(), g);
        let q = cs.last().apply_t(p.1);
        (p.0.push(q.0), q.1)
    }
}

/// A list of children undone in reverse order against a grid.
pub open spec fn seq_undo_t(cs: Seq<BasicModel>, g: GridView) -> (Seq<BasicModel>, GridView)
    decreases cs.len(),
{
    if cs.len() == 0 {
        (cs, g)
    } else {
        let q = cs.last().undo_t(g);
        let p = seq_undo_t(cs.drop_last(), q.1);
        (p.0.push(q.0), p.1)
    }
}

/// A single write keeps a grid well-formed.
proof fn lemma_write_wf(g: GridView, x: int, y: int, c: crate::cell::Cell)
    requires
        g.wf(),
    ensures
        g.write(x, y, c).wf(),
        g.write(x, y, c).width == g.width,
        g.write(x, y, c).height == g.height,
{
    if g.in_bounds(x, y) {
        crate::grid::lemma_idx_bounds(g, x, y);
    }
}

/// Applying a child keeps the grid well-formed and its validity intact.
pub proof fn lemma_basic_apply_wf(c: BasicModel, g: GridView)
    requires
        g.wf(),
    ensures
        c.apply_t(g).1.wf(),
        c.inv() ==> c.apply_t(g).0.inv(),
{
    match c {
        BasicModel::SetCell(m) => {
            if !m.applied {
                lemma_write_wf(g, m.x, m.y, m.new_cell);
            }
        },
        BasicModel::ClearCell(m) => {
            if !m.applied {
                lemma_write_wf(g, m.x, m.y, crate::cell::Cell::spec_default());
            }
        },
        BasicModel::ClearGrid(_) => {},
        BasicModel::Draw(d) => {
            if !d.applied && d.ops.len() > 0 {
                lemma_apply_ops_wf(g, d.ops);
            }
        },
    }
}

/// Round trip of one child: apply then undo restores the grid.
pub proof fn lemma_basic_round_trip(c: BasicModel, g: GridView)
    requires
        !c.applied(),
        g.wf(),
    ensures
        ({
            let (c1, g1) = c.apply_t(g);
            c1.undo_t(g1).1 == g
        }),
{
    match c {
        BasicModel::SetCell(m) => lemma_set_cell_round_trip(m, g),
        BasicModel::ClearCell(m) => lemma_clear_cell_round_trip(m, g),
        BasicModel::ClearGrid(m) => lemma_clear_grid_round_trip(m, g),
        BasicModel::Draw(m) => {
            if m.ops.len() > 0 {
                lemma_draw_round_trip(g, m.ops);
            }
        },
    }
}

/// Applying a list of children keeps the grid well-formed and every child
/// valid.
pub proof fn lemma_seq_apply_wf(cs: Seq<BasicModel>, g: GridView)
    requires
        g.wf(),
        forall|i: int| 0 <= i < cs.len() ==> (#[trigger] cs[i]).inv(),
    ensures
        seq_apply_t(cs, g).1.wf(),
        seq_apply_t(cs, g).0.len() == cs.len(),
        forall|i: int|
            0 <= i < cs.len() ==> (#[trigger] seq_apply_t(cs, g).0[i]).inv(),
    decreases cs.len(),
{
    if cs.len() > 0 {
        assert(forall|i: int|
            0 <= i < cs.len() - 1 ==> (#[trigger] cs.drop_last()[i]).inv() && cs.drop_last()[i]
                == cs[i]);
        lemma_seq_apply_wf(cs.drop_last(), g);
        let p = seq_apply_t(cs.drop_last(), g);
        lemma_basic_apply_wf(cs.last(), p.1);
    }
}

/// Round trip of a list of children: applying them in order and undoing the
/// transformed list in reverse order restores the grid.
pub proof fn lemma_seq_round_trip(cs: Seq<BasicModel>, g: GridView)
    requires
        g.wf(),
        forall|i: int| 0 <= i < cs.len() ==> !(#[trigger] cs[i]).applied(),
    ensures
        ({
            let (cs1, g1) = seq_apply_t(cs, g);
            seq_undo_t(cs1, g1).1 == g
        }),
    decreases cs.len(),
{
    if cs.len() > 0 {
        let init = cs.drop_last();
        let c = cs.last();
        assert(forall|i: int|
            0 <= i < init.len() ==> !(#[trigger] init[i]).applied() && init[i] == cs[i]);
        lemma_seq_apply_wf_plain(init, g);
        let p = seq_apply_t(init, g);
        let q = c.apply_t(p.1);
        lemma_basic_round_trip(c, p.1);
        let (cs1, g1) = seq_apply_t(cs, g);
        assert(cs1 == p.0.push(q.0) && g1 == q.1);
        assert(cs1.last() == q.0);
        assert(cs1.drop_last() =~= p.0);
        assert(q.0.undo_t(g1).1 == p.1);
        lemma_seq_round_trip(init, g);
    }
}

/// Applying a list of children keeps the grid well-formed, with no demand on
/// the children.
pub proof fn lemma_seq_apply_wf_plain(cs: Seq<BasicModel>, g: GridView)
    requires
        g.wf(),
    ensures
        seq_apply_t(cs, g).1.wf(),
    decreases cs.len(),
{
    if cs.len() > 0 {
        lemma_seq_apply_wf_plain(cs.drop_last(), g);
        lemma_basic_apply_wf(cs.last(), seq_apply_t(cs.drop_last(), g).1);
    }
}

/// Peeling a child list from the front: undoing `cs` equals undoing all but
/// the first child, then undoing the first against the result.
pub proof fn lemma_seq_undo_first(cs: Seq<BasicModel>, g: GridView)
    requires
        cs.len() > 0,
    ensures
        ({
            let p = seq_undo_t(cs.drop_first(), g);
            let q = cs.first().undo_t(p.1);
            seq_undo_t(cs, g) == (seq![q.0] + p.0, q.1)
        }),
    decreases cs.len(),
{
    if cs.len() == 1 {
        let q = cs.last().undo_t(g);
        assert(cs.drop_last().len() == 0);
        assert(seq_undo_t(cs.drop_last(), q.1) == (cs.drop_last(), q.1));
        assert(seq_undo_t(cs, g) == (cs.drop_last().push(q.0), q.1));
        assert(cs.first() == cs.last());
        assert(cs.drop_first().len() == 0);
        let p = seq_undo_t(cs.drop_first(), g);
        assert(p == (cs.drop_first(), g));
        assert(cs.drop_last().push(q.0) =~= seq![q.0] + p.0);
    } else {
        let q_last = cs.last().undo_t(g);
        assert(cs.drop_first().len() > 0);
        assert(cs.drop_first().last() == cs.last());
        assert(cs.drop_first().drop_last() =~= cs.drop_last().drop_first());
        lemma_seq_undo_first(cs.drop_last(), q_last.1);
        let p_inner = seq_undo_t(cs.drop_last().drop_first(), q_last.1);
        let q_first = cs.first().undo_t(p_inner.1);
        assert(cs.drop_last().first() == cs.first());
        assert(seq_undo_t(cs.drop_last(), q_last.1) == (seq![q_first.0] + p_inner.0, q_first.1));
        assert(seq_undo_t(cs, g).0 == (seq![q_first.0] + p_inner.0).push(q_last.0));
        assert(seq_undo_t(cs.drop_first(), g).0 == p_inner.0.push(q_last.0));
        assert(seq_undo_t(cs.drop_first(), g).1 == p_inner.1);
        assert((seq![q_first.0] + p_inner.0).push(q_last.0) =~= seq![q_first.0] + p_inner.0.push(
            q_last.0,
        ));
    }
}

/// Mathematical model of a [`CompositeCommand`].
pub ghost struct CompositeModel {
    /// The child commands in application order.
    pub commands: Seq<BasicModel>,
    /// The human-readable description.
    pub description: Seq<char>,
    /// The shared applied flag of the whole group.
    pub applied: bool,
}

impl CompositeModel {
    /// All children are valid.
    pub open spec fn inv(self) -> bool {
        forall|i: int| 0 <= i < self.commands.len() ==> (#[trigger] self.commands[i]).inv()
    }

    /// Apply: all children forward, once.
    pub open spec fn apply_t(self, g: GridView) -> (CompositeModel, GridView) {
        if self.applied {
            (self, g)
        } else {
            let p = seq_apply_t(self.commands, g);
            (CompositeModel { commands: p.0, description: self.description, applied: true }, p.1)
        }
    }

    /// Undo: all children in reverse, once.
    pub open spec fn undo_t(self, g: GridView) -> (CompositeModel, GridView) {
        if !self.applied {
            (self, g)
        } else {
            let p = seq_undo_t(self.commands, g);
            (CompositeModel { commands: p.0, description: self.description, applied: false }, p.1)
        }
    }
}

/// A composite command that groups child commands into one atomic operation.
pub struct CompositeCommand {
    /// Child commands.
    commands: Vec<BasicCommand>,
    /// Description.
    description: String,
    /// Whether the whole group is applied.
    applied: bool,
}

impl View for CompositeCommand {
    type V = CompositeModel;

    closed spec fn view(&self) -> CompositeModel {
        CompositeModel {
            commands: models_of(self.commands@),
            description: self.description@,
            applied: self.applied,
        }
    }
}

/// Mutable access to one element of a child-command vector.
fn child_at(v: &mut Vec<BasicCommand>, i: usize) -> (e: &mut BasicCommand)
    requires
        i < old(v)@.len(),
    ensures
        *e == old(v)@[i as int],
        final(v)@ == old(v)@.update(i as int, *final(e)),
{
    &mut v[i]
}

impl CompositeCommand {
    /// Create a new, empty, unapplied composite command.
    pub fn new(description: String) -> (r: Self)
        ensures
            r@.commands.len() == 0,
            r@.description == description@,
            !r@.applied,
    {
        proof {
            assert(models_of(Seq::<BasicCommand>::empty()).len() == 0);
        }
        CompositeCommand { commands: Vec::new(), description, applied: false }
    }

    /// Add a child command to the composite.
    pub fn add(&mut self, command: BasicCommand)
        ensures
            final(self)@.commands == old(self)@.commands.push(command@),
            final(self)@.description == old(self)@.description,
            final(self)@.applied == old(self)@.applied,
    {
        self.commands.push(command);
        proof {
            assert(models_of(self.commands@) =~= models_of(old(self).commands@).push(
                self.commands@.last()@,
            ));
        }
    }

    /// Add a child command and return the composite for chaining.
    pub fn with(self, command: BasicCommand) -> (r: Self)
        ensures
            r@.commands == self@.commands.push(command@),
            r@.description == self@.description,
            r@.applied == self@.applied,
    {
        let mut this = self;
        this.add(command);
        this
    }

    /// Get the number of child commands.
    pub fn len(&self) -> (r: usize)
        ensures
            r == self@.commands.len(),
    {
        self.commands.len()
    }

    /// Check if the composite has no children.
    pub fn is_empty(&self) -> (r: bool)
        ensures
            r == (self@.commands.len() == 0),
    {
        self.commands.len() == 0
    }

    /// Whether the group is currently applied.
    pub fn is_applied(&self) -> (r: bool)
        ensures
            r == self@.applied,
    {
        self.applied
    }

    /// The command's description.
    pub fn description(&self) -> (r: &str)
        ensures
            r@ == self@.description,
    {
        self.description.as_str()
    }

    /// Apply all children forward, marking the whole group applied.
    pub fn apply(&mut self, grid: &mut Grid)
        requires
            old(grid).inv(),
        ensures
            final(grid).inv(),
            (final(self)@, final(grid)@) == old(self)@.apply_t(old(grid)@),
    {
        if !self.applied {
            let ghost models0 = models_of(self.commands@);
            let ghost g0 = grid@;
            let n = self.commands.len();
            let mut i: usize = 0;
            while i < n
                invariant
                    i <= n,
                    n == self.commands@.len(),
                    grid.inv(),
                    self.description@ == old(self).description@,
                    !self.applied,
                    ({
                        let p = seq_apply_t(models0.take(i as int), g0);
                        grid@ == p.1 && models_of(self.commands@) == p.0 + models0.skip(i as int)
                    }),
                decreases n - i,
            {
                let ghost p = seq_apply_t(models0.take(i as int), g0);
                proof {
                    assert(models_of(self.commands@)[i as int] == models0[i as int]);
                    assert(p.0.len() == i) by {
                        lemma_seq_apply_len(models0.take(i as int), g0);
                    }
                }
                let ghost cmds_prev = self.commands@;
                let c = child_at(&mut self.commands, i);
                c.apply(grid);
                proof {
                    let next = models0.take(i + 1);
                    assert(next.drop_last() =~= models0.take(i as int));
                    assert(next.last() == models0[i as int]);
                    let p2 = seq_apply_t(next, g0);
                    assert(p2.0 == p.0.push(models0[i as int].apply_t(p.1).0));
                    assert(self.commands@ == cmds_prev.update(i as int, self.commands@[i as int]));
                    assert forall|k: int| 0 <= k < n implies models_of(self.commands@)[k] == (p2.0
                        + models0.skip(i + 1))[k] by {
                        if k == i {
                            assert(models_of(self.commands@)[k] == self.commands@[k]@);
                        } else {
                            assert(self.commands@[k] == cmds_prev[k]);
                            assert(models_of(cmds_prev)[k] == (p.0 + models0.skip(i as int))[k]);
                        }
                    }
                    assert(models_of(self.commands@) =~= p2.0 + models0.skip(i + 1));
                }
                i = i + 1;
            }
            proof {
                assert(models0.take(n as int) =~= models0);
                assert(models0.skip(n as int).len() == 0);
                let p = seq_apply_t(models0, g0);
                assert(models_of(self.commands@) =~= p.0);
            }
            self.applied = true;
        }
    }

    /// Undo all children in reverse order, marking the group unapplied.
    pub fn undo(&mut self, grid: &mut Grid)
        requires
            old(grid).inv(),
            old(self)@.inv(),
        ensures
            final(grid).inv(),
            (final(self)@, final(grid)@) == old(self)@.undo_t(old(grid)@),
    {
        if self.applied {
            let ghost models0 = models_of(self.commands@);
            let ghost g0 = grid@;
            let n = self.commands.len();
            let mut j: usize = n;
            while j > 0
                invariant
                    j <= n,
                    n == self.commands@.len(),
                    grid.inv(),
                    self.description@ == old(self).description@,
                    self.applied,
                    ({
                        let p = seq_undo_t(models0.skip(j as int), g0);
                        grid@ == p.1 && models_of(self.commands@) == models0.take(j as int) + p.0
                    }),
                decreases j,
            {
                let ghost p = seq_undo_t(models0.skip(j as int), g0);
                j = j - 1;
                proof {
                    assert(models_of(self.commands@)[j as int] == models0[j as int]);
                    assert(models0[j as int].inv()) by {
                        assert(old(self)@.commands[j as int].inv());
                    }
                }
                let ghost cmds_prev = self.commands@;
                let c = child_at(&mut self.commands, j);
                c.undo(grid);
                proof {
                    let s = models0.skip(j as int);
                    assert(s.len() > 0);
                    assert(s.first() == models0[j as int]);
                    assert(s.drop_first() =~= models0.skip(j + 1));
                    lemma_seq_undo_first(s, g0);
                    let p2 = seq_undo_t(s, g0);
                    assert(p2.1 == models0[j as int].undo_t(p.1).1);
                    assert(p2.0 == seq![models0[j as int].undo_t(p.1).0] + p.0);
                    assert(self.commands@ == cmds_prev.update(j as int, self.commands@[j as int]));
                    assert forall|k: int| 0 <= k < n implies models_of(self.commands@)[k] == (
                    models0.take(j as int) + p2.0)[k] by {
                        if k == j {
                            assert(models_of(self.commands@)[k] == self.commands@[k]@);
                        } else {
                            assert(self.commands@[k] == cmds_prev[k]);
                            assert(models_of(cmds_prev)[k] == (models0.take(j + 1) + p.0)[k]);
                        }
                    }
                    assert(models_of(self.commands@) =~= models0.take(j as int) + p2.0);
                }
            }
            proof {
                assert(models0.skip(0) =~= models0);
                assert(models0.take(0).len() == 0);
                let p = seq_undo_t(models0, g0);
                assert(models_of(self.commands@) =~= p.0);
            }
            self.applied = false;
        }
    }
}

/// Undoing a child list keeps every child valid: an undone child is
/// unapplied, and an unapplied child is untouched.
pub proof fn lemma_seq_undo_preserves_inv(cs: Seq<BasicModel>, g: GridView)
    requires
        forall|i: int| 0 <= i < cs.len() ==> (#[trigger] cs[i]).inv(),
    ensures
        seq_undo_t(cs, g).0.len() == cs.len(),
        forall|i: int| 0 <= i < cs.len() ==> (#[trigger] seq_undo_t(cs, g).0[i]).inv(),
    decreases cs.len(),
{
    if cs.len() > 0 {
        let q = cs.last().undo_t(g);
        assert(q.0.inv());
        assert(forall|i: int|
            0 <= i < cs.len() - 1 ==> (#[trigger] cs.drop_last()[i]).inv() && cs.drop_last()[i]
                == cs[i]);
        lemma_seq_undo_preserves_inv(cs.drop_last(), q.1);
    }
}

/// Applying a child list yields as many transformed children as it was given.
pub proof fn lemma_seq_apply_len(cs: Seq<BasicModel>, g: GridView)
    ensures
        seq_apply_t(cs, g).0.len() == cs.len(),
    decreases cs.len(),
{
    if cs.len() > 0 {
        lemma_seq_apply_len(cs.drop_last(), g);
    }
}

/// Round trip of a composite command: applying the group and undoing it
/// restores the grid, whatever the children.
pub proof fn lemma_composite_round_trip(c: CompositeModel, g: GridView)
    requires
        !c.applied,
        forall|i: int| 0 <= i < c.commands.len() ==> !(#[trigger] c.commands[i]).applied(),
        g.wf(),
    ensures
        ({
            let (c1, g1) = c.apply_t(g);
            c1.undo_t(g1).1 == g
        }),
{
    lemma_seq_round_trip(c.commands, g);
}

} // verus!
