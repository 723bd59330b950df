//! Reversible commands over the grid: single-cell writes, whole-grid clears,
//! draw batches and composites, each storing exactly the prior state it
//! overwrote so that undo can restore it.
//!
//! Every command moves between the states *unapplied* and *applied*; applying
//! an applied command or undoing an unapplied one is a no-op.

mod composite;
pub mod draw;

pub use composite::BasicCommand;
pub use composite::BasicModel;
pub use composite::CompositeCommand;
pub use composite::CompositeModel;
pub use draw::DrawCommand;
pub use draw::DrawModel;
pub use draw::PrevEntry;

use vstd::prelude::*;

use crate::cell::Cell;
use crate::grid::Grid;
use crate::grid::GridView;
use crate::grid::lemma_idx_bounds;

verus! {

/// Mathematical model of a [`SetCellCommand`].
pub ghost struct SetCellModel {
    /// Target X coordinate.
    pub x: int,
    /// Target Y coordinate.
    pub y: int,
    /// The prior cell captured at apply time; `None` before the first apply
    /// and for an out-of-bounds target.
    pub old_cell: Option<Cell>,
    /// The cell value to write.
    pub new_cell: Cell,
    /// Whether the command is currently applied.
    pub applied: bool,
}

impl SetCellModel {
    /// Apply: capture the prior cell, then write the new one. A second apply
    /// changes nothing.
    pub open spec fn apply_t(self, g: GridView) -> (SetCellModel, GridView) {
        if self.applied {
            (self, g)
        } else {
            (
                SetCellModel {
                    old_cell: if g.in_bounds(self.x, self.y) {
                        Some(g.cell_at(self.x, self.y))
                    } else {
                        None
                    },
                    applied: true,
                    ..self
                },
                g.write(self.x, self.y, self.new_cell),
            )
        }
    }

    /// Undo: write the captured prior cell back, or clear the cell when none
    /// was captured. Undo of an unapplied command changes nothing.
    pub open spec fn undo_t(self, g: GridView) -> (SetCellModel, GridView) {
        if !self.applied {
            (self, g)
        } else {
            (
                SetCellModel { applied: false, ..self },
                match self.old_cell {
                    Some(c) => g.write(self.x, self.y, c),
                    None => g.write(self.x, self.y, Cell::spec_default()),
                },
            )
        }
    }
}

/// Command to set a single cell.
pub struct SetCellCommand {
    x: i32,
    y: i32,
    old_cell: Option<Cell>,
    new_cell: Cell,
    applied: bool,
}

impl View for SetCellCommand {
    type V = SetCellModel;

    closed spec fn view(&self) -> SetCellModel {
        SetCellModel {
            x: self.x as int,
            y: self.y as int,
            old_cell: self.old_cell,
            new_cell: self.new_cell,
            applied: self.applied,
        }
    }
}

impl SetCellCommand {
    /// Create a new, unapplied command to set a cell.
    pub fn new(x: i32, y: i32, new_cell: Cell) -> (r: Self)
        ensures
            r@ == (SetCellModel {
                x: x as int,
                y: y as int,
                old_cell: None,
                new_cell,
                applied: false,
            }),
    {
        SetCellCommand { x, y, old_cell: None, new_cell, applied: false }
    }

    /// Create an unapplied command with a known prior cell value.
    pub fn with_old(x: i32, y: i32, old_cell: Cell, new_cell: Cell) -> (r: Self)
        ensures
            r@ == (SetCellModel {
                x: x as int,
                y: y as int,
                old_cell: Some(old_cell),
                new_cell,
                applied: false,
            }),
    {
        SetCellCommand { x, y, old_cell: Some(old_cell), new_cell, applied: false }
    }

    /// Apply the command to the grid.
    pub fn apply(&mut self, grid: &mut Grid)
        requires
            old(grid).inv(),
        ensures
            final(grid).inv(),
            (final(self)@, final(grid)@) == old(self)@.apply_t(old(grid)@),
    {
        if !self.applied {
            self.old_cell = match grid.get(self.x, self.y) {
                Some(c) => Some(*c),
                None => None,
            };
            grid.set(self.x, self.y, self.new_cell);
            self.applied = true;
        }
    }

    /// Undo the command on the grid.
    pub fn undo(&mut self, grid: &mut Grid)
        requires
            old(grid).inv(),
        ensures
            final(grid).inv(),
            (final(self)@, final(grid)@) == old(self)@.undo_t(old(grid)@),
    {
        if self.applied {
            match self.old_cell {
                Some(old_cell) => {
                    grid.set(self.x, self.y, old_cell);
                },
                None => {
                    grid.clear_cell(self.x, self.y);
                },
            }
            self.applied = false;
        }
    }

    /// Whether the command is currently applied.
    pub fn is_applied(&self) -> (r: bool)
        ensures
            r == self@.applied,
    {
        self.applied
    }

    /// The command's description.
    pub fn description(&self) -> (r: &'static str)
        ensures
            r@ == "Set cell"@,
    {
        "Set cell"
    }
}

/// Mathematical model of a [`ClearCellCommand`].
pub ghost struct ClearCellModel {
    /// Target X coordinate.
    pub x: int,
    /// Target Y coordinate.
    pub y: int,
    /// The prior cell captured at apply time.
    pub old_cell: Option<Cell>,
    /// Whether the command is currently applied.
    pub applied: bool,
}

impl ClearCellModel {
    /// Apply: capture the prior cell, then clear the target to the default.
    pub open spec fn apply_t(self, g: GridView) -> (ClearCellModel, GridView) {
        if self.applied {
            (self, g)
        } else {
            (
                ClearCellModel {
                    old_cell: if g.in_bounds(self.x, self.y) {
                        Some(g.cell_at(self.x, self.y))
                    } else {
                        None
                    },
                    applied: true,
                    ..self
                },
                g.write(self.x, self.y, Cell::spec_default()),
            )
        }
    }

    /// Undo: write the captured prior cell back; without a capture nothing
    /// was overwritten and nothing is restored.
    pub open spec fn undo_t(self, g: GridView) -> (ClearCellModel, GridView) {
        if !self.applied {
            (self, g)
        } else {
            (
                ClearCellModel { applied: false, ..self },
                match self.old_cell {
                    Some(c) => g.write(self.x, self.y, c),
                    None => g,
                },
            )
        }
    }
}

/// Command to clear a single cell.
pub struct ClearCellCommand {
    x: i32,
    y: i32,
    old_cell: Option<Cell>,
    applied: bool,
}

impl View for ClearCellCommand {
    type V = ClearCellModel;

    closed spec fn view(&self) -> ClearCellModel {
        ClearCellModel {
            x: self.x as int,
            y: self.y as int,
            old_cell: self.old_cell,
            applied: self.applied,
        }
    }
}

impl ClearCellCommand {
    /// Create a new, unapplied command to clear a cell.
    pub fn new(x: i32, y: i32) -> (r: Self)
        ensures
            r@ == (ClearCellModel { x: x as int, y: y as int, old_cell: None, applied: false }),
    {
        ClearCellCommand { x, y, old_cell: None, applied: false }
    }

    /// Apply the command to the grid.
    pub fn apply(&mut self, grid: &mut Grid)
        requires
            old(grid).inv(),
        ensures
            final(grid).inv(),
            (final(self)@, final(grid)@) == old(self)@.apply_t(old(grid)@),
    {
        if !self.applied {
            self.old_cell = match grid.get(self.x, self.y) {
                Some(c) => Some(*c),
                None => None,
            };
            grid.clear_cell(self.x, self.y);
            self.applied = true;
        }
    }

    /// Undo the command on the grid.
    pub fn undo(&mut self, grid: &mut Grid)
        requires
            old(grid).inv(),
        ensures
            final(grid).inv(),
            (final(self)@, final(grid)@) == old(self)@.undo_t(old(grid)@),
    {
        if self.applied {
            if let Some(old_cell) = self.old_cell {
                grid.set(self.x, self.y, old_cell);
            }
            self.applied = false;
        }
    }

    /// Whether the command is currently applied.
    pub fn is_applied(&self) -> (r: bool)
        ensures
            r == self@.applied,
    {
        self.applied
    }

    /// The command's description.
    pub fn description(&self) -> (r: &'static str)
        ensures
            r@ == "Clear cell"@,
    {
        "Clear cell"
    }
}

/// Mathematical model of a [`ClearGridCommand`].
pub ghost struct ClearGridModel {
    /// The full cell snapshot captured at apply time.
    pub old_cells: Option<Seq<Cell>>,
    /// The grid width at apply time.
    pub width: nat,
    /// The grid height at apply time.
    pub height: nat,
    /// Whether the command is currently applied.
    pub applied: bool,
}

impl ClearGridModel {
    /// An applied clear-grid command holds a snapshot that exactly fills the
    /// recorded dimensions.
    pub open spec fn inv(self) -> bool {
        self.applied ==> match self.old_cells {
            Some(cs) => cs.len() == self.width * self.height && cs.len() <= usize::MAX,
            None => false,
        }
    }

    /// Apply: snapshot the whole grid and its dimensions, then clear it.
    pub open spec fn apply_t(self, g: GridView) -> (ClearGridModel, GridView) {
        if self.applied {
            (self, g)
        } else {
            (
                ClearGridModel {
                    old_cells: Some(g.cells),
                    width: g.width,
                    height: g.height,
                    applied: true,
                },
                GridView {
                    width: g.width,
                    height: g.height,
                    cells: Seq::new(g.cells.len(), |i: int| Cell::spec_default()),
                },
            )
        }
    }

    /// Undo: reconstruct the grid wholesale from the snapshot.
    pub open spec fn undo_t(self, g: GridView) -> (ClearGridModel, GridView) {
        if !self.applied {
            (self, g)
        } else {
            (
                ClearGridModel { applied: false, ..self },
                match self.old_cells {
                    Some(cs) => GridView { width: self.width, height: self.height, cells: cs },
                    None => g,
                },
            )
        }
    }
}

/// Command to clear the entire grid.
pub struct ClearGridCommand {
    old_cells: Option<Vec<Cell>>,
    width: usize,
    height: usize,
    applied: bool,
}

impl View for ClearGridCommand {
    type V = ClearGridModel;

    closed spec fn view(&self) -> ClearGridModel {
        ClearGridModel {
            old_cells: match self.old_cells {
                Some(cs) => Some(cs@),
                None => None,
            },
            width: self.width as nat,
            height: self.height as nat,
            applied: self.applied,
        }
    }
}

impl ClearGridCommand {
    /// Create a new, unapplied command to clear the entire grid.
    pub fn new() -> (r: Self)
        ensures
            r@ == (ClearGridModel { old_cells: None, width: 0, height: 0, applied: false }),
    {
        ClearGridCommand { old_cells: None, width: 0, height: 0, applied: false }
    }

    /// Apply the command to the grid.
    pub fn apply(&mut self, grid: &mut Grid)
        requires
            old(grid).inv(),
        ensures
            final(grid).inv(),
            (final(self)@, final(grid)@) == old(self)@.apply_t(old(grid)@),
            old(self)@.inv() ==> final(self)@.inv(),
    {
        if !self.applied {
            let ghost g0 = grid@;
            let n = grid.len();
            let cells = grid.cells();
            let mut snapshot: Vec<Cell> = Vec::new();
            let mut i: usize = 0;
            while i < n
                invariant
                    i <= n,
                    n == grid@.cells.len(),
                    snapshot@ == grid@.cells.take(i as int),
                decreases n - i,
            {
                snapshot.push(cells[i]);
                proof {
                    assert(snapshot@ =~= grid@.cells.take(i + 1));
                }
                i = i + 1;
            }
            proof {
                assert(grid@.cells.take(n as int) =~= grid@.cells);
            }
            self.old_cells = Some(snapshot);
            self.width = grid.width();
            self.height = grid.height();
            grid.clear();
            self.applied = true;
            proof {
                let expect = old(self)@.apply_t(g0);
                assert(self@.old_cells == expect.0.old_cells);
                assert(self@.width == expect.0.width);
                assert(self@.height == expect.0.height);
                assert(self@.applied == expect.0.applied);
                assert(self@ == expect.0);
                assert(grid@ == expect.1);
            }
        }
    }

    /// Undo the command on the grid.
    pub fn undo(&mut self, grid: &mut Grid)
        requires
            old(grid).inv(),
            old(self)@.inv(),
        ensures
            final(grid).inv(),
            (final(self)@, final(grid)@) == old(self)@.undo_t(old(grid)@),
    {
        if self.applied {
            if let Some(cells) = &self.old_cells {
                let n = cells.len();
                let mut copy: Vec<Cell> = Vec::new();
                let mut i: usize = 0;
                while i < n
                    invariant
                        i <= n,
                        n == cells@.len(),
                        copy@ == cells@.take(i as int),
                    decreases n - i,
                {
                    copy.push(cells[i]);
                    proof {
                        assert(copy@ =~= cells@.take(i + 1));
                    }
                    i = i + 1;
                }
                proof {
                    assert(cells@.take(n as int) =~= cells@);
                }
                *grid = Grid::from_cells(copy, self.width, self.height);
            }
            self.applied = false;
        }
    }

    /// Whether the command is currently applied.
    pub fn is_applied(&self) -> (r: bool)
        ensures
            r == self@.applied,
    {
        self.applied
    }

    /// The command's description.
    pub fn description(&self) -> (r: &'static str)
        ensures
            r@ == "Clear canvas"@,
    {
        "Clear canvas"
    }
}

impl Default for ClearGridCommand {
    /// The default command is unapplied with no snapshot.
    fn default() -> (r: Self)
        ensures
            r@ == (ClearGridModel { old_cells: None, width: 0, height: 0, applied: false }),
    {
        ClearGridCommand { old_cells: None, width: 0, height: 0, applied: false }
    }
}

/// Round trip of a set-cell command: applying it to a grid and undoing it
/// restores the grid cell for cell, also for out-of-bounds targets.
pub proof fn lemma_set_cell_round_trip(c: SetCellModel, g: GridView)
    requires
        !c.applied,
        g.wf(),
    ensures
        ({
            let (c1, g1) = c.apply_t(g);
            c1.undo_t(g1).1 == g
        }),
{
    lemma_write_round_trip(g, c.x, c.y, c.new_cell);
}

/// Round trip of a clear-cell command.
pub proof fn lemma_clear_cell_round_trip(c: ClearCellModel, g: GridView)
    requires
        !c.applied,
        g.wf(),
    ensures
        ({
            let (c1, g1) = c.apply_t(g);
            c1.undo_t(g1).1 == g
        }),
{
    lemma_write_round_trip(g, c.x, c.y, Cell::spec_default());
}

/// Round trip of a clear-grid command: undo rebuilds the snapshot exactly.
pub proof fn lemma_clear_grid_round_trip(c: ClearGridModel, g: GridView)
    requires
        !c.applied,
        g.wf(),
    ensures
        ({
            let (c1, g1) = c.apply_t(g);
            c1.undo_t(g1).1 == g
        }),
{
}

/// Mathematical model of a [`Command`].
pub ghost enum CommandModel {
    /// A single-cell write.
    SetCell(SetCellModel),
    /// A single-cell clear.
    ClearCell(ClearCellModel),
    /// A whole-grid clear.
    ClearGrid(ClearGridModel),
    /// A draw batch.
    Draw(DrawModel),
    /// An atomic group of child commands.
    Composite(CompositeModel),
}

impl CommandModel {
    /// Whether the command is currently applied.
    pub open spec fn applied(self) -> bool {
        match self {
            CommandModel::SetCell(c) => c.applied,
            CommandModel::ClearCell(c) => c.applied,
            CommandModel::ClearGrid(c) => c.applied,
            CommandModel::Draw(c) => c.applied,
            CommandModel::Composite(c) => c.applied,
        }
    }

    /// The command's validity: the captured state is consistent.
    pub open spec fn inv(self) -> bool {
        match self {
            CommandModel::ClearGrid(c) => c.inv(),
            CommandModel::Composite(c) => c.inv(),
            _ => true,
        }
    }

    /// A command that has never been applied: its own flag is clear, and so
    /// is every child's.
    pub open spec fn fresh(self) -> bool {
        match self {
            CommandModel::Composite(c) => !c.applied && forall|i: int|
                0 <= i < c.commands.len() ==> !(#[trigger] c.commands[i]).applied(),
            _ => !self.applied(),
        }
    }

    /// The command applied to a grid.
    pub open spec fn apply_t(self, g: GridView) -> (CommandModel, GridView) {
        match self {
            CommandModel::SetCell(c) => {
                let p = c.apply_t(g);
                (CommandModel::SetCell(p.0), p.1)
            },
            CommandModel::ClearCell(c) => {
                let p = c.apply_t(g);
                (CommandModel::ClearCell(p.0), p.1)
            },
            CommandModel::ClearGrid(c) => {
                let p = c.apply_t(g);
                (CommandModel::ClearGrid(p.0), p.1)
            },
            CommandModel::Draw(c) => {
                let p = c.apply_t(g);
                (CommandModel::Draw(p.0), p.1)
            },
            CommandModel::Composite(c) => {
                let p = c.apply_t(g);
                (CommandModel::Composite(p.0), p.1)
            },
        }
    }

    /// The command undone against a grid.
    pub open spec fn undo_t(self, g: GridView) -> (CommandModel, GridView) {
        match self {
            CommandModel::SetCell(c) => {
                let p = c.undo_t(g);
                (CommandModel::SetCell(p.0), p.1)
            },
            CommandModel::ClearCell(c) => {
                let p = c.undo_t(g);
                (CommandModel::ClearCell(p.0), p.1)
            },
            CommandModel::ClearGrid(c) => {
                let p = c.undo_t(g);
                (CommandModel::ClearGrid(p.0), p.1)
            },
            CommandModel::Draw(c) => {
                let p = c.undo_t(g);
                (CommandModel::Draw(p.0), p.1)
            },
            CommandModel::Composite(c) => {
                let p = c.undo_t(g);
                (CommandModel::Composite(p.0), p.1)
            },
        }
    }

    /// The command's human-readable description.
    pub open spec fn description_of(self) -> Seq<char> {
        match self {
            CommandModel::SetCell(_) => "Set cell"@,
            CommandModel::ClearCell(_) => "Clear cell"@,
            CommandModel::ClearGrid(_) => "Clear canvas"@,
            CommandModel::Draw(c) => c.description,
            CommandModel::Composite(c) => c.description,
        }
    }
}

/// A reversible command over the grid: one of the four concrete kinds, or an
/// atomic composite of them. Merging is defined only between two draw
/// batches.
pub enum Command {
    /// A single-cell write.
    SetCell(SetCellCommand),
    /// A single-cell clear.
    ClearCell(ClearCellCommand),
    /// A whole-grid clear.
    ClearGrid(ClearGridCommand),
    /// A draw batch.
    Draw(DrawCommand),
    /// An atomic group of child commands.
    Composite(CompositeCommand),
}

impl View for Command {
    type V = CommandModel;

    open spec fn view(&self) -> CommandModel {
        match self {
            Command::SetCell(c) => CommandModel::SetCell(c@),
            Command::ClearCell(c) => CommandModel::ClearCell(c@),
            Command::ClearGrid(c) => CommandModel::ClearGrid(c@),
            Command::Draw(c) => CommandModel::Draw(c@),
            Command::Composite(c) => CommandModel::Composite(c@),
        }
    }
}

impl Command {
    /// Apply the command to the grid.
    pub fn apply(&mut self, grid: &mut Grid)
        requires
            old(grid).inv(),
        ensures
            final(grid).inv(),
            (final(self)@, final(grid)@) == old(self)@.apply_t(old(grid)@),
            old(self)@.inv() ==> final(self)@.inv(),
    {
        match self {
            Command::SetCell(c) => c.apply(grid),
            Command::ClearCell(c) => c.apply(grid),
            Command::ClearGrid(c) => c.apply(grid),
            Command::Draw(c) => c.apply(grid),
            Command::Composite(c) => {
                c.apply(grid);
                proof {
                    if old(self)@.inv() {
                        composite::lemma_seq_apply_wf(old(self)@->Composite_0.commands, old(grid)@);
                    }
                }
            },
        }
    }

    /// Undo the command on the grid.
    pub fn undo(&mut self, grid: &mut Grid)
        requires
            old(grid).inv(),
            old(self)@.inv(),
        ensures
            final(grid).inv(),
            (final(self)@, final(grid)@) == old(self)@.undo_t(old(grid)@),
            final(self)@.inv(),
    {
        match self {
            Command::SetCell(c) => c.undo(grid),
            Command::ClearCell(c) => c.undo(grid),
            Command::ClearGrid(c) => c.undo(grid),
            Command::Draw(c) => c.undo(grid),
            Command::Composite(c) => {
                c.undo(grid);
                proof {
                    composite::lemma_seq_undo_preserves_inv(
                        old(self)@->Composite_0.commands,
                        old(grid)@,
                    );
                }
            },
        }
    }

    /// The command's description.
    pub fn description(&self) -> (r: &str)
        ensures
            r@ == self@.description_of(),
    {
        match self {
            Command::SetCell(c) => c.description(),
            Command::ClearCell(c) => c.description(),
            Command::ClearGrid(c) => c.description(),
            Command::Draw(c) => c.description(),
            Command::Composite(c) => c.description(),
        }
    }

    /// Whether this command may merge with another: only two draw batches
    /// whose combined operation count stays under the cap may merge.
    pub fn can_merge(&self, other: &Command) -> (r: bool)
        ensures
            r == match (self@, other@) {
                (CommandModel::Draw(a), CommandModel::Draw(b)) => a.ops.len() + b.ops.len() < 1000,
                _ => false,
            },
    {
        match (self, other) {
            (Command::Draw(a), Command::Draw(b)) => a.can_merge(b),
            _ => false,
        }
    }

    /// Merge another draw batch into this one by concatenating the operation
    /// lists in order; any other combination, or a receiver that is already
    /// applied, is left unchanged.
    pub fn merge(&mut self, other: Command)
        ensures
            match (old(self)@, other@) {
                (CommandModel::Draw(a), CommandModel::Draw(b)) => {
                    if a.applied {
                        *final(self) == *old(self)
                    } else {
                        final(self)@ == CommandModel::Draw(DrawModel {
                            ops: a.ops + b.ops,
                            previous: a.previous,
                            applied: false,
                            description: crate::strutil::draw_cells_description(
                                (a.ops.len() + b.ops.len()) as int,
                            ),
                        })
                    }
                },
                _ => *final(self) == *old(self),
            },
    {
        match self {
            Command::Draw(a) => {
                match other {
                    Command::Draw(b) => {
                        a.merge(b);
                    },
                    _ => {},
                }
            },
            _ => {},
        }
    }
}

/// Round trip of any command: applying a fresh command to a well-formed grid
/// and then undoing it restores the grid cell for cell, whatever the variant
/// and whatever the grid held before.
pub proof fn lemma_command_round_trip(c: CommandModel, g: GridView)
    requires
        c.fresh(),
        g.wf(),
    ensures
        ({
            let (c1, g1) = c.apply_t(g);
            c1.undo_t(g1).1 == g
        }),
{
    match c {
        CommandModel::SetCell(m) => lemma_set_cell_round_trip(m, g),
        CommandModel::ClearCell(m) => lemma_clear_cell_round_trip(m, g),
        CommandModel::ClearGrid(m) => lemma_clear_grid_round_trip(m, g),
        CommandModel::Draw(m) => {
            if m.ops.len() > 0 {
                crate::commands::draw::lemma_draw_round_trip(g, m.ops);
            }
        },
        CommandModel::Composite(m) => composite::lemma_composite_round_trip(m, g),
    }
}

/// Writing any cell and then writing back what it held restores the grid.
proof fn lemma_write_round_trip(g: GridView, x: int, y: int, c: Cell)
    requires
        g.wf(),
    ensures
        g.in_bounds(x, y) ==> g.write(x, y, c).write(x, y, g.cell_at(x, y)) == g,
        !g.in_bounds(x, y) ==> g.write(x, y, c) == g,
{
    if g.in_bounds(x, y) {
        lemma_idx_bounds(g, x, y);
        assert(g.write(x, y, c).write(x, y, g.cell_at(x, y)).cells =~= g.cells);
    }
}

} // verus!
