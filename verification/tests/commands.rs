//! Command behavior: apply, undo, and merging.

use ascii_canvas::commands::BasicCommand;
use ascii_canvas::commands::ClearCellCommand;
use ascii_canvas::commands::ClearGridCommand;
use ascii_canvas::commands::Command;
use ascii_canvas::commands::CompositeCommand;
use ascii_canvas::commands::DrawCommand;
use ascii_canvas::commands::SetCellCommand;
use ascii_canvas::Cell;
use ascii_canvas::Grid;
use ascii_canvas::tools::DrawOp;

#[test]
fn test_set_cell_command() {
    let mut grid = Grid::new(10, 10);
    let mut cmd = SetCellCommand::new(5, 5, Cell::new('X'));

    cmd.apply(&mut grid);
    assert_eq!(grid.get(5, 5).unwrap().ch, 'X');

    cmd.undo(&mut grid);
    assert!(grid.get(5, 5).unwrap().is_empty());
}

#[test]
fn test_clear_cell_command() {
    let mut grid = Grid::new(10, 10);
    grid.set_char(5, 5, 'X');

    let mut cmd = ClearCellCommand::new(5, 5);
    cmd.apply(&mut grid);

    assert!(grid.get(5, 5).unwrap().is_empty());

    cmd.undo(&mut grid);
    assert_eq!(grid.get(5, 5).unwrap().ch, 'X');
}

#[test]
fn test_clear_grid_command() {
    let mut grid = Grid::new(10, 10);
    grid.set_char(5, 5, 'X');

    let mut cmd = ClearGridCommand::new();
    cmd.apply(&mut grid);

    assert!(grid.get(5, 5).unwrap().is_empty());

    cmd.undo(&mut grid);
    assert_eq!(grid.get(5, 5).unwrap().ch, 'X');
}

#[test]
fn test_draw_command() {
    let mut grid = Grid::new(10, 10);
    let ops = vec![
        DrawOp::new(0, 0, 'A'),
        DrawOp::new(1, 0, 'B'),
        DrawOp::new(2, 0, 'C'),
    ];

    let mut cmd = DrawCommand::new(ops);
    cmd.apply(&mut grid);

    assert_eq!(grid.get(0, 0).unwrap().ch, 'A');
    assert_eq!(grid.get(1, 0).unwrap().ch, 'B');
    assert_eq!(grid.get(2, 0).unwrap().ch, 'C');

    cmd.undo(&mut grid);

    assert!(grid.get(0, 0).unwrap().is_empty());
    assert!(grid.get(1, 0).unwrap().is_empty());
    assert!(grid.get(2, 0).unwrap().is_empty());
}

#[test]
fn test_draw_command_can_merge() {
    let cmd1 = DrawCommand::new(vec![DrawOp::new(0, 0, 'A')]);
    let cmd2 = DrawCommand::new(vec![DrawOp::new(1, 0, 'B')]);

    assert!(cmd1.can_merge(&cmd2));
}

#[test]
fn test_composite_command() {
    let mut grid = Grid::new(10, 10);

    let mut composite = CompositeCommand::new(String::from("Multiple changes"));
    composite.add(BasicCommand::SetCell(SetCellCommand::new(0, 0, Cell::new('A'))));
    composite.add(BasicCommand::SetCell(SetCellCommand::new(1, 0, Cell::new('B'))));
    composite.add(BasicCommand::SetCell(SetCellCommand::new(2, 0, Cell::new('C'))));

    composite.apply(&mut grid);

    assert_eq!(grid.get(0, 0).unwrap().ch, 'A');
    assert_eq!(grid.get(1, 0).unwrap().ch, 'B');
    assert_eq!(grid.get(2, 0).unwrap().ch, 'C');

    composite.undo(&mut grid);

    assert!(grid.get(0, 0).unwrap().is_empty());
    assert!(grid.get(1, 0).unwrap().is_empty());
    assert!(grid.get(2, 0).unwrap().is_empty());
}

#[test]
fn mod_test_set_cell_command() {
    let mut grid = Grid::new(10, 10);
    let mut cmd = SetCellCommand::new(5, 5, Cell::new('X'));

    cmd.apply(&mut grid);
    assert_eq!(grid.get(5, 5).unwrap().ch, 'X');

    cmd.undo(&mut grid);
    assert!(grid.get(5, 5).unwrap().is_empty());
}

#[test]
fn mod_test_clear_grid_command() {
    let mut grid = Grid::new(10, 10);
    grid.set_char(5, 5, 'X');

    let mut cmd = ClearGridCommand::new();
    cmd.apply(&mut grid);

    assert!(grid.get(5, 5).unwrap().is_empty());

    cmd.undo(&mut grid);
    assert_eq!(grid.get(5, 5).unwrap().ch, 'X');
}

#[test]
fn draw_test_draw_command() {
    let mut grid = Grid::new(10, 10);
    let ops = vec![
        DrawOp::new(0, 0, 'A'),
        DrawOp::new(1, 0, 'B'),
        DrawOp::new(2, 0, 'C'),
    ];

    let mut cmd = DrawCommand::new(ops);
    cmd.apply(&mut grid);

    assert_eq!(grid.get(0, 0).unwrap().ch, 'A');
    assert_eq!(grid.get(1, 0).unwrap().ch, 'B');
    assert_eq!(grid.get(2, 0).unwrap().ch, 'C');

    cmd.undo(&mut grid);

    assert!(grid.get(0, 0).unwrap().is_empty());
    assert!(grid.get(1, 0).unwrap().is_empty());
    assert!(grid.get(2, 0).unwrap().is_empty());
}

#[test]
fn test_empty_draw_command() {
    let mut grid = Grid::new(10, 10);
    let mut cmd = DrawCommand::new(vec![]);

    cmd.apply(&mut grid);
    assert!(cmd.is_empty());
}

#[test]
fn composite_test_composite_command() {
    let mut grid = Grid::new(10, 10);

    let mut composite = CompositeCommand::new(String::from("Multiple changes"));
    composite.add(BasicCommand::SetCell(SetCellCommand::new(0, 0, Cell::new('A'))));
    composite.add(BasicCommand::SetCell(SetCellCommand::new(1, 0, Cell::new('B'))));
    composite.add(BasicCommand::SetCell(SetCellCommand::new(2, 0, Cell::new('C'))));

    composite.apply(&mut grid);

    assert_eq!(grid.get(0, 0).unwrap().ch, 'A');
    assert_eq!(grid.get(1, 0).unwrap().ch, 'B');
    assert_eq!(grid.get(2, 0).unwrap().ch, 'C');

    composite.undo(&mut grid);

    assert!(grid.get(0, 0).unwrap().is_empty());
    assert!(grid.get(1, 0).unwrap().is_empty());
    assert!(grid.get(2, 0).unwrap().is_empty());
}

#[test]
fn test_round_trip_preserves_existing_cells() {
    let mut grid = Grid::new(6, 6);
    grid.set_char(1, 1, 'k');
    grid.set_char(2, 1, 'q');

    let mut cmd = Command::Draw(DrawCommand::new(vec![
        DrawOp::new(1, 1, 'Z'),
        DrawOp::new(1, 1, 'W'),
        DrawOp::new(3, 3, '#'),
        DrawOp::new(-4, 2, '!'),
    ]));
    cmd.apply(&mut grid);
    assert_eq!(grid.get(1, 1).unwrap().ch, 'W');
    assert_eq!(grid.get(3, 3).unwrap().ch, '#');

    cmd.undo(&mut grid);
    assert_eq!(grid.get(1, 1).unwrap().ch, 'k');
    assert_eq!(grid.get(2, 1).unwrap().ch, 'q');
    assert!(grid.get(3, 3).unwrap().is_empty());
}

#[test]
fn test_apply_is_idempotent_when_applied() {
    let mut grid = Grid::new(5, 5);
    let mut cmd = Command::SetCell(SetCellCommand::new(2, 2, Cell::new('X')));
    cmd.apply(&mut grid);
    grid.set_char(2, 2, 'Y');
    cmd.apply(&mut grid);
    assert_eq!(grid.get(2, 2).unwrap().ch, 'Y');

    let mut fresh = Command::SetCell(SetCellCommand::new(3, 3, Cell::new('X')));
    fresh.undo(&mut grid);
    assert!(grid.get(3, 3).unwrap().is_empty());
}

#[test]
fn test_merge_cap_refused_at_limit() {
    let many: Vec<DrawOp> = (0..500).map(|i| DrawOp::new(i, 0, '*')).collect();
    let a = Command::Draw(DrawCommand::new(many.clone()));
    let b = Command::Draw(DrawCommand::new(many));
    assert!(!a.can_merge(&b));

    let c = Command::Draw(DrawCommand::new(vec![DrawOp::new(0, 0, 'a')]));
    let d = Command::Draw(DrawCommand::new(vec![DrawOp::new(1, 1, 'b')]));
    assert!(c.can_merge(&d));
}

#[test]
fn test_merge_concatenates_in_order() {
    let mut a = DrawCommand::new(vec![DrawOp::new(0, 0, 'a'), DrawOp::new(1, 0, 'b')]);
    let b = DrawCommand::new(vec![DrawOp::new(2, 0, 'c')]);
    assert!(a.can_merge(&b));
    a.merge(b);
    assert_eq!(a.len(), 3);

    let mut grid = Grid::new(5, 5);
    a.apply(&mut grid);
    assert_eq!(grid.get(0, 0).unwrap().ch, 'a');
    assert_eq!(grid.get(1, 0).unwrap().ch, 'b');
    assert_eq!(grid.get(2, 0).unwrap().ch, 'c');
}

#[test]
fn test_merge_refused_between_kinds() {
    let mut a = Command::Draw(DrawCommand::new(vec![DrawOp::new(0, 0, 'a')]));
    let b = Command::ClearGrid(ClearGridCommand::new());
    assert!(!a.can_merge(&b));
    a.merge(b);
    assert_eq!(a.description(), "Draw");
}
