//! History behavior: bounded undo/redo stacks.

use ascii_canvas::commands::Command;
use ascii_canvas::commands::SetCellCommand;
use ascii_canvas::Cell;
use ascii_canvas::Grid;
use ascii_canvas::History;

#[test]
fn test_history_push() {
    let mut history = History::new(10);
    history.push(Command::SetCell(SetCellCommand::new(0, 0, Cell::new('A'))));

    assert!(history.can_undo());
    assert!(!history.can_redo());
    assert_eq!(history.undo_count(), 1);
}

#[test]
fn test_history_undo_redo() {
    let mut grid = Grid::new(10, 10);
    let mut history = History::new(10);

    let mut cmd = SetCellCommand::new(5, 5, Cell::new('X'));
    cmd.apply(&mut grid);
    history.push(Command::SetCell(cmd));

    assert_eq!(grid.get(5, 5).unwrap().ch, 'X');

    history.undo(&mut grid);
    assert!(grid.get(5, 5).unwrap().is_empty());
    assert!(!history.can_undo());
    assert!(history.can_redo());

    history.redo(&mut grid);
    assert_eq!(grid.get(5, 5).unwrap().ch, 'X');
    assert!(history.can_undo());
    assert!(!history.can_redo());
}

#[test]
fn test_history_max_depth() {
    let mut history = History::new(5);

    for i in 0..10 {
        history.push(Command::SetCell(SetCellCommand::new(i, 0, Cell::new('X'))));
    }

    assert_eq!(history.undo_count(), 5);
}

#[test]
fn test_history_clear_on_push() {
    let mut grid = Grid::new(10, 10);
    let mut history = History::new(10);

    let mut cmd1 = SetCellCommand::new(0, 0, Cell::new('A'));
    cmd1.apply(&mut grid);
    history.push(Command::SetCell(cmd1));

    history.undo(&mut grid);
    assert_eq!(history.redo_count(), 1);

    let mut cmd2 = SetCellCommand::new(1, 0, Cell::new('B'));
    cmd2.apply(&mut grid);
    history.push(Command::SetCell(cmd2));

    assert_eq!(history.redo_count(), 0);
}

#[test]
fn test_history_descriptions() {
    let mut history = History::new(10);
    history.push(Command::SetCell(SetCellCommand::new(0, 0, Cell::new('X'))));

    assert_eq!(history.undo_description(), Some("Set cell"));
    assert_eq!(history.redo_description(), None);

    let mut grid = Grid::new(10, 10);
    history.undo(&mut grid);

    assert_eq!(history.redo_description(), Some("Set cell"));
}

#[test]
fn history_test_history_push() {
    let mut history = History::new(10);
    history.push(Command::SetCell(SetCellCommand::new(0, 0, Cell::new('A'))));

    assert!(history.can_undo());
    assert!(!history.can_redo());
    assert_eq!(history.undo_count(), 1);
}

#[test]
fn history_test_history_undo_redo() {
    let mut grid = Grid::new(10, 10);
    let mut history = History::new(10);

    let mut cmd = SetCellCommand::new(5, 5, Cell::new('X'));
    cmd.apply(&mut grid);
    history.push(Command::SetCell(cmd));

    assert_eq!(grid.get(5, 5).unwrap().ch, 'X');

    history.undo(&mut grid);
    assert!(grid.get(5, 5).unwrap().is_empty());
    assert!(!history.can_undo());
    assert!(history.can_redo());

    history.redo(&mut grid);
    assert_eq!(grid.get(5, 5).unwrap().ch, 'X');
    assert!(history.can_undo());
    assert!(!history.can_redo());
}

#[test]
fn history_test_history_max_depth() {
    let mut history = History::new(5);

    for i in 0..10 {
        history.push(Command::SetCell(SetCellCommand::new(i, 0, Cell::new('X'))));
    }

    assert_eq!(history.undo_count(), 5);
}

#[test]
fn history_test_history_clear_on_push() {
    let mut grid = Grid::new(10, 10);
    let mut history = History::new(10);

    let mut cmd1 = SetCellCommand::new(0, 0, Cell::new('A'));
    cmd1.apply(&mut grid);
    history.push(Command::SetCell(cmd1));

    history.undo(&mut grid);
    assert_eq!(history.redo_count(), 1);

    let mut cmd2 = SetCellCommand::new(1, 0, Cell::new('B'));
    cmd2.apply(&mut grid);
    history.push(Command::SetCell(cmd2));

    assert_eq!(history.redo_count(), 0);
}

#[test]
fn test_history_bound_and_exhaustion() {
    let mut grid = Grid::new(10, 10);
    let mut history = History::new(3);

    for i in 0..7 {
        let mut cmd = SetCellCommand::new(i, 0, Cell::new('X'));
        cmd.apply(&mut grid);
        history.push(Command::SetCell(cmd));
    }
    assert_eq!(history.undo_count(), 3);

    assert!(history.undo(&mut grid));
    assert!(history.undo(&mut grid));
    assert!(history.undo(&mut grid));
    assert!(!history.undo(&mut grid));
}

#[test]
fn test_redo_invalidation() {
    let mut grid = Grid::new(10, 10);
    let mut history = History::new(10);

    let mut cmd = SetCellCommand::new(0, 0, Cell::new('A'));
    cmd.apply(&mut grid);
    history.push(Command::SetCell(cmd));

    history.undo(&mut grid);
    assert_eq!(history.redo_count(), 1);

    history.push(Command::SetCell(SetCellCommand::new(4, 4, Cell::new('Q'))));
    assert_eq!(history.redo_count(), 0);
    assert!(!history.redo(&mut grid));
}
