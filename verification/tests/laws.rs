//! Concrete checks of the library's stated properties.

use ascii_canvas::commands::BasicCommand;
use ascii_canvas::commands::ClearCellCommand;
use ascii_canvas::commands::ClearGridCommand;
use ascii_canvas::commands::Command;
use ascii_canvas::commands::CompositeCommand;
use ascii_canvas::commands::DrawCommand;
use ascii_canvas::commands::SetCellCommand;
use ascii_canvas::export_grid;
use ascii_canvas::Cell;
use ascii_canvas::ExportOptions;
use ascii_canvas::Grid;
use ascii_canvas::tools::DrawOp;
use ascii_canvas::tools::EraserTool;
use ascii_canvas::tools::LineTool;

fn snapshot(grid: &Grid) -> Vec<char> {
    let mut out = Vec::new();
    for y in 0..grid.height() as i32 {
        for x in 0..grid.width() as i32 {
            out.push(grid.get(x, y).unwrap().ch);
        }
    }
    out
}

#[test]
fn test_round_trip_every_variant() {
    let mut grid = Grid::new(8, 8);
    grid.set_char(1, 1, 'p');
    grid.set_char(2, 2, 'q');
    let before = snapshot(&grid);

    let mut commands = vec![
        Command::SetCell(SetCellCommand::new(1, 1, Cell::new('A'))),
        Command::ClearCell(ClearCellCommand::new(2, 2)),
        Command::ClearGrid(ClearGridCommand::new()),
        Command::Draw(DrawCommand::new(vec![
            DrawOp::new(1, 1, 'x'),
            DrawOp::new(1, 1, 'y'),
            DrawOp::new(7, 7, 'z'),
        ])),
        Command::Composite(
            CompositeCommand::new(String::from("group"))
                .with(BasicCommand::SetCell(SetCellCommand::new(0, 0, Cell::new('1'))))
                .with(BasicCommand::ClearCell(ClearCellCommand::new(1, 1)))
                .with(BasicCommand::Draw(DrawCommand::new(vec![DrawOp::new(3, 3, '3')]))),
        ),
    ];

    for cmd in commands.iter_mut() {
        cmd.apply(&mut grid);
        cmd.undo(&mut grid);
        assert_eq!(snapshot(&grid), before);
    }
}

#[test]
fn test_bounds_rejection_never_mutates() {
    let mut grid = Grid::new(4, 4);
    grid.set_char(0, 0, 'a');
    let before = snapshot(&grid);

    for &(x, y) in &[(-1, 0), (0, -1), (4, 0), (0, 4), (100, 100), (-7, -9)] {
        assert!(grid.get(x, y).is_none());
        assert!(!grid.set(x, y, Cell::new('Z')));
        assert!(!grid.set_char(x, y, 'Z'));
        assert!(!grid.clear_cell(x, y));
        assert_eq!(snapshot(&grid), before);
    }
}

#[test]
fn test_line_symmetry_straight_and_diagonal() {
    let tool = LineTool::new();
    for &(x1, y1, x2, y2) in &[(0, 0, 7, 0), (2, 1, 2, 9), (0, 0, 5, 5), (6, 1, 1, 6)] {
        let mut fwd: Vec<(i32, i32)> =
            tool.draw_line(x1, y1, x2, y2).iter().map(|o| (o.x, o.y)).collect();
        let mut bwd: Vec<(i32, i32)> =
            tool.draw_line(x2, y2, x1, y1).iter().map(|o| (o.x, o.y)).collect();
        fwd.sort();
        bwd.sort();
        assert_eq!(fwd, bwd);
    }
}

#[test]
fn test_export_scenarios() {
    let grid = Grid::new(10, 10);
    assert_eq!(export_grid(&grid, &ExportOptions::default()), "");

    let mut grid = Grid::new(10, 10);
    grid.set_char(2, 2, 'H');
    grid.set_char(3, 2, 'i');
    assert_eq!(export_grid(&grid, &ExportOptions::default()), "Hi");

    let mut grid = Grid::new(10, 10);
    grid.set_char(0, 0, 'A');
    grid.set_char(0, 1, 'B');
    assert_eq!(export_grid(&grid, &ExportOptions::default()), "A\nB");
}

#[test]
fn test_eraser_sizes_clear_counts() {
    let mut tool = EraserTool::new();
    let ops1 = tool.erase_at(5, 5);
    assert_eq!(ops1.len(), 1);

    tool.set_size(2);
    let ops2 = tool.erase_at(5, 5);
    assert_eq!(ops2.len(), 9);

    let mut grid = Grid::new(11, 11);
    grid.fill_rect(0, 0, 10, 10, '#');
    let mut cmd = DrawCommand::new(ops2);
    cmd.apply(&mut grid);
    let cleared = snapshot(&grid).iter().filter(|&&c| c == ' ').count();
    assert_eq!(cleared, 9);
}

#[test]
fn test_draw_description_counts() {
    let one = DrawCommand::new(vec![DrawOp::new(0, 0, 'a')]);
    assert_eq!(one.description(), "Draw");

    let three = DrawCommand::new(vec![
        DrawOp::new(0, 0, 'a'),
        DrawOp::new(1, 0, 'b'),
        DrawOp::new(2, 0, 'c'),
    ]);
    assert_eq!(three.description(), "Draw 3 cells");
}

#[test]
fn test_export_trims_trailing_spaces_only() {
    let mut grid = Grid::new(10, 3);
    grid.set_char(2, 0, 'a');
    grid.set_char(0, 1, 'b');
    grid.set_char(5, 1, 'c');
    let out = export_grid(&grid, &ExportOptions::default());
    assert_eq!(out, "  a\nb    c");
}
