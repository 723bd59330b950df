//! Per-tool geometry details.

use ascii_canvas::tools::ArrowTool;
use ascii_canvas::tools::BorderStyle;
use ascii_canvas::tools::DiamondTool;
use ascii_canvas::tools::EraserTool;
use ascii_canvas::tools::FreehandTool;
use ascii_canvas::tools::LineTool;
use ascii_canvas::tools::RectangleTool;
use ascii_canvas::tools::SelectTool;
use ascii_canvas::tools::TextTool;
use ascii_canvas::tools::ToolContext;
use ascii_canvas::tools::ToolId;

fn ctx() -> ToolContext {
    ToolContext { grid_width: 80, grid_height: 40, border_style: BorderStyle::Single }
}

#[test]
fn line_test_line_tool() {
    let tool = LineTool::new();
    assert_eq!(tool.id(), ToolId::Line);
}

#[test]
fn test_horizontal_line() {
    let tool = LineTool::new();
    let ops = tool.draw_line(0, 0, 5, 0);

    assert_eq!(ops.len(), 6);
    for op in &ops {
        assert_eq!(op.cell.ch, '─');
    }
}

#[test]
fn test_vertical_line() {
    let tool = LineTool::new();
    let ops = tool.draw_line(0, 0, 0, 5);

    assert_eq!(ops.len(), 6);
    for op in &ops {
        assert_eq!(op.cell.ch, '│');
    }
}

#[test]
fn test_diagonal_line() {
    let tool = LineTool::new();

    let ops = tool.draw_line(0, 0, 3, 3);
    for op in &ops {
        assert_eq!(op.cell.ch, '\\');
    }

    let ops = tool.draw_line(3, 0, 0, 3);
    for op in &ops {
        assert_eq!(op.cell.ch, '/');
    }
}

#[test]
fn rectangle_test_rectangle_tool() {
    let tool = RectangleTool::new();
    assert_eq!(tool.id(), ToolId::Rectangle);
    assert!(!tool.is_active());
}

#[test]
fn test_draw_rectangle() {
    let tool = RectangleTool::new();
    let ops = tool.draw_rectangle(0, 0, 4, 2);

    assert_eq!(ops.iter().find(|o| o.x == 0 && o.y == 0).unwrap().cell.ch, '┌');
    assert_eq!(ops.iter().find(|o| o.x == 4 && o.y == 0).unwrap().cell.ch, '┐');
    assert_eq!(ops.iter().find(|o| o.x == 0 && o.y == 2).unwrap().cell.ch, '└');
    assert_eq!(ops.iter().find(|o| o.x == 4 && o.y == 2).unwrap().cell.ch, '┘');
}

#[test]
fn test_single_point() {
    let tool = RectangleTool::new();
    let ops = tool.draw_rectangle(5, 5, 5, 5);
    assert_eq!(ops.len(), 1);
    assert_eq!(ops[0].x, 5);
    assert_eq!(ops[0].y, 5);
}

#[test]
fn arrow_test_arrow_tool() {
    let tool = ArrowTool::new();
    assert_eq!(tool.id(), ToolId::Arrow);
}

#[test]
fn test_horizontal_arrow() {
    let tool = ArrowTool::new();
    let ops = tool.draw_arrow(0, 0, 5, 0);

    assert!(!ops.is_empty());
    let last = ops.last().unwrap();
    assert_eq!(last.x, 5);
    assert_eq!(last.y, 0);
}

#[test]
fn test_arrowhead_directions() {
    assert_eq!(ArrowTool::get_arrowhead(0, -1), '▲');
    assert_eq!(ArrowTool::get_arrowhead(0, 1), '▼');
    assert_eq!(ArrowTool::get_arrowhead(1, 0), '►');
    assert_eq!(ArrowTool::get_arrowhead(-1, 0), '◄');
}

#[test]
fn diamond_test_diamond_tool() {
    let tool = DiamondTool::new();
    assert_eq!(tool.id(), ToolId::Diamond);
}

#[test]
fn test_single_point_diamond() {
    let tool = DiamondTool::new();
    let ops = tool.draw_diamond(5, 5, 5, 5);
    assert_eq!(ops.len(), 1);
    assert_eq!(ops[0].cell.ch, '◆');
}

#[test]
fn eraser_test_eraser_tool() {
    let tool = EraserTool::new();
    assert_eq!(tool.id(), ToolId::Eraser);
    assert!(!tool.is_active());
}

#[test]
fn test_eraser_at() {
    let tool = EraserTool::new();
    let ops = tool.erase_at(10, 10);

    assert_eq!(ops.len(), 1);
    assert_eq!(ops[0].x, 10);
    assert_eq!(ops[0].y, 10);
    assert!(ops[0].cell.is_empty());
}

#[test]
fn test_larger_eraser() {
    let mut tool = EraserTool::new();
    tool.set_size(2);
    let ops = tool.erase_at(10, 10);

    assert_eq!(ops.len(), 9);
}

#[test]
fn freehand_test_freehand_tool() {
    let tool = FreehandTool::new();
    assert_eq!(tool.id(), ToolId::Freehand);
    assert!(!tool.is_active());
}

#[test]
fn test_freehand_draw() {
    let mut tool = FreehandTool::new();
    let c = ctx();

    let result = tool.on_pointer_down(10, 10, &c);
    assert!(result.modified);
    assert!(tool.is_active());

    let result = tool.on_pointer_move(15, 10, &c);
    assert!(result.modified);
}

#[test]
fn select_test_select_tool() {
    let tool = SelectTool::new();
    assert_eq!(tool.id(), ToolId::Select);
    assert!(!tool.is_active());
}

#[test]
fn test_selection_creation() {
    let mut tool = SelectTool::new();
    let c = ctx();

    tool.on_pointer_down(5, 5, &c);
    tool.on_pointer_move(10, 10, &c);
    tool.on_pointer_up(10, 10, &c);

    assert!(tool.get_selection().is_some());
    let sel = tool.get_selection().unwrap();
    assert_eq!(sel.x1, 5);
    assert_eq!(sel.y1, 5);
    assert_eq!(sel.x2, 10);
    assert_eq!(sel.y2, 10);
}

#[test]
fn text_test_text_tool() {
    let tool = TextTool::new();
    assert_eq!(tool.id(), ToolId::Text);
    assert!(!tool.is_active());
}

#[test]
fn test_text_input() {
    let mut tool = TextTool::new();
    let c = ctx();

    tool.on_pointer_down(5, 5, &c);
    assert!(tool.is_active());

    let result = tool.on_key('H', &c);
    assert!(result.modified);
    assert_eq!(result.ops.len(), 1);
    assert_eq!(result.ops[0].cell.ch, 'H');
}

#[test]
fn test_text_backspace_and_commit() {
    let mut tool = TextTool::new();
    let c = ctx();

    tool.on_pointer_down(0, 0, &c);
    tool.on_key('a', &c);
    tool.on_key('b', &c);
    let result = tool.on_key('\u{8}', &c);
    assert_eq!(result.ops.len(), 1);
    assert_eq!(result.ops[0].x, 1);
    assert_eq!(result.ops[0].cell.ch, ' ');

    // Clicking again commits the staged text: the one remaining character.
    let staged = tool.on_pointer_down(3, 3, &c);
    assert_eq!(staged.ops.len(), 1);
    assert_eq!(staged.ops[0].cell.ch, 'a');
    assert_eq!(staged.ops[0].x, 0);
}
