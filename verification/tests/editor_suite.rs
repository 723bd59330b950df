//! The editor state container and the session.

use ascii_canvas::AsciiEditor;
use ascii_canvas::EditorState;
use ascii_canvas::Grid;
use ascii_canvas::tools::ToolId;

#[test]
fn test_editor_state() {
    let state = EditorState::new(80, 40);
    assert_eq!(state.width(), 80);
    assert_eq!(state.height(), 40);
    assert_eq!(state.tool, ToolId::Rectangle);
}

#[test]
fn test_editor_set_tool() {
    let mut state = EditorState::new(80, 40);
    state.set_tool(ToolId::Line);
    assert_eq!(state.tool, ToolId::Line);
}

#[test]
fn test_re_exports() {
    let grid = Grid::new(10, 10);
    assert_eq!(grid.width(), 10);

    let state = EditorState::new(10, 10);
    assert_eq!(state.tool, ToolId::Rectangle);
}

#[test]
fn test_session_freehand_commit_and_undo() {
    let mut editor = AsciiEditor::new(20, 10);
    editor.set_tool_by_id(ToolId::Freehand);

    editor.on_pointer_down(2, 2);
    editor.on_pointer_move(5, 2);
    let result = editor.on_pointer_up(5, 2);
    assert!(result.can_undo);

    assert_eq!(editor.export_ascii(), "****");

    assert!(editor.undo());
    assert_eq!(editor.export_ascii(), "");
    assert!(editor.redo());
    assert_eq!(editor.export_ascii(), "****");
}

#[test]
fn test_session_preview_not_committed() {
    let mut editor = AsciiEditor::new(20, 10);
    editor.set_tool_by_id(ToolId::Line);

    editor.on_pointer_down(0, 0);
    editor.on_pointer_move(5, 0);
    assert!(!editor.can_undo());

    editor.on_pointer_up(5, 0);
    assert!(editor.can_undo());
}

#[test]
fn test_session_cut_and_paste() {
    let mut editor = AsciiEditor::new(20, 10);
    editor.set_tool_by_id(ToolId::Freehand);
    editor.on_pointer_down(1, 1);
    editor.on_pointer_up(1, 1);
    assert_eq!(editor.export_ascii(), "*");

    editor.set_tool_by_id(ToolId::Select);
    editor.on_pointer_down(1, 1);
    editor.on_pointer_move(1, 1);
    editor.on_pointer_up(1, 1);
    assert!(editor.has_selection());

    assert!(editor.cut_selection());
    assert!(editor.has_clipboard());
    assert_eq!(editor.export_ascii(), "");

    // The clipboard pastes at its relative offsets from the origin.
    assert!(editor.paste());
    assert_eq!(editor.export_ascii(), "*");

    assert!(editor.undo());
    assert_eq!(editor.export_ascii(), "");
}

#[test]
fn test_session_key_shortcuts() {
    let mut editor = AsciiEditor::new(20, 10);
    assert_eq!(editor.tool(), "Rectangle");

    editor.on_key_down("e", false, false);
    assert_eq!(editor.tool(), "Eraser");

    editor.on_key_down("Escape", false, false);
    assert_eq!(editor.tool(), "Eraser");

    let r = editor.on_key_down("c", true, false);
    assert!(r.should_copy);
}

#[test]
fn test_session_clear() {
    let mut editor = AsciiEditor::new(20, 10);
    editor.set_tool_by_id(ToolId::Freehand);
    editor.on_pointer_down(0, 0);
    editor.on_pointer_up(0, 0);
    assert!(editor.can_undo());

    editor.clear();
    assert!(!editor.can_undo());
    assert!(!editor.can_redo());
    assert_eq!(editor.export_ascii(), "");
}

#[test]
fn test_session_tool_switch_resets_gesture() {
    let mut editor = AsciiEditor::new(20, 10);
    editor.set_tool_by_id(ToolId::Line);
    editor.on_pointer_down(0, 0);

    // A letter shortcut is ignored while a gesture is open.
    editor.on_key_down("r", false, false);
    assert_eq!(editor.tool(), "Line");

    editor.on_pointer_up(3, 0);
    assert!(editor.can_undo());

    // Once the gesture has concluded, the shortcut switches the tool.
    editor.on_key_down("r", false, false);
    assert_eq!(editor.tool(), "Rectangle");
}

#[test]
fn test_session_escape_cancels_gesture() {
    let mut editor = AsciiEditor::new(20, 10);
    editor.set_tool_by_id(ToolId::Line);
    editor.on_pointer_down(0, 0);
    editor.on_key_down("Escape", false, false);

    // The cancelled drag commits nothing on release.
    editor.on_pointer_up(5, 0);
    assert!(!editor.can_undo());
    assert_eq!(editor.export_ascii(), "");
}

#[test]
fn test_session_undo_redo_via_keyboard() {
    let mut editor = AsciiEditor::new(20, 10);
    editor.set_tool_by_id(ToolId::Freehand);
    editor.on_pointer_down(0, 0);
    editor.on_pointer_up(0, 0);
    assert_eq!(editor.export_ascii(), "*");

    editor.on_key_down("z", true, false);
    assert_eq!(editor.export_ascii(), "");

    editor.on_key_down("z", true, true);
    assert_eq!(editor.export_ascii(), "*");
}

#[test]
fn test_session_text_typing_and_backspace() {
    let mut editor = AsciiEditor::new(20, 10);
    editor.set_tool_by_id(ToolId::Text);
    editor.on_pointer_down(0, 0);
    editor.on_key_down("H", false, false);
    editor.on_key_down("i", false, false);
    assert_eq!(editor.export_ascii(), "Hi");

    editor.on_key_down("Backspace", false, false);
    assert_eq!(editor.export_ascii(), "H");
}

#[test]
fn test_session_render_pull() {
    let mut editor = AsciiEditor::new(20, 10);
    assert!(editor.needs_full_redraw());
    editor.clear_dirty();

    editor.set_tool_by_id(ToolId::Freehand);
    editor.on_pointer_down(3, 2);
    editor.on_pointer_up(3, 2);

    let dirty = editor.dirty_rect();
    assert!(!dirty.is_empty());
    assert_eq!(dirty.x1, 3);
    assert_eq!(dirty.y1, 2);

    editor.clear_dirty();
    assert!(editor.dirty_rect().is_empty());
}
