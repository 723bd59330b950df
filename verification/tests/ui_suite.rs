//! Shortcuts, themes and the toolbar.

use ascii_canvas::Shortcut;
use ascii_canvas::ShortcutManager;
use ascii_canvas::Theme;
use ascii_canvas::ToolbarConfig;
use ascii_canvas::ToolbarItem;
use ascii_canvas::tools::ToolId;

#[test]
fn test_shortcut_matches() {
    let shortcut = Shortcut::ctrl("Z", "undo", "Undo");

    assert!(shortcut.matches("z", true, false, false));
    assert!(shortcut.matches("Z", true, false, false));
    assert!(!shortcut.matches("z", false, false, false));
    assert!(!shortcut.matches("z", true, true, false));
}

#[test]
fn test_shortcut_manager() {
    let manager = ShortcutManager::new();

    let matched = manager.find_match("R", false, false, false);
    assert!(matched.is_some());
    assert_eq!(matched.unwrap().action, "tool_rectangle");

    let matched = manager.find_match("z", true, false, false);
    assert!(matched.is_some());
    assert_eq!(matched.unwrap().action, "undo");
}

#[test]
fn test_display_string() {
    let manager = ShortcutManager::new();

    let display = manager.display_string("undo");
    assert_eq!(display, Some("Ctrl+Z".to_string()));

    // "redo" has two shortcuts; the one registered last wins.
    let display = manager.display_string("redo");
    assert_eq!(display, Some("Ctrl+Y".to_string()));
}

#[test]
fn test_default_theme() {
    let theme = Theme::default();
    assert_eq!(theme.name, "Figma Dark");
    assert!(theme.background.starts_with('#'));
}

#[test]
fn test_css_variables() {
    let theme = Theme::figma_dark();
    let css = theme.to_css_variables();

    assert!(css.contains("--bg:"));
    assert!(css.contains("--fg:"));
    assert!(css.contains("--accent:"));
}

#[test]
fn test_find_theme() {
    let theme = Theme::find("Light");
    assert!(theme.is_some());
    assert_eq!(theme.unwrap().name, "Light");

    let theme = Theme::find("nonexistent");
    assert!(theme.is_none());
}

#[test]
fn test_toolbar_item_tool() {
    let item = ToolbarItem::tool(ToolId::Rectangle);
    assert_eq!(item.id, "rectangle");
    assert_eq!(item.label, "Rectangle");
    assert!(item.is_tool);
    assert!(item.tool_id.is_some());
}

#[test]
fn test_toolbar_separator() {
    let item = ToolbarItem::separator();
    assert!(item.is_separator);
    assert!(!item.is_tool);
}

#[test]
fn test_toolbar_config() {
    let config = ToolbarConfig::new();
    assert!(!config.items.is_empty());

    let tools: Vec<_> = config.tools();
    assert!(!tools.is_empty());
}
