//! Event data plumbing.

use ascii_canvas::EventResult;
use ascii_canvas::MouseButton;

#[test]
fn test_event_result() {
    let result = EventResult::new()
        .with_redraw(true)
        .with_tool(String::from("Rectangle"))
        .with_copy("test".to_string());

    assert!(result.needs_redraw);
    assert_eq!(result.tool, "Rectangle");
    assert!(result.should_copy);
    assert_eq!(result.ascii, Some("test".to_string()));
}

#[test]
fn test_mouse_button() {
    assert_eq!(MouseButton::from_button(0), Some(MouseButton::Left));
    assert_eq!(MouseButton::from_button(1), Some(MouseButton::Middle));
    assert_eq!(MouseButton::from_button(2), Some(MouseButton::Right));
    assert_eq!(MouseButton::from_button(3), None);
}
