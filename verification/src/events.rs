//! Plain event data: what the host hands the editor and what the editor
//! reports back after each event.

use vstd::prelude::*;

verus! {

/// Result of processing a user event, for the host to act on.
#[derive(Clone, Debug)]
pub struct EventResult {
    /// Whether the canvas needs redraw.
    pub needs_redraw: bool,
    /// Current tool name.
    pub tool: String,
    /// Whether undo is available.
    pub can_undo: bool,
    /// Whether redo is available.
    pub can_redo: bool,
    /// Whether the host should copy text to the system clipboard.
    pub should_copy: bool,
    /// The text for the system clipboard, when `should_copy` is set.
    pub ascii: Option<String>,
    /// Cursor position in grid coordinates.
    pub cursor: Option<(i32, i32)>,
}

impl EventResult {
    /// Create an empty event result.
    pub fn new() -> (r: Self)
        ensures
            !r.needs_redraw,
            r.tool@.len() == 0,
            !r.can_undo,
            !r.can_redo,
            !r.should_copy,
            r.ascii is None,
            r.cursor is None,
    {
        EventResult {
            needs_redraw: false,
            tool: String::new(),
            can_undo: false,
            can_redo: false,
            should_copy: false,
            ascii: None,
            cursor: None,
        }
    }

    /// Set the redraw flag.
    pub fn with_redraw(self, redraw: bool) -> (r: Self)
        ensures
            r.needs_redraw == redraw,
            r.tool == self.tool,
            r.can_undo == self.can_undo,
            r.can_redo == self.can_redo,
            r.should_copy == self.should_copy,
            r.ascii == self.ascii,
            r.cursor == self.cursor,
    {
        EventResult { needs_redraw: redraw, ..self }
    }

    /// Set the tool name.
    pub fn with_tool(self, tool: String) -> (r: Self)
        ensures
            r.tool == tool,
            r.needs_redraw == self.needs_redraw,
            r.can_undo == self.can_undo,
            r.can_redo == self.can_redo,
            r.should_copy == self.should_copy,
            r.ascii == self.ascii,
            r.cursor == self.cursor,
    {
        EventResult { tool, ..self }
    }

    /// Set the clipboard copy payload.
    pub fn with_copy(self, ascii: String) -> (r: Self)
        ensures
            r.should_copy,
            r.ascii == Some(ascii),
            r.needs_redraw == self.needs_redraw,
            r.tool == self.tool,
            r.can_undo == self.can_undo,
            r.can_redo == self.can_redo,
            r.cursor == self.cursor,
    {
        EventResult { should_copy: true, ascii: Some(ascii), ..self }
    }

    /// Set the cursor position.
    pub fn with_cursor(self, x: i32, y: i32) -> (r: Self)
        ensures
            r.cursor == Some((x, y)),
            r.needs_redraw == self.needs_redraw,
            r.tool == self.tool,
            r.can_undo == self.can_undo,
            r.can_redo == self.can_redo,
            r.should_copy == self.should_copy,
            r.ascii == self.ascii,
    {
        EventResult { cursor: Some((x, y)), ..self }
    }
}

impl Default for EventResult {
    /// The default event result reports nothing.
    fn default() -> (r: Self)
        ensures
            !r.needs_redraw && !r.can_undo && !r.can_redo && !r.should_copy,
            r.ascii is None,
            r.cursor is None,
            r.tool@.len() == 0,
    {
        EventResult::new()
    }
}

/// Key modifier state delivered with keyboard events.
#[derive(Clone, Copy, Debug, PartialEq, Eq, Structural)]
pub struct KeyModifiers {
    /// Control key held.
    pub ctrl: bool,
    /// Shift key held.
    pub shift: bool,
    /// Alt key held.
    pub alt: bool,
    /// Meta key held.
    pub meta: bool,
}

impl KeyModifiers {
    /// Create a modifier state.
    pub fn new(ctrl: bool, shift: bool, alt: bool, meta: bool) -> (r: Self)
        ensures
            r == (KeyModifiers { ctrl, shift, alt, meta }),
    {
        KeyModifiers { ctrl, shift, alt, meta }
    }
}

impl Default for KeyModifiers {
    /// The default state has no modifier held.
    fn default() -> (r: Self)
        ensures
            r == (KeyModifiers { ctrl: false, shift: false, alt: false, meta: false }),
    {
        KeyModifiers { ctrl: false, shift: false, alt: false, meta: false }
    }
}

/// Mouse button identifier.
#[derive(Clone, Copy, Debug, PartialEq, Eq, Structural)]
pub enum MouseButton {
    /// The primary button.
    Left,
    /// The wheel button.
    Middle,
    /// The secondary button.
    Right,
}

impl MouseButton {
    /// Map a numeric button code to a button, if it names one.
    pub fn from_button(button: i16) -> (r: Option<Self>)
        ensures
            r == match button {
                0i16 => Some(MouseButton::Left),
                1i16 => Some(MouseButton::Middle),
                2i16 => Some(MouseButton::Right),
                _ => None::<MouseButton>,
            },
    {
        match button {
            0 => Some(MouseButton::Left),
            1 => Some(MouseButton::Middle),
            2 => Some(MouseButton::Right),
            _ => None,
        }
    }
}

/// Keyboard event data, as the host delivers it.
#[derive(Clone, Debug)]
pub struct KeyboardEventData {
    /// Key value.
    pub key: String,
    /// Key code.
    pub code: String,
    /// Key modifiers.
    pub modifiers: KeyModifiers,
    /// Whether this is a key repeat.
    pub repeat: bool,
}

/// Pointer event data in grid coordinates, as the host delivers it after
/// converting from screen space.
#[derive(Clone, Copy, Debug, PartialEq, Eq, Structural)]
pub struct PointerEventData {
    /// Grid X coordinate.
    pub grid_x: i32,
    /// Grid Y coordinate.
    pub grid_y: i32,
    /// Mouse button.
    pub button: MouseButton,
    /// Key modifiers.
    pub modifiers: KeyModifiers,
    /// Whether the pointer is down.
    pub is_down: bool,
}

} // verus!
