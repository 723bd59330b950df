//! Editing engine for a character-grid drawing surface.
//!
//! The crate owns the canvas data (a flat, row-major grid of styled
//! character cells), turns pointer and keyboard gestures into ordered
//! draw operations through a family of tool state machines, wraps those
//! operations in reversible commands backed by a bounded undo/redo log,
//! tracks the dirty region that a renderer must repaint, and serializes
//! the visible grid content to plain text.

#![verifier::loop_isolation(false)]

mod cell;
pub mod commands;
mod dirty;
pub mod editor;
mod events;
mod export;
mod geometry;
mod grid;
mod history;
mod selection;
mod shortcuts;
mod theme;
mod toolbar;
mod strutil;
pub mod svec;
pub mod tools;

pub use cell::Cell;
pub use cell::CellStyle;
pub use dirty::DirtyRect;
pub use dirty::DirtyTracker;
pub use editor::AsciiEditor;
pub use editor::EditorState;
pub use events::EventResult;
pub use events::KeyModifiers;
pub use events::KeyboardEventData;
pub use events::MouseButton;
pub use events::PointerEventData;
pub use export::export_grid;
pub use export::export_region;
pub use export::count_content;
pub use export::find_content_bounds;
pub use export::ExportOptions;
pub use geometry::abs_diff;
pub use geometry::chebyshev_distance;
pub use geometry::clamp;
pub use geometry::manhattan_distance;
pub use geometry::signum;
pub use geometry::Point;
pub use geometry::Rect;
pub use grid::Grid;
pub use grid::GridView;
pub use history::History;
pub use selection::Selection;
pub use selection::SelectionClipboard;
pub use shortcuts::Shortcut;
pub use shortcuts::ShortcutManager;
pub use theme::Theme;
pub use toolbar::ToolbarConfig;
pub use toolbar::ToolbarItem;
