//! Common vocabulary of the drawing tools: tool identifiers, border styles,
//! draw operations, tool results, and coordinate clamping.
//!
//! Each tool is a small state machine that consumes pointer or key events and
//! emits an ordered list of [`DrawOp`]s; the command layer applies them.

mod arrow;
mod eraser;
mod freehand;
mod line;
mod diamond;
mod rectangle;
mod select;
mod text;
pub mod raster;

pub use arrow::spec_arrow_ops;
pub use arrow::ArrowTool;
pub use diamond::spec_diamond_ops;
pub use diamond::DiamondTool;
pub use eraser::spec_erase_path;
pub use eraser::EraserTool;
pub use freehand::spec_stroke_ops;
pub use freehand::FreehandTool;
pub use line::spec_line_ops;
pub use line::LineTool;
pub use rectangle::spec_rectangle_ops;
pub use rectangle::RectangleTool;
pub use select::SelectTool;
pub use text::spec_is_control;
pub use text::spec_text_ops;
pub use text::TextTool;

use vstd::prelude::*;

use crate::cell::Cell;

verus! {

/// Unique identifier for a tool.
#[derive(Clone, Copy, Debug, PartialEq, Eq, Structural)]
pub enum ToolId {
    /// Rectangle tool for drawing boxes (shortcut: R).
    Rectangle,
    /// Line tool for drawing straight lines (shortcut: L).
    Line,
    /// Arrow tool for drawing arrows (shortcut: A).
    Arrow,
    /// Diamond tool for drawing diamond shapes (shortcut: D).
    Diamond,
    /// Text tool for typing characters (shortcut: T).
    Text,
    /// Freehand drawing tool (shortcut: F).
    Freehand,
    /// Selection tool (shortcut: V).
    Select,
    /// Eraser tool for clearing cells (shortcut: E).
    Eraser,
}

impl ToolId {
    /// The keyboard shortcut of each tool.
    pub open spec fn spec_shortcut(self) -> char {
        match self {
            ToolId::Rectangle => 'R',
            ToolId::Line => 'L',
            ToolId::Arrow => 'A',
            ToolId::Diamond => 'D',
            ToolId::Text => 'T',
            ToolId::Freehand => 'F',
            ToolId::Select => 'V',
            ToolId::Eraser => 'E',
        }
    }

    /// The tool selected by an upper-case shortcut letter, if any.
    pub open spec fn spec_from_shortcut(up: char) -> Option<ToolId> {
        match up {
            'R' => Some(ToolId::Rectangle),
            'L' => Some(ToolId::Line),
            'A' => Some(ToolId::Arrow),
            'D' => Some(ToolId::Diamond),
            'T' => Some(ToolId::Text),
            'F' => Some(ToolId::Freehand),
            'V' => Some(ToolId::Select),
            'E' => Some(ToolId::Eraser),
            _ => None,
        }
    }

    /// Get the keyboard shortcut for this tool.
    pub fn shortcut(&self) -> (r: char)
        ensures
            r == self.spec_shortcut(),
    {
        match self {
            ToolId::Rectangle => 'R',
            ToolId::Line => 'L',
            ToolId::Arrow => 'A',
            ToolId::Diamond => 'D',
            ToolId::Text => 'T',
            ToolId::Freehand => 'F',
            ToolId::Select => 'V',
            ToolId::Eraser => 'E',
        }
    }

    /// Get the tool from its keyboard shortcut, accepting either case of an
    /// ASCII letter.
    pub fn from_shortcut(ch: char) -> (r: Option<ToolId>)
        ensures
            r == ToolId::spec_from_shortcut(ascii_upper(ch)),
    {
        let up = to_ascii_upper(ch);
        match up {
            'R' => Some(ToolId::Rectangle),
            'L' => Some(ToolId::Line),
            'A' => Some(ToolId::Arrow),
            'D' => Some(ToolId::Diamond),
            'T' => Some(ToolId::Text),
            'F' => Some(ToolId::Freehand),
            'V' => Some(ToolId::Select),
            'E' => Some(ToolId::Eraser),
            _ => None,
        }
    }

    /// The display name of each tool.
    pub open spec fn spec_name(self) -> Seq<char> {
        match self {
            ToolId::Rectangle => "Rectangle"@,
            ToolId::Line => "Line"@,
            ToolId::Arrow => "Arrow"@,
            ToolId::Diamond => "Diamond"@,
            ToolId::Text => "Text"@,
            ToolId::Freehand => "Freehand"@,
            ToolId::Select => "Select"@,
            ToolId::Eraser => "Eraser"@,
        }
    }

    /// Get the display name for this tool.
    pub fn name(&self) -> (r: &'static str)
        ensures
            r@ == self.spec_name(),
    {
        match self {
            ToolId::Rectangle => "Rectangle",
            ToolId::Line => "Line",
            ToolId::Arrow => "Arrow",
            ToolId::Diamond => "Diamond",
            ToolId::Text => "Text",
            ToolId::Freehand => "Freehand",
            ToolId::Select => "Select",
            ToolId::Eraser => "Eraser",
        }
    }
}

impl Default for ToolId {
    /// The default tool is the rectangle.
    fn default() -> (r: Self)
        ensures
            r == ToolId::Rectangle,
    {
        ToolId::Rectangle
    }
}

/// An ASCII lower-case letter mapped to its upper case; anything else unchanged.
pub open spec fn ascii_upper(c: char) -> char {
    if 'a' <= c <= 'z' {
        ((c as u8) - 0x20) as char
    } else {
        c
    }
}

/// Uppercase an ASCII letter, leaving every other character unchanged.
pub fn to_ascii_upper(c: char) -> (r: char)
    ensures
        r == ascii_upper(c),
{
    if c >= 'a' && c <= 'z' {
        ((c as u8) - 0x20) as char
    } else {
        c
    }
}

/// Border style for shapes like rectangles.
#[derive(Clone, Copy, Debug, PartialEq, Eq, Structural)]
pub enum BorderStyle {
    /// Single line border.
    Single,
    /// Double line border.
    Double,
    /// Heavy line border.
    Heavy,
    /// Rounded corners.
    Rounded,
    /// Plain ASCII characters.
    Ascii,
    /// Star/dotted style.
    Dotted,
}

impl BorderStyle {
    /// The corner characters of each style, in the order top-left, top-right,
    /// bottom-left, bottom-right.
    pub open spec fn spec_corners(self) -> Seq<char> {
        match self {
            BorderStyle::Single => seq!['┌', '┐', '└', '┘'],
            BorderStyle::Double => seq!['╔', '╗', '╚', '╝'],
            BorderStyle::Heavy => seq!['┏', '┓', '┗', '┛'],
            BorderStyle::Rounded => seq!['╭', '╮', '╰', '╯'],
            BorderStyle::Ascii => seq!['+', '+', '+', '+'],
            BorderStyle::Dotted => seq!['*', '*', '*', '*'],
        }
    }

    /// The horizontal border character of each style.
    pub open spec fn spec_horizontal(self) -> char {
        match self {
            BorderStyle::Single => '─',
            BorderStyle::Double => '═',
            BorderStyle::Heavy => '━',
            BorderStyle::Rounded => '─',
            BorderStyle::Ascii => '-',
            BorderStyle::Dotted => '*',
        }
    }

    /// The vertical border character of each style.
    pub open spec fn spec_vertical(self) -> char {
        match self {
            BorderStyle::Single => '│',
            BorderStyle::Double => '║',
            BorderStyle::Heavy => '┃',
            BorderStyle::Rounded => '│',
            BorderStyle::Ascii => '|',
            BorderStyle::Dotted => '*',
        }
    }

    /// Get the corner characters for this style.
    pub fn corners(&self) -> (r: [char; 4])
        ensures
            r@ == self.spec_corners(),
    {
        let r = match self {
            BorderStyle::Single => ['┌', '┐', '└', '┘'],
            BorderStyle::Double => ['╔', '╗', '╚', '╝'],
            BorderStyle::Heavy => ['┏', '┓', '┗', '┛'],
            BorderStyle::Rounded => ['╭', '╮', '╰', '╯'],
            BorderStyle::Ascii => ['+', '+', '+', '+'],
            BorderStyle::Dotted => ['*', '*', '*', '*'],
        };
        proof {
            assert(r@ =~= self.spec_corners());
        }
        r
    }

    /// Get the horizontal line character.
    pub fn horizontal(&self) -> (r: char)
        ensures
            r == self.spec_horizontal(),
    {
        match self {
            BorderStyle::Single => '─',
            BorderStyle::Double => '═',
            BorderStyle::Heavy => '━',
            BorderStyle::Rounded => '─',
            BorderStyle::Ascii => '-',
            BorderStyle::Dotted => '*',
        }
    }

    /// Get the vertical line character.
    pub fn vertical(&self) -> (r: char)
        ensures
            r == self.spec_vertical(),
    {
        match self {
            BorderStyle::Single => '│',
            BorderStyle::Double => '║',
            BorderStyle::Heavy => '┃',
            BorderStyle::Rounded => '│',
            BorderStyle::Ascii => '|',
            BorderStyle::Dotted => '*',
        }
    }
}

impl Default for BorderStyle {
    /// The default border style is the single line.
    fn default() -> (r: Self)
        ensures
            r == BorderStyle::Single,
    {
        BorderStyle::Single
    }
}

/// A single draw operation: a cell value destined for a grid coordinate.
/// Tools emit these and the command layer consumes them; they are never
/// persisted.
#[derive(Clone, Copy, Debug, PartialEq, Eq, Structural)]
pub struct DrawOp {
    /// X coordinate in grid space.
    pub x: i32,
    /// Y coordinate in grid space.
    pub y: i32,
    /// The cell content to set.
    pub cell: Cell,
}

impl DrawOp {
    /// Create a new draw operation placing a plain character.
    pub fn new(x: i32, y: i32, ch: char) -> (r: Self)
        ensures
            r == DrawOp::spec_new(x as int, y as int, ch),
    {
        DrawOp { x, y, cell: Cell::new(ch) }
    }

    /// The operation placing the plain character `ch` at `(x, y)`.
    pub open spec fn spec_new(x: int, y: int, ch: char) -> DrawOp {
        DrawOp { x: x as i32, y: y as i32, cell: Cell { ch, style: crate::cell::CellStyle { bits: 0 } } }
    }
}

/// Result of a tool operation: the draw operations to apply, whether the grid
/// was modified, and whether the gesture has concluded (commit to history)
/// rather than being a live preview.
#[derive(Clone, Debug)]
pub struct ToolResult {
    /// Draw operations to apply.
    pub ops: Vec<DrawOp>,
    /// Whether the tool has finished its gesture.
    pub finished: bool,
    /// Whether the grid was modified.
    pub modified: bool,
}

impl ToolResult {
    /// Create a new empty tool result.
    pub fn new() -> (r: Self)
        ensures
            r.ops@.len() == 0,
            !r.finished,
            !r.modified,
    {
        ToolResult { ops: Vec::new(), finished: false, modified: false }
    }

    /// Add a single draw operation, marking the result as modifying.
    pub fn with_op(self, op: DrawOp) -> (r: Self)
        ensures
            r.ops@ == self.ops@.push(op),
            r.modified,
            r.finished == self.finished,
    {
        let mut ops = self.ops;
        ops.push(op);
        ToolResult { ops, finished: self.finished, modified: true }
    }

    /// Set all draw operations; a non-empty list marks the result as modifying.
    pub fn with_ops(self, ops: Vec<DrawOp>) -> (r: Self)
        ensures
            r.ops@ == ops@,
            r.modified == (self.modified || ops@.len() > 0),
            r.finished == self.finished,
    {
        let modified = if ops.len() > 0 {
            true
        } else {
            self.modified
        };
        ToolResult { ops, finished: self.finished, modified }
    }

    /// Mark the result as finished.
    pub fn finish(self) -> (r: Self)
        ensures
            r.ops@ == self.ops@,
            r.modified == self.modified,
            r.finished,
    {
        ToolResult { ops: self.ops, finished: true, modified: self.modified }
    }
}

impl Default for ToolResult {
    /// The default result is empty: no operations, not finished, not modifying.
    fn default() -> (r: Self)
        ensures
            r.ops@.len() == 0,
            !r.finished,
            !r.modified,
    {
        ToolResult { ops: Vec::new(), finished: false, modified: false }
    }
}

/// Context provided to tools during operations.
pub struct ToolContext {
    /// Current grid width.
    pub grid_width: usize,
    /// Current grid height.
    pub grid_height: usize,
    /// Current border style preference.
    pub border_style: BorderStyle,
}

impl ToolContext {
    /// A usable context has at least one cell in each direction and dimensions
    /// small enough that the rasterizers' error terms fit machine integers.
    pub open spec fn valid(&self) -> bool {
        1 <= self.grid_width <= 0x2000 && 1 <= self.grid_height <= 0x2000
    }
}

/// The X coordinate clamped to `[0, width - 1]`.
pub open spec fn spec_clamp_coord(v: int, extent: int) -> int {
    if v < 0 {
        0
    } else if v > extent - 1 {
        extent - 1
    } else {
        v
    }
}

/// Clamp a coordinate pair to the grid bounds `[0, width-1] x [0, height-1]`.
pub fn clamp_to_grid(x: i32, y: i32, width: usize, height: usize) -> (r: (i32, i32))
    requires
        1 <= width <= i32::MAX,
        1 <= height <= i32::MAX,
    ensures
        r.0 == spec_clamp_coord(x as int, width as int),
        r.1 == spec_clamp_coord(y as int, height as int),
        0 <= r.0 < width,
        0 <= r.1 < height,
{
    let max_x = (width as i32) - 1;
    let max_y = (height as i32) - 1;
    let cx = if x < 0 {
        0
    } else if x > max_x {
        max_x
    } else {
        x
    };
    let cy = if y < 0 {
        0
    } else if y > max_y {
        max_y
    } else {
        y
    };
    (cx, cy)
}

} // verus!
