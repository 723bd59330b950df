//! The editor session: one grid, one active tool, one history, one dirty
//! tracker and one internal clipboard, mutated in direct response to one
//! event at a time. Previews are applied visually by the host but never
//! reach the undo log; only finished gestures are committed.

use vstd::prelude::*;
use vstd::string::StrSliceExecFns;
use vstd::string::StringExecFns;

use crate::cell::Cell;
use crate::commands::Command;
use crate::commands::CommandModel;
use crate::commands::DrawCommand;
use crate::commands::DrawModel;
use crate::commands::draw::apply_ops;
use crate::commands::draw::capture;
use crate::dirty::DirtyTracker;
use crate::events::EventResult;
use crate::export::export_grid;
use crate::export::spec_export;
use crate::export::ExportOptions;
use crate::grid::Grid;
use crate::grid::GridView;
use crate::history::History;
use crate::selection::Selection;
use crate::selection::SelectionClipboard;
use crate::strutil::str_eq;
use crate::tools::ascii_upper;
use crate::tools::raster::coord_ok;
use crate::tools::ArrowTool;
use crate::tools::BorderStyle;
use crate::tools::DiamondTool;
use crate::tools::DrawOp;
use crate::tools::EraserTool;
use crate::tools::FreehandTool;
use crate::tools::LineTool;
use crate::tools::RectangleTool;
use crate::tools::SelectTool;
use crate::tools::TextTool;
use crate::tools::ToolContext;
use crate::tools::ToolId;
use crate::tools::ToolResult;

verus! {

/// Editor state container: the grid plus the user's tool preferences.
pub struct EditorState {
    /// The character grid.
    pub grid: Grid,
    /// Currently selected tool.
    pub tool: ToolId,
    /// Current border style for shapes.
    pub border_style: BorderStyle,
}

impl EditorState {
    /// Create a new editor state with a blank grid of the given dimensions.
    pub fn new(width: usize, height: usize) -> (r: Self)
        requires
            width * height <= usize::MAX,
        ensures
            r.grid.inv(),
            r.grid@.width == width,
            r.grid@.height == height,
            r.grid@.cells == Seq::new((width * height) as nat, |i: int| Cell::spec_default()),
            r.tool == ToolId::Rectangle,
            r.border_style == BorderStyle::Single,
    {
        EditorState {
            grid: Grid::new(width, height),
            tool: ToolId::Rectangle,
            border_style: BorderStyle::Single,
        }
    }

    /// Create an editor state around an existing grid.
    pub fn with_grid(grid: Grid) -> (r: Self)
        ensures
            r.grid == grid,
            r.tool == ToolId::Rectangle,
            r.border_style == BorderStyle::Single,
    {
        EditorState { grid, tool: ToolId::Rectangle, border_style: BorderStyle::Single }
    }

    /// Get the grid width.
    pub fn width(&self) -> (r: usize)
        ensures
            r == self.grid@.width,
    {
        self.grid.width()
    }

    /// Get the grid height.
    pub fn height(&self) -> (r: usize)
        ensures
            r == self.grid@.height,
    {
        self.grid.height()
    }

    /// Set the current tool.
    pub fn set_tool(&mut self, tool: ToolId)
        ensures
            final(self).tool == tool,
            final(self).grid == old(self).grid,
            final(self).border_style == old(self).border_style,
    {
        self.tool = tool;
    }

    /// Set the border style.
    pub fn set_border_style(&mut self, style: BorderStyle)
        ensures
            final(self).border_style == style,
            final(self).grid == old(self).grid,
            final(self).tool == old(self).tool,
    {
        self.border_style = style;
    }

    /// Clear the grid.
    pub fn clear(&mut self)
        requires
            old(self).grid.inv(),
        ensures
            final(self).grid.inv(),
            final(self).grid@ == (GridView {
                width: old(self).grid@.width,
                height: old(self).grid@.height,
                cells: Seq::new(old(self).grid@.cells.len(), |i: int| Cell::spec_default()),
            }),
            final(self).tool == old(self).tool,
            final(self).border_style == old(self).border_style,
    {
        self.grid.clear();
    }
}

/// The active tool instance: exactly one per session, replaced wholesale on
/// tool switch.
pub enum ActiveTool {
    /// The rectangle tool.
    Rectangle(RectangleTool),
    /// The line tool.
    Line(LineTool),
    /// The arrow tool.
    Arrow(ArrowTool),
    /// The diamond tool.
    Diamond(DiamondTool),
    /// The text tool.
    Text(TextTool),
    /// The freehand tool.
    Freehand(FreehandTool),
    /// The select tool.
    Select(SelectTool),
    /// The eraser tool.
    Eraser(EraserTool),
}

impl ActiveTool {
    /// The identifier of the tool this instance is.
    pub open spec fn spec_id(&self) -> ToolId {
        match self {
            ActiveTool::Rectangle(_) => ToolId::Rectangle,
            ActiveTool::Line(_) => ToolId::Line,
            ActiveTool::Arrow(_) => ToolId::Arrow,
            ActiveTool::Diamond(_) => ToolId::Diamond,
            ActiveTool::Text(_) => ToolId::Text,
            ActiveTool::Freehand(_) => ToolId::Freehand,
            ActiveTool::Select(_) => ToolId::Select,
            ActiveTool::Eraser(_) => ToolId::Eraser,
        }
    }

    /// Every tool's recorded state stays in the workable coordinate range.
    pub open spec fn wf(&self) -> bool {
        match self {
            ActiveTool::Rectangle(t) => t.wf(),
            ActiveTool::Line(t) => t.wf(),
            ActiveTool::Arrow(t) => t.wf(),
            ActiveTool::Diamond(t) => t.wf(),
            ActiveTool::Text(t) => t.wf(),
            ActiveTool::Freehand(t) => t.wf(),
            ActiveTool::Select(t) => t.wf(),
            ActiveTool::Eraser(t) => t.wf(),
        }
    }

    /// Abandon any gesture in progress: the tool keeps its identity and is
    /// left with no open gesture.
    pub fn reset(&mut self)
        requires
            old(self).wf(),
        ensures
            final(self).wf(),
            final(self).spec_id() == old(self).spec_id(),
            !final(self).spec_is_active(),
            match (*old(self), *final(self)) {
                (ActiveTool::Text(_), ActiveTool::Text(t1)) => t1.spec_buffer().len() == 0,
                _ => true,
            },
    {
        match self {
            ActiveTool::Rectangle(t) => t.reset(),
            ActiveTool::Line(t) => t.reset(),
            ActiveTool::Arrow(t) => t.reset(),
            ActiveTool::Diamond(t) => t.reset(),
            ActiveTool::Text(t) => t.reset(),
            ActiveTool::Freehand(t) => t.reset(),
            ActiveTool::Select(t) => t.reset(),
            ActiveTool::Eraser(t) => t.reset(),
        }
    }

    /// True while the tool holds an open gesture.
    pub fn is_active(&self) -> (r: bool)
        ensures
            r == self.spec_is_active(),
    {
        match self {
            ActiveTool::Rectangle(t) => t.is_active(),
            ActiveTool::Line(t) => t.is_active(),
            ActiveTool::Arrow(t) => t.is_active(),
            ActiveTool::Diamond(t) => t.is_active(),
            ActiveTool::Text(t) => t.is_active(),
            ActiveTool::Freehand(t) => t.is_active(),
            ActiveTool::Select(t) => t.is_active(),
            ActiveTool::Eraser(t) => t.is_active(),
        }
    }

    /// Whether the tool holds an open gesture.
    pub open spec fn spec_is_active(&self) -> bool {
        match self {
            ActiveTool::Rectangle(t) => t.spec_start() is Some,
            ActiveTool::Line(t) => t.spec_start() is Some,
            ActiveTool::Arrow(t) => t.spec_start() is Some,
            ActiveTool::Diamond(t) => t.spec_start() is Some,
            ActiveTool::Text(t) => t.spec_cursor() is Some,
            ActiveTool::Freehand(t) => t.spec_drawing(),
            ActiveTool::Select(t) => t.spec_selecting() || t.spec_moving(),
            ActiveTool::Eraser(t) => t.spec_erasing(),
        }
    }

    /// The select tool's selection, if this is the select tool.
    pub fn get_selection(&self) -> (r: Option<Selection>)
        requires
            self.wf(),
        ensures
            match r {
                Some(s) => coord_ok(s.x1 as int) && coord_ok(s.y1 as int) && coord_ok(s.x2 as int)
                    && coord_ok(s.y2 as int),
                None => true,
            },
            match self {
                ActiveTool::Select(t) => match r {
                    Some(s) => t.spec_selection() == Some((s.x1, s.y1, s.x2, s.y2)),
                    None => t.spec_selection() is None,
                },
                _ => r is None,
            },
    {
        match self {
            ActiveTool::Select(t) => t.get_selection(),
            _ => None,
        }
    }
}

/// The applied draw-batch command over `ops`, as committing it to a grid
/// records it.
pub open spec fn committed_draw(g: GridView, ops: Seq<DrawOp>) -> CommandModel {
    CommandModel::Draw(
        DrawModel {
            ops,
            previous: capture(g, ops),
            applied: true,
            description: crate::strutil::draw_description(ops.len() as int),
        },
    )
}

/// The main editor session.
pub struct AsciiEditor {
    /// Editor state: grid and tool preferences.
    state: EditorState,
    /// History for undo/redo.
    history: History,
    /// Dirty region tracker.
    dirty_tracker: DirtyTracker,
    /// The active tool instance.
    active_tool: ActiveTool,
    /// Currently active tool id.
    tool_id: ToolId,
    /// Preview operations of the open gesture, applied visually only.
    preview_ops: Vec<DrawOp>,
    /// Current selection, for copy/cut/paste.
    current_selection: Option<Selection>,
    /// Internal clipboard.
    clipboard: SelectionClipboard,
    /// Whether the space key is held (the host pans while it is).
    space_held: bool,
}

impl AsciiEditor {
    /// The grid model.
    pub closed spec fn spec_grid(&self) -> GridView {
        self.state.grid@
    }

    /// The models of the commands awaiting undo, oldest first.
    pub closed spec fn spec_undo_models(&self) -> Seq<CommandModel> {
        self.history.undo_models()
    }

    /// The models of the commands awaiting redo, oldest first.
    pub closed spec fn spec_redo_models(&self) -> Seq<CommandModel> {
        self.history.redo_models()
    }

    /// The active tool id.
    pub closed spec fn spec_tool_id(&self) -> ToolId {
        self.tool_id
    }

    /// The active tool instance.
    pub closed spec fn spec_active_tool(&self) -> ActiveTool {
        self.active_tool
    }

    /// The identifier of the installed tool instance.
    pub open spec fn spec_active_tool_id(&self) -> ToolId {
        self.spec_active_tool().spec_id()
    }

    /// Whether the installed tool holds an open gesture.
    pub open spec fn spec_tool_active(&self) -> bool {
        self.spec_active_tool().spec_is_active()
    }

    /// The internal clipboard's cells.
    pub closed spec fn spec_clipboard(&self) -> Seq<(i32, i32, Cell)> {
        self.clipboard.cells@
    }

    /// The current selection's corners.
    pub closed spec fn spec_selection(&self) -> Option<(i32, i32, i32, i32)> {
        match self.current_selection {
            Some(s) => Some((s.x1, s.y1, s.x2, s.y2)),
            None => None,
        }
    }

    /// Whether the space key is held.
    pub closed spec fn spec_space_held(&self) -> bool {
        self.space_held
    }

    /// The session invariant: a well-formed grid whose dimensions the tools
    /// can work in, a well-formed history, a well-formed tool, and selection
    /// corners in range.
    pub open spec fn wf(&self) -> bool {
        &&& self.spec_grid().wf()
        &&& 1 <= self.spec_grid().width <= 0x2000
        &&& 1 <= self.spec_grid().height <= 0x2000
        &&& self.spec_history_wf()
        &&& self.spec_tool_wf()
        &&& self.spec_active_tool_id() == self.spec_tool_id()
        &&& match self.spec_selection() {
            Some(s) => coord_ok(s.0 as int) && coord_ok(s.1 as int) && coord_ok(s.2 as int)
                && coord_ok(s.3 as int),
            None => true,
        }
    }

    /// The stored history is well-formed, has the default capacity, and
    /// holds only draw batches: the session commits nothing else.
    pub closed spec fn spec_history_wf(&self) -> bool {
        &&& self.history.wf()
        &&& self.history.spec_max_depth() == 100
        &&& self.state.grid.inv()
        &&& forall|i: int|
            0 <= i < self.history.undo_models().len() ==> (#[trigger] self.history.undo_models()[i])
                is Draw
        &&& forall|i: int|
            0 <= i < self.history.redo_models().len() ==> (#[trigger] self.history.redo_models()[i])
                is Draw
    }

    /// The stored tool is well-formed.
    pub closed spec fn spec_tool_wf(&self) -> bool {
        self.active_tool.wf()
    }

    /// Create a new editor session over a blank grid.
    pub fn new(width: usize, height: usize) -> (r: Self)
        requires
            1 <= width <= 0x2000,
            1 <= height <= 0x2000,
        ensures
            r.wf(),
            r.spec_grid().width == width,
            r.spec_grid().height == height,
            forall|x: int, y: int|
                r.spec_grid().in_bounds(x, y) ==> r.spec_grid().cell_at(x, y)
                    == Cell::spec_default(),
            r.spec_undo_models().len() == 0,
            r.spec_redo_models().len() == 0,
            r.spec_tool_id() == ToolId::Rectangle,
            r.spec_clipboard().len() == 0,
    {
        proof {
            assert(width * height <= 0x2000 * 0x2000) by (nonlinear_arith)
                requires
                    1 <= width <= 0x2000,
                    1 <= height <= 0x2000,
            ;
        }
        let state = EditorState::new(width, height);
        let r = AsciiEditor {
            state,
            history: History::new(100),
            dirty_tracker: DirtyTracker::new(),
            active_tool: ActiveTool::Rectangle(RectangleTool::new()),
            tool_id: ToolId::Rectangle,
            preview_ops: Vec::new(),
            current_selection: None,
            clipboard: SelectionClipboard::new(),
            space_held: false,
        };
        proof {
            assert forall|x: int, y: int| r.spec_grid().in_bounds(x, y) implies r.spec_grid().cell_at(
                x,
                y,
            ) == Cell::spec_default() by {
                crate::grid::lemma_idx_bounds(r.spec_grid(), x, y);
            }
        }
        r
    }

    /// Get the grid width.
    pub fn width(&self) -> (r: usize)
        ensures
            r == self.spec_grid().width,
    {
        self.state.grid.width()
    }

    /// Get the grid height.
    pub fn height(&self) -> (r: usize)
        ensures
            r == self.spec_grid().height,
    {
        self.state.grid.height()
    }

    /// The current tool's display name.
    pub fn tool(&self) -> (r: String)
        ensures
            r@ == self.spec_tool_id().spec_name(),
    {
        let name = self.tool_id.name();
        let s = String::new();
        let s = s.concat(name);
        proof {
            assert(s@ =~= self.spec_tool_id().spec_name());
        }
        s
    }

    /// Whether the space key is held; the host pans instead of drawing
    /// while it is.
    pub fn space_held(&self) -> (r: bool)
        ensures
            r == self.spec_space_held(),
    {
        self.space_held
    }

    /// Switch to the given tool: the outgoing tool is reset first, so no
    /// preview state survives the switch, and leaving the select tool drops
    /// the selection.
    pub fn set_tool_by_id(&mut self, id: ToolId)
        requires
            old(self).wf(),
        ensures
            final(self).wf(),
            final(self).spec_tool_id() == id,
            final(self).spec_active_tool_id() == id,
            !final(self).spec_tool_active(),
            final(self).spec_grid() == old(self).spec_grid(),
            final(self).spec_undo_models() == old(self).spec_undo_models(),
            final(self).spec_redo_models() == old(self).spec_redo_models(),
            final(self).spec_clipboard() == old(self).spec_clipboard(),
            final(self).spec_space_held() == old(self).spec_space_held(),
            final(self).spec_selection() == (
                if id == ToolId::Select {
                    old(self).spec_selection()
                } else {
                    None
                }),
    {
        self.active_tool.reset();
        self.preview_ops = Vec::new();
        self.tool_id = id;
        self.state.tool = id;

        if !matches!(id, ToolId::Select) {
            self.current_selection = None;
        }

        self.active_tool = match id {
            ToolId::Rectangle => ActiveTool::Rectangle(RectangleTool::new()),
            ToolId::Line => ActiveTool::Line(LineTool::new()),
            ToolId::Arrow => ActiveTool::Arrow(ArrowTool::new()),
            ToolId::Diamond => ActiveTool::Diamond(DiamondTool::new()),
            ToolId::Text => ActiveTool::Text(TextTool::new()),
            ToolId::Freehand => ActiveTool::Freehand(FreehandTool::new()),
            ToolId::Select => ActiveTool::Select(SelectTool::new()),
            ToolId::Eraser => ActiveTool::Eraser(EraserTool::new()),
        };
    }

    /// Switch tools by keyboard shortcut; an unknown shortcut is refused.
    pub fn set_tool_by_shortcut(&mut self, shortcut: char) -> (r: bool)
        requires
            old(self).wf(),
        ensures
            final(self).wf(),
            r == (ToolId::spec_from_shortcut(ascii_upper(shortcut)) is Some),
            match ToolId::spec_from_shortcut(ascii_upper(shortcut)) {
                Some(id) => final(self).spec_tool_id() == id && final(self).spec_active_tool_id()
                    == id && !final(self).spec_tool_active(),
                None => *final(self) == *old(self),
            },
            final(self).spec_grid() == old(self).spec_grid(),
            final(self).spec_undo_models() == old(self).spec_undo_models(),
            final(self).spec_redo_models() == old(self).spec_redo_models(),
    {
        match ToolId::from_shortcut(shortcut) {
            Some(id) => {
                self.set_tool_by_id(id);
                true
            },
            None => false,
        }
    }

    /// Switch tools by name (full or single-letter, either case); an unknown
    /// name is refused.
    pub fn set_tool(&mut self, tool_id: &str)
        requires
            old(self).wf(),
        ensures
            final(self).wf(),
            match spec_parse_tool(lower_seq(tool_id@)) {
                Some(id) => final(self).spec_tool_id() == id && final(self).spec_active_tool_id()
                    == id && !final(self).spec_tool_active(),
                None => *final(self) == *old(self),
            },
            final(self).spec_grid() == old(self).spec_grid(),
            final(self).spec_undo_models() == old(self).spec_undo_models(),
            final(self).spec_redo_models() == old(self).spec_redo_models(),
    {
        if let Some(id) = parse_tool_id(tool_id) {
            self.set_tool_by_id(id);
        }
    }

    /// Set the border style for shapes; an unknown name falls back to the
    /// single-line style.
    pub fn set_border_style(&mut self, style: &str)
        requires
            old(self).wf(),
        ensures
            final(self).wf(),
            final(self).spec_grid() == old(self).spec_grid(),
            final(self).spec_undo_models() == old(self).spec_undo_models(),
    {
        let parsed = if str_eq(style, "single") {
            BorderStyle::Single
        } else if str_eq(style, "double") {
            BorderStyle::Double
        } else if str_eq(style, "heavy") {
            BorderStyle::Heavy
        } else if str_eq(style, "rounded") {
            BorderStyle::Rounded
        } else if str_eq(style, "ascii") {
            BorderStyle::Ascii
        } else if str_eq(style, "dotted") {
            BorderStyle::Dotted
        } else {
            BorderStyle::Single
        };
        self.state.border_style = parsed;
    }

    /// The tool context for the current grid.
    fn create_tool_context(&self) -> (r: ToolContext)
        requires
            self.wf(),
        ensures
            r.valid(),
            r.grid_width == self.spec_grid().width,
            r.grid_height == self.spec_grid().height,
            r.border_style == self.state.border_style,
    {
        ToolContext {
            grid_width: self.state.grid.width(),
            grid_height: self.state.grid.height(),
            border_style: self.state.border_style,
        }
    }

    /// Commit finished operations: apply them to the grid as one draw-batch
    /// command, push it onto the history, and mark the touched cells dirty.
    /// An empty batch commits nothing.
    fn commit_ops(&mut self, ops: Vec<DrawOp>)
        requires
            old(self).wf(),
        ensures
            final(self).wf(),
            final(self).spec_tool_id() == old(self).spec_tool_id(),
            final(self).spec_tool_wf(),
            final(self).spec_active_tool() == old(self).spec_active_tool(),
            ops@.len() == 0 ==> final(self).spec_grid() == old(self).spec_grid()
                && final(self).spec_undo_models() == old(self).spec_undo_models()
                && final(self).spec_redo_models() == old(self).spec_redo_models(),
            ops@.len() > 0 ==> ({
                &&& final(self).spec_grid() == apply_ops(old(self).spec_grid(), ops@)
                &&& final(self).spec_undo_models() == (
                    if old(self).spec_undo_models().len() >= 100 {
                        old(self).spec_undo_models().drop_first()
                    } else {
                        old(self).spec_undo_models()
                    }).push(committed_draw(old(self).spec_grid(), ops@))
                &&& final(self).spec_redo_models().len() == 0
            }),
            final(self).spec_selection() == old(self).spec_selection(),
            final(self).spec_clipboard() == old(self).spec_clipboard(),
            final(self).spec_space_held() == old(self).spec_space_held(),
    {
        if ops.len() == 0 {
            return;
        }

        let marks = copy_ops(&ops);
        let mut cmd = DrawCommand::new(ops);
        cmd.apply(&mut self.state.grid);
        proof {
            crate::commands::draw::lemma_apply_ops_wf(old(self).spec_grid(), cmd@.ops);
        }
        self.history.push(Command::Draw(cmd));

        let mut i: usize = 0;
        while i < marks.len()
            invariant
                self.wf(),
                self.tool_id == old(self).tool_id,
                self.spec_grid() == apply_ops(old(self).spec_grid(), marks@),
                self.spec_undo_models() == (
                    if old(self).spec_undo_models().len() >= 100 {
                        old(self).spec_undo_models().drop_first()
                    } else {
                        old(self).spec_undo_models()
                    }).push(committed_draw(old(self).spec_grid(), marks@)),
                self.spec_redo_models().len() == 0,
                self.active_tool == old(self).active_tool,
                self.current_selection == old(self).current_selection,
                self.clipboard.cells@ == old(self).clipboard.cells@,
                self.space_held == old(self).space_held,
            decreases marks@.len() - i,
        {
            let op = marks[i];
            self.dirty_tracker.mark_dirty(op.x, op.y);
            i = i + 1;
        }
    }

    /// Handle a pointer-down event at grid coordinates. Nothing is committed
    /// unless the tool reports a finished, modifying gesture; then exactly
    /// one draw batch is committed.
    pub fn on_pointer_down(&mut self, x: i32, y: i32) -> (r: EventResult)
        requires
            old(self).wf(),
            coord_ok(x as int),
            coord_ok(y as int),
        ensures
            final(self).wf(),
            final(self).spec_tool_id() == old(self).spec_tool_id(),
            final(self).spec_active_tool_id() == old(self).spec_active_tool_id(),
            final(self).spec_tool_active(),
            final(self).spec_grid() == old(self).spec_grid(),
            final(self).spec_undo_models() == old(self).spec_undo_models(),
            final(self).spec_redo_models() == old(self).spec_redo_models(),
            final(self).spec_selection() == old(self).spec_selection(),
            final(self).spec_clipboard() == old(self).spec_clipboard(),
            final(self).spec_space_held() == old(self).spec_space_held(),
            event_summary_ok(r, *final(self)),
            !r.should_copy,
    {
        let ctx = self.create_tool_context();
        let result = self.dispatch_pointer_down(x, y, &ctx);

        let ops_for_preview = result.ops;
        self.preview_ops = ops_for_preview;

        if result.finished && result.modified {
            let ops = copy_ops(&self.preview_ops);
            self.commit_ops(ops);
        }

        self.create_event_result()
    }

    /// Handle a pointer-move event at grid coordinates: updates the preview,
    /// commits nothing.
    pub fn on_pointer_move(&mut self, x: i32, y: i32) -> (r: EventResult)
        requires
            old(self).wf(),
        ensures
            final(self).wf(),
            final(self).spec_tool_id() == old(self).spec_tool_id(),
            final(self).spec_active_tool_id() == old(self).spec_active_tool_id(),
            final(self).spec_grid() == old(self).spec_grid(),
            final(self).spec_undo_models() == old(self).spec_undo_models(),
            final(self).spec_redo_models() == old(self).spec_redo_models(),
            final(self).spec_selection() == old(self).spec_selection(),
            final(self).spec_clipboard() == old(self).spec_clipboard(),
            final(self).spec_space_held() == old(self).spec_space_held(),
            event_summary_ok(r, *final(self)),
            !r.should_copy,
    {
        let ctx = self.create_tool_context();
        let result = self.dispatch_pointer_move(x, y, &ctx);
        self.preview_ops = result.ops;
        self.create_event_result()
    }

    /// Handle a pointer-up event at grid coordinates: the gesture concludes,
    /// and a modifying result is committed as one draw batch.
    pub fn on_pointer_up(&mut self, x: i32, y: i32) -> (r: EventResult)
        requires
            old(self).wf(),
        ensures
            final(self).wf(),
            final(self).spec_tool_id() == old(self).spec_tool_id(),
            final(self).spec_active_tool_id() == old(self).spec_active_tool_id(),
            final(self).spec_clipboard() == old(self).spec_clipboard(),
            final(self).spec_space_held() == old(self).spec_space_held(),
            final(self).spec_tool_active() == match old(self).spec_active_tool() {
                ActiveTool::Text(t) => t.spec_cursor() is Some,
                _ => false,
            },
            commit_effect(
                *old(self),
                *final(self),
                spec_pointer_up_ops(
                    old(self).spec_active_tool(),
                    x as int,
                    y as int,
                    old(self).spec_grid().width as int,
                    old(self).spec_grid().height as int,
                ),
            ),
            final(self).spec_selection() == match old(self).spec_active_tool() {
                ActiveTool::Select(t) => spec_select_up_selection(
                    t,
                    crate::tools::spec_clamp_coord(x as int, old(self).spec_grid().width as int),
                    crate::tools::spec_clamp_coord(y as int, old(self).spec_grid().height as int),
                ),
                _ => old(self).spec_selection(),
            },
            event_summary_ok(r, *final(self)),
            !r.should_copy,
    {
        let ctx = self.create_tool_context();
        let result = self.dispatch_pointer_up(x, y, &ctx);

        self.preview_ops = Vec::new();

        if matches!(self.tool_id, ToolId::Select) {
            self.current_selection = self.active_tool.get_selection();
        }

        if result.modified {
            let ops = result.ops;
            self.commit_ops(ops);
        }

        self.create_event_result()
    }

    /// Perform undo; reports whether anything was undone.
    pub fn undo(&mut self) -> (r: bool)
        requires
            old(self).wf(),
        ensures
            final(self).wf(),
            r == (old(self).spec_undo_models().len() > 0),
            !r ==> final(self).spec_grid() == old(self).spec_grid()
                && final(self).spec_undo_models() == old(self).spec_undo_models()
                && final(self).spec_redo_models() == old(self).spec_redo_models(),
            r ==> ({
                let p = old(self).spec_undo_models().last().undo_t(old(self).spec_grid());
                &&& final(self).spec_grid() == p.1
                &&& final(self).spec_undo_models() == old(self).spec_undo_models().drop_last()
                &&& final(self).spec_redo_models() == old(self).spec_redo_models().push(p.0)
            }),
            final(self).spec_tool_id() == old(self).spec_tool_id(),
            final(self).spec_active_tool() == old(self).spec_active_tool(),
            final(self).spec_selection() == old(self).spec_selection(),
            final(self).spec_clipboard() == old(self).spec_clipboard(),
            final(self).spec_space_held() == old(self).spec_space_held(),
    {
        let ghost g0 = self.state.grid@;
        let ghost models0 = self.history.undo_models();
        let result = self.history.undo(&mut self.state.grid);
        proof {
            if models0.len() > 0 {
                match models0.last() {
                    CommandModel::Draw(d) => {
                        if d.applied {
                            crate::commands::draw::lemma_restore_wf(g0, d.previous.reverse());
                        }
                    },
                    _ => {},
                }
            }
        }
        if result {
            self.dirty_tracker.request_full_redraw();
        }
        result
    }

    /// Perform redo; reports whether anything was reapplied.
    pub fn redo(&mut self) -> (r: bool)
        requires
            old(self).wf(),
        ensures
            final(self).wf(),
            r == (old(self).spec_redo_models().len() > 0),
            !r ==> final(self).spec_grid() == old(self).spec_grid()
                && final(self).spec_undo_models() == old(self).spec_undo_models()
                && final(self).spec_redo_models() == old(self).spec_redo_models(),
            r ==> ({
                let p = old(self).spec_redo_models().last().apply_t(old(self).spec_grid());
                &&& final(self).spec_grid() == p.1
                &&& final(self).spec_redo_models() == old(self).spec_redo_models().drop_last()
                &&& final(self).spec_undo_models() == old(self).spec_undo_models().push(p.0)
            }),
            final(self).spec_tool_id() == old(self).spec_tool_id(),
            final(self).spec_active_tool() == old(self).spec_active_tool(),
            final(self).spec_selection() == old(self).spec_selection(),
            final(self).spec_clipboard() == old(self).spec_clipboard(),
            final(self).spec_space_held() == old(self).spec_space_held(),
    {
        let ghost g0 = self.state.grid@;
        let ghost models0 = self.history.redo_models();
        let result = self.history.redo(&mut self.state.grid);
        proof {
            if models0.len() > 0 {
                match models0.last() {
                    CommandModel::Draw(d) => {
                        if !d.applied && d.ops.len() > 0 {
                            crate::commands::draw::lemma_apply_ops_wf(g0, d.ops);
                        }
                    },
                    _ => {},
                }
            }
        }
        if result {
            self.dirty_tracker.request_full_redraw();
        }
        result
    }

    /// Check if undo is available.
    pub fn can_undo(&self) -> (r: bool)
        ensures
            r == (self.spec_undo_models().len() > 0),
    {
        self.history.can_undo()
    }

    /// Check if redo is available.
    pub fn can_redo(&self) -> (r: bool)
        ensures
            r == (self.spec_redo_models().len() > 0),
    {
        self.history.can_redo()
    }

    /// Clear the canvas, the history and the clipboard.
    pub fn clear(&mut self)
        requires
            old(self).wf(),
        ensures
            final(self).wf(),
            final(self).spec_grid() == (GridView {
                width: old(self).spec_grid().width,
                height: old(self).spec_grid().height,
                cells: Seq::new(old(self).spec_grid().cells.len(), |i: int| Cell::spec_default()),
            }),
            final(self).spec_undo_models().len() == 0,
            final(self).spec_redo_models().len() == 0,
            final(self).spec_clipboard().len() == 0,
    {
        self.state.grid.clear();
        self.history.clear();
        self.clipboard.clear();
        self.dirty_tracker.request_full_redraw();
    }

    /// Whether the internal clipboard holds content.
    pub fn has_clipboard(&self) -> (r: bool)
        ensures
            r == (self.spec_clipboard().len() > 0),
    {
        !self.clipboard.is_empty()
    }

    /// Whether a selection exists.
    pub fn has_selection(&self) -> (r: bool)
        ensures
            r == (self.spec_selection() is Some),
    {
        self.current_selection.is_some()
    }

    /// Export the grid with default options.
    pub fn export_ascii(&self) -> (r: String)
        requires
            self.wf(),
        ensures
            r@ == spec_export(
                self.spec_grid(),
                ExportOptions { trim_borders: true, line_numbers: false, max_width: 0 },
            ),
    {
        let options = ExportOptions { trim_borders: true, line_numbers: false, max_width: 0 };
        export_grid(&self.state.grid, &options)
    }

    /// Copy the current selection into the internal clipboard, relative to
    /// its top-left corner. Refused unless the select tool is active and a
    /// selection exists.
    pub fn copy_selection(&mut self) -> (r: bool)
        requires
            old(self).wf(),
        ensures
            final(self).wf(),
            final(self).spec_grid() == old(self).spec_grid(),
            final(self).spec_undo_models() == old(self).spec_undo_models(),
            final(self).spec_redo_models() == old(self).spec_redo_models(),
            final(self).spec_selection() == old(self).spec_selection(),
            final(self).spec_tool_id() == old(self).spec_tool_id(),
            final(self).spec_active_tool() == old(self).spec_active_tool(),
            final(self).spec_space_held() == old(self).spec_space_held(),
            r == (old(self).spec_tool_id() == ToolId::Select && old(self).spec_selection() is Some),
            !r ==> final(self).spec_clipboard() == old(self).spec_clipboard(),
            r ==> ({
                let s = old(self).spec_selection()->0;
                let sel = Selection { x1: s.0, y1: s.1, x2: s.2, y2: s.3 };
                final(self).spec_clipboard() == clipboard_capture(old(self).spec_grid(), sel)
            }),
    {
        if !matches!(self.tool_id, ToolId::Select) {
            return false;
        }

        let sel = match &self.current_selection {
            Some(s) => Selection { x1: s.x1, y1: s.y1, x2: s.x2, y2: s.y2 },
            None => {
                return false;
            },
        };

        let (min_x, min_y, max_x, max_y) = sel.bounds();
        let width = max_x - min_x + 1;
        let height = max_y - min_y + 1;

        let ghost target = clipboard_capture(old(self).spec_grid(), sel);
        let mut cells: Vec<(i32, i32, Cell)> = Vec::new();
        let mut y = min_y;
        while y <= max_y
            invariant
                min_y <= y && (y <= max_y + 1),
                self == old(self),
                self.wf(),
                min_x == sel.spec_min_x() && max_x == sel.spec_max_x(),
                min_y == sel.spec_min_y() && max_y == sel.spec_max_y(),
                coord_ok(min_x as int) && coord_ok(max_x as int),
                coord_ok(min_y as int) && coord_ok(max_y as int),
                target == clipboard_capture(self.spec_grid(), sel),
                cells@ == target.take((y - min_y) * (max_x - min_x + 1)),
            decreases max_y + 1 - y,
        {
            let mut x = min_x;
            while x <= max_x
                invariant
                    min_x <= x && (x <= max_x + 1),
                    min_y <= y <= max_y,
                    self == old(self),
                    self.wf(),
                    min_x == sel.spec_min_x() && max_x == sel.spec_max_x(),
                    min_y == sel.spec_min_y() && max_y == sel.spec_max_y(),
                    coord_ok(min_x as int) && coord_ok(max_x as int),
                    coord_ok(min_y as int) && coord_ok(max_y as int),
                    target == clipboard_capture(self.spec_grid(), sel),
                    cells@ == target.take(
                        (y - min_y) * (max_x - min_x + 1) + (x - min_x),
                    ),
                decreases max_x + 1 - x,
            {
                proof {
                    let w = max_x - min_x + 1;
                    let k = (y - min_y) * w + (x - min_x);
                    assert(0 <= k < (max_y - min_y + 1) * w) by (nonlinear_arith)
                        requires
                            w == max_x - min_x + 1,
                            k == (y - min_y) * w + (x - min_x),
                            min_x <= x <= max_x,
                            min_y <= y <= max_y,
                    ;
                    assert(k % w == x - min_x && k / w == y - min_y) by (nonlinear_arith)
                        requires
                            w == max_x - min_x + 1,
                            k == (y - min_y) * w + (x - min_x),
                            0 <= x - min_x < w,
                            0 <= y - min_y,
                    ;
                }
                match self.state.grid.get(x, y) {
                    Some(c) => {
                        let cell = *c;
                        cells.push((x - min_x, y - min_y, cell));
                    },
                    None => {
                        cells.push((x - min_x, y - min_y, Cell::default()));
                    },
                }
                proof {
                    let w = max_x - min_x + 1;
                    let k = (y - min_y) * w + (x - min_x);
                    assert(cells@ =~= target.take(k + 1));
                }
                x = x + 1;
            }
            proof {
                let w = max_x - min_x + 1;
                assert((y - min_y) * w + w == (y + 1 - min_y) * w) by (nonlinear_arith)
                    requires
                        true,
                ;
            }
            y = y + 1;
        }
        proof {
            let w = max_x - min_x + 1;
            let h = max_y - min_y + 1;
            assert(h * w == target.len());
            assert(cells@ =~= target);
        }

        self.clipboard = SelectionClipboard { cells, width, height };
        true
    }

    /// Cut the current selection: copy it, then blank the source region as
    /// one committed, undoable batch, and drop the selection.
    pub fn cut_selection(&mut self) -> (r: bool)
        requires
            old(self).wf(),
        ensures
            final(self).wf(),
            r == (old(self).spec_tool_id() == ToolId::Select && old(self).spec_selection() is Some),
            final(self).spec_tool_id() == old(self).spec_tool_id(),
            final(self).spec_active_tool() == old(self).spec_active_tool(),
            final(self).spec_space_held() == old(self).spec_space_held(),
            !r ==> final(self).spec_grid() == old(self).spec_grid()
                && final(self).spec_undo_models() == old(self).spec_undo_models()
                && final(self).spec_redo_models() == old(self).spec_redo_models()
                && final(self).spec_selection() == old(self).spec_selection()
                && final(self).spec_clipboard() == old(self).spec_clipboard(),
            r ==> ({
                let s = old(self).spec_selection()->0;
                let sel = Selection { x1: s.0, y1: s.1, x2: s.2, y2: s.3 };
                let ops = blank_region_ops(sel);
                &&& final(self).spec_clipboard() == clipboard_capture(old(self).spec_grid(), sel)
                &&& final(self).spec_grid() == apply_ops(old(self).spec_grid(), ops)
                &&& final(self).spec_selection() is None
                &&& final(self).spec_undo_models() == (
                    if old(self).spec_undo_models().len() >= 100 {
                        old(self).spec_undo_models().drop_first()
                    } else {
                        old(self).spec_undo_models()
                    }).push(committed_draw(old(self).spec_grid(), ops))
                &&& final(self).spec_redo_models().len() == 0
            }),
    {
        if !self.copy_selection() {
            return false;
        }

        let sel = match &self.current_selection {
            Some(s) => Selection { x1: s.x1, y1: s.y1, x2: s.x2, y2: s.y2 },
            None => {
                return false;
            },
        };

        let ops = region_blank_ops(&sel);
        proof {
            assert(ops@.len() > 0);
        }
        self.commit_ops(ops);
        self.current_selection = None;
        true
    }

    /// Delete the current selection: blank the region as one committed,
    /// undoable batch and drop the selection. Refused unless the select tool
    /// is active and a selection exists.
    pub fn delete_selection(&mut self) -> (r: bool)
        requires
            old(self).wf(),
        ensures
            final(self).wf(),
            r == (old(self).spec_tool_id() == ToolId::Select && old(self).spec_selection() is Some),
            final(self).spec_tool_id() == old(self).spec_tool_id(),
            final(self).spec_active_tool() == old(self).spec_active_tool(),
            final(self).spec_space_held() == old(self).spec_space_held(),
            final(self).spec_clipboard() == old(self).spec_clipboard(),
            !r ==> final(self).spec_grid() == old(self).spec_grid()
                && final(self).spec_undo_models() == old(self).spec_undo_models()
                && final(self).spec_redo_models() == old(self).spec_redo_models()
                && final(self).spec_selection() == old(self).spec_selection(),
            r ==> ({
                let s = old(self).spec_selection()->0;
                let sel = Selection { x1: s.0, y1: s.1, x2: s.2, y2: s.3 };
                let ops = blank_region_ops(sel);
                &&& final(self).spec_grid() == apply_ops(old(self).spec_grid(), ops)
                &&& final(self).spec_selection() is None
                &&& final(self).spec_undo_models() == (
                    if old(self).spec_undo_models().len() >= 100 {
                        old(self).spec_undo_models().drop_first()
                    } else {
                        old(self).spec_undo_models()
                    }).push(committed_draw(old(self).spec_grid(), ops))
                &&& final(self).spec_redo_models().len() == 0
            }),
    {
        if !matches!(self.tool_id, ToolId::Select) {
            return false;
        }

        let sel = match &self.current_selection {
            Some(s) => Selection { x1: s.x1, y1: s.y1, x2: s.x2, y2: s.y2 },
            None => {
                return false;
            },
        };

        let ops = region_blank_ops(&sel);
        proof {
            assert(ops@.len() > 0);
        }
        self.commit_ops(ops);
        self.current_selection = None;
        true
    }

    /// Paste the internal clipboard at its recorded relative offsets,
    /// silently dropping cells outside the grid, as one committed, undoable
    /// batch. An empty clipboard, or one whose cells all fall outside, is a
    /// no-op.
    pub fn paste(&mut self) -> (r: bool)
        requires
            old(self).wf(),
        ensures
            final(self).wf(),
            final(self).spec_clipboard() == old(self).spec_clipboard(),
            final(self).spec_selection() == old(self).spec_selection(),
            final(self).spec_tool_id() == old(self).spec_tool_id(),
            final(self).spec_active_tool() == old(self).spec_active_tool(),
            final(self).spec_space_held() == old(self).spec_space_held(),
            r == (paste_ops(old(self).spec_clipboard(), old(self).spec_grid()).len() > 0),
            !r ==> final(self).spec_grid() == old(self).spec_grid()
                && final(self).spec_undo_models() == old(self).spec_undo_models()
                && final(self).spec_redo_models() == old(self).spec_redo_models(),
            r ==> ({
                let ops = paste_ops(old(self).spec_clipboard(), old(self).spec_grid());
                &&& final(self).spec_grid() == apply_ops(old(self).spec_grid(), ops)
                &&& final(self).spec_undo_models() == (
                    if old(self).spec_undo_models().len() >= 100 {
                        old(self).spec_undo_models().drop_first()
                    } else {
                        old(self).spec_undo_models()
                    }).push(committed_draw(old(self).spec_grid(), ops))
                &&& final(self).spec_redo_models().len() == 0
            }),
    {
        if self.clipboard.is_empty() {
            proof {
                assert(paste_ops(self.spec_clipboard(), self.spec_grid()).len() == 0);
            }
            return false;
        }

        let grid_width = self.state.grid.width() as i32;
        let grid_height = self.state.grid.height() as i32;
        let ghost target = paste_ops(old(self).spec_clipboard(), old(self).spec_grid());
        let mut ops: Vec<DrawOp> = Vec::new();
        let n = self.clipboard.cells.len();
        let mut i: usize = 0;
        while i < n
            invariant
                i <= n,
                self == old(self),
                self.wf(),
                n == self.spec_clipboard().len(),
                grid_width == self.spec_grid().width,
                grid_height == self.spec_grid().height,
                target == paste_ops(self.spec_clipboard(), self.spec_grid()),
                ops@ == paste_ops(self.spec_clipboard().take(i as int), self.spec_grid()),
            decreases n - i,
        {
            let entry = self.clipboard.cells[i];
            let (x, y, cell) = entry;
            proof {
                let next = self.spec_clipboard().take(i + 1);
                assert(next.drop_last() =~= self.spec_clipboard().take(i as int));
                assert(next.last() == self.spec_clipboard()[i as int]);
            }
            if x >= 0 && x < grid_width && y >= 0 && y < grid_height {
                ops.push(DrawOp::new(x, y, cell.ch));
            }
            i = i + 1;
        }
        proof {
            assert(self.spec_clipboard().take(n as int) =~= self.spec_clipboard());
        }

        if ops.len() > 0 {
            self.commit_ops(ops);
            true
        } else {
            false
        }
    }

    /// The event summary the host acts on after any event.
    fn create_event_result(&self) -> (r: EventResult)
        requires
            self.wf(),
        ensures
            r.can_undo == (self.spec_undo_models().len() > 0),
            r.can_redo == (self.spec_redo_models().len() > 0),
            r.tool@ == self.spec_tool_id().spec_name(),
            !r.should_copy,
    {
        EventResult {
            needs_redraw: self.needs_redraw(),
            tool: self.tool(),
            can_undo: self.can_undo(),
            can_redo: self.can_redo(),
            should_copy: false,
            ascii: None,
            cursor: None,
        }
    }

    /// The dirty tracker's sticky full-redraw flag.
    pub closed spec fn spec_dirty_full(&self) -> bool {
        self.dirty_tracker.spec_full_flag()
    }

    /// The dirty tracker's union rectangle.
    pub closed spec fn spec_dirty_rect(&self) -> crate::dirty::DirtyRect {
        self.dirty_tracker.spec_rect()
    }

    /// Whether the next render pull must repaint everything: a full redraw
    /// was requested, or the tracker was never marked since the last pull
    /// (the never-yet-rendered state is treated conservatively).
    pub fn needs_full_redraw(&self) -> (r: bool)
        ensures
            r == (self.spec_dirty_full() || self.spec_dirty_rect().spec_is_empty()),
    {
        self.dirty_tracker.needs_full_redraw()
    }

    /// The dirty rectangle accumulated since the last render pull.
    pub fn dirty_rect(&self) -> (r: crate::dirty::DirtyRect)
        ensures
            r == self.spec_dirty_rect(),
    {
        *self.dirty_tracker.dirty_rect()
    }

    /// Reset the dirty state after the consumer has drained it.
    pub fn clear_dirty(&mut self)
        requires
            old(self).wf(),
        ensures
            final(self).wf(),
            session_unchanged(*old(self), *final(self)),
            final(self).spec_active_tool() == old(self).spec_active_tool(),
            final(self).spec_space_held() == old(self).spec_space_held(),
            final(self).spec_dirty_rect().spec_is_empty(),
            !final(self).spec_dirty_full(),
    {
        self.dirty_tracker.clear();
    }

    /// Borrow the grid for a render pull.
    pub fn grid(&self) -> (r: &Grid)
        requires
            self.wf(),
        ensures
            r@ == self.spec_grid(),
            r.inv(),
    {
        &self.state.grid
    }

    /// Whether anything needs redrawing: a requested full redraw, a
    /// never-yet-marked tracker (treated conservatively), or a marked region.
    pub fn needs_redraw(&self) -> (r: bool)
        ensures
            r == (self.spec_dirty_full() || self.spec_dirty_rect().spec_is_empty()
                || !self.spec_dirty_rect().spec_is_empty()),
    {
        self.dirty_tracker.needs_full_redraw() || !self.dirty_tracker.dirty_rect().is_empty()
    }

    /// Request a full redraw.
    pub fn request_redraw(&mut self)
        requires
            old(self).wf(),
        ensures
            final(self).wf(),
            final(self).spec_grid() == old(self).spec_grid(),
    {
        self.dirty_tracker.request_full_redraw();
    }

    /// Handle a key-down event. Escape cancels the open gesture; space arms
    /// panning; control combinations drive undo, redo, copy, cut and paste;
    /// delete and backspace remove the selection or edit text; plain letters
    /// switch tools when no gesture is open; anything else feeds the text
    /// tool.
    #[verifier::rlimit(100)]
    #[verifier::spinoff_prover]
    pub fn on_key_down(&mut self, key: &str, ctrl: bool, shift: bool) -> (r: EventResult)
        requires
            old(self).wf(),
        ensures
            final(self).wf(),
            event_summary_ok(r, *final(self)),
            ({
                let k = key@;
                let kc = spec_first_char(k);
                if k == "Escape"@ {
                    &&& session_unchanged(*old(self), *final(self))
                    &&& final(self).spec_space_held() == old(self).spec_space_held()
                    &&& final(self).spec_active_tool_id() == old(self).spec_active_tool_id()
                    &&& !final(self).spec_tool_active()
                    &&& !r.should_copy
                } else if kc == ' ' && !ctrl && !shift {
                    &&& session_unchanged(*old(self), *final(self))
                    &&& final(self).spec_active_tool() == old(self).spec_active_tool()
                    &&& final(self).spec_space_held()
                    &&& !r.should_copy
                } else if ctrl && !shift && key_is_letter(k, 'z') {
                    &&& (old(self).spec_undo_models().len() == 0 ==> history_unchanged(
                        *old(self),
                        *final(self),
                    ))
                    &&& (old(self).spec_undo_models().len() > 0 ==> {
                        let p = old(self).spec_undo_models().last().undo_t(old(self).spec_grid());
                        &&& final(self).spec_grid() == p.1
                        &&& final(self).spec_undo_models() == old(
                            self,
                        ).spec_undo_models().drop_last()
                        &&& final(self).spec_redo_models() == old(self).spec_redo_models().push(p.0)
                    })
                    &&& frame_unchanged(*old(self), *final(self))
                    &&& !r.should_copy
                } else if ctrl && shift && key_is_letter(k, 'z') {
                    &&& (old(self).spec_redo_models().len() == 0 ==> history_unchanged(
                        *old(self),
                        *final(self),
                    ))
                    &&& (old(self).spec_redo_models().len() > 0 ==> {
                        let p = old(self).spec_redo_models().last().apply_t(old(self).spec_grid());
                        &&& final(self).spec_grid() == p.1
                        &&& final(self).spec_redo_models() == old(
                            self,
                        ).spec_redo_models().drop_last()
                        &&& final(self).spec_undo_models() == old(self).spec_undo_models().push(p.0)
                    })
                    &&& frame_unchanged(*old(self), *final(self))
                    &&& !r.should_copy
                } else if ctrl && key_is_letter(k, 'c') {
                    &&& *final(self) == *old(self)
                    &&& r.should_copy
                    &&& match r.ascii {
                        Some(a) => a@ == spec_export(
                            old(self).spec_grid(),
                            ExportOptions { trim_borders: true, line_numbers: false, max_width: 0 },
                        ),
                        None => false,
                    }
                } else if ctrl && key_is_letter(k, 'x') && old(self).spec_tool_id()
                    == ToolId::Select && old(self).spec_selection() is Some {
                    let s0 = old(self).spec_selection()->0;
                    let sel = Selection { x1: s0.0, y1: s0.1, x2: s0.2, y2: s0.3 };
                    &&& final(self).spec_clipboard() == clipboard_capture(
                        old(self).spec_grid(),
                        sel,
                    )
                    &&& final(self).spec_grid() == apply_ops(
                        old(self).spec_grid(),
                        blank_region_ops(sel),
                    )
                    &&& final(self).spec_undo_models() == pushed_undo(
                        old(self).spec_undo_models(),
                        old(self).spec_grid(),
                        blank_region_ops(sel),
                    )
                    &&& final(self).spec_redo_models().len() == 0
                    &&& final(self).spec_selection() is None
                    &&& frame_unchanged(*old(self), *final(self))
                    &&& !r.should_copy
                } else if ctrl && key_is_letter(k, 'v') && paste_ops(
                    old(self).spec_clipboard(),
                    old(self).spec_grid(),
                ).len() > 0 {
                    let pops = paste_ops(old(self).spec_clipboard(), old(self).spec_grid());
                    &&& final(self).spec_grid() == apply_ops(old(self).spec_grid(), pops)
                    &&& final(self).spec_undo_models() == pushed_undo(
                        old(self).spec_undo_models(),
                        old(self).spec_grid(),
                        pops,
                    )
                    &&& final(self).spec_redo_models().len() == 0
                    &&& final(self).spec_selection() == old(self).spec_selection()
                    &&& final(self).spec_clipboard() == old(self).spec_clipboard()
                    &&& frame_unchanged(*old(self), *final(self))
                    &&& !r.should_copy
                } else if !ctrl && (k == "Delete"@ || k == "Backspace"@) && old(self).spec_tool_id()
                    == ToolId::Select && old(self).spec_tool_active() && old(
                    self,
                ).spec_selection() is Some {
                    let s0 = old(self).spec_selection()->0;
                    let sel = Selection { x1: s0.0, y1: s0.1, x2: s0.2, y2: s0.3 };
                    &&& final(self).spec_grid() == apply_ops(
                        old(self).spec_grid(),
                        blank_region_ops(sel),
                    )
                    &&& final(self).spec_undo_models() == pushed_undo(
                        old(self).spec_undo_models(),
                        old(self).spec_grid(),
                        blank_region_ops(sel),
                    )
                    &&& final(self).spec_redo_models().len() == 0
                    &&& final(self).spec_selection() is None
                    &&& final(self).spec_clipboard() == old(self).spec_clipboard()
                    &&& frame_unchanged(*old(self), *final(self))
                    &&& !r.should_copy
                } else if !ctrl && (k == "Delete"@ || k == "Backspace"@) && old(self).spec_tool_id()
                    == ToolId::Text && old(self).spec_tool_active() {
                    let dch = if k == "Delete"@ {
                        '\u{0}'
                    } else {
                        '\u{8}'
                    };
                    &&& match old(self).spec_active_tool() {
                        ActiveTool::Text(t) => commit_effect(
                            *old(self),
                            *final(self),
                            spec_text_key_ops(t, dch, old(self).spec_grid().width as int),
                        ),
                        _ => false,
                    }
                    &&& final(self).spec_selection() == old(self).spec_selection()
                    &&& final(self).spec_clipboard() == old(self).spec_clipboard()
                    &&& final(self).spec_tool_id() == old(self).spec_tool_id()
                    &&& final(self).spec_active_tool_id() == old(self).spec_active_tool_id()
                    &&& final(self).spec_space_held() == old(self).spec_space_held()
                    &&& !r.should_copy
                } else if !ctrl && !shift && !old(self).spec_tool_active()
                    && ToolId::spec_from_shortcut(ascii_upper(kc)) is Some {
                    let id = ToolId::spec_from_shortcut(ascii_upper(kc))->0;
                    &&& final(self).spec_tool_id() == id
                    &&& final(self).spec_active_tool_id() == id
                    &&& !final(self).spec_tool_active()
                    &&& history_unchanged(*old(self), *final(self))
                    &&& final(self).spec_clipboard() == old(self).spec_clipboard()
                    &&& final(self).spec_space_held() == old(self).spec_space_held()
                    &&& final(self).spec_selection() == (
                        if id == ToolId::Select {
                            old(self).spec_selection()
                        } else {
                            None
                        })
                    &&& !r.should_copy
                } else if old(self).spec_tool_id() == ToolId::Text && old(self).spec_tool_active() {
                    &&& match old(self).spec_active_tool() {
                        ActiveTool::Text(t) => commit_effect(
                            *old(self),
                            *final(self),
                            spec_text_key_ops(t, kc, old(self).spec_grid().width as int),
                        ),
                        _ => false,
                    }
                    &&& final(self).spec_selection() == old(self).spec_selection()
                    &&& final(self).spec_clipboard() == old(self).spec_clipboard()
                    &&& final(self).spec_tool_id() == old(self).spec_tool_id()
                    &&& final(self).spec_active_tool_id() == old(self).spec_active_tool_id()
                    &&& final(self).spec_space_held() == old(self).spec_space_held()
                    &&& !r.should_copy
                } else {
                    &&& session_unchanged(*old(self), *final(self))
                    &&& final(self).spec_active_tool() == old(self).spec_active_tool()
                    &&& final(self).spec_space_held() == old(self).spec_space_held()
                    &&& !r.should_copy
                }
            }),
    {
        let key_char = if key.unicode_len() > 0 {
            key.get_char(0)
        } else {
            '\u{0}'
        };

        if str_eq(key, "Escape") {
            self.active_tool.reset();
            self.preview_ops = Vec::new();
            return self.create_event_result();
        }

        if key_char == ' ' && !ctrl && !shift {
            self.space_held = true;
            return self.create_event_result();
        }

        let is_z = key.unicode_len() == 1 && to_lower_char(key_char) == 'z';
        let is_c = key.unicode_len() == 1 && to_lower_char(key_char) == 'c';
        let is_x = key.unicode_len() == 1 && to_lower_char(key_char) == 'x';
        let is_v = key.unicode_len() == 1 && to_lower_char(key_char) == 'v';

        if ctrl && !shift && is_z {
            self.undo();
            return self.create_event_result();
        }

        if ctrl && shift && is_z {
            self.redo();
            return self.create_event_result();
        }

        if ctrl && is_c {
            let text = self.export_ascii();
            return self.create_event_result().with_copy(text);
        }

        if ctrl && is_x {
            if self.cut_selection() {
                return self.create_event_result();
            }
        }

        if ctrl && is_v {
            if self.paste() {
                return self.create_event_result();
            }
        }

        if !ctrl && (str_eq(key, "Delete") || str_eq(key, "Backspace")) {
            if matches!(self.tool_id, ToolId::Select) && self.active_tool.is_active() {
                if self.delete_selection() {
                    return self.create_event_result();
                }
            }
            if matches!(self.tool_id, ToolId::Text) && self.active_tool.is_active() {
                let ctx = self.create_tool_context();
                let delete_char = if str_eq(key, "Delete") {
                    '\u{0}'
                } else {
                    '\u{8}'
                };
                let result = self.dispatch_key(delete_char, &ctx);
                if result.modified {
                    self.commit_ops(result.ops);
                }
                return self.create_event_result();
            }
        }

        if !ctrl && !shift && !self.active_tool.is_active() {
            if let Some(tool_id) = crate::tools::ToolId::from_shortcut(key_char) {
                self.set_tool_by_id(tool_id);
                return self.create_event_result();
            }
        }

        if matches!(self.tool_id, ToolId::Text) && self.active_tool.is_active() {
            let ctx = self.create_tool_context();
            let result = self.dispatch_key(key_char, &ctx);
            if result.modified {
                self.commit_ops(result.ops);
            }
        }

        self.create_event_result()
    }

    /// Handle a key-up event: releasing space disarms panning; nothing else
    /// changes.
    pub fn on_key_up(&mut self, key: &str)
        ensures
            final(self).wf() == old(self).wf(),
            history_unchanged(*old(self), *final(self)),
            final(self).spec_selection() == old(self).spec_selection(),
            final(self).spec_clipboard() == old(self).spec_clipboard(),
            final(self).spec_tool_id() == old(self).spec_tool_id(),
            final(self).spec_active_tool() == old(self).spec_active_tool(),
            final(self).spec_space_held() == (
                if key@ == " "@ {
                    false
                } else {
                    old(self).spec_space_held()
                }),
    {
        if str_eq(key, " ") {
            self.space_held = false;
        }
    }

    /// Forward a pointer-down to the active tool.
    fn dispatch_pointer_down(&mut self, x: i32, y: i32, ctx: &ToolContext) -> (r: ToolResult)
        requires
            old(self).spec_tool_wf(),
            old(self).spec_history_wf(),
            ctx.valid(),
            ctx.grid_width == old(self).spec_grid().width,
            ctx.grid_height == old(self).spec_grid().height,
            coord_ok(x as int),
            coord_ok(y as int),
        ensures
            final(self).spec_tool_wf(),
            final(self).spec_tool_id() == old(self).spec_tool_id(),
            final(self).spec_active_tool_id() == old(self).spec_active_tool_id(),
            final(self).spec_tool_active(),
            final(self).spec_grid() == old(self).spec_grid(),
            final(self).spec_history_wf(),
            final(self).spec_undo_models() == old(self).spec_undo_models(),
            final(self).spec_redo_models() == old(self).spec_redo_models(),
            final(self).spec_selection() == old(self).spec_selection(),
            final(self).spec_clipboard() == old(self).spec_clipboard(),
            final(self).spec_space_held() == old(self).spec_space_held(),
            !r.finished,
    {
        match &mut self.active_tool {
            ActiveTool::Rectangle(t) => t.on_pointer_down(x, y, ctx),
            ActiveTool::Line(t) => t.on_pointer_down(x, y, ctx),
            ActiveTool::Arrow(t) => t.on_pointer_down(x, y, ctx),
            ActiveTool::Diamond(t) => t.on_pointer_down(x, y, ctx),
            ActiveTool::Text(t) => t.on_pointer_down(x, y, ctx),
            ActiveTool::Freehand(t) => t.on_pointer_down(x, y, ctx),
            ActiveTool::Select(t) => t.on_pointer_down(x, y, ctx),
            ActiveTool::Eraser(t) => t.on_pointer_down(x, y, ctx),
        }
    }

    /// Forward a pointer-move to the active tool.
    fn dispatch_pointer_move(&mut self, x: i32, y: i32, ctx: &ToolContext) -> (r: ToolResult)
        requires
            old(self).spec_tool_wf(),
            old(self).spec_history_wf(),
            ctx.valid(),
        ensures
            final(self).spec_tool_wf(),
            final(self).spec_tool_id() == old(self).spec_tool_id(),
            final(self).spec_active_tool_id() == old(self).spec_active_tool_id(),
            final(self).spec_grid() == old(self).spec_grid(),
            final(self).spec_history_wf(),
            final(self).spec_undo_models() == old(self).spec_undo_models(),
            final(self).spec_redo_models() == old(self).spec_redo_models(),
            final(self).spec_selection() == old(self).spec_selection(),
            final(self).spec_clipboard() == old(self).spec_clipboard(),
            final(self).spec_space_held() == old(self).spec_space_held(),
    {
        match &mut self.active_tool {
            ActiveTool::Rectangle(t) => t.on_pointer_move(x, y, ctx),
            ActiveTool::Line(t) => t.on_pointer_move(x, y, ctx),
            ActiveTool::Arrow(t) => t.on_pointer_move(x, y, ctx),
            ActiveTool::Diamond(t) => t.on_pointer_move(x, y, ctx),
            ActiveTool::Text(t) => t.on_pointer_move(x, y, ctx),
            ActiveTool::Freehand(t) => t.on_pointer_move(x, y, ctx),
            ActiveTool::Select(t) => t.on_pointer_move(x, y, ctx),
            ActiveTool::Eraser(t) => t.on_pointer_move(x, y, ctx),
        }
    }

    /// Forward a pointer-up to the active tool.
    fn dispatch_pointer_up(&mut self, x: i32, y: i32, ctx: &ToolContext) -> (r: ToolResult)
        requires
            old(self).spec_tool_wf(),
            old(self).spec_history_wf(),
            ctx.valid(),
        ensures
            final(self).spec_tool_wf(),
            final(self).spec_tool_id() == old(self).spec_tool_id(),
            final(self).spec_active_tool_id() == old(self).spec_active_tool_id(),
            final(self).spec_grid() == old(self).spec_grid(),
            final(self).spec_history_wf(),
            final(self).spec_undo_models() == old(self).spec_undo_models(),
            final(self).spec_redo_models() == old(self).spec_redo_models(),
            final(self).spec_clipboard() == old(self).spec_clipboard(),
            final(self).spec_space_held() == old(self).spec_space_held(),
            final(self).current_selection == old(self).current_selection,
            r.ops@ == spec_pointer_up_ops(
                old(self).spec_active_tool(),
                x as int,
                y as int,
                ctx.grid_width as int,
                ctx.grid_height as int,
            ),
            r.modified == (r.ops@.len() > 0),
            final(self).spec_tool_active() == match old(self).spec_active_tool() {
                ActiveTool::Text(t) => t.spec_cursor() is Some,
                _ => false,
            },
            match (old(self).spec_active_tool(), final(self).spec_active_tool()) {
                (ActiveTool::Select(t0), ActiveTool::Select(t1)) => t1.spec_selection()
                    == spec_select_up_selection(
                    t0,
                    crate::tools::spec_clamp_coord(x as int, ctx.grid_width as int),
                    crate::tools::spec_clamp_coord(y as int, ctx.grid_height as int),
                ),
                (ActiveTool::Select(_), _) => false,
                _ => true,
            },
    {
        match &mut self.active_tool {
            ActiveTool::Rectangle(t) => t.on_pointer_up(x, y, ctx),
            ActiveTool::Line(t) => t.on_pointer_up(x, y, ctx),
            ActiveTool::Arrow(t) => t.on_pointer_up(x, y, ctx),
            ActiveTool::Diamond(t) => t.on_pointer_up(x, y, ctx),
            ActiveTool::Text(t) => t.on_pointer_up(x, y, ctx),
            ActiveTool::Freehand(t) => t.on_pointer_up(x, y, ctx),
            ActiveTool::Select(t) => t.on_pointer_up(x, y, ctx),
            ActiveTool::Eraser(t) => t.on_pointer_up(x, y, ctx),
        }
    }

    /// Forward a key to the active tool; only the text tool responds.
    fn dispatch_key(&mut self, ch: char, ctx: &ToolContext) -> (r: ToolResult)
        requires
            old(self).spec_tool_wf(),
            old(self).spec_history_wf(),
            ctx.valid(),
        ensures
            final(self).spec_tool_wf(),
            final(self).spec_tool_id() == old(self).spec_tool_id(),
            final(self).spec_active_tool_id() == old(self).spec_active_tool_id(),
            final(self).spec_grid() == old(self).spec_grid(),
            final(self).spec_history_wf(),
            final(self).spec_undo_models() == old(self).spec_undo_models(),
            final(self).spec_redo_models() == old(self).spec_redo_models(),
            final(self).spec_selection() == old(self).spec_selection(),
            final(self).spec_clipboard() == old(self).spec_clipboard(),
            final(self).spec_space_held() == old(self).spec_space_held(),
            r.ops@ == match old(self).spec_active_tool() {
                ActiveTool::Text(t) => spec_text_key_ops(t, ch, ctx.grid_width as int),
                _ => Seq::<DrawOp>::empty(),
            },
            r.modified == (r.ops@.len() > 0),
            !r.finished,
    {
        match &mut self.active_tool {
            ActiveTool::Text(t) => t.on_key(ch, ctx),
            _ => ToolResult::new(),
        }
    }
}

/// The undo stack after a commit: the oldest entry is evicted at capacity,
/// then the applied batch is appended.
pub open spec fn pushed_undo(undo: Seq<CommandModel>, g: GridView, ops: Seq<DrawOp>) -> Seq<
    CommandModel,
> {
    (if undo.len() >= 100 {
        undo.drop_first()
    } else {
        undo
    }).push(committed_draw(g, ops))
}

/// The session after committing `ops` as one draw batch: for a non-empty
/// batch the grid advances by the operations, the applied batch enters the
/// undo log and the redo log empties; an empty batch changes nothing.
pub open spec fn commit_effect(pre: AsciiEditor, post: AsciiEditor, ops: Seq<DrawOp>) -> bool {
    if ops.len() > 0 {
        &&& post.spec_grid() == apply_ops(pre.spec_grid(), ops)
        &&& post.spec_undo_models() == pushed_undo(pre.spec_undo_models(), pre.spec_grid(), ops)
        &&& post.spec_redo_models().len() == 0
    } else {
        &&& post.spec_grid() == pre.spec_grid()
        &&& post.spec_undo_models() == pre.spec_undo_models()
        &&& post.spec_redo_models() == pre.spec_redo_models()
    }
}

/// The operations a pointer-up at `(x, y)` makes a tool emit, exactly as the
/// tools' own contracts fix them for a grid of the given dimensions: the
/// shape tools draw from their anchor to the clamped point, the stroke tools
/// flush their buffered stroke, the text and select tools emit nothing.
pub open spec fn spec_pointer_up_ops(tool: ActiveTool, x: int, y: int, gw: int, gh: int) -> Seq<
    DrawOp,
> {
    let cx = crate::tools::spec_clamp_coord(x, gw);
    let cy = crate::tools::spec_clamp_coord(y, gh);
    match tool {
        ActiveTool::Rectangle(t) => match t.spec_start() {
            Some(p) => crate::tools::spec_rectangle_ops(
                p.0 as int,
                p.1 as int,
                cx,
                cy,
                t.spec_border_style(),
            ),
            None => Seq::empty(),
        },
        ActiveTool::Line(t) => match t.spec_start() {
            Some(p) => crate::tools::spec_line_ops(p.0 as int, p.1 as int, cx, cy),
            None => Seq::empty(),
        },
        ActiveTool::Arrow(t) => match t.spec_start() {
            Some(p) => crate::tools::spec_arrow_ops(p.0 as int, p.1 as int, cx, cy),
            None => Seq::empty(),
        },
        ActiveTool::Diamond(t) => match t.spec_start() {
            Some(p) => crate::tools::spec_diamond_ops(p.0 as int, p.1 as int, cx, cy),
            None => Seq::empty(),
        },
        ActiveTool::Freehand(t) => t.spec_buffer(),
        ActiveTool::Eraser(t) => t.spec_buffer(),
        ActiveTool::Text(_) => Seq::empty(),
        ActiveTool::Select(_) => Seq::empty(),
    }
}

/// The selection the select tool holds after a pointer-up at the clamped
/// point, as its contract fixes it: an open selection drag is finalized at
/// that point, anything else leaves the selection as it was.
pub open spec fn spec_select_up_selection(t: SelectTool, cx: int, cy: int) -> Option<
    (i32, i32, i32, i32),
> {
    if t.spec_selecting() && t.spec_drag_start() is Some {
        let p = t.spec_drag_start()->0;
        Some((p.0, p.1, cx as i32, cy as i32))
    } else {
        t.spec_selection()
    }
}

/// The operations one key makes the text tool emit, exactly as its contract
/// fixes them for a grid of width `gw`.
pub open spec fn spec_text_key_ops(t: TextTool, ch: char, gw: int) -> Seq<DrawOp> {
    match (t.spec_cursor(), t.spec_start()) {
        (Some(c), Some(s)) => {
            if ch == '\n' || ch == '\r' {
                Seq::empty()
            } else if ch == '\u{8}' {
                if c.0 - s.0 > 0 {
                    seq![DrawOp::spec_new(c.0 - 1, c.1 as int, ' ')]
                } else {
                    Seq::empty()
                }
            } else if ch == '\u{0}' {
                if 0 <= c.0 - s.0 < t.spec_buffer().len() {
                    seq![DrawOp::spec_new(c.0 as int, c.1 as int, ' ')]
                } else {
                    Seq::empty()
                }
            } else if crate::tools::spec_is_control(ch) {
                Seq::empty()
            } else if s.0 >= gw - 1 || c.0 >= gw - 1 || t.spec_buffer().len() >= 0x7fff_0000 {
                Seq::empty()
            } else {
                seq![DrawOp::spec_new(c.0 as int, c.1 as int, ch)]
            }
        },
        _ => Seq::empty(),
    }
}

/// The first character of a key string, NUL for the empty string.
pub open spec fn spec_first_char(s: Seq<char>) -> char {
    if s.len() > 0 {
        s[0]
    } else {
        '\u{0}'
    }
}

/// A one-character key whose letter lowers to `c`.
pub open spec fn key_is_letter(k: Seq<char>, c: char) -> bool {
    k.len() == 1 && spec_to_lower_char(spec_first_char(k)) == c
}

/// The event summary reported to the host after an event: the undo and redo
/// availability and the tool name of the session as it now stands.
pub open spec fn event_summary_ok(r: EventResult, post: AsciiEditor) -> bool {
    &&& r.can_undo == (post.spec_undo_models().len() > 0)
    &&& r.can_redo == (post.spec_redo_models().len() > 0)
    &&& r.tool@ == post.spec_tool_id().spec_name()
}

/// The grid and both history stacks are unchanged between two session states.
pub open spec fn history_unchanged(pre: AsciiEditor, post: AsciiEditor) -> bool {
    &&& post.spec_grid() == pre.spec_grid()
    &&& post.spec_undo_models() == pre.spec_undo_models()
    &&& post.spec_redo_models() == pre.spec_redo_models()
}

/// The grid, both history stacks, the selection, the clipboard and the tool
/// choice are unchanged between two session states.
pub open spec fn session_unchanged(pre: AsciiEditor, post: AsciiEditor) -> bool {
    &&& history_unchanged(pre, post)
    &&& post.spec_selection() == pre.spec_selection()
    &&& post.spec_clipboard() == pre.spec_clipboard()
    &&& post.spec_tool_id() == pre.spec_tool_id()
}

/// Everything but the grid and the history stacks is unchanged between two
/// session states.
pub open spec fn frame_unchanged(pre: AsciiEditor, post: AsciiEditor) -> bool {
    &&& post.spec_tool_id() == pre.spec_tool_id()
    &&& post.spec_active_tool() == pre.spec_active_tool()
    &&& post.spec_space_held() == pre.spec_space_held()
}

/// The cells of a selection captured for the clipboard, in row-major order,
/// relative to the selection's top-left corner; out-of-grid cells are
/// captured as default cells.
pub open spec fn clipboard_capture(g: GridView, sel: Selection) -> Seq<(i32, i32, Cell)> {
    let w = sel.spec_max_x() - sel.spec_min_x() + 1;
    let h = sel.spec_max_y() - sel.spec_min_y() + 1;
    Seq::new(
        (h * w) as nat,
        |k: int|
            {
                let x = sel.spec_min_x() + k % w;
                let y = sel.spec_min_y() + k / w;
                (
                    (k % w) as i32,
                    (k / w) as i32,
                    if g.in_bounds(x, y) {
                        g.cell_at(x, y)
                    } else {
                        Cell::spec_default()
                    },
                )
            },
    )
}

/// The blanking operations covering a selection, in row-major order.
pub open spec fn blank_region_ops(sel: Selection) -> Seq<DrawOp> {
    let w = sel.spec_max_x() - sel.spec_min_x() + 1;
    let h = sel.spec_max_y() - sel.spec_min_y() + 1;
    Seq::new(
        (h * w) as nat,
        |k: int| DrawOp::spec_new(sel.spec_min_x() + k % w, sel.spec_min_y() + k / w, ' '),
    )
}

/// The operations of a paste: each clipboard cell at its relative offset,
/// keeping only those that land inside the grid.
pub open spec fn paste_ops(clip: Seq<(i32, i32, Cell)>, g: GridView) -> Seq<DrawOp>
    decreases clip.len(),
{
    if clip.len() == 0 {
        Seq::empty()
    } else {
        let e = clip.last();
        let rest = paste_ops(clip.drop_last(), g);
        if 0 <= e.0 < g.width && 0 <= e.1 < g.height {
            rest.push(DrawOp::spec_new(e.0 as int, e.1 as int, e.2.ch))
        } else {
            rest
        }
    }
}

/// The blanking operations of a selection, as a vector.
fn region_blank_ops(sel: &Selection) -> (r: Vec<DrawOp>)
    requires
        coord_ok(sel.x1 as int),
        coord_ok(sel.y1 as int),
        coord_ok(sel.x2 as int),
        coord_ok(sel.y2 as int),
    ensures
        r@ == blank_region_ops(*sel),
        r@.len() >= 1,
{
    let (min_x, min_y, max_x, max_y) = sel.bounds();
    let ghost target = blank_region_ops(*sel);
    let mut ops: Vec<DrawOp> = Vec::new();
    proof {
        let w = max_x - min_x + 1;
        let h = max_y - min_y + 1;
        assert(target.len() == h * w);
        assert(h * w >= 1) by (nonlinear_arith)
            requires
                h >= 1,
                w >= 1,
        ;
    }
    let mut y = min_y;
    while y <= max_y
        invariant
            min_y <= y && (y <= max_y + 1),
            min_x == sel.spec_min_x() && max_x == sel.spec_max_x(),
            min_y == sel.spec_min_y() && max_y == sel.spec_max_y(),
            coord_ok(min_x as int) && coord_ok(max_x as int),
            coord_ok(min_y as int) && coord_ok(max_y as int),
            target == blank_region_ops(*sel),
            ops@ == target.take((y - min_y) * (max_x - min_x + 1)),
        decreases max_y + 1 - y,
    {
        let mut x = min_x;
        while x <= max_x
            invariant
                min_x <= x && (x <= max_x + 1),
                min_y <= y <= max_y,
                min_x == sel.spec_min_x() && max_x == sel.spec_max_x(),
                min_y == sel.spec_min_y() && max_y == sel.spec_max_y(),
                coord_ok(min_x as int) && coord_ok(max_x as int),
                coord_ok(min_y as int) && coord_ok(max_y as int),
                target == blank_region_ops(*sel),
                ops@ == target.take((y - min_y) * (max_x - min_x + 1) + (x - min_x)),
            decreases max_x + 1 - x,
        {
            proof {
                let w = max_x - min_x + 1;
                let k = (y - min_y) * w + (x - min_x);
                assert(0 <= k < (max_y - min_y + 1) * w) by (nonlinear_arith)
                    requires
                        w == max_x - min_x + 1,
                        k == (y - min_y) * w + (x - min_x),
                        min_x <= x <= max_x,
                        min_y <= y <= max_y,
                ;
                assert(k % w == x - min_x && k / w == y - min_y) by (nonlinear_arith)
                    requires
                        w == max_x - min_x + 1,
                        k == (y - min_y) * w + (x - min_x),
                        0 <= x - min_x < w,
                        0 <= y - min_y,
                ;
            }
            ops.push(DrawOp::new(x, y, ' '));
            proof {
                let w = max_x - min_x + 1;
                let k = (y - min_y) * w + (x - min_x);
                assert(ops@ =~= target.take(k + 1));
            }
            x = x + 1;
        }
        proof {
            let w = max_x - min_x + 1;
            assert((y - min_y) * w + w == (y + 1 - min_y) * w) by (nonlinear_arith)
                requires
                    true,
            ;
        }
        y = y + 1;
    }
    proof {
        let w = max_x - min_x + 1;
        let h = max_y - min_y + 1;
        assert(ops@ =~= target);
    }
    ops
}

/// A copy of an operations vector.
fn copy_ops(ops: &Vec<DrawOp>) -> (r: Vec<DrawOp>)
    ensures
        r@ == ops@,
{
    let mut out: Vec<DrawOp> = Vec::new();
    let n = ops.len();
    let mut i: usize = 0;
    while i < n
        invariant
            i <= n,
            n == ops@.len(),
            out@ == ops@.take(i as int),
        decreases n - i,
    {
        out.push(ops[i]);
        proof {
            assert(out@ =~= ops@.take(i + 1));
        }
        i = i + 1;
    }
    proof {
        assert(ops@.take(n as int) =~= ops@);
    }
    out
}

/// An ASCII upper-case letter mapped to its lower case; anything else
/// unchanged.
pub open spec fn spec_to_lower_char(c: char) -> char {
    if 'A' <= c <= 'Z' {
        ((c as u8) + 0x20) as char
    } else {
        c
    }
}

/// Lowercase an ASCII letter, leaving every other character unchanged.
fn to_lower_char(c: char) -> (r: char)
    ensures
        r == spec_to_lower_char(c),
{
    if c >= 'A' && c <= 'Z' {
        ((c as u8) + 0x20) as char
    } else {
        c
    }
}

/// The tool named by a string: full names, common abbreviations and
/// single letters are accepted, in lower case.
pub open spec fn spec_parse_tool(s: Seq<char>) -> Option<ToolId> {
    if s == "rectangle"@ || s == "rect"@ || s == "r"@ {
        Some(ToolId::Rectangle)
    } else if s == "line"@ || s == "l"@ {
        Some(ToolId::Line)
    } else if s == "arrow"@ || s == "a"@ {
        Some(ToolId::Arrow)
    } else if s == "diamond"@ || s == "d"@ {
        Some(ToolId::Diamond)
    } else if s == "text"@ || s == "t"@ {
        Some(ToolId::Text)
    } else if s == "freehand"@ || s == "f"@ {
        Some(ToolId::Freehand)
    } else if s == "select"@ || s == "v"@ {
        Some(ToolId::Select)
    } else if s == "eraser"@ || s == "e"@ {
        Some(ToolId::Eraser)
    } else {
        None
    }
}

/// The string with every ASCII upper-case letter lowered.
pub open spec fn lower_seq(s: Seq<char>) -> Seq<char> {
    Seq::new(s.len(), |i: int| spec_to_lower_char(s[i]))
}

/// Lowercase the ASCII letters of a string.
fn lower_str(s: &str) -> (r: String)
    ensures
        r@ == lower_seq(s@),
{
    let n = s.unicode_len();
    let mut out = String::new();
    let mut i: usize = 0;
    while i < n
        invariant
            i <= n,
            n == s@.len(),
            out@ == lower_seq(s@).take(i as int),
        decreases n - i,
    {
        let c = s.get_char(i);
        crate::strutil::push_char(&mut out, to_lower_char(c));
        proof {
            assert(out@ =~= lower_seq(s@).take(i + 1));
        }
        i = i + 1;
    }
    proof {
        assert(lower_seq(s@).take(n as int) =~= lower_seq(s@));
    }
    out
}

/// Parse a tool name, ignoring ASCII case.
fn parse_tool_id(s: &str) -> (r: Option<ToolId>)
    ensures
        r == spec_parse_tool(lower_seq(s@)),
{
    let lowered = lower_str(s);
    let s = lowered.as_str();
    if str_eq(s, "rectangle") || str_eq(s, "rect") || str_eq(s, "r") {
        Some(ToolId::Rectangle)
    } else if str_eq(s, "line") || str_eq(s, "l") {
        Some(ToolId::Line)
    } else if str_eq(s, "arrow") || str_eq(s, "a") {
        Some(ToolId::Arrow)
    } else if str_eq(s, "diamond") || str_eq(s, "d") {
        Some(ToolId::Diamond)
    } else if str_eq(s, "text") || str_eq(s, "t") {
        Some(ToolId::Text)
    } else if str_eq(s, "freehand") || str_eq(s, "f") {
        Some(ToolId::Freehand)
    } else if str_eq(s, "select") || str_eq(s, "v") {
        Some(ToolId::Select)
    } else if str_eq(s, "eraser") || str_eq(s, "e") {
        Some(ToolId::Eraser)
    } else {
        None
    }
}

} // verus!
