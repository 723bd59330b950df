//! Select tool: drags out a rectangular selection, or begins moving an
//! existing one. The tool only maintains the selection value; moving cell
//! content is orchestrated by the surrounding session.

use vstd::prelude::*;

use crate::selection::Selection;
use crate::svec::cell_buffer_view;
use crate::svec::CellBuffer;
use crate::tools::clamp_to_grid;
use crate::tools::raster::coord_ok;
use crate::tools::ToolContext;
use crate::tools::ToolId;
use crate::tools::ToolResult;

verus! {

/// Select and move tool: *Idle → Selecting | Moving*.
pub struct SelectTool {
    /// The current selection, if any.
    selection: Option<Selection>,
    /// Whether a selection drag is open.
    selecting: bool,
    /// Whether a move drag is open.
    moving: bool,
    /// Anchor of an open selection drag.
    drag_start: Option<(i32, i32)>,
    /// Offset from the selection's first corner when moving.
    move_offset: Option<(i32, i32)>,
    /// Cells captured before a move, for the session to restore.
    original_content: CellBuffer,
    /// Bounds captured before a move.
    original_bounds: Option<(i32, i32, i32, i32)>,
}

impl SelectTool {
    /// The current selection's corners, if any.
    pub closed spec fn spec_selection(&self) -> Option<(i32, i32, i32, i32)> {
        match self.selection {
            Some(s) => Some((s.x1, s.y1, s.x2, s.y2)),
            None => None,
        }
    }

    /// Whether a selection drag is open.
    pub closed spec fn spec_selecting(&self) -> bool {
        self.selecting
    }

    /// Whether a move drag is open.
    pub closed spec fn spec_moving(&self) -> bool {
        self.moving
    }

    /// The anchor of an open selection drag.
    pub closed spec fn spec_drag_start(&self) -> Option<(i32, i32)> {
        self.drag_start
    }

    /// The move offset of an open move drag.
    pub closed spec fn spec_move_offset(&self) -> Option<(i32, i32)> {
        self.move_offset
    }

    /// Recorded positions stay in the workable coordinate range.
    pub open spec fn wf(&self) -> bool {
        &&& match self.spec_selection() {
            Some(s) => coord_ok(s.0 as int) && coord_ok(s.1 as int) && coord_ok(s.2 as int)
                && coord_ok(s.3 as int),
            None => true,
        }
        &&& match self.spec_drag_start() {
            Some(p) => coord_ok(p.0 as int) && coord_ok(p.1 as int),
            None => true,
        }
    }

    /// Create a new select tool with nothing selected.
    pub fn new() -> (r: Self)
        ensures
            r.spec_selection() is None,
            !r.spec_selecting(),
            !r.spec_moving(),
            r.spec_drag_start() is None,
            r.spec_move_offset() is None,
            r.wf(),
    {
        SelectTool {
            selection: None,
            selecting: false,
            moving: false,
            drag_start: None,
            move_offset: None,
            original_content: CellBuffer::new(),
            original_bounds: None,
        }
    }

    /// The tool's identifier.
    pub fn id(&self) -> (r: ToolId)
        ensures
            r == ToolId::Select,
    {
        ToolId::Select
    }

    /// A clone of the current selection, if any.
    pub fn get_selection(&self) -> (r: Option<Selection>)
        ensures
            match r {
                Some(s) => self.spec_selection() == Some((s.x1, s.y1, s.x2, s.y2)),
                None => self.spec_selection() is None,
            },
    {
        match &self.selection {
            Some(s) => Some(Selection { x1: s.x1, y1: s.y1, x2: s.x2, y2: s.y2 }),
            None => None,
        }
    }

    /// Drop the selection and all drag state.
    pub fn clear_selection(&mut self)
        ensures
            final(self).spec_selection() is None,
            !final(self).spec_selecting(),
            !final(self).spec_moving(),
            final(self).spec_drag_start() is None,
            final(self).spec_move_offset() is None,
            final(self).wf(),
    {
        self.selection = None;
        self.selecting = false;
        self.moving = false;
        self.drag_start = None;
        self.move_offset = None;
        self.original_content.clear();
        self.original_bounds = None;
    }

    /// Whether the given point lies inside the current selection.
    fn point_in_selection(&self, x: i32, y: i32) -> (r: bool)
        ensures
            r == match self.spec_selection() {
                Some(s) => (Selection { x1: s.0, y1: s.1, x2: s.2, y2: s.3 }).spec_contains(
                    x as int,
                    y as int,
                ),
                None => false,
            },
    {
        match &self.selection {
            Some(sel) => sel.contains(x, y),
            None => false,
        }
    }

    /// A pointer-down inside an existing selection begins a move and records
    /// the offset from the selection's first corner; anywhere else it starts
    /// a fresh selection drag. Emits nothing.
    pub fn on_pointer_down(&mut self, x: i32, y: i32, _ctx: &ToolContext) -> (r: ToolResult)
        requires
            old(self).wf(),
            coord_ok(x as int),
            coord_ok(y as int),
        ensures
            final(self).wf(),
            r.ops@.len() == 0 && !r.modified && !r.finished,
            ({
                let inside = match old(self).spec_selection() {
                    Some(s) => (Selection { x1: s.0, y1: s.1, x2: s.2, y2: s.3 }).spec_contains(
                        x as int,
                        y as int,
                    ),
                    None => false,
                };
                if inside {
                    &&& final(self).spec_moving()
                    &&& final(self).spec_selecting() == old(self).spec_selecting()
                    &&& final(self).spec_selection() == old(self).spec_selection()
                    &&& match (old(self).spec_selection(), final(self).spec_move_offset()) {
                        (Some(s), Some(o)) => o.0 == x - s.0 && o.1 == y - s.1,
                        _ => false,
                    }
                } else {
                    &&& final(self).spec_selecting()
                    &&& final(self).spec_moving() == old(self).spec_moving()
                    &&& final(self).spec_selection() is None
                    &&& final(self).spec_drag_start() == Some((x, y))
                }
            }),
    {
        if self.selection.is_some() && self.point_in_selection(x, y) {
            self.moving = true;
            self.move_offset = match &self.selection {
                Some(sel) => Some((x - sel.x1, y - sel.y1)),
                None => None,
            };
        } else {
            self.selecting = true;
            self.selection = None;
            self.drag_start = Some((x, y));
        }

        ToolResult::new()
    }

    /// During a selection drag, update the selection's second corner to the
    /// (clamped) pointer position. Emits nothing.
    pub fn on_pointer_move(&mut self, x: i32, y: i32, ctx: &ToolContext) -> (r: ToolResult)
        requires
            old(self).wf(),
            ctx.valid(),
        ensures
            final(self).wf(),
            r.ops@.len() == 0 && !r.modified && !r.finished,
            final(self).spec_selecting() == old(self).spec_selecting(),
            final(self).spec_moving() == old(self).spec_moving(),
            final(self).spec_drag_start() == old(self).spec_drag_start(),
            ({
                let cx = crate::tools::spec_clamp_coord(x as int, ctx.grid_width as int);
                let cy = crate::tools::spec_clamp_coord(y as int, ctx.grid_height as int);
                match (old(self).spec_selecting(), old(self).spec_drag_start()) {
                    (true, Some(p)) => final(self).spec_selection() == Some(
                        (p.0, p.1, cx as i32, cy as i32),
                    ),
                    _ => final(self).spec_selection() == old(self).spec_selection(),
                }
            }),
    {
        let (cx, cy) = clamp_to_grid(x, y, ctx.grid_width, ctx.grid_height);

        if self.selecting {
            if let Some(p) = self.drag_start {
                self.selection = Some(Selection::new(p.0, p.1, cx, cy));
            }
        }

        ToolResult::new()
    }

    /// A pointer-up finalizes a selection drag at the (clamped) position, or
    /// concludes a move; concluding a move reports a finished gesture.
    pub fn on_pointer_up(&mut self, x: i32, y: i32, ctx: &ToolContext) -> (r: ToolResult)
        requires
            old(self).wf(),
            ctx.valid(),
        ensures
            final(self).wf(),
            r.ops@.len() == 0 && !r.modified,
            !final(self).spec_selecting(),
            !final(self).spec_moving(),
            final(self).spec_drag_start() is None || !old(self).spec_selecting(),
            r.finished == old(self).spec_moving(),
            ({
                let cx = crate::tools::spec_clamp_coord(x as int, ctx.grid_width as int);
                let cy = crate::tools::spec_clamp_coord(y as int, ctx.grid_height as int);
                match (old(self).spec_selecting(), old(self).spec_drag_start()) {
                    (true, Some(p)) => final(self).spec_selection() == Some(
                        (p.0, p.1, cx as i32, cy as i32),
                    ),
                    _ => final(self).spec_selection() == old(self).spec_selection(),
                }
            }),
    {
        let (cx, cy) = clamp_to_grid(x, y, ctx.grid_width, ctx.grid_height);

        if self.selecting {
            if let Some(p) = self.drag_start {
                self.selection = Some(Selection::new(p.0, p.1, cx, cy));
            }
            self.selecting = false;
            self.drag_start = None;
        }

        if self.moving {
            self.moving = false;
            self.move_offset = None;
            return ToolResult::new().finish();
        }

        self.moving = false;
        ToolResult::new()
    }

    /// Abandon all selection state.
    pub fn reset(&mut self)
        ensures
            final(self).spec_selection() is None,
            !final(self).spec_selecting(),
            !final(self).spec_moving(),
            final(self).spec_drag_start() is None,
            final(self).spec_move_offset() is None,
            final(self).wf(),
    {
        self.clear_selection();
    }

    /// True while a selection or move drag is open.
    pub fn is_active(&self) -> (r: bool)
        ensures
            r == (self.spec_selecting() || self.spec_moving()),
    {
        self.selecting || self.moving
    }
}

impl Default for SelectTool {
    /// The default select tool has nothing selected.
    fn default() -> (r: Self)
        ensures
            r.spec_selection() is None,
            !r.spec_selecting(),
            !r.spec_moving(),
            r.spec_drag_start() is None,
            r.spec_move_offset() is None,
            r.wf(),
    {
        SelectTool {
            selection: None,
            selecting: false,
            moving: false,
            drag_start: None,
            move_offset: None,
            original_content: CellBuffer::new(),
            original_bounds: None,
        }
    }
}

} // verus!
