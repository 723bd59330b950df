//! A rectangular selection on the canvas, and the clipboard value the
//! select tool copies it into.

use vstd::prelude::*;

use crate::cell::Cell;

verus! {

/// A rectangular selection region. The two corners are not pre-normalized;
/// every derived query normalizes through min/max internally.
#[derive(Clone, Debug)]
pub struct Selection {
    /// First corner X coordinate.
    pub x1: i32,
    /// First corner Y coordinate.
    pub y1: i32,
    /// Second corner X coordinate.
    pub x2: i32,
    /// Second corner Y coordinate.
    pub y2: i32,
}

impl Selection {
    /// Smallest X coordinate of the selection.
    pub open spec fn spec_min_x(self) -> int {
        if self.x1 < self.x2 {
            self.x1 as int
        } else {
            self.x2 as int
        }
    }

    /// Smallest Y coordinate of the selection.
    pub open spec fn spec_min_y(self) -> int {
        if self.y1 < self.y2 {
            self.y1 as int
        } else {
            self.y2 as int
        }
    }

    /// Largest X coordinate of the selection.
    pub open spec fn spec_max_x(self) -> int {
        if self.x1 < self.x2 {
            self.x2 as int
        } else {
            self.x1 as int
        }
    }

    /// Largest Y coordinate of the selection.
    pub open spec fn spec_max_y(self) -> int {
        if self.y1 < self.y2 {
            self.y2 as int
        } else {
            self.y1 as int
        }
    }

    /// A point lies in the selection iff it lies in the normalized rectangle.
    pub open spec fn spec_contains(self, x: int, y: int) -> bool {
        self.spec_min_x() <= x <= self.spec_max_x() && self.spec_min_y() <= y <= self.spec_max_y()
    }

    /// Create a new selection from two corner points.
    pub fn new(x1: i32, y1: i32, x2: i32, y2: i32) -> (r: Self)
        ensures
            r == (Selection { x1, y1, x2, y2 }),
    {
        Selection { x1, y1, x2, y2 }
    }

    /// Get normalized `(min_x, min_y, max_x, max_y)` bounds.
    pub fn bounds(&self) -> (r: (i32, i32, i32, i32))
        ensures
            r.0 == self.spec_min_x(),
            r.1 == self.spec_min_y(),
            r.2 == self.spec_max_x(),
            r.3 == self.spec_max_y(),
    {
        (
            if self.x1 < self.x2 { self.x1 } else { self.x2 },
            if self.y1 < self.y2 { self.y1 } else { self.y2 },
            if self.x1 < self.x2 { self.x2 } else { self.x1 },
            if self.y1 < self.y2 { self.y2 } else { self.y1 },
        )
    }

    /// The inclusive width of the selection, `|x2 - x1| + 1`.
    pub fn width(&self) -> (r: i32)
        requires
            self.spec_max_x() - self.spec_min_x() + 1 <= i32::MAX,
        ensures
            r == self.spec_max_x() - self.spec_min_x() + 1,
    {
        let (min_x, _, max_x, _) = self.bounds();
        max_x - min_x + 1
    }

    /// The inclusive height of the selection, `|y2 - y1| + 1`.
    pub fn height(&self) -> (r: i32)
        requires
            self.spec_max_y() - self.spec_min_y() + 1 <= i32::MAX,
        ensures
            r == self.spec_max_y() - self.spec_min_y() + 1,
    {
        let (_, min_y, _, max_y) = self.bounds();
        max_y - min_y + 1
    }

    /// Check if a point is within the selection.
    pub fn contains(&self, x: i32, y: i32) -> (r: bool)
        ensures
            r == self.spec_contains(x as int, y as int),
    {
        let (min_x, min_y, max_x, max_y) = self.bounds();
        x >= min_x && x <= max_x && y >= min_y && y <= max_y
    }

    /// Check if the selection has zero extent.
    pub fn is_empty(&self) -> (r: bool)
        ensures
            r == (self.x1 == self.x2 && self.y1 == self.y2),
    {
        self.x1 == self.x2 && self.y1 == self.y2
    }

    /// The number of cells in the selection: inclusive width times height.
    pub fn area(&self) -> (r: i32)
        requires
            self.spec_max_x() - self.spec_min_x() + 1 <= i32::MAX,
            self.spec_max_y() - self.spec_min_y() + 1 <= i32::MAX,
            (self.spec_max_x() - self.spec_min_x() + 1) * (self.spec_max_y() - self.spec_min_y() + 1) <= i32::MAX,
        ensures
            r == (self.spec_max_x() - self.spec_min_x() + 1) * (self.spec_max_y() - self.spec_min_y() + 1),
    {
        let w = self.width();
        let h = self.height();
        proof {
            assert(w * h <= i32::MAX && w * h >= 0) by (nonlinear_arith)
                requires
                    1 <= w,
                    1 <= h,
                    w == self.spec_max_x() - self.spec_min_x() + 1,
                    h == self.spec_max_y() - self.spec_min_y() + 1,
                    w * h <= i32::MAX,
            ;
        }
        w * h
    }

    /// Translate the selection in place by a delta.
    pub fn translate(&mut self, dx: i32, dy: i32)
        requires
            i32::MIN <= old(self).x1 + dx <= i32::MAX,
            i32::MIN <= old(self).x2 + dx <= i32::MAX,
            i32::MIN <= old(self).y1 + dy <= i32::MAX,
            i32::MIN <= old(self).y2 + dy <= i32::MAX,
        ensures
            final(self).x1 == old(self).x1 + dx,
            final(self).y1 == old(self).y1 + dy,
            final(self).x2 == old(self).x2 + dx,
            final(self).y2 == old(self).y2 + dy,
    {
        self.x1 = self.x1 + dx;
        self.y1 = self.y1 + dy;
        self.x2 = self.x2 + dx;
        self.y2 = self.y2 + dy;
    }

    /// A copy of the selection translated by a delta.
    pub fn translated(&self, dx: i32, dy: i32) -> (r: Self)
        requires
            i32::MIN <= self.x1 + dx <= i32::MAX,
            i32::MIN <= self.x2 + dx <= i32::MAX,
            i32::MIN <= self.y1 + dy <= i32::MAX,
            i32::MIN <= self.y2 + dy <= i32::MAX,
        ensures
            r.x1 == self.x1 + dx,
            r.y1 == self.y1 + dy,
            r.x2 == self.x2 + dx,
            r.y2 == self.y2 + dy,
    {
        Selection { x1: self.x1 + dx, y1: self.y1 + dy, x2: self.x2 + dx, y2: self.y2 + dy }
    }
}

impl Default for Selection {
    /// The default selection is the single cell at the origin.
    fn default() -> (r: Self)
        ensures
            r == (Selection { x1: 0, y1: 0, x2: 0, y2: 0 }),
    {
        Selection { x1: 0, y1: 0, x2: 0, y2: 0 }
    }
}

/// The clipboard the select tool copies into: cells captured relative to the
/// selection's top-left corner, plus the captured extent.
#[derive(Clone, Debug)]
pub struct SelectionClipboard {
    /// Captured cells as `(relative_x, relative_y, cell)` triples.
    pub cells: Vec<(i32, i32, Cell)>,
    /// Inclusive width of the captured region.
    pub width: i32,
    /// Inclusive height of the captured region.
    pub height: i32,
}

impl SelectionClipboard {
    /// Create an empty clipboard.
    pub fn new() -> (r: Self)
        ensures
            r.cells@.len() == 0,
            r.width == 0,
            r.height == 0,
    {
        SelectionClipboard { cells: Vec::new(), width: 0, height: 0 }
    }

    /// True if nothing has been captured: pasting an empty clipboard is a no-op.
    pub fn is_empty(&self) -> (r: bool)
        ensures
            r == (self.cells@.len() == 0),
    {
        self.cells.len() == 0
    }

    /// Drop the captured content.
    pub fn clear(&mut self)
        ensures
            final(self).cells@.len() == 0,
            final(self).width == 0,
            final(self).height == 0,
    {
        self.cells = Vec::new();
        self.width = 0;
        self.height = 0;
    }
}

impl Default for SelectionClipboard {
    /// The default clipboard is empty.
    fn default() -> (r: Self)
        ensures
            r.cells@.len() == 0,
            r.width == 0,
            r.height == 0,
    {
        SelectionClipboard { cells: Vec::new(), width: 0, height: 0 }
    }
}

} // verus!
