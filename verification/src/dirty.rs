//! Dirty-region bookkeeping for incremental redraw: a bounding rectangle of
//! everything that changed since the last render pull, plus a sticky
//! full-redraw flag.

use vstd::prelude::*;

verus! {

/// A rectangular region that needs to be redrawn. The empty region is
/// represented by inverted sentinel bounds (`x1 > x2`).
#[derive(Clone, Copy, Debug)]
pub struct DirtyRect {
    /// Minimum X coordinate (inclusive).
    pub x1: i32,
    /// Minimum Y coordinate (inclusive).
    pub y1: i32,
    /// Maximum X coordinate (inclusive).
    pub x2: i32,
    /// Maximum Y coordinate (inclusive).
    pub y2: i32,
}

impl DirtyRect {
    /// A rectangle is empty iff its bounds are inverted on either axis.
    pub open spec fn spec_is_empty(self) -> bool {
        self.x1 > self.x2 || self.y1 > self.y2
    }

    /// The rectangle grown to cover the point `(x, y)`.
    pub open spec fn spec_expand(self, x: int, y: int) -> DirtyRect {
        DirtyRect {
            x1: if x < self.x1 { x as i32 } else { self.x1 },
            y1: if y < self.y1 { y as i32 } else { self.y1 },
            x2: if x > self.x2 { x as i32 } else { self.x2 },
            y2: if y > self.y2 { y as i32 } else { self.y2 },
        }
    }

    /// The union of two rectangles: an empty operand changes nothing, and the
    /// union of an empty rectangle with a non-empty one adopts the latter.
    pub open spec fn spec_union(self, other: DirtyRect) -> DirtyRect {
        if other.spec_is_empty() {
            self
        } else if self.spec_is_empty() {
            other
        } else {
            DirtyRect {
                x1: if other.x1 < self.x1 { other.x1 } else { self.x1 },
                y1: if other.y1 < self.y1 { other.y1 } else { self.y1 },
                x2: if other.x2 > self.x2 { other.x2 } else { self.x2 },
                y2: if other.y2 > self.y2 { other.y2 } else { self.y2 },
            }
        }
    }

    /// Create an empty dirty rect (nothing to redraw).
    pub fn empty() -> (r: Self)
        ensures
            r.spec_is_empty(),
            r == (DirtyRect { x1: i32::MAX, y1: i32::MAX, x2: i32::MIN, y2: i32::MIN }),
    {
        DirtyRect { x1: i32::MAX, y1: i32::MAX, x2: i32::MIN, y2: i32::MIN }
    }

    /// Create a dirty rect covering a single cell.
    pub fn single(x: i32, y: i32) -> (r: Self)
        ensures
            r == (DirtyRect { x1: x, y1: y, x2: x, y2: y }),
            !r.spec_is_empty(),
    {
        DirtyRect { x1: x, y1: y, x2: x, y2: y }
    }

    /// Create a dirty rect from two corner points, normalizing them.
    pub fn from_points(x1: i32, y1: i32, x2: i32, y2: i32) -> (r: Self)
        ensures
            r.x1 == if x1 < x2 { x1 } else { x2 },
            r.x2 == if x1 < x2 { x2 } else { x1 },
            r.y1 == if y1 < y2 { y1 } else { y2 },
            r.y2 == if y1 < y2 { y2 } else { y1 },
            !r.spec_is_empty(),
    {
        DirtyRect {
            x1: if x1 < x2 { x1 } else { x2 },
            y1: if y1 < y2 { y1 } else { y2 },
            x2: if x1 < x2 { x2 } else { x1 },
            y2: if y1 < y2 { y2 } else { y1 },
        }
    }

    /// Create a dirty rect covering an entire grid of the given dimensions.
    pub fn full(width: usize, height: usize) -> (r: Self)
        requires
            width <= i32::MAX,
            height <= i32::MAX,
        ensures
            r.x1 == 0,
            r.y1 == 0,
            r.x2 == if width == 0 { 0int } else { width - 1 },
            r.y2 == if height == 0 { 0int } else { height - 1 },
    {
        DirtyRect {
            x1: 0,
            y1: 0,
            x2: if width == 0 { 0 } else { (width - 1) as i32 },
            y2: if height == 0 { 0 } else { (height - 1) as i32 },
        }
    }

    /// Check if the rect is empty (nothing to redraw).
    pub fn is_empty(&self) -> (r: bool)
        ensures
            r == self.spec_is_empty(),
    {
        self.x1 > self.x2 || self.y1 > self.y2
    }

    /// Check if the rect covers the entire grid of the given dimensions.
    pub fn is_full(&self, width: usize, height: usize) -> (r: bool)
        requires
            width <= i32::MAX,
            height <= i32::MAX,
        ensures
            r == (self.x1 == 0 && self.y1 == 0 && self.x2 == width - 1 && self.y2 == height - 1),
    {
        let w_edge: i32 = if width == 0 { -1 } else { (width - 1) as i32 };
        let h_edge: i32 = if height == 0 { -1 } else { (height - 1) as i32 };
        self.x1 == 0 && self.y1 == 0 && self.x2 == w_edge && self.y2 == h_edge
    }

    /// The width of the dirty rect; zero when empty.
    pub fn width(&self) -> (r: i32)
        requires
            !self.spec_is_empty() ==> self.x2 - self.x1 + 1 <= i32::MAX,
        ensures
            r == if self.spec_is_empty() { 0int } else { self.x2 - self.x1 + 1 },
    {
        if self.is_empty() {
            0
        } else {
            self.x2 - self.x1 + 1
        }
    }

    /// The height of the dirty rect; zero when empty.
    pub fn height(&self) -> (r: i32)
        requires
            !self.spec_is_empty() ==> self.y2 - self.y1 + 1 <= i32::MAX,
        ensures
            r == if self.spec_is_empty() { 0int } else { self.y2 - self.y1 + 1 },
    {
        if self.is_empty() {
            0
        } else {
            self.y2 - self.y1 + 1
        }
    }

    /// The number of cells in the dirty rect.
    pub fn area(&self) -> (r: i32)
        requires
            !self.spec_is_empty() ==> self.x2 - self.x1 + 1 <= i32::MAX,
            !self.spec_is_empty() ==> self.y2 - self.y1 + 1 <= i32::MAX,
            !self.spec_is_empty() ==> (self.x2 - self.x1 + 1) * (self.y2 - self.y1 + 1) <= i32::MAX,
        ensures
            r == if self.spec_is_empty() {
                0int
            } else {
                (self.x2 - self.x1 + 1) * (self.y2 - self.y1 + 1)
            },
    {
        let w = self.width();
        let h = self.height();
        proof {
            if !self.spec_is_empty() {
                assert(w * h <= i32::MAX && w * h >= 0) by (nonlinear_arith)
                    requires
                        1 <= w,
                        1 <= h,
                        w * h <= i32::MAX,
                ;
            }
        }
        w * h
    }

    /// Expand the rect so that it covers the given point.
    pub fn expand(&mut self, x: i32, y: i32)
        ensures
            *final(self) == old(self).spec_expand(x as int, y as int),
    {
        self.x1 = if x < self.x1 { x } else { self.x1 };
        self.y1 = if y < self.y1 { y } else { self.y1 };
        self.x2 = if x > self.x2 { x } else { self.x2 };
        self.y2 = if y > self.y2 { y } else { self.y2 };
    }

    /// Expand the rect to the union with another rect.
    pub fn union(&mut self, other: &DirtyRect)
        ensures
            *final(self) == old(self).spec_union(*other),
    {
        if other.is_empty() {
            return;
        }
        if self.is_empty() {
            *self = *other;
            return;
        }
        self.x1 = if other.x1 < self.x1 { other.x1 } else { self.x1 };
        self.y1 = if other.y1 < self.y1 { other.y1 } else { self.y1 };
        self.x2 = if other.x2 > self.x2 { other.x2 } else { self.x2 };
        self.y2 = if other.y2 > self.y2 { other.y2 } else { self.y2 };
    }

    /// Clamp the rect's corners to the bounds of a grid of the given dimensions.
    pub fn clamp(&mut self, width: usize, height: usize)
        requires
            width <= i32::MAX,
            height <= i32::MAX,
        ensures
            final(self).x1 == clamp_to_edge(old(self).x1 as int, width as int),
            final(self).y1 == clamp_to_edge(old(self).y1 as int, height as int),
            final(self).x2 == clamp_to_edge(old(self).x2 as int, width as int),
            final(self).y2 == clamp_to_edge(old(self).y2 as int, height as int),
    {
        let w_edge: i32 = if width == 0 { -1 } else { (width - 1) as i32 };
        let h_edge: i32 = if height == 0 { -1 } else { (height - 1) as i32 };
        self.x1 = clamp_i32(self.x1, 0, w_edge);
        self.y1 = clamp_i32(self.y1, 0, h_edge);
        self.x2 = clamp_i32(self.x2, 0, w_edge);
        self.y2 = clamp_i32(self.y2, 0, h_edge);
    }

    /// Check if a point is inside the rect.
    pub fn contains(&self, x: i32, y: i32) -> (r: bool)
        ensures
            r == (self.x1 <= x <= self.x2 && self.y1 <= y <= self.y2),
    {
        x >= self.x1 && x <= self.x2 && y >= self.y1 && y <= self.y2
    }
}

impl Default for DirtyRect {
    /// The default rect is empty.
    fn default() -> (r: Self)
        ensures
            r == (DirtyRect { x1: i32::MAX, y1: i32::MAX, x2: i32::MIN, y2: i32::MIN }),
    {
        DirtyRect { x1: i32::MAX, y1: i32::MAX, x2: i32::MIN, y2: i32::MIN }
    }
}

/// A value raised to at least zero, then lowered below the grid edge: the
/// clamp applied to each corner coordinate. For a zero-width grid the edge is
/// `-1`.
pub open spec fn clamp_to_edge(v: int, extent: int) -> int {
    let raised = if v < 0 { 0int } else { v };
    if raised > extent - 1 {
        extent - 1
    } else {
        raised
    }
}

/// Clamp a value to `[lo, hi]`, taking `hi` when the interval is inverted.
fn clamp_i32(v: i32, lo: i32, hi: i32) -> (r: i32)
    ensures
        r == (if (if v < lo { lo as int } else { v as int }) > hi {
            hi as int
        } else {
            if v < lo { lo as int } else { v as int }
        }),
{
    let raised = if v < lo { lo } else { v };
    if raised > hi { hi } else { raised }
}

/// Tracker for dirty regions: the union rectangle of all marks since the last
/// clear, plus a sticky full-redraw flag.
#[derive(Clone, Debug)]
pub struct DirtyTracker {
    /// Current dirty rect (union of all dirty marks).
    dirty: DirtyRect,
    /// Whether a full redraw was explicitly requested.
    needs_full: bool,
}

impl DirtyTracker {
    /// The tracked rectangle.
    pub closed spec fn spec_rect(&self) -> DirtyRect {
        self.dirty
    }

    /// The sticky full-redraw flag.
    pub closed spec fn spec_full_flag(&self) -> bool {
        self.needs_full
    }

    /// Create a new tracker: empty rectangle, flag unset.
    pub fn new() -> (r: Self)
        ensures
            r.spec_rect().spec_is_empty(),
            !r.spec_full_flag(),
    {
        DirtyTracker { dirty: DirtyRect::empty(), needs_full: false }
    }

    /// Mark a single cell as dirty, growing the union rectangle.
    pub fn mark_dirty(&mut self, x: i32, y: i32)
        ensures
            final(self).spec_rect() == old(self).spec_rect().spec_expand(x as int, y as int),
            final(self).spec_full_flag() == old(self).spec_full_flag(),
    {
        self.dirty.expand(x, y);
    }

    /// Mark a whole region as dirty, growing the union rectangle.
    pub fn mark_region_dirty(&mut self, x1: i32, y1: i32, x2: i32, y2: i32)
        ensures
            final(self).spec_rect() == old(self).spec_rect().spec_union(
                DirtyRect {
                    x1: if x1 < x2 { x1 } else { x2 },
                    y1: if y1 < y2 { y1 } else { y2 },
                    x2: if x1 < x2 { x2 } else { x1 },
                    y2: if y1 < y2 { y2 } else { y1 },
                },
            ),
            final(self).spec_full_flag() == old(self).spec_full_flag(),
    {
        let rect = DirtyRect::from_points(x1, y1, x2, y2);
        self.dirty.union(&rect);
    }

    /// Request a full redraw; the flag stays set until `clear`.
    pub fn request_full_redraw(&mut self)
        ensures
            final(self).spec_full_flag(),
            final(self).spec_rect() == old(self).spec_rect(),
    {
        self.needs_full = true;
    }

    /// The current dirty rect.
    pub fn dirty_rect(&self) -> (r: &DirtyRect)
        ensures
            *r == self.spec_rect(),
    {
        &self.dirty
    }

    /// A full redraw is needed when it was requested, or when nothing has been
    /// marked yet (the never-rendered initial state is treated conservatively).
    pub fn needs_full_redraw(&self) -> (r: bool)
        ensures
            r == (self.spec_full_flag() || self.spec_rect().spec_is_empty()),
    {
        self.needs_full || self.dirty.is_empty()
    }

    /// Reset both the rectangle and the flag after the consumer has drained them.
    pub fn clear(&mut self)
        ensures
            final(self).spec_rect().spec_is_empty(),
            !final(self).spec_full_flag(),
    {
        self.dirty = DirtyRect::empty();
        self.needs_full = false;
    }
}

impl Default for DirtyTracker {
    /// The default tracker is empty with the flag unset.
    fn default() -> (r: Self)
        ensures
            r.spec_rect().spec_is_empty(),
            !r.spec_full_flag(),
    {
        DirtyTracker { dirty: DirtyRect::empty(), needs_full: false }
    }
}

} // verus!
