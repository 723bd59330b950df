//! Integer geometry helpers: clamping, distances, points and rectangles.

use vstd::prelude::*;

verus! {

/// Clamp a value between `min` and `max` (with `min` winning below and `max`
/// above, checked in that order).
pub fn clamp(value: i32, min: i32, max: i32) -> (r: i32)
    ensures
        r == if value < min {
            min as int
        } else if value > max {
            max as int
        } else {
            value as int
        },
{
    if value < min {
        min
    } else if value > max {
        max
    } else {
        value
    }
}

/// The absolute difference between two values.
pub fn abs_diff(a: i32, b: i32) -> (r: i32)
    requires
        a - b <= i32::MAX,
        b - a <= i32::MAX,
    ensures
        r == if a > b { a - b } else { b - a },
{
    if a > b {
        a - b
    } else {
        b - a
    }
}

/// The Manhattan distance between two points: `|dx| + |dy|`.
pub fn manhattan_distance(x1: i32, y1: i32, x2: i32, y2: i32) -> (r: i32)
    requires
        x2 - x1 <= i32::MAX,
        x1 - x2 <= i32::MAX,
        y2 - y1 <= i32::MAX,
        y1 - y2 <= i32::MAX,
        abs_int(x2 - x1) + abs_int(y2 - y1) <= i32::MAX,
    ensures
        r == abs_int(x2 - x1) + abs_int(y2 - y1),
{
    abs_diff(x2, x1) + abs_diff(y2, y1)
}

/// The Chebyshev distance between two points: `max(|dx|, |dy|)`.
pub fn chebyshev_distance(x1: i32, y1: i32, x2: i32, y2: i32) -> (r: i32)
    requires
        x2 - x1 <= i32::MAX,
        x1 - x2 <= i32::MAX,
        y2 - y1 <= i32::MAX,
        y1 - y2 <= i32::MAX,
    ensures
        r == if abs_int(x2 - x1) > abs_int(y2 - y1) {
            abs_int(x2 - x1)
        } else {
            abs_int(y2 - y1)
        },
{
    let dx = abs_diff(x2, x1);
    let dy = abs_diff(y2, y1);
    if dx > dy {
        dx
    } else {
        dy
    }
}

/// Sign of a number: `-1`, `0`, or `1`.
pub fn signum(value: i32) -> (r: i32)
    ensures
        r == if value > 0 {
            1int
        } else if value < 0 {
            -1int
        } else {
            0int
        },
{
    if value > 0 {
        1
    } else if value < 0 {
        -1
    } else {
        0
    }
}

/// The absolute value, as a spec integer.
pub open spec fn abs_int(v: int) -> int {
    if v < 0 {
        -v
    } else {
        v
    }
}

/// A 2D point.
#[derive(Clone, Copy, Debug, PartialEq, Eq, Structural)]
pub struct Point {
    /// X coordinate.
    pub x: i32,
    /// Y coordinate.
    pub y: i32,
}

impl Point {
    /// Create a new point at the given coordinates.
    pub fn new(x: i32, y: i32) -> (r: Self)
        ensures
            r == (Point { x, y }),
    {
        Point { x, y }
    }

    /// The Manhattan distance to another point.
    pub fn manhattan_distance_to(&self, other: &Point) -> (r: i32)
        requires
            other.x - self.x <= i32::MAX,
            self.x - other.x <= i32::MAX,
            other.y - self.y <= i32::MAX,
            self.y - other.y <= i32::MAX,
            abs_int(other.x - self.x) + abs_int(other.y - self.y) <= i32::MAX,
        ensures
            r == abs_int(other.x - self.x) + abs_int(other.y - self.y),
    {
        manhattan_distance(self.x, self.y, other.x, other.y)
    }
}

impl Default for Point {
    /// The default point is the origin.
    fn default() -> (r: Self)
        ensures
            r == (Point { x: 0, y: 0 }),
    {
        Point { x: 0, y: 0 }
    }
}

/// A 2D rectangle given by its top-left corner and extent.
#[derive(Clone, Copy, Debug, PartialEq, Eq, Structural)]
pub struct Rect {
    /// X coordinate of the top-left corner.
    pub x: i32,
    /// Y coordinate of the top-left corner.
    pub y: i32,
    /// Width of the rectangle.
    pub width: i32,
    /// Height of the rectangle.
    pub height: i32,
}

impl Rect {
    /// The inclusive right edge, `x + width - 1`.
    pub open spec fn spec_right(self) -> int {
        self.x + self.width - 1
    }

    /// The inclusive bottom edge, `y + height - 1`.
    pub open spec fn spec_bottom(self) -> int {
        self.y + self.height - 1
    }

    /// Create a new rectangle with the given position and dimensions.
    pub fn new(x: i32, y: i32, width: i32, height: i32) -> (r: Self)
        ensures
            r == (Rect { x, y, width, height }),
    {
        Rect { x, y, width, height }
    }

    /// Create a rectangle from two corner points, inclusive on both ends.
    pub fn from_points(x1: i32, y1: i32, x2: i32, y2: i32) -> (r: Self)
        requires
            x2 - x1 + 1 <= i32::MAX,
            x1 - x2 + 1 <= i32::MAX,
            y2 - y1 + 1 <= i32::MAX,
            y1 - y2 + 1 <= i32::MAX,
        ensures
            r.x == if x1 < x2 { x1 } else { x2 },
            r.y == if y1 < y2 { y1 } else { y2 },
            r.width == abs_int(x2 - x1) + 1,
            r.height == abs_int(y2 - y1) + 1,
    {
        Rect {
            x: if x1 < x2 { x1 } else { x2 },
            y: if y1 < y2 { y1 } else { y2 },
            width: abs_diff(x2, x1) + 1,
            height: abs_diff(y2, y1) + 1,
        }
    }

    /// The left edge X coordinate.
    pub fn left(&self) -> (r: i32)
        ensures
            r == self.x,
    {
        self.x
    }

    /// The inclusive right edge X coordinate.
    pub fn right(&self) -> (r: i32)
        requires
            i32::MIN <= self.spec_right() <= i32::MAX,
        ensures
            r == self.spec_right(),
    {
        ((self.x as i64) + (self.width as i64) - 1) as i32
    }

    /// The top edge Y coordinate.
    pub fn top(&self) -> (r: i32)
        ensures
            r == self.y,
    {
        self.y
    }

    /// The inclusive bottom edge Y coordinate.
    pub fn bottom(&self) -> (r: i32)
        requires
            i32::MIN <= self.spec_bottom() <= i32::MAX,
        ensures
            r == self.spec_bottom(),
    {
        ((self.y as i64) + (self.height as i64) - 1) as i32
    }

    /// Check if a point is inside this rectangle.
    pub fn contains(&self, x: i32, y: i32) -> (r: bool)
        requires
            i32::MIN <= self.spec_right() <= i32::MAX,
            i32::MIN <= self.spec_bottom() <= i32::MAX,
        ensures
            r == (self.x <= x <= self.spec_right() && self.y <= y <= self.spec_bottom()),
    {
        x >= self.left() && x <= self.right() && y >= self.top() && y <= self.bottom()
    }

    /// Check if this rectangle intersects another.
    pub fn intersects(&self, other: &Rect) -> (r: bool)
        requires
            i32::MIN <= self.spec_right() <= i32::MAX,
            i32::MIN <= self.spec_bottom() <= i32::MAX,
            i32::MIN <= other.spec_right() <= i32::MAX,
            i32::MIN <= other.spec_bottom() <= i32::MAX,
        ensures
            r == (self.x <= other.spec_right() && self.spec_right() >= other.x
                && self.y <= other.spec_bottom() && self.spec_bottom() >= other.y),
    {
        self.left() <= other.right() && self.right() >= other.left() && self.top()
            <= other.bottom() && self.bottom() >= other.top()
    }

    /// The area of this rectangle.
    pub fn area(&self) -> (r: i32)
        requires
            i32::MIN <= self.width * self.height <= i32::MAX,
        ensures
            r == self.width * self.height,
    {
        proof {
            assert(i32::MIN <= self.width * self.height <= i32::MAX);
        }
        self.width * self.height
    }
}

impl Default for Rect {
    /// The default rectangle has zero position and extent.
    fn default() -> (r: Self)
        ensures
            r == (Rect { x: 0, y: 0, width: 0, height: 0 }),
    {
        Rect { x: 0, y: 0, width: 0, height: 0 }
    }
}

} // verus!
