//! The 2D character canvas, stored as a flat row-major vector of cells.

use vstd::prelude::*;

use crate::cell::Cell;

verus! {

/// Mathematical view of a grid: its dimensions and flat row-major contents.
pub ghost struct GridView {
    /// Grid width in cells.
    pub width: nat,
    /// Grid height in cells.
    pub height: nat,
    /// The cells, row by row: the cell at `(x, y)` sits at index `y * width + x`.
    pub cells: Seq<Cell>,
}

impl GridView {
    /// The storage invariant: the flat sequence holds exactly `width * height`
    /// cells, and that count fits the machine word that indexes it.
    pub open spec fn wf(self) -> bool {
        self.cells.len() == self.width * self.height && self.cells.len() <= usize::MAX
    }

    /// Row-major index of the coordinate `(x, y)`.
    pub open spec fn idx(self, x: int, y: int) -> int {
        y * self.width + x
    }

    /// A coordinate is valid iff `0 <= x < width` and `0 <= y < height`.
    pub open spec fn in_bounds(self, x: int, y: int) -> bool {
        0 <= x < self.width && 0 <= y < self.height
    }

    /// The cell stored at `(x, y)`.
    pub open spec fn cell_at(self, x: int, y: int) -> Cell {
        self.cells[self.idx(x, y)]
    }

    /// The grid after writing `c` at `(x, y)`; out-of-bounds writes change nothing.
    pub open spec fn write(self, x: int, y: int, c: Cell) -> GridView {
        if self.in_bounds(x, y) {
            GridView { width: self.width, height: self.height, cells: self.cells.update(self.idx(x, y), c) }
        } else {
            self
        }
    }

    /// The grid after writing character `ch` at `(x, y)`, keeping that cell's style.
    pub open spec fn write_char(self, x: int, y: int, ch: char) -> GridView {
        self.write(x, y, Cell { ch, style: self.cell_at(x, y).style })
    }
}

/// A valid coordinate maps to a valid index of the flat sequence.
pub proof fn lemma_idx_bounds(g: GridView, x: int, y: int)
    requires
        g.in_bounds(x, y),
    ensures
        0 <= g.idx(x, y) < g.width * g.height,
{
    assert(0 <= y * g.width + x < g.width * g.height) by (nonlinear_arith)
        requires
            0 <= x < g.width,
            0 <= y < g.height,
    ;
}

/// The row-major index map is injective on valid coordinates: two distinct
/// coordinates never share an index.
pub proof fn lemma_idx_injective(g: GridView, x1: int, y1: int, x2: int, y2: int)
    requires
        g.in_bounds(x1, y1),
        g.in_bounds(x2, y2),
        g.idx(x1, y1) == g.idx(x2, y2),
    ensures
        x1 == x2 && y1 == y2,
{
    assert(x1 == x2 && y1 == y2) by (nonlinear_arith)
        requires
            0 <= x1 < g.width,
            0 <= x2 < g.width,
            0 <= y1 < g.height,
            0 <= y2 < g.height,
            y1 * g.width + x1 == y2 * g.width + x2,
    ;
}

/// A 2D grid of character cells using flat storage.
pub struct Grid {
    /// Flat storage of cells in row-major order.
    cells: Vec<Cell>,
    /// Grid width in cells.
    width: usize,
    /// Grid height in cells.
    height: usize,
}

impl View for Grid {
    type V = GridView;

    closed spec fn view(&self) -> GridView {
        GridView { width: self.width as nat, height: self.height as nat, cells: self.cells@ }
    }
}

impl Grid {
    /// The grid's storage invariant, established by the constructors and
    /// preserved by every method.
    pub open spec fn inv(&self) -> bool {
        self@.wf()
    }

    /// Create a new grid of the given dimensions, filled with default cells.
    pub fn new(width: usize, height: usize) -> (r: Self)
        requires
            width * height <= usize::MAX,
        ensures
            r.inv(),
            r@.width == width,
            r@.height == height,
            r@.cells == Seq::new((width * height) as nat, |i: int| Cell::spec_default()),
    {
        let n = width * height;
        let mut cells: Vec<Cell> = Vec::new();
        let mut i: usize = 0;
        while i < n
            invariant
                i <= n,
                cells@ == Seq::new(i as nat, |j: int| Cell::spec_default()),
            decreases n - i,
        {
            cells.push(Cell::default());
            i = i + 1;
            assert(cells@ =~= Seq::new(i as nat, |j: int| Cell::spec_default()));
        }
        assert(cells@ =~= Seq::new((width * height) as nat, |i: int| Cell::spec_default()));
        Grid { cells, width, height }
    }

    /// Create a grid from existing cells, which must fill it exactly.
    pub fn from_cells(cells: Vec<Cell>, width: usize, height: usize) -> (r: Self)
        requires
            cells@.len() == width * height,
        ensures
            r.inv(),
            r@ == (GridView { width: width as nat, height: height as nat, cells: cells@ }),
    {
        proof {
            assert(cells@.len() == cells.len());
        }
        Grid { cells, width, height }
    }

    /// Get grid width.
    pub fn width(&self) -> (r: usize)
        ensures
            r == self@.width,
    {
        self.width
    }

    /// Get grid height.
    pub fn height(&self) -> (r: usize)
        ensures
            r == self@.height,
    {
        self.height
    }

    /// Get total cell count.
    pub fn len(&self) -> (r: usize)
        ensures
            r == self@.cells.len(),
    {
        self.cells.len()
    }

    /// Check if the grid holds no cells at all.
    pub fn is_empty(&self) -> (r: bool)
        ensures
            r == (self@.cells.len() == 0),
    {
        self.cells.len() == 0
    }

    /// Convert valid `(x, y)` coordinates to the flat row-major index.
    pub fn index_of(&self, x: usize, y: usize) -> (r: usize)
        requires
            self.inv(),
            self@.in_bounds(x as int, y as int),
        ensures
            r == self@.idx(x as int, y as int),
            r < self@.cells.len(),
    {
        proof {
            lemma_idx_bounds(self@, x as int, y as int);
        }
        y * self.width + x
    }

    /// Convert a flat index back to `(x, y)` coordinates.
    pub fn coords_of(&self, index: usize) -> (r: (usize, usize))
        requires
            self@.width > 0,
        ensures
            r.0 == index as int % self@.width as int,
            r.1 == index as int / self@.width as int,
    {
        (index % self.width, index / self.width)
    }

    /// Check if coordinates are within bounds.
    pub fn in_bounds(&self, x: i32, y: i32) -> (r: bool)
        ensures
            r == self@.in_bounds(x as int, y as int),
    {
        x >= 0 && y >= 0 && (x as usize) < self.width && (y as usize) < self.height
    }

    /// Get the cell at `(x, y)`; `None` if out of bounds.
    pub fn get(&self, x: i32, y: i32) -> (r: Option<&Cell>)
        requires
            self.inv(),
        ensures
            match r {
                Some(c) => self@.in_bounds(x as int, y as int) && *c == self@.cell_at(x as int, y as int),
                None => !self@.in_bounds(x as int, y as int),
            },
    {
        if self.in_bounds(x, y) {
            proof {
                lemma_idx_bounds(self@, x as int, y as int);
            }
            let i = (y as usize) * self.width + (x as usize);
            Some(&self.cells[i])
        } else {
            None
        }
    }

    /// Set the cell at `(x, y)`; returns `false` and changes nothing if out of bounds.
    pub fn set(&mut self, x: i32, y: i32, cell: Cell) -> (r: bool)
        requires
            old(self).inv(),
        ensures
            final(self).inv(),
            r == old(self)@.in_bounds(x as int, y as int),
            final(self)@ == old(self)@.write(x as int, y as int, cell),
    {
        if self.in_bounds(x, y) {
            proof {
                lemma_idx_bounds(self@, x as int, y as int);
            }
            let i = (y as usize) * self.width + (x as usize);
            self.cells.set(i, cell);
            true
        } else {
            false
        }
    }

    /// Set the character at `(x, y)`, keeping the cell's style; returns `false`
    /// and changes nothing if out of bounds.
    pub fn set_char(&mut self, x: i32, y: i32, ch: char) -> (r: bool)
        requires
            old(self).inv(),
        ensures
            final(self).inv(),
            r == old(self)@.in_bounds(x as int, y as int),
            final(self)@ == old(self)@.write_char(x as int, y as int, ch),
    {
        if self.in_bounds(x, y) {
            proof {
                lemma_idx_bounds(self@, x as int, y as int);
            }
            let i = (y as usize) * self.width + (x as usize);
            let style = self.cells[i].style;
            self.cells.set(i, Cell { ch, style });
            true
        } else {
            false
        }
    }

    /// Reset the cell at `(x, y)` to the default; returns `false` and changes
    /// nothing if out of bounds.
    pub fn clear_cell(&mut self, x: i32, y: i32) -> (r: bool)
        requires
            old(self).inv(),
        ensures
            final(self).inv(),
            r == old(self)@.in_bounds(x as int, y as int),
            final(self)@ == old(self)@.write(x as int, y as int, Cell::spec_default()),
    {
        self.set(x, y, Cell::default())
    }

    /// Reset every cell of the grid to the default.
    pub fn clear(&mut self)
        requires
            old(self).inv(),
        ensures
            final(self).inv(),
            final(self)@ == (GridView {
                width: old(self)@.width,
                height: old(self)@.height,
                cells: Seq::new(old(self)@.cells.len(), |i: int| Cell::spec_default()),
            }),
    {
        let n = self.cells.len();
        let mut i: usize = 0;
        while i < n
            invariant
                i <= n,
                n == self.cells@.len(),
                self@.width == old(self)@.width,
                self@.height == old(self)@.height,
                forall|j: int| 0 <= j < i ==> self.cells@[j] == Cell::spec_default(),
                forall|j: int| i <= j < n ==> self.cells@[j] == old(self).cells@[j],
            decreases n - i,
        {
            self.cells.set(i, Cell::default());
            i = i + 1;
        }
        assert(self.cells@ =~= Seq::new(old(self)@.cells.len(), |i: int| Cell::spec_default()));
    }

    /// Borrow the flat cell storage.
    pub fn cells(&self) -> (r: &[Cell])
        ensures
            r@ == self@.cells,
    {
        self.cells.as_slice()
    }

    /// Resize the grid, keeping the overlapping sub-rectangle of the old
    /// content and filling everything else with default cells. Content outside
    /// the new bounds is dropped.
    pub fn resize(&mut self, new_width: usize, new_height: usize)
        requires
            old(self).inv(),
            new_width * new_height <= usize::MAX,
        ensures
            final(self).inv(),
            final(self)@.width == new_width,
            final(self)@.height == new_height,
            forall|x: int, y: int|
                final(self)@.in_bounds(x, y) ==> final(self)@.cell_at(x, y) == (
                    if old(self)@.in_bounds(x, y) {
                        old(self)@.cell_at(x, y)
                    } else {
                        Cell::spec_default()
                    }
                ),
    {
        if new_width == self.width && new_height == self.height {
            return;
        }

        let mut fresh = Grid::new(new_width, new_height);

        let copy_width = if new_width < self.width { new_width } else { self.width };
        let copy_height = if new_height < self.height { new_height } else { self.height };

        proof {
            assert forall|px: int, py: int| fresh@.in_bounds(px, py) implies
                fresh@.cell_at(px, py) == Cell::spec_default() by {
                lemma_idx_bounds(fresh@, px, py);
            }
        }

        let mut y: usize = 0;
        while y < copy_height
            invariant
                y <= copy_height,
                fresh.inv(),
                fresh@.width == new_width,
                fresh@.height == new_height,
                forall|px: int, py: int|
                    fresh@.in_bounds(px, py) ==> fresh@.cell_at(px, py) == (
                        if 0 <= px < copy_width && 0 <= py < y {
                            self@.cell_at(px, py)
                        } else {
                            Cell::spec_default()
                        }
                    ),
            decreases copy_height - y,
        {
            let mut x: usize = 0;
            while x < copy_width
                invariant
                    x <= copy_width,
                    y < copy_height,
                    fresh.inv(),
                    fresh@.width == new_width,
                    fresh@.height == new_height,
                    forall|px: int, py: int|
                        fresh@.in_bounds(px, py) ==> fresh@.cell_at(px, py) == (
                            if (0 <= px < copy_width && 0 <= py < y) || (0 <= px < x && py == y) {
                                self@.cell_at(px, py)
                            } else {
                                Cell::spec_default()
                            }
                        ),
                decreases copy_width - x,
            {
                proof {
                    lemma_idx_bounds(self@, x as int, y as int);
                    lemma_idx_bounds(fresh@, x as int, y as int);
                }
                let src = y * self.width + x;
                let dst = y * new_width + x;
                let c = self.cells[src];
                let ghost prev = fresh@;
                fresh.cells.set(dst, c);
                proof {
                    assert(c == self@.cell_at(x as int, y as int));
                    assert(dst == prev.idx(x as int, y as int));
                    assert(fresh@.cells == prev.cells.update(prev.idx(x as int, y as int), c));
                    assert(prev.in_bounds(x as int, y as int));
                    assert(fresh@ == prev.write(x as int, y as int, c));
                    assert forall|px: int, py: int| fresh@.in_bounds(px, py) implies
                        fresh@.cell_at(px, py) == (
                            if (0 <= px < copy_width && 0 <= py < y) || (0 <= px < x + 1 && py == y) {
                                self@.cell_at(px, py)
                            } else {
                                Cell::spec_default()
                            }
                        ) by {
                        if fresh@.idx(px, py) == fresh@.idx(x as int, y as int) {
                            lemma_idx_injective(fresh@, px, py, x as int, y as int);
                            assert(px == x as int && py == y as int);
                            assert(fresh@.cell_at(px, py) == c);
                        } else {
                            lemma_idx_bounds(fresh@, px, py);
                            assert(fresh@.cell_at(px, py) == prev.cell_at(px, py));
                        }
                    }
                }
                x = x + 1;
            }
            y = y + 1;
        }

        self.cells = fresh.cells;
        self.width = fresh.width;
        self.height = fresh.height;
    }

    /// Write a character into every cell of the normalized rectangle spanned by
    /// the two corners, silently clipping out-of-range coordinates.
    #[verifier::rlimit(30)]
    pub fn fill_rect(&mut self, x1: i32, y1: i32, x2: i32, y2: i32, ch: char)
        requires
            old(self).inv(),
        ensures
            final(self).inv(),
            final(self)@.width == old(self)@.width,
            final(self)@.height == old(self)@.height,
            forall|x: int, y: int|
                final(self)@.in_bounds(x, y) ==> final(self)@.cell_at(x, y) == (
                    if min_i32(x1, x2) <= x <= max_i32(x1, x2) && min_i32(y1, y2) <= y <= max_i32(y1, y2) {
                        Cell { ch, style: old(self)@.cell_at(x, y).style }
                    } else {
                        old(self)@.cell_at(x, y)
                    }
                ),
    {
        let min_x: i32 = if x1 < x2 { x1 } else { x2 };
        let max_x: i32 = if x1 < x2 { x2 } else { x1 };
        let min_y: i32 = if y1 < y2 { y1 } else { y2 };
        let max_y: i32 = if y1 < y2 { y2 } else { y1 };

        // Clip the iteration space to the grid, so that each write is in range.
        let lo_x: usize = if min_x < 0 { 0 } else { min_x as usize };
        let lo_y: usize = if min_y < 0 { 0 } else { min_y as usize };
        let hi_x: usize = if max_x < 0 {
            0
        } else if (max_x as usize) < self.width {
            max_x as usize + 1
        } else {
            self.width
        };
        let hi_y: usize = if max_y < 0 {
            0
        } else if (max_y as usize) < self.height {
            max_y as usize + 1
        } else {
            self.height
        };

        proof {
            assert(hi_x <= 0x8000_0000);
            assert(hi_y <= 0x8000_0000);
        }

        let mut y: usize = lo_y;
        while y < hi_y
            invariant
                lo_y <= y && (y <= hi_y || y == lo_y),
                self.inv(),
                self@.width == old(self)@.width,
                self@.height == old(self)@.height,
                forall|px: int, py: int|
                    self@.in_bounds(px, py) ==> self@.cell_at(px, py) == (
                        if lo_x <= px < hi_x && lo_y <= py < y {
                            Cell { ch, style: old(self)@.cell_at(px, py).style }
                        } else {
                            old(self)@.cell_at(px, py)
                        }
                    ),
            decreases hi_y - y,
        {
            let mut x: usize = lo_x;
            while x < hi_x
                invariant
                    lo_x <= x && (x <= hi_x || x == lo_x),
                    lo_y <= y < hi_y,
                    self.inv(),
                    self@.width == old(self)@.width,
                    self@.height == old(self)@.height,
                    forall|px: int, py: int|
                        self@.in_bounds(px, py) ==> self@.cell_at(px, py) == (
                            if lo_x <= px < hi_x && lo_y <= py < y || lo_x <= px < x && py == y {
                                Cell { ch, style: old(self)@.cell_at(px, py).style }
                            } else {
                                old(self)@.cell_at(px, py)
                            }
                        ),
                decreases hi_x - x,
            {
                let ghost prev = self@;
                self.set_char(x as i32, y as i32, ch);
                proof {
                    assert(prev.in_bounds(x as int, y as int));
                    assert(prev.cell_at(x as int, y as int) == old(self)@.cell_at(x as int, y as int));
                    lemma_idx_bounds(prev, x as int, y as int);
                    assert(self@.cell_at(x as int, y as int) == Cell {
                        ch,
                        style: prev.cell_at(x as int, y as int).style,
                    });
                    assert forall|px: int, py: int| self@.in_bounds(px, py) implies
                        self@.cell_at(px, py) == (
                            if lo_x <= px < hi_x && lo_y <= py < y || lo_x <= px < x + 1 && py == y {
                                Cell { ch, style: old(self)@.cell_at(px, py).style }
                            } else {
                                old(self)@.cell_at(px, py)
                            }
                        ) by {
                        if self@.idx(px, py) == self@.idx(x as int, y as int) {
                            lemma_idx_injective(self@, px, py, x as int, y as int);
                        } else {
                            lemma_idx_bounds(self@, px, py);
                            assert(self@.cell_at(px, py) == prev.cell_at(px, py));
                        }
                    }
                }
                x = x + 1;
            }
            y = y + 1;
        }
        proof {
            assert forall|x: int, y: int| self@.in_bounds(x, y) implies
                self@.cell_at(x, y) == (
                    if min_i32(x1, x2) <= x <= max_i32(x1, x2) && min_i32(y1, y2) <= y <= max_i32(y1, y2) {
                        Cell { ch, style: old(self)@.cell_at(x, y).style }
                    } else {
                        old(self)@.cell_at(x, y)
                    }
                ) by {
                assert((lo_x <= x < hi_x && lo_y <= y < hi_y) == (
                    min_i32(x1, x2) <= x <= max_i32(x1, x2) && min_i32(y1, y2) <= y <= max_i32(y1, y2)
                ));
            }
        }
    }
}

/// The cells of the rectangle `[x0, x1) x [y0, y1)` of a grid, row by row.
pub open spec fn region_cells(g: GridView, x0: int, y0: int, x1: int, y1: int) -> Seq<Cell> {
    Seq::new(
        ((y1 - y0) * (x1 - x0)) as nat,
        |k: int| g.cell_at(x0 + k % (x1 - x0), y0 + k / (x1 - x0)),
    )
}

impl Grid {
    /// Copy a rectangular region, clipped to the grid bounds, into a cell
    /// buffer in row-major order; a region that misses the grid entirely
    /// yields an empty buffer.
    pub fn get_region(&self, x1: i32, y1: i32, x2: i32, y2: i32) -> (r: crate::svec::CellBuffer)
        requires
            self.inv(),
        ensures
            crate::svec::cell_buffer_view(r) == spec_region(self@, x1 as int, y1 as int, x2 as int, y2 as int),
    {
        let lo_x: usize = if x1 < x2 {
            if x1 < 0 { 0 } else { x1 as usize }
        } else {
            if x2 < 0 { 0 } else { x2 as usize }
        };
        let lo_y: usize = if y1 < y2 {
            if y1 < 0 { 0 } else { y1 as usize }
        } else {
            if y2 < 0 { 0 } else { y2 as usize }
        };
        let top_x: i32 = if x1 < x2 { x2 } else { x1 };
        let top_y: i32 = if y1 < y2 { y2 } else { y1 };

        if top_x < 0 || top_y < 0 || lo_x >= self.width || lo_y >= self.height || self.width == 0
            || self.height == 0 {
            let r = crate::svec::CellBuffer::new();
            return r;
        }

        let hi_x: usize = if (top_x as usize) < self.width {
            top_x as usize + 1
        } else {
            self.width
        };
        let hi_y: usize = if (top_y as usize) < self.height {
            top_y as usize + 1
        } else {
            self.height
        };

        let ghost target = region_cells(self@, lo_x as int, lo_y as int, hi_x as int, hi_y as int);
        proof {
            assert(target == spec_region(self@, x1 as int, y1 as int, x2 as int, y2 as int));
        }
        let mut region = crate::svec::CellBuffer::with_capacity(0);
        let mut y: usize = lo_y;
        while y < hi_y
            invariant
                lo_y <= y <= hi_y,
                lo_x < hi_x <= self@.width,
                lo_y < hi_y <= self@.height,
                hi_x <= 0x8000_0000,
                hi_y <= 0x8000_0000,
                self.inv(),
                target == region_cells(self@, lo_x as int, lo_y as int, hi_x as int, hi_y as int),
                crate::svec::cell_buffer_view(region) == target.take(
                    (y - lo_y) * (hi_x - lo_x),
                ),
            decreases hi_y - y,
        {
            let mut x: usize = lo_x;
            while x < hi_x
                invariant
                    lo_x <= x <= hi_x,
                    lo_y <= y < hi_y,
                    lo_x < hi_x <= self@.width,
                    lo_y < hi_y <= self@.height,
                    hi_x <= 0x8000_0000,
                    hi_y <= 0x8000_0000,
                    self.inv(),
                    target == region_cells(self@, lo_x as int, lo_y as int, hi_x as int, hi_y as int),
                    crate::svec::cell_buffer_view(region) == target.take(
                        (y - lo_y) * (hi_x - lo_x) + (x - lo_x),
                    ),
                decreases hi_x - x,
            {
                proof {
                    let w = hi_x - lo_x;
                    let k = (y - lo_y) * w + (x - lo_x);
                    assert(0 <= k < (hi_y - lo_y) * w) by (nonlinear_arith)
                        requires
                            w == hi_x - lo_x,
                            k == (y - lo_y) * w + (x - lo_x),
                            lo_x <= x < hi_x,
                            lo_y <= y < hi_y,
                    ;
                    assert(k % w == x - lo_x && k / w == y - lo_y) by (nonlinear_arith)
                        requires
                            w == hi_x - lo_x,
                            k == (y - lo_y) * w + (x - lo_x),
                            0 <= x - lo_x < w,
                            0 <= y - lo_y,
                    ;
                }
                let cell = match self.get(x as i32, y as i32) {
                    Some(c) => *c,
                    None => Cell::default(),
                };
                region.push(cell);
                proof {
                    let w = hi_x - lo_x;
                    let k = (y - lo_y) * w + (x - lo_x);
                    assert(crate::svec::cell_buffer_view(region) =~= target.take(k + 1));
                }
                x = x + 1;
            }
            proof {
                let w = hi_x - lo_x;
                assert((y - lo_y) * w + w == (y + 1 - lo_y) * w) by (nonlinear_arith)
                    requires
                        true,
                ;
            }
            y = y + 1;
        }
        proof {
            let w = hi_x - lo_x;
            let h = hi_y - lo_y;
            assert(h * w == target.len());
            assert(crate::svec::cell_buffer_view(region) =~= target);
        }
        region
    }
}

/// The cells of the region spanned by the two corners, clipped to the grid,
/// in row-major order; empty when the region misses the grid.
pub open spec fn spec_region(g: GridView, x1: int, y1: int, x2: int, y2: int) -> Seq<Cell> {
    let lo_x = if min_i32_int(x1, x2) < 0 {
        0
    } else {
        min_i32_int(x1, x2)
    };
    let lo_y = if min_i32_int(y1, y2) < 0 {
        0
    } else {
        min_i32_int(y1, y2)
    };
    let top_x = max_i32_int(x1, x2);
    let top_y = max_i32_int(y1, y2);
    if top_x < 0 || top_y < 0 || lo_x >= g.width || lo_y >= g.height || g.width == 0 || g.height
        == 0 {
        Seq::empty()
    } else {
        let hi_x = if top_x < g.width {
            top_x + 1
        } else {
            g.width as int
        };
        let hi_y = if top_y < g.height {
            top_y + 1
        } else {
            g.height as int
        };
        region_cells(g, lo_x, lo_y, hi_x, hi_y)
    }
}

/// The smaller of two spec integers.
pub open spec fn min_i32_int(a: int, b: int) -> int {
    if a < b {
        a
    } else {
        b
    }
}

/// The larger of two spec integers.
pub open spec fn max_i32_int(a: int, b: int) -> int {
    if a < b {
        b
    } else {
        a
    }
}

/// The smaller of two machine integers, as a spec value.
pub open spec fn min_i32(a: i32, b: i32) -> int {
    if a < b {
        a as int
    } else {
        b as int
    }
}

/// The larger of two machine integers, as a spec value.
pub open spec fn max_i32(a: i32, b: i32) -> int {
    if a < b {
        b as int
    } else {
        a as int
    }
}

} // verus!
