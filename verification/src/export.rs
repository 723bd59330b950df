//! ASCII serialization: renders the visible grid content to plain text, with
//! bounds trimming, optional line numbering, and per-line width limiting.

use vstd::prelude::*;

use crate::cell::Cell;
use crate::grid::Grid;
use crate::grid::GridView;
use crate::strutil::push_char;
use crate::strutil::spec_decimal;
use crate::strutil::digit_char;

verus! {

/// Options for ASCII export.
#[derive(Clone, Debug)]
pub struct ExportOptions {
    /// Trim empty borders.
    pub trim_borders: bool,
    /// Prefix each emitted row with its one-based line number.
    pub line_numbers: bool,
    /// Maximum characters per line (0 = no limit), measured after numbering.
    pub max_width: usize,
}

impl Default for ExportOptions {
    /// By default borders are trimmed, lines are not numbered, and no width
    /// limit applies.
    fn default() -> (r: Self)
        ensures
            r.trim_borders,
            !r.line_numbers,
            r.max_width == 0,
    {
        ExportOptions { trim_borders: true, line_numbers: false, max_width: 0 }
    }
}

/// True when the grid holds at least one visible (non-whitespace) cell.
pub open spec fn has_visible(g: GridView) -> bool {
    exists|x: int, y: int| g.in_bounds(x, y) && (#[trigger] g.cell_at(x, y)).spec_is_visible()
}

/// A candidate content bounding box `(min_x, min_y, max_x, max_y)`: it lies in
/// the grid, every visible cell lies inside it, and each of its four edges
/// carries a visible cell.
pub open spec fn bounds_ok(g: GridView, b: (int, int, int, int)) -> bool {
    &&& 0 <= b.0 <= b.2 < g.width
    &&& 0 <= b.1 <= b.3 < g.height
    &&& forall|x: int, y: int|
        g.in_bounds(x, y) && (#[trigger] g.cell_at(x, y)).spec_is_visible() ==> b.0 <= x <= b.2
            && b.1 <= y <= b.3
    &&& exists|y: int| g.in_bounds(b.0, y) && (#[trigger] g.cell_at(b.0, y)).spec_is_visible()
    &&& exists|y: int| g.in_bounds(b.2, y) && (#[trigger] g.cell_at(b.2, y)).spec_is_visible()
    &&& exists|x: int| g.in_bounds(x, b.1) && (#[trigger] g.cell_at(x, b.1)).spec_is_visible()
    &&& exists|x: int| g.in_bounds(x, b.3) && (#[trigger] g.cell_at(x, b.3)).spec_is_visible()
}

/// The tight bounding box of the visible content; meaningful only when the
/// grid has visible content, in which case it is unique.
pub open spec fn content_bounds(g: GridView) -> (int, int, int, int) {
    choose|b: (int, int, int, int)| bounds_ok(g, b)
}

/// Two candidate bounding boxes are the same box: the box is unique.
pub proof fn lemma_bounds_unique(g: GridView, b1: (int, int, int, int), b2: (int, int, int, int))
    requires
        bounds_ok(g, b1),
        bounds_ok(g, b2),
    ensures
        b1 == b2,
{
    let y1 = choose|y: int| g.in_bounds(b1.0, y) && (#[trigger] g.cell_at(b1.0, y)).spec_is_visible();
    let y2 = choose|y: int| g.in_bounds(b2.0, y) && (#[trigger] g.cell_at(b2.0, y)).spec_is_visible();
    let y3 = choose|y: int| g.in_bounds(b1.2, y) && (#[trigger] g.cell_at(b1.2, y)).spec_is_visible();
    let y4 = choose|y: int| g.in_bounds(b2.2, y) && (#[trigger] g.cell_at(b2.2, y)).spec_is_visible();
    let x1 = choose|x: int| g.in_bounds(x, b1.1) && (#[trigger] g.cell_at(x, b1.1)).spec_is_visible();
    let x2 = choose|x: int| g.in_bounds(x, b2.1) && (#[trigger] g.cell_at(x, b2.1)).spec_is_visible();
    let x3 = choose|x: int| g.in_bounds(x, b1.3) && (#[trigger] g.cell_at(x, b1.3)).spec_is_visible();
    let x4 = choose|x: int| g.in_bounds(x, b2.3) && (#[trigger] g.cell_at(x, b2.3)).spec_is_visible();
    assert(b1.0 <= b2.0 && b2.0 <= b1.0);
    assert(b1.2 >= b2.2 && b2.2 >= b1.2);
    assert(b1.1 <= b2.1 && b2.1 <= b1.1);
    assert(b1.3 >= b2.3 && b2.3 >= b1.3);
}

/// The characters of row `y` between columns `x0` (inclusive) and `x1`
/// (exclusive).
pub open spec fn row_chars(g: GridView, y: int, x0: int, x1: int) -> Seq<char> {
    Seq::new((x1 - x0) as nat, |i: int| g.cell_at(x0 + i, y).ch)
}

/// The sequence with its trailing space characters removed.
pub open spec fn trim_spaces(s: Seq<char>) -> Seq<char>
    decreases s.len(),
{
    if s.len() > 0 && s.last() == ' ' {
        trim_spaces(s.drop_last())
    } else {
        s
    }
}

/// `k` space characters (none for a non-positive count).
pub open spec fn spaces(k: int) -> Seq<char> {
    Seq::new(if k < 0 { 0nat } else { k as nat }, |i: int| ' ')
}

/// The line-number prefix of one-based row `n`: the decimal number
/// right-aligned in a field of four, then a separating bar.
pub open spec fn line_prefix(n: int) -> Seq<char> {
    spaces(4 - spec_decimal(n).len()) + spec_decimal(n) + " | "@
}

/// One emitted row of a trimmed export: optional line-number prefix, the
/// columns of the content box, trailing spaces stripped, then the optional
/// width limit.
pub open spec fn trimmed_row(g: GridView, opts: ExportOptions, y: int, x0: int, x1: int) -> Seq<
    char,
> {
    let base = if opts.line_numbers {
        line_prefix(y + 1) + row_chars(g, y, x0, x1)
    } else {
        row_chars(g, y, x0, x1)
    };
    let t = trim_spaces(base);
    if opts.max_width > 0 && t.len() > opts.max_width {
        t.take(opts.max_width as int)
    } else {
        t
    }
}

/// The trimmed export of rows `y..=max_y`, joined by newlines.
pub open spec fn trimmed_rows(
    g: GridView,
    opts: ExportOptions,
    y: int,
    max_y: int,
    x0: int,
    x1: int,
) -> Seq<char>
    decreases max_y - y,
{
    if y > max_y {
        Seq::empty()
    } else if y == max_y {
        trimmed_row(g, opts, y, x0, x1)
    } else {
        trimmed_row(g, opts, y, x0, x1) + seq!['\n'] + trimmed_rows(g, opts, y + 1, max_y, x0, x1)
    }
}

/// The untrimmed export of rows `y..height`, each row verbatim, joined by
/// newlines.
pub open spec fn full_rows(g: GridView, y: int) -> Seq<char>
    decreases g.height - y,
{
    if y >= g.height {
        Seq::empty()
    } else if y == g.height - 1 {
        row_chars(g, y, 0, g.width as int)
    } else {
        row_chars(g, y, 0, g.width as int) + seq!['\n'] + full_rows(g, y + 1)
    }
}

/// The exported text of a grid under the given options: every row verbatim
/// when borders are kept; otherwise nothing for an all-blank grid, and the
/// rows of the tight content box for any other.
pub open spec fn spec_export(g: GridView, opts: ExportOptions) -> Seq<char> {
    if !opts.trim_borders {
        full_rows(g, 0)
    } else if !has_visible(g) {
        Seq::empty()
    } else {
        let b = content_bounds(g);
        trimmed_rows(g, opts, b.1, b.3, b.0, b.2 + 1)
    }
}

/// Find the tight bounding box of visible content, or `None` if no cell is
/// visible.
pub fn find_content_bounds(grid: &Grid) -> (r: Option<(i32, i32, i32, i32)>)
    requires
        grid.inv(),
        grid@.width <= i32::MAX,
        grid@.height <= i32::MAX,
    ensures
        match r {
            Some(b) => has_visible(grid@) && bounds_ok(
                grid@,
                (b.0 as int, b.1 as int, b.2 as int, b.3 as int),
            ) && (b.0 as int, b.1 as int, b.2 as int, b.3 as int) == content_bounds(grid@),
            None => !has_visible(grid@),
        },
{
    let width = grid.width();
    let height = grid.height();
    let mut min_x: i32 = width as i32;
    let mut min_y: i32 = height as i32;
    let mut max_x: i32 = -1;
    let mut max_y: i32 = -1;

    let mut y: usize = 0;
    while y < height
        invariant
            y <= height,
            max_x < 0 ==> {
                &&& min_x == width && min_y == height && max_y == -1
                &&& forall|px: int, py: int|
                    grid@.in_bounds(px, py) && py < y ==> !(#[trigger] grid@.cell_at(
                        px,
                        py,
                    )).spec_is_visible()
            },
            max_x >= 0 ==> {
                &&& 0 <= min_x <= max_x < width
                &&& 0 <= min_y <= max_y < y
                &&& forall|px: int, py: int|
                    grid@.in_bounds(px, py) && py < y && (#[trigger] grid@.cell_at(
                        px,
                        py,
                    )).spec_is_visible() ==> min_x <= px <= max_x && min_y <= py <= max_y
                &&& exists|py: int|
                    grid@.in_bounds(min_x as int, py) && (#[trigger] grid@.cell_at(
                        min_x as int,
                        py,
                    )).spec_is_visible()
                &&& exists|py: int|
                    grid@.in_bounds(max_x as int, py) && (#[trigger] grid@.cell_at(
                        max_x as int,
                        py,
                    )).spec_is_visible()
                &&& exists|px: int|
                    grid@.in_bounds(px, min_y as int) && (#[trigger] grid@.cell_at(
                        px,
                        min_y as int,
                    )).spec_is_visible()
                &&& exists|px: int|
                    grid@.in_bounds(px, max_y as int) && (#[trigger] grid@.cell_at(
                        px,
                        max_y as int,
                    )).spec_is_visible()
            },
        decreases height - y,
    {
        let mut x: usize = 0;
        while x < width
            invariant
                x <= width,
                y < height,
                max_x < 0 ==> {
                    &&& min_x == width && min_y == height && max_y == -1
                    &&& forall|px: int, py: int|
                        grid@.in_bounds(px, py) && (py < y || (py == y && px < x)) ==> !(
                        #[trigger] grid@.cell_at(px, py)).spec_is_visible()
                },
                max_x >= 0 ==> {
                    &&& 0 <= min_x <= max_x < width
                    &&& 0 <= min_y <= max_y <= y
                    &&& forall|px: int, py: int|
                        grid@.in_bounds(px, py) && (py < y || (py == y && px < x)) && (
                        #[trigger] grid@.cell_at(px, py)).spec_is_visible() ==> min_x <= px
                            <= max_x && min_y <= py <= max_y
                    &&& exists|py: int|
                        grid@.in_bounds(min_x as int, py) && (#[trigger] grid@.cell_at(
                            min_x as int,
                            py,
                        )).spec_is_visible()
                    &&& exists|py: int|
                        grid@.in_bounds(max_x as int, py) && (#[trigger] grid@.cell_at(
                            max_x as int,
                            py,
                        )).spec_is_visible()
                    &&& exists|px: int|
                        grid@.in_bounds(px, min_y as int) && (#[trigger] grid@.cell_at(
                            px,
                            min_y as int,
                        )).spec_is_visible()
                    &&& exists|px: int|
                        grid@.in_bounds(px, max_y as int) && (#[trigger] grid@.cell_at(
                            px,
                            max_y as int,
                        )).spec_is_visible()
                },
            decreases width - x,
        {
            let visible = match grid.get(x as i32, y as i32) {
                Some(c) => c.is_visible(),
                None => false,
            };
            if visible {
                if (x as i32) < min_x {
                    min_x = x as i32;
                }
                if (y as i32) < min_y {
                    min_y = y as i32;
                }
                if (x as i32) > max_x {
                    max_x = x as i32;
                }
                if (y as i32) > max_y {
                    max_y = y as i32;
                }
            }
            x = x + 1;
        }
        y = y + 1;
    }

    if max_x < 0 {
        None
    } else {
        proof {
            lemma_bounds_unique(
                grid@,
                (min_x as int, min_y as int, max_x as int, max_y as int),
                content_bounds(grid@),
            );
        }
        Some((min_x, min_y, max_x, max_y))
    }
}

/// Export the grid to text under the given options.
pub fn export_grid(grid: &Grid, options: &ExportOptions) -> (r: String)
    requires
        grid.inv(),
        grid@.width <= i32::MAX,
        grid@.height <= i32::MAX,
    ensures
        r@ == spec_export(grid@, *options),
{
    if options.trim_borders {
        export_trimmed(grid, options)
    } else {
        export_full(grid, options)
    }
}

/// Export the full grid verbatim, with no trimming.
fn export_full(grid: &Grid, _options: &ExportOptions) -> (r: String)
    requires
        grid.inv(),
        grid@.width <= i32::MAX,
        grid@.height <= i32::MAX,
    ensures
        r@ == full_rows(grid@, 0),
{
    let width = grid.width();
    let height = grid.height();
    let mut result = String::new();

    let mut y: usize = 0;
    while y < height
        invariant
            y <= height,
            full_rows(grid@, 0) == result@ + full_rows(grid@, y as int),
        decreases height - y,
    {
        let ghost row_start = result@;
        let mut x: usize = 0;
        while x < width
            invariant
                x <= width,
                y < height,
                result@ == row_start + row_chars(grid@, y as int, 0, x as int),
            decreases width - x,
        {
            let ch = match grid.get(x as i32, y as i32) {
                Some(c) => c.ch,
                None => ' ',
            };
            push_char(&mut result, ch);
            proof {
                assert(result@ =~= row_start + row_chars(grid@, y as int, 0, x + 1));
            }
            x = x + 1;
        }
        if y < height - 1 {
            push_char(&mut result, '\n');
        }
        proof {
            if y < height - 1 {
                assert(result@ =~= row_start + (row_chars(grid@, y as int, 0, grid@.width as int)
                    + seq!['\n']));
                assert(full_rows(grid@, y as int) == row_chars(grid@, y as int, 0, grid@.width as int)
                    + seq!['\n'] + full_rows(grid@, y + 1));
                assert(result@ + full_rows(grid@, y + 1) =~= row_start + full_rows(grid@, y as int));
            } else {
                assert(result@ =~= row_start + row_chars(grid@, y as int, 0, grid@.width as int));
                assert(full_rows(grid@, y as int) == row_chars(grid@, y as int, 0, grid@.width as int));
                assert(result@ + full_rows(grid@, y + 1) =~= row_start + full_rows(grid@, y as int));
            }
        }
        y = y + 1;
    }
    proof {
        if height == 0 {
            assert(full_rows(grid@, 0) =~= result@);
        } else {
            assert(full_rows(grid@, height as int).len() == 0);
            assert(full_rows(grid@, 0) =~= result@);
        }
    }
    result
}

/// Append one trimmed export row for row `y` of the content box to `out`.
fn push_trimmed_row(out: &mut String, grid: &Grid, options: &ExportOptions, y: usize, x0: usize, x1: usize)
    requires
        grid.inv(),
        grid@.width <= i32::MAX,
        grid@.height <= i32::MAX,
        y < grid@.height,
        y + 1 <= i32::MAX,
        x0 <= x1 <= grid@.width,
    ensures
        final(out)@ == old(out)@ + trimmed_row(grid@, *options, y as int, x0 as int, x1 as int),
{
    let mut row: Vec<char> = Vec::new();

    if options.line_numbers {
        push_line_prefix(&mut row, y + 1);
    }
    let ghost prefix = row@;

    let mut x: usize = x0;
    while x < x1
        invariant
            x0 <= x <= x1,
            row@ == prefix + row_chars(grid@, y as int, x0 as int, x as int),
        decreases x1 - x,
    {
        let ch = match grid.get(x as i32, y as i32) {
            Some(c) => c.ch,
            None => ' ',
        };
        row.push(ch);
        proof {
            assert(row@ =~= prefix + row_chars(grid@, y as int, x0 as int, x + 1));
        }
        x = x + 1;
    }

    // Strip trailing spaces.
    let ghost built = row@;
    let mut keep: usize = row.len();
    proof {
        assert(built.take(keep as int) =~= built);
    }
    while keep > 0 && row[keep - 1] == ' '
        invariant
            keep <= row@.len(),
            row@ == built,
            trim_spaces(built) == trim_spaces(built.take(keep as int)),
        decreases keep,
    {
        proof {
            assert(built.take(keep as int).last() == ' ');
            assert(built.take(keep as int).drop_last() =~= built.take(keep - 1));
        }
        keep = keep - 1;
    }
    row.truncate(keep);
    proof {
        assert(built.take(keep as int).len() == 0 || built.take(keep as int).last() != ' ');
        assert(trim_spaces(built.take(keep as int)) == built.take(keep as int));
        assert(row@ == trim_spaces(prefix + row_chars(grid@, y as int, x0 as int, x1 as int)));
    }

    // Apply the width limit.
    if options.max_width > 0 && row.len() > options.max_width {
        row.truncate(options.max_width);
    }

    let n = row.len();
    let mut i: usize = 0;
    while i < n
        invariant
            i <= n,
            n == row@.len(),
            out@ == old(out)@ + row@.take(i as int),
        decreases n - i,
    {
        push_char(out, row[i]);
        proof {
            assert(out@ =~= old(out)@ + row@.take(i + 1));
        }
        i = i + 1;
    }
    proof {
        assert(row@.take(n as int) =~= row@);
    }
}

/// Append the line-number prefix for the one-based row number `n`.
fn push_line_prefix(row: &mut Vec<char>, n: usize)
    ensures
        final(row)@ == old(row)@ + line_prefix(n as int),
{
    let digits = count_digits(n);
    let mut pad: usize = 0;
    let pad_total: usize = if digits < 4 {
        4 - digits
    } else {
        0
    };
    proof {
        assert(spaces(4 - spec_decimal(n as int).len()).len() == pad_total);
    }
    while pad < pad_total
        invariant
            pad <= pad_total,
            row@ == old(row)@ + spaces(pad as int),
        decreases pad_total - pad,
    {
        row.push(' ');
        proof {
            assert(row@ =~= old(row)@ + spaces(pad + 1));
        }
        pad = pad + 1;
    }
    proof {
        assert(spaces(pad_total as int) =~= spaces(4 - spec_decimal(n as int).len()));
    }
    push_decimal_chars(row, n);
    row.push(' ');
    row.push('|');
    row.push(' ');
    proof {
        reveal_strlit(" | ");
        assert(" | "@ =~= seq![' ', '|', ' ']);
        assert(row@ =~= old(row)@ + line_prefix(n as int));
    }
}

/// The number of decimal digits of `n`.
fn count_digits(n: usize) -> (r: usize)
    ensures
        r == spec_decimal(n as int).len(),
    decreases n,
{
    if n < 10 {
        1
    } else {
        let rest = count_digits(n / 10);
        proof {
            assert(spec_decimal(n as int).len() == spec_decimal(n as int / 10).len() + 1);
            crate::strutil::lemma_decimal_len(n as int / 10);
        }
        rest + 1
    }
}

/// Append the decimal digits of `n` to a character vector.
fn push_decimal_chars(row: &mut Vec<char>, n: usize)
    ensures
        final(row)@ == old(row)@ + spec_decimal(n as int),
    decreases n,
{
    if n < 10 {
        let d = (0x30 + n) as u8;
        row.push(d as char);
        proof {
            assert(row@ =~= old(row)@ + spec_decimal(n as int));
        }
    } else {
        push_decimal_chars(row, n / 10);
        let d = (0x30 + n % 10) as u8;
        row.push(d as char);
        proof {
            assert(row@ =~= old(row)@ + spec_decimal(n as int / 10).push(digit_char(n as int % 10)));
            assert(old(row)@ + spec_decimal(n as int / 10).push(digit_char(n as int % 10)) =~= old(
                row,
            )@ + spec_decimal(n as int));
        }
    }
}

/// Export with trimmed empty borders.
fn export_trimmed(grid: &Grid, options: &ExportOptions) -> (r: String)
    requires
        grid.inv(),
        grid@.width <= i32::MAX,
        grid@.height <= i32::MAX,
        options.trim_borders,
    ensures
        r@ == spec_export(grid@, *options),
{
    let bounds = find_content_bounds(grid);

    match bounds {
        None => String::new(),
        Some((min_x, min_y, max_x, max_y)) => {
            let mut result = String::new();
            let x0 = min_x as usize;
            let x1 = max_x as usize + 1;
            push_trimmed_rows(&mut result, grid, options, min_y as usize, max_y as usize, x0, x1);
            proof {
                assert(Seq::<char>::empty() + trimmed_rows(
                    grid@,
                    *options,
                    min_y as int,
                    max_y as int,
                    x0 as int,
                    x1 as int,
                ) =~= spec_export(grid@, *options));
            }
            result
        },
    }
}


/// Append the trimmed export rows `y_lo..=y_hi`, joined by newlines.
fn push_trimmed_rows(
    out: &mut String,
    grid: &Grid,
    options: &ExportOptions,
    y_lo: usize,
    y_hi: usize,
    x0: usize,
    x1: usize,
)
    requires
        grid.inv(),
        grid@.width <= i32::MAX,
        grid@.height <= i32::MAX,
        y_lo <= y_hi,
        y_hi < grid@.height,
        x0 <= x1 <= grid@.width,
    ensures
        final(out)@ == old(out)@ + trimmed_rows(
            grid@,
            *options,
            y_lo as int,
            y_hi as int,
            x0 as int,
            x1 as int,
        ),
{
    let mut y: usize = y_lo;
    while y <= y_hi
        invariant
            y_lo <= y <= y_hi + 1,
            y_hi < grid@.height,
            x0 <= x1 <= grid@.width,
            old(out)@ + trimmed_rows(grid@, *options, y_lo as int, y_hi as int, x0 as int, x1 as int)
                == out@ + trimmed_rows(grid@, *options, y as int, y_hi as int, x0 as int, x1 as int),
        decreases y_hi + 1 - y,
    {
        let ghost before = out@;
        push_trimmed_row(out, grid, options, y, x0, x1);
        if y < y_hi {
            push_char(out, '\n');
            proof {
                assert(out@ =~= before + (trimmed_row(grid@, *options, y as int, x0 as int, x1 as int)
                    + seq!['\n']));
                assert(out@ + trimmed_rows(grid@, *options, y + 1, y_hi as int, x0 as int, x1 as int)
                    =~= before + trimmed_rows(grid@, *options, y as int, y_hi as int, x0 as int, x1 as int));
            }
        } else {
            proof {
                assert(trimmed_rows(grid@, *options, y as int, y_hi as int, x0 as int, x1 as int)
                    == trimmed_row(grid@, *options, y as int, x0 as int, x1 as int));
                assert(out@ + trimmed_rows(grid@, *options, y + 1, y_hi as int, x0 as int, x1 as int)
                    =~= before + trimmed_rows(grid@, *options, y as int, y_hi as int, x0 as int, x1 as int));
            }
        }
        y = y + 1;
    }
    proof {
        assert(trimmed_rows(grid@, *options, y_hi + 1, y_hi as int, x0 as int, x1 as int).len() == 0);
        assert(out@ + trimmed_rows(grid@, *options, y as int, y_hi as int, x0 as int, x1 as int)
            =~= out@);
    }
}

/// Export a rectangular region of the grid, clipped to the grid, with each
/// row's trailing spaces stripped and rows joined by newlines. A region
/// entirely outside the grid yields the empty string.
pub fn export_region(grid: &Grid, x1: i32, y1: i32, x2: i32, y2: i32) -> (r: String)
    requires
        grid.inv(),
        grid@.width <= i32::MAX,
        grid@.height <= i32::MAX,
    ensures
        r@ == spec_export_region(grid@, x1 as int, y1 as int, x2 as int, y2 as int),
{
    let width = grid.width();
    let height = grid.height();
    let lo_x: usize = if x1 < x2 {
        if x1 < 0 { 0 } else { x1 as usize }
    } else {
        if x2 < 0 { 0 } else { x2 as usize }
    };
    let lo_y: usize = if y1 < y2 {
        if y1 < 0 { 0 } else { y1 as usize }
    } else {
        if y2 < 0 { 0 } else { y2 as usize }
    };
    let top_x: i32 = if x1 < x2 { x2 } else { x1 };
    let top_y: i32 = if y1 < y2 { y2 } else { y1 };

    if top_x < 0 || top_y < 0 || lo_x >= width || lo_y >= height || width == 0 || height == 0 {
        let r = String::new();
        return r;
    }

    let hi_x: usize = if (top_x as usize) < width {
        top_x as usize
    } else {
        width - 1
    };
    let hi_y: usize = if (top_y as usize) < height {
        top_y as usize
    } else {
        height - 1
    };

    let opts = ExportOptions { trim_borders: true, line_numbers: false, max_width: 0 };
    let mut result = String::new();
    push_trimmed_rows(&mut result, grid, &opts, lo_y, hi_y, lo_x, hi_x + 1);
    proof {
        assert(Seq::<char>::empty() + trimmed_rows(
            grid@,
            opts,
            lo_y as int,
            hi_y as int,
            lo_x as int,
            hi_x + 1,
        ) =~= spec_export_region(grid@, x1 as int, y1 as int, x2 as int, y2 as int));
    }
    result
}

/// The text of an exported region: the clipped rows with trailing spaces
/// stripped, joined by newlines; empty when the region misses the grid.
pub open spec fn spec_export_region(g: GridView, x1: int, y1: int, x2: int, y2: int) -> Seq<char> {
    let lo_x = clip_low(if x1 < x2 { x1 } else { x2 });
    let lo_y = clip_low(if y1 < y2 { y1 } else { y2 });
    let top_x = if x1 < x2 { x2 } else { x1 };
    let top_y = if y1 < y2 { y2 } else { y1 };
    let opts = ExportOptions { trim_borders: true, line_numbers: false, max_width: 0 };
    if top_x < 0 || top_y < 0 || lo_x >= g.width || lo_y >= g.height || g.width == 0 || g.height == 0 {
        Seq::empty()
    } else {
        let hi_x = if top_x < g.width { top_x } else { g.width - 1 };
        let hi_y = if top_y < g.height { top_y } else { g.height - 1 };
        trimmed_rows(g, opts, lo_y, hi_y, lo_x, hi_x + 1)
    }
}

/// A coordinate raised to at least zero.
pub open spec fn clip_low(v: int) -> int {
    if v < 0 {
        0
    } else {
        v
    }
}

/// The number of visible cells in a flat cell sequence.
pub open spec fn visible_count(cells: Seq<Cell>) -> int
    decreases cells.len(),
{
    if cells.len() == 0 {
        0
    } else {
        visible_count(cells.drop_last()) + if cells.last().spec_is_visible() {
            1int
        } else {
            0int
        }
    }
}

/// Count the visible (non-whitespace) cells of the grid.
pub fn count_content(grid: &Grid) -> (r: usize)
    requires
        grid.inv(),
    ensures
        r == visible_count(grid@.cells),
{
    let cells = grid.cells();
    let n = cells.len();
    let mut count: usize = 0;
    let mut i: usize = 0;
    while i < n
        invariant
            i <= n,
            n == grid@.cells.len(),
            count == visible_count(grid@.cells.take(i as int)),
            count <= i,
        decreases n - i,
    {
        if cells[i].is_visible() {
            count = count + 1;
        }
        proof {
            assert(grid@.cells.take(i + 1).drop_last() =~= grid@.cells.take(i as int));
            assert(grid@.cells.take(i + 1).last() == grid@.cells[i as int]);
        }
        i = i + 1;
    }
    proof {
        assert(grid@.cells.take(n as int) =~= grid@.cells);
    }
    count
}

} // verus!
