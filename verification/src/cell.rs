//! A single character cell of the grid: a code point plus style flags.

use vstd::prelude::*;

verus! {

/// Style flags for cell rendering, stored as a bitmask.
///
/// The individual flags are bold, italic, underline and highlight;
/// they are combined with [`CellStyle::union`] and queried with
/// [`CellStyle::contains`].
#[derive(Clone, Copy, Debug, PartialEq, Eq, Structural)]
pub struct CellStyle {
    /// The raw flag bits.
    pub bits: u8,
}

impl CellStyle {
    /// The empty style: no flags set.
    pub fn empty() -> (r: CellStyle)
        ensures
            r.bits == 0,
    {
        CellStyle { bits: 0 }
    }

    /// Bold text.
    pub fn bold() -> (r: CellStyle)
        ensures
            r.bits == 1u8,
    {
        CellStyle { bits: 1 }
    }

    /// Italic text.
    pub fn italic() -> (r: CellStyle)
        ensures
            r.bits == 2u8,
    {
        CellStyle { bits: 2 }
    }

    /// Underlined text.
    pub fn underline() -> (r: CellStyle)
        ensures
            r.bits == 4u8,
    {
        CellStyle { bits: 4 }
    }

    /// Highlighted/selected text.
    pub fn highlight() -> (r: CellStyle)
        ensures
            r.bits == 8u8,
    {
        CellStyle { bits: 8 }
    }

    /// True if no flag is set.
    pub fn is_empty(&self) -> (r: bool)
        ensures
            r == (self.bits == 0),
    {
        self.bits == 0
    }

    /// True if every flag of `other` is also set in `self`.
    pub fn contains(&self, other: CellStyle) -> (r: bool)
        ensures
            r == (self.bits & other.bits == other.bits),
    {
        self.bits & other.bits == other.bits
    }

    /// The style holding the flags of both operands.
    pub fn union(self, other: CellStyle) -> (r: CellStyle)
        ensures
            r.bits == self.bits | other.bits,
    {
        CellStyle { bits: self.bits | other.bits }
    }

    /// Build a style from raw bits.
    pub fn from_bits(bits: u8) -> (r: CellStyle)
        ensures
            r.bits == bits,
    {
        CellStyle { bits }
    }
}

impl Default for CellStyle {
    /// The default style is empty.
    fn default() -> (r: Self)
        ensures
            r.bits == 0,
    {
        CellStyle { bits: 0 }
    }
}

/// True for the code points that count as whitespace: a cell whose
/// character satisfies this is not visible.
pub open spec fn spec_is_whitespace(c: char) -> bool {
    c == ' ' || c == '\t' || c == '\n' || c == '\u{0b}' || c == '\u{0c}' || c == '\r'
        || c == '\u{85}' || c == '\u{a0}' || c == '\u{1680}'
        || ('\u{2000}' <= c && c <= '\u{200a}')
        || c == '\u{2028}' || c == '\u{2029}' || c == '\u{202f}' || c == '\u{205f}'
        || c == '\u{3000}'
}

/// A single cell in the character grid.
#[derive(Clone, Copy, Debug, PartialEq, Eq, Structural)]
pub struct Cell {
    /// The character in this cell (default: space).
    pub ch: char,
    /// Cell style flags for rendering.
    pub style: CellStyle,
}

impl Cell {
    /// The default cell value: a space with no style.
    pub open spec fn spec_default() -> Cell {
        Cell { ch: ' ', style: CellStyle { bits: 0 } }
    }

    /// True if the cell's character is not a whitespace code point.
    pub open spec fn spec_is_visible(self) -> bool {
        !spec_is_whitespace(self.ch)
    }

    /// Create a new cell with the given character and no style.
    pub fn new(ch: char) -> (r: Self)
        ensures
            r == (Cell { ch, style: CellStyle { bits: 0 } }),
    {
        Cell { ch, style: CellStyle { bits: 0 } }
    }

    /// Create a cell with character and style.
    pub fn with_style(ch: char, style: CellStyle) -> (r: Self)
        ensures
            r == (Cell { ch, style }),
    {
        Cell { ch, style }
    }

    /// Check if this cell holds the space character.
    pub fn is_empty(&self) -> (r: bool)
        ensures
            r == (self.ch == ' '),
    {
        self.ch == ' '
    }

    /// Check if this cell contains a visible (non-whitespace) character.
    pub fn is_visible(&self) -> (r: bool)
        ensures
            r == self.spec_is_visible(),
    {
        !(self.ch == ' ' || self.ch == '\t' || self.ch == '\n' || self.ch == '\u{0b}'
            || self.ch == '\u{0c}' || self.ch == '\r' || self.ch == '\u{85}'
            || self.ch == '\u{a0}' || self.ch == '\u{1680}'
            || ('\u{2000}' <= self.ch && self.ch <= '\u{200a}')
            || self.ch == '\u{2028}' || self.ch == '\u{2029}' || self.ch == '\u{202f}'
            || self.ch == '\u{205f}' || self.ch == '\u{3000}')
    }

    /// Clear the cell to its default state.
    pub fn clear(&mut self)
        ensures
            *final(self) == Cell::spec_default(),
    {
        self.ch = ' ';
        self.style = CellStyle { bits: 0 };
    }

    /// Set the character, keeping the style.
    pub fn set_char(&mut self, ch: char)
        ensures
            *final(self) == (Cell { ch, style: old(self).style }),
    {
        self.ch = ch;
    }
}

impl Default for Cell {
    /// The default cell is a space with no style.
    fn default() -> (r: Self)
        ensures
            r == Cell::spec_default(),
    {
        Cell { ch: ' ', style: CellStyle { bits: 0 } }
    }
}

} // verus!
