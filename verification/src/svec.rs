//! Trusted buffers over the `smallvec` crate. The tools keep their pending
//! operations, typed characters and captured cells in small vectors; Verus
//! does not read the collection's implementation, so each buffer type holds
//! its vector in an opaque struct, a spec name stands for its contents, and
//! every method the tools call gets a thin wrapper whose contract states
//! what the crate's source shows.

use smallvec::SmallVec;

use vstd::prelude::*;

use crate::cell::Cell;
use crate::tools::DrawOp;

verus! {

/// A buffer of pending draw operations, backed by `smallvec::SmallVec`.
#[verifier::external_body]
pub struct OpBuffer {
    buf: SmallVec<[DrawOp; 128]>,
}

/// The draw operations held by an operation buffer, in order.
pub uninterp spec fn op_buffer_view(v: OpBuffer) -> Seq<DrawOp>;

/// A buffer of typed characters, backed by `smallvec::SmallVec`.
#[verifier::external_body]
pub struct CharBuffer {
    buf: SmallVec<[char; 64]>,
}

/// The characters held by a character buffer, in order.
pub uninterp spec fn char_buffer_view(v: CharBuffer) -> Seq<char>;

/// A buffer of captured cells, backed by `smallvec::SmallVec`.
#[verifier::external_body]
pub struct CellBuffer {
    buf: SmallVec<[Cell; 256]>,
}

/// The cells held by a cell buffer, in order.
pub uninterp spec fn cell_buffer_view(v: CellBuffer) -> Seq<Cell>;

impl OpBuffer {
    /// Relies on `SmallVec::new`: constructs an empty vector.
    #[verifier::external_body]
    pub fn new() -> (r: OpBuffer)
        ensures
            op_buffer_view(r) == Seq::<DrawOp>::empty(),
    {
        OpBuffer { buf: SmallVec::new() }
    }

    /// Relies on `SmallVec::push`: appends the value at the end.
    #[verifier::external_body]
    pub fn push(&mut self, op: DrawOp)
        ensures
            op_buffer_view(*final(self)) == op_buffer_view(*old(self)).push(op),
    {
        self.buf.push(op);
    }

    /// Relies on `SmallVec::clear`: removes all elements.
    #[verifier::external_body]
    pub fn clear(&mut self)
        ensures
            op_buffer_view(*final(self)) == Seq::<DrawOp>::empty(),
    {
        self.buf.clear();
    }

    /// Relies on `SmallVec`'s deref to a slice of its elements and
    /// `slice::to_vec`: copies the elements out in order.
    #[verifier::external_body]
    pub fn to_vec(&self) -> (r: Vec<DrawOp>)
        ensures
            r@ == op_buffer_view(*self),
    {
        self.buf.to_vec()
    }

    /// Relies on `SmallVec::len`: the number of elements held.
    #[verifier::external_body]
    pub fn len(&self) -> (r: usize)
        ensures
            r == op_buffer_view(*self).len(),
    {
        self.buf.len()
    }
}

impl CharBuffer {
    /// Relies on `SmallVec::new`: constructs an empty vector.
    #[verifier::external_body]
    pub fn new() -> (r: CharBuffer)
        ensures
            char_buffer_view(r) == Seq::<char>::empty(),
    {
        CharBuffer { buf: SmallVec::new() }
    }

    /// Relies on `SmallVec::push`: appends the value at the end.
    #[verifier::external_body]
    pub fn push(&mut self, c: char)
        ensures
            char_buffer_view(*final(self)) == char_buffer_view(*old(self)).push(c),
    {
        self.buf.push(c);
    }

    /// Relies on `SmallVec::pop`: removes and returns the last element, or
    /// `None` when the vector is empty.
    #[verifier::external_body]
    pub fn pop(&mut self) -> (r: Option<char>)
        ensures
            match r {
                Some(c) => char_buffer_view(*old(self)).len() > 0 && c == char_buffer_view(
                    *old(self),
                ).last() && char_buffer_view(*final(self)) == char_buffer_view(
                    *old(self),
                ).drop_last(),
                None => char_buffer_view(*old(self)).len() == 0 && char_buffer_view(*final(self))
                    == char_buffer_view(*old(self)),
            },
    {
        self.buf.pop()
    }

    /// Relies on `SmallVec::remove`: removes and returns the element at the
    /// index, shifting the rest left. The index must be in range, as the
    /// call panics otherwise.
    #[verifier::external_body]
    pub fn remove(&mut self, index: usize) -> (r: char)
        requires
            index < char_buffer_view(*old(self)).len(),
        ensures
            r == char_buffer_view(*old(self))[index as int],
            char_buffer_view(*final(self)) == char_buffer_view(*old(self)).remove(index as int),
    {
        self.buf.remove(index)
    }

    /// Relies on `SmallVec::len`: the number of elements held.
    #[verifier::external_body]
    pub fn len(&self) -> (r: usize)
        ensures
            r == char_buffer_view(*self).len(),
    {
        self.buf.len()
    }

    /// Relies on `SmallVec::clear`: removes all elements.
    #[verifier::external_body]
    pub fn clear(&mut self)
        ensures
            char_buffer_view(*final(self)) == Seq::<char>::empty(),
    {
        self.buf.clear();
    }

    /// Relies on `SmallVec`'s deref to a slice of its elements: reads the
    /// element at the index, which must be in range as indexing panics
    /// otherwise.
    #[verifier::external_body]
    pub fn get(&self, index: usize) -> (r: char)
        requires
            index < char_buffer_view(*self).len(),
        ensures
            r == char_buffer_view(*self)[index as int],
    {
        self.buf[index]
    }
}

impl CellBuffer {
    /// Relies on `SmallVec::new`: constructs an empty vector.
    #[verifier::external_body]
    pub fn new() -> (r: CellBuffer)
        ensures
            cell_buffer_view(r) == Seq::<Cell>::empty(),
    {
        CellBuffer { buf: SmallVec::new() }
    }

    /// Relies on `SmallVec::with_capacity`: constructs an empty vector with
    /// room reserved.
    #[verifier::external_body]
    pub fn with_capacity(n: usize) -> (r: CellBuffer)
        ensures
            cell_buffer_view(r) == Seq::<Cell>::empty(),
    {
        CellBuffer { buf: SmallVec::with_capacity(n) }
    }

    /// Relies on `SmallVec::push`: appends the value at the end.
    #[verifier::external_body]
    pub fn push(&mut self, c: Cell)
        ensures
            cell_buffer_view(*final(self)) == cell_buffer_view(*old(self)).push(c),
    {
        self.buf.push(c);
    }

    /// Relies on `SmallVec::clear`: removes all elements.
    #[verifier::external_body]
    pub fn clear(&mut self)
        ensures
            cell_buffer_view(*final(self)) == Seq::<Cell>::empty(),
    {
        self.buf.clear();
    }

    /// Relies on `SmallVec::len`: the number of elements held.
    #[verifier::external_body]
    pub fn len(&self) -> (r: usize)
        ensures
            r == cell_buffer_view(*self).len(),
    {
        self.buf.len()
    }
}

} // verus!
