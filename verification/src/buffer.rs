//! The capabilities that an owner of memory offers to a DMA engine.
//!
//! An owner answers a query with a window `(address, length in words)`. The
//! code that starts a transfer programs the engine with that window and
//! keeps the owner until the engine is done.

use vstd::layout::size_of;
use vstd::prelude::*;

verus! {

/// Whether a window of `len` words of `width` bytes each, starting at `addr`,
/// ends inside the address space.
pub open spec fn in_memory(addr: usize, len: usize, width: nat) -> bool {
    addr + len * width <= usize::MAX
}

/// The address of the word `offset` words after `base`, for words of `width`
/// bytes.
pub open spec fn word_address(base: usize, offset: int, width: nat) -> int {
    base + offset * width
}

/// A part of a window that ends inside the address space starts and ends
/// inside it as well.
pub proof fn lemma_part_in_memory(base: usize, total: usize, start: int, len: int, width: nat)
    requires
        in_memory(base, total, width),
        0 <= start,
        0 <= len,
        start + len <= total,
    ensures
        base <= word_address(base, start, width),
        word_address(base, start, width) + len * width <= usize::MAX,
{
    assert((start + len) * width <= total * width) by (nonlinear_arith)
        requires
            start + len <= total,
            0 <= width,
    ;
    assert((start + len) * width == start * width + len * width) by (nonlinear_arith);
    assert(0 <= start * width && 0 <= len * width) by (nonlinear_arith)
        requires
            0 <= start,
            0 <= len,
            0 <= width,
    ;
}

/// The part `[start, end)` of the window `(base, total)`, for words of `width`
/// bytes.
pub(crate) fn sub_window(
    base: usize,
    total: Ghost<usize>,
    start: usize,
    end: usize,
    width: usize,
) -> (w: (usize, usize))
    requires
        start <= end <= total@,
        in_memory(base, total@, width as nat),
    ensures
        w.0 == word_address(base, start as int, width as nat),
        w.1 == end - start,
        in_memory(w.0, w.1, width as nat),
{
    proof {
        lemma_part_in_memory(base, total@, start as int, end - start, width as nat);
    }
    (base + start * width, end - start)
}

/// An owner of memory that a DMA engine may read from.
///
/// The window is a function of the owner's value: as long as the owner is
/// not changed, every query gives the same window. The window ends inside
/// the address space.
///
/// What cannot be said over values stays the implementer's promise: that the
/// window is memory which the owner keeps alive, at that address, until the
/// owner is dropped.
pub trait ReadBuffer {
    /// The unit in which the window is counted.
    type Word;

    /// The window that the owner exposes: the address of its first word and
    /// its length in words.
    spec fn read_window(&self) -> (usize, usize);

    /// Provides the window for a DMA read.
    fn read_buffer(&self) -> (w: (usize, usize))
        ensures
            w == self.read_window(),
            in_memory(w.0, w.1, size_of::<Self::Word>()),
    ;
}

/// An owner of memory that a DMA engine may write to.
///
/// A query may change the owner, to prepare the memory, but never the
/// window: the owner that a query leaves behind exposes the window that the
/// query returned. The window ends inside the address space.
///
/// What cannot be said over values stays the implementer's promise: that the
/// window is memory which the owner keeps alive, at that address, until the
/// owner is dropped, and that any pattern of bits may be written to it.
pub trait WriteBuffer {
    /// The unit in which the window is counted.
    type Word;

    /// The window that the owner exposes: the address of its first word and
    /// its length in words.
    spec fn write_window(&self) -> (usize, usize);

    /// Provides the window for a DMA write.
    fn write_buffer(&mut self) -> (w: (usize, usize))
        ensures
            w == old(self).write_window(),
            final(self).write_window() == old(self).write_window(),
            in_memory(w.0, w.1, size_of::<Self::Word>()),
    ;
}

/// Queries an owner twice in a row. Nothing changes the owner in between,
/// so both answers are the same window.
pub fn read_buffer_twice<B: ReadBuffer>(owner: &B) -> (w: ((usize, usize), (usize, usize)))
    ensures
        w.0 == w.1,
        w.0 == owner.read_window(),
{
    let first = owner.read_buffer();
    let second = owner.read_buffer();
    (first, second)
}

/// Queries an owner for writing twice in a row. The first query may change
/// the owner, but not its window, so both answers are the same window, and
/// it is the window of the owner that is left.
pub fn write_buffer_twice<B: WriteBuffer>(owner: &mut B) -> (w: ((usize, usize), (usize, usize)))
    ensures
        w.0 == w.1,
        w.0 == old(owner).write_window(),
        final(owner).write_window() == old(owner).write_window(),
{
    let first = owner.write_buffer();
    let second = owner.write_buffer();
    (first, second)
}

} // verus!
