//! Slices of a buffer that are cut to size on every query.
//!
//! Such a slice keeps the request as it was made and never refuses one. Each
//! query asks the owner for its window anew and cuts the request down to the
//! length that the owner reports then: what lies past the end of the buffer
//! is left out, and a request that lies past it altogether leaves the empty
//! window at the buffer's end.

use crate::buffer::{in_memory, sub_window, word_address, ReadBuffer, WriteBuffer};
use crate::range::{clamp, clamped_window, min_of, BufferRange};
use core::mem::size_of;
use vstd::prelude::*;

verus! {

/// The part of `window` that the stored bounds `lower` and `upper` leave, for
/// words of `width` bytes: it starts as many words into `window` as the
/// bounds, cut down to the window's length, say.
pub open spec fn window_part(window: (usize, usize), lower: int, upper: int, width: nat) -> (
    usize,
    usize,
) {
    let (start, end) = clamped_window(lower, upper, window.1 as int);
    (word_address(window.0, start, width) as usize, (end - start) as usize)
}

/// Cuts the window `(base, total)` down to the stored bounds.
fn cut(base: usize, total: usize, lower: usize, upper: usize, width: usize) -> (w: (usize, usize))
    requires
        in_memory(base, total, width as nat),
    ensures
        w == window_part((base, total), lower as int, upper as int, width as nat),
        w.0 == word_address(
            base,
            clamped_window(lower as int, upper as int, total as int).0,
            width as nat,
        ),
        in_memory(w.0, w.1, width as nat),
{
    let part = clamp(lower, upper, total);
    sub_window(base, Ghost(total), part.start, part.end, width)
}

/// A part of a buffer that a DMA engine may read from, cut to the buffer's
/// length on every query, with the owner of the whole buffer inside.
pub struct ClampedReadBufferSlice<T: ReadBuffer> {
    inner: T,
    start: usize,
    end: usize,
}

impl<T: ReadBuffer> ClampedReadBufferSlice<T> {
    /// The owner of the whole buffer.
    pub closed spec fn owner(self) -> T {
        self.inner
    }

    /// The first word that was asked for.
    pub closed spec fn lower(self) -> int {
        self.start as int
    }

    /// One past the last word that was asked for; `usize::MAX` where the end
    /// was left open.
    pub closed spec fn upper(self) -> int {
        self.end as int
    }

    /// Whether `w` is the part of the owner's window that the request, cut
    /// down to the window's length, leaves: `w` starts as many words into
    /// the owner's window as the cut-down request, and is as long.
    pub open spec fn cuts_to(self, w: (usize, usize)) -> bool {
        let (base, total) = self.owner().read_window();
        let (start, end) = clamped_window(self.lower(), self.upper(), total as int);
        &&& w.0 == word_address(base, start, vstd::layout::size_of::<T::Word>())
        &&& w.1 == end - start
    }

    /// Keeps `inner` and the request `range` for later. Nothing is checked
    /// and the owner is not asked.
    pub fn new<R: BufferRange>(inner: T, range: R) -> (s: Self)
        ensures
            s.owner() == inner,
            s.lower() == range.shape().lower(),
            s.upper() == min_of(range.shape().upper(usize::MAX as int), usize::MAX as int),
            s.read_window() == window_part(
                inner.read_window(),
                s.lower(),
                s.upper(),
                vstd::layout::size_of::<T::Word>(),
            ),
    {
        let (start, end) = range.into_shape().bounds();
        Self { inner, start, end }
    }

    /// Takes the slice apart and gives the owner of the whole buffer back.
    pub fn inner(self) -> (owner: T)
        ensures
            owner == self.owner(),
    {
        self.inner
    }
}

impl<T: ReadBuffer> ReadBuffer for ClampedReadBufferSlice<T> {
    type Word = T::Word;

    closed spec fn read_window(&self) -> (usize, usize) {
        window_part(
            self.inner.read_window(),
            self.start as int,
            self.end as int,
            vstd::layout::size_of::<T::Word>(),
        )
    }

    /// Asks the owner for its window and provides the part of it that the
    /// request, cut down to the window's length, leaves.
    fn read_buffer(&self) -> (w: (usize, usize))
        ensures
            self.cuts_to(w),
    {
        let (base, total) = self.inner.read_buffer();
        cut(base, total, self.start, self.end, size_of::<T::Word>())
    }
}

/// A part of a buffer that a DMA engine may write to, cut to the buffer's
/// length on every query, with the owner of the whole buffer inside.
pub struct ClampedWriteBufferSlice<T: WriteBuffer> {
    inner: T,
    start: usize,
    end: usize,
}

impl<T: WriteBuffer> ClampedWriteBufferSlice<T> {
    /// The owner of the whole buffer.
    pub closed spec fn owner(self) -> T {
        self.inner
    }

    /// The first word that was asked for.
    pub closed spec fn lower(self) -> int {
        self.start as int
    }

    /// One past the last word that was asked for; `usize::MAX` where the end
    /// was left open.
    pub closed spec fn upper(self) -> int {
        self.end as int
    }

    /// Whether `w` is the part of the owner's window that the request, cut
    /// down to the window's length, leaves: `w` starts as many words into
    /// the owner's window as the cut-down request, and is as long.
    pub open spec fn cuts_to(self, w: (usize, usize)) -> bool {
        let (base, total) = self.owner().write_window();
        let (start, end) = clamped_window(self.lower(), self.upper(), total as int);
        &&& w.0 == word_address(base, start, vstd::layout::size_of::<T::Word>())
        &&& w.1 == end - start
    }

    /// Keeps `inner` and the request `range` for later. Nothing is checked
    /// and the owner is not asked.
    pub fn new<R: BufferRange>(inner: T, range: R) -> (s: Self)
        ensures
            s.owner() == inner,
            s.lower() == range.shape().lower(),
            s.upper() == min_of(range.shape().upper(usize::MAX as int), usize::MAX as int),
            s.write_window() == window_part(
                inner.write_window(),
                s.lower(),
                s.upper(),
                vstd::layout::size_of::<T::Word>(),
            ),
    {
        let (start, end) = range.into_shape().bounds();
        Self { inner, start, end }
    }

    /// Takes the slice apart and gives the owner of the whole buffer back.
    pub fn inner(self) -> (owner: T)
        ensures
            owner == self.owner(),
    {
        self.inner
    }
}

impl<T: WriteBuffer> WriteBuffer for ClampedWriteBufferSlice<T> {
    type Word = T::Word;

    closed spec fn write_window(&self) -> (usize, usize) {
        window_part(
            self.inner.write_window(),
            self.start as int,
            self.end as int,
            vstd::layout::size_of::<T::Word>(),
        )
    }

    /// Asks the owner for its window, which is the one query that may change
    /// the owner, and provides the part of the window that the request, cut
    /// down to the window's length, leaves. The request stays as it was.
    fn write_buffer(&mut self) -> (w: (usize, usize))
        ensures
            old(self).cuts_to(w),
            final(self).lower() == old(self).lower(),
            final(self).upper() == old(self).upper(),
            final(self).owner().write_window() == old(self).owner().write_window(),
    {
        let (base, total) = self.inner.write_buffer();
        cut(base, total, self.start, self.end, size_of::<T::Word>())
    }
}

} // verus!
