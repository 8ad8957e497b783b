//! Slices of a buffer that are checked once, when they are made.
//!
//! A slice takes the owner in, asks it for its window a single time, and
//! holds the requested part of that window from then on. A request that
//! does not fit is refused at once. The owner comes back whole when the
//! slice is taken apart.

use crate::buffer::{
    in_memory, lemma_part_in_memory, sub_window, word_address, ReadBuffer, WriteBuffer,
};
use crate::range::{BufferRange, RangeShape};
use core::mem::size_of;
use vstd::prelude::*;

verus! {

/// A part of a buffer that a DMA engine may read from, with the owner of the
/// whole buffer inside.
pub struct ReadBufferSlice<T: ReadBuffer> {
    ptr: usize,
    len: usize,
    start: Ghost<int>,
    inner: T,
}

impl<T: ReadBuffer> ReadBufferSlice<T> {
    #[verifier::type_invariant]
    spec fn well_formed(self) -> bool {
        let (base, total) = self.inner.read_window();
        &&& 0 <= self.start@
        &&& self.start@ + self.len <= total
        &&& self.ptr == word_address(base, self.start@, vstd::layout::size_of::<T::Word>())
        &&& in_memory(base, total, vstd::layout::size_of::<T::Word>())
    }

    /// The owner of the whole buffer.
    pub closed spec fn owner(self) -> T {
        self.inner
    }

    /// The position in the owner's window, in words, at which the slice
    /// starts.
    pub closed spec fn offset(self) -> int {
        self.start@
    }

    /// Whether the slice is the part `shape` of the buffer of `owner`: it
    /// holds `owner` unchanged, starts `shape`'s first word after the window
    /// of `owner` does, and is as long as `shape` is in that window.
    pub open spec fn is_part_of(self, owner: T, shape: RangeShape) -> bool {
        let (base, total) = owner.read_window();
        &&& self.owner() == owner
        &&& self.offset() == shape.lower()
        &&& self.read_window().0 == word_address(
            base,
            shape.lower(),
            vstd::layout::size_of::<T::Word>(),
        )
        &&& self.read_window().1 == shape.upper(total as int) - shape.lower()
    }

    /// Takes the part `range` of the buffer of `inner`.
    ///
    /// The request is held against the length that `inner` reports, and
    /// refused if it does not fit.
    fn new<R: BufferRange>(inner: T, range: R) -> (s: Option<Self>)
        ensures
            s.is_some() <==> range.shape().fits(inner.read_window().1 as int),
            s matches Some(slice) ==> slice.is_part_of(inner, range.shape()),
    {
        let (ptr, len) = inner.read_buffer();
        match range.into_range(len) {
            None => None,
            Some(window) => {
                let (ptr, len) = sub_window(
                    ptr,
                    Ghost(len),
                    window.start,
                    window.end,
                    size_of::<T::Word>(),
                );
                Some(Self { ptr, len, start: Ghost(window.start as int), inner })
            },
        }
    }

    /// Takes the slice apart and gives the owner of the whole buffer back.
    pub fn inner(self) -> (owner: T)
        ensures
            owner == self.owner(),
    {
        self.inner
    }
}

impl<T: ReadBuffer> ReadBuffer for ReadBufferSlice<T> {
    type Word = T::Word;

    closed spec fn read_window(&self) -> (usize, usize) {
        (self.ptr, self.len)
    }

    /// Provides the window that was fixed when the slice was made. The owner
    /// is not asked again.
    fn read_buffer(&self) -> (w: (usize, usize))
        ensures
            0 <= self.offset(),
            self.offset() + w.1 <= self.owner().read_window().1,
            w.0 == word_address(
                self.owner().read_window().0,
                self.offset(),
                vstd::layout::size_of::<T::Word>(),
            ),
    {
        proof {
            use_type_invariant(self);
            lemma_part_in_memory(
                self.inner.read_window().0,
                self.inner.read_window().1,
                self.start@,
                self.len as int,
                vstd::layout::size_of::<T::Word>(),
            );
        }
        (self.ptr, self.len)
    }
}

/// A part of a buffer that a DMA engine may write to, with the owner of the
/// whole buffer inside.
pub struct WriteBufferSlice<T: WriteBuffer> {
    ptr: usize,
    len: usize,
    start: Ghost<int>,
    inner: T,
}

impl<T: WriteBuffer> WriteBufferSlice<T> {
    #[verifier::type_invariant]
    spec fn well_formed(self) -> bool {
        let (base, total) = self.inner.write_window();
        &&& 0 <= self.start@
        &&& self.start@ + self.len <= total
        &&& self.ptr == word_address(base, self.start@, vstd::layout::size_of::<T::Word>())
        &&& in_memory(base, total, vstd::layout::size_of::<T::Word>())
    }

    /// The owner of the whole buffer.
    pub closed spec fn owner(self) -> T {
        self.inner
    }

    /// The position in the owner's window, in words, at which the slice
    /// starts.
    pub closed spec fn offset(self) -> int {
        self.start@
    }

    /// Whether the slice is the part `shape` of the buffer of `owner`: it
    /// holds an owner with the window of `owner`, starts `shape`'s first
    /// word after that window does, and is as long as `shape` is in it.
    pub open spec fn is_part_of(self, owner: T, shape: RangeShape) -> bool {
        let (base, total) = owner.write_window();
        &&& self.owner().write_window() == owner.write_window()
        &&& self.offset() == shape.lower()
        &&& self.write_window().0 == word_address(
            base,
            shape.lower(),
            vstd::layout::size_of::<T::Word>(),
        )
        &&& self.write_window().1 == shape.upper(total as int) - shape.lower()
    }

    /// Takes the part `range` of the buffer of `inner`.
    ///
    /// The request is held against the length that `inner` reports, and
    /// refused if it does not fit. The owner inside the slice is `inner` as
    /// its one query left it, with the window that it had.
    fn new<R: BufferRange>(inner: T, range: R) -> (s: Option<Self>)
        ensures
            s.is_some() <==> range.shape().fits(inner.write_window().1 as int),
            s matches Some(slice) ==> slice.is_part_of(inner, range.shape()),
    {
        let mut inner = inner;
        let (ptr, len) = inner.write_buffer();
        match range.into_range(len) {
            None => None,
            Some(window) => {
                let (ptr, len) = sub_window(
                    ptr,
                    Ghost(len),
                    window.start,
                    window.end,
                    size_of::<T::Word>(),
                );
                Some(Self { ptr, len, start: Ghost(window.start as int), inner })
            },
        }
    }

    /// Takes the slice apart and gives the owner of the whole buffer back.
    pub fn inner(self) -> (owner: T)
        ensures
            owner == self.owner(),
    {
        self.inner
    }
}

impl<T: WriteBuffer> WriteBuffer for WriteBufferSlice<T> {
    type Word = T::Word;

    closed spec fn write_window(&self) -> (usize, usize) {
        (self.ptr, self.len)
    }

    /// Provides the window that was fixed when the slice was made. The owner
    /// is not asked again, and nothing changes.
    fn write_buffer(&mut self) -> (w: (usize, usize))
        ensures
            *final(self) == *old(self),
            0 <= old(self).offset(),
            old(self).offset() + w.1 <= old(self).owner().write_window().1,
            w.0 == word_address(
                old(self).owner().write_window().0,
                old(self).offset(),
                vstd::layout::size_of::<T::Word>(),
            ),
    {
        proof {
            use_type_invariant(&*self);
            lemma_part_in_memory(
                self.inner.write_window().0,
                self.inner.write_window().1,
                self.start@,
                self.len as int,
                vstd::layout::size_of::<T::Word>(),
            );
        }
        (self.ptr, self.len)
    }
}

/// Slicing for every owner that a DMA engine may read from.
pub trait ReadBufferExt: Sized + ReadBuffer {
    /// Turns the owner into a slice of its buffer.
    ///
    /// The request is held against the length that the owner reports. If it
    /// starts after its own end, or ends after the buffer does, there is no
    /// slice. Otherwise the slice starts `range`'s first word after the
    /// owner's window does, is as long as `range`, and holds the owner
    /// unchanged.
    fn into_read_buffer_slice<B: BufferRange>(self, range: B) -> (s: Option<ReadBufferSlice<Self>>)
        ensures
            s.is_some() <==> range.shape().fits(self.read_window().1 as int),
            s matches Some(slice) ==> slice.is_part_of(self, range.shape()),
    {
        ReadBufferSlice::new(self, range)
    }
}

impl<T: ReadBuffer + Sized> ReadBufferExt for T {

}

/// Slicing for every owner that a DMA engine may write to.
pub trait WriteBufferExt: Sized + WriteBuffer {
    /// Turns the owner into a slice of its buffer.
    ///
    /// The request is held against the length that the owner reports. If it
    /// starts after its own end, or ends after the buffer does, there is no
    /// slice. Otherwise the slice starts `range`'s first word after the
    /// owner's window does, is as long as `range`, and holds the owner as
    /// the one query left it, with the window that it had.
    fn into_write_buffer_slice<B: BufferRange>(self, range: B) -> (s: Option<
        WriteBufferSlice<Self>,
    >)
        ensures
            s.is_some() <==> range.shape().fits(self.write_window().1 as int),
            s matches Some(slice) ==> slice.is_part_of(self, range.shape()),
    {
        WriteBufferSlice::new(self, range)
    }
}

impl<T: WriteBuffer + Sized> WriteBufferExt for T {

}

} // verus!
