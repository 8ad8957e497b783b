//! Projecting a value onto the words that it is made of.
//!
//! A target is a value that a DMA engine may be pointed at: a word, a slice
//! or an array of targets, or, for writing only, room for a target that has
//! not been filled in yet.

use crate::word::Word;
use core::mem::{size_of, size_of_val, MaybeUninit};
use vstd::prelude::*;

verus! {

/// The number of whole words of `width` bytes in `bytes` bytes.
pub open spec fn words_in(bytes: nat, width: nat) -> nat {
    bytes / width
}

/// A value that a DMA engine may read.
pub trait ReadTarget {
    /// The unit in which the value is counted.
    type Word: Word;

    /// The length of the value in words: its size in bytes by the size of a
    /// word.
    spec fn word_count(&self) -> nat;

    /// The window of a value that lives at `addr`: it starts at `addr` and
    /// is as many words long as the value is.
    fn as_read_buffer(&self, addr: usize) -> (w: (usize, usize))
        ensures
            w.0 == addr,
            w.1 == self.word_count(),
    ;
}

impl<W: Word> ReadTarget for W {
    type Word = W;

    open spec fn word_count(&self) -> nat {
        words_in(vstd::layout::size_of::<W>(), vstd::layout::size_of::<W>())
    }

    fn as_read_buffer(&self, addr: usize) -> (w: (usize, usize)) {
        proof {
            W::lemma_width();
        }
        let len = size_of::<W>() / size_of::<W>();
        (addr, len)
    }
}

impl<T: ReadTarget> ReadTarget for [T] {
    type Word = T::Word;

    open spec fn word_count(&self) -> nat {
        words_in(self@.len() * vstd::layout::size_of::<T>(), vstd::layout::size_of::<T::Word>())
    }

    fn as_read_buffer(&self, addr: usize) -> (w: (usize, usize)) {
        proof {
            T::Word::lemma_width();
            vstd::layout::layout_of_slices(self);
        }
        let len = size_of_val(self) / size_of::<T::Word>();
        (addr, len)
    }
}

impl<T: ReadTarget, const N: usize> ReadTarget for [T; N] {
    type Word = T::Word;

    open spec fn word_count(&self) -> nat {
        words_in((N * vstd::layout::size_of::<T>()) as nat, vstd::layout::size_of::<T::Word>())
    }

    fn as_read_buffer(&self, addr: usize) -> (w: (usize, usize)) {
        let items = self.as_slice();
        proof {
            T::Word::lemma_width();
            vstd::layout::layout_of_slices(items);
        }
        let len = size_of_val(items) / size_of::<T::Word>();
        (addr, len)
    }
}

/// A value that a DMA engine may write.
pub trait WriteTarget {
    /// The unit in which the value is counted.
    type Word: Word;

    /// The length of the value in words: its size in bytes by the size of a
    /// word.
    spec fn word_count(&self) -> nat;

    /// The window of a value that lives at `addr`: it starts at `addr` and
    /// is as many words long as the value is. The value is left as it was.
    fn as_write_buffer(&mut self, addr: usize) -> (w: (usize, usize))
        ensures
            w.0 == addr,
            w.1 == old(self).word_count(),
            final(self).word_count() == old(self).word_count(),
    ;
}

impl<W: Word> WriteTarget for W {
    type Word = W;

    open spec fn word_count(&self) -> nat {
        words_in(vstd::layout::size_of::<W>(), vstd::layout::size_of::<W>())
    }

    fn as_write_buffer(&mut self, addr: usize) -> (w: (usize, usize)) {
        proof {
            W::lemma_width();
        }
        let len = size_of::<W>() / size_of::<W>();
        (addr, len)
    }
}

impl<T: WriteTarget> WriteTarget for [T] {
    type Word = T::Word;

    open spec fn word_count(&self) -> nat {
        words_in(self@.len() * vstd::layout::size_of::<T>(), vstd::layout::size_of::<T::Word>())
    }

    fn as_write_buffer(&mut self, addr: usize) -> (w: (usize, usize))
        ensures
            final(self)@ == old(self)@,
    {
        proof {
            T::Word::lemma_width();
            vstd::layout::layout_of_slices(&*self);
        }
        let len = size_of_val(&*self) / size_of::<T::Word>();
        (addr, len)
    }
}

impl<T: WriteTarget, const N: usize> WriteTarget for [T; N] {
    type Word = T::Word;

    open spec fn word_count(&self) -> nat {
        words_in((N * vstd::layout::size_of::<T>()) as nat, vstd::layout::size_of::<T::Word>())
    }

    fn as_write_buffer(&mut self, addr: usize) -> (w: (usize, usize))
        ensures
            *final(self) == *old(self),
    {
        let items = self.as_slice();
        proof {
            T::Word::lemma_width();
            vstd::layout::layout_of_slices(items);
        }
        let len = size_of_val(items) / size_of::<T::Word>();
        (addr, len)
    }
}

impl<T: WriteTarget> WriteTarget for MaybeUninit<T> {
    type Word = T::Word;

    open spec fn word_count(&self) -> nat {
        words_in(vstd::layout::size_of::<T>(), vstd::layout::size_of::<T::Word>())
    }

    fn as_write_buffer(&mut self, addr: usize) -> (w: (usize, usize))
        ensures
            *final(self) == *old(self),
    {
        proof {
            broadcast use vstd::layout::layout_of_maybe_uninit;

            T::Word::lemma_width();
        }
        let len = size_of::<MaybeUninit<T>>() / size_of::<T::Word>();
        (addr, len)
    }
}

/// `count` values of `per` whole words each are `count * per` words long.
pub proof fn lemma_words_in_whole_values(count: nat, per: nat, width: nat)
    requires
        width > 0,
    ensures
        words_in(count * (per * width), width) == count * per,
{
    assert(count * (per * width) == (count * per) * width) by (nonlinear_arith);
    vstd::arithmetic::div_mod::lemma_div_multiples_vanish((count * per) as int, width as int);
}

/// A word read on its own is one word long.
pub proof fn lemma_word_reads_as_one_word<W: Word>(word: &W)
    ensures
        <W as ReadTarget>::word_count(word) == 1,
{
    W::lemma_width();
}

/// A word written on its own is one word long.
pub proof fn lemma_word_writes_as_one_word<W: Word>(word: &W)
    ensures
        <W as WriteTarget>::word_count(word) == 1,
{
    W::lemma_width();
}

/// A slice whose items are `per` whole words each reads as `per` words for
/// each of its items.
pub proof fn lemma_slice_reads_as_its_items<T: ReadTarget>(items: &[T], per: nat)
    requires
        vstd::layout::size_of::<T>() == per * vstd::layout::size_of::<T::Word>(),
    ensures
        items.word_count() == items@.len() * per,
{
    T::Word::lemma_width();
    lemma_words_in_whole_values(items@.len(), per, vstd::layout::size_of::<T::Word>());
}

/// An array whose items are `per` whole words each reads as `per` words for
/// each of its items.
pub proof fn lemma_array_reads_as_its_items<T: ReadTarget, const N: usize>(items: &[T; N], per: nat)
    requires
        vstd::layout::size_of::<T>() == per * vstd::layout::size_of::<T::Word>(),
    ensures
        items.word_count() == N * per,
{
    T::Word::lemma_width();
    lemma_words_in_whole_values(N as nat, per, vstd::layout::size_of::<T::Word>());
}

/// A slice whose items are `per` whole words each is written as `per` words
/// for each of its items.
pub proof fn lemma_slice_writes_as_its_items<T: WriteTarget>(items: &[T], per: nat)
    requires
        vstd::layout::size_of::<T>() == per * vstd::layout::size_of::<T::Word>(),
    ensures
        items.word_count() == items@.len() * per,
{
    T::Word::lemma_width();
    lemma_words_in_whole_values(items@.len(), per, vstd::layout::size_of::<T::Word>());
}

/// An array whose items are `per` whole words each is written as `per` words
/// for each of its items.
pub proof fn lemma_array_writes_as_its_items<T: WriteTarget, const N: usize>(
    items: &[T; N],
    per: nat,
)
    requires
        vstd::layout::size_of::<T>() == per * vstd::layout::size_of::<T::Word>(),
    ensures
        items.word_count() == N * per,
{
    T::Word::lemma_width();
    lemma_words_in_whole_values(N as nat, per, vstd::layout::size_of::<T::Word>());
}

/// A slice of words reads as one word for each of its items.
pub proof fn lemma_slice_of_words_reads_as_its_length<W: Word>(items: &[W])
    ensures
        <[W] as ReadTarget>::word_count(items) == items@.len(),
{
    lemma_slice_reads_as_its_items::<W>(items, 1);
}

/// An array of words reads as one word for each of its items.
pub proof fn lemma_array_of_words_reads_as_its_length<W: Word, const N: usize>(items: &[W; N])
    ensures
        <[W; N] as ReadTarget>::word_count(items) == N,
{
    lemma_array_reads_as_its_items::<W, N>(items, 1);
}

/// A slice of words is written as one word for each of its items.
pub proof fn lemma_slice_of_words_writes_as_its_length<W: Word>(items: &[W])
    ensures
        <[W] as WriteTarget>::word_count(items) == items@.len(),
{
    lemma_slice_writes_as_its_items::<W>(items, 1);
}

/// An array of words is written as one word for each of its items.
pub proof fn lemma_array_of_words_writes_as_its_length<W: Word, const N: usize>(items: &[W; N])
    ensures
        <[W; N] as WriteTarget>::word_count(items) == N,
{
    lemma_array_writes_as_its_items::<W, N>(items, 1);
}

/// Room for a word that is not filled in yet is written as one word.
pub proof fn lemma_room_for_a_word_writes_as_one_word<W: Word>(room: &MaybeUninit<W>)
    ensures
        room.word_count() == 1,
{
    W::lemma_width();
}

} // verus!
