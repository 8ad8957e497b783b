//! The units in which a DMA engine counts.

use vstd::layout::size_of;
use vstd::prelude::*;

verus! {

/// Whether `bytes` is the size of one of the fixed-width integer types of 8,
/// 16, 32 or 64 bits.
pub open spec fn is_word_width(bytes: nat) -> bool {
    bytes == 1 || bytes == 2 || bytes == 4 || bytes == 8
}

/// A fixed-width scalar of which every bit pattern is a value, so that
/// whatever a DMA write leaves in memory can be read back as this type.
pub trait Word: Sized {
    /// A word is 1, 2, 4 or 8 bytes wide.
    proof fn lemma_width()
        ensures
            is_word_width(size_of::<Self>()),
    ;
}

impl Word for u8 {
    proof fn lemma_width() {
        broadcast use vstd::layout::layout_of_primitives;

    }
}

impl Word for i8 {
    proof fn lemma_width() {
        broadcast use vstd::layout::layout_of_primitives;

    }
}

impl Word for u16 {
    proof fn lemma_width() {
        broadcast use vstd::layout::layout_of_primitives;

    }
}

impl Word for i16 {
    proof fn lemma_width() {
        broadcast use vstd::layout::layout_of_primitives;

    }
}

impl Word for u32 {
    proof fn lemma_width() {
        broadcast use vstd::layout::layout_of_primitives;

    }
}

impl Word for i32 {
    proof fn lemma_width() {
        broadcast use vstd::layout::layout_of_primitives;

    }
}

impl Word for u64 {
    proof fn lemma_width() {
        broadcast use vstd::layout::layout_of_primitives;

    }
}

impl Word for i64 {
    proof fn lemma_width() {
        broadcast use vstd::layout::layout_of_primitives;

    }
}

} // verus!
