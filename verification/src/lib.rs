//! Contracts for buffers that are handed to a DMA engine.
//!
//! A DMA engine reads and writes memory behind the compiler's back, so the
//! code that starts a transfer needs a description of the memory that stays
//! true for as long as the transfer runs. This crate states that description
//! as a *window*, the address of a first word and a count of words, and the
//! obligations of the types that hand windows out.
//!
//! Addresses are plain `usize` values throughout: a window is a pair
//! `(address, length in words)`.
//!
//! - [`word`]: the units that an engine counts in.
//! - [`target`]: how long a value is in words, and the window of a value
//!   that lives at a given address.
//! - [`buffer`]: what an owner of memory promises when it hands out a
//!   window for reading or for writing.
//! - [`range`]: the ways of asking for a part of a buffer.
//! - [`slice`]: parts of a buffer that are fixed, or refused, when they are
//!   made.
//! - [`clamped`]: parts of a buffer that are cut to the buffer's length on
//!   every query.

pub mod buffer;
pub mod clamped;
pub mod range;
pub mod slice;
pub mod target;
pub mod word;

pub use buffer::{ReadBuffer, WriteBuffer};
pub use clamped::{ClampedReadBufferSlice, ClampedWriteBufferSlice};
pub use range::{BufferRange, RangeShape};
pub use slice::{ReadBufferExt, ReadBufferSlice, WriteBufferExt, WriteBufferSlice};
pub use target::{ReadTarget, WriteTarget};
pub use word::Word;
