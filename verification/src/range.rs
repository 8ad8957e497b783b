//! The range shapes by which a caller asks for a part of a buffer, and the
//! two ways of holding such a request against the buffer's length.
//!
//! All positions count words from the start of the buffer.

use core::ops::{Range, RangeFrom, RangeFull, RangeTo};
use vstd::prelude::*;

verus! {

/// Makes `core::ops::RangeTo`, the type of `..end`, known to the verifier
/// as the struct that it is, with its public field `end`.
#[verifier::external_type_specification]
pub struct ExRangeTo<Idx>(RangeTo<Idx>);

/// Makes `core::ops::RangeFrom`, the type of `start..`, known to the
/// verifier as the struct that it is, with its public field `start`.
#[verifier::external_type_specification]
pub struct ExRangeFrom<Idx>(RangeFrom<Idx>);

/// Makes `core::ops::RangeFull`, the type of `..`, known to the verifier as
/// the struct without fields that it is.
#[verifier::external_type_specification]
pub struct ExRangeFull(RangeFull);

/// A requested sub-range of a buffer.
#[derive(Clone, Copy, Debug, PartialEq, Eq, Structural)]
pub enum RangeShape {
    /// `start..=end`: both bounds given, the end included.
    Closed { start: usize, end: usize },
    /// `start..end`: both bounds given, the end excluded.
    HalfOpen { start: usize, end: usize },
    /// `..end`: from the first word up to `end`, excluded.
    OpenStart { end: usize },
    /// `start..`: from `start` through the last word.
    OpenEnd { start: usize },
    /// `..`: the whole buffer.
    Full,
}

/// The smaller of two positions.
pub open spec fn min_of(a: int, b: int) -> int {
    if a <= b {
        a
    } else {
        b
    }
}

/// The window `[start, end)` that the stored bounds `lower` and `upper` give
/// in a buffer of `len` words when each is cut down to `len`. Bounds that
/// cross leave the empty window at the cut-down `lower`.
pub open spec fn clamped_window(lower: int, upper: int, len: int) -> (int, int) {
    let start = min_of(lower, len);
    let end = min_of(upper, len);
    if start <= end {
        (start, end)
    } else {
        (start, start)
    }
}

impl RangeShape {
    /// The first word asked for.
    pub open spec fn lower(self) -> int {
        match self {
            RangeShape::Closed { start, .. } => start as int,
            RangeShape::HalfOpen { start, .. } => start as int,
            RangeShape::OpenStart { .. } => 0,
            RangeShape::OpenEnd { start } => start as int,
            RangeShape::Full => 0,
        }
    }

    /// One past the last word asked for, in a buffer of `len` words.
    pub open spec fn upper(self, len: int) -> int {
        match self {
            RangeShape::Closed { end, .. } => end + 1,
            RangeShape::HalfOpen { end, .. } => end as int,
            RangeShape::OpenStart { end } => end as int,
            RangeShape::OpenEnd { .. } => len,
            RangeShape::Full => len,
        }
    }

    /// Whether the request lies inside a buffer of `len` words: it does not
    /// start after its own end, and does not end after the buffer does.
    pub open spec fn fits(self, len: int) -> bool {
        self.lower() <= self.upper(len) <= len
    }

    /// The window `[start, end)` that the request is cut down to in a buffer
    /// of `len` words.
    pub open spec fn clamped(self, len: int) -> (int, int) {
        clamped_window(self.lower(), self.upper(len), len)
    }

    /// Resolves the request against a buffer of `len` words, or refuses it.
    pub fn resolve(self, len: usize) -> (r: Option<Range<usize>>)
        ensures
            r.is_some() <==> self.fits(len as int),
            r matches Some(w) ==> w.start == self.lower() && w.end == self.upper(len as int),
    {
        match self {
            RangeShape::Closed { start, end } => {
                if end >= len || start > end + 1 {
                    None
                } else {
                    Some(Range { start, end: end + 1 })
                }
            },
            RangeShape::HalfOpen { start, end } => {
                if start > end || end > len {
                    None
                } else {
                    Some(Range { start, end })
                }
            },
            RangeShape::OpenStart { end } => {
                if end > len {
                    None
                } else {
                    Some(Range { start: 0, end })
                }
            },
            RangeShape::OpenEnd { start } => {
                if start > len {
                    None
                } else {
                    Some(Range { start, end: len })
                }
            },
            RangeShape::Full => Some(Range { start: 0, end: len }),
        }
    }

    /// The bounds to keep when the buffer's length is not looked at yet: the
    /// first word asked for, and one past the last, where an end that was
    /// left open, or that lies past every address, is kept as `usize::MAX`.
    pub fn bounds(self) -> (b: (usize, usize))
        ensures
            b.0 == self.lower(),
            b.1 == min_of(self.upper(usize::MAX as int), usize::MAX as int),
    {
        match self {
            RangeShape::Closed { start, end } => {
                if end == usize::MAX {
                    (start, usize::MAX)
                } else {
                    (start, end + 1)
                }
            },
            RangeShape::HalfOpen { start, end } => (start, end),
            RangeShape::OpenStart { end } => (0, end),
            RangeShape::OpenEnd { start } => (start, usize::MAX),
            RangeShape::Full => (0, usize::MAX),
        }
    }
}

/// Cuts the stored bounds `lower` and `upper` down to a buffer of `len`
/// words.
pub fn clamp(lower: usize, upper: usize, len: usize) -> (w: Range<usize>)
    ensures
        (w.start as int, w.end as int) == clamped_window(lower as int, upper as int, len as int),
        w.start <= w.end <= len,
{
    let start = if lower <= len {
        lower
    } else {
        len
    };
    let end = if upper <= len {
        upper
    } else {
        len
    };
    if start <= end {
        Range { start, end }
    } else {
        Range { start, end: start }
    }
}

/// The bounds that [`RangeShape::bounds`] keeps cut a buffer down to the
/// same window as the request itself, whatever the buffer's length.
pub proof fn lemma_bounds_keep_the_request(shape: RangeShape, len: usize)
    ensures
        clamped_window(
            shape.lower(),
            min_of(shape.upper(usize::MAX as int), usize::MAX as int),
            len as int,
        ) == shape.clamped(len as int),
{
}

/// A request that fits is cut down to itself.
pub proof fn lemma_fitting_request_is_not_cut(shape: RangeShape, len: usize)
    requires
        shape.fits(len as int),
    ensures
        shape.clamped(len as int) == (shape.lower(), shape.upper(len as int)),
{
}

/// Whatever the stored bounds are, the window that they are cut down to lies
/// inside the buffer.
pub proof fn lemma_clamped_window_lies_inside(lower: nat, upper: int, len: nat)
    ensures
        0 <= clamped_window(lower as int, upper, len as int).0 <= clamped_window(
            lower as int,
            upper,
            len as int,
        ).1 <= len,
{
}

/// A way of writing a sub-range of a buffer.
pub trait BufferRange: Sized {
    /// The request that the value stands for.
    spec fn shape(self) -> RangeShape;

    /// Turns the value into the request that it stands for.
    fn into_shape(self) -> (s: RangeShape)
        ensures
            s == self.shape(),
    ;

    /// Resolves the request against a buffer of `len` words.
    ///
    /// A request that starts after its own end, or that ends after the
    /// buffer does, is refused.
    fn into_range(self, len: usize) -> (r: Option<Range<usize>>)
        ensures
            r.is_some() <==> self.shape().fits(len as int),
            r matches Some(w) ==> w.start == self.shape().lower() && w.end == self.shape().upper(
                len as int,
            ),
    {
        self.into_shape().resolve(len)
    }
}

impl BufferRange for RangeShape {
    open spec fn shape(self) -> RangeShape {
        self
    }

    fn into_shape(self) -> (s: RangeShape) {
        self
    }
}

impl BufferRange for Range<usize> {
    open spec fn shape(self) -> RangeShape {
        RangeShape::HalfOpen { start: self.start, end: self.end }
    }

    fn into_shape(self) -> (s: RangeShape) {
        RangeShape::HalfOpen { start: self.start, end: self.end }
    }
}

impl BufferRange for RangeTo<usize> {
    open spec fn shape(self) -> RangeShape {
        RangeShape::OpenStart { end: self.end }
    }

    fn into_shape(self) -> (s: RangeShape) {
        RangeShape::OpenStart { end: self.end }
    }
}

impl BufferRange for RangeFrom<usize> {
    open spec fn shape(self) -> RangeShape {
        RangeShape::OpenEnd { start: self.start }
    }

    fn into_shape(self) -> (s: RangeShape) {
        RangeShape::OpenEnd { start: self.start }
    }
}

impl BufferRange for RangeFull {
    open spec fn shape(self) -> RangeShape {
        RangeShape::Full
    }

    fn into_shape(self) -> (s: RangeShape) {
        RangeShape::Full
    }
}

} // verus!
