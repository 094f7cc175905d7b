//! Source locations.

use vstd::prelude::*;

verus! {

/// A region of source text, as a pair of byte offsets.
#[derive(Clone, Copy, Debug, PartialEq, Eq, Structural, Hash)]
pub struct Span {
    /// The first byte of the region.
    pub lo: u32,
    /// The byte after the last one of the region.
    pub hi: u32,
}

impl Span {
    /// The region from `lo` up to `hi`.
    pub fn new(lo: u32, hi: u32) -> (span: Span)
        ensures
            span == (Span { lo, hi }),
    {
        Span { lo, hi }
    }

    /// The empty region at the start of the text, for nodes that have no place in it.
    pub fn dummy() -> (span: Span)
        ensures
            span == (Span { lo: 0, hi: 0 }),
    {
        Span { lo: 0, hi: 0 }
    }

    /// Whether this is the region that `dummy` returns.
    pub fn is_dummy(&self) -> (b: bool)
        ensures
            b == (self.lo == 0 && self.hi == 0),
    {
        self.lo == 0 && self.hi == 0
    }
}

} // verus!
