//! Half-open index ranges.

use vstd::prelude::*;

verus! {

/// Half-open interval `[start, end)` over item indices.
///
/// A well-formed range has `start <= end`. Ranges are immutable values,
/// replaced wholesale on each viewport change; two ranges are compared by
/// `start` and `end` independently, never by set containment.
#[derive(Clone, Copy, Debug, PartialEq, Eq, Structural)]
pub struct IndexRange {
    pub start: usize,
    pub end: usize,
}

impl IndexRange {
    /// The bounds are ordered.
    pub open spec fn wf(self) -> bool {
        self.start <= self.end
    }

    /// Number of indices covered, as a mathematical integer.
    pub open spec fn spec_len(self) -> int {
        self.end - self.start
    }

    pub fn new(start: usize, end: usize) -> (r: IndexRange)
        requires
            start <= end,
        ensures
            r == (IndexRange { start, end }),
    {
        IndexRange { start, end }
    }

    /// Number of indices covered.
    pub fn len(&self) -> (r: usize)
        requires
            self.wf(),
        ensures
            r == self.spec_len(),
    {
        self.end - self.start
    }

    /// Whether the range covers no index at all.
    pub fn is_empty(&self) -> (r: bool)
        ensures
            r == (self.start == self.end),
    {
        self.start == self.end
    }
}

} // verus!
