//! Diffing of successive index ranges.
//!
//! Comparing the last applied range with a newly requested one yields at
//! most two edits — one for the front (lower-index) side of the window, one
//! for the back — each either a fetch of the entering sub-range or an
//! eviction of the leaving items. Both edits are computed against the same
//! prior snapshot, never against an intermediate state, and the back edit is
//! skipped entirely when the new range is empty.

use vstd::prelude::*;

use crate::index_range::IndexRange;

verus! {

/// Edit to apply at the front (lower-index side) of the window.
#[derive(Clone, Copy, Debug, PartialEq, Eq, Structural)]
pub enum FrontEdit {
    /// The window grew backward: fetch this range in reverse order and push
    /// each yielded value to the front of the buffer.
    FetchFront(IndexRange),
    /// The window moved forward: pop this many values from the front.
    EvictFront(usize),
    /// The front boundary did not move.
    KeepFront,
}

/// Edit to apply at the back (higher-index side) of the window.
#[derive(Clone, Copy, Debug, PartialEq, Eq, Structural)]
pub enum BackEdit {
    /// The window grew forward: fetch this range in ascending order and push
    /// each yielded value to the back of the buffer.
    FetchBack(IndexRange),
    /// The window shrank from the back: pop this many values from the back.
    EvictBack(usize),
    /// The back boundary did not move, or the new range is empty and the
    /// back edit is skipped, leaving the front edit to drain the buffer.
    KeepBack,
}

/// The front edit that moving the applied range `last` to `new` requires.
pub open spec fn spec_front_edit(last: IndexRange, new: IndexRange) -> FrontEdit {
    if new.start < last.start {
        FrontEdit::FetchFront(IndexRange { start: new.start, end: last.start })
    } else if new.start > last.start {
        FrontEdit::EvictFront((new.start - last.start) as usize)
    } else {
        FrontEdit::KeepFront
    }
}

/// The back edit that moving the applied range `last` to `new` requires.
pub open spec fn spec_back_edit(last: IndexRange, new: IndexRange) -> BackEdit {
    if new.start == new.end {
        BackEdit::KeepBack
    } else if new.end > last.end {
        BackEdit::FetchBack(IndexRange { start: last.end, end: new.end })
    } else if new.end < last.end {
        BackEdit::EvictBack((last.end - new.end) as usize)
    } else {
        BackEdit::KeepBack
    }
}

/// Compares a requested range against the last applied range and emits the
/// ordered pair of edits that turns the old window into the new one.
pub fn compute_diff(last: IndexRange, new: IndexRange) -> (r: (FrontEdit, BackEdit))
    ensures
        r.0 == spec_front_edit(last, new),
        r.1 == spec_back_edit(last, new),
{
    let front = if new.start < last.start {
        FrontEdit::FetchFront(IndexRange { start: new.start, end: last.start })
    } else if new.start > last.start {
        FrontEdit::EvictFront(new.start - last.start)
    } else {
        FrontEdit::KeepFront
    };
    let back = if new.start == new.end {
        BackEdit::KeepBack
    } else if new.end > last.end {
        BackEdit::FetchBack(IndexRange { start: last.end, end: new.end })
    } else if new.end < last.end {
        BackEdit::EvictBack(last.end - new.end)
    } else {
        BackEdit::KeepBack
    };
    (front, back)
}

} // verus!
