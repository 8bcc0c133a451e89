//! Translation of a viewport description into a visible index range.
//!
//! All measurements are integral units (whole pixels, or any finer fixed
//! unit the host chooses). The host layer converts its fractional
//! measurements into these units before handing them to the library.

use vstd::prelude::*;

use crate::clamped;
use crate::index_range::IndexRange;
use crate::Direction;
use crate::LazyError;

verus! {

/// Maps a viewport description to the visible index range.
///
/// The first visible index is `scroll / item_size`, clamped so it never
/// passes the end of the list; the window covers `size / item_size + 1`
/// indices, so a partially visible trailing item is always included, and is
/// cut off at `len`. A zero-length list yields the empty range `0..0`.
pub fn compute_range(scroll: usize, size: usize, item_size: usize, len: usize) -> (r: IndexRange)
    requires
        item_size > 0,
    ensures
        r.start as int == clamped(scroll as int / item_size as int, len as int),
        r.end as int == clamped(r.start as int + size as int / item_size as int + 1, len as int),
        r.wf(),
        r.end <= len,
        r.end - r.start <= size as int / item_size as int + 1,
{
    let raw: usize = scroll / item_size;
    let start: usize = if raw <= len {
        raw
    } else {
        len
    };
    let visible: usize = size / item_size;
    let remaining: usize = len - start;
    let end: usize = if remaining <= visible {
        len
    } else {
        start + visible + 1
    };
    IndexRange { start, end }
}

/// Offset of a materialized item in the layout axis: the item at buffer
/// position `local_index` under applied range start `range_start` sits at
/// `(range_start + local_index) * item_size` units from the origin.
/// `None` when that offset does not fit the machine word.
pub fn item_position(range_start: usize, local_index: usize, item_size: usize) -> (r: Option<
    usize,
>)
    requires
        item_size > 0,
    ensures
        r matches Some(p) ==> p == (range_start + local_index) * item_size,
        r is Some <==> (range_start + local_index) * item_size <= usize::MAX,
{
    match range_start.checked_add(local_index) {
        Some(index) => index.checked_mul(item_size),
        None => {
            proof {
                vstd::arithmetic::mul::lemma_mul_inequality(
                    usize::MAX as int + 1,
                    range_start as int + local_index as int,
                    item_size as int,
                );
                vstd::arithmetic::mul::lemma_mul_inequality(
                    1,
                    item_size as int,
                    usize::MAX as int + 1,
                );
            }
            None
        },
    }
}

/// Viewport state: the raw scroll offset together with the container size,
/// item size and list length the component was configured with.
///
/// Invariant (`wf`): both sizes are positive; the builder rejects a zero
/// size before a value of this type exists.
#[derive(Clone, Copy, Debug, PartialEq, Eq, Structural)]
pub struct UseScrollRange {
    /// Current scroll offset, fed in by the host on every scroll event.
    pub scroll: usize,
    /// Size of the scroll container in the layout axis.
    pub size: usize,
    /// Size of a single item in the layout axis.
    pub item_size: usize,
    /// Total number of items in the list.
    pub len: usize,
}

impl UseScrollRange {
    /// Both configured sizes are positive.
    pub open spec fn wf(self) -> bool {
        self.item_size > 0 && self.size > 0
    }

    /// Starts a builder with the declared defaults.
    pub fn builder() -> (r: Builder)
        ensures
            r == Builder::default_spec(),
    {
        Builder { direction: Direction::Row, len: 0, size: 400, item_size: 20 }
    }

    /// The current start index, `scroll / item_size`, not yet clamped to the
    /// list length; `range` clamps.
    pub fn start(&self) -> (r: usize)
        requires
            self.wf(),
        ensures
            r as int == self.scroll as int / self.item_size as int,
    {
        self.scroll / self.item_size
    }

    /// The currently visible index range.
    pub fn range(&self) -> (r: IndexRange)
        requires
            self.wf(),
        ensures
            r.start as int == clamped(self.scroll as int / self.item_size as int, self.len as int),
            r.end as int == clamped(
                r.start as int + self.size as int / self.item_size as int + 1,
                self.len as int,
            ),
            r.wf(),
            r.end <= self.len,
    {
        compute_range(self.scroll, self.size, self.item_size, self.len)
    }

    /// Records a new scroll offset reported by the host.
    pub fn set_scroll(&mut self, scroll: usize)
        ensures
            *final(self) == (UseScrollRange { scroll, ..*old(self) }),
    {
        self.scroll = scroll;
    }
}

/// Builder for [`UseScrollRange`]: collects the configuration surface with
/// declared defaults, then validates it once.
#[derive(Clone, Copy, Debug, PartialEq, Eq, Structural)]
pub struct Builder {
    pub direction: Direction,
    pub len: usize,
    pub size: usize,
    pub item_size: usize,
}

impl Builder {
    /// The default configuration: row layout, an empty list, a container of
    /// 400 units and items of 20 units.
    pub open spec fn default_spec() -> Builder {
        Builder { direction: Direction::Row, len: 0, size: 400, item_size: 20 }
    }

    /// Sets the layout axis.
    pub fn direction(self, direction: Direction) -> (r: Builder)
        ensures
            r == (Builder { direction, ..self }),
    {
        Builder { direction, ..self }
    }

    /// Sets the length of the list.
    pub fn len(self, len: usize) -> (r: Builder)
        ensures
            r == (Builder { len, ..self }),
    {
        Builder { len, ..self }
    }

    /// Sets the size of the scroll container.
    pub fn size(self, size: usize) -> (r: Builder)
        ensures
            r == (Builder { size, ..self }),
    {
        Builder { size, ..self }
    }

    /// Sets the size of a single item.
    pub fn item_size(self, item_size: usize) -> (r: Builder)
        ensures
            r == (Builder { item_size, ..self }),
    {
        Builder { item_size, ..self }
    }

    /// Validates the configuration and builds the viewport state, starting
    /// at scroll offset zero. A zero container or item size is rejected as
    /// `InvalidConfiguration` before any request is accepted.
    pub fn use_scroll_range(self) -> (r: Result<UseScrollRange, LazyError>)
        ensures
            r is Ok <==> self.item_size > 0 && self.size > 0,
            r matches Ok(u) ==> u == (UseScrollRange {
                scroll: 0,
                size: self.size,
                item_size: self.item_size,
                len: self.len,
            }),
            r matches Err(e) ==> e == LazyError::InvalidConfiguration,
    {
        if self.item_size == 0 || self.size == 0 {
            Err(LazyError::InvalidConfiguration)
        } else {
            Ok(UseScrollRange { scroll: 0, size: self.size, item_size: self.item_size, len: self.len })
        }
    }
}

} // verus!
