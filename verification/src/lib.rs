//! Windowing engine for virtualized lists.
//!
//! A long logical sequence of items is shown through a small viewport. Only
//! the index range that is currently visible is materialized: the engine
//! tracks the applied range, diffs it against each newly requested range, and
//! fetches or evicts exactly the items that enter or leave the window.

use vstd::prelude::*;

pub mod buffer;
pub mod diff;
pub mod factory;
pub mod index_range;
pub mod use_lazy;
pub mod use_scroll_range;

pub use buffer::WindowBuffer;
pub use diff::{compute_diff, BackEdit, FrontEdit};
pub use factory::{deterministic, from_fn, from_range_fn, Factory, FromFn, FromRangeFn};
pub use index_range::IndexRange;
pub use use_lazy::{use_lazy, UseLazy};
pub use use_scroll_range::{compute_range, item_position, Builder, UseScrollRange};

verus! {

/// `x`, clamped from above by `bound`.
pub open spec fn clamped(x: int, bound: int) -> int {
    if x <= bound {
        x
    } else {
        bound
    }
}

/// Layout axis of the list. Presentational only: the windowing logic is the
/// same for rows and columns.
#[derive(Clone, Copy, Debug, PartialEq, Eq, Structural)]
pub enum Direction {
    Row,
    Column,
}

/// Errors reported by the library.
///
/// `FetchFailed` is the result of a `set`/`refresh` call whose factory
/// invocation errored; it does not poison the engine, later requests are
/// served normally. `InvalidConfiguration` is raised at construction time
/// for a zero container or item size and is fatal to building the component.
#[derive(Clone, Copy, Debug, PartialEq, Eq, Structural)]
pub enum LazyError {
    FetchFailed,
    InvalidConfiguration,
}

} // verus!
