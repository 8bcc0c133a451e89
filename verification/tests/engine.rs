//! Scenario tests for the window engine: diffing, the reverse-yield
//! contract, no-ops, empty-window collapse, refresh and failure isolation.

use std::cell::{Cell, RefCell};

use lazy_list::{from_fn, from_range_fn, use_lazy, IndexRange, LazyError, UseLazy, WindowBuffer};

/// The value this suite's factories produce for index `i`.
fn value_of(i: usize) -> u64 {
    i as u64 * 10
}

fn window_of<F: lazy_list::Factory<Item = u64>>(engine: &UseLazy<F>) -> Vec<u64> {
    let buffer: &WindowBuffer<u64> = engine.values();
    let mut out = Vec::new();
    let mut i = 0;
    while i < buffer.len() {
        out.push(*buffer.get(i));
        i += 1;
    }
    out
}

fn expected(from: usize, to: usize) -> Vec<u64> {
    (from..to).map(value_of).collect()
}

#[test]
fn forward_scroll_evicts_front_and_fetches_back() {
    let calls: RefCell<Vec<(usize, usize, bool)>> = RefCell::new(Vec::new());
    let factory = from_range_fn(|r: IndexRange, is_rev: bool| {
        calls.borrow_mut().push((r.start, r.end, is_rev));
        let mut v: Vec<u64> = (r.start..r.end).map(value_of).collect();
        if is_rev {
            v.reverse();
        }
        Ok(v)
    });
    let mut engine = use_lazy(factory);

    assert!(engine.set(IndexRange { start: 0, end: 10 }).is_ok());
    assert_eq!(window_of(&engine), expected(0, 10));
    calls.borrow_mut().clear();

    assert!(engine.set(IndexRange { start: 5, end: 15 }).is_ok());
    // only the entering back sub-range is fetched, in ascending order
    assert_eq!(*calls.borrow(), vec![(10, 15, false)]);
    assert_eq!(window_of(&engine), expected(5, 15));
    let applied = engine.range();
    assert_eq!((applied.start, applied.end), (5, 15));
}

#[test]
fn backward_scroll_uses_descending_yields_to_rebuild_front() {
    // a per-index factory logs the order in which indices are requested
    let yields: RefCell<Vec<usize>> = RefCell::new(Vec::new());
    let factory = from_fn(|i: usize| {
        yields.borrow_mut().push(i);
        value_of(i)
    });
    let mut engine = use_lazy(factory);

    assert!(engine.set(IndexRange { start: 0, end: 10 }).is_ok());
    assert!(engine.set(IndexRange { start: 10, end: 20 }).is_ok());
    assert_eq!(window_of(&engine), expected(10, 20));
    yields.borrow_mut().clear();

    assert!(engine.set(IndexRange { start: 5, end: 15 }).is_ok());
    // the front fetch of 5..10 is yielded in descending index order
    assert_eq!(*yields.borrow(), vec![9, 8, 7, 6, 5]);
    // sequential front pushes reconstruct ascending order
    assert_eq!(window_of(&engine), expected(5, 15));
}

#[test]
fn identical_range_twice_is_a_noop() {
    let calls: Cell<usize> = Cell::new(0);
    let factory = from_range_fn(|r: IndexRange, is_rev: bool| {
        calls.set(calls.get() + 1);
        let mut v: Vec<u64> = (r.start..r.end).map(value_of).collect();
        if is_rev {
            v.reverse();
        }
        Ok(v)
    });
    let mut engine = use_lazy(factory);

    assert!(engine.set(IndexRange { start: 3, end: 8 }).is_ok());
    let first = window_of(&engine);
    let calls_after_first = calls.get();

    assert!(engine.set(IndexRange { start: 3, end: 8 }).is_ok());
    assert_eq!(calls.get(), calls_after_first, "second identical set made a factory call");
    assert_eq!(window_of(&engine), first);
}

#[test]
fn empty_request_past_end_collapses_window() {
    let calls: Cell<usize> = Cell::new(0);
    let factory = from_range_fn(|r: IndexRange, is_rev: bool| {
        calls.set(calls.get() + 1);
        let mut v: Vec<u64> = (r.start..r.end).map(value_of).collect();
        if is_rev {
            v.reverse();
        }
        Ok(v)
    });
    let mut engine = use_lazy(factory);

    assert!(engine.set(IndexRange { start: 0, end: 10 }).is_ok());
    assert!(engine.set(IndexRange { start: 10, end: 20 }).is_ok());
    let calls_before = calls.get();

    assert!(engine.set(IndexRange { start: 25, end: 25 }).is_ok());
    assert_eq!(calls.get(), calls_before, "empty request must not fetch");
    assert_eq!(window_of(&engine), Vec::<u64>::new());
    let applied = engine.range();
    assert_eq!((applied.start, applied.end), (25, 25));
}

#[test]
fn refresh_reproduces_the_window_of_a_pure_factory() {
    let factory = from_fn(value_of);
    let mut engine = use_lazy(factory);

    assert!(engine.set(IndexRange { start: 0, end: 10 }).is_ok());
    assert!(engine.set(IndexRange { start: 4, end: 9 }).is_ok());
    let before = window_of(&engine);
    assert_eq!(before, expected(4, 9));

    assert!(engine.refresh().is_ok());
    assert_eq!(window_of(&engine), before);
    let applied = engine.range();
    assert_eq!((applied.start, applied.end), (4, 9));
}

#[test]
fn back_fetch_failure_is_isolated_and_repaired() {
    let fail: Cell<bool> = Cell::new(false);
    let factory = from_range_fn(|r: IndexRange, is_rev: bool| {
        if fail.get() {
            return Err(LazyError::FetchFailed);
        }
        let mut v: Vec<u64> = (r.start..r.end).map(value_of).collect();
        if is_rev {
            v.reverse();
        }
        Ok(v)
    });
    let mut engine = use_lazy(factory);

    assert!(engine.set(IndexRange { start: 0, end: 10 }).is_ok());

    fail.set(true);
    let r = engine.set(IndexRange { start: 5, end: 15 });
    assert_eq!(r, Err(LazyError::FetchFailed));
    // the front eviction has been applied; the back portion is unchanged
    assert_eq!(window_of(&engine), expected(5, 10));
    // the applied end keeps its previous value, so the missing back
    // sub-range is requested again on the next call
    let applied = engine.range();
    assert_eq!((applied.start, applied.end), (5, 10));

    fail.set(false);
    assert!(engine.set(IndexRange { start: 5, end: 15 }).is_ok());
    assert_eq!(window_of(&engine), expected(5, 15));
}

#[test]
fn front_fetch_failure_leaves_front_untouched() {
    let fail: Cell<bool> = Cell::new(false);
    let factory = from_range_fn(|r: IndexRange, is_rev: bool| {
        if fail.get() {
            return Err(LazyError::FetchFailed);
        }
        let mut v: Vec<u64> = (r.start..r.end).map(value_of).collect();
        if is_rev {
            v.reverse();
        }
        Ok(v)
    });
    let mut engine = use_lazy(factory);

    assert!(engine.set(IndexRange { start: 0, end: 10 }).is_ok());
    assert!(engine.set(IndexRange { start: 10, end: 20 }).is_ok());

    fail.set(true);
    let r = engine.set(IndexRange { start: 5, end: 15 });
    assert_eq!(r, Err(LazyError::FetchFailed));
    // the front stays as it was; the back eviction has been applied
    assert_eq!(window_of(&engine), expected(10, 15));
    let applied = engine.range();
    assert_eq!((applied.start, applied.end), (10, 15));

    fail.set(false);
    assert!(engine.set(IndexRange { start: 5, end: 15 }).is_ok());
    assert_eq!(window_of(&engine), expected(5, 15));
}

#[test]
fn refresh_failure_leaves_an_empty_window() {
    let fail: Cell<bool> = Cell::new(false);
    let factory = from_range_fn(|r: IndexRange, is_rev: bool| {
        if fail.get() {
            return Err(LazyError::FetchFailed);
        }
        let mut v: Vec<u64> = (r.start..r.end).map(value_of).collect();
        if is_rev {
            v.reverse();
        }
        Ok(v)
    });
    let mut engine = use_lazy(factory);

    assert!(engine.set(IndexRange { start: 2, end: 6 }).is_ok());
    fail.set(true);
    assert_eq!(engine.refresh(), Err(LazyError::FetchFailed));
    assert_eq!(window_of(&engine), Vec::<u64>::new());
    // the applied range is untouched; a later refresh restores the window
    fail.set(false);
    assert!(engine.refresh().is_ok());
    assert_eq!(window_of(&engine), expected(2, 6));
}

#[test]
fn range_factory_result_of_wrong_length_counts_as_failure() {
    let factory = from_range_fn(|_r: IndexRange, _is_rev: bool| Ok(vec![value_of(0)]));
    let mut engine = use_lazy(factory);
    let r = engine.set(IndexRange { start: 0, end: 5 });
    assert_eq!(r, Err(LazyError::FetchFailed));
    assert_eq!(window_of(&engine), Vec::<u64>::new());
}

#[test]
fn disjoint_forward_jump_fetches_from_old_end() {
    // the diff always fetches `last.end .. new.end`: after a jump past the
    // whole window the buffer is rebuilt from the old end
    let calls: RefCell<Vec<(usize, usize, bool)>> = RefCell::new(Vec::new());
    let factory = from_range_fn(|r: IndexRange, is_rev: bool| {
        calls.borrow_mut().push((r.start, r.end, is_rev));
        let mut v: Vec<u64> = (r.start..r.end).map(value_of).collect();
        if is_rev {
            v.reverse();
        }
        Ok(v)
    });
    let mut engine = use_lazy(factory);
    assert!(engine.set(IndexRange { start: 0, end: 5 }).is_ok());
    calls.borrow_mut().clear();
    assert!(engine.set(IndexRange { start: 20, end: 25 }).is_ok());
    assert_eq!(*calls.borrow(), vec![(5, 25, false)]);
    assert_eq!(window_of(&engine), expected(5, 25));
}
