//! The ordered container holding the materialized window.
//!
//! Buffer position `0` corresponds to the start of the applied range; the
//! engine mutates the buffer only at its two ends. Eviction is destructive:
//! a popped value is dropped, never cached.

use std::collections::VecDeque;
use vstd::prelude::*;

use crate::clamped;

verus! {

/// Double-ended container of the currently materialized values. Exposed
/// read-only to the rendering layer; only the engine mutates it.
pub struct WindowBuffer<V> {
    items: VecDeque<V>,
}

impl<V> View for WindowBuffer<V> {
    type V = Seq<V>;

    closed spec fn view(&self) -> Seq<V> {
        self.items@
    }
}

impl<V> WindowBuffer<V> {
    /// An empty buffer.
    pub fn new() -> (r: WindowBuffer<V>)
        ensures
            r@ == Seq::<V>::empty(),
    {
        WindowBuffer { items: VecDeque::new() }
    }

    /// Number of materialized values.
    pub fn len(&self) -> (r: usize)
        ensures
            r == self@.len(),
    {
        self.items.len()
    }

    /// The value at buffer position `i`; it belongs to logical index
    /// `applied_range.start + i`.
    pub fn get(&self, i: usize) -> (r: &V)
        requires
            i < self@.len(),
        ensures
            *r == self@[i as int],
    {
        &self.items[i]
    }

    /// Pushes each value of `fetched` to the front, in yield order. When the
    /// values were yielded in descending index order, the front of the
    /// buffer ends up in ascending index order.
    pub fn push_front_yielded(&mut self, fetched: Vec<V>)
        ensures
            final(self)@.len() == old(self)@.len() + fetched@.len(),
            forall|k: int|
                0 <= k < fetched@.len() ==> final(self)@[k] == fetched@[fetched@.len() - 1 - k],
            final(self)@.subrange(fetched@.len() as int, final(self)@.len() as int) == old(self)@,
    {
        let ghost orig = fetched@;
        let ghost pre = self.items@;
        let mut fetched = fetched;
        proof {
            assert(fetched@ =~= orig.subrange(0, orig.len() as int));
            assert(self.items@.subrange(0, self.items@.len() as int) =~= pre);
        }
        while fetched.len() > 0
            invariant
                fetched@.len() <= orig.len(),
                fetched@ == orig.subrange(orig.len() - fetched@.len(), orig.len() as int),
                self.items@.len() == pre.len() + orig.len() - fetched@.len(),
                forall|k: int|
                    0 <= k < orig.len() - fetched@.len() ==> self.items@[k] == orig[orig.len()
                        - fetched@.len() - 1 - k],
                self.items@.subrange(
                    orig.len() - fetched@.len(),
                    self.items@.len() as int,
                ) == pre,
            decreases fetched@.len(),
        {
            let ghost before = self.items@;
            let ghost done = orig.len() - fetched@.len();
            let value = fetched.remove(0);
            self.items.push_front(value);
            proof {
                assert(fetched@ =~= orig.subrange(orig.len() - fetched@.len(), orig.len() as int));
                assert(value == orig[done]);
                assert(self.items@.subrange(done + 1, self.items@.len() as int) =~= pre);
            }
        }
        proof {
            assert(final(self)@.subrange(orig.len() as int, final(self)@.len() as int) =~= pre);
        }
    }

    /// Pushes each value of `fetched` to the back, in yield order.
    pub fn push_back_yielded(&mut self, fetched: Vec<V>)
        ensures
            final(self)@ == old(self)@ + fetched@,
    {
        let ghost orig = fetched@;
        let ghost pre = self.items@;
        let mut fetched = fetched;
        proof {
            assert(fetched@ =~= orig.subrange(0, orig.len() as int));
            assert(self.items@ =~= pre + orig.subrange(0, 0));
        }
        while fetched.len() > 0
            invariant
                fetched@.len() <= orig.len(),
                fetched@ == orig.subrange(orig.len() - fetched@.len(), orig.len() as int),
                self.items@ == pre + orig.subrange(0, orig.len() - fetched@.len()),
            decreases fetched@.len(),
        {
            let ghost done = orig.len() - fetched@.len();
            let value = fetched.remove(0);
            self.items.push_back(value);
            proof {
                assert(fetched@ =~= orig.subrange(orig.len() - fetched@.len(), orig.len() as int));
                assert(value == orig[done]);
                assert(self.items@ =~= pre + orig.subrange(0, done + 1));
            }
        }
        proof {
            assert(final(self)@ =~= pre + orig);
        }
    }

    /// Pops up to `count` values from the front and discards them.
    pub fn evict_front(&mut self, count: usize)
        ensures
            final(self)@ == old(self)@.subrange(
                clamped(count as int, old(self)@.len() as int),
                old(self)@.len() as int,
            ),
    {
        let ghost pre = self.items@;
        let bound: usize = if count < self.items.len() {
            count
        } else {
            self.items.len()
        };
        let mut i: usize = 0;
        proof {
            assert(self.items@ =~= pre.subrange(0, pre.len() as int));
        }
        while i < bound
            invariant
                i <= bound,
                bound == clamped(count as int, pre.len() as int),
                self.items@ == pre.subrange(i as int, pre.len() as int),
            decreases bound - i,
        {
            self.items.pop_front();
            i = i + 1;
            proof {
                assert(self.items@ =~= pre.subrange(i as int, pre.len() as int));
            }
        }
    }

    /// Pops up to `count` values from the back and discards them.
    pub fn evict_back(&mut self, count: usize)
        ensures
            final(self)@ == old(self)@.subrange(
                0,
                old(self)@.len() - clamped(count as int, old(self)@.len() as int),
            ),
    {
        let keep: usize = if count < self.items.len() {
            self.items.len() - count
        } else {
            0
        };
        self.items.truncate(keep);
    }

    /// Discards every materialized value.
    pub fn clear(&mut self)
        ensures
            final(self)@ == Seq::<V>::empty(),
    {
        self.items.clear();
    }
}

} // verus!
