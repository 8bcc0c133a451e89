//! The capability that materializes item values on demand.
//!
//! A [`Factory`] produces the values for a requested sub-range, in the
//! direction the caller asks for. The direction flag is a contract, not a
//! presentational reversal: under `is_rev` the values are yielded in
//! descending index order, so that a caller pushing each yielded value to
//! the front of a sequence ends up with ascending logical order.

use vstd::prelude::*;

use crate::index_range::IndexRange;
use crate::LazyError;

verus! {

/// A source of item values for arbitrary sub-ranges of the list.
///
/// The trait is implemented by the closure adapters below and by any host
/// data source. Its model is the relation [`Factory::produces`]: everything
/// a successful `make` returns is pinned, position by position, to that
/// relation, so a caller knows which logical index every yielded value
/// belongs to.
pub trait Factory: Sized {
    type Item;

    /// Model of the source: `produces(i, v)` holds exactly of the values `v`
    /// this factory can yield for logical index `i`.
    spec fn produces(&self, i: int, v: Self::Item) -> bool;

    /// The states in which `make` may be invoked on `range`: for the closure
    /// adapters, the precondition of the wrapped closure.
    spec fn ready(&self, range: IndexRange, is_rev: bool) -> bool;

    /// Produces the values for `range`. With `is_rev` false the result holds
    /// the values of `range.start, start + 1, …, end - 1` in that order;
    /// with `is_rev` true it holds the values of `end - 1, …, start` in that
    /// order. A factory may fail instead (a lost connection, a rejected
    /// request); it then returns an error and yields nothing.
    ///
    /// A factory must not promise success: whether a given invocation
    /// succeeds is its own affair. What it yields on success is not.
    fn make(&self, range: IndexRange, is_rev: bool) -> (r: Result<Vec<Self::Item>, LazyError>)
        requires
            range.wf(),
            self.ready(range, is_rev),
        ensures
            r matches Ok(v) ==> {
                &&& v@.len() == range.spec_len()
                &&& forall|k: int|
                    0 <= k < v@.len() ==> self.produces(
                        if is_rev {
                            range.end - 1 - k
                        } else {
                            range.start + k
                        },
                        #[trigger] v@[k],
                    )
            },
    ;
}

/// A factory yields at most one value per index: any two values it can
/// yield for the same index are equal. Holds of every pure source, such as
/// [`FromFn`] over a closure with a functional postcondition.
pub open spec fn deterministic<F: Factory>(f: F) -> bool {
    forall|i: int, v: F::Item, w: F::Item|
        #[trigger] f.produces(i, v) && #[trigger] f.produces(i, w) ==> v == w
}

/// Adapter: a per-index function as a [`Factory`].
///
/// `make` iterates the function over the requested indices, in descending
/// order under `is_rev`, and collects the results; it never fails.
pub struct FromFn<F> {
    pub f: F,
}

/// Wraps a per-index function into a [`FromFn`] factory.
pub fn from_fn<F, V>(f: F) -> (r: FromFn<F>) where F: Fn(usize) -> V
    ensures
        r == (FromFn { f }),
{
    FromFn { f }
}

impl<F, V> Factory for FromFn<F> where F: Fn(usize) -> V {
    type Item = V;

    /// A value is produced for `i` exactly when the wrapped function can
    /// return it for `i`.
    open spec fn produces(&self, i: int, v: V) -> bool {
        &&& 0 <= i <= usize::MAX
        &&& call_ensures(self.f, ((i as usize),), v)
    }

    /// The wrapped function must accept every index of the range.
    open spec fn ready(&self, range: IndexRange, is_rev: bool) -> bool {
        forall|i: usize| range.start <= i < range.end ==> call_requires(self.f, (i,))
    }

    fn make(&self, range: IndexRange, is_rev: bool) -> (r: Result<Vec<V>, LazyError>)
        ensures
            r is Ok,
    {
        let mut out: Vec<V> = Vec::new();
        if is_rev {
            let mut idx = range.end;
            while idx > range.start
                invariant
                    range.start <= idx <= range.end,
                    self.ready(range, is_rev),
                    out@.len() == range.end - idx,
                    forall|k: int|
                        0 <= k < out@.len() ==> self.produces(range.end - 1 - k, #[trigger] out@[k]),
                decreases idx,
            {
                idx = idx - 1;
                let value = (self.f)(idx);
                out.push(value);
            }
        } else {
            let mut idx = range.start;
            while idx < range.end
                invariant
                    range.start <= idx <= range.end,
                    self.ready(range, is_rev),
                    out@.len() == idx - range.start,
                    forall|k: int|
                        0 <= k < out@.len() ==> self.produces(range.start + k, #[trigger] out@[k]),
                decreases range.end - idx,
            {
                let value = (self.f)(idx);
                out.push(value);
                idx = idx + 1;
            }
        }
        Ok(out)
    }
}

/// Adapter: a per-range function as a [`Factory`].
///
/// The wrapped function is asked to honor the direction flag itself, which
/// lets a source produce a reversed result more cheaply, and it may fail. A
/// result of the wrong length is treated as a failed fetch: `make` then
/// reports an error and yields nothing. `make` delegates and nothing more:
/// a success is exactly a right-length result of the wrapped function, and
/// an error is reported only where the function itself could fail or return
/// the wrong length — a source that guarantees right-length results makes
/// this adapter infallible.
pub struct FromRangeFn<F> {
    pub f: F,
}

/// Wraps a per-range function into a [`FromRangeFn`] factory.
pub fn from_range_fn<F, V>(f: F) -> (r: FromRangeFn<F>) where F: Fn(
    IndexRange,
    bool,
) -> Result<Vec<V>, LazyError>
    ensures
        r == (FromRangeFn { f }),
{
    FromRangeFn { f }
}

impl<F, V> Factory for FromRangeFn<F> where F: Fn(IndexRange, bool) -> Result<Vec<V>, LazyError> {
    type Item = V;

    /// A value is produced for `i` exactly when some call of the wrapped
    /// function can yield it, at the position that corresponds to `i` under
    /// that call's range and direction, within a result of the right length.
    open spec fn produces(&self, i: int, v: V) -> bool {
        exists|range: IndexRange, is_rev: bool, out: Vec<V>, k: int|
            {
                &&& #[trigger] call_ensures(
                    self.f,
                    (range, is_rev),
                    Result::<Vec<V>, LazyError>::Ok(out),
                )
                &&& out@.len() == range.spec_len()
                &&& 0 <= k < out@.len()
                &&& v == #[trigger] out@[k]
                &&& i == if is_rev {
                    range.end - 1 - k
                } else {
                    range.start + k
                }
            }
    }

    /// The wrapped function must accept the range and direction.
    open spec fn ready(&self, range: IndexRange, is_rev: bool) -> bool {
        call_requires(self.f, (range, is_rev))
    }

    fn make(&self, range: IndexRange, is_rev: bool) -> (r: Result<Vec<V>, LazyError>)
        ensures
            r matches Ok(v) ==> call_ensures(
                self.f,
                (range, is_rev),
                Result::<Vec<V>, LazyError>::Ok(v),
            ),
            r is Err ==> exists|out: Result<Vec<V>, LazyError>|
                #[trigger] call_ensures(self.f, (range, is_rev), out) && (out is Err || (
                out matches Ok(v) && v@.len() != range.spec_len())),
    {
        match (self.f)(range, is_rev) {
            Ok(out) => {
                if out.len() == range.len() {
                    proof {
                        assert forall|k: int| 0 <= k < out@.len() implies self.produces(
                            if is_rev {
                                range.end - 1 - k
                            } else {
                                range.start + k
                            },
                            out@[k],
                        ) by {
                            assert(call_ensures(
                                self.f,
                                (range, is_rev),
                                Result::<Vec<V>, LazyError>::Ok(out),
                            ));
                        }
                    }
                    Ok(out)
                } else {
                    proof {
                        assert(call_ensures(
                            self.f,
                            (range, is_rev),
                            Result::<Vec<V>, LazyError>::Ok(out),
                        ));
                    }
                    Err(LazyError::FetchFailed)
                }
            },
            Err(e) => {
                proof {
                    assert(call_ensures(
                        self.f,
                        (range, is_rev),
                        Result::<Vec<V>, LazyError>::Err(e),
                    ));
                }
                Err(LazyError::FetchFailed)
            },
        }
    }
}

} // verus!
