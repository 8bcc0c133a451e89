//! The window engine: the applied range, the buffer, and the factory.
//!
//! `set` diffs a requested range against the applied one and performs at
//! most one edit per side of the window — a fetch where the window grew, an
//! eviction where it shrank — both computed against the same prior
//! snapshot. `refresh` rebuilds the buffer for the applied range from
//! scratch. Each fetch is applied to the buffer as one unit: a failed fetch
//! leaves the buffer untouched on that side, the other side is still
//! edited, and the boundary of the failed side keeps its previous value, so
//! that the next request naturally re-requests the missing sub-range.

use vstd::prelude::*;

use crate::buffer::WindowBuffer;
use crate::clamped;
use crate::diff::{compute_diff, BackEdit, FrontEdit};
use crate::factory::{deterministic, Factory};
use crate::index_range::IndexRange;
use crate::LazyError;

verus! {

/// The values of `s` all match `f` at consecutive indices starting at
/// `from`: `s[k]` is a value `f` produces for index `from + k`.
pub open spec fn window_matches<F: Factory>(f: F, from: int, s: Seq<F::Item>) -> bool {
    forall|k: int| 0 <= k < s.len() ==> f.produces(from + k, #[trigger] s[k])
}

/// How the front edit of a `set` call relates the buffer `b` before it to
/// the buffer `b1` after it, when the applied start moves from `ls` to
/// `ns`. `fetch_ok` is false exactly when a front fetch was needed and
/// failed; the buffer is then untouched. Evictions cannot fail.
pub open spec fn front_edit_rel<F: Factory>(
    f: F,
    b: Seq<F::Item>,
    ls: int,
    ns: int,
    b1: Seq<F::Item>,
    fetch_ok: bool,
) -> bool {
    if ns < ls {
        if fetch_ok {
            &&& b1.len() == b.len() + (ls - ns)
            &&& window_matches(f, ns, b1.subrange(0, ls - ns))
            &&& b1.subrange(ls - ns, b1.len() as int) == b
        } else {
            b1 == b
        }
    } else {
        &&& fetch_ok
        &&& b1 == b.subrange(clamped(ns - ls, b.len() as int), b.len() as int)
    }
}

/// How the back edit of a `set` call relates the buffer `b1` after the
/// front edit to the final buffer `b2`, when the applied end moves from
/// `le` to `ne` and the requested range is `[ns, ne)`. The back edit is
/// skipped entirely for an empty request. `fetch_ok` is false exactly when
/// a back fetch was needed and failed.
pub open spec fn back_edit_rel<F: Factory>(
    f: F,
    b1: Seq<F::Item>,
    le: int,
    ns: int,
    ne: int,
    b2: Seq<F::Item>,
    fetch_ok: bool,
) -> bool {
    if ns != ne && ne > le {
        if fetch_ok {
            &&& b2.len() == b1.len() + (ne - le)
            &&& b2.subrange(0, b1.len() as int) == b1
            &&& window_matches(f, le, b2.subrange(b1.len() as int, b2.len() as int))
        } else {
            b2 == b1
        }
    } else if ns != ne && ne < le {
        &&& fetch_ok
        &&& b2 == b1.subrange(0, b1.len() - clamped(le - ne, b1.len() as int))
    } else {
        &&& fetch_ok
        &&& b2 == b1
    }
}

/// The applied range after a `set` call for `new` whose front fetch
/// succeeded or was not needed (`fo`) and whose back fetch succeeded or was
/// not needed (`bo`). A boundary whose fetch failed keeps its previous
/// value; the end is clamped so the result stays well formed.
pub open spec fn applied_after(last: IndexRange, new: IndexRange, fo: bool, bo: bool) -> IndexRange {
    let s = if fo {
        new.start
    } else {
        last.start
    };
    let e = if bo {
        new.end
    } else {
        last.end
    };
    IndexRange { start: s, end: if s <= e {
        e
    } else {
        s
    } }
}

/// One possible outcome of `set`: the edits of both sides, with `mid` the
/// buffer between them and `fo`/`bo` the per-side fetch outcomes.
pub open spec fn set_edits<F: Factory>(
    pre: UseLazy<F>,
    new: IndexRange,
    post: UseLazy<F>,
    ok: bool,
    mid: Seq<F::Item>,
    fo: bool,
    bo: bool,
) -> bool {
    &&& front_edit_rel(
        pre.source(),
        pre.window(),
        pre.applied_range().start as int,
        new.start as int,
        mid,
        fo,
    )
    &&& back_edit_rel(
        pre.source(),
        mid,
        pre.applied_range().end as int,
        new.start as int,
        new.end as int,
        post.window(),
        bo,
    )
    &&& post.applied_range() == applied_after(pre.applied_range(), new, fo, bo)
    &&& (ok <==> fo && bo)
}

/// Everything a `set` call guarantees, as a relation between the engine
/// before and after the call.
pub open spec fn set_transition<F: Factory>(
    pre: UseLazy<F>,
    new: IndexRange,
    post: UseLazy<F>,
    ok: bool,
) -> bool {
    &&& post.source() == pre.source()
    &&& exists|mid: Seq<F::Item>, fo: bool, bo: bool|
        #[trigger] set_edits(pre, new, post, ok, mid, fo, bo)
}

/// The requested ranges under which the diff algorithm keeps the buffer
/// aligned: a nonempty request must start no later than the applied end,
/// and an empty request — "scrolled past everything" — must start no
/// earlier than the applied end, so the front edit drains the buffer.
pub open spec fn window_preserves(last: IndexRange, new: IndexRange) -> bool {
    if new.start == new.end {
        new.start >= last.end
    } else {
        new.start <= last.end
    }
}

/// The window engine.
///
/// Owns the last applied range, the buffer of materialized values and the
/// factory. Created with the empty range `0..0` and an empty buffer; both
/// evolve strictly through [`UseLazy::set`] and [`UseLazy::refresh`].
pub struct UseLazy<F: Factory> {
    factory: F,
    values: WindowBuffer<F::Item>,
    range: IndexRange,
}

/// Creates an engine over `factory`, with applied range `0..0` and an
/// empty buffer.
pub fn use_lazy<F: Factory>(factory: F) -> (r: UseLazy<F>)
    ensures
        r.source() == factory,
        r.applied_range() == (IndexRange { start: 0, end: 0 }),
        r.window().len() == 0,
{
    UseLazy { factory, values: WindowBuffer::new(), range: IndexRange { start: 0, end: 0 } }
}

impl<F: Factory> UseLazy<F> {
    /// The factory this engine fetches from.
    pub closed spec fn source(&self) -> F {
        self.factory
    }

    /// The materialized values, front first.
    pub closed spec fn window(&self) -> Seq<F::Item> {
        self.values@
    }

    /// The last applied range.
    pub closed spec fn applied_range(&self) -> IndexRange {
        self.range
    }

    /// The applied range is well formed.
    pub open spec fn wf(&self) -> bool {
        self.applied_range().wf()
    }

    /// The buffer holds exactly one value for every index of the applied
    /// range, in order: buffer position `k` matches logical index
    /// `applied_range().start + k`. Holds from construction on, as long as
    /// every request preserves the window (see [`window_preserves`]); a
    /// failed fetch does not break it, because the boundary of the failed
    /// side is rolled back along with the buffer.
    pub open spec fn aligned(&self) -> bool {
        &&& self.window().len() == self.applied_range().spec_len()
        &&& window_matches(self.source(), self.applied_range().start as int, self.window())
    }

    /// Read-only view of the buffer for the rendering layer.
    pub fn values(&self) -> (r: &WindowBuffer<F::Item>)
        ensures
            r@ == self.window(),
    {
        &self.values
    }

    /// The last applied range.
    pub fn range(&self) -> (r: IndexRange)
        ensures
            r == self.applied_range(),
    {
        self.range
    }

    /// Applies a newly requested range.
    ///
    /// Compares `range` against the applied range and edits the buffer on
    /// both sides, fetching entering values from the factory and discarding
    /// leaving ones. Eviction steps cannot fail; if a fetch fails, that side
    /// of the buffer stays untouched, its boundary keeps the previous value,
    /// the other side is still edited, and the call reports `FetchFailed`.
    pub fn set(&mut self, range: IndexRange) -> (r: Result<(), LazyError>)
        requires
            old(self).wf(),
            range.wf(),
            range.start < old(self).applied_range().start ==> old(self).source().ready(
                (IndexRange { start: range.start, end: old(self).applied_range().start }),
                true,
            ),
            range.start != range.end && range.end > old(self).applied_range().end
                ==> old(self).source().ready(
                (IndexRange { start: old(self).applied_range().end, end: range.end }),
                false,
            ),
        ensures
            final(self).wf(),
            set_transition(*old(self), range, *final(self), r is Ok),
            r is Ok ==> final(self).applied_range() == range,
            r matches Err(e) ==> e == LazyError::FetchFailed,
            range.start >= old(self).applied_range().start && (range.start == range.end
                || range.end <= old(self).applied_range().end) ==> r is Ok,
            old(self).aligned() && window_preserves(old(self).applied_range(), range)
                ==> final(self).aligned(),
    {
        let ghost pre = *self;
        let last = self.range;
        let ghost ls = last.start as int;
        let ghost le = last.end as int;
        let ghost ns = range.start as int;
        let ghost ne = range.end as int;
        let edits = compute_diff(last, range);
        let mut front_ok: bool = true;
        let mut back_ok: bool = true;
        let mut applied_start = range.start;
        let mut applied_end = range.end;

        match edits.0 {
            FrontEdit::FetchFront(fr) => {
                match self.factory.make(fr, true) {
                    Ok(items) => {
                        let ghost fetched = items@;
                        self.values.push_front_yielded(items);
                        proof {
                            lemma_front_fetch_applied(
                                pre.source(),
                                pre.window(),
                                ls,
                                ns,
                                fetched,
                                self.values@,
                            );
                        }
                    },
                    Err(_) => {
                        front_ok = false;
                        applied_start = last.start;
                    },
                }
            },
            FrontEdit::EvictFront(count) => {
                self.values.evict_front(count);
            },
            FrontEdit::KeepFront => {
                proof {
                    assert(pre.window().subrange(0, pre.window().len() as int) =~= pre.window());
                }
            },
        }
        let ghost mid = self.values@;
        proof {
            assert(front_edit_rel(pre.source(), pre.window(), ls, ns, mid, front_ok));
        }

        match edits.1 {
            BackEdit::FetchBack(br) => {
                match self.factory.make(br, false) {
                    Ok(items) => {
                        let ghost fetched = items@;
                        self.values.push_back_yielded(items);
                        proof {
                            lemma_back_fetch_applied(pre.source(), mid, le, fetched, self.values@);
                        }
                    },
                    Err(_) => {
                        back_ok = false;
                        applied_end = last.end;
                    },
                }
            },
            BackEdit::EvictBack(count) => {
                self.values.evict_back(count);
            },
            BackEdit::KeepBack => {},
        }
        proof {
            assert(back_edit_rel(pre.source(), mid, le, ns, ne, self.values@, back_ok));
        }

        let applied = IndexRange {
            start: applied_start,
            end: if applied_start <= applied_end {
                applied_end
            } else {
                applied_start
            },
        };
        self.range = applied;
        let result: Result<(), LazyError> = if front_ok && back_ok {
            Ok(())
        } else {
            Err(LazyError::FetchFailed)
        };
        proof {
            assert(applied == applied_after(pre.applied_range(), range, front_ok, back_ok));
            assert(set_edits(pre, range, *self, result is Ok, mid, front_ok, back_ok));
            if pre.aligned() && window_preserves(pre.applied_range(), range) {
                lemma_alignment(
                    pre.source(),
                    pre.window(),
                    pre.applied_range(),
                    range,
                    mid,
                    self.values@,
                    front_ok,
                    back_ok,
                );
            }
        }
        result
    }

    /// Rebuilds the buffer for the applied range.
    ///
    /// Discards every buffered value, then fetches the whole applied range
    /// in ascending order and repopulates the buffer. Used when the
    /// factory's underlying data changed out of band: the visible window is
    /// recomputed without changing which indices are visible. On fetch
    /// failure the buffer is left empty and `FetchFailed` is reported.
    pub fn refresh(&mut self) -> (r: Result<(), LazyError>)
        requires
            old(self).wf(),
            old(self).source().ready(old(self).applied_range(), false),
        ensures
            final(self).wf(),
            final(self).applied_range() == old(self).applied_range(),
            final(self).source() == old(self).source(),
            r is Ok ==> final(self).aligned(),
            r matches Err(e) ==> e == LazyError::FetchFailed && final(self).window().len() == 0,
    {
        self.values.clear();
        match self.factory.make(self.range, false) {
            Ok(items) => {
                let ghost fetched = items@;
                self.values.push_back_yielded(items);
                proof {
                    assert(self.values@ =~= fetched);
                }
                Ok(())
            },
            Err(_) => Err(LazyError::FetchFailed),
        }
    }
}

/// Law: the reverse-yield contract reconstructs ascending order. A fetch
/// for `[ns, ls)` that yielded its values in descending index order
/// (`fetched[k]` matches `ls - 1 - k`), pushed one by one to the front of
/// `b` in yield order (so `b1[k] == fetched[fetched.len() - 1 - k]`),
/// leaves the front of `b1` in ascending index order starting at `ns`,
/// with the old buffer intact behind it.
pub proof fn lemma_front_fetch_applied<F: Factory>(
    f: F,
    b: Seq<F::Item>,
    ls: int,
    ns: int,
    fetched: Seq<F::Item>,
    b1: Seq<F::Item>,
)
    requires
        ns < ls,
        fetched.len() == ls - ns,
        forall|k: int| 0 <= k < fetched.len() ==> f.produces(ls - 1 - k, #[trigger] fetched[k]),
        b1.len() == b.len() + fetched.len(),
        forall|k: int| 0 <= k < fetched.len() ==> b1[k] == fetched[fetched.len() - 1 - k],
        b1.subrange(fetched.len() as int, b1.len() as int) == b,
    ensures
        front_edit_rel(f, b, ls, ns, b1, true),
{
    assert forall|k: int| 0 <= k < ls - ns implies f.produces(
        ns + k,
        #[trigger] b1.subrange(0, ls - ns)[k],
    ) by {
        assert(b1.subrange(0, ls - ns)[k] == b1[k]);
        assert(b1[k] == fetched[ls - ns - 1 - k]);
        assert(f.produces(ls - 1 - (ls - ns - 1 - k), fetched[ls - ns - 1 - k]));
    }
}

/// A back fetch that yielded `fetched` in ascending index order starting at
/// `le`, appended to `mid`, establishes the back edit relation.
proof fn lemma_back_fetch_applied<F: Factory>(
    f: F,
    mid: Seq<F::Item>,
    le: int,
    fetched: Seq<F::Item>,
    b2: Seq<F::Item>,
)
    requires
        forall|k: int| 0 <= k < fetched.len() ==> f.produces(le + k, #[trigger] fetched[k]),
        b2 == mid + fetched,
    ensures
        b2.len() == mid.len() + fetched.len(),
        b2.subrange(0, mid.len() as int) == mid,
        window_matches(f, le, b2.subrange(mid.len() as int, b2.len() as int)),
{
    assert(b2.subrange(0, mid.len() as int) =~= mid);
    assert(b2.subrange(mid.len() as int, b2.len() as int) =~= fetched);
}

/// The central preservation argument: starting from an aligned window,
/// any `set` outcome for a window-preserving request — fetch failures
/// included — leaves an aligned window over the resulting applied range.
proof fn lemma_alignment<F: Factory>(
    f: F,
    b: Seq<F::Item>,
    last: IndexRange,
    new: IndexRange,
    mid: Seq<F::Item>,
    b2: Seq<F::Item>,
    fo: bool,
    bo: bool,
)
    requires
        last.wf(),
        new.wf(),
        b.len() == last.spec_len(),
        window_matches(f, last.start as int, b),
        window_preserves(last, new),
        front_edit_rel(f, b, last.start as int, new.start as int, mid, fo),
        back_edit_rel(f, mid, last.end as int, new.start as int, new.end as int, b2, bo),
    ensures
        applied_after(last, new, fo, bo).wf(),
        b2.len() == applied_after(last, new, fo, bo).spec_len(),
        window_matches(f, applied_after(last, new, fo, bo).start as int, b2),
{
    let ls = last.start as int;
    let le = last.end as int;
    let ns = new.start as int;
    let ne = new.end as int;
    if ns == ne {
        // empty request at or past the applied end: the front eviction
        // drains the whole buffer, the back edit is skipped
        assert(ns >= le);
        assert(clamped(ns - ls, b.len() as int) == b.len());
        assert(mid.len() == 0);
        assert(b2 == mid);
    } else {
        assert(ns <= le);
        let ms = if fo {
            ns
        } else {
            ls
        };
        // after the front edit the buffer is aligned at ms
        if ns < ls {
            if fo {
                assert forall|k: int| 0 <= k < mid.len() implies f.produces(
                    ns + k,
                    #[trigger] mid[k],
                ) by {
                    if k < ls - ns {
                        assert(mid.subrange(0, ls - ns)[k] == mid[k]);
                    } else {
                        assert(mid.subrange(ls - ns, mid.len() as int)[k - (ls - ns)] == mid[k]);
                        assert(b[k - (ls - ns)] == mid[k]);
                        assert(f.produces(ls + (k - (ls - ns)), b[k - (ls - ns)]));
                    }
                }
            }
        } else {
            assert(clamped(ns - ls, b.len() as int) == ns - ls);
            assert forall|k: int| 0 <= k < mid.len() implies f.produces(
                ns + k,
                #[trigger] mid[k],
            ) by {
                assert(mid[k] == b[ns - ls + k]);
                assert(f.produces(ls + (ns - ls + k), b[ns - ls + k]));
            }
        }
        assert(mid.len() == le - ms);
        assert(window_matches(f, ms, mid));
        // the back edit keeps the alignment at ms
        if ne > le {
            if bo {
                assert forall|k: int| 0 <= k < b2.len() implies f.produces(
                    ms + k,
                    #[trigger] b2[k],
                ) by {
                    if k < mid.len() {
                        assert(b2.subrange(0, mid.len() as int)[k] == b2[k]);
                        assert(f.produces(ms + k, mid[k]));
                    } else {
                        let j = k - mid.len();
                        assert(b2.subrange(mid.len() as int, b2.len() as int)[j] == b2[k]);
                        assert(f.produces(le + j, b2.subrange(mid.len() as int, b2.len() as int)[j]));
                    }
                }
                assert(window_matches(f, ms, b2));
            }
        } else if ne < le {
            let d = clamped(le - ne, mid.len() as int);
            assert(b2 == mid.subrange(0, mid.len() - d));
            if le - ne <= mid.len() {
                assert forall|k: int| 0 <= k < b2.len() implies f.produces(
                    ms + k,
                    #[trigger] b2[k],
                ) by {
                    assert(b2[k] == mid[k]);
                }
                assert(window_matches(f, ms, b2));
            } else {
                assert(b2.len() == 0);
                assert(ne < ms);
            }
        }
    }
}

/// Law: requesting the applied range again is a no-op — the buffer is
/// unchanged, no edit is performed, and the call cannot fail.
pub proof fn lemma_set_same_range_noop<F: Factory>(pre: UseLazy<F>, post: UseLazy<F>, ok: bool)
    requires
        pre.wf(),
        set_transition(pre, pre.applied_range(), post, ok),
    ensures
        ok,
        post.window() == pre.window(),
        post.applied_range() == pre.applied_range(),
{
    let new = pre.applied_range();
    let (mid, fo, bo) = choose|mid: Seq<F::Item>, fo: bool, bo: bool|
        #[trigger] set_edits(pre, new, post, ok, mid, fo, bo);
    assert(pre.window().subrange(
        clamped(0, pre.window().len() as int),
        pre.window().len() as int,
    ) =~= pre.window());
}

/// Law: an empty request at or past the applied end evicts every buffered
/// value without any back edit, leaving an empty buffer and the requested
/// empty range applied; no fetch is involved, so the call cannot fail.
pub proof fn lemma_empty_collapse<F: Factory>(
    pre: UseLazy<F>,
    new: IndexRange,
    post: UseLazy<F>,
    ok: bool,
)
    requires
        pre.wf(),
        pre.aligned(),
        new.start == new.end,
        new.start >= pre.applied_range().end,
        set_transition(pre, new, post, ok),
    ensures
        ok,
        post.window().len() == 0,
        post.applied_range() == new,
{
    let (mid, fo, bo) = choose|mid: Seq<F::Item>, fo: bool, bo: bool|
        #[trigger] set_edits(pre, new, post, ok, mid, fo, bo);
    assert(clamped(new.start - pre.applied_range().start, pre.window().len() as int)
        == pre.window().len());
}

/// Law: a factory that yields at most one value per index determines the
/// aligned window for a range completely — any two aligned buffers over the
/// same factory and range are equal. In particular, a `refresh` after a
/// successful `set` reproduces exactly the buffer that `set` built, and a
/// `set` from empty reproduces what an earlier identical `set` built.
pub proof fn lemma_aligned_window_unique<F: Factory>(
    f: F,
    range: IndexRange,
    b1: Seq<F::Item>,
    b2: Seq<F::Item>,
)
    requires
        deterministic(f),
        b1.len() == range.spec_len(),
        window_matches(f, range.start as int, b1),
        b2.len() == range.spec_len(),
        window_matches(f, range.start as int, b2),
    ensures
        b1 == b2,
{
    assert forall|k: int| 0 <= k < b1.len() implies b1[k] == b2[k] by {
        assert(f.produces(range.start + k, b1[k]));
        assert(f.produces(range.start + k, b2[k]));
    }
    assert(b1 =~= b2);
}

/// Law: when only the back fetch of a `set` fails, the front edit has
/// already been applied, the rest of the buffer is untouched from before
/// the call, and the applied end keeps its previous value, so an identical
/// later request repairs exactly the missing back portion.
pub proof fn lemma_back_fetch_failure_isolated<F: Factory>(
    pre: UseLazy<F>,
    new: IndexRange,
    post: UseLazy<F>,
)
    requires
        pre.wf(),
        new.wf(),
        new.start >= pre.applied_range().start,
        new.start != new.end,
        new.end > pre.applied_range().end,
        set_transition(pre, new, post, false),
    ensures
        post.window() == pre.window().subrange(
            clamped(new.start - pre.applied_range().start, pre.window().len() as int),
            pre.window().len() as int,
        ),
        post.applied_range() == applied_after(pre.applied_range(), new, true, false),
{
    let (mid, fo, bo) = choose|mid: Seq<F::Item>, fo: bool, bo: bool|
        #[trigger] set_edits(pre, new, post, false, mid, fo, bo);
}

} // verus!
