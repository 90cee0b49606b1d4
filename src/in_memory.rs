//! Runs the query engine against a page source held in memory: a service
//! whose whole record list is known. This is where the engine's guarantees
//! are stated against the records a service holds.
use vstd::prelude::*;

use crate::engine::{accepted_in, capped, ListQuery, Lister, BATCH_SIZE, LAST_PAGED_OFFSET};
use crate::types::Expense;

verus! {

broadcast use vstd::seq_lib::group_seq_properties;

/// The records that a service holding `up` returns for a request of `limit`
/// records from `offset`: with no offset from the start, with no limit to the end.
pub open spec fn page(up: Seq<Expense>, limit: Option<i32>, offset: Option<i32>) -> Seq<Expense> {
    let n = up.len() as int;
    let lo = match offset {
        Some(o) => if o < n {
            o as int
        } else {
            n
        },
        None => 0,
    };
    let hi = match limit {
        Some(l) => if lo + l < n {
            lo + l
        } else {
            n
        },
        None => n,
    };
    up.subrange(lo, hi)
}

/// The most page requests a run from `start` over `n` records makes:
/// one per batch that holds records, and one that comes back empty.
pub open spec fn call_bound(n: int, start: int) -> int {
    (n - start + 99) / 100 + 1
}

/// `i` clamped to at most `n`.
pub open spec fn clamp(i: int, n: int) -> int {
    if i < n {
        i
    } else {
        n
    }
}

/// Runs `q` against a service that holds `upstream`, in that order, and
/// returns the collected records and the number of page requests made.
///
/// - The run ends, and with a starting offset below `n + BATCH_SIZE` it makes
///   at most `ceil((n - start) / BATCH_SIZE) + 1` requests.
/// - With a cap, no more records than the cap come back.
/// - While every offset fits the service's offset parameter, the result is
///   exactly the records from the starting offset on that pass the filter,
///   in the service's order, cut to the cap if there is one.
pub fn list_in_memory(upstream: Vec<Expense>, q: ListQuery) -> (r: (Vec<Expense>, usize))
    requires
        q.wf(),
    ensures
        q.start() < upstream@.len() + BATCH_SIZE ==> r.1 <= call_bound(
            upstream@.len() as int,
            q.start(),
        ),
        q.cap is Some ==> r.0@.len() <= q.cap->0,
        upstream@.len() <= LAST_PAGED_OFFSET ==> r.0@ == capped(
            accepted_in(q.filter, upstream@.skip(clamp(q.start(), upstream@.len() as int))),
            q.cap,
        ),
{
    let ghost up = upstream@;
    let ghost n = up.len() as int;
    let ghost s = q.start();
    let ghost filter = q.filter;
    let ghost cap = q.cap;
    let len = upstream.len();
    let start: usize = match q.offset {
        Some(o) => if (o as usize) < len {
            o as usize
        } else {
            len
        },
        None => 0,
    };
    let mut rest = upstream;
    let mut rest = rest.split_off(start);
    let mut lister = Lister::new(q);
    let ghost pass = lister.pass_through();
    let mut calls: usize = 0;
    assert(up.subrange(clamp(s, n), clamp(s, n)) =~= Seq::<Expense>::empty());
    assert(accepted_in(filter, Seq::<Expense>::empty()) =~= Seq::<Expense>::empty()) by {
        reveal(Seq::filter);
    }
    while !lister.done
        invariant
            lister.wf(),
            lister.filter == filter,
            lister.cap == cap,
            lister.start == q.offset,
            pass == lister.pass_through(),
            n == up.len(),
            s == q.start(),
            0 <= s,
            calls <= 30000000,
            !lister.done ==> rest@ == up.skip(clamp(lister.offset as int, n)),
            !lister.done && pass ==> calls == 0 && lister.offset == s && lister.found@.len() == 0,
            !lister.done && !pass ==> {
                &&& lister.offset == s + 100 * calls
                &&& lister.found@ == accepted_in(
                    filter,
                    up.subrange(clamp(s, n), clamp(lister.offset as int, n)),
                )
                &&& !lister.full()
                &&& calls > 0 ==> s + 100 * (calls - 1) < n
            },
            lister.done && n <= LAST_PAGED_OFFSET ==> lister.found@ == capped(
                accepted_in(filter, up.skip(clamp(s, n))),
                cap,
            ),
            s < n + 100 ==> calls <= call_bound(n, s),
        decreases i32::MAX - lister.offset + if lister.done {
            0int
        } else {
            1int
        },
    {
        let req = lister.next_request();
        match req {
            Some(p) => {
                let ghost o = lister.offset as int;
                let ghost old_found = lister.found@;
                let k = match p.limit {
                    Some(l) => if (l as usize) < rest.len() {
                        l as usize
                    } else {
                        rest.len()
                    },
                    None => rest.len(),
                };
                let tail = rest.split_off(k);
                let batch = rest;
                rest = tail;
                proof {
                    if pass {
                        assert(batch@ =~= page(up, p.limit, p.offset));
                    } else {
                        assert(batch@ =~= page(up, p.limit, p.offset));
                        assert(rest@ =~= up.skip(clamp(o + 100, n)));
                    }
                }
                lister.take_batch(batch);
                proof {
                    lemma_calls_step(n, s, calls as int, pass, o, batch@.len() == 0);
                    if pass {
                        lemma_accepts_all(filter, up.skip(clamp(s, n)));
                    } else {
                        let w = up.subrange(clamp(s, n), clamp(o, n));
                        let w2 = up.subrange(clamp(s, n), clamp(o + 100, n));
                        let after = up.skip(clamp(o + 100, n));
                        assert(w + batch@ =~= w2);
                        assert(w2 + after =~= up.skip(clamp(s, n)));
                        assert(accepted_in(filter, w2) == accepted_in(filter, w) + accepted_in(filter, batch@));
                        assert(accepted_in(filter, up.skip(clamp(s, n))) == accepted_in(filter, w2)
                            + accepted_in(filter, after));
                        if lister.done && n <= LAST_PAGED_OFFSET {
                            if batch@.len() == 0 {
                                assert(after.len() == 0);
                                assert(accepted_in(filter, w2) + accepted_in(filter, after) =~= accepted_in(
                                    filter,
                                    w2,
                                ));
                                assert(old_found + accepted_in(filter, batch@) =~= old_found);
                            } else {
                                assert(lister.full());
                                lemma_capped_extend(
                                    accepted_in(filter, w2),
                                    accepted_in(filter, after),
                                    cap,
                                );
                            }
                        }
                    }
                }
                calls = calls + 1;
            },
            None => {},
        }
    }
    (lister.found, calls)
}

/// Counting one more request keeps the count under the bound.
proof fn lemma_calls_step(n: int, s: int, calls: int, pass: bool, o: int, empty: bool)
    requires
        0 <= s,
        0 <= calls,
        pass ==> calls == 0,
        !pass ==> o == s + 100 * calls,
        !pass && calls > 0 ==> s + 100 * (calls - 1) < n,
        !pass && !empty ==> o < n,
        s < n + 100 ==> calls <= call_bound(n, s),
    ensures
        s < n + 100 ==> calls + 1 <= call_bound(n, s),
{
    if s < n + 100 {
        if calls == 0 {
            assert((n - s + 99) / 100 >= 0);
        } else if !pass && !empty {
            assert(100 * calls <= n - s - 1);
            assert(calls <= (n - s + 99) / 100 - 1) by (nonlinear_arith)
                requires
                    100 * calls <= n - s - 1,
                    calls > 0,
            ;
        } else {
            assert(100 * (calls - 1) <= n - s - 1);
            assert(calls - 1 <= (n - s + 99) / 100 - 1) by (nonlinear_arith)
                requires
                    100 * (calls - 1) <= n - s - 1,
                    calls > 0,
            ;
        }
    }
}

/// A filter that rejects nothing keeps a sequence whole.
proof fn lemma_accepts_all(filter: crate::filter::RecordFilter, s: Seq<Expense>)
    requires
        !filter.is_active(),
    ensures
        accepted_in(filter, s) == s,
    decreases s.len(),
{
    reveal(Seq::filter);
    if s.len() > 0 {
        lemma_accepts_all(filter, s.drop_last());
        assert(s.drop_last().push(s.last()) =~= s);
    } else {
        assert(accepted_in(filter, s) =~= s);
    }
}

/// Once `a` fills the cap, what follows it is cut off.
proof fn lemma_capped_extend(a: Seq<Expense>, b: Seq<Expense>, cap: Option<usize>)
    requires
        cap is Some,
        a.len() >= cap->0,
    ensures
        capped(a + b, cap) == capped(a, cap),
{
    let c = cap->0 as int;
    assert((a + b).take(c) =~= a.take(c));
    if a.len() == c {
        assert(a.take(c) =~= a);
    }
}

} // verus!
