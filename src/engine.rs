//! The query engine: turns a listing query into a sequence of paged requests
//! to the expense service, filters each page on the client side and collects
//! the matches until enough are found or the service runs out of records.
//!
//! The engine is a state machine. Whoever drives it asks `next_request` for
//! the page to fetch, fetches it, and hands the page to `take_batch`; when
//! `next_request` gives `None` the matches are in `found`.
use vstd::prelude::*;

use crate::filter::RecordFilter;
use crate::projection::FieldSet;
use crate::types::{Expense, ListExpensesParams};

verus! {

/// The number of records asked for in each paged request.
pub const BATCH_SIZE: i32 = 100;

/// The largest offset from which a further page can still be asked for: the
/// offset after it must fit in the service's `i32` offset parameter.
pub const LAST_PAGED_OFFSET: i32 = 2147483547;

/// The arguments of a listing request, as a caller gives them.
pub struct ListExpensesArgs {
    pub group_id: Option<i64>,
    pub friend_id: Option<i64>,
    pub dated_after: Option<String>,
    pub dated_before: Option<String>,
    pub updated_after: Option<String>,
    pub updated_before: Option<String>,
    pub limit: Option<i32>,
    pub offset: Option<i32>,
    pub fields: Vec<String>,
    pub search_text: Option<String>,
    pub search_fields: Option<Vec<String>>,
    pub category_ids: Option<Vec<i64>>,
    pub include_deleted: Option<String>,
}

/// Why a listing request is refused before anything is fetched.
#[derive(Clone, Copy, Debug, PartialEq, Eq, Structural)]
pub enum QueryError {
    /// The result-count cap is negative.
    NegativeLimit,
    /// The starting offset is negative.
    NegativeOffset,
    /// No output field is named.
    NoFields,
}

/// The filters that the service applies itself; they are forwarded as they are.
pub struct Scope {
    pub group_id: Option<i64>,
    pub friend_id: Option<i64>,
    pub dated_after: Option<String>,
    pub dated_before: Option<String>,
    pub updated_after: Option<String>,
    pub updated_before: Option<String>,
}

/// A checked listing query.
pub struct ListQuery {
    pub scope: Scope,
    /// The most records to return; `None` returns every match.
    pub cap: Option<usize>,
    /// The caller's starting offset, as given.
    pub offset: Option<i32>,
    pub filter: RecordFilter,
    pub fields: FieldSet,
}

/// The characters of an optional text.
pub open spec fn text_view(t: Option<String>) -> Option<Seq<char>> {
    match t {
        Some(s) => Some(s@),
        None => None,
    }
}

/// A copy of an optional text.
pub(crate) fn copy_text(t: &Option<String>) -> (r: Option<String>)
    ensures
        text_view(r) == text_view(*t),
{
    match t {
        Some(s) => Some(s.clone()),
        None => None,
    }
}

impl ListQuery {
    /// Well-formed: the offset, if given, is not negative.
    pub open spec fn wf(self) -> bool {
        self.offset is Some ==> self.offset->0 >= 0
    }

    /// The offset that listing starts from.
    pub open spec fn start(self) -> int {
        match self.offset {
            Some(o) => o as int,
            None => 0,
        }
    }

    /// Checks a caller's arguments and builds the query. A negative cap, a
    /// negative offset and an empty field list are refused, in that order.
    pub fn from_args(args: ListExpensesArgs) -> (r: Result<ListQuery, QueryError>)
        ensures
            args.limit is Some && args.limit->0 < 0 ==> r == Err::<ListQuery, QueryError>(
                QueryError::NegativeLimit,
            ),
            !(args.limit is Some && args.limit->0 < 0) && args.offset is Some && args.offset->0 < 0
                ==> r == Err::<ListQuery, QueryError>(QueryError::NegativeOffset),
            !(args.limit is Some && args.limit->0 < 0) && !(args.offset is Some && args.offset->0
                < 0) && args.fields@.len() == 0 ==> r == Err::<ListQuery, QueryError>(
                QueryError::NoFields,
            ),
            r is Ok <==> !(args.limit is Some && args.limit->0 < 0) && !(args.offset is Some
                && args.offset->0 < 0) && args.fields@.len() > 0,
            r is Ok ==> {
                let q = r->Ok_0;
                &&& q.wf()
                &&& q.cap == match args.limit {
                    Some(l) => Some(l as usize),
                    None => None::<usize>,
                }
                &&& q.offset == args.offset
                &&& q.scope.group_id == args.group_id
                &&& q.scope.friend_id == args.friend_id
                &&& text_view(q.scope.dated_after) == text_view(args.dated_after)
                &&& text_view(q.scope.dated_before) == text_view(args.dated_before)
                &&& text_view(q.scope.updated_after) == text_view(args.updated_after)
                &&& text_view(q.scope.updated_before) == text_view(args.updated_before)
                &&& q.filter.category_ids == args.category_ids
                &&& q.filter.deleted == match args.include_deleted {
                    Some(name) => crate::filter::deleted_filter_of(name@),
                    None => crate::filter::DeletedFilter::Exclude,
                }
                &&& (q.filter.search is Some <==> args.search_text is Some)
                &&& (args.search_text is Some ==> q.filter.search->0@ == crate::text::lower_of(
                    args.search_text->0@,
                ))
                &&& q.filter.search_fields@ == match args.search_fields {
                    Some(names) => crate::filter::search_fields_of(names@),
                    None => crate::filter::default_search_fields(),
                }
                &&& forall|f: crate::projection::Field| #[trigger]
                    q.fields.fields@.contains(f) <==> crate::projection::requested(
                        args.fields@,
                        f,
                    )
            },
    {
        match args.limit {
            Some(l) => {
                if l < 0 {
                    return Err(QueryError::NegativeLimit);
                }
            },
            None => {},
        }
        match args.offset {
            Some(o) => {
                if o < 0 {
                    return Err(QueryError::NegativeOffset);
                }
            },
            None => {},
        }
        if args.fields.len() == 0 {
            return Err(QueryError::NoFields);
        }
        let cap = match args.limit {
            Some(l) => Some(l as usize),
            None => None,
        };
        let filter = RecordFilter::new(
            match &args.include_deleted {
                Some(s) => Some(s.as_str()),
                None => None,
            },
            args.category_ids,
            match &args.search_text {
                Some(s) => Some(s.as_str()),
                None => None,
            },
            match &args.search_fields {
                Some(v) => Some(v),
                None => None,
            },
        );
        let fields = FieldSet::from_names(&args.fields);
        let scope = Scope {
            group_id: args.group_id,
            friend_id: args.friend_id,
            dated_after: args.dated_after,
            dated_before: args.dated_before,
            updated_after: args.updated_after,
            updated_before: args.updated_before,
        };
        Ok(ListQuery { scope, cap, offset: args.offset, filter, fields })
    }
}

/// The records of `s` that `filter` accepts, in order.
pub open spec fn accepted_in(filter: RecordFilter, s: Seq<Expense>) -> Seq<Expense> {
    s.filter(|e: Expense| filter.accepts_spec(e))
}

/// `s` cut to at most `cap` records, when there is a cap.
pub open spec fn capped(s: Seq<Expense>, cap: Option<usize>) -> Seq<Expense> {
    match cap {
        Some(c) => if s.len() > c {
            s.take(c as int)
        } else {
            s
        },
        None => s,
    }
}

/// The state of one listing run.
pub struct Lister {
    pub scope: Scope,
    pub filter: RecordFilter,
    pub cap: Option<usize>,
    /// The caller's starting offset, as given.
    pub start: Option<i32>,
    /// The offset of the next page to fetch.
    pub offset: i32,
    /// The matches collected so far, in the service's order.
    pub found: Vec<Expense>,
    pub done: bool,
}

impl Lister {
    /// The collected matches never exceed the cap, and the offset is not negative.
    pub open spec fn wf(self) -> bool {
        &&& self.offset >= 0
        &&& self.cap is Some ==> self.found@.len() <= self.cap->0
    }

    /// No record needs to be looked at on the client side and there is no
    /// cap: one request with the caller's own paging is enough.
    pub open spec fn pass_through(self) -> bool {
        !self.filter.is_active() && self.cap is None
    }

    /// Whether the cap has been reached.
    pub open spec fn full(self) -> bool {
        self.cap is Some && self.found@.len() >= self.cap->0
    }

    /// Starts a run of `q`. With a cap of zero nothing needs to be fetched.
    pub fn new(q: ListQuery) -> (r: Lister)
        requires
            q.wf(),
        ensures
            r.wf(),
            r.found@ == Seq::<Expense>::empty(),
            r.offset == q.start(),
            r.start == q.offset,
            r.cap == q.cap,
            r.filter == q.filter,
            r.scope == q.scope,
            r.done == (q.cap == Some(0usize)),
    {
        let offset = match q.offset {
            Some(o) => o,
            None => 0,
        };
        let done = match q.cap {
            Some(c) => c == 0,
            None => false,
        };
        Lister {
            scope: q.scope,
            filter: q.filter,
            cap: q.cap,
            start: q.offset,
            offset,
            found: Vec::new(),
            done,
        }
    }

    /// Whether the filter can reject a record.
    fn filtering(&self) -> (r: bool)
        ensures
            r == self.filter.is_active(),
    {
        self.filter.search.is_some() || self.filter.category_ids.is_some() || match self.filter.deleted {
            crate::filter::DeletedFilter::Include => false,
            _ => true,
        }
    }

    /// The page to fetch next, or `None` when the run is over. In the
    /// pass-through case it is the caller's own offset with no limit;
    /// otherwise `BATCH_SIZE` records from the current offset.
    pub fn next_request(&self) -> (r: Option<ListExpensesParams>)
        ensures
            r is None <==> self.done,
            r is Some ==> {
                let p = r->0;
                &&& p.group_id == self.scope.group_id
                &&& p.friend_id == self.scope.friend_id
                &&& text_view(p.dated_after) == text_view(self.scope.dated_after)
                &&& text_view(p.dated_before) == text_view(self.scope.dated_before)
                &&& text_view(p.updated_after) == text_view(self.scope.updated_after)
                &&& text_view(p.updated_before) == text_view(self.scope.updated_before)
                &&& self.pass_through() ==> p.limit is None && p.offset == self.start
                &&& !self.pass_through() ==> p.limit == Some(BATCH_SIZE) && p.offset == Some(
                    self.offset,
                )
            },
    {
        if self.done {
            return None;
        }
        let pass = !self.filtering() && self.cap.is_none();
        Some(
            ListExpensesParams {
                group_id: self.scope.group_id,
                friend_id: self.scope.friend_id,
                dated_after: copy_text(&self.scope.dated_after),
                dated_before: copy_text(&self.scope.dated_before),
                updated_after: copy_text(&self.scope.updated_after),
                updated_before: copy_text(&self.scope.updated_before),
                limit: if pass {
                    None
                } else {
                    Some(BATCH_SIZE)
                },
                offset: if pass {
                    self.start
                } else {
                    Some(self.offset)
                },
            },
        )
    }

    /// Takes the page that the last request returned. In the pass-through
    /// case the page is the result. Otherwise its accepted records are added
    /// up to the cap; the run ends on an empty page, on reaching the cap, or
    /// when no further offset can be asked for, and else moves one batch on.
    pub fn take_batch(&mut self, batch: Vec<Expense>)
        requires
            old(self).wf(),
            !old(self).done,
        ensures
            final(self).wf(),
            final(self).scope == old(self).scope,
            final(self).filter == old(self).filter,
            final(self).cap == old(self).cap,
            final(self).start == old(self).start,
            old(self).pass_through() ==> final(self).found@ == batch@ && final(self).done
                && final(self).offset == old(self).offset,
            !old(self).pass_through() ==> {
                &&& final(self).found@ == capped(
                    old(self).found@ + accepted_in(old(self).filter, batch@),
                    old(self).cap,
                )
                &&& final(self).done == (batch@.len() == 0 || final(self).full() || old(self).offset
                    > LAST_PAGED_OFFSET)
                &&& final(self).offset == if final(self).done {
                    old(self).offset as int
                } else {
                    old(self).offset + BATCH_SIZE
                }
            },
    {
        if !self.filtering() && self.cap.is_none() {
            self.found = batch;
            self.done = true;
            return;
        }
        let ghost b = batch@;
        let ghost before = self.found@;
        let n = batch.len();
        let cap = self.cap;
        let mut found = Vec::new();
        std::mem::swap(&mut found, &mut self.found);
        for e in it: batch
            invariant
                it.seq() == b,
                n == b.len(),
                cap == self.cap,
                cap is Some ==> found@.len() <= cap->0,
                found@ == capped(before + accepted_in(self.filter, b.take(it.index() as int)), cap),
        {
            let ghost i = it.index();
            let ghost prev = before + accepted_in(self.filter, b.take(i as int));
            proof {
                lemma_matches_step(self.filter, b, i as int);
            }
            if self.filter.accepts(&e) {
                let room = match cap {
                    Some(c) => found.len() < c,
                    None => true,
                };
                proof {
                    assert(prev + seq![e] =~= prev.push(e));
                    lemma_capped_push(prev, e, cap);
                }
                if room {
                    found.push(e);
                }
            } else {
                assert(prev + Seq::<Expense>::empty() =~= prev);
            }
        }
        assert(b.take(n as int) =~= b);
        self.found = found;
        let full = match self.cap {
            Some(c) => self.found.len() >= c,
            None => false,
        };
        if n == 0 || full || self.offset > LAST_PAGED_OFFSET {
            self.done = true;
        } else {
            self.offset = self.offset + BATCH_SIZE;
        }
    }
}

/// Accepting one more record of a batch adds it to the matches, if accepted.
proof fn lemma_matches_step(filter: RecordFilter, b: Seq<Expense>, i: int)
    requires
        0 <= i < b.len(),
    ensures
        accepted_in(filter, b.take(i + 1)) == accepted_in(filter, b.take(i)) + if filter.accepts_spec(b[i]) {
            seq![b[i]]
        } else {
            Seq::<Expense>::empty()
        },
{
    let p = |e: Expense| filter.accepts_spec(e);
    assert(b.take(i + 1) =~= b.take(i) + seq![b[i]]);
    Seq::filter_distributes_over_add(b.take(i), seq![b[i]], p);
    reveal(Seq::filter);
    assert(seq![b[i]].drop_last() =~= Seq::<Expense>::empty());
    assert(Seq::<Expense>::empty().filter(p) =~= Seq::<Expense>::empty());
    if p(b[i]) {
        assert(seq![b[i]].filter(p) =~= seq![b[i]]);
    } else {
        assert(seq![b[i]].filter(p) =~= Seq::<Expense>::empty());
    }
}

/// Adding a record under the cap: it is kept exactly when there is room.
proof fn lemma_capped_push(s: Seq<Expense>, e: Expense, cap: Option<usize>)
    ensures
        capped(s.push(e), cap) == if cap is Some && capped(s, cap).len() >= cap->0 {
            capped(s, cap)
        } else {
            capped(s, cap).push(e)
        },
{
    match cap {
        Some(c) => {
            if s.len() >= c {
                assert(s.push(e).take(c as int) =~= s.take(c as int));
                if s.len() == c {
                    assert(s.take(c as int) =~= s);
                }
            }
        },
        None => {},
    }
}

} // verus!
