//! The pagination walker, as a state machine driven by its caller.
//!
//! The caller fetches the page that the walk asks for and hands the outcome
//! back; the walk decides whether to stop, fail, or ask for the next page
//! after the last record received.

use vstd::prelude::*;
use crate::cursor::{Cursor, admits, cursor_lt, lemma_cursor_order_total};
use crate::error::CoreError;
use itertools::Itertools;

verus! {

/// One upstream record and its cursor.
pub struct Record<T> {
    pub cursor: Cursor,
    pub data: T,
}

/// The request for one page: records strictly after `after` (all records
/// when it is `None`), at most `limit` of them, narrowed by `filter`.
#[derive(Clone, Debug, PartialEq, Eq)]
pub struct PageQuery {
    pub after: Option<Cursor>,
    pub limit: usize,
    pub filter: Option<String>,
}

/// Page size of the league leaderboard walk.
pub const LEADERBOARD_PAGE_SIZE: usize = 100;

/// How long an aggregated leaderboard is served from the cache, in seconds.
pub const LEADERBOARD_TTL_SECS: u64 = 3600;

/// The views of a sequence of pages.
pub open spec fn page_views<T>(pages: Seq<Vec<Record<T>>>) -> Seq<Seq<Record<T>>> {
    pages.map_values(|p: Vec<Record<T>>| p@)
}

/// A page ends the walk when it is short: fewer records than asked for, or none.
pub open spec fn ends_walk(len: int, limit: int) -> bool {
    len < limit || len == 0
}

/// Relies on itertools' `collect_vec` over std's `flatten`: the records of
/// every page, pages in order and records in page order.
#[verifier::external_body]
fn concat_pages<T>(pages: Vec<Vec<Record<T>>>) -> (r: Vec<Record<T>>)
    ensures
        r@ == page_views(pages@).flatten(),
{
    pages.into_iter().flatten().collect_vec()
}

/// The lower bound for the page after the one that ends with `last`.
pub fn bound_after<T>(last: &Record<T>) -> (r: Cursor)
    ensures
        r == last.cursor,
{
    last.cursor
}

/// Resuming after the record with the greatest cursor of a page admits none
/// of that page's records again.
pub proof fn lemma_bound_after_greatest_excludes_page<T>(page: Seq<Record<T>>, m: int)
    requires
        0 <= m < page.len(),
        forall|i: int| 0 <= i < page.len() ==> !cursor_lt(page[m].cursor, #[trigger] page[i].cursor),
    ensures
        forall|i: int| 0 <= i < page.len() ==> !admits(Some(page[m].cursor), #[trigger] page[i].cursor),
{
}

fn copy_filter(f: &Option<String>) -> (r: Option<String>)
    ensures
        r == *f,
{
    match f {
        None => None,
        Some(s) => Some(s.clone()),
    }
}

/// A walk in progress: the pages received so far, in fetch order, and the
/// query for the next one.
pub struct Walk<T> {
    pages: Vec<Vec<Record<T>>>,
    query: PageQuery,
}

/// What the walk asks of its driver after a page outcome.
pub enum WalkStep<T> {
    /// Fetch the walk's next query and hand the outcome back.
    Fetch(Walk<T>),
    /// The walk ended: every record received, in fetch order.
    Done(Vec<Record<T>>),
    /// A fetch failed; everything received so far is dropped.
    Failed(CoreError),
}

impl<T> Walk<T> {
    /// The pages received so far, in fetch order.
    pub closed spec fn received(&self) -> Seq<Seq<Record<T>>> {
        page_views(self.pages@)
    }

    /// The query the walk waits on.
    pub closed spec fn next_query(&self) -> PageQuery {
        self.query
    }

    /// The first query is unbounded; each later one resumes after the last
    /// record of the previous page, which was full.
    #[verifier::type_invariant]
    closed spec fn wf(&self) -> bool {
        &&& self.pages@.len() == 0 <==> self.query.after is None
        &&& forall|i: int|
            0 <= i < self.pages@.len() ==> !ends_walk(
                #[trigger] self.pages@[i]@.len() as int,
                self.query.limit as int,
            )
        &&& self.pages@.len() > 0 ==> self.query.after == Some(
            self.pages@.last()@.last().cursor,
        )
    }

    /// Starts a walk over pages of `limit` records narrowed by `filter`.
    pub fn start(filter: Option<String>, limit: usize) -> (r: Walk<T>)
        ensures
            r.received() == Seq::<Seq<Record<T>>>::empty(),
            r.next_query() == (PageQuery { after: None, limit, filter }),
    {
        let r = Walk { pages: Vec::new(), query: PageQuery { after: None, limit, filter } };
        assert(r.received() =~= Seq::<Seq<Record<T>>>::empty());
        r
    }

    /// The query that the driver is to fetch next.
    pub fn query(&self) -> (r: &PageQuery)
        ensures
            *r == self.next_query(),
    {
        &self.query
    }

    /// Takes the outcome of fetching `self.query()`.
    ///
    /// A failure ends the walk with that error. A short page (fewer records
    /// than the limit, or none) ends it with every record received. A full
    /// page asks for the records strictly after its last one, with the same
    /// limit and filter.
    pub fn advance(self, outcome: Result<Vec<Record<T>>, CoreError>) -> (r: WalkStep<T>)
        ensures
            match outcome {
                Err(e) => r == WalkStep::<T>::Failed(e),
                Ok(page) => {
                    let got = self.received().push(page@);
                    if ends_walk(page@.len() as int, self.next_query().limit as int) {
                        r matches WalkStep::Done(all) && all@ == got.flatten()
                    } else {
                        r matches WalkStep::Fetch(w) && w.received() == got
                            && w.next_query() == (PageQuery {
                            after: Some(page@.last().cursor),
                            limit: self.next_query().limit,
                            filter: self.next_query().filter,
                        })
                    }
                },
            },
    {
        proof {
            use_type_invariant(&self);
        }
        match outcome {
            Err(e) => WalkStep::Failed(e),
            Ok(page) => {
                let n = page.len();
                let limit = self.query.limit;
                let ghost old_pages = self.pages@;
                let ghost pv = page@;
                if n < limit || n == 0 {
                    let mut pages = self.pages;
                    pages.push(page);
                    proof {
                        assert(page_views(pages@) =~= page_views(old_pages).push(pv));
                    }
                    WalkStep::Done(concat_pages(pages))
                } else {
                    let last = bound_after(&page[n - 1]);
                    let filter = copy_filter(&self.query.filter);
                    let mut pages = self.pages;
                    pages.push(page);
                    let w = Walk { pages, query: PageQuery { after: Some(last), limit, filter } };
                    proof {
                        assert(page_views(w.pages@) =~= page_views(old_pages).push(pv));
                        assert forall|i: int| 0 <= i < w.pages@.len() implies !ends_walk(
                            #[trigger] w.pages@[i]@.len() as int,
                            limit as int,
                        ) by {
                            if i < old_pages.len() {
                                assert(w.pages@[i] == old_pages[i]);
                            }
                        }
                    }
                    WalkStep::Fetch(w)
                }
            },
        }
    }
}

/// Records in strictly ascending cursor order.
pub open spec fn ascending<T>(s: Seq<Record<T>>) -> bool {
    forall|i: int, j: int| 0 <= i < j < s.len() ==> cursor_lt(s[i].cursor, s[j].cursor)
}

/// Every record of every page lies strictly after `b`.
pub open spec fn all_after<T>(pages: Seq<Seq<Record<T>>>, b: Cursor) -> bool {
    forall|k: int, r: int|
        0 <= k < pages.len() && 0 <= r < pages[k].len() ==> cursor_lt(b, #[trigger] pages[k][r].cursor)
}

/// Each page but the last is non-empty, and each page after the first lies
/// strictly after the last record of the page before: the upstream answered
/// every query that resumed after that record.
pub open spec fn each_resumes<T>(pages: Seq<Seq<Record<T>>>) -> bool {
    forall|k: int|
        0 < k < pages.len() ==> #[trigger] pages[k - 1].len() > 0 && forall|r: int|
            0 <= r < pages[k].len() ==> cursor_lt(pages[k - 1].last().cursor, #[trigger] pages[k][r].cursor)
}

proof fn lemma_flatten_all_after<T>(pages: Seq<Seq<Record<T>>>, b: Cursor)
    requires
        all_after(pages, b),
    ensures
        forall|i: int| 0 <= i < pages.flatten().len() ==> cursor_lt(b, #[trigger] pages.flatten()[i].cursor),
    decreases pages.len(),
{
    if pages.len() > 0 {
        let rest = pages.drop_first();
        assert forall|k: int, r: int| 0 <= k < rest.len() && 0 <= r < rest[k].len()
            implies cursor_lt(b, #[trigger] rest[k][r].cursor) by {
            assert(rest[k] == pages[k + 1]);
        }
        lemma_flatten_all_after(rest, b);
        let f = pages.flatten();
        assert(f == pages[0] + rest.flatten());
        assert forall|i: int| 0 <= i < f.len() implies cursor_lt(b, #[trigger] f[i].cursor) by {
            if i < pages[0].len() {
                assert(f[i] == pages[0][i]);
            } else {
                assert(f[i] == rest.flatten()[i - pages[0].len()]);
            }
        }
    }
}

proof fn lemma_later_pages_after_first<T>(pages: Seq<Seq<Record<T>>>, k: int)
    requires
        each_resumes(pages),
        1 <= k < pages.len(),
    ensures
        forall|r: int| 0 <= r < pages[k].len() ==> cursor_lt(pages[0].last().cursor, #[trigger] pages[k][r].cursor),
    decreases k,
{
    assert(pages[k - 1].len() > 0);
    if k > 1 {
        lemma_later_pages_after_first(pages, k - 1);
        let m = pages[k - 1].len() - 1;
        assert(cursor_lt(pages[0].last().cursor, pages[k - 1][m].cursor));
        assert forall|r: int| 0 <= r < pages[k].len()
            implies cursor_lt(pages[0].last().cursor, #[trigger] pages[k][r].cursor) by {
            lemma_cursor_order_total(pages[0].last().cursor, pages[k - 1].last().cursor, pages[k][r].cursor);
        }
    }
}

/// When each page is ascending and each resumes after the last record of the
/// page before, the records of the walk come out in ascending cursor order.
pub proof fn lemma_aggregate_ascending<T>(pages: Seq<Seq<Record<T>>>)
    requires
        forall|k: int| 0 <= k < pages.len() ==> ascending(#[trigger] pages[k]),
        each_resumes(pages),
    ensures
        ascending(pages.flatten()),
    decreases pages.len(),
{
    if pages.len() > 0 {
        let first = pages[0];
        let rest = pages.drop_first();
        assert forall|k: int| 0 <= k < rest.len() implies ascending(#[trigger] rest[k]) by {
            assert(rest[k] == pages[k + 1]);
        }
        assert forall|k: int| 0 < k < rest.len() implies #[trigger] rest[k - 1].len() > 0 && forall|r: int|
            0 <= r < rest[k].len() ==> cursor_lt(rest[k - 1].last().cursor, #[trigger] rest[k][r].cursor) by {
            assert(rest[k - 1] == pages[k]);
            assert(rest[k] == pages[k + 1]);
            assert(pages[(k + 1) - 1] == pages[k]);
        }
        lemma_aggregate_ascending(rest);
        let f = pages.flatten();
        let g = rest.flatten();
        assert(f == first + g);
        if rest.len() > 0 {
            assert(pages[1 - 1].len() > 0);
            let b = first.last().cursor;
            assert forall|k: int, r: int| 0 <= k < rest.len() && 0 <= r < rest[k].len()
                implies cursor_lt(b, #[trigger] rest[k][r].cursor) by {
                lemma_later_pages_after_first(pages, k + 1);
                assert(rest[k] == pages[k + 1]);
            }
            lemma_flatten_all_after(rest, b);
            assert forall|i: int, j: int| 0 <= i < j < f.len()
                implies cursor_lt(f[i].cursor, f[j].cursor) by {
                let n = first.len() as int;
                if j < n {
                    assert(f[i] == first[i] && f[j] == first[j]);
                } else if i >= n {
                    assert(f[i] == g[i - n] && f[j] == g[j - n]);
                } else {
                    assert(f[i] == first[i] && f[j] == g[j - n]);
                    assert(cursor_lt(b, g[j - n].cursor));
                    if i < n - 1 {
                        assert(cursor_lt(first[i].cursor, first[n - 1].cursor));
                        lemma_cursor_order_total(first[i].cursor, b, g[j - n].cursor);
                    }
                }
            }
        } else {
            assert(g.len() == 0);
            assert(f =~= first);
        }
    }
}

} // verus!
