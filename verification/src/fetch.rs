//! Gathering the pages of upcoming releases into one collection.
//!
//! The server hands out the upcoming releases page by page. The first page
//! says how many pages there are and which range of dates the list covers;
//! every page contributes its results. `Fetcher` is the state between two
//! calls: it knows which page is awaited and what has been gathered so far.
//! The caller performs the call for the awaited page and hands the outcome to
//! `Fetcher::receive`, which says what comes next.

use crate::error::{AppError, AppErrorView};
use crate::model::{Movie, UpComingMovieResponse};
use crate::remote::{upcoming_failure, upcoming_failure_spec, RemoteFailure};
use vstd::prelude::*;

verus! {

/// All upcoming releases: the results of every page, in page order and then
/// in the order within the page, with the range of dates of the first page.
/// A movie that the server lists on two pages stands here twice.
#[derive(Debug, PartialEq, Eq)]
pub struct Upcoming {
    pub movies: Vec<Movie>,
    pub min_date: String,
    pub max_date: String,
}

/// The gathered collection, with its dates as character sequences.
pub struct UpcomingView {
    pub movies: Seq<Movie>,
    pub min_date: Seq<char>,
    pub max_date: Seq<char>,
}

impl View for Upcoming {
    type V = UpcomingView;

    open spec fn view(&self) -> UpcomingView {
        UpcomingView { movies: self.movies@, min_date: self.min_date@, max_date: self.max_date@ }
    }
}

/// The state while a page is awaited.
#[derive(Debug)]
pub struct Fetcher {
    movies: Vec<Movie>,
    min_date: String,
    max_date: String,
    total_pages: u32,
    awaited: u32,
}

/// What a `Fetcher` stands for: the movies gathered so far, the range of
/// dates and the number of pages as the first page gave them (empty and zero
/// while the first page is awaited), and the number of the awaited page.
pub struct FetcherView {
    pub movies: Seq<Movie>,
    pub min_date: Seq<char>,
    pub max_date: Seq<char>,
    pub total_pages: u32,
    pub awaited: u32,
}

/// What follows the outcome of a call.
#[derive(Debug)]
pub enum FetchStep {
    /// Another page is needed: `Fetcher::page` of the new state names it.
    Request(Fetcher),
    /// The last page has arrived.
    Complete(Upcoming),
    /// The call failed. Nothing of what was gathered is handed out.
    Failed(AppError),
}

/// A step with its parts as views.
pub enum FetchStepView {
    Request(FetcherView),
    Complete(UpcomingView),
    Failed(AppErrorView),
}

impl View for FetchStep {
    type V = FetchStepView;

    open spec fn view(&self) -> FetchStepView {
        match self {
            FetchStep::Request(fetcher) => FetchStepView::Request(fetcher@),
            FetchStep::Complete(upcoming) => FetchStepView::Complete(upcoming@),
            FetchStep::Failed(error) => FetchStepView::Failed(error@),
        }
    }
}

/// The state before anything has arrived: page 1 is awaited.
pub open spec fn start() -> FetcherView {
    FetcherView {
        movies: Seq::empty(),
        min_date: Seq::empty(),
        max_date: Seq::empty(),
        total_pages: 0,
        awaited: 1,
    }
}

/// What follows when the awaited page arrives. The first page fixes the
/// number of pages and the range of dates; what later pages say of either is
/// ignored. Another page is requested as long as the page that arrived is
/// not the last one: after page 1 of a list of one page, or of none, nothing
/// more is requested.
pub open spec fn accept(state: FetcherView, page: UpComingMovieResponse) -> FetchStepView {
    let first = state.awaited == 1;
    let total_pages = if first {
        page.total_pages
    } else {
        state.total_pages
    };
    let min_date = if first {
        page.dates.minimum@
    } else {
        state.min_date
    };
    let max_date = if first {
        page.dates.maximum@
    } else {
        state.max_date
    };
    let movies = state.movies + page.results@;
    if state.awaited < total_pages {
        FetchStepView::Request(
            FetcherView {
                movies,
                min_date,
                max_date,
                total_pages,
                awaited: (state.awaited + 1) as u32,
            },
        )
    } else {
        FetchStepView::Complete(UpcomingView { movies, min_date, max_date })
    }
}

/// What follows the outcome of the call for the awaited page.
pub open spec fn receive_spec(
    state: FetcherView,
    outcome: Result<UpComingMovieResponse, RemoteFailure>,
) -> FetchStepView {
    match outcome {
        Ok(page) => accept(state, page),
        Err(failure) => FetchStepView::Failed(upcoming_failure_spec(state.awaited, failure)),
    }
}

/// The results of `pages`, page after page.
pub open spec fn all_results(pages: Seq<UpComingMovieResponse>) -> Seq<Movie>
    decreases pages.len(),
{
    if pages.len() == 0 {
        Seq::empty()
    } else {
        all_results(pages.drop_last()) + pages.last().results@
    }
}

/// The number of results of `pages`, summed over the pages.
pub open spec fn result_count(pages: Seq<UpComingMovieResponse>) -> nat
    decreases pages.len(),
{
    if pages.len() == 0 {
        0
    } else {
        result_count(pages.drop_last()) + pages.last().results@.len()
    }
}

/// The state in which the machine waits after `pages` have arrived.
pub open spec fn waiting_after(pages: Seq<UpComingMovieResponse>) -> FetcherView {
    if pages.len() == 0 {
        start()
    } else {
        FetcherView {
            movies: all_results(pages),
            min_date: pages[0].dates.minimum@,
            max_date: pages[0].dates.maximum@,
            total_pages: pages[0].total_pages,
            awaited: (pages.len() + 1) as u32,
        }
    }
}

/// The collection that is handed out when `pages` are all the pages.
pub open spec fn gathered(pages: Seq<UpComingMovieResponse>) -> UpcomingView {
    UpcomingView {
        movies: all_results(pages),
        min_date: pages[0].dates.minimum@,
        max_date: pages[0].dates.maximum@,
    }
}

/// The number of pages that are requested from a server whose first page
/// reports `total_pages`: the first page in any case.
pub open spec fn pages_needed(total_pages: u32) -> nat {
    if total_pages == 0 {
        1
    } else {
        total_pages as nat
    }
}

/// The first `count` answers of a server that answers the request for page
/// `p` with `server(p)`.
pub open spec fn answers(server: spec_fn(u32) -> UpComingMovieResponse, count: nat) -> Seq<
    UpComingMovieResponse,
> {
    Seq::new(count, |i: int| server((i + 1) as u32))
}

/// A run of the machine from `state` against a server that always answers:
/// the numbers of the pages that are requested, in the order of the
/// requests, and the collection that is handed out at the end. At most
/// `limit` requests are followed.
pub open spec fn run(
    state: FetcherView,
    server: spec_fn(u32) -> UpComingMovieResponse,
    limit: nat,
) -> (Seq<u32>, Option<UpcomingView>)
    decreases limit,
{
    if limit == 0 {
        (Seq::empty(), None)
    } else {
        match accept(state, server(state.awaited)) {
            FetchStepView::Request(next) => {
                let rest = run(next, server, (limit - 1) as nat);
                (seq![state.awaited] + rest.0, rest.1)
            },
            FetchStepView::Complete(upcoming) => (seq![state.awaited], Some(upcoming)),
            FetchStepView::Failed(_) => (seq![state.awaited], None),
        }
    }
}

/// The count of the gathered movies is the sum of the counts of the pages.
pub proof fn lemma_all_results_len(pages: Seq<UpComingMovieResponse>)
    ensures
        all_results(pages).len() == result_count(pages),
    decreases pages.len(),
{
    if pages.len() > 0 {
        lemma_all_results_len(pages.drop_last());
    }
}

/// One step within a run. While the machine waits after `pages`, it awaits
/// the page that follows them; when that page arrives, the machine waits
/// after one page more, or hands out everything if that was the last page.
pub proof fn lemma_accept_after(pages: Seq<UpComingMovieResponse>, page: UpComingMovieResponse)
    requires
        pages.len() == 0 || pages.len() < pages[0].total_pages,
    ensures
        waiting_after(pages).awaited == pages.len() + 1,
        accept(waiting_after(pages), page) == if pages.len() + 1 < pages.push(page)[0].total_pages {
            FetchStepView::Request(waiting_after(pages.push(page)))
        } else {
            FetchStepView::Complete(gathered(pages.push(page)))
        },
{
    let all = pages.push(page);
    assert(all.drop_last() =~= pages);
    assert(all_results(all) =~= all_results(pages) + page.results@);
    if pages.len() == 0 {
        assert(all_results(pages) =~= Seq::<Movie>::empty());
        assert(all_results(all) =~= page.results@);
        assert(Seq::<Movie>::empty() + page.results@ =~= page.results@);
    } else {
        assert(all[0] == pages[0]);
    }
}

/// Pagination is complete. Against a server whose first page reports `n`
/// pages, a run from the start requests page 1, page 2 and so on up to page
/// `n`, each once and in this order (page 1 alone where `n` is 0 or 1), and
/// hands out the results of these pages in page order, with the range of
/// dates of page 1. The count of the movies is the sum of the counts of the
/// pages.
pub proof fn lemma_pagination_complete(server: spec_fn(u32) -> UpComingMovieResponse, limit: nat)
    requires
        limit >= pages_needed(server(1).total_pages),
    ensures
        ({
            let needed = pages_needed(server(1).total_pages);
            let pages = answers(server, needed);
            &&& run(start(), server, limit).0 == Seq::new(needed, |i: int| (i + 1) as u32)
            &&& run(start(), server, limit).1 == Some(gathered(pages))
            &&& gathered(pages).movies.len() == result_count(pages)
        }),
{
    let needed = pages_needed(server(1).total_pages);
    assert(answers(server, 0) =~= Seq::<UpComingMovieResponse>::empty());
    lemma_run_after(server, 0, limit);
    assert(Seq::new((needed - 0) as nat, |i: int| (0 + i + 1) as u32) =~= Seq::new(
        needed,
        |i: int| (i + 1) as u32,
    ));
    lemma_all_results_len(answers(server, needed));
}

/// The rest of a run: after the first `done` pages have arrived, the pages
/// from `done + 1` up to the last are requested in order, and everything is
/// handed out.
proof fn lemma_run_after(server: spec_fn(u32) -> UpComingMovieResponse, done: nat, limit: nat)
    requires
        done < pages_needed(server(1).total_pages),
        limit >= pages_needed(server(1).total_pages) - done,
    ensures
        ({
            let needed = pages_needed(server(1).total_pages);
            let rest = run(waiting_after(answers(server, done)), server, limit);
            &&& rest.0 == Seq::new((needed - done) as nat, |i: int| (done + i + 1) as u32)
            &&& rest.1 == Some(gathered(answers(server, needed)))
        }),
    decreases limit,
{
    let needed = pages_needed(server(1).total_pages);
    let pages = answers(server, done);
    let state = waiting_after(pages);
    let page = server(state.awaited);
    if done > 0 {
        assert(pages[0] == server(1));
    }
    lemma_accept_after(pages, page);
    assert(state.awaited == done + 1);
    assert(pages.push(page) =~= answers(server, done + 1));
    assert(answers(server, done + 1)[0] == server(1));
    let expected = Seq::new((needed - done) as nat, |i: int| (done + i + 1) as u32);
    if done + 1 < needed {
        lemma_run_after(server, done + 1, (limit - 1) as nat);
        let rest = run(waiting_after(answers(server, done + 1)), server, (limit - 1) as nat);
        assert(seq![state.awaited] + rest.0 =~= expected);
    } else {
        assert(seq![state.awaited] =~= expected);
    }
}

impl View for Fetcher {
    type V = FetcherView;

    closed spec fn view(&self) -> FetcherView {
        FetcherView {
            movies: self.movies@,
            min_date: self.min_date@,
            max_date: self.max_date@,
            total_pages: self.total_pages,
            awaited: self.awaited,
        }
    }
}

impl Fetcher {
    /// A page is awaited only while it exists: page 1 always, a later page
    /// only up to the number of pages that page 1 reported.
    #[verifier::type_invariant]
    spec fn awaits_an_existing_page(self) -> bool {
        self.awaited == 1 || 1 < self.awaited <= self.total_pages
    }

    /// The state at the beginning: nothing gathered, page 1 awaited.
    pub fn new() -> (fetcher: Fetcher)
        ensures
            fetcher@ == start(),
    {
        Fetcher {
            movies: Vec::new(),
            min_date: String::new(),
            max_date: String::new(),
            total_pages: 0,
            awaited: 1,
        }
    }

    /// The number of the page that is to be requested next, counted from 1.
    /// Beyond page 1, it is a page that the first page announced.
    pub fn page(&self) -> (page: u32)
        ensures
            page == self@.awaited,
            page == 1 || 1 < page <= self@.total_pages,
    {
        proof {
            use_type_invariant(self);
        }
        self.awaited
    }

    /// Takes the outcome of the call for the awaited page. A page that
    /// arrived is added to what was gathered; a call that failed ends the
    /// gathering with the error that names the page.
    pub fn receive(self, outcome: Result<UpComingMovieResponse, RemoteFailure>) -> (step: FetchStep)
        ensures
            step@ == receive_spec(self@, outcome),
    {
        proof {
            use_type_invariant(&self);
        }
        match outcome {
            Err(failure) => FetchStep::Failed(upcoming_failure(self.awaited, failure)),
            Ok(page) => {
                let first: bool = self.awaited == 1;
                let awaited: u32 = self.awaited;
                let mut results = page.results;
                let mut movies = self.movies;
                movies.append(&mut results);
                let total_pages = if first {
                    page.total_pages
                } else {
                    self.total_pages
                };
                let min_date = if first {
                    page.dates.minimum
                } else {
                    self.min_date
                };
                let max_date = if first {
                    page.dates.maximum
                } else {
                    self.max_date
                };
                if awaited < total_pages {
                    FetchStep::Request(
                        Fetcher { movies, min_date, max_date, total_pages, awaited: awaited + 1 },
                    )
                } else {
                    FetchStep::Complete(Upcoming { movies, min_date, max_date })
                }
            },
        }
    }
}

} // verus!
