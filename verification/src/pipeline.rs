//! The run as a whole: one stage after the other, ended by the first failure.
//!
//! A run loads the genre catalog, finds the id of the target genre, gathers
//! all pages of upcoming releases, selects the movies of the genre, loads the
//! set of opened movies, presents the selected movies, and saves the set.
//! `Stage` is the state between two pieces of outside work. Each step hands
//! out an `Action`, the work that the caller is to perform next; the caller
//! hands back what came of it as an `Event`.

use crate::error::{AppError, AppErrorView};
use crate::fetch::{
    receive_spec,
    start,
    FetchStep,
    FetchStepView,
    Fetcher,
    FetcherView,
    Upcoming,
    UpcomingView,
};
use crate::filter::{get_upcoming_movies_by_genre_id, movies_of_genre};
use crate::genres::{convert_to_map, genre_table, get_genre_id_by_name, has_name, names_of};
use crate::model::{Genre, UpComingMovieResponse};
use crate::notify::{
    notice_views,
    notices_for,
    opened_after,
    process_found_movies,
    Notice,
    NoticeView,
};
use crate::remote::{
    genre_failure,
    genre_failure_spec,
    genre_request,
    genre_request_spec,
    upcoming_request,
    upcoming_request_spec,
    RemoteFailure,
    Request,
    RequestView,
};
use crate::json::is_id_array;
use crate::seen::{
    holds_set,
    is_load_error,
    load_opened_movie_set,
    loaded_set,
    save_opened_movie_set,
    write_result,
    write_result_spec,
    StateFile,
    WriteOutcome,
};
use crate::text::{decimal, decimal_string};
use std::collections::{HashMap, HashSet};
use vstd::prelude::*;
use vstd::string::*;

verus! {

/// The name of the genre whose upcoming releases are presented.
pub const TARGET_GENRE: &'static str = "Animation";

/// The state of a run while outside work is under way.
#[derive(Debug)]
pub enum Stage {
    /// The genre catalog is awaited.
    LoadGenres { key: String },
    /// A page of upcoming releases is awaited.
    FetchAllPages { key: String, genre_map: HashMap<u32, String>, genre_id: u32, fetcher: Fetcher },
    /// The content of the state file is awaited.
    LoadSeenSet { genre_map: HashMap<u32, String>, genre_id: u32, upcoming: Upcoming },
    /// The notices are being presented; `opened` is the set to be saved.
    Notify { opened: HashSet<u32> },
    /// The state file is being written.
    SaveSeenSet,
    /// The run is over, with or without success.
    Done,
}

/// The outside work that is to be performed next.
#[derive(Debug, PartialEq, Eq)]
pub enum Action {
    /// Perform the request for the genre catalog; answer with `Event::Genres`.
    FetchGenres(Request),
    /// Perform the request for a page of upcoming releases; answer with
    /// `Event::Page`.
    FetchPage(Request),
    /// Print the headline, then look for the state file; answer with
    /// `Event::SeenSet`.
    ReadSeenSet { headline: String },
    /// Show each notice, and open the page of each movie whose notice does
    /// not say that it was opened before; answer with `Event::Presented`.
    Present(Vec<Notice>),
    /// Write these bytes to the state file; answer with `Event::Written`.
    WriteSeenSet(Vec<u8>),
    /// End the run with success.
    Finish,
    /// Report the error and end the run with failure.
    Abort(AppError),
}

/// What came of the outside work.
#[derive(Debug, PartialEq, Eq)]
pub enum Event {
    /// The genre catalog, or why it could not be had.
    Genres(Result<Vec<Genre>, RemoteFailure>),
    /// The awaited page, or why it could not be had.
    Page(Result<UpComingMovieResponse, RemoteFailure>),
    /// What was found at the place of the state file.
    SeenSet(StateFile),
    /// The notices were shown. Whether a page could be opened is not told:
    /// it does not matter to the run.
    Presented,
    /// How writing the state file went.
    Written(WriteOutcome),
}

/// A stage as plain values.
pub enum StageView {
    LoadGenres { key: Seq<char> },
    FetchAllPages { key: Seq<char>, table: Map<u32, Seq<char>>, genre_id: u32, fetcher: FetcherView },
    LoadSeenSet { table: Map<u32, Seq<char>>, genre_id: u32, upcoming: UpcomingView },
    Notify { opened: Set<u32> },
    SaveSeenSet,
    Done,
}

/// An action as plain values.
pub enum ActionView {
    FetchGenres(RequestView),
    FetchPage(RequestView),
    ReadSeenSet { headline: Seq<char> },
    Present(Seq<NoticeView>),
    WriteSeenSet(Seq<u8>),
    Finish,
    Abort(AppErrorView),
}

impl View for Stage {
    type V = StageView;

    open spec fn view(&self) -> StageView {
        match self {
            Stage::LoadGenres { key } => StageView::LoadGenres { key: key@ },
            Stage::FetchAllPages { key, genre_map, genre_id, fetcher } => StageView::FetchAllPages {
                key: key@,
                table: names_of(genre_map@),
                genre_id: *genre_id,
                fetcher: fetcher@,
            },
            Stage::LoadSeenSet { genre_map, genre_id, upcoming } => StageView::LoadSeenSet {
                table: names_of(genre_map@),
                genre_id: *genre_id,
                upcoming: upcoming@,
            },
            Stage::Notify { opened } => StageView::Notify { opened: opened@ },
            Stage::SaveSeenSet => StageView::SaveSeenSet,
            Stage::Done => StageView::Done,
        }
    }
}

impl View for Action {
    type V = ActionView;

    open spec fn view(&self) -> ActionView {
        match self {
            Action::FetchGenres(request) => ActionView::FetchGenres(request@),
            Action::FetchPage(request) => ActionView::FetchPage(request@),
            Action::ReadSeenSet { headline } => ActionView::ReadSeenSet { headline: headline@ },
            Action::Present(notices) => ActionView::Present(notice_views(notices@)),
            Action::WriteSeenSet(bytes) => ActionView::WriteSeenSet(bytes@),
            Action::Finish => ActionView::Finish,
            Action::Abort(error) => ActionView::Abort(error@),
        }
    }
}

/// The headline above the notices: the range of dates that the list covers
/// and the number of movies selected.
pub open spec fn headline_spec(min_date: Seq<char>, max_date: Seq<char>, count: nat) -> Seq<char> {
    "Upcoming animation movies (from "@ + min_date + " to "@ + max_date + "): "@ + decimal(count)
}

/// The beginning of a run: the genre catalog is requested.
pub open spec fn begin_spec(key: Seq<char>) -> (StageView, ActionView) {
    (StageView::LoadGenres { key }, ActionView::FetchGenres(genre_request_spec(key)))
}

/// Whether `next` is what follows the arrival of the catalog `table`. Where
/// the catalog has the target genre, the first page of upcoming releases is
/// requested, for a genre of the catalog that bears the name. Else the run
/// ends.
pub open spec fn is_resolved(
    key: Seq<char>,
    table: Map<u32, Seq<char>>,
    next: Option<(StageView, ActionView)>,
) -> bool {
    if has_name(table, TARGET_GENRE@) {
        &&& next matches Some((stage, action))
        &&& stage matches StageView::FetchAllPages { key: k, table: t, genre_id, fetcher }
        &&& k == key
        &&& t == table
        &&& table.contains_key(genre_id)
        &&& table[genre_id] == TARGET_GENRE@
        &&& fetcher == start()
        &&& action == ActionView::FetchPage(upcoming_request_spec(1, key))
    } else {
        next == Some(
            (
                StageView::Done,
                ActionView::Abort(AppErrorView::GenreIdNotFoundError(TARGET_GENRE@)),
            ),
        )
    }
}

/// What follows a step of the gathering of pages. Another page is requested,
/// or the gathering is complete, the movies of the genre are counted for the
/// headline and the state file is asked for, or the run ends with the error
/// of the failed call.
pub open spec fn after_page(
    key: Seq<char>,
    table: Map<u32, Seq<char>>,
    genre_id: u32,
    step: FetchStepView,
) -> (StageView, ActionView) {
    match step {
        FetchStepView::Request(fetcher) => (
            StageView::FetchAllPages { key, table, genre_id, fetcher },
            ActionView::FetchPage(upcoming_request_spec(fetcher.awaited, key)),
        ),
        FetchStepView::Complete(upcoming) => (
            StageView::LoadSeenSet { table, genre_id, upcoming },
            ActionView::ReadSeenSet {
                headline: headline_spec(
                    upcoming.min_date,
                    upcoming.max_date,
                    movies_of_genre(genre_id, upcoming.movies).len(),
                ),
            },
        ),
        FetchStepView::Failed(error) => (StageView::Done, ActionView::Abort(error)),
    }
}

/// What follows when the set `opened` has been loaded: the movies of the
/// genre are presented, and the set to be saved holds them all.
pub open spec fn after_load(
    table: Map<u32, Seq<char>>,
    genre_id: u32,
    upcoming: UpcomingView,
    opened: Set<u32>,
) -> (StageView, ActionView) {
    let selected = movies_of_genre(genre_id, upcoming.movies);
    (
        StageView::Notify { opened: opened_after(selected, opened) },
        ActionView::Present(notices_for(selected, table, opened)),
    )
}

/// What follows the writing of the state file: the end of the run.
pub open spec fn after_write(outcome: WriteOutcome) -> (StageView, ActionView) {
    match write_result_spec(outcome) {
        Ok(_) => (StageView::Done, ActionView::Finish),
        Err(error) => (StageView::Done, ActionView::Abort(error)),
    }
}

/// Whether `next` is what follows `event` in `stage`. Each stage awaits one
/// kind of event; for any other there is no step, and a run that is over
/// awaits none. A failure ends the run at once: the stage that follows is
/// `Done`, and the action is `Abort` with the error.
pub open spec fn is_step(stage: StageView, event: Event, next: Option<(StageView, ActionView)>) -> bool {
    match (stage, event) {
        (StageView::LoadGenres { key }, Event::Genres(Ok(genres))) => is_resolved(
            key,
            genre_table(genres@),
            next,
        ),
        (StageView::LoadGenres { key }, Event::Genres(Err(failure))) => next == Some(
            (StageView::Done, ActionView::Abort(genre_failure_spec(failure))),
        ),
        (StageView::FetchAllPages { key, table, genre_id, fetcher }, Event::Page(outcome)) => next
            == Some(after_page(key, table, genre_id, receive_spec(fetcher, outcome))),
        (StageView::LoadSeenSet { table, genre_id, upcoming }, Event::SeenSet(file)) => match loaded_set(
            file,
        ) {
            Some(opened) => next == Some(after_load(table, genre_id, upcoming, opened)),
            None => next matches Some((StageView::Done, ActionView::Abort(error)))
                && is_load_error(file, error),
        },
        (StageView::Notify { opened }, Event::Presented) => {
            &&& next matches Some((StageView::SaveSeenSet, ActionView::WriteSeenSet(bytes)))
            &&& is_id_array(bytes, opened)
            &&& holds_set(bytes, opened)
        },
        (StageView::SaveSeenSet, Event::Written(outcome)) => next == Some(after_write(outcome)),
        _ => next is None,
    }
}

/// The stages follow each other in one order, and a run that has ended stays
/// ended. The set of opened movies is written only after the notices were
/// presented; the state file is asked for only after all pages have arrived;
/// the run is over exactly when the action is `Finish` or `Abort`.
pub proof fn lemma_stage_order(
    stage: StageView,
    event: Event,
    next_stage: StageView,
    action: ActionView,
)
    requires
        is_step(stage, event, Some((next_stage, action))),
    ensures
        stage !is Done,
        next_stage is FetchAllPages ==> stage is LoadGenres || stage is FetchAllPages,
        next_stage is LoadSeenSet ==> stage is FetchAllPages,
        next_stage is Notify ==> stage is LoadSeenSet,
        next_stage is SaveSeenSet ==> stage is Notify,
        action is WriteSeenSet <==> next_stage is SaveSeenSet,
        action is Present <==> next_stage is Notify,
        action is ReadSeenSet <==> next_stage is LoadSeenSet,
        action is FetchPage <==> next_stage is FetchAllPages,
        action is Finish || action is Abort <==> next_stage is Done,
        action is Finish ==> stage is SaveSeenSet,
        action !is FetchGenres,
{
}

/// A step as plain values.
pub open spec fn step_view(next: Option<(Stage, Action)>) -> Option<(StageView, ActionView)> {
    match next {
        Some((stage, action)) => Some((stage@, action@)),
        None => None,
    }
}

/// Renders the headline above the notices.
pub fn headline(min_date: &str, max_date: &str, count: usize) -> (line: String)
    ensures
        line@ == headline_spec(min_date@, max_date@, count as nat),
{
    let number = decimal_string(count as u64);
    String::from_str("Upcoming animation movies (from ").concat(min_date).concat(" to ").concat(
        max_date,
    ).concat("): ").concat(number.as_str())
}

impl Action {
    /// The exit status that this action asks for: 0 where the run ends with
    /// success, 1 where it ends with an error, none where the run goes on.
    pub fn exit_status(&self) -> (status: Option<i32>)
        ensures
            status == match self@ {
                ActionView::Finish => Some(0i32),
                ActionView::Abort(_) => Some(1i32),
                _ => None,
            },
    {
        match self {
            Action::Finish => Some(0),
            Action::Abort(_) => Some(1),
            _ => None,
        }
    }
}

impl Stage {
    /// Begins a run with the API key `key`: the genre catalog is requested.
    pub fn begin(key: String) -> (first: (Stage, Action))
        ensures
            (first.0@, first.1@) == begin_spec(key@),
    {
        let request = genre_request(key.as_str());
        (Stage::LoadGenres { key }, Action::FetchGenres(request))
    }

    /// Takes what came of the outside work and says what follows: the next
    /// stage and the work to perform. There is no step for an event that the
    /// stage does not await.
    pub fn step(self, event: Event) -> (next: Option<(Stage, Action)>)
        ensures
            is_step(self@, event, step_view(next)),
    {
        match self {
            Stage::LoadGenres { key } => match event {
                Event::Genres(Ok(genres)) => Some(resolve_target_genre(key, genres)),
                Event::Genres(Err(failure)) => Some((Stage::Done, Action::Abort(genre_failure(failure)))),
                _ => None,
            },
            Stage::FetchAllPages { key, genre_map, genre_id, fetcher } => match event {
                Event::Page(outcome) => Some(
                    continue_fetch(key, genre_map, genre_id, fetcher.receive(outcome)),
                ),
                _ => None,
            },
            Stage::LoadSeenSet { genre_map, genre_id, upcoming } => match event {
                Event::SeenSet(file) => match load_opened_movie_set(file) {
                    Ok(opened) => Some(notify(genre_map, genre_id, upcoming, opened)),
                    Err(error) => Some((Stage::Done, Action::Abort(error))),
                },
                _ => None,
            },
            Stage::Notify { opened } => match event {
                Event::Presented => match save_opened_movie_set(&opened) {
                    Ok(bytes) => Some((Stage::SaveSeenSet, Action::WriteSeenSet(bytes))),
                    Err(error) => Some((Stage::Done, Action::Abort(error))),
                },
                _ => None,
            },
            Stage::SaveSeenSet => match event {
                Event::Written(outcome) => match write_result(outcome) {
                    Ok(()) => Some((Stage::Done, Action::Finish)),
                    Err(error) => Some((Stage::Done, Action::Abort(error))),
                },
                _ => None,
            },
            Stage::Done => None,
        }
    }
}

/// What follows the arrival of the genre catalog: the lookup table is built,
/// the id of the target genre is found in it, and the first page of upcoming
/// releases is requested. A catalog without the target genre ends the run.
pub fn resolve_target_genre(key: String, genres: Vec<Genre>) -> (next: (Stage, Action))
    ensures
        is_resolved(key@, genre_table(genres@), Some((next.0@, next.1@))),
{
    let genre_map = convert_to_map(genres.as_slice());
    match get_genre_id_by_name(TARGET_GENRE, &genre_map) {
        Ok(genre_id) => {
            let fetcher = Fetcher::new();
            let request = upcoming_request(fetcher.page(), key.as_str());
            assert(names_of(genre_map@).contains_key(genre_id));
            (Stage::FetchAllPages { key, genre_map, genre_id, fetcher }, Action::FetchPage(request))
        },
        Err(error) => (Stage::Done, Action::Abort(error)),
    }
}

/// What follows a step of the gathering of pages: the request for the next
/// page, or, when all pages are there, the headline with the number of
/// movies of the genre, and the question for the state file.
pub fn continue_fetch(key: String, genre_map: HashMap<u32, String>, genre_id: u32, step: FetchStep) -> (next:
    (Stage, Action))
    ensures
        (next.0@, next.1@) == after_page(key@, names_of(genre_map@), genre_id, step@),
{
    match step {
        FetchStep::Request(fetcher) => {
            let request = upcoming_request(fetcher.page(), key.as_str());
            (Stage::FetchAllPages { key, genre_map, genre_id, fetcher }, Action::FetchPage(request))
        },
        FetchStep::Complete(upcoming) => {
            let selected = get_upcoming_movies_by_genre_id(genre_id, upcoming.movies.as_slice());
            let count: usize = selected.len();
            assert(selected@.unref().len() == selected@.len());
            let line = headline(upcoming.min_date.as_str(), upcoming.max_date.as_str(), count);
            (Stage::LoadSeenSet { genre_map, genre_id, upcoming }, Action::ReadSeenSet { headline: line })
        },
        FetchStep::Failed(error) => (Stage::Done, Action::Abort(error)),
    }
}

/// What follows the loading of the set of opened movies: the movies of the
/// genre are selected, their notices are made, and every one of them is
/// entered into the set.
pub fn notify(
    genre_map: HashMap<u32, String>,
    genre_id: u32,
    upcoming: Upcoming,
    opened: HashSet<u32>,
) -> (next: (Stage, Action))
    ensures
        (next.0@, next.1@) == after_load(names_of(genre_map@), genre_id, upcoming@, opened@),
{
    let mut opened = opened;
    let selected = get_upcoming_movies_by_genre_id(genre_id, upcoming.movies.as_slice());
    let notices = process_found_movies(selected.as_slice(), &genre_map, &mut opened);
    (Stage::Notify { opened }, Action::Present(notices))
}

} // verus!
