use movie_alert::error::AppError;
use movie_alert::fetch::{FetchStep, Fetcher, Upcoming};
use movie_alert::genres::convert_to_map;
use movie_alert::model::{Dates, Genre, Movie, UpComingMovieResponse};
use movie_alert::notify::Notice;
use movie_alert::pipeline::{
    continue_fetch, headline, notify, resolve_target_genre, Action, Event, Stage, TARGET_GENRE,
};
use movie_alert::remote::{genre_request, upcoming_request, RemoteFailure};
use movie_alert::seen::{StateFile, WriteOutcome};
use std::collections::{HashMap, HashSet};

fn run_movie(id: u32, genre_ids: &[u32]) -> Movie {
    Movie {
        poster_path: None,
        adult: false,
        overview: String::new(),
        release_date: format!("2017-09-{:02}", id % 28 + 1),
        genre_ids: genre_ids.to_vec(),
        id,
        title: format!("movie {}", id),
    }
}

fn run_page(total_pages: u32, movies: Vec<Movie>) -> UpComingMovieResponse {
    UpComingMovieResponse {
        page: 1,
        results: movies,
        dates: Dates { maximum: "2017-09-30".to_string(), minimum: "2017-09-01".to_string() },
        total_pages,
        total_results: 2,
    }
}

fn run_catalog() -> Vec<Genre> {
    vec![
        Genre { id: 1, name: "Action".to_string() },
        Genre { id: 2, name: "Animation".to_string() },
    ]
}

fn run_table() -> HashMap<u32, String> {
    convert_to_map(&run_catalog())
}

fn advance(stage: Stage, event: Event) -> (Stage, Action) {
    stage.step(event).expect("the stage awaits this event")
}

/// Runs the stages up to the question for the state file, against a server
/// with one page that lists movie 100 (Action, Animation) and movie 101
/// (Action).
fn up_to_state_file() -> Stage {
    let (stage, _) = Stage::begin("KEY".to_string());
    let (stage, _) = advance(stage, Event::Genres(Ok(run_catalog())));
    let page = run_page(1, vec![run_movie(100, &[1, 2]), run_movie(101, &[1])]);
    let (stage, action) = advance(stage, Event::Page(Ok(page)));
    assert_eq!(
        action,
        Action::ReadSeenSet {
            headline: "Upcoming animation movies (from 2017-09-01 to 2017-09-30): 1".to_string()
        }
    );
    stage
}

fn notice_of_movie_100(was_opened: bool) -> Notice {
    Notice {
        title: "movie 100".to_string(),
        genres: "Action, Animation".to_string(),
        release_date: "2017-09-17".to_string(),
        url: "https://www.themoviedb.org/movie/100".to_string(),
        was_opened,
    }
}

#[test]
fn target_genre_is_animation() {
    assert_eq!(TARGET_GENRE, "Animation");
}

#[test]
fn run_begins_with_the_genre_catalog() {
    let (stage, action) = Stage::begin("KEY".to_string());
    assert!(matches!(stage, Stage::LoadGenres { .. }));
    assert_eq!(action, Action::FetchGenres(genre_request("KEY")));
    assert_eq!(action.exit_status(), None);
}

#[test]
fn catalog_with_the_target_genre_leads_to_page_one() {
    let (stage, _) = Stage::begin("KEY".to_string());
    let (stage, action) = advance(stage, Event::Genres(Ok(run_catalog())));
    assert_eq!(action, Action::FetchPage(upcoming_request(1, "KEY")));
    match stage {
        Stage::FetchAllPages { key, genre_map, genre_id, fetcher } => {
            assert_eq!(key, "KEY");
            assert_eq!(genre_id, 2);
            assert_eq!(genre_map, run_table());
            assert_eq!(fetcher.page(), 1);
        }
        other => panic!("unexpected stage {:?}", other),
    }
}

#[test]
fn catalog_without_the_target_genre_ends_the_run() {
    let (stage, _) = Stage::begin("KEY".to_string());
    let genres = vec![Genre { id: 1, name: "Action".to_string() }];
    let (stage, action) = advance(stage, Event::Genres(Ok(genres)));
    assert!(matches!(stage, Stage::Done));
    assert_eq!(action, Action::Abort(AppError::GenreIdNotFoundError("Animation".to_string())));
    assert_eq!(action.exit_status(), Some(1));
}

#[test]
fn failed_catalog_call_ends_the_run() {
    let (stage, _) = Stage::begin("KEY".to_string());
    let (stage, action) =
        advance(stage, Event::Genres(Err(RemoteFailure::Transport("timeout".to_string()))));
    assert!(matches!(stage, Stage::Done));
    assert_eq!(
        action,
        Action::Abort(AppError::RestClientError(
            "Error: cannot get movie genres".to_string(),
            "timeout".to_string()
        ))
    );
}

#[test]
fn pages_are_requested_one_after_the_other() {
    let (stage, _) = Stage::begin("KEY".to_string());
    let (stage, _) = advance(stage, Event::Genres(Ok(run_catalog())));
    let (stage, action) = advance(stage, Event::Page(Ok(run_page(3, vec![run_movie(1, &[2])]))));
    assert_eq!(action, Action::FetchPage(upcoming_request(2, "KEY")));
    let (stage, action) = advance(stage, Event::Page(Ok(run_page(1, vec![run_movie(2, &[1])]))));
    assert_eq!(action, Action::FetchPage(upcoming_request(3, "KEY")));
    let (stage, action) = advance(stage, Event::Page(Ok(run_page(1, vec![run_movie(3, &[2])]))));
    assert_eq!(
        action,
        Action::ReadSeenSet {
            headline: "Upcoming animation movies (from 2017-09-01 to 2017-09-30): 2".to_string()
        }
    );
    match stage {
        Stage::LoadSeenSet { upcoming, genre_id, .. } => {
            assert_eq!(genre_id, 2);
            let ids: Vec<u32> = upcoming.movies.iter().map(|movie| movie.id).collect();
            assert_eq!(ids, vec![1, 2, 3]);
        }
        other => panic!("unexpected stage {:?}", other),
    }
}

#[test]
fn failed_page_call_ends_the_run_without_a_save() {
    let (stage, _) = Stage::begin("KEY".to_string());
    let (stage, _) = advance(stage, Event::Genres(Ok(run_catalog())));
    let (stage, _) = advance(stage, Event::Page(Ok(run_page(2, vec![run_movie(1, &[2])]))));
    let (stage, action) =
        advance(stage, Event::Page(Err(RemoteFailure::Transport("reset".to_string()))));
    assert_eq!(
        action,
        Action::Abort(AppError::RestClientError(
            "Error: cannot get upcoming movies for page 2".to_string(),
            "reset".to_string()
        ))
    );
    assert!(matches!(stage, Stage::Done));
    assert!(stage.step(Event::Presented).is_none());
}

#[test]
fn first_run_opens_the_page_and_saves_the_movie() {
    let stage = up_to_state_file();
    let (stage, action) = advance(stage, Event::SeenSet(StateFile::Missing));
    assert_eq!(action, Action::Present(vec![notice_of_movie_100(false)]));
    match &stage {
        Stage::Notify { opened } => {
            let expected: HashSet<u32> = [100u32].into_iter().collect();
            assert_eq!(opened, &expected);
        }
        other => panic!("unexpected stage {:?}", other),
    }
    let (stage, action) = advance(stage, Event::Presented);
    assert_eq!(action, Action::WriteSeenSet(b"[100]".to_vec()));
    assert!(matches!(stage, Stage::SaveSeenSet));
    let (stage, action) = advance(stage, Event::Written(WriteOutcome::Written));
    assert_eq!(action, Action::Finish);
    assert_eq!(action.exit_status(), Some(0));
    assert!(matches!(stage, Stage::Done));
}

#[test]
fn second_run_reports_the_page_as_opened() {
    let stage = up_to_state_file();
    let (stage, action) = advance(stage, Event::SeenSet(StateFile::Content(b"[100]".to_vec())));
    assert_eq!(action, Action::Present(vec![notice_of_movie_100(true)]));
    let (stage, action) = advance(stage, Event::Presented);
    assert_eq!(action, Action::WriteSeenSet(b"[100]".to_vec()));
    let (_, action) = advance(stage, Event::Written(WriteOutcome::Written));
    assert_eq!(action, Action::Finish);
}

#[test]
fn corrupt_state_file_ends_the_run_before_anything_is_presented() {
    let stage = up_to_state_file();
    let (stage, action) = advance(stage, Event::SeenSet(StateFile::Content(b"oops".to_vec())));
    assert!(matches!(action, Action::Abort(AppError::SerdeJsonDeserializeError(_))));
    assert_eq!(action.exit_status(), Some(1));
    assert!(matches!(stage, Stage::Done));
}

#[test]
fn state_file_that_cannot_be_opened_ends_the_run() {
    let stage = up_to_state_file();
    let (stage, action) =
        advance(stage, Event::SeenSet(StateFile::OpenFailed("denied".to_string())));
    assert_eq!(action, Action::Abort(AppError::IOError("denied".to_string())));
    assert!(matches!(stage, Stage::Done));
}

#[test]
fn failed_write_is_reported_at_the_end() {
    let (stage, action) =
        advance(Stage::SaveSeenSet, Event::Written(WriteOutcome::FlushFailed("full".to_string())));
    assert_eq!(action, Action::Abort(AppError::IOError("full".to_string())));
    assert!(matches!(stage, Stage::Done));
    let (_, action) =
        advance(Stage::SaveSeenSet, Event::Written(WriteOutcome::WriteFailed("full".to_string())));
    assert_eq!(action, Action::Abort(AppError::SerdeJsonSerializeError("full".to_string())));
}

#[test]
fn event_that_is_not_awaited_gives_no_step() {
    let (stage, _) = Stage::begin("KEY".to_string());
    assert!(stage.step(Event::Presented).is_none());
    assert!(Stage::SaveSeenSet.step(Event::SeenSet(StateFile::Missing)).is_none());
    assert!(Stage::Notify { opened: HashSet::new() }.step(Event::Genres(Ok(Vec::new()))).is_none());
    assert!(up_to_state_file().step(Event::Written(WriteOutcome::Written)).is_none());
}

#[test]
fn ended_run_awaits_nothing() {
    assert!(Stage::Done.step(Event::Presented).is_none());
    assert!(Stage::Done.step(Event::Written(WriteOutcome::Written)).is_none());
    assert!(Stage::Done.step(Event::SeenSet(StateFile::Missing)).is_none());
    assert!(Stage::Done.step(Event::Genres(Ok(run_catalog()))).is_none());
}

#[test]
fn exit_status_of_each_action() {
    assert_eq!(Action::Finish.exit_status(), Some(0));
    assert_eq!(Action::Abort(AppError::HomeDirectoryError).exit_status(), Some(1));
    assert_eq!(Action::Present(Vec::new()).exit_status(), None);
    assert_eq!(Action::WriteSeenSet(Vec::new()).exit_status(), None);
    assert_eq!(Action::FetchPage(upcoming_request(1, "k")).exit_status(), None);
    assert_eq!(Action::ReadSeenSet { headline: String::new() }.exit_status(), None);
}

#[test]
fn headline_names_dates_and_count() {
    assert_eq!(
        headline("2017-06-01", "2017-06-30", 12),
        "Upcoming animation movies (from 2017-06-01 to 2017-06-30): 12"
    );
    assert_eq!(headline("", "", 0), "Upcoming animation movies (from  to ): 0");
}

#[test]
fn resolving_the_target_genre() {
    let (stage, action) = resolve_target_genre("K".to_string(), run_catalog());
    assert!(matches!(stage, Stage::FetchAllPages { genre_id: 2, .. }));
    assert_eq!(action, Action::FetchPage(upcoming_request(1, "K")));
    let (stage, action) = resolve_target_genre("K".to_string(), Vec::new());
    assert!(matches!(stage, Stage::Done));
    assert_eq!(action, Action::Abort(AppError::GenreIdNotFoundError("Animation".to_string())));
}

#[test]
fn continuing_after_each_kind_of_fetch_step() {
    let next = match Fetcher::new().receive(Ok(run_page(5, Vec::new()))) {
        FetchStep::Request(next) => next,
        other => panic!("unexpected step {:?}", other),
    };
    let (stage, action) =
        continue_fetch("K".to_string(), run_table(), 2, FetchStep::Request(next));
    assert!(matches!(stage, Stage::FetchAllPages { .. }));
    assert_eq!(action, Action::FetchPage(upcoming_request(2, "K")));

    let upcoming = Upcoming {
        movies: vec![run_movie(1, &[2]), run_movie(2, &[3]), run_movie(3, &[2, 2])],
        min_date: "a".to_string(),
        max_date: "b".to_string(),
    };
    let (stage, action) =
        continue_fetch("K".to_string(), run_table(), 2, FetchStep::Complete(upcoming));
    assert!(matches!(stage, Stage::LoadSeenSet { .. }));
    assert_eq!(
        action,
        Action::ReadSeenSet { headline: "Upcoming animation movies (from a to b): 2".to_string() }
    );

    let (stage, action) = continue_fetch(
        "K".to_string(),
        run_table(),
        2,
        FetchStep::Failed(AppError::HomeDirectoryError),
    );
    assert!(matches!(stage, Stage::Done));
    assert_eq!(action, Action::Abort(AppError::HomeDirectoryError));
}

#[test]
fn notifying_selects_the_genre_and_fills_the_set() {
    let upcoming = Upcoming {
        movies: vec![run_movie(100, &[1, 2]), run_movie(101, &[1]), run_movie(102, &[2])],
        min_date: String::new(),
        max_date: String::new(),
    };
    let opened: HashSet<u32> = [102u32, 5].into_iter().collect();
    let (stage, action) = notify(run_table(), 2, upcoming, opened);
    match action {
        Action::Present(notices) => {
            let shown: Vec<(&str, bool)> =
                notices.iter().map(|n| (n.url.as_str(), n.was_opened)).collect();
            assert_eq!(
                shown,
                vec![
                    ("https://www.themoviedb.org/movie/100", false),
                    ("https://www.themoviedb.org/movie/102", true),
                ]
            );
        }
        other => panic!("unexpected action {:?}", other),
    }
    match stage {
        Stage::Notify { opened } => {
            assert_eq!(opened, [5u32, 100, 102].into_iter().collect());
        }
        other => panic!("unexpected stage {:?}", other),
    }
}

#[test]
fn catalog_answered_without_success_ends_the_run() {
    let (stage, _) = Stage::begin("KEY".to_string());
    let (stage, action) = advance(stage, Event::Genres(Err(RemoteFailure::Status(401))));
    assert!(matches!(stage, Stage::Done));
    assert_eq!(
        action,
        Action::Abort(AppError::RestClientError(
            "Error: cannot get movie genres".to_string(),
            "response status 401".to_string()
        ))
    );
    assert_eq!(action.exit_status(), Some(1));
}

#[test]
fn saving_after_the_notices_never_fails() {
    for ids in [&[][..], &[100][..], &[3, 1, 2][..]] {
        let opened: HashSet<u32> = ids.iter().copied().collect();
        let (stage, action) = advance(Stage::Notify { opened }, Event::Presented);
        assert!(matches!(stage, Stage::SaveSeenSet));
        assert!(matches!(action, Action::WriteSeenSet(_)));
    }
    let (_, action) = advance(Stage::Notify { opened: HashSet::new() }, Event::Presented);
    assert_eq!(action, Action::WriteSeenSet(b"[]".to_vec()));
}
