//! Presenting the selected movies, each page of the movie database opened
//! once only.
//!
//! For every movie a notice is made: what is shown of it, the address of its
//! page, and whether that page was opened before. A page that was not opened
//! before is to be opened now, and the movie is entered into the set of
//! opened movies, so that neither a later movie of the same run nor a later
//! run opens it again.

use crate::genres::{genre_names, get_genre_name_from_ids, names_of};
use crate::model::Movie;
use crate::text::{decimal, decimal_string, join};
use std::collections::{HashMap, HashSet};
use vstd::prelude::*;
use vstd::string::*;

verus! {

/// The address below which each movie has its page.
pub const TMD_MOVIE_URL_BASE: &'static str = "https://www.themoviedb.org/movie";

/// What is presented of one movie.
#[derive(Debug, PartialEq, Eq)]
pub struct Notice {
    pub title: String,
    /// The names of the movie's genres, joined by `", "`.
    pub genres: String,
    pub release_date: String,
    /// The address of the movie's page.
    pub url: String,
    /// Whether the page was opened before. If not, it is to be opened now.
    pub was_opened: bool,
}

/// A notice with its texts as character sequences.
pub struct NoticeView {
    pub title: Seq<char>,
    pub genres: Seq<char>,
    pub release_date: Seq<char>,
    pub url: Seq<char>,
    pub was_opened: bool,
}

impl View for Notice {
    type V = NoticeView;

    open spec fn view(&self) -> NoticeView {
        NoticeView {
            title: self.title@,
            genres: self.genres@,
            release_date: self.release_date@,
            url: self.url@,
            was_opened: self.was_opened,
        }
    }
}

impl NoticeView {
    /// The lines in which a notice is shown: a separator, then the title,
    /// the genres, the release date and the address, each behind its label,
    /// and a last line that says so where the page was opened before.
    pub open spec fn lines(self) -> Seq<Seq<char>> {
        let summary = seq![
            "***"@,
            "Title: "@ + self.title,
            "Genres: "@ + self.genres,
            "Release date: "@ + self.release_date,
            "URL: "@ + self.url,
        ];
        if self.was_opened {
            summary.push("URL was opened"@)
        } else {
            summary
        }
    }
}

impl Notice {
    /// The lines in which this notice is shown, in the order in which they
    /// are to be printed.
    pub fn lines(&self) -> (lines: Vec<String>)
        ensures
            lines.deep_view() == self@.lines(),
    {
        let mut lines: Vec<String> = Vec::new();
        lines.push(String::from_str("***"));
        lines.push(String::from_str("Title: ").concat(self.title.as_str()));
        lines.push(String::from_str("Genres: ").concat(self.genres.as_str()));
        lines.push(String::from_str("Release date: ").concat(self.release_date.as_str()));
        lines.push(String::from_str("URL: ").concat(self.url.as_str()));
        if self.was_opened {
            lines.push(String::from_str("URL was opened"));
        }
        assert(lines.deep_view() =~= self@.lines());
        lines
    }
}

/// The views of a list of notices.
pub open spec fn notice_views(notices: Seq<Notice>) -> Seq<NoticeView> {
    notices.map_values(|notice: Notice| notice@)
}

/// The address of the page of the movie `id`.
pub open spec fn movie_url(id: u32) -> Seq<char> {
    TMD_MOVIE_URL_BASE@ + "/"@ + decimal(id as nat)
}

/// The notice for `movie` when the pages of the movies `opened` were opened
/// before.
pub open spec fn notice_for(movie: Movie, table: Map<u32, Seq<char>>, opened: Set<u32>) -> NoticeView {
    NoticeView {
        title: movie.title@,
        genres: join(genre_names(movie.genre_ids@, table), ", "@),
        release_date: movie.release_date@,
        url: movie_url(movie.id),
        was_opened: opened.contains(movie.id),
    }
}

/// The set of opened movies after `movies` were presented: what it held
/// before, and the id of every movie presented.
pub open spec fn opened_after(movies: Seq<Movie>, opened: Set<u32>) -> Set<u32> {
    Set::new(
        |id: u32|
            opened.contains(id) || exists|i: int|
                0 <= i < movies.len() && #[trigger] movies[i].id == id,
    )
}

/// The notices for `movies`, in their order. For each movie, the pages
/// opened before are those of `opened` and those of the movies that stand
/// before it in the list.
pub open spec fn notices_for(movies: Seq<Movie>, table: Map<u32, Seq<char>>, opened: Set<u32>) -> Seq<
    NoticeView,
> {
    Seq::new(
        movies.len(),
        |i: int| notice_for(movies[i], table, opened_after(movies.take(i), opened)),
    )
}

/// Presenting one movie more enters its id.
pub proof fn lemma_opened_after_push(movies: Seq<Movie>, movie: Movie, opened: Set<u32>)
    ensures
        opened_after(movies.push(movie), opened) == opened_after(movies, opened).insert(movie.id),
{
    let all = movies.push(movie);
    assert forall|id: u32|
        opened_after(all, opened).contains(id) == opened_after(movies, opened).insert(
            movie.id,
        ).contains(id) by {
        if opened_after(all, opened).contains(id) && !opened.contains(id) {
            let i = choose|i: int| 0 <= i < all.len() && #[trigger] all[i].id == id;
            if i < movies.len() {
                assert(movies[i].id == id);
            }
        }
        if opened_after(movies, opened).contains(id) && !opened.contains(id) {
            let i = choose|i: int| 0 <= i < movies.len() && #[trigger] movies[i].id == id;
            assert(all[i].id == id);
        }
        if id == movie.id {
            assert(all[movies.len() as int].id == id);
        }
    }
    assert(opened_after(all, opened) =~= opened_after(movies, opened).insert(movie.id));
}

/// A page is opened once. In a run that starts from the set `opened`, the
/// page of a movie is opened at the first place at which the movie stands in
/// the list, and only if `opened` does not hold it. A second run over the
/// same movies, started from the set that the first run left, opens nothing
/// and leaves the set as it is.
pub proof fn lemma_opened_once(movies: Seq<Movie>, table: Map<u32, Seq<char>>, opened: Set<u32>)
    ensures
        forall|i: int|
            0 <= i < movies.len() ==> (!(#[trigger] notices_for(movies, table, opened)[i]).was_opened
                <==> !opened.contains(movies[i].id) && forall|j: int|
                0 <= j < i ==> movies[j].id != movies[i].id),
        forall|i: int|
            0 <= i < movies.len() ==> (#[trigger] notices_for(
                movies,
                table,
                opened_after(movies, opened),
            )[i]).was_opened,
        opened_after(movies, opened_after(movies, opened)) == opened_after(movies, opened),
{
    let after = opened_after(movies, opened);
    assert forall|i: int| 0 <= i < movies.len() implies (!(#[trigger] notices_for(
        movies,
        table,
        opened,
    )[i]).was_opened <==> !opened.contains(movies[i].id) && forall|j: int|
        0 <= j < i ==> movies[j].id != movies[i].id) by {
        let before = movies.take(i);
        let id = movies[i].id;
        if opened_after(before, opened).contains(id) && !opened.contains(id) {
            let j = choose|j: int| 0 <= j < before.len() && #[trigger] before[j].id == id;
            assert(movies[j].id == id);
        }
        if !opened_after(before, opened).contains(id) {
            assert forall|j: int| 0 <= j < i implies movies[j].id != id by {
                assert(before[j].id == movies[j].id);
            }
        }
    }
    assert forall|i: int| 0 <= i < movies.len() implies (#[trigger] notices_for(
        movies,
        table,
        after,
    )[i]).was_opened by {
        assert(after.contains(movies[i].id));
    }
    assert(opened_after(movies, after) =~= after);
}

/// The address of the page of the movie `id`.
pub fn url_of(id: u32) -> (url: String)
    ensures
        url@ == movie_url(id),
{
    let number = decimal_string(id as u64);
    String::from_str(TMD_MOVIE_URL_BASE).concat("/").concat(number.as_str())
}

/// Makes the notices for `movies`, in their order, and enters every movie
/// into `opened_movie_set`. A notice says that the page was opened before if
/// the set held the movie when its turn came: from an earlier run, or from
/// an earlier place in `movies`.
pub fn process_found_movies(
    movies: &[&Movie],
    genre_map: &HashMap<u32, String>,
    opened_movie_set: &mut HashSet<u32>,
) -> (notices: Vec<Notice>)
    ensures
        notices@.len() == movies@.len(),
        notice_views(notices@) == notices_for(
            movies@.unref(),
            names_of(genre_map@),
            old(opened_movie_set)@,
        ),
        final(opened_movie_set)@ == opened_after(movies@.unref(), old(opened_movie_set)@),
        old(opened_movie_set)@.subset_of(final(opened_movie_set)@),
{
    let ghost all = movies@.unref();
    let ghost table = names_of(genre_map@);
    let ghost opened = opened_movie_set@;
    let mut notices: Vec<Notice> = Vec::new();
    assert(notice_views(notices@) =~= notices_for(all, table, opened).take(0));
    assert(opened_movie_set@ =~= opened_after(all.take(0), opened));
    let mut i: usize = 0;
    while i < movies.len()
        invariant
            i <= movies@.len(),
            all == movies@.unref(),
            table == names_of(genre_map@),
            notice_views(notices@) == notices_for(all, table, opened).take(i as int),
            opened_movie_set@ == opened_after(all.take(i as int), opened),
        decreases movies@.len() - i,
    {
        let movie = movies[i];
        let ghost before = notices@;
        let was_opened = opened_movie_set.contains(&movie.id);
        let notice = Notice {
            title: movie.title.clone(),
            genres: get_genre_name_from_ids(movie.genre_ids.as_slice(), genre_map),
            release_date: movie.release_date.clone(),
            url: url_of(movie.id),
            was_opened,
        };
        assert(notice@ == notices_for(all, table, opened)[i as int]);
        if !was_opened {
            opened_movie_set.insert(movie.id);
        }
        proof {
            assert(all.take(i + 1) =~= all.take(i as int).push(*movie));
            lemma_opened_after_push(all.take(i as int), *movie, opened);
            assert(opened_movie_set@ =~= opened_after(all.take(i + 1), opened));
        }
        let ghost shown = notice@;
        notices.push(notice);
        proof {
            let expected = notices_for(all, table, opened);
            assert(notice_views(notices@) =~= notice_views(before).push(shown));
            assert(expected.take(i + 1) =~= expected.take(i as int).push(expected[i as int]));
        }
        i += 1;
    }
    assert(notices_for(all, table, opened).take(all.len() as int) =~= notices_for(
        all,
        table,
        opened,
    ));
    assert(all.take(all.len() as int) =~= all);
    assert(notice_views(notices@).len() == notices@.len());
    notices
}

} // verus!
