//! The records that the movie database returns.

use vstd::prelude::*;

verus! {

/// One entry of the genre catalog.
#[derive(Debug, Clone, PartialEq, Eq)]
pub struct Genre {
    pub id: u32,
    pub name: String,
}

/// One upcoming release. Its identity is `id`; `release_date` is kept as the
/// text that the server sent.
#[derive(Debug, Clone, PartialEq, Eq)]
pub struct Movie {
    pub poster_path: Option<String>,
    pub adult: bool,
    pub overview: String,
    pub release_date: String,
    pub genre_ids: Vec<u32>,
    pub id: u32,
    pub title: String,
}

/// The range of release dates that a page of results covers.
#[derive(Debug, Clone, PartialEq, Eq)]
pub struct Dates {
    pub maximum: String,
    pub minimum: String,
}

/// One page of upcoming releases, with the totals that the server reports.
#[derive(Debug, Clone, PartialEq, Eq)]
pub struct UpComingMovieResponse {
    pub page: u32,
    pub results: Vec<Movie>,
    pub dates: Dates,
    pub total_pages: u32,
    pub total_results: u32,
}

impl Movie {
    /// Whether `genre_id` is among the movie's genres, at any position.
    pub open spec fn has_genre(self, genre_id: u32) -> bool {
        self.genre_ids@.contains(genre_id)
    }

    /// Tells whether `genre_id` is among the movie's genres.
    pub fn in_genre(&self, genre_id: u32) -> (found: bool)
        ensures
            found == self.has_genre(genre_id),
    {
        let mut i: usize = 0;
        while i < self.genre_ids.len()
            invariant
                i <= self.genre_ids@.len(),
                forall|j: int| 0 <= j < i ==> self.genre_ids@[j] != genre_id,
            decreases self.genre_ids@.len() - i,
        {
            if self.genre_ids[i] == genre_id {
                return true;
            }
            i += 1;
        }
        false
    }
}

} // verus!
