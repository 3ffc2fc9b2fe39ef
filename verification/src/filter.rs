//! Selecting the movies of one genre.

use crate::model::Movie;
use vstd::prelude::*;

verus! {

/// The movies of `movies` that have the genre `genre_id`, in their order.
pub open spec fn movies_of_genre(genre_id: u32, movies: Seq<Movie>) -> Seq<Movie> {
    movies.filter(|movie: Movie| movie.has_genre(genre_id))
}

/// The positions in `movies` of the movies that have the genre `genre_id`,
/// in increasing order.
pub open spec fn positions_of_genre(genre_id: u32, movies: Seq<Movie>) -> Seq<int>
    decreases movies.len(),
{
    if movies.len() == 0 {
        Seq::empty()
    } else if movies.last().has_genre(genre_id) {
        positions_of_genre(genre_id, movies.drop_last()).push(movies.len() - 1)
    } else {
        positions_of_genre(genre_id, movies.drop_last())
    }
}

/// Selects the movies that have the genre `genre_id`. The result refers to
/// the selected movies themselves, in the order in which `movies` holds them.
pub fn get_upcoming_movies_by_genre_id(genre_id: u32, movies: &[Movie]) -> (selected: Vec<&Movie>)
    ensures
        selected@.unref() == movies_of_genre(genre_id, movies@),
{
    let mut selected: Vec<&Movie> = Vec::new();
    assert(selected@.unref() =~= movies_of_genre(genre_id, movies@.take(0))) by {
        reveal(Seq::filter);
    }
    let mut i: usize = 0;
    while i < movies.len()
        invariant
            i <= movies@.len(),
            selected@.unref() == movies_of_genre(genre_id, movies@.take(i as int)),
        decreases movies@.len() - i,
    {
        let ghost before = selected@;
        let movie = &movies[i];
        proof {
            reveal(Seq::filter);
            let seen = movies@.take(i + 1);
            assert(seen.drop_last() =~= movies@.take(i as int));
            assert(seen.last() == movies@[i as int]);
        }
        if movie.in_genre(genre_id) {
            selected.push(movie);
            assert(selected@.unref() =~= before.unref().push(*movie));
        }
        i += 1;
    }
    assert(movies@.take(movies@.len() as int) =~= movies@);
    selected
}

/// Filtering by genre keeps each movie that has the genre and no other, once
/// for each place at which it stands, and keeps them in their order: the
/// result is the movies at the places that `positions_of_genre` lists, those
/// places are exactly the places of the movies with the genre, and they
/// increase strictly.
pub proof fn lemma_filter_by_genre(genre_id: u32, movies: Seq<Movie>)
    ensures
        ({
            let selected = movies_of_genre(genre_id, movies);
            let places = positions_of_genre(genre_id, movies);
            &&& selected.len() == places.len()
            &&& forall|k: int|
                0 <= k < places.len() ==> 0 <= #[trigger] places[k] < movies.len()
                    && selected[k] == movies[places[k]]
            &&& forall|k: int, l: int| 0 <= k < l < places.len() ==> places[k] < places[l]
            &&& forall|i: int|
                0 <= i < movies.len() ==> (#[trigger] movies[i].has_genre(genre_id)
                    <==> places.contains(i))
            &&& forall|i: int|
                0 <= i < movies.len() ==> (#[trigger] movies[i].has_genre(genre_id)
                    <==> selected.contains(movies[i]))
        }),
    decreases movies.len(),
{
    reveal(Seq::filter);
    let selected = movies_of_genre(genre_id, movies);
    let places = positions_of_genre(genre_id, movies);
    if movies.len() > 0 {
        let rest = movies.drop_last();
        lemma_filter_by_genre(genre_id, rest);
        let rest_selected = movies_of_genre(genre_id, rest);
        let rest_places = positions_of_genre(genre_id, rest);
        let last = movies.len() - 1;
        assert forall|i: int| 0 <= i < movies.len() implies (#[trigger] movies[i].has_genre(
            genre_id,
        ) <==> places.contains(i)) by {
            if i < last {
                assert(rest[i] == movies[i]);
                if rest_places.contains(i) {
                    let k = choose|k: int| 0 <= k < rest_places.len() && rest_places[k] == i;
                    assert(places[k] == i);
                }
                if places.contains(i) {
                    let k = choose|k: int| 0 <= k < places.len() && places[k] == i;
                    assert(k < rest_places.len());
                    assert(rest_places[k] == i);
                }
            } else {
                if movies[i].has_genre(genre_id) {
                    assert(places[places.len() - 1] == i);
                } else {
                    if places.contains(i) {
                        let k = choose|k: int| 0 <= k < places.len() && places[k] == i;
                        assert(rest_places[k] < rest.len());
                    }
                }
            }
        }
        assert forall|i: int| 0 <= i < movies.len() implies (#[trigger] movies[i].has_genre(
            genre_id,
        ) <==> selected.contains(movies[i])) by {
            if movies[i].has_genre(genre_id) {
                let k = choose|k: int| 0 <= k < places.len() && places[k] == i;
                assert(selected[k] == movies[i]);
            }
            if selected.contains(movies[i]) {
                let k = choose|k: int| 0 <= k < selected.len() && selected[k] == movies[i];
                assert(movies[places[k]].has_genre(genre_id));
            }
        }
    }
}

} // verus!
