use movie_alert::genres::convert_to_map;
use movie_alert::model::{Genre, Movie};
use movie_alert::notify::{process_found_movies, url_of, Notice, TMD_MOVIE_URL_BASE};
use std::collections::{HashMap, HashSet};

fn shown_movie(id: u32, title: &str, genre_ids: &[u32]) -> Movie {
    Movie {
        poster_path: None,
        adult: false,
        overview: "an overview".to_string(),
        release_date: "2017-08-04".to_string(),
        genre_ids: genre_ids.to_vec(),
        id,
        title: title.to_string(),
    }
}

fn shown_catalog() -> HashMap<u32, String> {
    convert_to_map(&[
        Genre { id: 1, name: "Action".to_string() },
        Genre { id: 2, name: "Animation".to_string() },
    ])
}

fn opened_flags(notices: &[Notice]) -> Vec<bool> {
    notices.iter().map(|notice| notice.was_opened).collect()
}

#[test]
fn movie_page_address() {
    assert_eq!(TMD_MOVIE_URL_BASE, "https://www.themoviedb.org/movie");
    assert_eq!(url_of(100), "https://www.themoviedb.org/movie/100");
    assert_eq!(url_of(0), "https://www.themoviedb.org/movie/0");
    assert_eq!(url_of(4294967295), "https://www.themoviedb.org/movie/4294967295");
}

#[test]
fn notice_shows_title_genres_date_and_address() {
    let movie = shown_movie(100, "Cars 3", &[1, 7, 2]);
    let mut opened = HashSet::new();
    let notices = process_found_movies(&[&movie], &shown_catalog(), &mut opened);
    assert_eq!(
        notices,
        vec![Notice {
            title: "Cars 3".to_string(),
            genres: "Action, Animation".to_string(),
            release_date: "2017-08-04".to_string(),
            url: "https://www.themoviedb.org/movie/100".to_string(),
            was_opened: false,
        }]
    );
}

#[test]
fn new_movie_is_entered_into_the_set() {
    let movie = shown_movie(100, "Cars 3", &[2]);
    let mut opened: HashSet<u32> = [7u32].into_iter().collect();
    process_found_movies(&[&movie], &shown_catalog(), &mut opened);
    assert_eq!(opened, [7u32, 100].into_iter().collect());
}

#[test]
fn second_run_opens_nothing_and_keeps_the_set() {
    let first = shown_movie(100, "Cars 3", &[2]);
    let second = shown_movie(200, "Coco", &[2]);
    let movies = [&first, &second];
    let mut opened = HashSet::new();
    let run_one = process_found_movies(&movies, &shown_catalog(), &mut opened);
    assert_eq!(opened_flags(&run_one), vec![false, false]);
    let after_one = opened.clone();
    let run_two = process_found_movies(&movies, &shown_catalog(), &mut opened);
    assert_eq!(opened_flags(&run_two), vec![true, true]);
    assert_eq!(opened, after_one);
    assert_eq!(opened.len(), 2);
}

#[test]
fn movie_known_from_an_earlier_run_is_not_opened_again() {
    let known = shown_movie(100, "Cars 3", &[2]);
    let fresh = shown_movie(200, "Coco", &[2]);
    let mut opened: HashSet<u32> = [100u32].into_iter().collect();
    let notices = process_found_movies(&[&known, &fresh], &shown_catalog(), &mut opened);
    assert_eq!(opened_flags(&notices), vec![true, false]);
    assert_eq!(opened, [100u32, 200].into_iter().collect());
}

#[test]
fn movie_listed_twice_is_opened_at_its_first_place_only() {
    let movie = shown_movie(100, "Cars 3", &[2]);
    let other = shown_movie(200, "Coco", &[2]);
    let mut opened = HashSet::new();
    let notices = process_found_movies(&[&movie, &other, &movie], &shown_catalog(), &mut opened);
    assert_eq!(opened_flags(&notices), vec![false, false, true]);
    assert_eq!(opened.len(), 2);
}

#[test]
fn nothing_to_present_changes_nothing() {
    let mut opened: HashSet<u32> = [1u32, 2].into_iter().collect();
    let notices = process_found_movies(&[], &shown_catalog(), &mut opened);
    assert!(notices.is_empty());
    assert_eq!(opened, [1u32, 2].into_iter().collect());
}

#[test]
fn notices_keep_the_order_of_the_movies() {
    let a = shown_movie(3, "C", &[]);
    let b = shown_movie(1, "A", &[]);
    let c = shown_movie(2, "B", &[]);
    let mut opened = HashSet::new();
    let notices = process_found_movies(&[&a, &b, &c], &shown_catalog(), &mut opened);
    let titles: Vec<&str> = notices.iter().map(|notice| notice.title.as_str()).collect();
    assert_eq!(titles, vec!["C", "A", "B"]);
}

#[test]
fn genres_unknown_to_the_catalog_are_not_shown() {
    let movie = shown_movie(5, "Unknown", &[9, 8]);
    let mut opened = HashSet::new();
    let notices = process_found_movies(&[&movie], &shown_catalog(), &mut opened);
    assert_eq!(notices[0].genres, "");
}

#[test]
fn lines_of_a_new_notice() {
    let notice = Notice {
        title: "Cars 3".to_string(),
        genres: "Action, Animation".to_string(),
        release_date: "2017-08-04".to_string(),
        url: "https://www.themoviedb.org/movie/100".to_string(),
        was_opened: false,
    };
    assert_eq!(
        notice.lines(),
        vec![
            "***".to_string(),
            "Title: Cars 3".to_string(),
            "Genres: Action, Animation".to_string(),
            "Release date: 2017-08-04".to_string(),
            "URL: https://www.themoviedb.org/movie/100".to_string(),
        ]
    );
}

#[test]
fn lines_of_a_notice_for_an_opened_page() {
    let notice = Notice {
        title: String::new(),
        genres: String::new(),
        release_date: String::new(),
        url: "u".to_string(),
        was_opened: true,
    };
    assert_eq!(
        notice.lines(),
        vec![
            "***".to_string(),
            "Title: ".to_string(),
            "Genres: ".to_string(),
            "Release date: ".to_string(),
            "URL: u".to_string(),
            "URL was opened".to_string(),
        ]
    );
}
