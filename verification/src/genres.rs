//! The genre catalog: a table from genre id to genre name.

use crate::error::{AppError, AppErrorView};
use crate::model::Genre;
use crate::text::{join, lemma_join_push};
use std::collections::HashMap;
use vstd::prelude::*;
use vstd::std_specs::hash::into_iter;
use vstd::std_specs::iter::IteratorSpec;
use vstd::string::*;

verus! {

/// The names of a catalog as character sequences.
pub open spec fn names_of(table: Map<u32, String>) -> Map<u32, Seq<char>> {
    table.map_values(|name: String| name@)
}

/// The table that a list of genres stands for: each id with its name, the
/// later entry winning where an id occurs twice.
pub open spec fn genre_table(genres: Seq<Genre>) -> Map<u32, Seq<char>>
    decreases genres.len(),
{
    if genres.len() == 0 {
        Map::empty()
    } else {
        genre_table(genres.drop_last()).insert(genres.last().id, genres.last().name@)
    }
}

/// The names of the genres `ids`, in the order of `ids`; an id that the
/// table does not hold contributes nothing.
pub open spec fn genre_names(ids: Seq<u32>, table: Map<u32, Seq<char>>) -> Seq<Seq<char>>
    decreases ids.len(),
{
    if ids.len() == 0 {
        Seq::empty()
    } else if table.contains_key(ids.last()) {
        genre_names(ids.drop_last(), table).push(table[ids.last()])
    } else {
        genre_names(ids.drop_last(), table)
    }
}

/// Whether some genre of the catalog is called `name`.
pub open spec fn has_name(table: Map<u32, Seq<char>>, name: Seq<char>) -> bool {
    exists|id: u32| #[trigger] table.contains_key(id) && table[id] == name
}

/// The entries of a catalog in the order in which the table hands them out.
pub open spec fn entries_in_order(genre_map: &HashMap<u32, String>) -> Seq<(u32, String)> {
    into_iter(genre_map.iter())
}

/// The id of the last entry of `entries` whose name is `name`, if there is one.
pub open spec fn last_id_named(entries: Seq<(u32, String)>, name: Seq<char>) -> Option<u32>
    decreases entries.len(),
{
    if entries.len() == 0 {
        None
    } else if entries.last().1@ == name {
        Some(entries.last().0)
    } else {
        last_id_named(entries.drop_last(), name)
    }
}

/// Whether `entries` lists exactly the entries of `table`, each of them once.
pub open spec fn lists_table(entries: Seq<(u32, String)>, table: Map<u32, String>) -> bool {
    &&& entries.len() == table.dom().len()
    &&& forall|i: int|
        0 <= i < entries.len() ==> #[trigger] table.contains_key(entries[i].0)
            && table[entries[i].0] == entries[i].1
    &&& forall|id: u32| #[trigger] table.contains_key(id) ==> entries.contains((id, table[id]))
}

/// A listing of references to the entries of a table lists the table.
proof fn lemma_unref_lists(listing: Seq<(&u32, &String)>, table: Map<u32, String>)
    requires
        listing.len() == table.dom().len(),
        forall|i: int|
            0 <= i < listing.len() ==> #[trigger] table.contains_key(*listing[i].0)
                && table[*listing[i].0] == *listing[i].1,
        forall|id: u32| #[trigger] table.contains_key(id) ==> listing.contains((&id, &table[id])),
    ensures
        lists_table(listing.unref(), table),
{
    let entries = listing.unref();
    assert forall|id: u32| #[trigger] table.contains_key(id) implies entries.contains(
        (id, table[id]),
    ) by {
        let i = choose|i: int| 0 <= i < listing.len() && listing[i] == (&id, &table[id]);
        assert(entries[i] == (id, table[id]));
    }
}

/// The last match of a listing is an entry of the table, and a listing
/// without a match means that no entry of the table has the name.
proof fn lemma_last_id_named(entries: Seq<(u32, String)>, table: Map<u32, String>, name: Seq<char>)
    requires
        lists_table(entries, table),
    ensures
        match last_id_named(entries, name) {
            Some(id) => table.contains_key(id) && table[id]@ == name,
            None => !has_name(names_of(table), name),
        },
{
    lemma_last_id_named_scan(entries, name);
    if last_id_named(entries, name) is None {
        assert forall|id: u32| #[trigger]
            names_of(table).contains_key(id) implies names_of(table)[id] != name by {
            assert(table.contains_key(id));
            let i = choose|i: int| 0 <= i < entries.len() && entries[i] == (id, table[id]);
            assert(entries[i].1@ != name);
        }
    }
}

/// What a scan from the end finds: the match after which no entry has the
/// name, or nothing where no entry has it.
proof fn lemma_last_id_named_scan(entries: Seq<(u32, String)>, name: Seq<char>)
    ensures
        match last_id_named(entries, name) {
            Some(id) => exists|i: int|
                0 <= i < entries.len() && #[trigger] entries[i].0 == id && entries[i].1@ == name
                    && forall|j: int| i < j < entries.len() ==> (#[trigger] entries[j]).1@ != name,
            None => forall|i: int| 0 <= i < entries.len() ==> (#[trigger] entries[i]).1@ != name,
        },
    decreases entries.len(),
{
    if entries.len() > 0 {
        if entries.last().1@ == name {
            assert(entries[entries.len() - 1].0 == entries.last().0);
        } else {
            let rest = entries.drop_last();
            lemma_last_id_named_scan(rest, name);
            match last_id_named(rest, name) {
                Some(id) => {
                    let i = choose|i: int|
                        0 <= i < rest.len() && #[trigger] rest[i].0 == id && rest[i].1@ == name
                            && forall|j: int| i < j < rest.len() ==> (#[trigger] rest[j]).1@ != name;
                    assert(entries[i].0 == id);
                    assert forall|j: int| i < j < entries.len() implies (#[trigger] entries[j]).1@
                        != name by {
                        if j < rest.len() {
                            assert(rest[j].1@ != name);
                        }
                    }
                },
                None => {
                    assert forall|i: int| 0 <= i < entries.len() implies (#[trigger] entries[i]).1@
                        != name by {
                        if i < rest.len() {
                            assert(rest[i].1@ != name);
                        }
                    }
                },
            }
        }
    }
}

/// Looks up the id of the genre called `genre_name`; the comparison is exact
/// and case-sensitive. Where several genres share the name, the one that the
/// table hands out last wins: which one that is depends on the table, not on
/// the ids. The order in which the table hands out its entries lists each
/// entry once.
pub fn get_genre_id_by_name(genre_name: &str, genre_map: &HashMap<u32, String>) -> (found: Result<
    u32,
    AppError,
>)
    ensures
        lists_table(entries_in_order(genre_map), genre_map@),
        match found {
            Ok(id) => {
                &&& genre_map@.contains_key(id)
                &&& genre_map@[id]@ == genre_name@
                &&& last_id_named(entries_in_order(genre_map), genre_name@) == Some(id)
            },
            Err(error) => {
                &&& !has_name(names_of(genre_map@), genre_name@)
                &&& error@ == AppErrorView::GenreIdNotFoundError(genre_name@)
            },
        },
{
    let wanted = String::from_str(genre_name);
    let mut last: Option<u32> = None;
    proof {
        lemma_unref_lists(genre_map.iter().remaining(), genre_map@);
    }
    for entry in it: genre_map.iter()
        invariant
            wanted@ == genre_name@,
            it.seq().unref() == entries_in_order(genre_map),
            lists_table(entries_in_order(genre_map), genre_map@),
            last == last_id_named(entries_in_order(genre_map).take(it.index()), genre_name@),
    {
        let (id, name) = entry;
        proof {
            let seen = entries_in_order(genre_map).take(it.index() + 1);
            assert(seen.drop_last() =~= entries_in_order(genre_map).take(it.index() as int));
            assert(seen.last() == (*id, *name));
        }
        if *name == wanted {
            last = Some(*id);
        }
    }
    proof {
        let entries = entries_in_order(genre_map);
        assert(entries.take(entries.len() as int) =~= entries);
        lemma_last_id_named(entries, genre_map@, genre_name@);
    }
    match last {
        Some(id) => Ok(id),
        None => Err(AppError::GenreIdNotFoundError(wanted)),
    }
}

/// Builds the lookup table of a genre catalog. Where an id occurs twice, the
/// later entry replaces the earlier one.
pub fn convert_to_map(genres: &[Genre]) -> (genre_id_to_name: HashMap<u32, String>)
    ensures
        names_of(genre_id_to_name@) == genre_table(genres@),
{
    let mut genre_id_to_name: HashMap<u32, String> = HashMap::new();
    assert(names_of(genre_id_to_name@) =~= genre_table(genres@.take(0)));
    let mut i: usize = 0;
    while i < genres.len()
        invariant
            i <= genres@.len(),
            names_of(genre_id_to_name@) == genre_table(genres@.take(i as int)),
        decreases genres@.len() - i,
    {
        let ghost before = genre_id_to_name@;
        genre_id_to_name.insert(genres[i].id, genres[i].name.clone());
        proof {
            let seen = genres@.take(i + 1);
            assert(seen.drop_last() =~= genres@.take(i as int));
            assert(seen.last() == genres@[i as int]);
            assert(names_of(genre_id_to_name@) =~= names_of(before).insert(
                genres@[i as int].id,
                genres@[i as int].name@,
            ));
        }
        i += 1;
    }
    assert(genres@.take(genres@.len() as int) =~= genres@);
    genre_id_to_name
}

/// Renders the genres of a movie: the names of `ids` in their order, joined
/// by `", "`. Ids that the catalog does not hold are left out.
pub fn get_genre_name_from_ids(ids: &[u32], genre_map: &HashMap<u32, String>) -> (names: String)
    ensures
        names@ == join(genre_names(ids@, names_of(genre_map@)), ", "@),
{
    let ghost table = names_of(genre_map@);
    let mut names = String::new();
    let mut is_first = true;
    assert(genre_names(ids@.take(0), table) =~= Seq::<Seq<char>>::empty());
    let mut i: usize = 0;
    while i < ids.len()
        invariant
            i <= ids@.len(),
            table == names_of(genre_map@),
            names@ == join(genre_names(ids@.take(i as int), table), ", "@),
            is_first == (genre_names(ids@.take(i as int), table).len() == 0),
        decreases ids@.len() - i,
    {
        proof {
            let seen = ids@.take(i + 1);
            assert(seen.drop_last() =~= ids@.take(i as int));
            assert(seen.last() == ids@[i as int]);
        }
        match genre_map.get(&ids[i]) {
            Some(name) => {
                proof {
                    lemma_join_push(genre_names(ids@.take(i as int), table), name@, ", "@);
                }
                if !is_first {
                    names.append(", ");
                }
                names.append(name.as_str());
                is_first = false;
            },
            None => {},
        }
        i += 1;
    }
    assert(ids@.take(ids@.len() as int) =~= ids@);
    names
}

} // verus!
