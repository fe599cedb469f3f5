//! Which podcasts a user favors: one row per (username, podcast id).

use crate::mapping_service::{is_dto_of, MappingService, PodcastDto};
use crate::podcast::{Podcast, PodcastEpisode};
use crate::ordering::{reverse_rows, sort_desc, sorted_asc, sorted_desc, SortColumn, SortKey};
use crate::seqs::{lemma_filter_member, lemma_filter_step};
use crate::text::{anywhere, contains_text, like_match};
use vstd::prelude::*;

verus! {

/// A user's preference for a podcast.
pub struct Favorite {
    pub username: String,
    pub podcast_id: i32,
    pub favored: bool,
}

impl Favorite {
    /// A copy of the row.
    pub fn copy(&self) -> (r: Favorite)
        ensures
            r == *self,
    {
        Favorite { username: self.username.clone(), podcast_id: self.podcast_id, favored: self.favored }
    }
}

/// Whether a row belongs to the given user and podcast.
pub open spec fn has_key(f: Favorite, username: Seq<char>, podcast_id: i32) -> bool {
    f.podcast_id == podcast_id && f.username@ == username
}

/// Whether some row of the table belongs to the given user and podcast.
pub open spec fn key_present(rows: Seq<Favorite>, username: Seq<char>, podcast_id: i32) -> bool {
    exists|i: int| 0 <= i < rows.len() && has_key(#[trigger] rows[i], username, podcast_id)
}

/// The table holds at most one row for each (username, podcast id).
pub open spec fn keys_unique(rows: Seq<Favorite>) -> bool {
    forall|i: int, j: int|
        0 <= i < rows.len() && 0 <= j < rows.len() && #[trigger] rows[i].podcast_id
            == #[trigger] rows[j].podcast_id && rows[i].username@ == rows[j].username@ ==> i == j
}

/// A row with its flag set.
pub open spec fn with_favored(f: Favorite, favor: bool) -> Favorite {
    Favorite { username: f.username, podcast_id: f.podcast_id, favored: favor }
}

/// Whether a row does not belong to the given user and podcast.
pub open spec fn other_key(f: Favorite, username: Seq<char>, podcast_id: i32) -> bool {
    !has_key(f, username, podcast_id)
}

/// The index of the first row of the key, where there is one.
pub open spec fn first_key_index(rows: Seq<Favorite>, username: Seq<char>, podcast_id: i32) -> int {
    choose|k: int|
        0 <= k < rows.len() && has_key(#[trigger] rows[k], username, podcast_id) && forall|j: int|
            0 <= j < k ==> !has_key(rows[j], username, podcast_id)
}

/// The table after an upsert. Where the key has rows, the first of them gets
/// the flag and any later ones, which a keyed table cannot hold, are dropped;
/// else a new row is appended.
pub open spec fn upserted(rows: Seq<Favorite>, username: String, podcast_id: i32, favor: bool) -> Seq<
    Favorite,
> {
    if key_present(rows, username@, podcast_id) {
        let k = first_key_index(rows, username@, podcast_id);
        rows.subrange(0, k).push(with_favored(rows[k], favor)) + rows.subrange(k + 1, rows.len() as int).filter(
            |f: Favorite| other_key(f, username@, podcast_id),
        )
    } else {
        rows.push(Favorite { username, podcast_id, favored: favor })
    }
}

/// Exactly one row of the table belongs to the given user and podcast, and it
/// holds the given flag.
pub open spec fn single_row_with(rows: Seq<Favorite>, username: Seq<char>, podcast_id: i32, favor: bool) -> bool {
    exists|i: int|
        0 <= i < rows.len() && has_key(#[trigger] rows[i], username, podcast_id) && rows[i].favored == favor
            && forall|j: int| 0 <= j < rows.len() && has_key(#[trigger] rows[j], username, podcast_id) ==> j == i
}

/// After an upsert the table holds exactly one row of its key, with the new flag.
pub proof fn lemma_upsert_single_row(rows: Seq<Favorite>, username: String, podcast_id: i32, favor: bool)
    ensures
        single_row_with(upserted(rows, username, podcast_id, favor), username@, podcast_id, favor),
{
    let after = upserted(rows, username, podcast_id, favor);
    if key_present(rows, username@, podcast_id) {
        let i0 = choose|i: int| 0 <= i < rows.len() && has_key(#[trigger] rows[i], username@, podcast_id);
        lemma_first_key_exists(rows, username@, podcast_id, i0);
        let k = first_key_index(rows, username@, podcast_id);
        let pred = |f: Favorite| other_key(f, username@, podcast_id);
        let rest = rows.subrange(k + 1, rows.len() as int).filter(pred);
        assert(after[k] == with_favored(rows[k], favor));
        assert forall|j: int| 0 <= j < after.len() && has_key(#[trigger] after[j], username@, podcast_id) implies j == k by {
            if j < k {
                assert(after[j] == rows[j]);
            } else if j > k {
                assert(after[j] == rest[j - k - 1]);
                rows.subrange(k + 1, rows.len() as int).lemma_filter_pred(pred, j - k - 1);
            }
        }
    } else {
        let n = rows.len() as int;
        assert(has_key(after[n], username@, podcast_id));
        assert forall|j: int| 0 <= j < after.len() && has_key(#[trigger] after[j], username@, podcast_id) implies j == n by {
            if j < n {
                assert(has_key(rows[j], username@, podcast_id));
            }
        }
    }
}

/// Where a row of the key exists, the first one exists.
proof fn lemma_first_key_exists(rows: Seq<Favorite>, username: Seq<char>, podcast_id: i32, i: int)
    requires
        0 <= i < rows.len(),
        has_key(rows[i], username, podcast_id),
    ensures
        exists|k: int|
            0 <= k < rows.len() && has_key(#[trigger] rows[k], username, podcast_id) && forall|j: int|
                0 <= j < k ==> !has_key(rows[j], username, podcast_id),
    decreases i,
{
    if exists|j: int| 0 <= j < i && has_key(#[trigger] rows[j], username, podcast_id) {
        let j = choose|j: int| 0 <= j < i && has_key(#[trigger] rows[j], username, podcast_id);
        lemma_first_key_exists(rows, username, podcast_id, j);
    } else {
        assert(forall|j: int| 0 <= j < i ==> !has_key(#[trigger] rows[j], username, podcast_id));
    }
}

/// Setting a user's flag for a podcast twice leaves exactly one row for that
/// pair, and it holds the flag of the second call.
pub proof fn lemma_update_podcast_favor_twice(
    rows: Seq<Favorite>,
    username: String,
    podcast_id: i32,
    first: bool,
    second: bool,
)
    ensures
        single_row_with(
            upserted(upserted(rows, username, podcast_id, first), username, podcast_id, second),
            username@,
            podcast_id,
            second,
        ),
{
    lemma_upsert_single_row(upserted(rows, username, podcast_id, first), username, podcast_id, second);
}

/// The rows of the join whose podcast has not come before, as (podcast, favorite) pairs.
pub open spec fn first_of_each_podcast<E, F>(rows: Seq<(Podcast, E, F)>) -> Seq<(Podcast, F)>
    decreases rows.len(),
{
    if rows.len() == 0 {
        Seq::empty()
    } else {
        let init = rows.drop_last();
        let last = rows.last();
        if exists|j: int| 0 <= j < init.len() && (#[trigger] init[j]).0.id == last.0.id {
            first_of_each_podcast(init)
        } else {
            first_of_each_podcast(init).push((last.0, last.2))
        }
    }
}

/// Sort direction of a search.
#[derive(PartialEq, Eq, Structural, Clone, Copy)]
pub enum OrderCriteria {
    Asc,
    Desc,
}

/// Sort column of a search: the podcast's name or the episode's recording date.
#[derive(PartialEq, Eq, Structural, Clone, Copy)]
pub enum OrderOption {
    Title,
    PublishedDate,
}

/// The text column of an order option.
pub open spec fn column_of(o: OrderOption) -> SortColumn {
    match o {
        OrderOption::Title => SortColumn::Name,
        OrderOption::PublishedDate => SortColumn::Date,
    }
}

impl<F> SortKey for (Podcast, PodcastEpisode, F) {
    open spec fn key(&self, column: SortColumn) -> Seq<char> {
        match column {
            SortColumn::Name => self.0.name@,
            SortColumn::Date => self.1.date_of_recording@,
        }
    }

    fn key_text(&self, column: SortColumn) -> (r: &str) {
        match column {
            SortColumn::Name => self.0.name.as_str(),
            SortColumn::Date => self.1.date_of_recording.as_str(),
        }
    }
}

/// Whether a joined row's podcast name matches the pattern `%title%`, where a
/// title is given.
pub open spec fn title_matches<F>(row: (Podcast, PodcastEpisode, F), title: Option<String>) -> bool {
    match title {
        Some(t) => like_match(row.0.name@, anywhere(t@)),
        None => true,
    }
}

/// Whether rows are in the order a search asks for.
pub open spec fn in_search_order<F>(s: Seq<(Podcast, PodcastEpisode, F)>, order: OrderCriteria, by: OrderOption) -> bool {
    match order {
        OrderCriteria::Desc => sorted_desc(s, column_of(by)),
        OrderCriteria::Asc => sorted_asc(s, column_of(by)),
    }
}

/// `r` is a search result over the joined rows: the rows whose podcast name
/// matches the title, put in the asked order, each podcast once at its first
/// row.
pub open spec fn is_search_result<F>(
    r: Seq<(Podcast, F)>,
    rows: Seq<(Podcast, PodcastEpisode, F)>,
    order: OrderCriteria,
    title: Option<String>,
    by: OrderOption,
) -> bool {
    exists|s: Seq<(Podcast, PodcastEpisode, F)>|
        in_search_order(s, order, by) && s.to_multiset() == rows.filter(
            |row: (Podcast, PodcastEpisode, F)| title_matches(row, title),
        ).to_multiset() && r == #[trigger] first_of_each_podcast(s)
}

/// The joined rows that the user favors.
pub open spec fn favored_by(rows: Seq<(Podcast, Favorite)>, username: Seq<char>) -> Seq<(Podcast, Favorite)> {
    rows.filter(|pf: (Podcast, Favorite)| pf.1.favored && pf.1.username@ == username)
}

/// Whether `id` is in `ids`.
fn contains_id(ids: &Vec<i32>, id: i32) -> (r: bool)
    ensures
        r == ids@.contains(id),
{
    let mut i: usize = 0;
    while i < ids.len()
        invariant
            0 <= i <= ids.len(),
            forall|j: int| 0 <= j < i ==> ids@[j] != id,
        decreases ids.len() - i,
    {
        if ids[i] == id {
            return true;
        }
        i = i + 1;
    }
    false
}

/// A row part that can be copied.
pub trait RowCopy: Sized {
    fn copy_row(&self) -> (r: Self)
        ensures
            r == *self,
    ;
}

impl RowCopy for Favorite {
    fn copy_row(&self) -> (r: Favorite) {
        self.copy()
    }
}

impl RowCopy for Option<Favorite> {
    fn copy_row(&self) -> (r: Option<Favorite>) {
        match self {
            Some(f) => Some(f.copy()),
            None => None,
        }
    }
}

/// Each podcast of the joined rows once, at its first row.
fn distinct_by_podcast<E, F: RowCopy>(rows: &Vec<(Podcast, E, F)>) -> (r: Vec<(Podcast, F)>)
    ensures
        r@ == first_of_each_podcast(rows@),
{
    let mut seen: Vec<i32> = Vec::new();
    let mut out: Vec<(Podcast, F)> = Vec::new();
    let mut i: usize = 0;
    while i < rows.len()
        invariant
            0 <= i <= rows.len(),
            out@ == first_of_each_podcast(rows@.subrange(0, i as int)),
            forall|id: i32| seen@.contains(id) <==> exists|j: int| 0 <= j < i && (#[trigger] rows@[j]).0.id == id,
        decreases rows.len() - i,
    {
        let ghost pre = rows@.subrange(0, i as int);
        proof {
            assert(rows@.subrange(0, i + 1).drop_last() =~= pre);
        }
        let row = &rows[i];
        let id = row.0.id;
        if !contains_id(&seen, id) {
            out.push((row.0.copy(), row.2.copy_row()));
            let ghost seen_before = seen@;
            seen.push(id);
            proof {
                assert forall|x: i32| seen@.contains(x) <==> exists|j: int| 0 <= j < i + 1 && (#[trigger] rows@[j]).0.id == x by {
                    if x == id {
                        assert(seen@[seen@.len() - 1] == x);
                        assert(rows@[i as int].0.id == x);
                    } else {
                        if seen@.contains(x) {
                            let k = choose|k: int| 0 <= k < seen@.len() && seen@[k] == x;
                            assert(k < seen@.len() - 1);
                            assert(seen_before[k] == x);
                            assert(seen_before.contains(x));
                        }
                        if exists|j: int| 0 <= j < i + 1 && (#[trigger] rows@[j]).0.id == x {
                            let j = choose|j: int| 0 <= j < i + 1 && (#[trigger] rows@[j]).0.id == x;
                            assert(j < i);
                            assert(seen_before.contains(x));
                            let k = choose|k: int| 0 <= k < seen_before.len() && seen_before[k] == x;
                            assert(seen@[k] == x);
                        }
                    }
                }
            }
        } else {
            proof {
                let j = choose|j: int| 0 <= j < i && (#[trigger] rows@[j]).0.id == id;
                assert(pre[j].0.id == id);
            }
        }
        i = i + 1;
    }
    proof {
        assert(rows@.subrange(0, rows@.len() as int) =~= rows@);
    }
    out
}

/// The search over the joined rows: filter by title, order, then each podcast
/// once.
fn search_rows<F: RowCopy>(
    rows: &Vec<(Podcast, PodcastEpisode, F)>,
    order: OrderCriteria,
    title: &Option<String>,
    latest_pub: OrderOption,
) -> (r: Vec<(Podcast, F)>)
    ensures
        is_search_result(r@, rows@, order, *title, latest_pub),
{
    let mut selected: Vec<(Podcast, PodcastEpisode, F)> = Vec::new();
    let mut i: usize = 0;
    while i < rows.len()
        invariant
            0 <= i <= rows@.len(),
            selected@ == rows@.subrange(0, i as int).filter(
                |row: (Podcast, PodcastEpisode, F)| title_matches(row, *title),
            ),
        decreases rows@.len() - i,
    {
        proof {
            lemma_filter_step(rows@, i as int, |row: (Podcast, PodcastEpisode, F)| title_matches(row, *title));
        }
        let row = &rows[i];
        let keep = match title {
            Some(t) => contains_text(row.0.name.as_str(), t.as_str()),
            None => true,
        };
        if keep {
            selected.push((row.0.copy(), row.1.copy(), row.2.copy_row()));
        }
        i = i + 1;
    }
    proof {
        assert(rows@.subrange(0, rows@.len() as int) =~= rows@);
    }
    let column = match latest_pub {
        OrderOption::Title => SortColumn::Name,
        OrderOption::PublishedDate => SortColumn::Date,
    };
    let sorted = sort_desc(selected, column);
    let ordered = match order {
        OrderCriteria::Desc => sorted,
        OrderCriteria::Asc => reverse_rows(sorted, column),
    };
    let r = distinct_by_podcast(&ordered);
    proof {
        assert(in_search_order(ordered@, order, latest_pub));
    }
    r
}

impl Favorite {
    /// Removes every row of the user.
    pub fn delete_by_username(username1: &String, favorites: &mut Vec<Favorite>) -> (r: Result<(), String>)
        ensures
            r is Ok,
            final(favorites)@ == old(favorites)@.filter(|f: Favorite| f.username@ != username1@),
            keys_unique(old(favorites)@) ==> keys_unique(final(favorites)@),
    {
        let ghost rows = favorites@;
        let mut kept: Vec<Favorite> = Vec::new();
        let mut i: usize = 0;
        while i < favorites.len()
            invariant
                favorites@ == rows,
                0 <= i <= rows.len(),
                kept@ == rows.subrange(0, i as int).filter(|f: Favorite| f.username@ != username1@),
                keys_unique(rows) ==> keys_unique(kept@),
            decreases rows.len() - i,
        {
            proof {
                lemma_filter_step(rows, i as int, |f: Favorite| f.username@ != username1@);
            }
            if favorites[i].username != *username1 {
                let ghost before = kept@;
                kept.push(favorites[i].copy());
                proof {
                    if keys_unique(rows) {
                        let pre = rows.subrange(0, i as int);
                        let keep = |f: Favorite| f.username@ != username1@;
                        assert forall|a: int, b: int|
                            0 <= a < kept@.len() && 0 <= b < kept@.len() && #[trigger] kept@[a].podcast_id
                                == #[trigger] kept@[b].podcast_id && kept@[a].username@ == kept@[b].username@ implies a == b by {
                            let n = before.len() as int;
                            if a < n && b == n {
                                lemma_filter_member(pre, keep, a);
                                let j = choose|j: int| 0 <= j < pre.len() && pre[j] == pre.filter(keep)[a];
                                assert(rows[j] == kept@[a]);
                                assert(rows[i as int] == kept@[b]);
                            } else if b < n && a == n {
                                lemma_filter_member(pre, keep, b);
                                let j = choose|j: int| 0 <= j < pre.len() && pre[j] == pre.filter(keep)[b];
                                assert(rows[j] == kept@[b]);
                                assert(rows[i as int] == kept@[a]);
                            } else if a < n && b < n {
                                assert(before[a] == kept@[a] && before[b] == kept@[b]);
                            }
                        }
                    }
                }
            }
            i = i + 1;
        }
        proof {
            assert(rows.subrange(0, rows.len() as int) =~= rows);
        }
        *favorites = kept;
        Ok(())
    }

    /// Sets the user's flag for the podcast: updates the row of the pair, or
    /// inserts one where there is none. Afterwards the table holds exactly one
    /// row for the pair.
    pub fn update_podcast_favor(
        podcast_id_1: &i32,
        favor: bool,
        favorites: &mut Vec<Favorite>,
        username_1: String,
    ) -> (r: Result<(), String>)
        ensures
            r is Ok,
            final(favorites)@ == upserted(old(favorites)@, username_1, *podcast_id_1, favor),
            single_row_with(final(favorites)@, username_1@, *podcast_id_1, favor),
    {
        proof {
            lemma_upsert_single_row(favorites@, username_1, *podcast_id_1, favor);
        }
        let ghost rows = favorites@;
        let ghost pred = |f: Favorite| other_key(f, username_1@, *podcast_id_1);
        let ghost mut k: int = 0;
        let mut found = false;
        let mut updated: Vec<Favorite> = Vec::new();
        let mut i: usize = 0;
        while i < favorites.len()
            invariant
                favorites@ == rows,
                pred == (|f: Favorite| other_key(f, username_1@, *podcast_id_1)),
                0 <= i <= rows.len(),
                !found ==> forall|j: int| 0 <= j < i ==> !has_key(#[trigger] rows[j], username_1@, *podcast_id_1),
                !found ==> updated@ == rows.subrange(0, i as int),
                found ==> 0 <= k < i && has_key(rows[k], username_1@, *podcast_id_1),
                found ==> forall|j: int| 0 <= j < k ==> !has_key(#[trigger] rows[j], username_1@, *podcast_id_1),
                found ==> updated@ == rows.subrange(0, k).push(with_favored(rows[k], favor)) + rows.subrange(
                    k + 1,
                    i as int,
                ).filter(pred),
            decreases rows.len() - i,
        {
            let row = &favorites[i];
            let is_key = row.podcast_id == *podcast_id_1 && row.username == username_1;
            if found {
                proof {
                    let s = rows.subrange(k + 1, rows.len() as int);
                    lemma_filter_step(s, i - k - 1, pred);
                    assert(s.subrange(0, i - k - 1) =~= rows.subrange(k + 1, i as int));
                    assert(s.subrange(0, i - k) =~= rows.subrange(k + 1, i + 1));
                }
                if !is_key {
                    updated.push(row.copy());
                }
            } else if is_key {
                proof {
                    k = i as int;
                    assert(rows.subrange(k + 1, i + 1) =~= Seq::<Favorite>::empty());
                }
                updated.push(Favorite { username: row.username.clone(), podcast_id: row.podcast_id, favored: favor });
                found = true;
                proof {
                    assert(updated@ =~= rows.subrange(0, k).push(with_favored(rows[k], favor)) + rows.subrange(
                        k + 1,
                        i + 1,
                    ).filter(pred));
                }
            } else {
                updated.push(row.copy());
                proof {
                    assert(updated@ =~= rows.subrange(0, i + 1));
                }
            }
            i = i + 1;
        }
        if found {
            proof {
                let k0 = first_key_index(rows, username_1@, *podcast_id_1);
                if k0 < k {
                    assert(!has_key(rows[k0], username_1@, *podcast_id_1));
                }
                if k < k0 {
                    assert(!has_key(rows[k], username_1@, *podcast_id_1));
                }
                assert(key_present(rows, username_1@, *podcast_id_1));
                assert(updated@ =~= upserted(rows, username_1, *podcast_id_1, favor));
            }
            *favorites = updated;
        } else {
            proof {
                assert(rows.subrange(0, i as int) =~= rows);
            }
            favorites.push(Favorite { username: username_1, podcast_id: *podcast_id_1, favored: favor });
        }
        Ok(())
    }

    /// Searches the rows of the podcasts joined with their episodes and the
    /// user's favorite rows: podcasts whose name matches `%title%` where a
    /// title is given, in the asked order, each podcast once.
    pub fn search_podcasts(
        rows: &Vec<(Podcast, PodcastEpisode, Option<Favorite>)>,
        order: OrderCriteria,
        title: Option<String>,
        latest_pub: OrderOption,
    ) -> (r: Vec<(Podcast, Option<Favorite>)>)
        ensures
            is_search_result(r@, rows@, order, title, latest_pub),
    {
        search_rows(rows, order, &title, latest_pub)
    }

    /// The same search over the rows joined with the user's favorite rows only.
    pub fn search_podcasts_favored(
        rows: &Vec<(Podcast, PodcastEpisode, Favorite)>,
        order: OrderCriteria,
        title: Option<String>,
        latest_pub: OrderOption,
    ) -> (r: Vec<(Podcast, Favorite)>)
        ensures
            is_search_result(r@, rows@, order, title, latest_pub),
    {
        search_rows(rows, order, &title, latest_pub)
    }

    /// The podcasts that the user favors, in API form, from the rows of the
    /// podcasts joined with their favorite rows.
    pub fn get_favored_podcasts(
        found_username: &String,
        rows: &Vec<(Podcast, Favorite)>,
        mapping_service: &MappingService,
    ) -> (r: Result<Vec<PodcastDto>, String>)
        ensures
            r is Ok,
            r->Ok_0@.len() == favored_by(rows@, found_username@).len(),
            forall|k: int|
                0 <= k < r->Ok_0@.len() ==> is_dto_of(
                    #[trigger] r->Ok_0@[k],
                    favored_by(rows@, found_username@)[k].0,
                    mapping_service.server_url@,
                    true,
                ),
    {
        let mut out: Vec<PodcastDto> = Vec::new();
        let mut i: usize = 0;
        while i < rows.len()
            invariant
                0 <= i <= rows@.len(),
                out@.len() == favored_by(rows@.subrange(0, i as int), found_username@).len(),
                forall|k: int|
                    0 <= k < out@.len() ==> is_dto_of(
                        #[trigger] out@[k],
                        favored_by(rows@.subrange(0, i as int), found_username@)[k].0,
                        mapping_service.server_url@,
                        true,
                    ),
            decreases rows@.len() - i,
        {
            proof {
                lemma_filter_step(rows@, i as int, |pf: (Podcast, Favorite)| pf.1.favored && pf.1.username@ == found_username@);
            }
            let row = &rows[i];
            if row.1.favored && row.1.username == *found_username {
                let dto = mapping_service.map_podcast_to_podcast_dto_with_favorites_option(row);
                out.push(dto);
            }
            i = i + 1;
        }
        proof {
            assert(rows@.subrange(0, rows@.len() as int) =~= rows@);
        }
        Ok(out)
    }

}

} // verus!
