//! Podcasts and their episodes as stored.

use crate::ordering::{sort_desc, sorted_desc, text_less, text_lt, SortColumn, SortKey};
use crate::seqs::lemma_filter_step;
use crate::text::{anywhere, contains_text, i32_string, like_match, signed_decimal};
use vstd::prelude::*;

verus! {

/// A subscribed podcast.
pub struct Podcast {
    pub id: i32,
    pub name: String,
    pub directory: String,
    pub rssfeed: String,
    pub image_url: String,
    pub favored: i32,
    pub summary: Option<String>,
    pub language: Option<String>,
    pub explicit: Option<String>,
    pub keywords: Option<String>,
    pub last_build_date: Option<String>,
    pub author: Option<String>,
    pub active: bool,
    pub original_image_url: String,
}

/// An episode of a podcast. `download_time` is in nanoseconds since the Unix epoch, UTC.
pub struct PodcastEpisode {
    pub id: i32,
    pub podcast_id: i32,
    pub episode_id: String,
    pub name: String,
    pub url: String,
    pub date_of_recording: String,
    pub image_url: String,
    pub total_time: i32,
    pub local_url: String,
    pub local_image_url: String,
    pub description: String,
    pub status: String,
    pub download_time: Option<i64>,
    pub guid: String,
}

/// A copy of an optional string.
pub fn copy_opt(s: &Option<String>) -> (r: Option<String>)
    ensures
        r == *s,
{
    match s {
        Some(v) => Some(v.clone()),
        None => None,
    }
}

impl Podcast {
    /// A copy of the row.
    pub fn copy(&self) -> (r: Podcast)
        ensures
            r == *self,
    {
        Podcast {
            id: self.id,
            name: self.name.clone(),
            directory: self.directory.clone(),
            rssfeed: self.rssfeed.clone(),
            image_url: self.image_url.clone(),
            favored: self.favored,
            summary: copy_opt(&self.summary),
            language: copy_opt(&self.language),
            explicit: copy_opt(&self.explicit),
            keywords: copy_opt(&self.keywords),
            last_build_date: copy_opt(&self.last_build_date),
            author: copy_opt(&self.author),
            active: self.active,
            original_image_url: self.original_image_url.clone(),
        }
    }
}

impl PodcastEpisode {
    /// A copy of the row.
    pub fn copy(&self) -> (r: PodcastEpisode)
        ensures
            r == *self,
    {
        PodcastEpisode {
            id: self.id,
            podcast_id: self.podcast_id,
            episode_id: self.episode_id.clone(),
            name: self.name.clone(),
            url: self.url.clone(),
            date_of_recording: self.date_of_recording.clone(),
            image_url: self.image_url.clone(),
            total_time: self.total_time,
            local_url: self.local_url.clone(),
            local_image_url: self.local_image_url.clone(),
            description: self.description.clone(),
            status: self.status.clone(),
            download_time: self.download_time,
            guid: self.guid.clone(),
        }
    }
}

/// Nanoseconds in a day.
pub const NANOS_PER_DAY: i64 = 86400000000000;

/// Whether an episode's status says it is downloaded.
pub open spec fn is_downloaded(e: PodcastEpisode) -> bool {
    e.status@ == "D"@
}

/// Whether an episode was downloaded before the given number of days ago.
pub open spec fn downloaded_before(e: PodcastEpisode, now: i64, days: i32) -> bool {
    match e.download_time {
        Some(t) => (t as int) < (now as int) - (days as int) * (NANOS_PER_DAY as int),
        None => false,
    }
}

/// The first row with the given id, if any.
pub open spec fn first_with_id(rows: Seq<Podcast>, id: i32) -> Option<Podcast> {
    if exists|i: int| 0 <= i < rows.len() && (#[trigger] rows[i]).id == id {
        let i = choose|i: int|
            0 <= i < rows.len() && (#[trigger] rows[i]).id == id && forall|j: int| 0 <= j < i ==> rows[j].id != id;
        Some(rows[i])
    } else {
        None
    }
}

/// The largest podcast id, or 0 for an empty table.
pub open spec fn max_podcast_id(rows: Seq<Podcast>) -> int
    decreases rows.len(),
{
    if rows.len() == 0 {
        0
    } else {
        let m = max_podcast_id(rows.drop_last());
        if rows.last().id > m {
            rows.last().id as int
        } else {
            m
        }
    }
}

impl PodcastEpisode {
    /// The downloaded episodes.
    pub fn get_downloaded_episodes(episodes: &Vec<PodcastEpisode>) -> (r: Vec<PodcastEpisode>)
        ensures
            r@ == episodes@.filter(|e: PodcastEpisode| is_downloaded(e)),
    {
        let downloaded = String::from_str("D");
        let mut out: Vec<PodcastEpisode> = Vec::new();
        let mut i: usize = 0;
        while i < episodes.len()
            invariant
                0 <= i <= episodes@.len(),
                downloaded@ == "D"@,
                out@ == episodes@.subrange(0, i as int).filter(|e: PodcastEpisode| is_downloaded(e)),
            decreases episodes@.len() - i,
        {
            proof {
                lemma_filter_step(episodes@, i as int, |e: PodcastEpisode| is_downloaded(e));
            }
            if episodes[i].status == downloaded {
                out.push(episodes[i].copy());
            }
            i = i + 1;
        }
        proof {
            assert(episodes@.subrange(0, episodes@.len() as int) =~= episodes@);
        }
        out
    }

    /// The episodes downloaded more than `days` days before `now` (nanoseconds
    /// since the Unix epoch, UTC).
    pub fn get_podcast_episodes_older_than_days(episodes: &Vec<PodcastEpisode>, now: i64, days: i32) -> (r: Vec<PodcastEpisode>)
        ensures
            r@ == episodes@.filter(|e: PodcastEpisode| downloaded_before(e, now, days)),
    {
        let cutoff: i128 = (now as i128) - (days as i128) * (NANOS_PER_DAY as i128);
        let mut out: Vec<PodcastEpisode> = Vec::new();
        let mut i: usize = 0;
        while i < episodes.len()
            invariant
                0 <= i <= episodes@.len(),
                cutoff == (now as int) - (days as int) * (NANOS_PER_DAY as int),
                out@ == episodes@.subrange(0, i as int).filter(|e: PodcastEpisode| downloaded_before(e, now, days)),
            decreases episodes@.len() - i,
        {
            proof {
                lemma_filter_step(episodes@, i as int, |e: PodcastEpisode| downloaded_before(e, now, days));
            }
            let old_enough = match episodes[i].download_time {
                Some(t) => (t as i128) < cutoff,
                None => false,
            };
            if old_enough {
                out.push(episodes[i].copy());
            }
            i = i + 1;
        }
        proof {
            assert(episodes@.subrange(0, episodes@.len() as int) =~= episodes@);
        }
        out
    }

    /// Whether the first episode with the given download URL is downloaded;
    /// `None` where no episode has that URL.
    pub fn check_if_downloaded(episodes: &Vec<PodcastEpisode>, download_url_of_episode: &String) -> (r: Option<bool>)
        ensures
            r is None <==> forall|i: int| 0 <= i < episodes@.len() ==> (#[trigger] episodes@[i]).url@ != download_url_of_episode@,
            r is Some ==> exists|i: int|
                0 <= i < episodes@.len() && (#[trigger] episodes@[i]).url@ == download_url_of_episode@
                    && (forall|j: int| 0 <= j < i ==> episodes@[j].url@ != download_url_of_episode@)
                    && r->Some_0 == is_downloaded(episodes@[i]),
    {
        let downloaded = String::from_str("D");
        let mut i: usize = 0;
        while i < episodes.len()
            invariant
                0 <= i <= episodes@.len(),
                downloaded@ == "D"@,
                forall|j: int| 0 <= j < i ==> (#[trigger] episodes@[j]).url@ != download_url_of_episode@,
            decreases episodes@.len() - i,
        {
            if episodes[i].url == *download_url_of_episode {
                return Some(episodes[i].status == downloaded);
            }
            i = i + 1;
        }
        None
    }
}

impl Podcast {
    /// All podcasts.
    pub fn get_podcasts(podcasts: &Vec<Podcast>) -> (r: Result<Vec<Podcast>, String>)
        ensures
            r is Ok,
            r->Ok_0@ == podcasts@,
    {
        let mut out: Vec<Podcast> = Vec::new();
        let mut i: usize = 0;
        while i < podcasts.len()
            invariant
                0 <= i <= podcasts@.len(),
                out@ == podcasts@.subrange(0, i as int),
            decreases podcasts@.len() - i,
        {
            out.push(podcasts[i].copy());
            proof {
                assert(out@ =~= podcasts@.subrange(0, i + 1));
            }
            i = i + 1;
        }
        proof {
            assert(out@ =~= podcasts@);
        }
        Ok(out)
    }

    /// The podcast with the given id.
    pub fn find_podcast(podcasts: &Vec<Podcast>, podcast_id_to_be_found: i32) -> (r: Option<Podcast>)
        ensures
            r == first_with_id(podcasts@, podcast_id_to_be_found),
    {
        let mut i: usize = 0;
        while i < podcasts.len()
            invariant
                0 <= i <= podcasts@.len(),
                forall|j: int| 0 <= j < i ==> (#[trigger] podcasts@[j]).id != podcast_id_to_be_found,
            decreases podcasts@.len() - i,
        {
            if podcasts[i].id == podcast_id_to_be_found {
                let ghost k = choose|k: int|
                    0 <= k < podcasts@.len() && (#[trigger] podcasts@[k]).id == podcast_id_to_be_found && forall|j: int|
                        0 <= j < k ==> podcasts@[j].id != podcast_id_to_be_found;
                proof {
                    assert(podcasts@[i as int].id == podcast_id_to_be_found);
                    if k < i {
                        assert(podcasts@[k].id != podcast_id_to_be_found);
                    }
                    if k > i {
                        assert(podcasts@[i as int].id != podcast_id_to_be_found);
                    }
                }
                return Some(podcasts[i].copy());
            }
            i = i + 1;
        }
        None
    }

    /// The first podcast whose directory entry is the given directory id.
    pub fn find_podcast_by_trackid(podcasts: &Vec<Podcast>, podcast_id: i32) -> (r: Option<Podcast>)
        ensures
            r is None <==> forall|i: int| 0 <= i < podcasts@.len() ==> (#[trigger] podcasts@[i]).directory@ != signed_decimal(podcast_id as int),
            r is Some ==> exists|i: int|
                0 <= i < podcasts@.len() && r->Some_0 == #[trigger] podcasts@[i]
                    && podcasts@[i].directory@ == signed_decimal(podcast_id as int)
                    && forall|j: int| 0 <= j < i ==> podcasts@[j].directory@ != signed_decimal(podcast_id as int),
    {
        let directory = i32_string(podcast_id);
        let mut i: usize = 0;
        while i < podcasts.len()
            invariant
                0 <= i <= podcasts@.len(),
                directory@ == signed_decimal(podcast_id as int),
                forall|j: int| 0 <= j < i ==> (#[trigger] podcasts@[j]).directory@ != signed_decimal(podcast_id as int),
            decreases podcasts@.len() - i,
        {
            if podcasts[i].directory == directory {
                return Some(podcasts[i].copy());
            }
            i = i + 1;
        }
        None
    }

    /// Adds a podcast under the next id, with its image as both the cached and
    /// the original image, active and not favored. Fails where the ids are
    /// exhausted.
    pub fn add_podcast_to_database(
        collection_name: String,
        collection_id: String,
        feed_url: String,
        image_url_1: String,
        podcasts: &mut Vec<Podcast>,
    ) -> (r: Result<Podcast, String>)
        ensures
            r is Ok <==> max_podcast_id(old(podcasts)@) < i32::MAX,
            r is Err ==> final(podcasts)@ == old(podcasts)@,
            r is Ok ==> final(podcasts)@ == old(podcasts)@.push(r->Ok_0) && ({
                let p = r->Ok_0;
                &&& p.id == max_podcast_id(old(podcasts)@) + 1
                &&& p.name == collection_name
                &&& p.directory == collection_id
                &&& p.rssfeed == feed_url
                &&& p.image_url == image_url_1
                &&& p.original_image_url == image_url_1
                &&& p.favored == 0
                &&& p.summary is None && p.language is None && p.explicit is None
                &&& p.keywords is None && p.last_build_date is None && p.author is None
                &&& p.active
            }),
    {
        let ghost rows = podcasts@;
        let mut m: i32 = 0;
        let mut i: usize = 0;
        while i < podcasts.len()
            invariant
                podcasts@ == rows,
                0 <= i <= rows.len(),
                m as int == max_podcast_id(rows.subrange(0, i as int)),
            decreases rows.len() - i,
        {
            proof {
                assert(rows.subrange(0, i + 1).drop_last() =~= rows.subrange(0, i as int));
            }
            if podcasts[i].id > m {
                m = podcasts[i].id;
            }
            i = i + 1;
        }
        proof {
            assert(rows.subrange(0, rows.len() as int) =~= rows);
        }
        if m == i32::MAX {
            return Err(String::from_str("no podcast id is left"));
        }
        let p = Podcast {
            id: m + 1,
            name: collection_name,
            directory: collection_id,
            rssfeed: feed_url,
            image_url: image_url_1.clone(),
            favored: 0,
            summary: None,
            language: None,
            explicit: None,
            keywords: None,
            last_build_date: None,
            author: None,
            active: true,
            original_image_url: image_url_1,
        };
        podcasts.push(p.copy());
        Ok(p)
    }
}

/// Episodes in one page of a podcast's episode list.
pub const EPISODE_PAGE_SIZE: usize = 75;

/// Episodes in the list of a podcast's latest episodes.
pub const LATEST_EPISODE_COUNT: usize = 5;

/// Episodes are ordered by recording date, whichever column is asked for.
impl SortKey for PodcastEpisode {
    open spec fn key(&self, column: SortColumn) -> Seq<char> {
        self.date_of_recording@
    }

    fn key_text(&self, column: SortColumn) -> (r: &str) {
        self.date_of_recording.as_str()
    }
}

/// Whether an episode belongs to the podcast and, where a bound is given,
/// was recorded before it.
pub open spec fn in_page(e: PodcastEpisode, podcast_id: i32, recorded_before: Option<String>) -> bool {
    e.podcast_id == podcast_id && match recorded_before {
        Some(l) => text_lt(e.date_of_recording@, l@),
        None => true,
    }
}

/// The first `n` elements, or all where there are fewer.
pub open spec fn first_n<T>(s: Seq<T>, n: int) -> Seq<T> {
    if s.len() <= n {
        s
    } else {
        s.subrange(0, n)
    }
}

/// `r` is the first `n` of `rows` put in order, latest recording first.
pub open spec fn latest_first(r: Seq<PodcastEpisode>, rows: Seq<PodcastEpisode>, n: int) -> bool {
    exists|s: Seq<PodcastEpisode>| sorted_desc(s, SortColumn::Date) && s.to_multiset() == rows.to_multiset() && r == first_n(s, n)
}

/// The podcast's episodes recorded before the bound, if one is given, latest
/// first, at most `limit` of them.
fn latest_episodes(episodes: &Vec<PodcastEpisode>, podcast_id: i32, recorded_before: &Option<String>, limit: usize) -> (r: Vec<PodcastEpisode>)
    ensures
        latest_first(
            r@,
            episodes@.filter(|e: PodcastEpisode| in_page(e, podcast_id, *recorded_before)),
            limit as int,
        ),
{
    let mut selected: Vec<PodcastEpisode> = Vec::new();
    let mut i: usize = 0;
    while i < episodes.len()
        invariant
            0 <= i <= episodes@.len(),
            selected@ == episodes@.subrange(0, i as int).filter(|e: PodcastEpisode| in_page(e, podcast_id, *recorded_before)),
        decreases episodes@.len() - i,
    {
        proof {
            lemma_filter_step(episodes@, i as int, |e: PodcastEpisode| in_page(e, podcast_id, *recorded_before));
        }
        let e = &episodes[i];
        let keep = e.podcast_id == podcast_id && match recorded_before {
            Some(l) => text_less(e.date_of_recording.as_str(), l.as_str()),
            None => true,
        };
        if keep {
            selected.push(e.copy());
        }
        i = i + 1;
    }
    proof {
        assert(episodes@.subrange(0, episodes@.len() as int) =~= episodes@);
    }
    let mut sorted = sort_desc(selected, SortColumn::Date);
    let ghost full = sorted@;
    sorted.truncate(limit);
    proof {
        assert(sorted@ == first_n(full, limit as int));
    }
    sorted
}

/// Whether an episode's name or description matches the pattern `%query%`.
pub open spec fn matches_query(e: PodcastEpisode, query: Seq<char>) -> bool {
    like_match(e.name@, anywhere(query)) || like_match(e.description@, anywhere(query))
}

impl PodcastEpisode {
    /// The episodes whose name or description matches the LIKE pattern
    /// `%query%`: `%` and `_` in the query are wildcards, ASCII letters are
    /// compared without case.
    pub fn query_for_podcast_episodes(episodes: &Vec<PodcastEpisode>, query: &str) -> (r: Vec<PodcastEpisode>)
        ensures
            r@ == episodes@.filter(|e: PodcastEpisode| matches_query(e, query@)),
    {
        let mut out: Vec<PodcastEpisode> = Vec::new();
        let mut i: usize = 0;
        while i < episodes.len()
            invariant
                0 <= i <= episodes@.len(),
                out@ == episodes@.subrange(0, i as int).filter(|e: PodcastEpisode| matches_query(e, query@)),
            decreases episodes@.len() - i,
        {
            proof {
                lemma_filter_step(episodes@, i as int, |e: PodcastEpisode| matches_query(e, query@));
            }
            let e = &episodes[i];
            if contains_text(e.name.as_str(), query) || contains_text(e.description.as_str(), query) {
                out.push(e.copy());
            }
            i = i + 1;
        }
        proof {
            assert(episodes@.subrange(0, episodes@.len() as int) =~= episodes@);
        }
        out
    }

    /// One page of the podcast's episodes, latest recording first; with a
    /// bound, only episodes recorded before it.
    pub fn get_podcast_episodes_of_podcast(episodes: &Vec<PodcastEpisode>, podcast_id: i32, last_id: Option<String>) -> (r: Vec<PodcastEpisode>)
        ensures
            latest_first(
                r@,
                episodes@.filter(|e: PodcastEpisode| in_page(e, podcast_id, last_id)),
                EPISODE_PAGE_SIZE as int,
            ),
    {
        latest_episodes(episodes, podcast_id, &last_id, EPISODE_PAGE_SIZE)
    }

    /// The podcast's latest episodes.
    pub fn get_last_5_podcast_episodes_of_podcast(episodes: &Vec<PodcastEpisode>, podcast_id: i32) -> (r: Vec<PodcastEpisode>)
        ensures
            latest_first(
                r@,
                episodes@.filter(|e: PodcastEpisode| in_page(e, podcast_id, None)),
                LATEST_EPISODE_COUNT as int,
            ),
    {
        latest_episodes(episodes, podcast_id, &None, LATEST_EPISODE_COUNT)
    }
}

/// `a` is `b`, with the status and download time replaced where its download
/// URL is `url`.
pub open spec fn episode_status_set(a: PodcastEpisode, b: PodcastEpisode, url: Seq<char>, status: Seq<char>, now: i64) -> bool {
    if b.url@ == url {
        a == PodcastEpisode { status: a.status, download_time: Some(now), ..b } && a.status@ == status
    } else {
        a == b
    }
}

impl PodcastEpisode {
    /// Sets the status of the episodes with the given download URL, and their
    /// download time to `now` (nanoseconds since the Unix epoch, UTC).
    pub fn update_podcast_episode_status(
        episodes: &mut Vec<PodcastEpisode>,
        download_url_of_episode: &str,
        status: &str,
        now: i64,
    )
        ensures
            final(episodes)@.len() == old(episodes)@.len(),
            forall|i: int|
                0 <= i < old(episodes)@.len() ==> episode_status_set(
                    #[trigger] final(episodes)@[i],
                    old(episodes)@[i],
                    download_url_of_episode@,
                    status@,
                    now,
                ),
    {
        let ghost rows = episodes@;
        let url = String::from_str(download_url_of_episode);
        let mut out: Vec<PodcastEpisode> = Vec::new();
        let mut i: usize = 0;
        while i < episodes.len()
            invariant
                episodes@ == rows,
                url@ == download_url_of_episode@,
                0 <= i <= rows.len(),
                out@.len() == i,
                forall|k: int|
                    0 <= k < i ==> episode_status_set(#[trigger] out@[k], rows[k], download_url_of_episode@, status@, now),
            decreases rows.len() - i,
        {
            let mut e = episodes[i].copy();
            if e.url == url {
                e.status = String::from_str(status);
                e.download_time = Some(now);
            }
            out.push(e);
            i = i + 1;
        }
        *episodes = out;
    }

    /// Stores an episode; fails, changing nothing, where an episode with its
    /// id is stored.
    pub fn add_podcast_episode(episodes: &mut Vec<PodcastEpisode>, podcast_episode: PodcastEpisode) -> (r: Result<(), String>)
        ensures
            r is Err <==> exists|i: int| 0 <= i < old(episodes)@.len() && (#[trigger] old(episodes)@[i]).id == podcast_episode.id,
            r is Err ==> final(episodes)@ == old(episodes)@,
            r is Ok ==> final(episodes)@ == old(episodes)@.push(podcast_episode),
    {
        let mut i: usize = 0;
        while i < episodes.len()
            invariant
                0 <= i <= episodes@.len(),
                forall|k: int| 0 <= k < i ==> (#[trigger] episodes@[k]).id != podcast_episode.id,
            decreases episodes@.len() - i,
        {
            if episodes[i].id == podcast_episode.id {
                return Err(String::from_str("an episode with this id is stored"));
            }
            i = i + 1;
        }
        episodes.push(podcast_episode);
        Ok(())
    }
}

} // verus!
