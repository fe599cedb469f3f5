//! Turns stored rows into the shapes that the API returns.

use crate::favorites::Favorite;
use crate::podcast::{copy_opt, Podcast, PodcastEpisode};
use vstd::prelude::*;

verus! {

/// Maps rows to API shapes; image paths are made absolute with the server's URL.
pub struct MappingService {
    pub server_url: String,
}

/// A podcast as the API returns it, with the requesting user's favorite flag.
pub struct PodcastDto {
    pub id: i32,
    pub name: String,
    pub directory_id: String,
    pub rssfeed: String,
    pub image_url: String,
    pub language: Option<String>,
    pub keywords: Option<String>,
    pub summary: Option<String>,
    pub explicit: Option<String>,
    pub last_build_date: Option<String>,
    pub author: Option<String>,
    pub active: bool,
    pub original_image_url: String,
    pub favorites: bool,
}

/// How far a user got in an episode. `date` is in seconds since the Unix epoch, UTC.
pub struct PodcastHistoryItem {
    pub id: i32,
    pub podcast_id: i32,
    pub episode_id: String,
    pub watched_time: i32,
    pub date: i64,
}

/// An episode with how far the user got in it, where known.
pub struct PodcastEpisodeWithPlayedTime {
    pub id: i32,
    pub podcast_id: i32,
    pub episode_id: String,
    pub name: String,
    pub url: String,
    pub date_of_recording: String,
    pub image_url: String,
    pub total_time: i32,
    pub local_url: String,
    pub local_image_url: String,
    pub description: String,
    pub status: String,
    pub download_time: Option<i64>,
    pub guid: String,
    pub time_played: Option<PodcastHistoryItem>,
}

/// A history entry with its episode and podcast.
pub struct PodcastWatchedEpisodeModelWithPodcastEpisode {
    pub id: i32,
    pub podcast_id: i32,
    pub episode_id: String,
    pub url: String,
    pub name: String,
    pub image_url: String,
    pub watched_time: i32,
    pub date: i64,
    pub total_time: i32,
    pub podcast_episode: PodcastEpisode,
    pub podcast: Podcast,
}

/// `d` is the API form of `p` with the given favorite flag.
pub open spec fn is_dto_of(d: PodcastDto, p: Podcast, server_url: Seq<char>, favored: bool) -> bool {
    &&& d.id == p.id
    &&& d.name == p.name
    &&& d.directory_id == p.directory
    &&& d.rssfeed == p.rssfeed
    &&& d.image_url@ == server_url + p.image_url@
    &&& d.language == p.language
    &&& d.keywords == p.keywords
    &&& d.summary == p.summary
    &&& d.explicit == p.explicit
    &&& d.last_build_date == p.last_build_date
    &&& d.author == p.author
    &&& d.active == p.active
    &&& d.original_image_url == p.original_image_url
    &&& d.favorites == favored
}

/// The favorite flag of an optional favorite row.
pub open spec fn favored_flag(f: Option<Favorite>) -> bool {
    match f {
        Some(f) => f.favored,
        None => false,
    }
}

impl PodcastHistoryItem {
    /// A copy of the row.
    pub fn copy(&self) -> (r: PodcastHistoryItem)
        ensures
            r == *self,
    {
        PodcastHistoryItem {
            id: self.id,
            podcast_id: self.podcast_id,
            episode_id: self.episode_id.clone(),
            watched_time: self.watched_time,
            date: self.date,
        }
    }
}

impl PodcastEpisodeWithPlayedTime {
    /// Whether the episode has been downloaded.
    pub fn is_downloaded(&self) -> (r: bool)
        ensures
            r == (self.status@ == "D"@),
    {
        self.status == String::from_str("D")
    }
}

impl MappingService {
    pub fn new(server_url: String) -> (r: MappingService)
        ensures
            r.server_url == server_url,
    {
        MappingService { server_url }
    }

    /// The image path made absolute with the server's URL.
    fn absolute(&self, path: &String) -> (r: String)
        ensures
            r@ == self.server_url@ + path@,
    {
        let mut r = self.server_url.clone();
        r.append(path.as_str());
        r
    }

    /// The podcast with its image path made absolute.
    pub fn map_podcast_to_podcast_dto(&self, podcast: &Podcast) -> (r: Podcast)
        ensures
            r.image_url@ == self.server_url@ + podcast.image_url@,
            r == (Podcast { image_url: r.image_url, ..*podcast }),
    {
        let mut r = podcast.copy();
        r.image_url = self.absolute(&podcast.image_url);
        r
    }

    /// The podcast in API form, favored where the user's row says so.
    pub fn map_podcast_to_podcast_dto_with_favorites(&self, podcast_favorite_grouped: &(Podcast, Option<Favorite>)) -> (r: PodcastDto)
        ensures
            is_dto_of(r, podcast_favorite_grouped.0, self.server_url@, favored_flag(podcast_favorite_grouped.1)),
    {
        let p = &podcast_favorite_grouped.0;
        let favorite = match &podcast_favorite_grouped.1 {
            Some(f) => f.favored,
            None => false,
        };
        PodcastDto {
            id: p.id,
            name: p.name.clone(),
            directory_id: p.directory.clone(),
            rssfeed: p.rssfeed.clone(),
            image_url: self.absolute(&p.image_url),
            language: copy_opt(&p.language),
            keywords: copy_opt(&p.keywords),
            summary: copy_opt(&p.summary),
            explicit: copy_opt(&p.explicit),
            last_build_date: copy_opt(&p.last_build_date),
            author: copy_opt(&p.author),
            active: p.active,
            original_image_url: p.original_image_url.clone(),
            favorites: favorite,
        }
    }

    /// The podcast in API form, with the flag of the user's row.
    pub fn map_podcast_to_podcast_dto_with_favorites_option(&self, podcast_favorite_grouped: &(Podcast, Favorite)) -> (r: PodcastDto)
        ensures
            is_dto_of(r, podcast_favorite_grouped.0, self.server_url@, podcast_favorite_grouped.1.favored),
    {
        self.map_podcast_to_podcast_dto_with_favorites(
            &(podcast_favorite_grouped.0.copy(), Some(podcast_favorite_grouped.1.copy())),
        )
    }

    /// The episode with the user's progress in it.
    pub fn map_podcastepisode_to_dto(&self, podcast_episode: &PodcastEpisode, opt_historyitem: Option<PodcastHistoryItem>) -> (r: PodcastEpisodeWithPlayedTime)
        ensures
            r == (PodcastEpisodeWithPlayedTime {
                id: podcast_episode.id,
                podcast_id: podcast_episode.podcast_id,
                episode_id: podcast_episode.episode_id,
                name: podcast_episode.name,
                url: podcast_episode.url,
                date_of_recording: podcast_episode.date_of_recording,
                image_url: podcast_episode.image_url,
                total_time: podcast_episode.total_time,
                local_url: podcast_episode.local_url,
                local_image_url: podcast_episode.local_image_url,
                description: podcast_episode.description,
                status: podcast_episode.status,
                download_time: podcast_episode.download_time,
                guid: podcast_episode.guid,
                time_played: opt_historyitem,
            }),
    {
        let e = podcast_episode.copy();
        PodcastEpisodeWithPlayedTime {
            id: e.id,
            podcast_id: e.podcast_id,
            episode_id: e.episode_id,
            name: e.name,
            url: e.url,
            date_of_recording: e.date_of_recording,
            image_url: e.image_url,
            total_time: e.total_time,
            local_url: e.local_url,
            local_image_url: e.local_image_url,
            description: e.description,
            status: e.status,
            download_time: e.download_time,
            guid: e.guid,
            time_played: opt_historyitem,
        }
    }

    /// A history entry joined with its episode and podcast; the entry shows the
    /// episode's local file and image.
    pub fn map_podcast_history_item_to_with_podcast_episode(
        &self,
        podcast_watched_model: &PodcastHistoryItem,
        podcast_episode: PodcastEpisodeWithPlayedTime,
        podcast: Podcast,
    ) -> (r: PodcastWatchedEpisodeModelWithPodcastEpisode)
        ensures
            r.id == podcast_watched_model.id,
            r.watched_time == podcast_watched_model.watched_time,
            r.podcast_id == podcast_watched_model.podcast_id,
            r.episode_id == podcast_watched_model.episode_id,
            r.date == podcast_watched_model.date,
            r.url == podcast_episode.local_url,
            r.name == podcast_episode.name,
            r.image_url == podcast_episode.local_image_url,
            r.total_time == podcast_episode.total_time,
            r.podcast_episode == (PodcastEpisode {
                id: podcast_episode.id,
                podcast_id: podcast_episode.podcast_id,
                episode_id: podcast_episode.episode_id,
                name: podcast_episode.name,
                url: podcast_episode.url,
                date_of_recording: podcast_episode.date_of_recording,
                image_url: podcast_episode.image_url,
                total_time: podcast_episode.total_time,
                local_url: podcast_episode.local_url,
                local_image_url: podcast_episode.local_image_url,
                description: podcast_episode.description,
                status: podcast_episode.status,
                download_time: podcast_episode.download_time,
                guid: podcast_episode.guid,
            }),
            r.podcast == podcast,
    {
        let h = podcast_watched_model.copy();
        let episode = PodcastEpisode {
            id: podcast_episode.id,
            podcast_id: podcast_episode.podcast_id,
            episode_id: podcast_episode.episode_id,
            name: podcast_episode.name,
            url: podcast_episode.url,
            date_of_recording: podcast_episode.date_of_recording,
            image_url: podcast_episode.image_url,
            total_time: podcast_episode.total_time,
            local_url: podcast_episode.local_url,
            local_image_url: podcast_episode.local_image_url,
            description: podcast_episode.description,
            status: podcast_episode.status,
            download_time: podcast_episode.download_time,
            guid: podcast_episode.guid,
        };
        PodcastWatchedEpisodeModelWithPodcastEpisode {
            id: h.id,
            watched_time: h.watched_time,
            podcast_id: h.podcast_id,
            episode_id: h.episode_id,
            date: h.date,
            url: episode.local_url.clone(),
            name: episode.name.clone(),
            image_url: episode.local_image_url.clone(),
            total_time: episode.total_time,
            podcast_episode: episode,
            podcast,
        }
    }
}

} // verus!
