use podfetch::favorites::Favorite;
use podfetch::mapping_service::{MappingService, PodcastEpisodeWithPlayedTime, PodcastHistoryItem};
use podfetch::podcast::{Podcast, PodcastEpisode};

fn podcast() -> Podcast {
    Podcast {
        id: 3,
        name: "Show".to_string(),
        directory: "77".to_string(),
        rssfeed: "feed".to_string(),
        image_url: "podcasts/3/image.jpg".to_string(),
        favored: 0,
        summary: Some("sum".to_string()),
        language: None,
        explicit: None,
        keywords: None,
        last_build_date: None,
        author: Some("Ann".to_string()),
        active: true,
        original_image_url: "orig".to_string(),
    }
}

fn episode() -> PodcastEpisode {
    PodcastEpisode {
        id: 9,
        podcast_id: 3,
        episode_id: "e9".to_string(),
        name: "Nine".to_string(),
        url: "https://x/9.mp3".to_string(),
        date_of_recording: "2023".to_string(),
        image_url: "https://x/9.jpg".to_string(),
        total_time: 99,
        local_url: "http://host/9.mp3".to_string(),
        local_image_url: "http://host/9.jpg".to_string(),
        description: "d".to_string(),
        status: "D".to_string(),
        download_time: Some(5),
        guid: "g9".to_string(),
    }
}

#[test]
fn podcast_image_made_absolute() {
    let service = MappingService::new("http://host/".to_string());
    let p = service.map_podcast_to_podcast_dto(&podcast());
    assert_eq!(p.image_url, "http://host/podcasts/3/image.jpg");
    assert_eq!(p.name, "Show");
    assert_eq!(p.original_image_url, "orig");
}

#[test]
fn dto_favorite_flag() {
    let service = MappingService::new("http://host/".to_string());
    let none = service.map_podcast_to_podcast_dto_with_favorites(&(podcast(), None));
    assert!(!none.favorites);
    assert_eq!(none.directory_id, "77");
    let fav = Favorite { username: "a".to_string(), podcast_id: 3, favored: true };
    let yes = service.map_podcast_to_podcast_dto_with_favorites_option(&(podcast(), fav));
    assert!(yes.favorites);
    assert_eq!(yes.image_url, "http://host/podcasts/3/image.jpg");
    let unfav = Favorite { username: "a".to_string(), podcast_id: 3, favored: false };
    assert!(!service.map_podcast_to_podcast_dto_with_favorites(&(podcast(), Some(unfav))).favorites);
}

#[test]
fn episode_with_history() {
    let service = MappingService::new(String::new());
    let item = PodcastHistoryItem { id: 1, podcast_id: 3, episode_id: "e9".to_string(), watched_time: 40, date: 1000 };
    let dto = service.map_podcastepisode_to_dto(&episode(), Some(item));
    assert!(dto.is_downloaded());
    assert_eq!(dto.time_played.as_ref().unwrap().watched_time, 40);
    assert_eq!(dto.guid, "g9");
    let history = PodcastHistoryItem { id: 2, podcast_id: 3, episode_id: "e9".to_string(), watched_time: 50, date: 2000 };
    let model = service.map_podcast_history_item_to_with_podcast_episode(&history, dto, podcast());
    assert_eq!(model.url, "http://host/9.mp3");
    assert_eq!(model.image_url, "http://host/9.jpg");
    assert_eq!(model.watched_time, 50);
    assert_eq!(model.total_time, 99);
    assert_eq!(model.podcast_episode.url, "https://x/9.mp3");
    assert_eq!(model.podcast.id, 3);
}

#[test]
fn not_downloaded_status() {
    let service = MappingService::new(String::new());
    let mut e = episode();
    e.status = "N".to_string();
    let dto: PodcastEpisodeWithPlayedTime = service.map_podcastepisode_to_dto(&e, None);
    assert!(!dto.is_downloaded());
}
