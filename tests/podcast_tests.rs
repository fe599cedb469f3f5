use podfetch::podcast::{Podcast, PodcastEpisode};

fn episode(id: i32, podcast_id: i32, date: &str, status: &str, download_time: Option<i64>) -> PodcastEpisode {
    PodcastEpisode {
        id,
        podcast_id,
        episode_id: format!("ep-{id}"),
        name: format!("Episode {id}"),
        url: format!("https://example.com/{id}.mp3"),
        date_of_recording: date.to_string(),
        image_url: String::new(),
        total_time: 60,
        local_url: String::new(),
        local_image_url: String::new(),
        description: String::new(),
        status: status.to_string(),
        download_time,
        guid: format!("guid-{id}"),
    }
}

fn podcast(id: i32, directory: &str) -> Podcast {
    Podcast {
        id,
        name: format!("P{id}"),
        directory: directory.to_string(),
        rssfeed: String::new(),
        image_url: String::new(),
        favored: 0,
        summary: None,
        language: None,
        explicit: None,
        keywords: None,
        last_build_date: None,
        author: None,
        active: true,
        original_image_url: String::new(),
    }
}

fn ids(v: &[PodcastEpisode]) -> Vec<i32> {
    v.iter().map(|e| e.id).collect()
}

#[test]
fn downloaded_episodes_have_status_d() {
    let rows = vec![episode(1, 1, "a", "D", None), episode(2, 1, "b", "N", None), episode(3, 1, "c", "D", None)];
    assert_eq!(ids(&PodcastEpisode::get_downloaded_episodes(&rows)), vec![1, 3]);
}

#[test]
fn episodes_older_than_days() {
    let day: i64 = 86_400_000_000_000;
    let now: i64 = 100 * day;
    let rows = vec![
        episode(1, 1, "a", "D", Some(now - 10 * day)),
        episode(2, 1, "b", "D", Some(now - 2 * day)),
        episode(3, 1, "c", "N", None),
        episode(4, 1, "d", "D", Some(now - 5 * day)),
    ];
    assert_eq!(ids(&PodcastEpisode::get_podcast_episodes_older_than_days(&rows, now, 5)), vec![1]);
    assert_eq!(ids(&PodcastEpisode::get_podcast_episodes_older_than_days(&rows, now, 0)), vec![1, 2, 4]);
}

#[test]
fn check_if_downloaded_by_url() {
    let rows = vec![episode(1, 1, "a", "D", None), episode(2, 1, "b", "P", None)];
    assert_eq!(PodcastEpisode::check_if_downloaded(&rows, &"https://example.com/1.mp3".to_string()), Some(true));
    assert_eq!(PodcastEpisode::check_if_downloaded(&rows, &"https://example.com/2.mp3".to_string()), Some(false));
    assert_eq!(PodcastEpisode::check_if_downloaded(&rows, &"https://example.com/9.mp3".to_string()), None);
}

#[test]
fn episode_pages_latest_first() {
    let mut rows = vec![];
    for i in 0..80i32 {
        rows.push(episode(i, 1, &format!("2020-{:03}", i), "N", None));
    }
    rows.push(episode(500, 2, "2099-001", "N", None));
    let page = PodcastEpisode::get_podcast_episodes_of_podcast(&rows, 1, None);
    assert_eq!(page.len(), 75);
    assert_eq!(page[0].id, 79);
    assert_eq!(page[74].id, 5);
    let next = PodcastEpisode::get_podcast_episodes_of_podcast(&rows, 1, Some("2020-005".to_string()));
    assert_eq!(ids(&next), vec![4, 3, 2, 1, 0]);
    let last = PodcastEpisode::get_last_5_podcast_episodes_of_podcast(&rows, 1);
    assert_eq!(ids(&last), vec![79, 78, 77, 76, 75]);
    assert!(PodcastEpisode::get_last_5_podcast_episodes_of_podcast(&rows, 3).is_empty());
}

#[test]
fn find_podcasts() {
    let rows = vec![podcast(1, "111"), podcast(2, "-7"), podcast(3, "111")];
    assert_eq!(Podcast::find_podcast(&rows, 2).map(|p| p.id), Some(2));
    assert!(Podcast::find_podcast(&rows, 9).is_none());
    assert_eq!(Podcast::find_podcast_by_trackid(&rows, 111).map(|p| p.id), Some(1));
    assert_eq!(Podcast::find_podcast_by_trackid(&rows, -7).map(|p| p.id), Some(2));
    assert!(Podcast::find_podcast_by_trackid(&rows, 11).is_none());
    assert_eq!(Podcast::get_podcasts(&rows).unwrap().len(), 3);
}

#[test]
fn add_podcast_takes_next_id() {
    let mut rows = vec![podcast(4, "1"), podcast(2, "2")];
    let p = Podcast::add_podcast_to_database("Name".to_string(), "99".to_string(), "feed".to_string(), "img".to_string(), &mut rows).unwrap();
    assert_eq!(p.id, 5);
    assert_eq!(p.image_url, "img");
    assert_eq!(p.original_image_url, "img");
    assert!(p.active);
    assert_eq!(rows.len(), 3);
    assert_eq!(rows[2].directory, "99");
    let mut full = vec![podcast(i32::MAX, "1")];
    assert!(Podcast::add_podcast_to_database("n".to_string(), "d".to_string(), "f".to_string(), "i".to_string(), &mut full).is_err());
    assert_eq!(full.len(), 1);
}

#[test]
fn query_matches_name_or_description_without_case() {
    let mut a = episode(1, 1, "a", "N", None);
    a.name = "Learning Rust".to_string();
    let mut b = episode(2, 1, "b", "N", None);
    b.description = "all about RUSTACEANS".to_string();
    let c = episode(3, 1, "c", "N", None);
    let rows = vec![a, b, c];
    assert_eq!(ids(&PodcastEpisode::query_for_podcast_episodes(&rows, "rust")), vec![1, 2]);
    assert_eq!(ids(&PodcastEpisode::query_for_podcast_episodes(&rows, "")), vec![1, 2, 3]);
    assert!(PodcastEpisode::query_for_podcast_episodes(&rows, "python").is_empty());
}

#[test]
fn episode_status_update_sets_time() {
    let mut rows = vec![episode(1, 1, "a", "N", None), episode(2, 1, "b", "N", None)];
    PodcastEpisode::update_podcast_episode_status(&mut rows, "https://example.com/2.mp3", "D", 1234);
    assert_eq!(rows[1].status, "D");
    assert_eq!(rows[1].download_time, Some(1234));
    assert_eq!(rows[0].status, "N");
    assert_eq!(rows[0].download_time, None);
}

#[test]
fn add_episode_rejects_duplicate_id() {
    let mut rows = vec![episode(1, 1, "a", "N", None)];
    assert!(PodcastEpisode::add_podcast_episode(&mut rows, episode(2, 1, "b", "N", None)).is_ok());
    assert_eq!(rows.len(), 2);
    assert!(PodcastEpisode::add_podcast_episode(&mut rows, episode(1, 1, "c", "N", None)).is_err());
    assert_eq!(rows.len(), 2);
}

#[test]
fn query_wildcards_as_in_like() {
    let mut a = episode(1, 1, "a", "N", None);
    a.name = "Learning Rust".to_string();
    let mut b = episode(2, 1, "b", "N", None);
    b.name = "100% pure".to_string();
    let rows = vec![a, b];
    assert_eq!(ids(&PodcastEpisode::query_for_podcast_episodes(&rows, "r_st")), vec![1]);
    assert_eq!(ids(&PodcastEpisode::query_for_podcast_episodes(&rows, "learn%rust")), vec![1]);
    assert_eq!(ids(&PodcastEpisode::query_for_podcast_episodes(&rows, "0%p")), vec![2]);
    assert!(PodcastEpisode::query_for_podcast_episodes(&rows, "rust_").is_empty());
}
