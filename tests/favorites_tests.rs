use podfetch::favorites::{Favorite, OrderCriteria, OrderOption};
use podfetch::mapping_service::MappingService;
use podfetch::podcast::{Podcast, PodcastEpisode};

fn favorite(user: &str, podcast_id: i32, favored: bool) -> Favorite {
    Favorite { username: user.to_string(), podcast_id, favored }
}

fn podcast(id: i32, name: &str) -> Podcast {
    Podcast {
        id,
        name: name.to_string(),
        directory: format!("{id}"),
        rssfeed: format!("https://example.com/{id}.xml"),
        image_url: format!("images/{id}.jpg"),
        favored: 0,
        summary: None,
        language: None,
        explicit: None,
        keywords: None,
        last_build_date: None,
        author: None,
        active: true,
        original_image_url: format!("https://example.com/{id}.jpg"),
    }
}

fn episode(id: i32, podcast_id: i32) -> PodcastEpisode {
    dated(id, podcast_id, "2023-01-01")
}

fn dated(id: i32, podcast_id: i32, date: &str) -> PodcastEpisode {
    PodcastEpisode {
        id,
        podcast_id,
        episode_id: format!("ep-{id}"),
        name: format!("Episode {id}"),
        url: format!("https://example.com/{id}.mp3"),
        date_of_recording: date.to_string(),
        image_url: String::new(),
        total_time: 60,
        local_url: String::new(),
        local_image_url: String::new(),
        description: String::new(),
        status: "N".to_string(),
        download_time: None,
        guid: format!("guid-{id}"),
    }
}

#[test]
fn favor_twice_leaves_one_row_with_latest_value() {
    let mut rows = vec![favorite("bob", 1, true)];
    Favorite::update_podcast_favor(&7, true, &mut rows, "alice".to_string()).unwrap();
    Favorite::update_podcast_favor(&7, false, &mut rows, "alice".to_string()).unwrap();
    let alice: Vec<&Favorite> = rows.iter().filter(|f| f.username == "alice" && f.podcast_id == 7).collect();
    assert_eq!(alice.len(), 1);
    assert!(!alice[0].favored);
    assert_eq!(rows.len(), 2);
    assert!(rows[0].favored && rows[0].username == "bob");
}

#[test]
fn favor_inserts_for_new_key_and_updates_existing() {
    let mut rows = vec![favorite("alice", 1, false)];
    Favorite::update_podcast_favor(&2, true, &mut rows, "alice".to_string()).unwrap();
    assert_eq!(rows.len(), 2);
    assert!(rows[1].favored && rows[1].podcast_id == 2);
    Favorite::update_podcast_favor(&1, true, &mut rows, "alice".to_string()).unwrap();
    assert_eq!(rows.len(), 2);
    assert!(rows[0].favored);
}

#[test]
fn delete_by_username_removes_only_that_user() {
    let mut rows = vec![favorite("a", 1, true), favorite("b", 1, true), favorite("a", 2, false)];
    Favorite::delete_by_username(&"a".to_string(), &mut rows).unwrap();
    assert_eq!(rows.len(), 1);
    assert_eq!(rows[0].username, "b");
}

#[test]
fn search_keeps_first_row_of_each_podcast() {
    let rows = vec![
        (podcast(1, "One"), episode(10, 1), Some(favorite("a", 1, true))),
        (podcast(2, "Two"), episode(20, 2), None),
        (podcast(1, "One"), episode(11, 1), Some(favorite("a", 1, false))),
        (podcast(3, "Three"), episode(30, 3), None),
        (podcast(2, "Two"), episode(21, 2), None),
    ];
    let result = Favorite::search_podcasts(&rows, OrderCriteria::Asc, None, OrderOption::Title);
    let ids: Vec<i32> = result.iter().map(|(p, _)| p.id).collect();
    assert_eq!(ids, vec![1, 3, 2]);
    assert!(result[0].1.is_some());
    assert!(result[1].1.is_none());
}

#[test]
fn favored_search_keeps_first_row_of_each_podcast() {
    let rows = vec![
        (podcast(5, "Five"), episode(1, 5), favorite("a", 5, true)),
        (podcast(5, "Five"), episode(2, 5), favorite("a", 5, true)),
        (podcast(4, "Four"), episode(3, 4), favorite("a", 4, false)),
    ];
    let result = Favorite::search_podcasts_favored(&rows, OrderCriteria::Desc, None, OrderOption::Title);
    let ids: Vec<i32> = result.iter().map(|(p, _)| p.id).collect();
    assert_eq!(ids, vec![4, 5]);
    assert!(Favorite::search_podcasts_favored(&vec![], OrderCriteria::Asc, None, OrderOption::Title).is_empty());
}

#[test]
fn favored_podcasts_of_a_user() {
    let rows = vec![
        (podcast(1, "One"), favorite("a", 1, true)),
        (podcast(2, "Two"), favorite("a", 2, false)),
        (podcast(3, "Three"), favorite("b", 3, true)),
    ];
    let service = MappingService::new("http://host/".to_string());
    let dtos = Favorite::get_favored_podcasts(&"a".to_string(), &rows, &service).unwrap();
    assert_eq!(dtos.len(), 1);
    assert_eq!(dtos[0].id, 1);
    assert!(dtos[0].favorites);
    assert_eq!(dtos[0].image_url, "http://host/images/1.jpg");
}

#[test]
fn search_orders_by_date_and_filters_by_title() {
    let rows = vec![
        (podcast(1, "Rust Weekly"), dated(10, 1, "2023-03-01"), None),
        (podcast(2, "Go Time"), dated(20, 2, "2023-05-01"), None),
        (podcast(1, "Rust Weekly"), dated(11, 1, "2023-06-01"), None),
        (podcast(3, "rustacean station"), dated(30, 3, "2023-01-01"), None),
    ];
    let newest = Favorite::search_podcasts(&rows, OrderCriteria::Desc, None, OrderOption::PublishedDate);
    let ids: Vec<i32> = newest.iter().map(|(p, _)| p.id).collect();
    assert_eq!(ids, vec![1, 2, 3]);
    let oldest = Favorite::search_podcasts(&rows, OrderCriteria::Asc, None, OrderOption::PublishedDate);
    let ids: Vec<i32> = oldest.iter().map(|(p, _)| p.id).collect();
    assert_eq!(ids, vec![3, 1, 2]);
    let rust = Favorite::search_podcasts(&rows, OrderCriteria::Asc, Some("RUST".to_string()), OrderOption::Title);
    let ids: Vec<i32> = rust.iter().map(|(p, _)| p.id).collect();
    assert_eq!(ids, vec![1, 3]);
}

#[test]
fn favor_leaves_one_row_even_from_duplicates() {
    let mut rows = vec![favorite("a", 1, true), favorite("b", 2, true), favorite("a", 1, true)];
    Favorite::update_podcast_favor(&1, false, &mut rows, "a".to_string()).unwrap();
    let a: Vec<&Favorite> = rows.iter().filter(|f| f.username == "a" && f.podcast_id == 1).collect();
    assert_eq!(a.len(), 1);
    assert!(!a[0].favored);
    assert_eq!(rows.len(), 2);
}
