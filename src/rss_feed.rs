//! RSS 2.0 feeds with iTunes fields, built from downloaded episodes.

use crate::mapping_service::PodcastEpisodeWithPlayedTime;
use crate::podcast::{copy_opt, Podcast};
use crate::text::{comma_pieces, file_suffix, get_url_file_suffix, i32_string, signed_decimal, split_commas};
use rss::extension::itunes;
use vstd::prelude::*;

verus! {

/// One `<item>` of a feed.
pub struct FeedItem {
    pub guid: String,
    pub permalink: bool,
    pub pub_date: String,
    pub title: String,
    pub description: String,
    pub enclosure_url: String,
    pub enclosure_length: String,
    pub enclosure_mime_type: String,
    pub duration: String,
    pub image: String,
}

/// The iTunes owner of a feed.
pub struct ItunesOwner {
    pub name: String,
    pub email: String,
}

/// The channel-level iTunes fields.
pub struct ItunesChannel {
    pub owner: Option<ItunesOwner>,
    pub categories: Vec<String>,
    pub explicit: Option<String>,
    pub author: Option<String>,
    pub keywords: Option<String>,
    pub new_feed_url: Option<String>,
    pub summary: Option<String>,
    pub image: Option<String>,
}

/// A feed: channel fields, its items and its iTunes fields, if any.
pub struct FeedChannel {
    pub language: Option<String>,
    pub title: String,
    pub link: String,
    pub description: String,
    pub categories: Vec<String>,
    pub items: Vec<FeedItem>,
    pub itunes: Option<ItunesChannel>,
}

/// `it` is the feed item of episode `ep`.
pub open spec fn is_item_of(it: FeedItem, ep: PodcastEpisodeWithPlayedTime) -> bool {
    &&& it.guid == ep.episode_id
    &&& !it.permalink
    &&& it.pub_date == ep.date_of_recording
    &&& it.title == ep.name
    &&& it.description == ep.description
    &&& it.enclosure_url == ep.local_url
    &&& it.enclosure_length@ == signed_decimal(ep.total_time as int)
    &&& it.enclosure_mime_type@ == "audio/"@ + file_suffix(ep.local_url@)
    &&& it.duration@ == signed_decimal(ep.total_time as int)
    &&& it.image == ep.local_image_url
}

/// `items` are the feed items of `episodes`, one each, in order.
pub open spec fn items_of(items: Seq<FeedItem>, episodes: Seq<PodcastEpisodeWithPlayedTime>) -> bool {
    &&& items.len() == episodes.len()
    &&& forall|i: int| 0 <= i < items.len() ==> is_item_of(#[trigger] items[i], episodes[i])
}

/// The image of a podcast under the server's URL: the cached one, else the
/// original.
pub open spec fn podcast_image(server_url: Seq<char>, p: Podcast) -> Seq<char> {
    if p.image_url@.len() > 0 {
        server_url + p.image_url@
    } else {
        server_url + p.original_image_url@
    }
}

/// `e` holds the image alone.
pub open spec fn image_only(e: ItunesChannel, image: Seq<char>) -> bool {
    &&& e.owner is None
    &&& e.categories@.len() == 0
    &&& e.explicit is None
    &&& e.author is None
    &&& e.keywords is None
    &&& e.new_feed_url is None
    &&& e.summary is None
    &&& e.image is Some
    &&& e.image->Some_0@ == image
}

/// `e` is `ext` with its image replaced by `image` where one is given.
pub open spec fn ext_with_image(e: ItunesChannel, ext: ItunesChannel, image: Option<Seq<char>>) -> bool {
    &&& e.owner == ext.owner
    &&& e.categories == ext.categories
    &&& e.explicit == ext.explicit
    &&& e.author == ext.author
    &&& e.keywords == ext.keywords
    &&& e.new_feed_url == ext.new_feed_url
    &&& e.summary == ext.summary
    &&& match image {
        Some(i) => e.image is Some && e.image->Some_0@ == i,
        None => e.image == ext.image,
    }
}

/// The podcast's image, where a podcast is given.
pub open spec fn image_of(server_url: Seq<char>, podcast: Option<Podcast>) -> Option<Seq<char>> {
    match podcast {
        Some(p) => Some(podcast_image(server_url, p)),
        None => None,
    }
}

/// `r` is `channel` with iTunes fields attached: without items only the
/// podcast's image, if any; with items the whole of `ext`, with the podcast's
/// image where a podcast is given.
pub open spec fn assembled(r: FeedChannel, channel: FeedChannel, ext: ItunesChannel, image: Option<Seq<char>>) -> bool {
    &&& r.language == channel.language
    &&& r.title == channel.title
    &&& r.link == channel.link
    &&& r.description == channel.description
    &&& r.categories == channel.categories
    &&& r.items == channel.items
    &&& if channel.items@.len() == 0 {
        match image {
            Some(i) => r.itunes is Some && image_only(r.itunes->Some_0, i),
            None => r.itunes is None,
        }
    } else {
        r.itunes is Some && ext_with_image(r.itunes->Some_0, ext, image)
    }
}

/// How many images the channel-level iTunes fields name.
pub open spec fn channel_image_count(c: FeedChannel) -> nat {
    match c.itunes {
        Some(e) => if e.image is Some { 1 } else { 0 },
        None => 0,
    }
}

fn podcast_image_url(server_url: &String, p: &Podcast) -> (r: String)
    ensures
        r@ == podcast_image(server_url@, *p),
{
    let mut r = server_url.clone();
    if p.image_url.unicode_len() > 0 {
        r.append(p.image_url.as_str());
    } else {
        r.append(p.original_image_url.as_str());
    }
    r
}

/// The feed item of one episode.
pub fn feed_item(episode: &PodcastEpisodeWithPlayedTime) -> (r: FeedItem)
    ensures
        is_item_of(r, *episode),
{
    let mut mime = String::from_str("audio/");
    let suffix = get_url_file_suffix(episode.local_url.as_str());
    mime.append(suffix.as_str());
    FeedItem {
        guid: episode.episode_id.clone(),
        permalink: false,
        pub_date: episode.date_of_recording.clone(),
        title: episode.name.clone(),
        description: episode.description.clone(),
        enclosure_url: episode.local_url.clone(),
        enclosure_length: i32_string(episode.total_time),
        enclosure_mime_type: mime,
        duration: i32_string(episode.total_time),
        image: episode.local_image_url.clone(),
    }
}

/// The feed items of the episodes, in order.
pub fn get_podcast_items_rss(downloaded_episodes: &Vec<PodcastEpisodeWithPlayedTime>) -> (r: Vec<FeedItem>)
    ensures
        items_of(r@, downloaded_episodes@),
{
    let mut out: Vec<FeedItem> = Vec::new();
    let mut i: usize = 0;
    while i < downloaded_episodes.len()
        invariant
            0 <= i <= downloaded_episodes@.len(),
            out@.len() == i,
            forall|k: int| 0 <= k < i ==> is_item_of(#[trigger] out@[k], downloaded_episodes@[k]),
        decreases downloaded_episodes@.len() - i,
    {
        out.push(feed_item(&downloaded_episodes[i]));
        i = i + 1;
    }
    out
}

/// The iTunes owner of the given name and address.
pub fn get_itunes_owner(name: &str, email: &str) -> (r: ItunesOwner)
    ensures
        r.name@ == name@,
        r.email@ == email@,
{
    ItunesOwner { name: String::from_str(name), email: String::from_str(email) }
}

/// Attaches the iTunes fields to a channel. Without items, only the podcast's
/// image is attached, where a podcast is given; with items, all of `itunes_ext`,
/// its image replaced by the podcast's where a podcast is given.
pub fn generate_itunes_extension_conditionally(
    itunes_ext: ItunesChannel,
    channel: FeedChannel,
    podcast: Option<&Podcast>,
    server_url: &String,
) -> (r: FeedChannel)
    ensures
        assembled(
            r,
            channel,
            itunes_ext,
            image_of(
                server_url@,
                match podcast {
                    Some(p) => Some(*p),
                    None => None,
                },
            ),
        ),
{
    let image = match podcast {
        Some(p) => Some(podcast_image_url(server_url, p)),
        None => None,
    };
    let mut r = channel;
    if r.items.len() == 0 {
        r.itunes = match image {
            Some(i) => Some(
                ItunesChannel {
                    owner: None,
                    categories: Vec::new(),
                    explicit: None,
                    author: None,
                    keywords: None,
                    new_feed_url: None,
                    summary: None,
                    image: Some(i),
                },
            ),
            None => None,
        };
    } else {
        let mut ext = itunes_ext;
        if let Some(i) = image {
            ext.image = Some(i);
        }
        r.itunes = Some(ext);
    }
    r
}

/// The feed of all downloaded episodes of the server.
pub fn get_rss_feed(server_url: &String, downloaded_episodes: &Vec<PodcastEpisodeWithPlayedTime>) -> (r: FeedChannel)
    ensures
        r.title@ == "Podfetch"@,
        r.link@ == server_url@ + "rss"@,
        r.description@ == "Your local rss feed for your podcasts"@,
        r.language is Some && r.language->Some_0@ == "en"@,
        r.categories@.len() == 0,
        items_of(r.items@, downloaded_episodes@),
        downloaded_episodes@.len() == 0 ==> r.itunes is None,
        downloaded_episodes@.len() > 0 ==> r.itunes is Some && {
            let e = r.itunes->Some_0;
            &&& e.owner is Some && e.owner->Some_0.name@ == "Podfetch"@
                && e.owner->Some_0.email@ == "dev@podfetch.com"@
            &&& e.categories@.len() == 1 && e.categories@[0]@ == "Technology"@
            &&& e.explicit is Some && e.explicit->Some_0@ == "no"@
            &&& e.author is Some && e.author->Some_0@ == "Podfetch"@
            &&& e.keywords is Some && e.keywords->Some_0@ == "Podcast, RSS, Feed"@
            &&& e.new_feed_url is Some && e.new_feed_url->Some_0@ == server_url@ + "rss"@
            &&& e.summary is Some && e.summary->Some_0@ == "Your local rss feed for your podcasts"@
            &&& e.image is None
        },
{
    let mut link = server_url.clone();
    link.append("rss");
    let mut categories: Vec<String> = Vec::new();
    categories.push(String::from_str("Technology"));
    let ext = ItunesChannel {
        owner: Some(get_itunes_owner("Podfetch", "dev@podfetch.com")),
        categories,
        explicit: Some(String::from_str("no")),
        author: Some(String::from_str("Podfetch")),
        keywords: Some(String::from_str("Podcast, RSS, Feed")),
        new_feed_url: Some(link.clone()),
        summary: Some(String::from_str("Your local rss feed for your podcasts")),
        image: None,
    };
    let channel = FeedChannel {
        language: Some(String::from_str("en")),
        title: String::from_str("Podfetch"),
        link,
        description: String::from_str("Your local rss feed for your podcasts"),
        categories: Vec::new(),
        items: get_podcast_items_rss(downloaded_episodes),
        itunes: None,
    };
    generate_itunes_extension_conditionally(ext, channel, None, server_url)
}

/// The pieces of an optional comma-separated list; none for a missing one.
pub open spec fn keyword_pieces(k: Option<String>) -> Seq<Seq<char>> {
    match k {
        Some(s) => comma_pieces(s@),
        None => Seq::empty(),
    }
}

fn keyword_list(k: &Option<String>) -> (r: Vec<String>)
    ensures
        r@.map_values(|p: String| p@) == keyword_pieces(*k),
{
    match k {
        Some(s) => split_commas(s.as_str()),
        None => {
            let r: Vec<String> = Vec::new();
            assert(r@.map_values(|p: String| p@) =~= Seq::<Seq<char>>::empty());
            r
        },
    }
}

/// The feed of one podcast: its metadata, its downloaded episodes, and its
/// keywords as categories. A missing summary gives an empty description.
pub fn get_rss_feed_for_podcast(
    server_url: &String,
    id: i32,
    podcast: &Podcast,
    downloaded_episodes: &Vec<PodcastEpisodeWithPlayedTime>,
) -> (r: FeedChannel)
    ensures
        r.title == podcast.name,
        r.link@ == server_url@ + "rss/"@ + signed_decimal(id as int),
        r.language == podcast.language,
        podcast.summary is Some ==> r.description == podcast.summary->Some_0,
        podcast.summary is None ==> r.description@.len() == 0,
        r.categories@.map_values(|p: String| p@) == keyword_pieces(podcast.keywords),
        items_of(r.items@, downloaded_episodes@),
        downloaded_episodes@.len() == 0 ==> r.itunes is Some && image_only(
            r.itunes->Some_0,
            podcast_image(server_url@, *podcast),
        ),
        downloaded_episodes@.len() > 0 ==> r.itunes is Some && {
            let e = r.itunes->Some_0;
            &&& e.owner is Some
            &&& podcast.author is Some ==> e.owner->Some_0.name@ == podcast.author->Some_0@
                && e.owner->Some_0.email@ == "local@local.com"@
            &&& podcast.author is None ==> e.owner->Some_0.name@.len() == 0
                && e.owner->Some_0.email@.len() == 0
            &&& e.categories@.map_values(|p: String| p@) == keyword_pieces(podcast.keywords)
            &&& e.explicit == podcast.explicit
            &&& e.author == podcast.author
            &&& e.keywords == podcast.keywords
            &&& e.new_feed_url is Some && e.new_feed_url->Some_0@ == r.link@
            &&& e.summary == podcast.summary
            &&& e.image is Some && e.image->Some_0@ == podcast_image(server_url@, *podcast)
        },
{
    let mut link = server_url.clone();
    link.append("rss/");
    let id_text = i32_string(id);
    link.append(id_text.as_str());
    proof {
        reveal_strlit("");
    }
    let owner = match &podcast.author {
        Some(a) => get_itunes_owner(a.as_str(), "local@local.com"),
        None => get_itunes_owner("", ""),
    };
    let ext = ItunesChannel {
        owner: Some(owner),
        categories: keyword_list(&podcast.keywords),
        explicit: copy_opt(&podcast.explicit),
        author: copy_opt(&podcast.author),
        keywords: copy_opt(&podcast.keywords),
        new_feed_url: Some(link.clone()),
        summary: copy_opt(&podcast.summary),
        image: None,
    };
    let description = match &podcast.summary {
        Some(s) => s.clone(),
        None => String::new(),
    };
    let channel = FeedChannel {
        language: copy_opt(&podcast.language),
        title: podcast.name.clone(),
        link,
        description,
        categories: keyword_list(&podcast.keywords),
        items: get_podcast_items_rss(downloaded_episodes),
        itunes: None,
    };
    generate_itunes_extension_conditionally(ext, channel, Some(podcast), server_url)
}

/// Feed assembly: without episodes the feed has no items, and its channel
/// names exactly one image where a podcast is given and none otherwise; with
/// episodes it has one item per episode, in order, whose guid is the
/// episode's id.
pub proof fn lemma_feed_follows_episodes(
    episodes: Seq<PodcastEpisodeWithPlayedTime>,
    channel: FeedChannel,
    ext: ItunesChannel,
    podcast: Option<Podcast>,
    server_url: Seq<char>,
    r: FeedChannel,
)
    requires
        items_of(channel.items@, episodes),
        assembled(r, channel, ext, image_of(server_url, podcast)),
    ensures
        episodes.len() == 0 ==> r.items@.len() == 0 && channel_image_count(r) == (if podcast is Some {
            1nat
        } else {
            0nat
        }),
        episodes.len() > 0 ==> r.items@.len() == episodes.len() && forall|i: int|
            0 <= i < episodes.len() ==> (#[trigger] r.items@[i]).guid == episodes[i].episode_id,
{
    if episodes.len() > 0 {
        assert forall|i: int| 0 <= i < episodes.len() implies (#[trigger] r.items@[i]).guid == episodes[i].episode_id by {
            assert(is_item_of(channel.items@[i], episodes[i]));
        }
    }
}

/// The item type of the rss crate.
#[verifier::external_type_specification]
#[verifier::external_body]
pub struct ExRssItem(rss::Item);

/// The channel-level iTunes extension of the rss crate.
#[verifier::external_type_specification]
#[verifier::external_body]
pub struct ExItunesChannelExtension(itunes::ITunesChannelExtension);

/// Relies on rss::Item and its parts: the fields of the item, moved over.
#[verifier::external_body]
fn rss_item(item: &FeedItem) -> rss::Item {
    let enclosure = rss::Enclosure { url: item.enclosure_url.clone(), length: item.enclosure_length.clone(), mime_type: item.enclosure_mime_type.clone() };
    let ext = itunes::ITunesItemExtension { duration: Some(item.duration.clone()), image: Some(item.image.clone()), ..Default::default() };
    rss::Item {
        guid: Some(rss::Guid { value: item.guid.clone(), permalink: item.permalink }),
        pub_date: Some(item.pub_date.clone()),
        title: Some(item.title.clone()),
        description: Some(item.description.clone()),
        enclosure: Some(enclosure),
        itunes_ext: Some(ext),
        ..Default::default()
    }
}

/// Relies on rss's ITunesChannelExtension and its parts: the fields, moved over.
#[verifier::external_body]
fn rss_itunes_channel(e: &ItunesChannel) -> itunes::ITunesChannelExtension {
    itunes::ITunesChannelExtension {
        owner: e.owner.as_ref().map(|o| itunes::ITunesOwner { name: Some(o.name.clone()), email: Some(o.email.clone()) }),
        categories: e.categories.iter().map(|c| itunes::ITunesCategory { text: c.clone(), subcategory: None }).collect(),
        explicit: e.explicit.clone(),
        author: e.author.clone(),
        keywords: e.keywords.clone(),
        new_feed_url: e.new_feed_url.clone(),
        summary: e.summary.clone(),
        image: e.image.clone(),
        ..Default::default()
    }
}

/// The RSS document that the rss crate writes for a feed.
pub uninterp spec fn feed_xml_of(c: FeedChannel) -> Seq<char>;

/// Relies on rss::Channel and rss::Category, and on the `Display` of
/// rss::Channel: the feed's fields, moved into the crate's channel (items and
/// iTunes fields through the two conversions above), written as an RSS
/// document, which depends on the feed alone.
#[verifier::external_body]
fn feed_xml(c: &FeedChannel) -> (r: String)
    ensures
        r@ == feed_xml_of(*c),
{
    let items = c.items.iter().map(rss_item).collect();
    let itunes_ext = c.itunes.as_ref().map(rss_itunes_channel);
    let categories = c.categories.iter().map(|n| rss::Category { name: n.clone(), domain: None }).collect();
    let channel = rss::Channel { title: c.title.clone(), link: c.link.clone(), description: c.description.clone(), language: c.language.clone(), categories, items, itunes_ext, ..Default::default() };
    channel.to_string()
}

impl FeedChannel {
    /// The feed as an RSS document.
    pub fn to_xml(&self) -> (r: String)
        ensures
            r@ == feed_xml_of(*self),
    {
        feed_xml(self)
    }
}

} // verus!
