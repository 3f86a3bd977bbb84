//! YouTube channels and playlists, read from their feeds or through the
//! YouTube API.
use vstd::prelude::*;

use crate::feed::{
    build_default_rss_structure, empty_item, items_view, podcast_channel, ChannelImage, ChannelView,
    FeedChannel, FeedGuid, FeedItem, ItemView, ItunesChannel, ItunesItem,
};
use crate::rss_transcodizer::{format_hms, hms, or_empty};
use crate::dates::{instant_of_rfc3339, rfc3339_instant, rfc3339_to_utc_rfc2822, utc_rfc2822_of};
use crate::text::{push_two_digits, two_digits, from_chars};
use crate::source::{EntryView, SourceEntry, SourceFeed};
use crate::text::{
    clone_opt,
    concat, opt_view, spec_parse_u64, starts_with, strings_view, to_chars, trim, trim_string,
};
use crate::urls::{
    append_query_pair, last_path_segment, parse_url, path_of, query_value, spec_query_value,
    url_appended, url_last_segment, url_parsed, url_path,
};

verus! {

/// The provider of YouTube channels and playlists.
pub struct YoutubeProvider;

/// The URLs YouTube serves: its sites and the hosts of its videos.
pub open spec fn spec_youtube_whitelist() -> Seq<Seq<char>> {
    seq![
        "^(https://)?.*\\.youtube\\.com/"@,
        "^(https://)?youtube\\.com/"@,
        "^(https://)?youtu\\.be/"@,
        "^(https://)?.*\\.youtu\\.be/"@,
        "^(https://)?.*\\.googlevideo\\.com/"@,
    ]
}

/// The regular expressions of the URLs YouTube serves.
pub fn youtube_whitelist() -> (r: Vec<String>)
    ensures
        strings_view(r@) == spec_youtube_whitelist(),
{
    let r = vec![
        String::from_str("^(https://)?.*\\.youtube\\.com/"),
        String::from_str("^(https://)?youtube\\.com/"),
        String::from_str("^(https://)?youtu\\.be/"),
        String::from_str("^(https://)?.*\\.youtu\\.be/"),
        String::from_str("^(https://)?.*\\.googlevideo\\.com/"),
    ];
    assert(strings_view(r@) =~= spec_youtube_whitelist());
    r
}

/// The shortest length in seconds of the videos to keep, from its setting:
/// 0 (keep all) when it is unset or no number.
pub open spec fn spec_min_seconds(setting: Option<Seq<char>>) -> u64 {
    match setting {
        Some(v) => match spec_parse_u64(v) {
            Some(n) => n,
            None => 0,
        },
        None => 0,
    }
}

/// The shortest length of the videos to keep.
pub fn youtube_min_seconds(setting: Option<&str>) -> (r: u64)
    ensures
        r == spec_min_seconds(
            match setting {
                Some(s) => Some(s@),
                None => None,
            },
        ),
{
    match setting {
        Some(s) => {
            let v = to_chars(s);
            match crate::text::parse_u64_range(v.as_slice(), 0, v.len()) {
                Some(n) => {
                    assert(v@.subrange(0, v@.len() as int) =~= s@);
                    n
                },
                None => {
                    assert(v@.subrange(0, v@.len() as int) =~= s@);
                    0
                },
            }
        },
        None => 0,
    }
}

/// What a YouTube URL leads to.
#[derive(Debug, PartialEq, Eq, Structural, Clone, Copy)]
pub enum YoutubeRoute {
    /// A playlist (`/playlist?list=...`).
    Playlist,
    /// A channel (`/channel/`, `/user/`, `/c/` or `/@...`).
    Channel,
    /// A feed already (`/feeds/...`).
    Feed,
    Unsupported,
}

/// `s` begins with `p`.
pub open spec fn has_prefix(s: Seq<char>, p: Seq<char>) -> bool {
    s.len() >= p.len() && s.subrange(0, p.len() as int) == p
}

/// What a URL whose path is `path` leads to.
pub open spec fn spec_route(path: Seq<char>) -> YoutubeRoute {
    if has_prefix(path, "/playlist"@) {
        YoutubeRoute::Playlist
    } else if has_prefix(path, "/feeds/"@) {
        YoutubeRoute::Feed
    } else if has_prefix(path, "/channel/"@) || has_prefix(path, "/user/"@) || has_prefix(path, "/c/"@)
        || has_prefix(path, "/@"@) {
        YoutubeRoute::Channel
    } else {
        YoutubeRoute::Unsupported
    }
}

/// `path` begins with `p`, spelled out.
pub open spec fn path_begins_with(path: Seq<char>, p: Seq<char>) -> bool {
    p.len() <= path.len() && path.subrange(0, p.len() as int) == p
}

/// How paths are routed, stated of any route `r` for `path`: `/playlist...`
/// is a playlist, `/feeds/...` a feed, and `/channel/`, `/user/`, `/c/` and
/// `/@` name a channel; any other path is not supported.
pub open spec fn routed_by_prefix(path: Seq<char>, r: YoutubeRoute) -> bool {
    &&& path_begins_with(path, "/playlist"@) ==> r == YoutubeRoute::Playlist
    &&& path_begins_with(path, "/feeds/"@) ==> r == YoutubeRoute::Feed
    &&& path_begins_with(path, "/channel/"@) ==> r == YoutubeRoute::Channel
    &&& path_begins_with(path, "/user/"@) ==> r == YoutubeRoute::Channel
    &&& path_begins_with(path, "/c/"@) ==> r == YoutubeRoute::Channel
    &&& path_begins_with(path, "/@"@) ==> r == YoutubeRoute::Channel
    &&& !(path_begins_with(path, "/playlist"@) || path_begins_with(path, "/feeds/"@)
        || path_begins_with(path, "/channel/"@) || path_begins_with(path, "/user/"@)
        || path_begins_with(path, "/c/"@) || path_begins_with(path, "/@"@)) ==> r == YoutubeRoute::Unsupported
}

/// A YouTube URL is routed by the start of its path: every `/channel/`,
/// `/user/`, `/c/` or `/@` URL is a channel, every `/playlist` URL a playlist,
/// every `/feeds/` URL a feed, and nothing else is supported.
pub proof fn law_routes_follow_the_path(path: Seq<char>)
    ensures
        routed_by_prefix(path, spec_route(path)),
{
    reveal_strlit("/playlist");
    reveal_strlit("/feeds/");
    reveal_strlit("/channel/");
    reveal_strlit("/user/");
    reveal_strlit("/c/");
    reveal_strlit("/@");
    if path_begins_with(path, "/channel/"@) || path_begins_with(path, "/user/"@) || path_begins_with(path, "/c/"@)
        || path_begins_with(path, "/@"@) {
        assert(!path_begins_with(path, "/playlist"@)) by {
            if path_begins_with(path, "/playlist"@) {
                assert(path[1] == "/playlist"@[1]);
            }
        }
        assert(!path_begins_with(path, "/feeds/"@)) by {
            if path_begins_with(path, "/feeds/"@) {
                assert(path[1] == "/feeds/"@[1]);
            }
        }
    }
    if path_begins_with(path, "/playlist"@) {
        assert(!path_begins_with(path, "/feeds/"@)) by {
            if path_begins_with(path, "/feeds/"@) {
                assert(path[1] == "/feeds/"@[1]);
            }
        }
    }
}

/// What a YouTube URL leads to, by its path (`Unsupported` when it has none).
pub fn youtube_route(url: &str) -> (r: YoutubeRoute)
    ensures
        r == match url_path(url@) {
            Some(p) => spec_route(p),
            None => YoutubeRoute::Unsupported,
        },
        url_path(url@) matches Some(p) ==> routed_by_prefix(p, r),
        url_path(url@) is None ==> r == YoutubeRoute::Unsupported,
{
    proof {
        if let Some(p) = url_path(url@) {
            law_routes_follow_the_path(p);
        }
    }
    let path = match path_of(url) {
        Some(p) => p,
        None => return YoutubeRoute::Unsupported,
    };
    let p = path.as_str();
    if starts_with(p, "/playlist") {
        YoutubeRoute::Playlist
    } else if starts_with(p, "/feeds/") {
        YoutubeRoute::Feed
    } else if starts_with(p, "/channel/") || starts_with(p, "/user/") || starts_with(p, "/c/")
        || starts_with(p, "/@") {
        YoutubeRoute::Channel
    } else {
        YoutubeRoute::Unsupported
    }
}

/// What a YouTube URL leads to, by its path (`Unsupported` when it has none).
pub open spec fn route_of(url: Seq<char>) -> YoutubeRoute {
    match url_path(url) {
        Some(p) => spec_route(p),
        None => YoutubeRoute::Unsupported,
    }
}

/// Where the feed of a YouTube URL comes from.
#[derive(Debug)]
pub enum YoutubeSource {
    /// The API, for the playlist with this id.
    ApiPlaylist(String),
    /// The API, for the channel, once its id is looked up.
    ApiChannel,
    /// The Atom feed at this address.
    AtomFeed(String),
    /// The Atom feed of the channel, once its id is looked up.
    ChannelAtomFeed,
    /// A playlist URL that names no playlist.
    NoPlaylistId,
    /// A URL the service cannot make a feed of.
    Unsupported,
}

/// Where the feed of a YouTube URL comes from, with an API key or without one.
/// With a key: the API, for a playlist or a channel (a feed URL is not
/// supported). Without: the Atom feed of the playlist, the feed URL itself, a
/// channel URL that is already a videos feed, or else the channel's feed.
pub fn youtube_source(url: &str, has_api_key: bool) -> (r: YoutubeSource)
    ensures
        route_of(url@) == YoutubeRoute::Playlist && has_api_key ==> match spec_query_value(url@, "list"@) {
            Some(id) => r matches YoutubeSource::ApiPlaylist(x) && x@ == id,
            None => r is NoPlaylistId,
        },
        route_of(url@) == YoutubeRoute::Playlist && !has_api_key ==> match spec_query_value(url@, "list"@) {
            Some(id) => match spec_videos_feed("playlist_id"@, id) {
                Some(f) => r matches YoutubeSource::AtomFeed(x) && x@ == f,
                None => r is NoPlaylistId,
            },
            None => r is NoPlaylistId,
        },
        route_of(url@) == YoutubeRoute::Feed ==> if has_api_key {
            r is Unsupported
        } else {
            r matches YoutubeSource::AtomFeed(x) && x@ == url@
        },
        route_of(url@) == YoutubeRoute::Channel ==> if has_api_key {
            r is ApiChannel
        } else if is_videos_feed(url@) {
            r matches YoutubeSource::AtomFeed(x) && x@ == url@
        } else {
            r is ChannelAtomFeed
        },
        route_of(url@) == YoutubeRoute::Unsupported ==> r is Unsupported,
{
    match youtube_route(url) {
        YoutubeRoute::Playlist => if has_api_key {
            match playlist_id(url) {
                Some(id) => YoutubeSource::ApiPlaylist(id),
                None => YoutubeSource::NoPlaylistId,
            }
        } else {
            match feed_url_for_yt_playlist(url) {
                Some(f) => YoutubeSource::AtomFeed(f),
                None => YoutubeSource::NoPlaylistId,
            }
        },
        YoutubeRoute::Feed => if has_api_key {
            YoutubeSource::Unsupported
        } else {
            YoutubeSource::AtomFeed(url.to_string())
        },
        YoutubeRoute::Channel => if has_api_key {
            YoutubeSource::ApiChannel
        } else if already_videos_feed(url) {
            YoutubeSource::AtomFeed(url.to_string())
        } else {
            YoutubeSource::ChannelAtomFeed
        },
        YoutubeRoute::Unsupported => YoutubeSource::Unsupported,
    }
}

/// The id of the playlist a URL names: the value of its `list` query pair.
pub fn playlist_id(url: &str) -> (r: Option<String>)
    ensures
        opt_view(r) == spec_query_value(url@, "list"@),
{
    query_value(url, "list")
}

/// The YouTube feed of the videos of a channel or playlist: `key` is
/// `channel_id` or `playlist_id`.
pub open spec fn spec_videos_feed(key: Seq<char>, id: Seq<char>) -> Option<Seq<char>> {
    url_appended("https://www.youtube.com/feeds/videos.xml"@, key, id)
}

/// The YouTube feed of a playlist's videos.
pub fn playlist_feed_url(id: &str) -> (r: Option<String>)
    ensures
        opt_view(r) == spec_videos_feed("playlist_id"@, id@),
{
    append_query_pair("https://www.youtube.com/feeds/videos.xml", "playlist_id", id)
}

/// The YouTube feed of a channel's videos.
pub fn channel_feed_url(id: &str) -> (r: Option<String>)
    ensures
        opt_view(r) == spec_videos_feed("channel_id"@, id@),
{
    append_query_pair("https://www.youtube.com/feeds/videos.xml", "channel_id", id)
}

/// The feed of the playlist a URL names (`None`: the URL names none).
pub fn feed_url_for_yt_playlist(url: &str) -> (r: Option<String>)
    ensures
        opt_view(r) == match spec_query_value(url@, "list"@) {
            Some(id) => spec_videos_feed("playlist_id"@, id),
            None => None,
        },
{
    match playlist_id(url) {
        Some(id) => playlist_feed_url(id.as_str()),
        None => None,
    }
}

/// Whether a URL is a YouTube feed already: it holds `feeds/videos.xml`.
pub open spec fn is_videos_feed(url: Seq<char>) -> bool {
    exists|i: int| 0 <= i && i + 16 <= url.len() && #[trigger] url.subrange(i, i + 16) == "feeds/videos.xml"@
}

/// Whether a URL is a YouTube feed already.
pub fn already_videos_feed(url: &str) -> (b: bool)
    ensures
        b == is_videos_feed(url@),
{
    proof {
        reveal_strlit("feeds/videos.xml");
    }
    let v = to_chars(url);
    let n = v.len();
    if n < 16 {
        return false;
    }
    let mut i: usize = 0;
    while i <= n - 16
        invariant
            n == v@.len() == url@.len(),
            v@ == url@,
            n >= 16,
            i <= n - 15,
            forall|k: int| 0 <= k < i ==> #[trigger] url@.subrange(k, k + 16) != "feeds/videos.xml"@,
        decreases n - i,
    {
        proof {
            reveal_strlit("feeds/videos.xml");
        }
        if crate::text::starts_with_at(v.as_slice(), i, n, "feeds/videos.xml") {
            assert(url@.subrange(i as int, i + 16) == "feeds/videos.xml"@);
            return true;
        }
        i = i + 1;
    }
    false
}

/// The id of a channel from the URL that names it by id (`.../channel/<id>`):
/// the last segment of its path.
pub fn channel_id_of(channel_url: &str) -> (r: Option<String>)
    ensures
        opt_view(r) == url_last_segment(channel_url@),
{
    last_path_segment(channel_url)
}

/// The arguments of `yt-dlp` that print the URL of a channel by id:
/// the extra arguments of the settings first, then the URL.
pub open spec fn spec_channel_lookup_args(global: Seq<Seq<char>>, url: Seq<char>) -> Seq<Seq<char>> {
    global + seq!["--playlist-items"@, "0"@, "-O"@, "playlist:channel_url"@, url]
}

/// The arguments of `yt-dlp` that print the length of a video.
pub open spec fn spec_duration_args(global: Seq<Seq<char>>, url: Seq<char>) -> Seq<Seq<char>> {
    global + seq!["--get-duration"@, url]
}

/// The arguments of `yt-dlp` that print the URL of a video's audio stream:
/// the extra arguments of all `yt-dlp` runs, the format choice, the
/// extra arguments for YouTube, then the URL.
pub open spec fn spec_stream_url_args(global: Seq<Seq<char>>, youtube: Seq<Seq<char>>, url: Seq<char>) -> Seq<Seq<char>> {
    global + seq!["-f"@, "bestaudio"@, "--get-url"@] + youtube + seq![url]
}

fn push_all(out: &mut Vec<String>, more: &Vec<String>)
    ensures
        strings_view(final(out)@) == strings_view(old(out)@) + strings_view(more@),
{
    let mut i: usize = 0;
    while i < more.len()
        invariant
            i <= more@.len(),
            strings_view(out@) == strings_view(old(out)@) + strings_view(more@.take(i as int)),
        decreases more@.len() - i,
    {
        let ghost before = out@;
        out.push(more[i].clone());
        proof {
            assert(strings_view(out@) =~= strings_view(before).push(more@[i as int]@));
            assert(more@.take(i + 1) =~= more@.take(i as int).push(more@[i as int]));
            assert(strings_view(more@.take(i + 1)) =~= strings_view(more@.take(i as int)).push(more@[i as int]@));
        }
        i = i + 1;
    }
    assert(more@.take(i as int) =~= more@);
}

/// The arguments of `yt-dlp` that print the URL of a channel by id.
pub fn channel_lookup_args(global: &Vec<String>, url: &str) -> (r: Vec<String>)
    ensures
        strings_view(r@) == spec_channel_lookup_args(strings_view(global@), url@),
{
    let mut r: Vec<String> = Vec::new();
    push_all(&mut r, global);
    let tail = vec![
        String::from_str("--playlist-items"),
        String::from_str("0"),
        String::from_str("-O"),
        String::from_str("playlist:channel_url"),
        String::from_str(url),
    ];
    push_all(&mut r, &tail);
    assert(strings_view(r@) =~= spec_channel_lookup_args(strings_view(global@), url@));
    r
}

/// The arguments of `yt-dlp` that print the length of a video.
pub fn duration_args(global: &Vec<String>, url: &str) -> (r: Vec<String>)
    ensures
        strings_view(r@) == spec_duration_args(strings_view(global@), url@),
{
    let mut r: Vec<String> = Vec::new();
    push_all(&mut r, global);
    let tail = vec![String::from_str("--get-duration"), String::from_str(url)];
    push_all(&mut r, &tail);
    assert(strings_view(r@) =~= spec_duration_args(strings_view(global@), url@));
    r
}

/// The arguments of `yt-dlp` that print the URL of a video's audio stream.
pub fn stream_url_args(global: &Vec<String>, youtube: &Vec<String>, url: &str) -> (r: Vec<String>)
    ensures
        strings_view(r@) == spec_stream_url_args(strings_view(global@), strings_view(youtube@), url@),
{
    let mut r: Vec<String> = Vec::new();
    push_all(&mut r, global);
    let fmt = vec![String::from_str("-f"), String::from_str("bestaudio"), String::from_str("--get-url")];
    push_all(&mut r, &fmt);
    push_all(&mut r, youtube);
    let tail = vec![String::from_str(url)];
    push_all(&mut r, &tail);
    assert(strings_view(r@) =~= spec_stream_url_args(strings_view(global@), strings_view(youtube@), url@));
    r
}

/// The URL that `yt-dlp` printed: its output, trimmed, parsed as a URL.
pub fn url_from_output(stdout: &str) -> (r: Option<String>)
    ensures
        opt_view(r) == url_parsed(trim(stdout@)),
{
    let t = trim_string(stdout);
    parse_url(t.as_str())
}

/// Whether a video of length `d` (when known) is too short to keep.
pub open spec fn too_short(d: Option<u64>, min_seconds: u64) -> bool {
    match d {
        Some(x) => min_seconds > 0 && x < min_seconds,
        None => false,
    }
}

/// The item of an entry of a YouTube feed whose video lasts `d` seconds (when
/// known): its title, the description of its media, its first link, its id
/// as guid, its length and its thumbnail.
pub open spec fn spec_atom_item(e: EntryView, d: Option<u64>) -> ItemView {
    ItemView {
        title: e.title,
        link: if e.links.len() > 0 {
            Some(e.links[0])
        } else {
            None
        },
        description: if e.media.len() > 0 {
            e.media[0].description
        } else {
            None
        },
        author: None,
        pub_date: None,
        guid: Some((e.id, true)),
        enclosure: None,
        itunes: Some((
            match d {
                Some(x) => Some(hms(x as nat)),
                None => None,
            },
            None,
            if e.media.len() > 0 {
                e.media[0].thumbnail
            } else {
                None
            },
        )),
    }
}

/// The items of the entries of a YouTube feed, but for the videos too short
/// to keep; `ds[i]` is the length of the video of entry `i`.
pub open spec fn spec_atom_items(es: Seq<EntryView>, ds: Seq<Option<u64>>, min_seconds: u64) -> Seq<ItemView>
    decreases es.len(),
{
    if es.len() == 0 || ds.len() != es.len() {
        Seq::empty()
    } else {
        let rest = spec_atom_items(es.drop_last(), ds.drop_last(), min_seconds);
        if too_short(ds.last(), min_seconds) {
            rest
        } else {
            rest.push(spec_atom_item(es.last(), ds.last()))
        }
    }
}

/// The item of entry `i`, unless its video is too short to keep.
pub open spec fn kept_atom_item(es: Seq<EntryView>, ds: Seq<Option<u64>>, min_seconds: u64, i: int) -> Option<ItemView> {
    if too_short(ds[i], min_seconds) {
        None
    } else {
        Some(spec_atom_item(es[i], ds[i]))
    }
}

proof fn lemma_atom_items_prefix(es: Seq<EntryView>, ds: Seq<Option<u64>>, min_seconds: u64, k: int)
    requires
        ds.len() == es.len(),
        0 <= k <= es.len(),
    ensures
        spec_atom_items(es.take(k), ds.take(k), min_seconds)
            == Seq::new(k as nat, |i: int| i).filter_map(|i: int| kept_atom_item(es, ds, min_seconds, i)),
    decreases k,
{
    let f = |i: int| kept_atom_item(es, ds, min_seconds, i);
    if k == 0 {
        assert(Seq::new(0, |i: int| i) =~= Seq::<int>::empty());
        assert(es.take(0) =~= Seq::<EntryView>::empty());
    } else {
        lemma_atom_items_prefix(es, ds, min_seconds, k - 1);
        let idx = Seq::new(k as nat, |i: int| i);
        assert(idx.drop_last() =~= Seq::new((k - 1) as nat, |i: int| i));
        assert(es.take(k).drop_last() =~= es.take(k - 1));
        assert(ds.take(k).drop_last() =~= ds.take(k - 1));
        assert(idx.last() == k - 1);
        assert(es.take(k).last() == es[k - 1]);
        assert(ds.take(k).last() == ds[k - 1]);
        assert(idx.filter_map(f) == (match f(idx.last()) {
            Some(x) => idx.drop_last().filter_map(f) + seq![x],
            None => idx.drop_last().filter_map(f),
        }));
        let rest = spec_atom_items(es.take(k - 1), ds.take(k - 1), min_seconds);
        if !too_short(ds[k - 1], min_seconds) {
            assert(rest.push(spec_atom_item(es[k - 1], ds[k - 1])) =~= rest + seq![spec_atom_item(es[k - 1], ds[k - 1])]);
        }
    }
}

/// The items of a YouTube feed are those of its entries in order, less exactly
/// the entries whose video is known to be shorter than `min_seconds` (when
/// that is above 0); each kept item has the entry's id as guid and, when the
/// video's length is known, that length as `hh:mm:ss`.
pub proof fn law_atom_entries_kept(es: Seq<EntryView>, ds: Seq<Option<u64>>, min_seconds: u64)
    requires
        ds.len() == es.len(),
    ensures
        spec_atom_items(es, ds, min_seconds)
            == Seq::new(es.len(), |i: int| i).filter_map(|i: int| kept_atom_item(es, ds, min_seconds, i)),
        forall|i: int| 0 <= i < es.len() && !too_short(ds[i], min_seconds) ==> {
            let item = #[trigger] spec_atom_item(es[i], ds[i]);
            &&& item.guid == Some((es[i].id, true))
            &&& item.itunes matches Some((d, _, _)) && d == (match ds[i] {
                Some(x) => Some(hms(x as nat)),
                None => None,
            })
        },
{
    lemma_atom_items_prefix(es, ds, min_seconds, es.len() as int);
    assert(es.take(es.len() as int) =~= es);
    assert(ds.take(es.len() as int) =~= ds);
}

/// The podcast feed of a YouTube feed: its title, description, language and
/// first link, its icon as image, and the items of its entries.
pub open spec fn spec_atom_feed(feed: SourceFeed, ds: Seq<Option<u64>>, min_seconds: u64) -> ChannelView {
    let icon = match feed.icon {
        Some(i) => Some(i.uri@),
        None => None,
    };
    podcast_channel(
        or_empty(opt_view(feed.title)),
        or_empty(opt_view(feed.first_link)),
        or_empty(opt_view(feed.description)),
        opt_view(feed.language),
        Some((or_empty(icon), Seq::<char>::empty(), None)),
        Some((icon, None, None, None)),
        spec_atom_items(feed.entries@.map_values(|e: SourceEntry| e@), ds, min_seconds),
    )
}

fn atom_item(e: &SourceEntry, d: Option<u64>) -> (r: FeedItem)
    ensures
        r@ == spec_atom_item(e@, d),
{
    let mut item = empty_item();
    item.title = clone_opt(&e.title);
    item.link = if e.links.len() > 0 {
        Some(e.links[0].clone())
    } else {
        None
    };
    item.description = if e.media.len() > 0 {
        clone_opt(&e.media[0].description)
    } else {
        None
    };
    item.guid = Some(FeedGuid { value: e.id.clone(), permalink: true });
    let duration = match d {
        Some(x) => Some(format_hms(x)),
        None => None,
    };
    let image = if e.media.len() > 0 {
        clone_opt(&e.media[0].thumbnail)
    } else {
        None
    };
    item.itunes = Some(ItunesItem { duration, summary: None, image });
    proof {
        if e.media@.len() > 0 {
            assert(e@.media[0] == e.media@[0]@);
        }
    }
    item
}

/// The podcast feed of a YouTube feed; `durations[i]` is the length of the
/// video of entry `i` (when known), and videos shorter than `min_seconds`
/// (when above 0) are left out.
pub fn convert_atom_to_rss(feed: &SourceFeed, durations: &Vec<Option<u64>>, min_seconds: u64) -> (r: FeedChannel)
    requires
        durations@.len() == feed.entries@.len(),
    ensures
        r@ == spec_atom_feed(*feed, durations@, min_seconds),
{
    let mut c = build_default_rss_structure();
    c.description = match &feed.description {
        Some(d) => d.clone(),
        None => String::new(),
    };
    c.title = match &feed.title {
        Some(t) => t.clone(),
        None => String::new(),
    };
    c.language = clone_opt(&feed.language);
    let icon: Option<String> = match &feed.icon {
        Some(i) => Some(i.uri.clone()),
        None => None,
    };
    c.image = Some(
        ChannelImage {
            url: match &icon {
                Some(u) => u.clone(),
                None => String::new(),
            },
            link: String::new(),
            description: None,
        },
    );
    c.link = match &feed.first_link {
        Some(l) => l.clone(),
        None => String::new(),
    };
    c.itunes = Some(ItunesChannel { image: icon, author: None, explicit: None, block: None });
    let ghost es = feed.entries@.map_values(|e: SourceEntry| e@);
    let mut items: Vec<FeedItem> = Vec::new();
    let mut i: usize = 0;
    while i < feed.entries.len()
        invariant
            i <= feed.entries@.len() == durations@.len(),
            es == feed.entries@.map_values(|e: SourceEntry| e@),
            items_view(items@) == spec_atom_items(es.take(i as int), durations@.take(i as int), min_seconds),
        decreases feed.entries@.len() - i,
    {
        let ghost before = items@;
        proof {
            assert(es.take(i + 1).drop_last() =~= es.take(i as int));
            assert(durations@.take(i + 1).drop_last() =~= durations@.take(i as int));
            assert(es.take(i + 1).last() == feed.entries@[i as int]@);
        }
        let d = durations[i];
        let short = match d {
            Some(x) => min_seconds > 0 && x < min_seconds,
            None => false,
        };
        if !short {
            let item = atom_item(&feed.entries[i], d);
            items.push(item);
            proof {
                assert(items_view(items@) =~= items_view(before).push(item@));
            }
        }
        i = i + 1;
    }
    proof {
        assert(es.take(i as int) =~= es);
        assert(durations@.take(i as int) =~= durations@);
    }
    c.items = items;
    c
}

/// The thumbnails of a YouTube channel, playlist or video, from the largest:
/// for each size, whether there is one and its address.
pub struct YtThumbnails {
    pub maxres: Option<Option<String>>,
    pub high: Option<Option<String>>,
    pub medium: Option<Option<String>>,
    pub standard: Option<Option<String>>,
    pub default_size: Option<Option<String>>,
}

/// The view of an optional thumbnail.
pub open spec fn thumb_view(t: Option<Option<String>>) -> Option<Option<Seq<char>>> {
    match t {
        Some(u) => Some(opt_view(u)),
        None => None,
    }
}

/// The address of the largest thumbnail there is (`None` also when it has no
/// address).
pub open spec fn best_thumbnail(t: Option<YtThumbnails>) -> Option<Seq<char>> {
    match t {
        None => None,
        Some(t) => match thumb_view(t.maxres) {
            Some(u) => u,
            None => match thumb_view(t.high) {
                Some(u) => u,
                None => match thumb_view(t.medium) {
                    Some(u) => u,
                    None => match thumb_view(t.standard) {
                        Some(u) => u,
                        None => match thumb_view(t.default_size) {
                            Some(u) => u,
                            None => None,
                        },
                    },
                },
            },
        },
    }
}

/// The address of the largest thumbnail there is.
pub fn get_thumb(t: &Option<YtThumbnails>) -> (r: Option<String>)
    ensures
        opt_view(r) == best_thumbnail(*t),
{
    match t {
        None => None,
        Some(t) => match &t.maxres {
            Some(u) => clone_opt(u),
            None => match &t.high {
                Some(u) => clone_opt(u),
                None => match &t.medium {
                    Some(u) => clone_opt(u),
                    None => match &t.standard {
                        Some(u) => clone_opt(u),
                        None => match &t.default_size {
                            Some(u) => clone_opt(u),
                            None => None,
                        },
                    },
                },
            },
        },
    }
}

/// What the YouTube API tells of a channel or playlist.
pub struct YtSnippet {
    pub title: Option<String>,
    pub description: Option<String>,
    pub default_language: Option<String>,
    pub thumbnails: Option<YtThumbnails>,
}

/// The podcast feed of a YouTube channel (without items): where the API told
/// of it, its description, title, language and thumbnail, and that it is not
/// explicit; its address by id.
pub open spec fn spec_channel_from_yt_channel(id: Option<Seq<char>>, snippet: Option<YtSnippet>) -> ChannelView {
    ChannelView {
        title: match snippet {
            Some(s) => or_empty(opt_view(s.title)),
            None => Seq::<char>::empty(),
        },
        link: "https://www.youtube.com/channel/"@ + or_empty(id),
        description: match snippet {
            Some(s) => or_empty(opt_view(s.description)),
            None => Seq::<char>::empty(),
        },
        language: match snippet {
            Some(s) => opt_view(s.default_language),
            None => None,
        },
        generator: None,
        image: None,
        itunes: match snippet {
            Some(s) => Some((best_thumbnail(s.thumbnails), None, Some("no"@), None)),
            None => Some((None, None, None, None)),
        },
        podcast_namespaces: false,
        items: Seq::empty(),
    }
}

/// The podcast feed of a YouTube playlist (without items): where the API told
/// of it, its description, title, language, address by id and thumbnail.
pub open spec fn spec_channel_from_playlist(id: Option<Seq<char>>, snippet: Option<YtSnippet>) -> ChannelView {
    ChannelView {
        title: match snippet {
            Some(s) => or_empty(opt_view(s.title)),
            None => Seq::<char>::empty(),
        },
        link: match snippet {
            Some(s) => "https://www.youtube.com/playlist?list="@ + or_empty(id),
            None => Seq::<char>::empty(),
        },
        description: match snippet {
            Some(s) => or_empty(opt_view(s.description)),
            None => Seq::<char>::empty(),
        },
        language: match snippet {
            Some(s) => opt_view(s.default_language),
            None => None,
        },
        generator: None,
        image: None,
        itunes: match snippet {
            Some(s) => Some((best_thumbnail(s.thumbnails), None, None, None)),
            None => Some((None, None, None, None)),
        },
        podcast_namespaces: false,
        items: Seq::empty(),
    }
}

fn string_or_empty(o: &Option<String>) -> (r: String)
    ensures
        r@ == or_empty(opt_view(*o)),
{
    match o {
        Some(s) => s.clone(),
        None => String::new(),
    }
}

/// The podcast feed of a YouTube channel, without items.
pub fn build_channel_from_yt_channel(id: &Option<String>, snippet: &Option<YtSnippet>) -> (r: FeedChannel)
    ensures
        r@ == spec_channel_from_yt_channel(opt_view(*id), *snippet),
{
    let mut c = crate::feed::empty_channel();
    match snippet {
        Some(s) => {
            c.description = string_or_empty(&s.description);
            c.title = string_or_empty(&s.title);
            c.language = clone_opt(&s.default_language);
            c.itunes = Some(ItunesChannel { image: get_thumb(&s.thumbnails), author: None, explicit: Some(String::from_str("no")), block: None });
            proof {
                reveal_strlit("no");
            }
        },
        None => {
            c.itunes = Some(ItunesChannel { image: None, author: None, explicit: None, block: None });
        },
    }
    let idv = string_or_empty(id);
    c.link = concat("https://www.youtube.com/channel/", idv.as_str());
    proof {
        assert(crate::feed::items_view(c.items@) =~= Seq::<ItemView>::empty());
    }
    c
}

/// The podcast feed of a YouTube playlist, without items.
pub fn build_channel_from_playlist(id: &Option<String>, snippet: &Option<YtSnippet>) -> (r: FeedChannel)
    ensures
        r@ == spec_channel_from_playlist(opt_view(*id), *snippet),
{
    let mut c = crate::feed::empty_channel();
    match snippet {
        Some(s) => {
            c.description = string_or_empty(&s.description);
            c.title = string_or_empty(&s.title);
            c.language = clone_opt(&s.default_language);
            let idv = string_or_empty(id);
            c.link = concat("https://www.youtube.com/playlist?list=", idv.as_str());
            c.itunes = Some(ItunesChannel { image: get_thumb(&s.thumbnails), author: None, explicit: None, block: None });
        },
        None => {
            c.itunes = Some(ItunesChannel { image: None, author: None, explicit: None, block: None });
        },
    }
    proof {
        assert(crate::feed::items_view(c.items@) =~= Seq::<ItemView>::empty());
    }
    c
}

/// The podcast feed made through the YouTube API: the channel every feed
/// starts from, with the description, title, language, link and iTunes part
/// of the channel or playlist, its thumbnail (or nothing) as image, and the
/// items.
pub open spec fn spec_api_feed(built: ChannelView, items: Seq<ItemView>) -> ChannelView {
    podcast_channel(
        built.title,
        built.link,
        built.description,
        built.language,
        Some((
            match built.itunes {
                Some(x) => or_empty(x.0),
                None => Seq::<char>::empty(),
            },
            Seq::<char>::empty(),
            None,
        )),
        built.itunes,
        items,
    )
}

/// The podcast feed made through the YouTube API from the feed of the channel
/// or playlist and the items of its videos.
pub fn api_feed(built: FeedChannel, items: Vec<FeedItem>) -> (r: FeedChannel)
    ensures
        r@ == spec_api_feed(built@, items_view(items@)),
{
    let mut c = build_default_rss_structure();
    let FeedChannel { title, link, description, language, generator: _, image: _, itunes, podcast_namespaces: _, items: _ } = built;
    let image_url = match &itunes {
        Some(x) => string_or_empty(&x.image),
        None => String::new(),
    };
    c.description = description;
    c.title = title;
    c.language = language;
    c.image = Some(ChannelImage { url: image_url, link: String::new(), description: None });
    c.itunes = itunes;
    c.link = link;
    c.items = items;
    c
}

/// What the YouTube API tells of a video of a playlist.
pub struct YtItemSnippet {
    pub title: Option<String>,
    pub description: Option<String>,
    /// The id of the video (none when the item is no video).
    pub video_id: Option<String>,
    /// When it was published, in RFC 3339.
    pub published_at: Option<String>,
    pub channel_title: Option<String>,
    pub thumbnails: Option<YtThumbnails>,
}

/// An item of a playlist.
pub struct YtPlaylistItem {
    pub snippet: Option<YtItemSnippet>,
}

/// The length of a video, as the hours, minutes and seconds of its ISO 8601
/// duration.
pub struct VideoLength {
    pub video_id: String,
    pub hours: i64,
    pub minutes: i64,
    pub seconds: i64,
}

/// Why the items of a playlist could not be built.
#[derive(Debug, PartialEq, Eq, Structural, Clone, Copy)]
pub enum PlaylistError {
    /// The length of a video does not fit in 64-bit seconds.
    LengthOverflow,
}

/// The length of the video `id`: the last one given for it.
pub open spec fn lookup_last(lengths: Seq<VideoLength>, id: Seq<char>) -> Option<(i64, i64, i64)>
    decreases lengths.len(),
{
    if lengths.len() == 0 {
        None
    } else if lengths.last().video_id@ == id {
        Some((lengths.last().hours, lengths.last().minutes, lengths.last().seconds))
    } else {
        lookup_last(lengths.drop_last(), id)
    }
}

/// The fields and total of a length fit in 64 bits, as do their magnitudes.
pub open spec fn length_fits(h: i64, m: i64, s: i64) -> bool {
    &&& i64::MIN <= h * 3600 <= i64::MAX
    &&& i64::MIN <= m * 60 <= i64::MAX
    &&& i64::MIN <= h * 3600 + m * 60 <= i64::MAX
    &&& i64::MIN <= h * 3600 + m * 60 + s <= i64::MAX
    &&& h != i64::MIN && m != i64::MIN && s != i64::MIN
}

/// The magnitude of an integer.
pub open spec fn magnitude(x: int) -> nat {
    if x < 0 {
        (-x) as nat
    } else {
        x as nat
    }
}

/// The date of an item of the API in RFC 2822 form, in UTC.
pub open spec fn api_pub_date(published_at: Option<Seq<char>>) -> Option<Seq<char>> {
    match published_at {
        Some(d) => utc_rfc2822_of(d),
        None => None,
    }
}

/// The item of a video of a playlist: left out (`Ok(None)`) when it is no
/// video, its address is no URL, its length is not known, or it is shorter
/// than `min_seconds` (when above 0). The item has the video's title and
/// description (empty when missing), its address as link and guid, its date,
/// its channel as author, its length and its largest thumbnail.
pub open spec fn spec_playlist_item(it: YtPlaylistItem, lengths: Seq<VideoLength>, min_seconds: u64) -> Result<Option<ItemView>, PlaylistError> {
    match it.snippet {
        None => Ok(None),
        Some(sn) => match sn.video_id {
            None => Ok(None),
            Some(id) => match url_parsed("https://www.youtube.com/watch?v="@ + id@) {
                None => Ok(None),
                Some(url) => match lookup_last(lengths, id@) {
                    None => Ok(None),
                    Some((h, m, s)) => if !length_fits(h, m, s) {
                        Err(PlaylistError::LengthOverflow)
                    } else {
                        let total = h * 3600 + m * 60 + s;
                        let secs: int = if total < 0 { 0 } else { total };
                        if min_seconds > 0 && secs < min_seconds {
                            Ok(None)
                        } else {
                            let description = or_empty(opt_view(sn.description));
                            Ok(Some(ItemView {
                                title: Some(or_empty(opt_view(sn.title))),
                                link: Some(url),
                                description: Some(description),
                                author: opt_view(sn.channel_title),
                                pub_date: api_pub_date(opt_view(sn.published_at)),
                                guid: Some((url, true)),
                                enclosure: None,
                                itunes: Some((
                                    Some(two_digits(magnitude(h as int)) + ":"@ + two_digits(magnitude(m as int)) + ":"@ + two_digits(magnitude(s as int))),
                                    Some(description),
                                    best_thumbnail(sn.thumbnails),
                                )),
                            }))
                        }
                    },
                },
            },
        },
    }
}

/// The items of the videos of a playlist, in order; the first error stops.
pub open spec fn spec_playlist_items(items: Seq<YtPlaylistItem>, lengths: Seq<VideoLength>, min_seconds: u64) -> Result<Seq<ItemView>, PlaylistError>
    decreases items.len(),
{
    if items.len() == 0 {
        Ok(Seq::empty())
    } else {
        match spec_playlist_items(items.drop_last(), lengths, min_seconds) {
            Err(e) => Err(e),
            Ok(rest) => match spec_playlist_item(items.last(), lengths, min_seconds) {
                Err(e) => Err(e),
                Ok(None) => Ok(rest),
                Ok(Some(x)) => Ok(rest.push(x)),
            },
        }
    }
}

fn find_length(lengths: &Vec<VideoLength>, id: &str) -> (r: Option<(i64, i64, i64)>)
    ensures
        r == lookup_last(lengths@, id@),
{
    let mut i = lengths.len();
    assert(lengths@.take(i as int) =~= lengths@);
    while i > 0
        invariant
            i <= lengths@.len(),
            lookup_last(lengths@, id@) == lookup_last(lengths@.take(i as int), id@),
        decreases i,
    {
        let ghost t = lengths@.take(i as int);
        assert(t.drop_last() =~= lengths@.take(i - 1));
        assert(t.last() == lengths@[i - 1]);
        if crate::text::str_eq(lengths[i - 1].video_id.as_str(), id) {
            return Some((lengths[i - 1].hours, lengths[i - 1].minutes, lengths[i - 1].seconds));
        }
        i = i - 1;
    }
    None
}

fn fits_checked(h: i64, m: i64, s: i64) -> (b: bool)
    ensures
        b == length_fits(h, m, s),
{
    if h == i64::MIN || m == i64::MIN || s == i64::MIN {
        return false;
    }
    let hh = h as i128 * 3600;
    let mm = m as i128 * 60;
    let hm = hh + mm;
    let t = hm + s as i128;
    let lo = i64::MIN as i128;
    let hi = i64::MAX as i128;
    lo <= hh && hh <= hi && lo <= mm && mm <= hi && lo <= hm && hm <= hi && lo <= t && t <= hi
}

fn abs_u64(x: i64) -> (r: u64)
    requires
        x != i64::MIN,
    ensures
        r == magnitude(x as int),
{
    if x < 0 {
        (-x) as u64
    } else {
        x as u64
    }
}

/// The item of a video of a playlist.
pub fn playlist_item(it: &YtPlaylistItem, lengths: &Vec<VideoLength>, min_seconds: u64) -> (r: Result<Option<FeedItem>, PlaylistError>)
    ensures
        match r {
            Ok(Some(x)) => spec_playlist_item(*it, lengths@, min_seconds) == Ok::<Option<ItemView>, PlaylistError>(Some(x@)),
            Ok(None) => spec_playlist_item(*it, lengths@, min_seconds) == Ok::<Option<ItemView>, PlaylistError>(None),
            Err(e) => spec_playlist_item(*it, lengths@, min_seconds) == Err::<Option<ItemView>, PlaylistError>(e),
        },
{
    let sn = match &it.snippet {
        Some(sn) => sn,
        None => return Ok(None),
    };
    let id = match &sn.video_id {
        Some(id) => id,
        None => return Ok(None),
    };
    let watch = concat("https://www.youtube.com/watch?v=", id.as_str());
    let url = match parse_url(watch.as_str()) {
        Some(u) => u,
        None => return Ok(None),
    };
    let (h, m, s) = match find_length(lengths, id.as_str()) {
        Some(x) => x,
        None => return Ok(None),
    };
    if !fits_checked(h, m, s) {
        return Err(PlaylistError::LengthOverflow);
    }
    let total = h * 3600 + m * 60 + s;
    let secs: u64 = if total < 0 { 0 } else { total as u64 };
    if min_seconds > 0 && secs < min_seconds {
        return Ok(None);
    }
    let description = string_or_empty(&sn.description);
    let mut d: Vec<char> = Vec::new();
    push_two_digits(&mut d, abs_u64(h));
    d.push(':');
    push_two_digits(&mut d, abs_u64(m));
    d.push(':');
    push_two_digits(&mut d, abs_u64(s));
    proof {
        reveal_strlit(":");
        assert(d@ =~= two_digits(magnitude(h as int)) + ":"@ + two_digits(magnitude(m as int)) + ":"@ + two_digits(magnitude(s as int)));
    }
    let pub_date = match &sn.published_at {
        Some(p) => rfc3339_to_utc_rfc2822(p.as_str()),
        None => None,
    };
    let mut item = empty_item();
    item.title = Some(string_or_empty(&sn.title));
    item.description = Some(description.clone());
    item.link = Some(url.clone());
    item.guid = Some(FeedGuid { value: url, permalink: true });
    item.pub_date = pub_date;
    item.author = clone_opt(&sn.channel_title);
    item.itunes = Some(ItunesItem { duration: Some(from_chars(d.as_slice())), summary: Some(description), image: get_thumb(&sn.thumbnails) });
    Ok(Some(item))
}

/// The items of the videos of a playlist (see `spec_playlist_item`); `lengths`
/// are the lengths the API gave, by video id.
pub fn build_channel_items_from_playlist(items: &Vec<YtPlaylistItem>, lengths: &Vec<VideoLength>, min_seconds: u64) -> (r: Result<Vec<FeedItem>, PlaylistError>)
    ensures
        match r {
            Ok(v) => spec_playlist_items(items@, lengths@, min_seconds) == Ok::<Seq<ItemView>, PlaylistError>(items_view(v@)),
            Err(e) => spec_playlist_items(items@, lengths@, min_seconds) == Err::<Seq<ItemView>, PlaylistError>(e),
        },
{
    let mut out: Vec<FeedItem> = Vec::new();
    let mut i: usize = 0;
    assert(items@.take(0) =~= Seq::<YtPlaylistItem>::empty());
    assert(items_view(out@) =~= Seq::<ItemView>::empty());
    while i < items.len()
        invariant
            i <= items@.len(),
            spec_playlist_items(items@.take(i as int), lengths@, min_seconds) == Ok::<Seq<ItemView>, PlaylistError>(items_view(out@)),
        decreases items@.len() - i,
    {
        let ghost before = out@;
        proof {
            assert(items@.take(i + 1).drop_last() =~= items@.take(i as int));
            assert(items@.take(i + 1).last() == items@[i as int]);
        }
        match playlist_item(&items[i], lengths, min_seconds) {
            Err(e) => {
                proof {
                    lemma_playlist_items_err(items@, lengths@, min_seconds, (i + 1) as int, e);
                }
                return Err(e);
            },
            Ok(None) => {},
            Ok(Some(x)) => {
                out.push(x);
                proof {
                    assert(items_view(out@) =~= items_view(before).push(x@));
                }
            },
        }
        i = i + 1;
    }
    assert(items@.take(i as int) =~= items@);
    Ok(out)
}

/// An error for a prefix of the playlist is the error for the whole.
proof fn lemma_playlist_items_err(items: Seq<YtPlaylistItem>, lengths: Seq<VideoLength>, min_seconds: u64, k: int, e: PlaylistError)
    requires
        0 <= k <= items.len(),
        spec_playlist_items(items.take(k), lengths, min_seconds) == Err::<Seq<ItemView>, PlaylistError>(e),
    ensures
        spec_playlist_items(items, lengths, min_seconds) == Err::<Seq<ItemView>, PlaylistError>(e),
    decreases items.len() - k,
{
    if k < items.len() {
        assert(items.take(k + 1).drop_last() =~= items.take(k));
        lemma_playlist_items_err(items, lengths, min_seconds, k + 1, e);
    } else {
        assert(items.take(k) =~= items);
    }
}

/// The hours, minutes and seconds of the ISO 8601 duration `s` (each cut to
/// a whole number), `None` when `s` is no such duration.
pub uninterp spec fn iso8601_parts_of(s: Seq<char>) -> Option<(i64, i64, i64)>;

/// Parses an ISO 8601 duration with `iso8601_duration::Duration::parse` and
/// gives its `hour`, `minute` and `second` fields converted to whole numbers
/// with `as i64`. Trusted: the result is named, not stated.
#[verifier::external_body]
pub(crate) fn iso8601_parts(s: &str) -> (r: Option<(i64, i64, i64)>)
    ensures
        r == iso8601_parts_of(s@),
{
    match iso8601_duration::Duration::parse(s) {
        Ok(d) => Some((d.hour as i64, d.minute as i64, d.second as i64)),
        Err(_) => None,
    }
}

/// Why the lengths of videos could not be read.
#[derive(Debug, PartialEq, Eq, Structural, Clone, Copy)]
pub enum LengthError {
    /// A duration the API gave is no ISO 8601 duration.
    Unparsable,
}

/// The lengths of the videos the API told of, as (id, ISO 8601 duration);
/// those without either are skipped.
pub open spec fn spec_video_lengths(infos: Seq<(Option<Seq<char>>, Option<Seq<char>>)>) -> Result<Seq<(Seq<char>, (i64, i64, i64))>, LengthError>
    decreases infos.len(),
{
    if infos.len() == 0 {
        Ok(Seq::empty())
    } else {
        match spec_video_lengths(infos.drop_last()) {
            Err(e) => Err(e),
            Ok(rest) => match infos.last() {
                (Some(id), Some(d)) => match iso8601_parts_of(d) {
                    None => Err(LengthError::Unparsable),
                    Some(p) => Ok(rest.push((id, p))),
                },
                _ => Ok(rest),
            },
        }
    }
}

/// The views of a list of lengths.
pub open spec fn lengths_view(v: Seq<VideoLength>) -> Seq<(Seq<char>, (i64, i64, i64))> {
    v.map_values(|l: VideoLength| (l.video_id@, (l.hours, l.minutes, l.seconds)))
}

/// Reads the lengths of the videos the API told of.
pub fn video_lengths(infos: &Vec<(Option<String>, Option<String>)>) -> (r: Result<Vec<VideoLength>, LengthError>)
    ensures
        match r {
            Ok(v) => spec_video_lengths(crate::source::contents_view(infos@)) == Ok::<Seq<(Seq<char>, (i64, i64, i64))>, LengthError>(lengths_view(v@)),
            Err(e) => spec_video_lengths(crate::source::contents_view(infos@)) == Err::<Seq<(Seq<char>, (i64, i64, i64))>, LengthError>(e),
        },
{
    let ghost all = crate::source::contents_view(infos@);
    let mut out: Vec<VideoLength> = Vec::new();
    let mut i: usize = 0;
    assert(all.take(0) =~= Seq::<(Option<Seq<char>>, Option<Seq<char>>)>::empty());
    assert(lengths_view(out@) =~= Seq::<(Seq<char>, (i64, i64, i64))>::empty());
    while i < infos.len()
        invariant
            i <= infos@.len(),
            all == crate::source::contents_view(infos@),
            spec_video_lengths(all.take(i as int)) == Ok::<Seq<(Seq<char>, (i64, i64, i64))>, LengthError>(lengths_view(out@)),
        decreases infos@.len() - i,
    {
        let ghost before = out@;
        proof {
            assert(all.take(i + 1).drop_last() =~= all.take(i as int));
            assert(all.take(i + 1).last() == (opt_view(infos@[i as int].0), opt_view(infos@[i as int].1)));
        }
        match (&infos[i].0, &infos[i].1) {
            (Some(id), Some(d)) => match iso8601_parts(d.as_str()) {
                None => {
                    proof {
                        lemma_lengths_err(all, (i + 1) as int);
                    }
                    return Err(LengthError::Unparsable);
                },
                Some((h, m, s)) => {
                    out.push(VideoLength { video_id: id.clone(), hours: h, minutes: m, seconds: s });
                    proof {
                        assert(lengths_view(out@) =~= lengths_view(before).push((id@, (h, m, s))));
                    }
                },
            },
            _ => {},
        }
        i = i + 1;
    }
    assert(all.take(i as int) =~= all);
    Ok(out)
}

proof fn lemma_lengths_err(all: Seq<(Option<Seq<char>>, Option<Seq<char>>)>, k: int)
    requires
        0 <= k <= all.len(),
        spec_video_lengths(all.take(k)) == Err::<Seq<(Seq<char>, (i64, i64, i64))>, LengthError>(LengthError::Unparsable),
    ensures
        spec_video_lengths(all) == Err::<Seq<(Seq<char>, (i64, i64, i64))>, LengthError>(LengthError::Unparsable),
    decreases all.len() - k,
{
    if k < all.len() {
        assert(all.take(k + 1).drop_last() =~= all.take(k));
        lemma_lengths_err(all, k + 1);
    } else {
        assert(all.take(k) =~= all);
    }
}

/// The most videos one API request asks for.
pub const API_PAGE_SIZE: usize = 50;

/// The ids among `ids`, in order.
pub open spec fn present(ids: Seq<Option<Seq<char>>>) -> Seq<Seq<char>>
    decreases ids.len(),
{
    if ids.len() == 0 {
        Seq::empty()
    } else {
        let rest = present(ids.drop_last());
        match ids.last() {
            Some(id) => rest.push(id),
            None => rest,
        }
    }
}

/// The batches of video ids for the requests of lengths: the items taken 50
/// at a time, each batch with the ids of its items that have one.
pub open spec fn spec_batches(ids: Seq<Option<Seq<char>>>) -> Seq<Seq<Seq<char>>>
    decreases ids.len(),
{
    if ids.len() == 0 {
        Seq::empty()
    } else if ids.len() <= API_PAGE_SIZE {
        seq![present(ids)]
    } else {
        seq![present(ids.take(API_PAGE_SIZE as int))] + spec_batches(ids.skip(API_PAGE_SIZE as int))
    }
}

/// The views of optional strings.
pub open spec fn opt_strings_view(v: Seq<Option<String>>) -> Seq<Option<Seq<char>>> {
    v.map_values(|o: Option<String>| opt_view(o))
}

fn present_ids(ids: &Vec<Option<String>>, lo: usize, hi: usize) -> (r: Vec<String>)
    requires
        lo <= hi <= ids@.len(),
    ensures
        strings_view(r@) == present(opt_strings_view(ids@).subrange(lo as int, hi as int)),
{
    let ghost all = opt_strings_view(ids@);
    let mut r: Vec<String> = Vec::new();
    let mut i = lo;
    assert(all.subrange(lo as int, lo as int) =~= Seq::<Option<Seq<char>>>::empty());
    while i < hi
        invariant
            lo <= i <= hi <= ids@.len(),
            all == opt_strings_view(ids@),
            strings_view(r@) == present(all.subrange(lo as int, i as int)),
        decreases hi - i,
    {
        let ghost before = r@;
        proof {
            assert(all.subrange(lo as int, i + 1).drop_last() =~= all.subrange(lo as int, i as int));
            assert(all.subrange(lo as int, i + 1).last() == opt_view(ids@[i as int]));
        }
        match &ids[i] {
            Some(id) => {
                r.push(id.clone());
                proof {
                    assert(strings_view(r@) =~= strings_view(before).push(id@));
                }
            },
            None => {},
        }
        i = i + 1;
    }
    r
}

/// The batches of video ids for the requests of lengths: `ids[i]` is the video
/// id of playlist item `i`, when it has one.
pub fn duration_batches(ids: &Vec<Option<String>>) -> (r: Vec<Vec<String>>)
    ensures
        r@.map_values(|b: Vec<String>| strings_view(b@)) == spec_batches(opt_strings_view(ids@)),
{
    let ghost all = opt_strings_view(ids@);
    let n = ids.len();
    let mut r: Vec<Vec<String>> = Vec::new();
    let mut lo: usize = 0;
    assert(all.skip(0) =~= all);
    while lo < n
        invariant
            lo <= n == ids@.len(),
            all == opt_strings_view(ids@),
            r@.map_values(|b: Vec<String>| strings_view(b@)) + spec_batches(all.skip(lo as int)) == spec_batches(all),
        decreases n - lo,
    {
        let ghost rest = all.skip(lo as int);
        let ghost before = r@;
        let hi = if n - lo <= API_PAGE_SIZE { n } else { lo + API_PAGE_SIZE };
        let batch = present_ids(ids, lo, hi);
        r.push(batch);
        proof {
            assert(r@.map_values(|b: Vec<String>| strings_view(b@)) =~= before.map_values(|b: Vec<String>| strings_view(b@)).push(strings_view(batch@)));
            if n - lo <= API_PAGE_SIZE {
                assert(rest =~= all.subrange(lo as int, hi as int));
                assert(all.skip(hi as int) =~= Seq::<Option<Seq<char>>>::empty());
                assert(spec_batches(rest) == seq![present(rest)]);
            } else {
                assert(rest.take(API_PAGE_SIZE as int) =~= all.subrange(lo as int, hi as int));
                assert(rest.skip(API_PAGE_SIZE as int) =~= all.skip(hi as int));
            }
            assert(before.map_values(|b: Vec<String>| strings_view(b@)).push(strings_view(batch@)) + spec_batches(all.skip(hi as int))
                =~= before.map_values(|b: Vec<String>| strings_view(b@)) + (seq![strings_view(batch@)] + spec_batches(all.skip(hi as int))));
        }
        lo = hi;
    }
    proof {
        assert(all.skip(n as int) =~= Seq::<Option<Seq<char>>>::empty());
        assert(r@.map_values(|b: Vec<String>| strings_view(b@)) + Seq::<Seq<Seq<char>>>::empty() =~= r@.map_values(|b: Vec<String>| strings_view(b@)));
    }
    r
}

/// Where the reading of a playlist's items has come: at most `max_items`
/// are asked for, 50 a request, in at most `max_items / 50 + 1` more requests
/// after the first.
pub struct PlaylistPaging {
    pub max_items: usize,
    pub fetched: usize,
    pub request_count: usize,
    pub page_token: Option<String>,
}

impl PlaylistPaging {
    /// Nothing read yet.
    pub fn new(max_items: usize) -> (r: Self)
        ensures
            r.max_items == max_items && r.fetched == 0 && r.request_count == 0 && r.page_token is None,
    {
        PlaylistPaging { max_items, fetched: 0, request_count: 0, page_token: None }
    }

    /// How many items the next request asks for: what is left to read, at
    /// most 50.
    pub fn items_to_fetch(&self) -> (r: usize)
        requires
            self.fetched <= self.max_items,
        ensures
            r == if self.max_items - self.fetched > API_PAGE_SIZE {
                API_PAGE_SIZE as int
            } else {
                self.max_items - self.fetched
            },
    {
        let remaining = self.max_items - self.fetched;
        if remaining > API_PAGE_SIZE {
            API_PAGE_SIZE
        } else {
            remaining
        }
    }

    /// Takes in a response of `received` items and its next page: whether to
    /// ask for more, which is so while there is a next page and fewer than
    /// `max_items / 50 + 1` requests have followed the first.
    pub fn after_response(&mut self, received: usize, next_page_token: Option<String>) -> (more: bool)
        requires
            old(self).fetched + received <= usize::MAX,
            old(self).request_count < usize::MAX,
        ensures
            final(self).max_items == old(self).max_items,
            final(self).fetched == old(self).fetched + received,
            opt_view(final(self).page_token) == opt_view(next_page_token),
            more == !(next_page_token is None || old(self).request_count == old(self).max_items / API_PAGE_SIZE + 1),
            final(self).request_count == if more {
                old(self).request_count + 1
            } else {
                old(self).request_count as int
            },
            old(self).request_count <= old(self).max_items / API_PAGE_SIZE + 1
                ==> final(self).request_count <= final(self).max_items / API_PAGE_SIZE + 1,
    {
        self.fetched = self.fetched + received;
        let stop = next_page_token.is_none() || self.request_count == self.max_items / API_PAGE_SIZE + 1;
        self.page_token = next_page_token;
        if stop {
            false
        } else {
            self.request_count = self.request_count + 1;
            true
        }
    }
}

/// When a playlist item was published, for ordering: none (first) when it
/// has no date or one that does not parse.
pub open spec fn item_published(it: YtPlaylistItem) -> Option<(i64, u32)> {
    match it.snippet {
        Some(sn) => match sn.published_at {
            Some(d) => instant_of_rfc3339(d@),
            None => None,
        },
        None => None,
    }
}

/// Publication `a` comes strictly before publication `b` (no date first).
pub open spec fn published_before(a: Option<(i64, u32)>, b: Option<(i64, u32)>) -> bool {
    match (a, b) {
        (None, Some(_)) => true,
        (Some(x), Some(y)) => x.0 < y.0 || (x.0 == y.0 && x.1 < y.1),
        _ => false,
    }
}

fn is_published_before(a: Option<(i64, u32)>, b: Option<(i64, u32)>) -> (r: bool)
    ensures
        r == published_before(a, b),
{
    match (a, b) {
        (None, Some(_)) => true,
        (Some(x), Some(y)) => x.0 < y.0 || (x.0 == y.0 && x.1 < y.1),
        _ => false,
    }
}

/// The items of a playlist in order of publication: an item goes after every
/// item published no later (a stable sort, oldest first).
pub open spec fn insert_by_date(sorted: Seq<YtPlaylistItem>, x: YtPlaylistItem) -> Seq<YtPlaylistItem>
    decreases sorted.len(),
{
    if sorted.len() == 0 {
        seq![x]
    } else if published_before(item_published(x), item_published(sorted.last())) {
        insert_by_date(sorted.drop_last(), x).push(sorted.last())
    } else {
        sorted.push(x)
    }
}

/// The items of a playlist, oldest first (a stable sort; items without a date
/// first).
pub open spec fn oldest_first(items: Seq<YtPlaylistItem>) -> Seq<YtPlaylistItem>
    decreases items.len(),
{
    if items.len() == 0 {
        Seq::empty()
    } else {
        insert_by_date(oldest_first(items.drop_last()), items.last())
    }
}

fn published_key(it: &YtPlaylistItem) -> (r: Option<(i64, u32)>)
    ensures
        r == item_published(*it),
{
    match &it.snippet {
        Some(sn) => match &sn.published_at {
            Some(d) => rfc3339_instant(d.as_str()),
            None => None,
        },
        None => None,
    }
}

/// Sorts the items of a playlist oldest first, as read through the API.
pub fn sort_by_publication(items: Vec<YtPlaylistItem>) -> (r: Vec<YtPlaylistItem>)
    ensures
        r@ == oldest_first(items@),
{
    let ghost all = items@;
    let mut rest = items;
    let mut taken: Vec<YtPlaylistItem> = Vec::new();
    while rest.len() > 0
        invariant
            rest@ + taken@.reverse() == all,
        decreases rest@.len(),
    {
        let ghost rv = rest@;
        let ghost tv = taken@;
        let x = rest.pop().unwrap();
        taken.push(x);
        proof {
            assert(tv.push(x).reverse() =~= seq![x] + tv.reverse());
            assert(rv =~= rv.drop_last().push(x));
            assert(rv.drop_last() + (seq![x] + tv.reverse()) =~= rv + tv.reverse());
        }
    }
    assert(rest@ + taken@.reverse() =~= taken@.reverse());
    let ghost n = all.len();
    let mut sorted: Vec<YtPlaylistItem> = Vec::new();
    let mut keys: Vec<Option<(i64, u32)>> = Vec::new();
    while taken.len() > 0
        invariant
            n == all.len(),
            taken@.len() <= n,
            taken@.reverse() =~= all.subrange((n - taken@.len()) as int, n as int),
            sorted@ == oldest_first(all.take((n - taken@.len()) as int)),
            keys@.len() == sorted@.len(),
            forall|k: int| 0 <= k < keys@.len() ==> keys@[k] == item_published(#[trigger] sorted@[k]),
        decreases taken@.len(),
    {
        let ghost tv = taken@;
        let ghost i = n - taken@.len();
        let x = taken.pop().unwrap();
        let kx = published_key(&x);
        proof {
            assert(taken@ =~= tv.drop_last());
            assert(tv.reverse()[0] == x);
            assert(all[i] == x);
            assert(all.take(i + 1).drop_last() =~= all.take(i));
            assert(all.take(i + 1).last() == x);
            assert(tv.drop_last().reverse() =~= tv.reverse().drop_first());
        }
        let ghost sv = sorted@;
        let mut pos = sorted.len();
        assert(sv.take(sv.len() as int) =~= sv);
        assert(sv.skip(sv.len() as int) =~= Seq::<YtPlaylistItem>::empty());
        assert(insert_by_date(sv, x) + Seq::<YtPlaylistItem>::empty() =~= insert_by_date(sv, x));
        while pos > 0 && is_published_before(kx, keys[pos - 1])
            invariant
                pos <= sorted@.len() == keys@.len(),
                sv == sorted@,
                kx == item_published(x),
                forall|k: int| 0 <= k < keys@.len() ==> keys@[k] == item_published(#[trigger] sorted@[k]),
                insert_by_date(sv, x) == insert_by_date(sv.take(pos as int), x) + sv.skip(pos as int),
            decreases pos,
        {
            proof {
                let t = sv.take(pos as int);
                assert(t.last() == sv[pos - 1]);
                assert(t.drop_last() =~= sv.take(pos - 1));
                assert(sv.skip(pos - 1) =~= seq![sv[pos - 1]] + sv.skip(pos as int));
                assert(insert_by_date(sv.take(pos - 1), x).push(sv[pos - 1]) + sv.skip(pos as int)
                    =~= insert_by_date(sv.take(pos - 1), x) + sv.skip(pos - 1));
            }
            pos = pos - 1;
        }
        proof {
            let t = sv.take(pos as int);
            if pos > 0 {
                assert(t.last() == sv[pos - 1]);
                assert(insert_by_date(t, x) == t.push(x));
            } else {
                assert(t =~= Seq::<YtPlaylistItem>::empty());
                assert(seq![x] =~= t.push(x));
            }
        }
        let ghost ks = keys@;
        sorted.insert(pos, x);
        keys.insert(pos, kx);
        proof {
            assert(sorted@ =~= sv.take(pos as int).push(x) + sv.skip(pos as int));
            assert forall|k: int| 0 <= k < keys@.len() implies keys@[k] == item_published(#[trigger] sorted@[k]) by {
                if k < pos {
                    assert(keys@[k] == ks[k]);
                    assert(sorted@[k] == sv[k]);
                } else if k == pos {
                } else {
                    assert(keys@[k] == ks[k - 1]);
                    assert(sorted@[k] == sv[k - 1]);
                }
            }
        }
    }
    assert(all.take(n as int) =~= all);
    sorted
}

impl YoutubeProvider {
    /// The regular expressions of the URLs this provider serves.
    pub fn domain_whitelist_regexes(&self) -> (r: Vec<String>)
        ensures
            crate::text::strings_view(r@) == spec_youtube_whitelist(),
    {
        youtube_whitelist()
    }
}

} // verus!
