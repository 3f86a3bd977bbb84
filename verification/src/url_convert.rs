//! From the URL of a channel or playlist to the URL of a feed of it.
use vstd::prelude::*;

use crate::provider::twitch::twitch_username;
use crate::provider::youtube::{already_videos_feed, channel_feed_url, is_videos_feed, playlist_feed_url, playlist_id, spec_videos_feed};
use crate::text::{concat, opt_view, split_all, split_string, starts_with, str_eq, strings_view};
use crate::urls::{origin_of, url_origin};
use crate::urls::{
    append_query_pair, domain_of, parse_url, path_of, push_path_segment, set_url_path,
    spec_query_value, url_appended, url_domain, url_last_segment, url_parsed, url_path, url_pushed,
    url_with_path,
};

verus! {

/// The kinds of URL that lead to a feed.
#[derive(Debug, PartialEq, Eq, Structural, Clone, Copy)]
pub enum UrlKind {
    /// A Twitch channel, whose feed a ttprss service makes.
    Twitch,
    YoutubePlaylist,
    YoutubeChannel,
    /// A YouTube URL with no path (never seen in practice: parsed URLs have one).
    UnsupportedYoutube,
    /// A feed already.
    Generic,
}

/// `t` occurs in `s`.
pub open spec fn contains(s: Seq<char>, t: Seq<char>) -> bool {
    exists|i: int| 0 <= i && i + t.len() <= s.len() && #[trigger] s.subrange(i, i + t.len()) == t
}

/// `s` begins with `p`.
pub open spec fn has_prefix(s: Seq<char>, p: Seq<char>) -> bool {
    s.len() >= p.len() && s.subrange(0, p.len() as int) == p
}

/// The kind of a URL: by its domain (empty when it has none), then, for
/// YouTube, by its path.
pub open spec fn spec_url_kind(url: Seq<char>) -> UrlKind {
    let domain = match url_domain(url) {
        Some(d) => d,
        None => Seq::<char>::empty(),
    };
    if contains(domain, "twitch.tv"@) {
        UrlKind::Twitch
    } else if contains(domain, "youtube.com"@) || contains(domain, "youtu.be"@) {
        match url_path(url) {
            None => UrlKind::UnsupportedYoutube,
            Some(path) => if has_prefix(path, "/playlist"@) {
                UrlKind::YoutubePlaylist
            } else if has_prefix(path, "/"@) {
                UrlKind::YoutubeChannel
            } else {
                UrlKind::UnsupportedYoutube
            },
        }
    } else {
        UrlKind::Generic
    }
}

/// Whether `t` occurs in `s`.
pub fn str_contains(s: &str, t: &str) -> (b: bool)
    ensures
        b == contains(s@, t@),
{
    let v = crate::text::to_chars(s);
    let n = v.len();
    let m = t.unicode_len();
    if m > n {
        return false;
    }
    let last = n - m;
    let mut i: usize = 0;
    loop
        invariant
            n == v@.len() == s@.len(),
            v@ == s@,
            m == t@.len(),
            m <= n,
            last == n - m,
            i <= last,
            forall|k: int| 0 <= k < i ==> #[trigger] s@.subrange(k, k + m) != t@,
        decreases last - i,
    {
        if crate::text::starts_with_at(v.as_slice(), i, n, t) {
            assert(s@.subrange(i as int, i + m) == t@);
            return true;
        }
        if i == last {
            return false;
        }
        i = i + 1;
    }
}

/// The kind of a URL.
pub fn url_kind(url: &str) -> (r: UrlKind)
    ensures
        r == spec_url_kind(url@),
{
    let domain = match domain_of(url) {
        Some(d) => d,
        None => String::new(),
    };
    if str_contains(domain.as_str(), "twitch.tv") {
        UrlKind::Twitch
    } else if str_contains(domain.as_str(), "youtube.com") || str_contains(domain.as_str(), "youtu.be") {
        match path_of(url) {
            None => UrlKind::UnsupportedYoutube,
            Some(path) => if starts_with(path.as_str(), "/playlist") {
                UrlKind::YoutubePlaylist
            } else if starts_with(path.as_str(), "/") {
                UrlKind::YoutubeChannel
            } else {
                UrlKind::UnsupportedYoutube
            },
        }
    } else {
        UrlKind::Generic
    }
}

/// The address of the ttprss service as configured, with `http://` added
/// when it names no scheme.
pub open spec fn spec_ttprss_base(setting: Seq<char>) -> Seq<char> {
    if has_prefix(setting, "http://"@) || has_prefix(setting, "https://"@) {
        setting
    } else {
        "http://"@ + setting
    }
}

/// The feed of a Twitch channel made by the ttprss service: `/vod/<login>` on
/// the service, asking for no transcoding.
pub open spec fn spec_twitch_feed_url(login: Seq<char>, ttprss: Seq<char>) -> Option<Seq<char>> {
    match url_parsed(spec_ttprss_base(ttprss) + "/vod"@) {
        None => None,
        Some(base) => match url_pushed(base, login) {
            None => None,
            Some(u) => url_appended(u, "transcode"@, "false"@),
        },
    }
}

/// The feed of a Twitch channel whose owner has the login `login`, made by the
/// ttprss service configured as `ttprss`.
pub fn twitch_feed_url(login: &str, ttprss: &str) -> (r: Option<String>)
    ensures
        opt_view(r) == spec_twitch_feed_url(login@, ttprss@),
{
    let base = if starts_with(ttprss, "http://") || starts_with(ttprss, "https://") {
        String::from_str(ttprss)
    } else {
        concat("http://", ttprss)
    };
    let with_vod = concat(base.as_str(), "/vod");
    let parsed = parse_url(with_vod.as_str())?;
    let pushed = push_path_segment(parsed.as_str(), login)?;
    append_query_pair(pushed.as_str(), "transcode", "false")
}

/// Whether feeds of YouTube come from a podtube service: its address parses
/// and a YouTube API key is set.
pub open spec fn uses_podtube(podtube: Option<Seq<char>>, has_api_key: bool) -> Option<Seq<char>> {
    if has_api_key {
        url_parsed(
            match podtube {
                Some(p) => p,
                None => Seq::<char>::empty(),
            },
        )
    } else {
        None
    }
}

/// The feed of a YouTube playlist: from the podtube service when it is used,
/// else YouTube's own.
pub open spec fn spec_youtube_playlist_feed(id: Seq<char>, podtube: Option<Seq<char>>, has_api_key: bool) -> Option<Seq<char>> {
    match uses_podtube(podtube, has_api_key) {
        Some(p) => url_with_path(p, "/youtube/playlist/"@ + id),
        None => spec_videos_feed("playlist_id"@, id),
    }
}

/// The feed of a YouTube channel: from the podtube service when it is used,
/// else YouTube's own.
pub open spec fn spec_youtube_channel_feed(id: Seq<char>, podtube: Option<Seq<char>>, has_api_key: bool) -> Option<Seq<char>> {
    match uses_podtube(podtube, has_api_key) {
        Some(p) => url_with_path(p, "/youtube/channel/"@ + id),
        None => spec_videos_feed("channel_id"@, id),
    }
}

/// The feed URL of a URL, as far as it can be known without a lookup.
#[derive(Debug)]
pub enum FeedUrl {
    /// The URL of the feed.
    Ready(String),
    /// A YouTube channel: its feed is `youtube_channel_feed` of the channel id
    /// that a lookup of the URL gives.
    NeedsChannelId,
    /// A Twitch URL, but no ttprss service is configured.
    NoTwitchService,
    /// A Twitch URL with no path segment to take the login from.
    NoTwitchLogin,
    /// A YouTube playlist URL with no `list` pair.
    NoPlaylistId,
    /// The feed URL cannot be built.
    Invalid,
    /// A YouTube URL of no supported kind.
    Unsupported,
}

/// The feed URL of a URL by its kind: a Twitch channel's feed on the ttprss
/// service (`ttprss`, the setting if any), a playlist's feed, a YouTube
/// channel URL that is a videos feed already or else the channel's feed once
/// its id is looked up, and any other URL as it is.
pub fn to_feed_url(url: &str, ttprss: Option<&str>, podtube: Option<&str>, has_api_key: bool) -> (r: FeedUrl)
    ensures
        spec_url_kind(url@) == UrlKind::Twitch ==> match opt_str_view(ttprss) {
            None => r is NoTwitchService,
            Some(t) => match url_last_segment(url@) {
                None => r is NoTwitchLogin,
                Some(login) => match spec_twitch_feed_url(login, t) {
                    Some(f) => r matches FeedUrl::Ready(x) && x@ == f,
                    None => r is Invalid,
                },
            },
        },
        spec_url_kind(url@) == UrlKind::YoutubePlaylist ==> match spec_query_value(url@, "list"@) {
            None => r is NoPlaylistId,
            Some(id) => match spec_youtube_playlist_feed(id, opt_str_view(podtube), has_api_key) {
                Some(f) => r matches FeedUrl::Ready(x) && x@ == f,
                None => r is Invalid,
            },
        },
        spec_url_kind(url@) == UrlKind::YoutubeChannel ==> if is_videos_feed(url@) {
            r matches FeedUrl::Ready(x) && x@ == url@
        } else {
            r is NeedsChannelId
        },
        spec_url_kind(url@) == UrlKind::UnsupportedYoutube ==> r is Unsupported,
        spec_url_kind(url@) == UrlKind::Generic ==> (r matches FeedUrl::Ready(x) && x@ == url@),
{
    match url_kind(url) {
        UrlKind::Twitch => {
            let t = match ttprss {
                Some(t) => t,
                None => return FeedUrl::NoTwitchService,
            };
            let login = match twitch_username(url) {
                Some(l) => l,
                None => return FeedUrl::NoTwitchLogin,
            };
            match twitch_feed_url(login.as_str(), t) {
                Some(f) => FeedUrl::Ready(f),
                None => FeedUrl::Invalid,
            }
        },
        UrlKind::YoutubePlaylist => {
            let id = match playlist_id(url) {
                Some(id) => id,
                None => return FeedUrl::NoPlaylistId,
            };
            match youtube_playlist_feed(id.as_str(), podtube, has_api_key) {
                Some(f) => FeedUrl::Ready(f),
                None => FeedUrl::Invalid,
            }
        },
        UrlKind::YoutubeChannel => if already_videos_feed(url) {
            FeedUrl::Ready(url.to_string())
        } else {
            FeedUrl::NeedsChannelId
        },
        UrlKind::UnsupportedYoutube => FeedUrl::Unsupported,
        UrlKind::Generic => FeedUrl::Ready(url.to_string()),
    }
}

/// The view of an optional string slice.
pub open spec fn opt_str_view(o: Option<&str>) -> Option<Seq<char>> {
    match o {
        Some(p) => Some(p@),
        None => None,
    }
}

fn podtube_base(podtube: Option<&str>, has_api_key: bool) -> (r: Option<String>)
    ensures
        opt_view(r) == uses_podtube(
            opt_str_view(podtube),
            has_api_key,
        ),
{
    if !has_api_key {
        return None;
    }
    proof {
        reveal_strlit("");
    }
    match podtube {
        Some(p) => {
            let parsed = parse_url(p);
            assert(opt_str_view(podtube) == Some(p@));
            parsed
        },
        None => {
            assert(""@ =~= Seq::<char>::empty());
            parse_url("")
        },
    }
}

/// The feed of the YouTube playlist with id `id`.
pub fn youtube_playlist_feed(id: &str, podtube: Option<&str>, has_api_key: bool) -> (r: Option<String>)
    ensures
        opt_view(r) == spec_youtube_playlist_feed(
            id@,
            opt_str_view(podtube),
            has_api_key,
        ),
{
    proof {
        reveal_strlit("");
    }
    match podtube_base(podtube, has_api_key) {
        Some(p) => {
            let path = concat("/youtube/playlist/", id);
            set_url_path(p.as_str(), path.as_str())
        },
        None => playlist_feed_url(id),
    }
}

/// The feed of the YouTube channel with id `id`.
pub fn youtube_channel_feed(id: &str, podtube: Option<&str>, has_api_key: bool) -> (r: Option<String>)
    ensures
        opt_view(r) == spec_youtube_channel_feed(
            id@,
            opt_str_view(podtube),
            has_api_key,
        ),
{
    proof {
        reveal_strlit("");
    }
    match podtube_base(podtube, has_api_key) {
        Some(p) => {
            let path = concat("/youtube/channel/", id);
            set_url_path(p.as_str(), path.as_str())
        },
        None => channel_feed_url(id),
    }
}

/// Whether `url` has the scheme and host of one of the comma-separated
/// `domains`; `None` when one of them is no URL.
pub open spec fn spec_in_whitelist(url: Seq<char>, domains: Seq<Seq<char>>) -> Option<bool>
    decreases domains.len(),
{
    if domains.len() == 0 {
        Some(false)
    } else {
        match url_origin(domains[0]) {
            None => None,
            Some(d) => match spec_in_whitelist(url, domains.drop_first()) {
                None => None,
                Some(rest) => Some(rest || url_origin(url) == Some(d)),
            },
        }
    }
}

/// Whether a URL has the scheme and host of one of the comma-separated
/// valid domains; `None` when one of those is no URL (or `url` is none).
pub fn check_if_in_whitelist(url: &str, valid_domains: &str) -> (r: Option<bool>)
    ensures
        url_origin(url@) is Some ==> r == spec_in_whitelist(url@, split_all(valid_domains@, ',')),
        url_origin(url@) is None ==> r is None,
{
    let (scheme, host) = match origin_of(url) {
        Some(o) => o,
        None => return None,
    };
    let domains = split_string(valid_domains, ',');
    let ghost all = strings_view(domains@);
    let mut found = false;
    let mut i: usize = domains.len();
    assert(all.subrange(i as int, all.len() as int) =~= Seq::<Seq<char>>::empty());
    while i > 0
        invariant
            i <= domains@.len(),
            all == strings_view(domains@),
            all == split_all(valid_domains@, ','),
            url_origin(url@) == Some((scheme@, opt_view(host))),
            spec_in_whitelist(url@, all.subrange(i as int, all.len() as int)) == Some(found),
        decreases i,
    {
        let ghost rest = all.subrange(i - 1, all.len() as int);
        assert(rest.drop_first() =~= all.subrange(i as int, all.len() as int));
        assert(rest[0] == domains@[i - 1]@);
        match origin_of(domains[i - 1].as_str()) {
            None => {
                proof {
                    lemma_whitelist_none(url@, all, i - 1);
                }
                return None;
            },
            Some((ds, dh)) => {
                let same_host = match (&host, &dh) {
                    (Some(a), Some(b)) => str_eq(a.as_str(), b.as_str()),
                    (None, None) => true,
                    _ => false,
                };
                let same = str_eq(scheme.as_str(), ds.as_str()) && same_host;
                proof {
                    assert(same == (url_origin(url@) == url_origin(domains@[i - 1]@)));
                }
                found = found || same;
            },
        }
        i = i - 1;
    }
    assert(all.subrange(0, all.len() as int) =~= all);
    Some(found)
}

proof fn lemma_whitelist_none(url: Seq<char>, all: Seq<Seq<char>>, k: int)
    requires
        0 <= k < all.len(),
        url_origin(all[k]) is None,
    ensures
        spec_in_whitelist(url, all) is None,
    decreases k,
{
    if k > 0 {
        lemma_whitelist_none(url, all.drop_first(), k - 1);
    }
}

} // verus!
