//! Twitch channels, read through the Twitch API.
use vstd::prelude::*;

use crate::dates::{default_rfc2822, epoch_rfc2822, rfc2822_of, rfc3339_to_rfc2822};
use crate::feed::{
    build_default_rss_structure, empty_item, items_view, podcast_channel, ChannelImage, ChannelView,
    FeedChannel, FeedGuid, FeedItem, ItemView, ItunesChannel, ItunesItem,
};
use crate::urls::{last_path_segment, url_last_segment};
use crate::text::{
    opt_view,
    concat, from_chars, pad_zeros, push_padded2, push_str, replace_all, replace_str, split_all,
    split_string, strings_view,
};

verus! {

/// The provider of Twitch channels.
pub struct TwitchProvider;

/// The URLs Twitch serves: its site and the hosts of its videos.
pub open spec fn spec_twitch_whitelist() -> Seq<Seq<char>> {
    seq!["^https?://(.*\\.)?twitch\\.tv/"@, "^https?://(.*\\.)?cloudfront\\.net/"@]
}

/// The regular expressions of the URLs Twitch serves.
pub fn twitch_whitelist() -> (r: Vec<String>)
    ensures
        strings_view(r@) == spec_twitch_whitelist(),
{
    let r = vec![
        String::from_str("^https?://(.*\\.)?twitch\\.tv/"),
        String::from_str("^https?://(.*\\.)?cloudfront\\.net/"),
    ];
    assert(strings_view(r@) =~= spec_twitch_whitelist());
    r
}

/// What the Twitch API tells of a channel's owner.
pub struct TwitchUser {
    pub id: String,
    pub display_name: String,
    pub description: String,
    pub profile_image_url: String,
}

/// What the Twitch API tells of a recorded broadcast.
pub struct TwitchVod {
    pub id: String,
    pub title: String,
    /// RFC 3339.
    pub created_at: String,
    /// With `%{width}` and `%{height}` standing for the size.
    pub thumbnail_url: String,
    /// As in `1h2m3s`.
    pub duration: String,
}

/// A Twitch duration (`1h2m3s`) as `hh:mm:ss`: the units become colons (the
/// seconds' one is dropped), and the pieces are padded with leading zeros to
/// two digits; `00:00:00` when there are more than three pieces.
pub open spec fn spec_vod_duration(d: Seq<char>) -> Seq<char> {
    let x = replace_all(replace_all(replace_all(d, "h"@, ":"@), "m"@, ":"@), "s"@, ""@);
    let p = split_all(x, ':');
    if p.len() == 3 {
        pad_zeros(p[0], 2) + ":"@ + pad_zeros(p[1], 2) + ":"@ + pad_zeros(p[2], 2)
    } else if p.len() == 2 {
        "00:"@ + pad_zeros(p[0], 2) + ":"@ + pad_zeros(p[1], 2)
    } else if p.len() == 1 {
        "00:00:"@ + pad_zeros(p[0], 2)
    } else {
        "00:00:00"@
    }
}

/// A Twitch duration as `hh:mm:ss`.
pub fn vod_duration(d: &str) -> (r: String)
    ensures
        r@ == spec_vod_duration(d@),
{
    proof {
        reveal_strlit("h");
        reveal_strlit("m");
        reveal_strlit("s");
        reveal_strlit(":");
        reveal_strlit("00:");
        reveal_strlit("00:00:");
    }
    let a = replace_str(d, "h", ":");
    let b = replace_str(a.as_str(), "m", ":");
    let x = replace_str(b.as_str(), "s", "");
    let p = split_string(x.as_str(), ':');
    let mut out: Vec<char> = Vec::new();
    if p.len() == 3 {
        push_padded2(&mut out, p[0].as_str());
        push_str(&mut out, ":");
        push_padded2(&mut out, p[1].as_str());
        push_str(&mut out, ":");
        push_padded2(&mut out, p[2].as_str());
    } else if p.len() == 2 {
        push_str(&mut out, "00:");
        push_padded2(&mut out, p[0].as_str());
        push_str(&mut out, ":");
        push_padded2(&mut out, p[1].as_str());
    } else if p.len() == 1 {
        push_str(&mut out, "00:00:");
        push_padded2(&mut out, p[0].as_str());
    } else {
        return String::from_str("00:00:00");
    }
    from_chars(out.as_slice())
}

/// The thumbnail of a broadcast at 512 by 288.
pub open spec fn spec_vod_thumbnail(t: Seq<char>) -> Seq<char> {
    replace_all(replace_all(t, "%{width}"@, "512"@), "%{height}"@, "288"@)
}

/// The item of a broadcast: titled and described by its title, linked to its
/// page, identified by its id, dated by its creation (the Unix epoch when that
/// date does not parse), with its duration and its thumbnail.
pub open spec fn spec_vod_item(id: Seq<char>, title: Seq<char>, created_at: Seq<char>, thumbnail: Seq<char>, duration: Seq<char>) -> ItemView {
    ItemView {
        title: Some(title),
        link: Some("https://www.twitch.tv/videos/"@ + id),
        description: Some(title),
        author: None,
        pub_date: Some(
            match rfc2822_of(created_at) {
                Some(d) => d,
                None => epoch_rfc2822(),
            },
        ),
        guid: Some((id, true)),
        enclosure: None,
        itunes: Some((Some(spec_vod_duration(duration)), Some(title), Some(spec_vod_thumbnail(thumbnail)))),
    }
}

/// The item of a recorded broadcast.
pub fn vod_to_rss_item_converter(vod: &TwitchVod) -> (r: FeedItem)
    ensures
        r@ == spec_vod_item(vod.id@, vod.title@, vod.created_at@, vod.thumbnail_url@, vod.duration@),
{
    proof {
        reveal_strlit("%{width}");
        reveal_strlit("%{height}");
    }
    let mut item = empty_item();
    item.title = Some(vod.title.clone());
    item.description = Some(vod.title.clone());
    item.link = Some(concat("https://www.twitch.tv/videos/", vod.id.as_str()));
    item.guid = Some(FeedGuid { value: vod.id.clone(), permalink: true });
    item.pub_date = match rfc3339_to_rfc2822(vod.created_at.as_str()) {
        Some(d) => Some(d),
        None => Some(default_rfc2822()),
    };
    let w = replace_str(vod.thumbnail_url.as_str(), "%{width}", "512");
    let image = replace_str(w.as_str(), "%{height}", "288");
    item.itunes = Some(
        ItunesItem {
            duration: Some(vod_duration(vod.duration.as_str())),
            summary: Some(vod.title.clone()),
            image: Some(image),
        },
    );
    item
}

/// The feed of a Twitch channel: its owner's name as title (and author), its
/// description, its profile image, and an item per recorded broadcast.
pub open spec fn spec_twitch_feed(channel_url: Seq<char>, name: Seq<char>, description: Seq<char>, image: Seq<char>, vods: Seq<ItemView>) -> ChannelView {
    podcast_channel(
        name,
        channel_url,
        description,
        None,
        Some((image, Seq::<char>::empty(), None)),
        Some((Some(image), Some(name), None, None)),
        vods,
    )
}

/// What the feed of a Twitch channel says of the channel, stated of any feed
/// `f`: titled by the owner's display name, linked to the channel, described
/// by the owner's own description, with the owner's picture as image and the
/// owner as iTunes author, and one item per broadcast, in order.
pub open spec fn feed_describes_owner(channel_url: Seq<char>, name: Seq<char>, description: Seq<char>, image: Seq<char>, vods: Seq<ItemView>, f: ChannelView) -> bool {
    &&& f.title == name
    &&& f.link == channel_url
    &&& f.description == description
    &&& f.image matches Some((url, _, _)) && url == image
    &&& f.itunes matches Some((img, author, _, _)) && img == Some(image) && author == Some(name)
    &&& f.items == vods
}

/// A Twitch feed is described by its owner's description, titled by the
/// owner's name, and lists the broadcasts it was given.
pub proof fn law_twitch_feed_describes_owner(channel_url: Seq<char>, name: Seq<char>, description: Seq<char>, image: Seq<char>, vods: Seq<ItemView>)
    ensures
        feed_describes_owner(channel_url, name, description, image, vods, spec_twitch_feed(channel_url, name, description, image, vods)),
{
}

/// The views of the items of a list of broadcasts.
pub open spec fn vod_items(vods: Seq<TwitchVod>) -> Seq<ItemView> {
    vods.map_values(
        |v: TwitchVod| spec_vod_item(v.id@, v.title@, v.created_at@, v.thumbnail_url@, v.duration@),
    )
}

/// The feed of a Twitch channel from its owner and its broadcasts.
pub fn build_twitch_feed(channel_url: &str, user: &TwitchUser, vods: &Vec<TwitchVod>) -> (r: FeedChannel)
    ensures
        r@ == spec_twitch_feed(channel_url@, user.display_name@, user.description@, user.profile_image_url@, vod_items(vods@)),
        feed_describes_owner(channel_url@, user.display_name@, user.description@, user.profile_image_url@, vod_items(vods@), r@),
{
    proof {
        law_twitch_feed_describes_owner(channel_url@, user.display_name@, user.description@, user.profile_image_url@, vod_items(vods@));
    }
    let mut feed = build_default_rss_structure();
    feed.title = user.display_name.clone();
    feed.link = String::from_str(channel_url);
    feed.description = user.description.clone();
    feed.itunes = Some(
        ItunesChannel {
            image: Some(user.profile_image_url.clone()),
            author: Some(user.display_name.clone()),
            explicit: None,
            block: None,
        },
    );
    feed.image = Some(ChannelImage { url: user.profile_image_url.clone(), link: String::new(), description: None });
    let mut items: Vec<FeedItem> = Vec::new();
    let mut i: usize = 0;
    while i < vods.len()
        invariant
            i <= vods@.len(),
            items_view(items@) == vod_items(vods@.take(i as int)),
        decreases vods@.len() - i,
    {
        let ghost before = items@;
        let item = vod_to_rss_item_converter(&vods[i]);
        items.push(item);
        proof {
            assert(items_view(items@) =~= items_view(before).push(item@));
            assert(vods@.take(i + 1) =~= vods@.take(i as int).push(vods@[i as int]));
            assert(vod_items(vods@.take(i + 1)) =~= vod_items(vods@.take(i as int)).push(item@));
        }
        i = i + 1;
    }
    assert(vods@.take(i as int) =~= vods@);
    feed.items = items;
    feed
}

/// The login of the owner of a Twitch channel: the last segment of the
/// channel URL's path (`None` when the URL has no path to take it from).
pub fn twitch_username(channel_url: &str) -> (r: Option<String>)
    ensures
        opt_view(r) == url_last_segment(channel_url@),
{
    last_path_segment(channel_url)
}

/// The API request for the user with a login.
pub fn users_request_url(login: &str) -> (r: String)
    ensures
        r@ == "https://api.twitch.tv/helix/users?login="@ + login@,
{
    concat("https://api.twitch.tv/helix/users?login=", login)
}

/// The API request for the broadcasts of the user with an id.
pub fn videos_request_url(user_id: &str) -> (r: String)
    ensures
        r@ == "https://api.twitch.tv/helix/videos?user_id="@ + user_id@,
{
    concat("https://api.twitch.tv/helix/videos?user_id=", user_id)
}

/// An access token of the Twitch API and when it expires.
#[derive(Debug)]
pub struct OAuthCredentials {
    pub oauth_token: String,
    /// Seconds since the Unix epoch.
    pub oauth_expire_epoch: u64,
}

/// Why a token response gave no credentials.
#[derive(Debug, PartialEq, Eq, Structural, Clone, Copy)]
pub enum TokenError {
    NoAccessToken,
    NoExpiresIn,
}

impl OAuthCredentials {
    /// The key under which the credentials are cached.
    pub fn key() -> (r: &'static str)
        ensures
            r@ == "twitch_oauth_credentials"@,
    {
        "twitch_oauth_credentials"
    }

    /// Whether cached credentials may still be used at `now` (seconds since
    /// the Unix epoch): they expire after `now`.
    pub fn usable_at(&self, now: u64) -> (b: bool)
        ensures
            b == (self.oauth_expire_epoch > now),
    {
        self.oauth_expire_epoch > now
    }

    /// The credentials of a token response received at `now`: the access
    /// token, expiring `expires_in` seconds later.
    pub fn from_token_response(access_token: Option<String>, expires_in: Option<u64>, now: u64) -> (r: Result<OAuthCredentials, TokenError>)
        requires
            expires_in matches Some(e) ==> now + e <= u64::MAX,
        ensures
            access_token is None ==> r == Err::<OAuthCredentials, TokenError>(TokenError::NoAccessToken),
            access_token is Some && expires_in is None ==> r == Err::<OAuthCredentials, TokenError>(TokenError::NoExpiresIn),
            access_token is Some && expires_in is Some ==> (r matches Ok(c) && c.oauth_token == access_token->0
                && c.oauth_expire_epoch == now + expires_in->0),
    {
        let token = match access_token {
            Some(t) => t,
            None => return Err(TokenError::NoAccessToken),
        };
        let seconds = match expires_in {
            Some(e) => e,
            None => return Err(TokenError::NoExpiresIn),
        };
        Ok(OAuthCredentials { oauth_token: token, oauth_expire_epoch: now + seconds })
    }
}

/// The form of the request for an access token.
pub fn token_request_form(client_id: &str, client_secret: &str) -> (r: Vec<(String, String)>)
    ensures
        crate::urls::pairs_view(r@) == seq![
            ("client_id"@, client_id@),
            ("client_secret"@, client_secret@),
            ("grant_type"@, "client_credentials"@),
        ],
{
    let r = vec![
        (String::from_str("client_id"), String::from_str(client_id)),
        (String::from_str("client_secret"), String::from_str(client_secret)),
        (String::from_str("grant_type"), String::from_str("client_credentials")),
    ];
    assert(crate::urls::pairs_view(r@) =~= seq![
        ("client_id"@, client_id@),
        ("client_secret"@, client_secret@),
        ("grant_type"@, "client_credentials"@),
    ]);
    r
}

/// How many times a token is asked for before giving up.
pub const TOKEN_ATTEMPTS: u32 = 3;

/// After a refused token request, the number of attempts made so far, and
/// whether to give up: after the third refusal.
pub fn after_refused_attempt(attempts: u32) -> (r: (u32, bool))
    requires
        attempts < TOKEN_ATTEMPTS,
    ensures
        r.0 == attempts + 1,
        r.1 == (attempts + 1 >= TOKEN_ATTEMPTS),
{
    let next = attempts + 1;
    (next, next >= TOKEN_ATTEMPTS)
}

/// The arguments of `yt-dlp` that print the URL of the audio stream of the
/// video at `url`.
pub fn twitch_stream_args(url: &str) -> (r: Vec<String>)
    ensures
        crate::text::strings_view(r@) == seq!["-f"@, "bestaudio"@, "--get-url"@, url@],
{
    let r = vec![String::from_str("-f"), String::from_str("bestaudio"), String::from_str("--get-url"), String::from_str(url)];
    assert(crate::text::strings_view(r@) =~= seq!["-f"@, "bestaudio"@, "--get-url"@, url@]);
    r
}

/// The URL that `yt-dlp` printed: its output parsed as a URL as it stands
/// (the URL parser drops surrounding spaces and line ends).
pub fn twitch_url_from_output(stdout: &str) -> (r: Option<String>)
    ensures
        opt_view(r) == crate::urls::url_parsed(stdout@),
{
    crate::urls::parse_url(stdout)
}

impl TwitchProvider {
    /// The regular expressions of the media URLs found in Twitch feeds.
    pub fn media_url_regexes(&self) -> (r: Vec<String>)
        ensures
            crate::text::strings_view(r@) == seq!["^https?://(.*\\.)?cloudfront\\.net/"@],
    {
        let r = vec![String::from_str("^https?://(.*\\.)?cloudfront\\.net/")];
        assert(crate::text::strings_view(r@) =~= seq!["^https?://(.*\\.)?cloudfront\\.net/"@]);
        r
    }

    /// The regular expressions of the URLs this provider serves.
    pub fn domain_whitelist_regexes(&self) -> (r: Vec<String>)
        ensures
            crate::text::strings_view(r@) == spec_twitch_whitelist(),
    {
        twitch_whitelist()
    }
}

} // verus!
