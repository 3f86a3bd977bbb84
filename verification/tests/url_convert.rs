use vod2pod_rss::provider::twitch::twitch_username;
use vod2pod_rss::provider::youtube::{already_videos_feed, channel_id_of, playlist_id};
use vod2pod_rss::url_convert::{
    check_if_in_whitelist, to_feed_url, twitch_feed_url, url_kind, youtube_channel_feed,
    youtube_playlist_feed, FeedUrl, UrlKind,
};

fn twitch_feed(channel: &str, ttprss: &str) -> String {
    assert_eq!(url_kind(channel), UrlKind::Twitch);
    let login = twitch_username(channel).unwrap();
    twitch_feed_url(&login, ttprss).unwrap()
}

#[test]
fn mod_test_twitch_to_feed() {
    assert_eq!(
        twitch_feed("https://www.twitch.tv/andersonjph", "ttprss"),
        "http://ttprss/vod/andersonjph?transcode=false"
    );
}

#[test]
fn mod_test_http_ttprss_twitch_to_feed() {
    assert_eq!(
        twitch_feed("https://www.twitch.tv/andersonjph", "http://ttprss"),
        "http://ttprss/vod/andersonjph?transcode=false"
    );
}

#[test]
fn mod_test_ssl_ttprss_twitch_to_feed() {
    assert_eq!(
        twitch_feed("https://www.twitch.tv/andersonjph", "https://ttprss"),
        "https://ttprss/vod/andersonjph?transcode=false"
    );
}

#[test]
fn mod_test_youtube_to_feed() {
    // the URL with the channel's id, as the channel lookup gives it
    let url = "https://www.youtube.com/channel/UC-lHJZR3Gqxm24_Vd_AJ5Yw";
    assert_eq!(url_kind(url), UrlKind::YoutubeChannel);
    assert!(!already_videos_feed(url));
    let id = channel_id_of(url).unwrap();
    let feed = youtube_channel_feed(&id, None, false).unwrap();
    assert_eq!(
        feed,
        "https://www.youtube.com/feeds/videos.xml?channel_id=UC-lHJZR3Gqxm24_Vd_AJ5Yw"
    );
}

#[test]
fn mod_test_youtube_playlist_to_feed() {
    let url = "https://www.youtube.com/playlist?list=PLm323Lc7iSW9Qw_iaorhwG2WtVXuL9WBD";
    assert_eq!(url_kind(url), UrlKind::YoutubePlaylist);
    let id = playlist_id(url).unwrap();
    let feed = youtube_playlist_feed(&id, None, false).unwrap();
    assert_eq!(
        feed,
        "https://www.youtube.com/feeds/videos.xml?playlist_id=PLm323Lc7iSW9Qw_iaorhwG2WtVXuL9WBD"
    );
}

#[test]
fn mod_test_youtube_to_feed_already_atom_feed() {
    let url = "https://www.youtube.com/feeds/videos.xml?channel_id=UC-lHJZR3Gqxm24_Vd_AJ5Yw";
    assert_eq!(url_kind(url), UrlKind::YoutubeChannel);
    assert!(already_videos_feed(url));
}

#[test]
fn mod_test_generic_to_feed() {
    assert_eq!(url_kind("https://feeds.simplecast.com/aU_RzZ7j"), UrlKind::Generic);
}

#[test]
fn mod_test_youtube_to_feed_api_key_present() {
    let id = channel_id_of("https://www.youtube.com/channel/UC-lHJZR3Gqxm24_Vd_AJ5Yw").unwrap();
    let feed = youtube_channel_feed(&id, Some("http://podtube"), true).unwrap();
    assert_eq!(feed, "http://podtube/youtube/channel/UC-lHJZR3Gqxm24_Vd_AJ5Yw");
}

#[test]
fn mod_test_youtube_playlist_to_feed_api_key_present() {
    let id =
        playlist_id("https://www.youtube.com/playlist?list=PLm323Lc7iSW9Qw_iaorhwG2WtVXuL9WBD")
            .unwrap();
    let feed = youtube_playlist_feed(&id, Some("http://podtube"), true).unwrap();
    assert_eq!(feed, "http://podtube/youtube/playlist/PLm323Lc7iSW9Qw_iaorhwG2WtVXuL9WBD");
}

#[test]
fn podtube_is_not_used_without_a_valid_address() {
    let feed = youtube_playlist_feed("PL1", None, true).unwrap();
    assert_eq!(feed, "https://www.youtube.com/feeds/videos.xml?playlist_id=PL1");
    let feed = youtube_channel_feed("UC1", Some("not a url"), true).unwrap();
    assert_eq!(feed, "https://www.youtube.com/feeds/videos.xml?channel_id=UC1");
}

#[test]
fn youtube_urls_by_path() {
    assert_eq!(url_kind("https://youtu.be/abc"), UrlKind::YoutubeChannel);
    assert_eq!(url_kind("https://www.youtube.com/user/someone"), UrlKind::YoutubeChannel);
    assert_eq!(url_kind("https://m.youtube.com/playlist?list=x"), UrlKind::YoutubePlaylist);
    assert_eq!(url_kind("https://clips.twitch.tv/x"), UrlKind::Twitch);
    assert_eq!(url_kind("not a url"), UrlKind::Generic);
}

#[test]
fn whitelist_by_scheme_and_host() {
    let domains = "https://youtube.com/,https://www.twitch.tv/";
    assert_eq!(check_if_in_whitelist("https://youtube.com/watch?v=1", domains), Some(true));
    assert_eq!(check_if_in_whitelist("http://youtube.com/watch?v=1", domains), Some(false));
    assert_eq!(check_if_in_whitelist("https://evil.com/", domains), Some(false));
    assert_eq!(check_if_in_whitelist("https://evil.com/", "https://a.com/,nope"), None);
}

#[test]
fn urls_convert_to_feed_urls_by_kind() {
    let ready = |r: FeedUrl| match r {
        FeedUrl::Ready(u) => u,
        other => panic!("not ready: {:?}", other),
    };
    assert_eq!(
        ready(to_feed_url("https://www.twitch.tv/andersonjph", Some("ttprss"), None, false)),
        "http://ttprss/vod/andersonjph?transcode=false"
    );
    assert!(matches!(to_feed_url("https://www.twitch.tv/andersonjph", None, None, false), FeedUrl::NoTwitchService));
    assert_eq!(
        ready(to_feed_url("https://www.youtube.com/playlist?list=PL1", None, None, false)),
        "https://www.youtube.com/feeds/videos.xml?playlist_id=PL1"
    );
    assert!(matches!(to_feed_url("https://www.youtube.com/playlist", None, None, false), FeedUrl::NoPlaylistId));
    assert!(matches!(to_feed_url("https://www.youtube.com/@someone", None, None, false), FeedUrl::NeedsChannelId));
    let feed = "https://www.youtube.com/feeds/videos.xml?channel_id=UC1";
    assert_eq!(ready(to_feed_url(feed, None, None, false)), feed);
    assert_eq!(ready(to_feed_url("https://feeds.simplecast.com/aU_RzZ7j", None, None, false)), "https://feeds.simplecast.com/aU_RzZ7j");
}
