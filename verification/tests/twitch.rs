use vod2pod_rss::provider::twitch::{
    after_refused_attempt, build_twitch_feed, token_request_form, users_request_url,
    videos_request_url, vod_duration, vod_to_rss_item_converter, OAuthCredentials, TokenError,
    TwitchUser, TwitchVod,
};

fn vod(duration: &str, created_at: &str) -> TwitchVod {
    TwitchVod {
        id: "123".to_string(),
        title: "A stream".to_string(),
        created_at: created_at.to_string(),
        thumbnail_url: "https://cdn/thumb-%{width}x%{height}.jpg".to_string(),
        duration: duration.to_string(),
    }
}

#[test]
fn durations_are_zero_padded() {
    // `format!("{:02}", piece)` pads text on the right with spaces
    assert_eq!(vod_duration("1h2m3s"), "01:02:03");
    assert_eq!(vod_duration("2m3s"), "00:02:03");
    assert_eq!(vod_duration("3s"), "00:00:03");
    assert_eq!(vod_duration("10h20m30s"), "10:20:30");
    assert_eq!(vod_duration("5m7s"), "00:05:07");
    assert_eq!(vod_duration("42s"), "00:00:42");
    assert_eq!(vod_duration("1:2:3:4"), "00:00:00");
}

#[test]
fn vods_become_items() {
    let item = vod_to_rss_item_converter(&vod("1h2m3s", "2023-04-05T06:07:08Z"));
    assert_eq!(item.title.as_deref(), Some("A stream"));
    assert_eq!(item.description.as_deref(), Some("A stream"));
    assert_eq!(item.link.as_deref(), Some("https://www.twitch.tv/videos/123"));
    assert_eq!(item.guid.as_ref().map(|g| g.value.as_str()), Some("123"));
    assert_eq!(item.pub_date.as_deref(), Some("Wed, 5 Apr 2023 06:07:08 +0000"));
    let itunes = item.itunes.unwrap();
    assert_eq!(itunes.image.as_deref(), Some("https://cdn/thumb-512x288.jpg"));
    assert_eq!(itunes.summary.as_deref(), Some("A stream"));
}

#[test]
fn unreadable_dates_fall_back_to_the_epoch() {
    let item = vod_to_rss_item_converter(&vod("1s", "yesterday"));
    assert_eq!(item.pub_date.as_deref(), Some("Thu, 1 Jan 1970 00:00:00 +0000"));
}

#[test]
fn channel_feed() {
    let user = TwitchUser {
        id: "9".to_string(),
        display_name: "Streamer".to_string(),
        description: "About".to_string(),
        profile_image_url: "https://cdn/p.png".to_string(),
    };
    let feed = build_twitch_feed("https://www.twitch.tv/streamer", &user, &vec![vod("1s", "x")]);
    assert_eq!(feed.title, "Streamer");
    assert_eq!(feed.link, "https://www.twitch.tv/streamer");
    assert_eq!(feed.items.len(), 1);
    assert_eq!(feed.itunes.as_ref().unwrap().author.as_deref(), Some("Streamer"));
    assert_eq!(feed.image.as_ref().unwrap().url, "https://cdn/p.png");
    assert!(feed.podcast_namespaces);
}

#[test]
fn api_requests() {
    assert_eq!(users_request_url("abc"), "https://api.twitch.tv/helix/users?login=abc");
    assert_eq!(videos_request_url("42"), "https://api.twitch.tv/helix/videos?user_id=42");
    let form = token_request_form("id", "secret");
    assert_eq!(form[2], ("grant_type".to_string(), "client_credentials".to_string()));
}

#[test]
fn credentials() {
    assert_eq!(OAuthCredentials::key(), "twitch_oauth_credentials");
    let c = OAuthCredentials::from_token_response(Some("tok".to_string()), Some(60), 1000).unwrap();
    assert_eq!(c.oauth_expire_epoch, 1060);
    assert!(c.usable_at(1059));
    assert!(!c.usable_at(1060));
    assert_eq!(
        OAuthCredentials::from_token_response(None, Some(60), 0).unwrap_err(),
        TokenError::NoAccessToken
    );
    assert_eq!(
        OAuthCredentials::from_token_response(Some("t".to_string()), None, 0).unwrap_err(),
        TokenError::NoExpiresIn
    );
    assert_eq!(after_refused_attempt(0), (1, false));
    assert_eq!(after_refused_attempt(2), (3, true));
}
