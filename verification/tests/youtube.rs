use vod2pod_rss::provider::youtube::{
    api_feed, build_channel_from_playlist, build_channel_from_yt_channel,
    build_channel_items_from_playlist, channel_lookup_args, convert_atom_to_rss, duration_args,
    duration_batches, feed_url_for_yt_playlist, sort_by_publication,
    stream_url_args, url_from_output, video_lengths, youtube_min_seconds, youtube_route,
    PlaylistError, PlaylistPaging, VideoLength, YoutubeRoute, YtItemSnippet, YtPlaylistItem,
    YtSnippet, YtThumbnails,
};
use vod2pod_rss::source::{SourceEntry, SourceFeed, SourceImage, SourceMedia};

fn media(description: Option<&str>, thumb: Option<&str>) -> SourceMedia {
    SourceMedia {
        views: None,
        contents: vec![],
        description: description.map(|s| s.to_string()),
        thumbnail: thumb.map(|s| s.to_string()),
        duration_secs: None,
    }
}

fn entry(id: &str, link: Option<&str>) -> SourceEntry {
    SourceEntry {
        id: id.to_string(),
        title: Some(format!("title {id}")),
        links: link.map(|l| vec![l.to_string()]).unwrap_or_default(),
        published: None,
        content: None,
        summary: None,
        media: vec![media(Some("desc"), Some("https://i/t.jpg"))],
    }
}

#[test]
fn min_seconds_setting() {
    assert_eq!(youtube_min_seconds(None), 0);
    assert_eq!(youtube_min_seconds(Some("90")), 90);
    assert_eq!(youtube_min_seconds(Some("x")), 0);
}

#[test]
fn routes() {
    assert_eq!(youtube_route("https://www.youtube.com/playlist?list=1"), YoutubeRoute::Playlist);
    assert_eq!(youtube_route("https://www.youtube.com/feeds/videos.xml?channel_id=1"), YoutubeRoute::Feed);
    assert_eq!(youtube_route("https://www.youtube.com/@someone"), YoutubeRoute::Channel);
    assert_eq!(youtube_route("https://www.youtube.com/c/someone"), YoutubeRoute::Channel);
    assert_eq!(youtube_route("https://www.youtube.com/watch?v=1"), YoutubeRoute::Unsupported);
    assert_eq!(
        feed_url_for_yt_playlist("https://www.youtube.com/playlist?list=PL%201").as_deref(),
        Some("https://www.youtube.com/feeds/videos.xml?playlist_id=PL+1")
    );
    assert_eq!(feed_url_for_yt_playlist("https://www.youtube.com/playlist"), None);
}

#[test]
fn ytdlp_arguments() {
    let global = vec!["--cookies".to_string(), "c.txt".to_string()];
    assert_eq!(
        stream_url_args(&global, &vec!["--x".to_string()], "https://y/v"),
        vec!["--cookies", "c.txt", "-f", "bestaudio", "--get-url", "--x", "https://y/v"]
    );
    assert_eq!(
        channel_lookup_args(&vec![], "https://y/@c"),
        vec!["--playlist-items", "0", "-O", "playlist:channel_url", "https://y/@c"]
    );
    assert_eq!(duration_args(&global, "u"), vec!["--cookies", "c.txt", "--get-duration", "u"]);
    assert_eq!(url_from_output(" https://youtube.com/channel/UC1 \n").as_deref(), Some("https://youtube.com/channel/UC1"));
}

#[test]
fn atom_feeds_become_podcasts() {
    let feed = SourceFeed {
        title: Some("Chan".to_string()),
        description: None,
        language: Some("en".to_string()),
        logo: None,
        icon: Some(SourceImage { uri: "https://i/icon.png".to_string(), title: None, description: None }),
        first_link: Some("https://www.youtube.com/channel/UC1".to_string()),
        entries: vec![entry("a", Some("https://www.youtube.com/watch?v=a")), entry("b", None), entry("c", Some("l"))],
    };
    let podcast = convert_atom_to_rss(&feed, &vec![Some(3725), None, Some(30)], 60);
    assert_eq!(podcast.title, "Chan");
    assert_eq!(podcast.description, "");
    assert_eq!(podcast.link, "https://www.youtube.com/channel/UC1");
    assert_eq!(podcast.image.as_ref().unwrap().url, "https://i/icon.png");
    assert_eq!(podcast.items.len(), 2);
    let first = &podcast.items[0];
    assert_eq!(first.itunes.as_ref().unwrap().duration.as_deref(), Some("01:02:05"));
    assert_eq!(first.guid.as_ref().unwrap().value, "a");
    assert_eq!(first.description.as_deref(), Some("desc"));
    assert_eq!(podcast.items[1].link, None);
    assert_eq!(podcast.items[1].itunes.as_ref().unwrap().duration, None);
}

fn thumbs() -> Option<YtThumbnails> {
    Some(YtThumbnails {
        maxres: None,
        high: Some(Some("https://i/high.jpg".to_string())),
        medium: Some(Some("https://i/medium.jpg".to_string())),
        standard: None,
        default_size: None,
    })
}

fn item(id: Option<&str>, published: Option<&str>) -> YtPlaylistItem {
    YtPlaylistItem {
        snippet: Some(YtItemSnippet {
            title: Some("T".to_string()),
            description: None,
            video_id: id.map(|s| s.to_string()),
            published_at: published.map(|s| s.to_string()),
            channel_title: Some("Ch".to_string()),
            thumbnails: thumbs(),
        }),
    }
}

fn length(id: &str, h: i64, m: i64, s: i64) -> VideoLength {
    VideoLength { video_id: id.to_string(), hours: h, minutes: m, seconds: s }
}

#[test]
fn playlist_items_become_podcast_items() {
    let items = vec![item(Some("v1"), Some("2020-01-01T00:00:00Z")), item(None, None), item(Some("v2"), None), item(Some("v3"), None)];
    let lengths = vec![length("v1", 0, 0, 1), length("v1", 1, 2, 3), length("v3", 0, 0, 10)];
    let out = build_channel_items_from_playlist(&items, &lengths, 60).unwrap();
    assert_eq!(out.len(), 1);
    let it = &out[0];
    assert_eq!(it.link.as_deref(), Some("https://www.youtube.com/watch?v=v1"));
    assert_eq!(it.description.as_deref(), Some(""));
    assert_eq!(it.author.as_deref(), Some("Ch"));
    assert_eq!(it.pub_date.as_deref(), Some("Wed, 1 Jan 2020 00:00:00 +0000"));
    let itunes = it.itunes.as_ref().unwrap();
    assert_eq!(itunes.duration.as_deref(), Some("01:02:03"));
    assert_eq!(itunes.image.as_deref(), Some("https://i/high.jpg"));
    let all = build_channel_items_from_playlist(&items, &lengths, 0).unwrap();
    assert_eq!(all.len(), 2);
    let huge = vec![length("v1", i64::MAX, 0, 0)];
    assert_eq!(build_channel_items_from_playlist(&items, &huge, 0).unwrap_err(), PlaylistError::LengthOverflow);
}

#[test]
fn channels_and_playlists() {
    let snippet = Some(YtSnippet {
        title: Some("Name".to_string()),
        description: None,
        default_language: None,
        thumbnails: thumbs(),
    });
    let c = build_channel_from_yt_channel(&Some("UC1".to_string()), &snippet);
    assert_eq!(c.link, "https://www.youtube.com/channel/UC1");
    assert_eq!(c.itunes.as_ref().unwrap().explicit.as_deref(), Some("no"));
    let feed = api_feed(c, vec![]);
    assert_eq!(feed.image.as_ref().unwrap().url, "https://i/high.jpg");
    assert_eq!(feed.title, "Name");
    let p = build_channel_from_playlist(&Some("PL1".to_string()), &None);
    assert_eq!(p.link, "");
    let p = build_channel_from_playlist(&Some("PL1".to_string()), &snippet);
    assert_eq!(p.link, "https://www.youtube.com/playlist?list=PL1");
}

#[test]
fn lengths_and_batches() {
    let l = video_lengths(&vec![(Some("b".to_string()), Some("PT1H2M3S".to_string()))]).unwrap();
    assert_eq!((l[0].hours, l[0].minutes, l[0].seconds), (1, 2, 3));
    let infos = vec![(Some("a".to_string()), Some("PT5M".to_string())), (None, Some("PT1S".to_string()))];
    let lengths = video_lengths(&infos).unwrap();
    assert_eq!(lengths.len(), 1);
    assert_eq!((lengths[0].hours, lengths[0].minutes, lengths[0].seconds), (0, 5, 0));
    assert!(video_lengths(&vec![(Some("a".to_string()), Some("x".to_string()))]).is_err());
    let ids: Vec<Option<String>> = (0..120).map(|i| if i % 2 == 0 { Some(format!("v{i}")) } else { None }).collect();
    let batches = duration_batches(&ids);
    assert_eq!(batches.len(), 3);
    assert_eq!(batches[0].len(), 25);
    assert_eq!(batches[2].len(), 10);
}

#[test]
fn paging_and_order() {
    let mut paging = PlaylistPaging::new(120);
    assert_eq!(paging.items_to_fetch(), 50);
    assert!(paging.after_response(50, Some("t".to_string())));
    assert!(paging.after_response(50, Some("t2".to_string())));
    assert_eq!(paging.items_to_fetch(), 20);
    assert!(!paging.after_response(20, None));
    let sorted = sort_by_publication(vec![
        item(Some("late"), Some("2021-01-01T00:00:00Z")),
        item(Some("none"), None),
        item(Some("early"), Some("2020-01-01T00:00:00Z")),
    ]);
    let ids: Vec<_> = sorted.iter().map(|i| i.snippet.as_ref().unwrap().video_id.clone().unwrap()).collect();
    assert_eq!(ids, vec!["none", "early", "late"]);
}
