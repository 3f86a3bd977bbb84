use std::time::Duration;

use vod2pod_rss::rss_transcodizer::{parse_duration, parse_duration_in_range};

#[test]
fn test_parse_duration_hhmmss() {
    assert_eq!(
        Duration::from_secs(parse_duration("01:02:03").unwrap()),
        Duration::from_secs(3723)
    );
}

#[test]
fn test_parse_duration_mmss() {
    assert_eq!(
        Duration::from_secs(parse_duration("30:45").unwrap()),
        Duration::from_secs(1845)
    );
}

#[test]
fn test_parse_duration_ss() {
    assert_eq!(
        Duration::from_secs(parse_duration("15").unwrap()),
        Duration::from_secs(15)
    );
    assert_eq!(
        Duration::from_secs(parse_duration("45").unwrap()),
        Duration::from_secs(45)
    );
}

#[test]
fn test_parse_duration_wrong_format() {
    assert_eq!(parse_duration("invalid").unwrap_err(), "Invalid format".to_string());
}

#[test]
fn parse_duration_edge_cases() {
    assert_eq!(parse_duration("1:00:00:05"), Ok(5));
    assert_eq!(parse_duration(""), Err("Invalid format".to_string()));
    assert_eq!(parse_duration("1::2"), Err("Invalid format".to_string()));
    assert_eq!(parse_duration("+1:+2"), Ok(62));
    assert_eq!(parse_duration("2:70"), Ok(190));
}

use vod2pod_rss::feed::{build_default_rss_structure, render, FeedItem};
use vod2pod_rss::ids::generate_guid;
use vod2pod_rss::rss_transcodizer::{
    convert_item, duration_lookup, format_hms, get_description, media_source, sort_newest_first,
    transcodize_feed, ItemError, MediaSource,
};
use vod2pod_rss::feed_bytes::admitted_feed_bytes;
use vod2pod_rss::source::{read_feed, FeedError, SourceEntry, SourceMedia};

fn audio_media(url: &str, duration: Option<u64>) -> SourceMedia {
    SourceMedia {
        views: Some(10),
        contents: vec![
            (Some("video/mp4".to_string()), Some("https://cdn/v.mp4".to_string())),
            (Some("audio/mpeg".to_string()), Some(url.to_string())),
        ],
        description: Some("media description".to_string()),
        thumbnail: Some("https://cdn/t.jpg".to_string()),
        duration_secs: duration,
    }
}

fn podcast_entry() -> SourceEntry {
    SourceEntry {
        id: "episode-1".to_string(),
        title: Some("Episode 1".to_string()),
        links: vec![],
        published: Some((86400, 0)),
        content: None,
        summary: None,
        media: vec![audio_media("https://cdn/e1.mp3", Some(3723))],
    }
}

#[test]
fn podcast_entries_are_transcoded() {
    let item = convert_item(&podcast_entry(), "http://me/transcode_media/to.mp3", true, 192, "u-u-i-d", 0, "1.0")
        .unwrap()
        .unwrap();
    assert_eq!(item.title.as_deref(), Some("Episode 1"));
    assert_eq!(item.pub_date.as_deref(), Some("Fri, 2 Jan 1970 00:00:00 +0000"));
    let enclosure = item.enclosure.as_ref().unwrap();
    assert_eq!(enclosure.length, (192u64 * 1024 * 3723).to_string());
    assert_eq!(enclosure.mime_type, "audio/mpeg");
    assert_eq!(
        enclosure.url,
        "http://me/transcode_media/to.mp3?bitrate=192&uuid=u-u-i-d&duration=3723&url=https%3A%2F%2Fcdn%2Fe1.mp3&ext=.mp3"
    );
    assert_eq!(item.guid.as_ref().unwrap().value, generate_guid("episode-1").value);
    assert_eq!(item.guid.as_ref().unwrap().value, "917f5804-9379-3f2a-b513-2c395819d0c1");
    assert!(item.guid.as_ref().unwrap().permalink);
    let itunes = item.itunes.as_ref().unwrap();
    assert_eq!(itunes.duration.as_deref(), Some("01:02:03"));
    assert_eq!(itunes.image.as_deref(), Some("https://cdn/t.jpg"));
    assert!(item.description.as_deref().unwrap().starts_with("media description<br><br>generated by vod2pod-rss 1.0 made by"));
}

#[test]
fn without_transcoding_there_is_no_enclosure() {
    let item = convert_item(&podcast_entry(), "http://me/t", false, 192, "x", 0, "1.0").unwrap().unwrap();
    assert!(item.enclosure.is_none());
}

#[test]
fn premieres_are_left_out_and_missing_media_keeps_the_title() {
    let mut premiere = podcast_entry();
    premiere.media[0].views = Some(0);
    assert!(convert_item(&premiere, "http://me/t", true, 192, "x", 0, "1").unwrap().is_none());

    let mut bare = podcast_entry();
    bare.media.clear();
    let item = convert_item(&bare, "http://me/t", true, 192, "x", 0, "1").unwrap().unwrap();
    assert_eq!(item.title.as_deref(), Some("Episode 1"));
    assert!(item.enclosure.is_none() && item.itunes.is_none() && item.guid.is_none());
}

#[test]
fn youtube_links_need_a_looked_up_duration() {
    let mut e = podcast_entry();
    e.media = vec![SourceMedia { views: Some(5), contents: vec![], description: None, thumbnail: None, duration_secs: None }];
    e.links = vec!["https://example.org/x".to_string(), "https://www.youtube.com/watch?v=abc".to_string()];
    let (source, typed) = media_source(&e);
    assert!(typed);
    assert!(matches!(source, MediaSource::YoutubeLink(ref h) if h == "https://www.youtube.com/watch?v=abc"));
    assert_eq!(duration_lookup(&e).as_deref(), Some("https://www.youtube.com/watch?v=abc"));
    let item = convert_item(&e, "http://me/t", true, 1, "x", 61, "1").unwrap().unwrap();
    assert_eq!(item.itunes.unwrap().duration.as_deref(), Some("00:01:01"));
    assert_eq!(item.description, None);
}

#[test]
fn item_errors() {
    let mut untyped = podcast_entry();
    untyped.media[0].contents.insert(0, (None, Some("https://cdn/x".to_string())));
    assert_eq!(convert_item(&untyped, "http://me/t", true, 1, "x", 0, "1").unwrap_err(), ItemError::UntypedContent);
    let mut far = podcast_entry();
    far.published = Some((i64::MAX, 0));
    assert_eq!(convert_item(&far, "http://me/t", true, 1, "x", 0, "1").unwrap_err(), ItemError::DateOutOfRange);
    assert_eq!(convert_item(&podcast_entry(), "not a url", true, 1, "x", 0, "1").unwrap_err(), ItemError::ServiceUrlInvalid);
    assert_eq!(convert_item(&podcast_entry(), "http://me/t", true, u64::MAX / 1024, "x", 0, "1").unwrap_err(), ItemError::LengthOverflow);
}

#[test]
fn descriptions() {
    let mut e = podcast_entry();
    e.content = Some(None);
    let mut m = audio_media("https://cdn/a.mp3", None);
    m.description = None;
    assert!(get_description(&m, &e, "2").unwrap().starts_with("<br><br>generated by vod2pod-rss 2 "));
    e.content = None;
    e.summary = Some("sum".to_string());
    assert!(get_description(&m, &e, "2").unwrap().starts_with("sum<br>"));
    e.summary = None;
    assert_eq!(get_description(&m, &e, "2"), None);
    assert_eq!(format_hms(359999), "99:59:59");
    assert_eq!(format_hms(360000), "100:00:00");
}

fn dated(title: &str, date: Option<&str>) -> FeedItem {
    let mut i = vod2pod_rss::feed::empty_item();
    i.title = Some(title.to_string());
    i.pub_date = date.map(|d| d.to_string());
    i
}

#[test]
fn items_come_newest_first() {
    let items = vec![
        dated("old", Some("Mon, 1 Jan 2018 00:00:00 +0000")),
        dated("undated", None),
        dated("new", Some("Tue, 1 Jan 2019 00:00:00 +0000")),
        dated("old too", Some("Mon, 1 Jan 2018 01:00:00 +0100")),
    ];
    let sorted = sort_newest_first(items);
    let titles: Vec<_> = sorted.iter().map(|i| i.title.clone().unwrap()).collect();
    assert_eq!(titles, vec!["new", "old", "old too", "undated"]);
}

const RSS: &str = r#"<?xml version="1.0"?>
<rss version="2.0" xmlns:media="http://search.yahoo.com/mrss/"><channel>
<title>Show</title><description>About the show</description>
<image><url>https://cdn/logo.png</url><title>Logo</title><link>https://show</link></image>
<item><title>One</title><guid>g1</guid><pubDate>Mon, 01 Jan 2018 00:00:00 +0000</pubDate>
<enclosure url="https://cdn/1.mp3" length="10" type="audio/mpeg"/></item>
<item><title>Two</title><guid>g2</guid><pubDate>Tue, 01 Jan 2019 00:00:00 +0000</pubDate>
<enclosure url="https://cdn/2.mp3" length="10" type="audio/mpeg"/></item>
</channel></rss>"#;

#[test]
fn feeds_are_read_and_transcodized() {
    let feed = read_feed(RSS.as_bytes()).unwrap();
    assert_eq!(feed.title.as_deref(), Some("Show"));
    assert_eq!(feed.entries.len(), 2);
    let mut items = Vec::new();
    for e in feed.entries.iter() {
        if let Some(item) = convert_item(e, "http://me/t", true, 192, "x", 0, "1").unwrap() {
            items.push(item);
        }
    }
    assert_eq!(items.len(), 2);
    let podcast = transcodize_feed(&feed, items);
    assert_eq!(podcast.items[0].title.as_deref(), Some("Two"));
    assert_eq!(podcast.generator.as_deref(), Some("generated by vod2pod-rss"));
    let xml = render(&podcast);
    assert!(xml.contains("<title>Show</title>"));
    assert!(xml.contains("http://me/t?bitrate=192"));
    assert!(read_feed(b"not a feed").is_err());
}

#[test]
fn durations_beyond_64_bits_are_reported() {
    assert_eq!(parse_duration_in_range("1:00:00"), Some(Ok(3600)));
    assert_eq!(parse_duration_in_range("x"), Some(Err("Invalid format".to_string())));
    assert_eq!(parse_duration_in_range("18446744073709551615:00:00"), None);
    assert_eq!(parse_duration_in_range("9:18446744073709551615"), None);
    assert_eq!(parse_duration_in_range("18446744073709551615"), Some(Ok(u64::MAX)));
}

#[test]
fn default_rss_structure_is_an_unlisted_podcast() {
    let c = build_default_rss_structure();
    assert!(c.podcast_namespaces);
    assert_eq!(c.generator.as_deref(), Some("generated by vod2pod-rss"));
    assert_eq!(c.itunes.as_ref().unwrap().block.as_deref(), Some("yes"));
    assert!(c.items.is_empty() && c.title.is_empty());
    let xml = render(&c);
    assert!(xml.contains("<generator>generated by vod2pod-rss</generator>"));
    assert!(xml.contains("<itunes:block>yes</itunes:block>"));
}

#[test]
fn feed_fields_are_read_where_they_stand() {
    let feed = read_feed(RSS.as_bytes()).unwrap();
    assert_eq!(feed.title.as_deref(), Some("Show"));
    assert_eq!(feed.description.as_deref(), Some("About the show"));
    let logo = feed.logo.as_ref().unwrap();
    assert_eq!(logo.uri, "https://cdn/logo.png");
    assert_eq!(logo.title.as_deref(), Some("Logo"));
    assert_eq!(feed.entries[0].id, "g1");
    assert_eq!(feed.entries[1].title.as_deref(), Some("Two"));
    assert_eq!(feed.entries[0].media.len(), 1);
    assert_eq!(feed.entries[0].media[0].contents[0].1.as_deref(), Some("https://cdn/1.mp3"));
}

#[test]
fn feed_bytes_that_could_make_the_parser_panic_are_refused() {
    let with_duration = |d: &str| {
        format!(
            r#"<?xml version="1.0" encoding="UTF-8"?><rss version="2.0" xmlns:itunes="http://www.itunes.com/dtds/podcast-1.0.dtd"><channel><title>S</title><item><title>Don&#39;t 🎙</title><itunes:duration>{d}</itunes:duration></item></channel></rss>"#
        )
    };
    assert!(admitted_feed_bytes(with_duration("01:02:03").as_bytes()));
    assert!(admitted_feed_bytes(RSS.as_bytes()));
    let ok = read_feed(with_duration("01:02:03").as_bytes()).unwrap();
    assert_eq!(ok.entries[0].title.as_deref(), Some("Don't 🎙"));
    for bad in [
        with_duration("123456789012345678901:00:00"),
        with_duration("١٢"),
        with_duration("1&#50;"),
        with_duration("1<!-- x -->2"),
        with_duration("1<![CDATA[2]]>"),
        with_duration("12").replace("UTF-8", "UTF-16"),
    ] {
        assert!(!admitted_feed_bytes(bad.as_bytes()), "admitted: {bad}");
        assert_eq!(read_feed(bad.as_bytes()).unwrap_err(), FeedError::Refused);
    }
    assert!(!admitted_feed_bytes(&[0xFF, 0xFE, b'<', 0]));
}
