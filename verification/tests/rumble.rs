use vod2pod_rss::provider::rumble::{
    build_rumble_about_url, build_rumble_feed, parse_rumble_channel_page, rumble_about_description,
    rumble_stream_args, rumble_url_from_output, rumble_video_description, video_stub, RumbleCrawl,
};

const PAGE: &str = r#"<html><head><meta name="description" content="  A channel  "></head><body>
<main>
  <div class="channel-header--title"><h1> My Channel </h1></div>
  <img class="channel-header--backsplash-img" src="https://img/banner.jpg">
  <ol class="thumbnail__grid">
    <div class="videostream">
      <h3 class="thumbnail__title"> First </h3>
      <div class="videostream__description"> short one </div>
      <a class="videostream__link" href="/v1-first.html">x</a>
      <time class="videostream__time" datetime="2024-01-02T03:04:05+01:00"></time>
      <div class="videostream__status--duration"> 1:02 </div>
    </div>
    <div class="videostream">
      <span class="video-item--live">LIVE</span>
      <h3 class="thumbnail__title">Live now</h3>
      <a class="videostream__link" href="/live.html">x</a>
    </div>
    <div class="videostream">
      <span class="text-link-green"> Premium only </span>
      <a class="videostream__link" href="/premium.html">x</a>
    </div>
    <div class="videostream">
      <div class="videostream__description">   </div>
      <a class="videostream__link" href="https://rumble.com/v2-second.html">x</a>
    </div>
  </ol>
</main>
<a rel="next" href="?page=2">next</a>
</body></html>"#;

#[test]
fn first_page_gives_channel_and_videos() {
    let page = parse_rumble_channel_page(PAGE, "https://rumble.com/c/mine", true, 10);
    assert_eq!(page.title.as_deref(), Some("My Channel"));
    assert_eq!(page.description.as_deref(), Some("A channel"));
    assert_eq!(page.image_url.as_deref(), Some("https://img/banner.jpg"));
    assert_eq!(page.stubs.len(), 2);
    let first = &page.stubs[0];
    assert_eq!(first.title, "First");
    assert_eq!(first.short_description.as_deref(), Some("short one"));
    assert_eq!(first.video_url, "https://rumble.com/v1-first.html");
    assert_eq!(first.duration_str.as_deref(), Some("1:02"));
    assert_eq!(first.pub_date_rfc2822.as_deref(), Some("Tue, 2 Jan 2024 02:04:05 +0000"));
    let second = &page.stubs[1];
    assert_eq!(second.title, "N/A");
    assert_eq!(second.short_description, None);
    assert_eq!(page.next_url.as_deref(), Some("https://rumble.com/c/mine?page=2"));
}

#[test]
fn later_pages_read_only_videos_up_to_the_slots() {
    let page = parse_rumble_channel_page(PAGE, "https://rumble.com/c/mine", false, 1);
    assert_eq!(page.title, None);
    assert_eq!(page.description, None);
    assert_eq!(page.stubs.len(), 1);
}

#[test]
fn a_page_without_main_gives_nothing() {
    let page = parse_rumble_channel_page("<p>hi</p>", "https://rumble.com/c/x", true, 5);
    assert!(page.stubs.is_empty() && page.next_url.is_none() && page.title.is_none());
}

#[test]
fn crawling_stops_at_the_limit() {
    let mut crawl = RumbleCrawl::new(2);
    let page = parse_rumble_channel_page(PAGE, "https://rumble.com/c/mine", true, crawl.remaining_slots());
    let next = crawl.add_page(page);
    assert_eq!(crawl.stubs.len(), 2);
    assert_eq!(next, None);
    assert_eq!(crawl.title.as_deref(), Some("My Channel"));

    let mut crawl = RumbleCrawl::new(5);
    let page = parse_rumble_channel_page(PAGE, "https://rumble.com/c/mine", true, crawl.remaining_slots());
    assert_eq!(crawl.add_page(page).as_deref(), Some("https://rumble.com/c/mine?page=2"));
    assert_eq!(crawl.remaining_slots(), 3);
}

#[test]
fn about_page_and_video_page() {
    assert_eq!(
        build_rumble_about_url("https://rumble.com/c/nickjfuentes").as_deref(),
        Some("https://rumble.com/c/nickjfuentes/about")
    );
    assert_eq!(
        build_rumble_about_url("https://rumble.com/c/x/").as_deref(),
        Some("https://rumble.com/c/x/about")
    );
    let about = r#"<html><body><div class="channel-about__description"> Long about </div></body></html>"#;
    assert_eq!(rumble_about_description(about).as_deref(), Some("Long about"));
    let video = r#"<div data-js="media_long_description_container"> Full text </div>"#;
    assert_eq!(rumble_video_description(video).as_deref(), Some("Full text"));
    assert_eq!(rumble_video_description("<p></p>"), None);
}

#[test]
fn stubs_skip_live_and_premium() {
    assert!(video_stub(r#"<div><span class="video-item--upcoming"></span><a class="videostream__link" href="/a"></a></div>"#).is_none());
    assert!(video_stub(r#"<div><a class="videostream__link"></a></div>"#).is_none());
}

#[test]
fn feed_of_a_channel() {
    let mut crawl = RumbleCrawl::new(10);
    let page = parse_rumble_channel_page(PAGE, "https://rumble.com/c/mine", true, crawl.remaining_slots());
    crawl.add_page(page);
    let feed = build_rumble_feed(
        "https://rumble.com/c/mine",
        &crawl,
        None,
        vec![Some("the full one".to_string()), None],
    );
    assert_eq!(feed.title, "My Channel");
    assert_eq!(feed.description, "A channel");
    assert_eq!(feed.language.as_deref(), Some("en"));
    assert_eq!(feed.items.len(), 2);
    assert_eq!(feed.items[0].description.as_deref(), Some("the full one"));
    assert_eq!(feed.items[1].description, None);
    assert_eq!(feed.items[0].guid.as_ref().unwrap().value, "https://rumble.com/v1-first.html");

    let empty = RumbleCrawl::new(10);
    let feed = build_rumble_feed("https://rumble.com/c/x", &empty, None, vec![]);
    assert_eq!(feed.title, "https://rumble.com/c/x");
    assert_eq!(feed.description, "Rumble channel: https://rumble.com/c/x");
}

#[test]
fn stream_url_through_ytdlp() {
    assert_eq!(rumble_stream_args("https://rumble.com/v1"), vec!["-f", "bestaudio/best", "--get-url", "https://rumble.com/v1"]);
    assert_eq!(rumble_url_from_output("  https://sp.rmbl.ws/a.mp4\n").as_deref(), Some("https://sp.rmbl.ws/a.mp4"));
    assert_eq!(rumble_url_from_output("ERROR"), None);
}

#[test]
fn dates_of_the_last_and_first_years_are_kept() {
    let stub = |dt: &str| {
        let html = format!(
            r#"<div class="videostream"><a class="videostream__link" href="/v.html">x</a><time class="videostream__time" datetime="{dt}"></time></div>"#
        );
        video_stub(&html).unwrap().pub_date_rfc2822
    };
    assert_eq!(stub("9999-01-01T00:00:00Z").as_deref(), Some("Fri, 1 Jan 9999 00:00:00 +0000"));
    assert_eq!(stub("0000-06-01T00:00:00Z").is_some(), true);
    assert_eq!(stub("9999-12-31T23:00:00-05:00"), None);
    assert_eq!(stub("not a date"), None);
}
