//! Rumble channels, read from their web pages.
use vstd::prelude::*;

use crate::dates::{rfc3339_to_utc_rfc2822, utc_rfc2822_of};
use crate::html::{
    document_attr, document_matches, fragment_attr, fragment_matches, fragment_select_all,
    fragment_select_attr, fragment_select_text, fragment_text, select_all, select_attr,
};
use crate::feed::{build_default_rss_structure, empty_item, items_view, podcast_channel, ChannelImage, ChannelView, FeedChannel, FeedGuid, FeedItem, ItemView, ItunesItem};
use crate::text::{clone_opt, concat, ends_with_char, opt_view, str_eq, trim, trim_nonempty, trim_string, trimmed_nonempty};
use crate::urls::{parse_url, url_parsed};
use crate::html::document_text;
use crate::html::select_text;
use crate::urls::{join_url, url_joined};

verus! {

/// The provider of Rumble channels.
pub struct RumbleProvider;

/// What the channel page lists of one video.
#[derive(Debug)]
pub struct RumbleVideoStub {
    pub title: String,
    pub short_description: Option<String>,
    /// The absolute URL of the video's page.
    pub video_url: String,
    pub duration_str: Option<String>,
    pub pub_date_rfc2822: Option<String>,
}

/// The plain content of a `RumbleVideoStub`.
pub struct StubView {
    pub title: Seq<char>,
    pub short_description: Option<Seq<char>>,
    pub video_url: Seq<char>,
    pub duration: Option<Seq<char>>,
    pub pub_date: Option<Seq<char>>,
}

impl View for RumbleVideoStub {
    type V = StubView;

    open spec fn view(&self) -> StubView {
        StubView {
            title: self.title@,
            short_description: opt_view(self.short_description),
            video_url: self.video_url@,
            duration: opt_view(self.duration_str),
            pub_date: opt_view(self.pub_date_rfc2822),
        }
    }
}

/// What one channel page gives: the channel's title, description and image
/// (read on the first page only), its videos, and the next page.
pub struct RumblePage {
    pub title: Option<String>,
    pub description: Option<String>,
    pub image_url: Option<String>,
    pub stubs: Vec<RumbleVideoStub>,
    pub next_url: Option<String>,
}

/// The plain content of a `RumblePage`.
pub struct PageView {
    pub title: Option<Seq<char>>,
    pub description: Option<Seq<char>>,
    pub image_url: Option<Seq<char>>,
    pub stubs: Seq<StubView>,
    pub next_url: Option<Seq<char>>,
}

pub open spec fn stubs_view(s: Seq<RumbleVideoStub>) -> Seq<StubView> {
    s.map_values(|x: RumbleVideoStub| x@)
}

impl View for RumblePage {
    type V = PageView;

    open spec fn view(&self) -> PageView {
        PageView {
            title: opt_view(self.title),
            description: opt_view(self.description),
            image_url: opt_view(self.image_url),
            stubs: stubs_view(self.stubs@),
            next_url: opt_view(self.next_url),
        }
    }
}

pub open spec fn main_selector() -> Seq<char> {
    "main"@
}

pub open spec fn channel_title_selector() -> Seq<char> {
    "div.channel-header--title h1"@
}

pub open spec fn meta_description_selector() -> Seq<char> {
    "meta[name=\"description\"]"@
}

pub open spec fn avatar_selector() -> Seq<char> {
    "img.channel-header--img"@
}

pub open spec fn banner_selector() -> Seq<char> {
    "img.channel-header--backsplash-img"@
}

pub open spec fn video_selector() -> Seq<char> {
    "ol.thumbnail__grid div.videostream"@
}

/// Marks of a video that is live or yet to come.
pub open spec fn live_selector() -> Seq<char> {
    "span.video-item--live,span.video-item--upcoming,div.videostream__status--live,div.videostream__footer--live"@
}

pub open spec fn premium_selector() -> Seq<char> {
    "span.text-link-green"@
}

pub open spec fn video_title_selector() -> Seq<char> {
    "h3.thumbnail__title"@
}

pub open spec fn video_description_selector() -> Seq<char> {
    "div.videostream__description"@
}

pub open spec fn video_link_selector() -> Seq<char> {
    "a.videostream__link"@
}

pub open spec fn video_time_selector() -> Seq<char> {
    "time.videostream__time"@
}

pub open spec fn video_duration_selector() -> Seq<char> {
    "div.videostream__status--duration"@
}

pub open spec fn next_page_selector() -> Seq<char> {
    "a[rel=\"next\"], a.pagination__next, a.page-link[rel=\"next\"]"@
}

pub open spec fn rumble_base() -> Seq<char> {
    "https://rumble.com"@
}

/// The RFC 2822 date, in UTC, of the RFC 3339 date a video was published at;
/// a date outside the years 0 to 9999 in UTC is left out.
pub open spec fn stub_pub_date(datetime: Option<Seq<char>>) -> Option<Seq<char>> {
    match datetime {
        Some(dt) => utc_rfc2822_of(dt),
        None => None,
    }
}

/// Whether the premium label of a video says it is for subscribers only.
pub open spec fn is_premium(label: Option<Seq<char>>) -> bool {
    match label {
        Some(t) => trim(t) == "Premium only"@,
        None => false,
    }
}

/// The stub of the video whose markup is `v`; `None` when the video is live or
/// upcoming, for subscribers only, or has no usable link.
pub open spec fn spec_video_stub(v: Seq<char>) -> Option<StubView> {
    if fragment_matches(v, live_selector()).len() > 0 {
        None
    } else if is_premium(fragment_text(v, premium_selector())) {
        None
    } else {
        match fragment_attr(v, video_link_selector(), "href"@) {
            None => None,
            Some(href) => match url_joined(rumble_base(), href) {
                None => None,
                Some(url) => Some(
                    StubView {
                        title: match fragment_text(v, video_title_selector()) {
                            Some(t) => trim(t),
                            None => "N/A"@,
                        },
                        short_description: trimmed_nonempty(
                            fragment_text(v, video_description_selector()),
                        ),
                        video_url: url,
                        duration: trimmed_nonempty(fragment_text(v, video_duration_selector())),
                        pub_date: stub_pub_date(
                            fragment_attr(v, video_time_selector(), "datetime"@),
                        ),
                    },
                ),
            },
        }
    }
}

/// The stubs of the usable videos among `videos`, at most `slots` of them.
pub open spec fn spec_collect_stubs(videos: Seq<Seq<char>>, slots: nat) -> Seq<StubView>
    decreases videos.len(),
{
    if videos.len() == 0 || slots == 0 {
        Seq::empty()
    } else {
        match spec_video_stub(videos[0]) {
            Some(s) => seq![s] + spec_collect_stubs(videos.drop_first(), (slots - 1) as nat),
            None => spec_collect_stubs(videos.drop_first(), slots),
        }
    }
}

/// What a channel page gives. Without a `<main>` element nothing is read. On
/// the first page the channel's title (the trimmed heading), description (the
/// trimmed meta description) and image (the avatar, else the banner) are read.
/// The next page is the `next` link resolved against the page's URL.
pub open spec fn spec_rumble_page(html: Seq<char>, current_url: Seq<char>, first: bool, slots: nat) -> PageView {
    let mains = document_matches(html, main_selector());
    if mains.len() == 0 {
        PageView { title: None, description: None, image_url: None, stubs: Seq::empty(), next_url: None }
    } else {
        let main = mains[0];
        PageView {
            title: if first {
                trimmed_nonempty(fragment_text(main, channel_title_selector()))
            } else {
                None
            },
            description: if first {
                trimmed_nonempty(document_attr(html, meta_description_selector(), "content"@))
            } else {
                None
            },
            image_url: if first {
                match fragment_attr(main, avatar_selector(), "src"@) {
                    Some(src) => Some(src),
                    None => fragment_attr(main, banner_selector(), "src"@),
                }
            } else {
                None
            },
            stubs: spec_collect_stubs(fragment_matches(main, video_selector()), slots),
            next_url: match document_attr(html, next_page_selector(), "href"@) {
                Some(href) => url_joined(current_url, href),
                None => None,
            },
        }
    }
}

/// Collecting stubs never takes more than the slots allow.
proof fn lemma_collect_stubs_len(videos: Seq<Seq<char>>, slots: nat)
    ensures
        spec_collect_stubs(videos, slots).len() <= slots,
    decreases videos.len(),
{
    if videos.len() > 0 && slots > 0 {
        lemma_collect_stubs_len(videos.drop_first(), (slots - 1) as nat);
        lemma_collect_stubs_len(videos.drop_first(), slots);
    }
}

/// A channel page gives at most as many videos as there are slots left, and
/// only the first page gives the channel's title, description and image.
pub proof fn law_rumble_page_bounds(html: Seq<char>, current_url: Seq<char>, first: bool, slots: nat)
    ensures
        spec_rumble_page(html, current_url, first, slots).stubs.len() <= slots,
        !first ==> spec_rumble_page(html, current_url, first, slots).title is None
            && spec_rumble_page(html, current_url, first, slots).description is None
            && spec_rumble_page(html, current_url, first, slots).image_url is None,
{
    let mains = document_matches(html, main_selector());
    if mains.len() > 0 {
        lemma_collect_stubs_len(fragment_matches(mains[0], video_selector()), slots);
    }
}

/// Reads the stub of one video from its markup.
pub fn video_stub(v: &str) -> (r: Option<RumbleVideoStub>)
    ensures
        match r {
            Some(s) => spec_video_stub(v@) == Some(s@),
            None => spec_video_stub(v@) is None,
        },
{
    let live = fragment_select_all(v, "span.video-item--live,span.video-item--upcoming,div.videostream__status--live,div.videostream__footer--live");
    if live.len() > 0 {
        return None;
    }
    let label = fragment_select_text(v, "span.text-link-green");
    match &label {
        Some(t) => {
            let t2 = trim_string(t.as_str());
            proof {
                reveal_strlit("Premium only");
            }
            if str_eq(t2.as_str(), "Premium only") {
                return None;
            }
        },
        None => {},
    }
    let href = match fragment_select_attr(v, "a.videostream__link", "href") {
        Some(h) => h,
        None => return None,
    };
    let video_url = match join_url("https://rumble.com", href.as_str()) {
        Some(u) => u,
        None => return None,
    };
    let title = match fragment_select_text(v, "h3.thumbnail__title") {
        Some(t) => trim_string(t.as_str()),
        None => String::from_str("N/A"),
    };
    let short_description = trim_nonempty(fragment_select_text(v, "div.videostream__description"));
    let duration_str = trim_nonempty(fragment_select_text(v, "div.videostream__status--duration"));
    let pub_date_rfc2822 = match fragment_select_attr(v, "time.videostream__time", "datetime") {
        Some(dt) => rfc3339_to_utc_rfc2822(dt.as_str()),
        None => None,
    };
    Some(RumbleVideoStub { title, short_description, video_url, duration_str, pub_date_rfc2822 })
}

/// The stubs of the usable videos among `videos`, at most `slots` of them.
pub fn collect_stubs(videos: &Vec<String>, slots: usize) -> (r: Vec<RumbleVideoStub>)
    ensures
        stubs_view(r@) == spec_collect_stubs(crate::text::strings_view(videos@), slots as nat),
        r@.len() <= slots,
{
    let ghost all = crate::text::strings_view(videos@);
    let mut stubs: Vec<RumbleVideoStub> = Vec::new();
    let mut i: usize = 0;
    assert(all.subrange(0, all.len() as int) =~= all);
    assert(stubs_view(stubs@) + spec_collect_stubs(all, slots as nat) =~= spec_collect_stubs(all, slots as nat));
    while i < videos.len()
        invariant
            i <= videos@.len(),
            all == crate::text::strings_view(videos@),
            stubs@.len() <= slots,
            stubs_view(stubs@) + spec_collect_stubs(
                all.subrange(i as int, all.len() as int),
                (slots - stubs@.len()) as nat,
            ) == spec_collect_stubs(all, slots as nat),
        decreases videos@.len() - i,
    {
        let ghost rest = all.subrange(i as int, all.len() as int);
        let ghost left = (slots - stubs@.len()) as nat;
        assert(rest.drop_first() =~= all.subrange(i + 1, all.len() as int));
        assert(rest[0] == videos@[i as int]@);
        if stubs.len() >= slots {
            proof {
                assert(spec_collect_stubs(rest, left) == Seq::<StubView>::empty());
                assert(stubs_view(stubs@) + Seq::<StubView>::empty() =~= stubs_view(stubs@));
                assert(all.subrange(all.len() as int, all.len() as int) =~= Seq::<Seq<char>>::empty());
                assert(spec_collect_stubs(all.subrange(all.len() as int, all.len() as int), 0) =~= Seq::<StubView>::empty());
            }
            i = videos.len();
            proof {
                assert(spec_collect_stubs(all.subrange(i as int, all.len() as int), 0) == Seq::<StubView>::empty());
            }
        } else {
            let ghost before = stubs_view(stubs@);
            match video_stub(videos[i].as_str()) {
                Some(stub) => {
                    stubs.push(stub);
                    proof {
                        assert(stubs_view(stubs@) =~= before.push(stubs@.last()@));
                        assert(before.push(stubs@.last()@) + spec_collect_stubs(rest.drop_first(), (left - 1) as nat)
                            =~= before + (seq![stubs@.last()@] + spec_collect_stubs(rest.drop_first(), (left - 1) as nat)));
                    }
                },
                None => {},
            }
            i = i + 1;
        }
    }
    proof {
        assert(all.subrange(i as int, all.len() as int) =~= Seq::<Seq<char>>::empty());
        assert(stubs_view(stubs@) + Seq::<StubView>::empty() =~= stubs_view(stubs@));
    }
    stubs
}

/// Reads one channel page of Rumble: the channel's title, description and
/// image (on the first page), at most `remaining_slots` videos, and the next
/// page.
pub fn parse_rumble_channel_page(
    html: &str,
    current_url: &str,
    is_first_page: bool,
    remaining_slots: usize,
) -> (r: RumblePage)
    ensures
        r@ == spec_rumble_page(html@, current_url@, is_first_page, remaining_slots as nat),
        r.stubs@.len() <= remaining_slots,
{
    let mains = select_all(html, "main");
    if mains.len() == 0 {
        let stubs: Vec<RumbleVideoStub> = Vec::new();
        proof {
            assert(stubs_view(stubs@) =~= Seq::<StubView>::empty());
        }
        return RumblePage { title: None, description: None, image_url: None, stubs, next_url: None };
    }
    let main = mains[0].as_str();
    let mut title: Option<String> = None;
    let mut description: Option<String> = None;
    let mut image_url: Option<String> = None;
    if is_first_page {
        title = trim_nonempty(fragment_select_text(main, "div.channel-header--title h1"));
        description = trim_nonempty(select_attr(html, "meta[name=\"description\"]", "content"));
        image_url = match fragment_select_attr(main, "img.channel-header--img", "src") {
            Some(src) => Some(src),
            None => fragment_select_attr(main, "img.channel-header--backsplash-img", "src"),
        };
    }
    let videos = fragment_select_all(main, "ol.thumbnail__grid div.videostream");
    let stubs = collect_stubs(&videos, remaining_slots);
    let next_url = match select_attr(html, "a[rel=\"next\"], a.pagination__next, a.page-link[rel=\"next\"]", "href") {
        Some(href) => join_url(current_url, href.as_str()),
        None => None,
    };
    RumblePage { title, description, image_url, stubs, next_url }
}

/// What has been gathered of a channel while its pages are read.
pub struct RumbleCrawl {
    /// The most videos to gather.
    pub max_items: usize,
    /// Whether no page has been read yet.
    pub first_page: bool,
    pub title: Option<String>,
    pub description: Option<String>,
    pub image_url: Option<String>,
    pub stubs: Vec<RumbleVideoStub>,
}

impl RumbleCrawl {
    /// Nothing gathered yet.
    pub fn new(max_items: usize) -> (r: Self)
        ensures
            r.max_items == max_items && r.first_page,
            r.title is None && r.description is None && r.image_url is None,
            r.stubs@.len() == 0,
    {
        RumbleCrawl { max_items, first_page: true, title: None, description: None, image_url: None, stubs: Vec::new() }
    }

    /// How many more videos may be gathered.
    pub fn remaining_slots(&self) -> (r: usize)
        requires
            self.stubs@.len() <= self.max_items,
        ensures
            r == self.max_items - self.stubs@.len(),
    {
        self.max_items - self.stubs.len()
    }

    /// Takes in a page read with `remaining_slots` slots: its videos are added
    /// and, on the first page, the channel's title, description and image are
    /// kept. Gives the page to read next, if any: none once enough videos are
    /// gathered or when the page has no next one.
    pub fn add_page(&mut self, page: RumblePage) -> (next: Option<String>)
        requires
            old(self).stubs@.len() + page.stubs@.len() <= old(self).max_items,
        ensures
            final(self).max_items == old(self).max_items,
            !final(self).first_page,
            stubs_view(final(self).stubs@) == stubs_view(old(self).stubs@) + page@.stubs,
            final(self).stubs@.len() <= final(self).max_items,
            old(self).first_page ==> (opt_view(final(self).title) == page@.title
                && opt_view(final(self).description) == page@.description
                && opt_view(final(self).image_url) == page@.image_url),
            !old(self).first_page ==> (final(self).title == old(self).title
                && final(self).description == old(self).description
                && final(self).image_url == old(self).image_url),
            opt_view(next) == (if final(self).stubs@.len() >= final(self).max_items {
                None
            } else {
                page@.next_url
            }),
    {
        let RumblePage { title, description, image_url, stubs, next_url } = page;
        if self.first_page {
            self.title = title;
            self.description = description;
            self.image_url = image_url;
            self.first_page = false;
        }
        let ghost before = self.stubs@;
        let mut page_stubs = stubs;
        let ghost added = page_stubs@;
        self.stubs.append(&mut page_stubs);
        proof {
            assert(stubs_view(self.stubs@) =~= stubs_view(before) + stubs_view(added));
        }
        if self.stubs.len() >= self.max_items {
            None
        } else {
            next_url
        }
    }
}

/// The URL of a channel's about page: `about` after the channel's URL and a
/// slash (added when missing).
pub open spec fn spec_about_url(channel_url: Seq<char>) -> Option<Seq<char>> {
    let base = if channel_url.len() > 0 && channel_url.last() == '/' {
        channel_url
    } else {
        channel_url.push('/')
    };
    url_parsed(base + "about"@)
}

/// The URL of a channel's about page, as in
/// `https://rumble.com/c/name` to `https://rumble.com/c/name/about`.
pub fn build_rumble_about_url(channel_url: &str) -> (r: Option<String>)
    ensures
        opt_view(r) == spec_about_url(channel_url@),
{
    let base = if ends_with_char(channel_url, '/') {
        String::from_str(channel_url)
    } else {
        concat(channel_url, "/")
    };
    let s = concat(base.as_str(), "about");
    proof {
        reveal_strlit("/");
        assert(channel_url@ + "/"@ =~= channel_url@.push('/'));
    }
    parse_url(s.as_str())
}

pub open spec fn about_text_selector() -> Seq<char> {
    "div.channel-about__description, div.channel-header--about, div.media-description"@
}

pub open spec fn long_description_selector() -> Seq<char> {
    "div[data-js=\"media_long_description_container\"], div.media-description--expanded"@
}

/// The description on a channel's about page: its meta description, else the
/// text of its about section, trimmed and only when something is left.
pub open spec fn spec_about_description(html: Seq<char>) -> Option<Seq<char>> {
    match trimmed_nonempty(document_attr(html, meta_description_selector(), "content"@)) {
        Some(d) => Some(d),
        None => trimmed_nonempty(document_text(html, about_text_selector())),
    }
}

/// Reads the description from a channel's about page.
pub fn rumble_about_description(html: &str) -> (r: Option<String>)
    ensures
        opt_view(r) == spec_about_description(html@),
{
    match trim_nonempty(select_attr(html, "meta[name=\"description\"]", "content")) {
        Some(d) => Some(d),
        None => trim_nonempty(select_text(html, "div.channel-about__description, div.channel-header--about, div.media-description")),
    }
}

/// Reads the full description from a video's page: the trimmed text of its
/// long description, when something is left.
pub fn rumble_video_description(html: &str) -> (r: Option<String>)
    ensures
        opt_view(r) == trimmed_nonempty(document_text(html@, long_description_selector())),
{
    trim_nonempty(select_text(html, "div[data-js=\"media_long_description_container\"], div.media-description--expanded"))
}

/// The item of a video: its title and link, the link as guid, the full
/// description (else the short one) as description and summary, its duration
/// and its date.
pub open spec fn spec_rumble_item(stub: StubView, full_description: Option<Seq<char>>) -> ItemView {
    let description = match full_description {
        Some(d) => Some(d),
        None => stub.short_description,
    };
    ItemView {
        title: Some(stub.title),
        link: Some(stub.video_url),
        description,
        author: None,
        pub_date: stub.pub_date,
        guid: Some((stub.video_url, true)),
        enclosure: None,
        itunes: Some((stub.duration, description, None)),
    }
}

/// What an item of a Rumble video carries, stated of any item `it`: the
/// video's title and link, its link as a permanent guid, its date, the
/// video's duration as the iTunes duration, and the full description (else
/// the short one) both as description and as iTunes summary.
pub open spec fn item_carries_stub(stub: StubView, full_description: Option<Seq<char>>, it: ItemView) -> bool {
    let description = if full_description is Some { full_description } else { stub.short_description };
    &&& it.title == Some(stub.title)
    &&& it.link == Some(stub.video_url)
    &&& it.guid == Some((stub.video_url, true))
    &&& it.pub_date == stub.pub_date
    &&& it.description == description
    &&& it.itunes matches Some((duration, summary, _)) && duration == stub.duration && summary == description
}

/// Every Rumble item keeps what its video's stub says: title, link, date,
/// description and, as iTunes duration, the video's length.
pub proof fn law_rumble_item_keeps_the_stub(stub: StubView, full_description: Option<Seq<char>>)
    ensures
        item_carries_stub(stub, full_description, spec_rumble_item(stub, full_description)),
{
}

/// The item of a video.
pub fn rumble_item(stub: &RumbleVideoStub, full_description: Option<String>) -> (r: FeedItem)
    ensures
        r@ == spec_rumble_item(stub@, opt_view(full_description)),
        item_carries_stub(stub@, opt_view(full_description), r@),
{
    proof {
        law_rumble_item_keeps_the_stub(stub@, opt_view(full_description));
    }
    let description = match full_description {
        Some(d) => Some(d),
        None => clone_opt(&stub.short_description),
    };
    let mut item = empty_item();
    item.title = Some(stub.title.clone());
    item.link = Some(stub.video_url.clone());
    item.guid = Some(FeedGuid { value: stub.video_url.clone(), permalink: true });
    item.description = clone_opt(&description);
    item.itunes = Some(ItunesItem { duration: clone_opt(&stub.duration_str), summary: description, image: None });
    item.pub_date = clone_opt(&stub.pub_date_rfc2822);
    item
}

/// The feed of a Rumble channel: titled by the channel (else its URL),
/// described by its about page (else its meta description, else a line naming
/// the URL), in English, with the channel's image when there is one, and an
/// item per gathered video.
pub open spec fn spec_rumble_feed(
    channel_url: Seq<char>,
    title: Option<Seq<char>>,
    meta_description: Option<Seq<char>>,
    image_url: Option<Seq<char>>,
    stubs: Seq<StubView>,
    about_description: Option<Seq<char>>,
    full_descriptions: Seq<Option<Seq<char>>>,
) -> ChannelView {
    podcast_channel(
        match title {
            Some(t) => t,
            None => channel_url,
        },
        channel_url,
        match about_description {
            Some(d) => d,
            None => match meta_description {
                Some(d) => d,
                None => "Rumble channel: "@ + channel_url,
            },
        },
        Some("en"@),
        match image_url {
            Some(u) => Some((u, Seq::<char>::empty(), None)),
            None => None,
        },
        Some((None, None, None, Some("yes"@))),
        Seq::new(stubs.len(), |i: int| spec_rumble_item(stubs[i], full_descriptions[i])),
    )
}

/// A Rumble feed has an item per gathered video, so no more than the most
/// videos gathered; it is titled by the channel's title, else its URL, and
/// described by the about page, else the meta description, else a line naming
/// the URL.
pub proof fn law_rumble_feed_fallbacks(
    channel_url: Seq<char>,
    title: Option<Seq<char>>,
    meta_description: Option<Seq<char>>,
    image_url: Option<Seq<char>>,
    stubs: Seq<StubView>,
    about_description: Option<Seq<char>>,
    full_descriptions: Seq<Option<Seq<char>>>,
    max_items: nat,
)
    requires
        stubs.len() <= max_items,
    ensures
        ({
            let f = spec_rumble_feed(channel_url, title, meta_description, image_url, stubs, about_description, full_descriptions);
            &&& f.items.len() == stubs.len() && f.items.len() <= max_items
            &&& f.title == (if title is Some { title->0 } else { channel_url })
            &&& f.description == (if about_description is Some {
                about_description->0
            } else if meta_description is Some {
                meta_description->0
            } else {
                "Rumble channel: "@ + channel_url
            })
        }),
{
}

/// The views of a list of optional strings.
pub open spec fn opts_view(v: Seq<Option<String>>) -> Seq<Option<Seq<char>>> {
    v.map_values(|o: Option<String>| opt_view(o))
}

/// Builds the feed of a Rumble channel from what its pages gave and the
/// descriptions read from the about page and from each video's page.
pub fn build_rumble_feed(
    channel_url: &str,
    crawl: &RumbleCrawl,
    about_description: Option<String>,
    full_descriptions: Vec<Option<String>>,
) -> (r: FeedChannel)
    requires
        full_descriptions@.len() == crawl.stubs@.len(),
    ensures
        r@ == spec_rumble_feed(
            channel_url@,
            opt_view(crawl.title),
            opt_view(crawl.description),
            opt_view(crawl.image_url),
            stubs_view(crawl.stubs@),
            opt_view(about_description),
            opts_view(full_descriptions@),
        ),
{
    let mut feed = build_default_rss_structure();
    feed.link = String::from_str(channel_url);
    feed.language = Some(String::from_str("en"));
    feed.title = match &crawl.title {
        Some(t) => t.clone(),
        None => String::from_str(channel_url),
    };
    feed.description = match about_description {
        Some(d) => d,
        None => match &crawl.description {
            Some(d) => d.clone(),
            None => concat("Rumble channel: ", channel_url),
        },
    };
    feed.image = match &crawl.image_url {
        Some(u) => Some(ChannelImage { url: u.clone(), link: String::new(), description: None }),
        None => None,
    };
    let mut items: Vec<FeedItem> = Vec::new();
    let mut i: usize = 0;
    while i < crawl.stubs.len()
        invariant
            i <= crawl.stubs@.len() == full_descriptions@.len(),
            items_view(items@) == Seq::new(
                i as nat,
                |k: int| spec_rumble_item(crawl.stubs@[k]@, opt_view(full_descriptions@[k])),
            ),
        decreases crawl.stubs@.len() - i,
    {
        let ghost before = items@;
        let full = clone_opt(&full_descriptions[i]);
        let item = rumble_item(&crawl.stubs[i], full);
        items.push(item);
        proof {
            assert(items@ == before.push(item));
            assert(items_view(items@) =~= items_view(before).push(item@));
            assert(items_view(items@) =~= Seq::new(
                (i + 1) as nat,
                |k: int| spec_rumble_item(crawl.stubs@[k]@, opt_view(full_descriptions@[k])),
            ));
        }
        i = i + 1;
    }
    feed.items = items;
    proof {
        reveal_strlit("en");
        assert(items_view(feed.items@) =~= Seq::new(
            stubs_view(crawl.stubs@).len(),
            |k: int| spec_rumble_item(stubs_view(crawl.stubs@)[k], opts_view(full_descriptions@)[k]),
        ));
    }
    feed
}

/// The URLs Rumble serves: its site and its media hosts.
pub open spec fn spec_rumble_whitelist() -> Seq<Seq<char>> {
    seq!["^https?://(www\\.)?rumble\\.com"@, "^https?://sp\\.rmbl\\.ws"@, "^https?://rmbl\\.ws"@]
}

/// The regular expressions of the URLs Rumble serves.
pub fn rumble_whitelist() -> (r: Vec<String>)
    ensures
        crate::text::strings_view(r@) == spec_rumble_whitelist(),
{
    let r = vec![
        String::from_str("^https?://(www\\.)?rumble\\.com"),
        String::from_str("^https?://sp\\.rmbl\\.ws"),
        String::from_str("^https?://rmbl\\.ws"),
    ];
    assert(crate::text::strings_view(r@) =~= spec_rumble_whitelist());
    r
}

/// The arguments of `yt-dlp` that print the URL of the audio stream of the
/// video at `url`.
pub fn rumble_stream_args(url: &str) -> (r: Vec<String>)
    ensures
        crate::text::strings_view(r@) == seq!["-f"@, "bestaudio/best"@, "--get-url"@, url@],
{
    let r = vec![String::from_str("-f"), String::from_str("bestaudio/best"), String::from_str("--get-url"), String::from_str(url)];
    assert(crate::text::strings_view(r@) =~= seq!["-f"@, "bestaudio/best"@, "--get-url"@, url@]);
    r
}

/// The URL that `yt-dlp` printed: its output, trimmed, parsed as a URL.
pub fn rumble_url_from_output(stdout: &str) -> (r: Option<String>)
    ensures
        opt_view(r) == crate::urls::url_parsed(trim(stdout@)),
{
    let t = trim_string(stdout);
    crate::urls::parse_url(t.as_str())
}

impl RumbleProvider {
    /// The regular expressions of the URLs this provider serves.
    pub fn domain_whitelist_regexes(&self) -> (r: Vec<String>)
        ensures
            crate::text::strings_view(r@) == spec_rumble_whitelist(),
    {
        rumble_whitelist()
    }
}

} // verus!
