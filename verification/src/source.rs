//! The feeds the service reads (RSS or Atom), parsed by the `feed-rs` crate
//! and held as plain values.
use vstd::prelude::*;

use feed_rs::model::{Entry, Feed, MediaObject};

use crate::feed_bytes::{admitted_feed_bytes, feed_bytes_admitted};
use crate::text::opt_view;

verus! {

#[verifier::external_type_specification]
#[verifier::external_body]
pub struct ExFeed(Feed);

#[verifier::external_type_specification]
#[verifier::external_body]
pub struct ExEntry(Entry);

#[verifier::external_type_specification]
#[verifier::external_body]
pub struct ExMediaObject(MediaObject);

/// An image of a feed: its address, title and description.
#[derive(Debug)]
pub struct SourceImage {
    pub uri: String,
    pub title: Option<String>,
    pub description: Option<String>,
}

/// A media object of an entry.
#[derive(Debug)]
pub struct SourceMedia {
    /// How many times it was viewed, where the feed says (YouTube does).
    pub views: Option<u64>,
    /// Its contents, as (MIME type, URL).
    pub contents: Vec<(Option<String>, Option<String>)>,
    pub description: Option<String>,
    /// The address of its first thumbnail.
    pub thumbnail: Option<String>,
    /// Its length in seconds.
    pub duration_secs: Option<u64>,
}

/// An entry of a feed.
#[derive(Debug)]
pub struct SourceEntry {
    pub id: String,
    pub title: Option<String>,
    /// The addresses of its links, in order.
    pub links: Vec<String>,
    /// When it was published: seconds since the Unix epoch, and nanoseconds.
    pub published: Option<(i64, u32)>,
    /// Its content, when it has one, and the content's body.
    pub content: Option<Option<String>>,
    pub summary: Option<String>,
    pub media: Vec<SourceMedia>,
}

/// A feed.
#[derive(Debug)]
pub struct SourceFeed {
    pub title: Option<String>,
    pub description: Option<String>,
    pub language: Option<String>,
    pub logo: Option<SourceImage>,
    pub icon: Option<SourceImage>,
    /// The address of its first link.
    pub first_link: Option<String>,
    pub entries: Vec<SourceEntry>,
}

/// The plain content of a media object.
pub struct MediaView {
    pub views: Option<u64>,
    pub contents: Seq<(Option<Seq<char>>, Option<Seq<char>>)>,
    pub description: Option<Seq<char>>,
    pub thumbnail: Option<Seq<char>>,
    pub duration_secs: Option<u64>,
}

/// The views of a list of (MIME type, URL) pairs.
pub open spec fn contents_view(v: Seq<(Option<String>, Option<String>)>) -> Seq<(Option<Seq<char>>, Option<Seq<char>>)> {
    v.map_values(|c: (Option<String>, Option<String>)| (opt_view(c.0), opt_view(c.1)))
}

impl View for SourceMedia {
    type V = MediaView;

    open spec fn view(&self) -> MediaView {
        MediaView {
            views: self.views,
            contents: contents_view(self.contents@),
            description: opt_view(self.description),
            thumbnail: opt_view(self.thumbnail),
            duration_secs: self.duration_secs,
        }
    }
}

/// The plain content of an entry.
pub struct EntryView {
    pub id: Seq<char>,
    pub title: Option<Seq<char>>,
    pub links: Seq<Seq<char>>,
    pub published: Option<(i64, u32)>,
    pub content: Option<Option<Seq<char>>>,
    pub summary: Option<Seq<char>>,
    pub media: Seq<MediaView>,
}

impl View for SourceEntry {
    type V = EntryView;

    open spec fn view(&self) -> EntryView {
        EntryView {
            id: self.id@,
            title: opt_view(self.title),
            links: crate::text::strings_view(self.links@),
            published: self.published,
            content: match self.content {
                Some(c) => Some(opt_view(c)),
                None => None,
            },
            summary: opt_view(self.summary),
            media: self.media@.map_values(|m: SourceMedia| m@),
        }
    }
}

/// Why a feed could not be read.
#[derive(Debug, PartialEq, Eq, Structural, Clone, Copy)]
pub enum FeedError {
    /// The text is no RSS or Atom feed.
    Unparsable,
    /// The bytes are not handed to feed-rs: they might hold a duration that
    /// it cannot read without panicking (see `feed_bytes_admitted`).
    Refused,
}

/// Whether `feed_rs::parser::parse` reads the bytes `bytes` as a feed.
pub uninterp spec fn parses_as_feed(bytes: Seq<u8>) -> bool;

/// The contents of the title and description and the language of the feed
/// that `feed_rs::parser::parse` reads from `bytes`.
pub uninterp spec fn feed_texts_of(bytes: Seq<u8>) -> (Option<Seq<char>>, Option<Seq<char>>, Option<Seq<char>>);

/// The logo (address, title, description) of the feed parsed from `bytes`.
pub uninterp spec fn feed_logo_of(bytes: Seq<u8>) -> Option<(Seq<char>, Option<Seq<char>>, Option<Seq<char>>)>;

/// The icon (address, title, description) of the feed parsed from `bytes`.
pub uninterp spec fn feed_icon_of(bytes: Seq<u8>) -> Option<(Seq<char>, Option<Seq<char>>, Option<Seq<char>>)>;

/// The address of the first link of the feed parsed from `bytes`.
pub uninterp spec fn feed_first_link_of(bytes: Seq<u8>) -> Option<Seq<char>>;

/// How many entries the feed parsed from `bytes` has.
pub uninterp spec fn feed_entry_count(bytes: Seq<u8>) -> nat;

/// The id of entry `i` of the feed parsed from `bytes`, when the entry has a
/// link (feed-rs then takes the entry's own id, or hashes its first link and
/// title, never a random one).
pub uninterp spec fn entry_id_of(bytes: Seq<u8>, i: int) -> Seq<char>;

/// The contents of the title and summary of entry `i` of the feed parsed from
/// `bytes`.
pub uninterp spec fn entry_texts_of(bytes: Seq<u8>, i: int) -> (Option<Seq<char>>, Option<Seq<char>>);

/// The addresses of the links of entry `i`, in order.
pub uninterp spec fn entry_links_of(bytes: Seq<u8>, i: int) -> Seq<Seq<char>>;

/// The content of entry `i`, if any, with its body.
pub uninterp spec fn entry_content_of(bytes: Seq<u8>, i: int) -> Option<Option<Seq<char>>>;

/// When entry `i` was published: seconds since the Unix epoch and nanoseconds.
pub uninterp spec fn entry_published_of(bytes: Seq<u8>, i: int) -> Option<(i64, u32)>;

/// How many media objects entry `i` has.
pub uninterp spec fn entry_media_count(bytes: Seq<u8>, i: int) -> nat;

/// The views, description content, first thumbnail address and duration in
/// seconds of media object `j` of entry `i`.
pub uninterp spec fn media_fields_of(bytes: Seq<u8>, i: int, j: int) -> (Option<u64>, Option<Seq<char>>, Option<Seq<char>>, Option<u64>);

/// The contents of media object `j` of entry `i`, as (MIME type, URL).
pub uninterp spec fn media_contents_of(bytes: Seq<u8>, i: int, j: int) -> Seq<(Option<Seq<char>>, Option<Seq<char>>)>;

/// A feed parsed by feed-rs, with the bytes it was parsed from. Only
/// `parse_feed` makes one.
struct ParsedFeed {
    feed: Feed,
    source: Ghost<Seq<u8>>,
}

impl View for ParsedFeed {
    type V = Seq<u8>;

    closed spec fn view(&self) -> Seq<u8> {
        self.source@
    }
}

/// Entry `i` of a parsed feed, with the bytes the feed was parsed from. Only
/// `feed_entries` makes one.
struct ParsedEntry {
    entry: Entry,
    at: Ghost<(Seq<u8>, int)>,
}

impl View for ParsedEntry {
    type V = (Seq<u8>, int);

    closed spec fn view(&self) -> (Seq<u8>, int) {
        self.at@
    }
}

/// Media object `j` of entry `i` of a parsed feed. Only `entry_media` makes
/// one.
struct ParsedMedia {
    media: MediaObject,
    at: Ghost<(Seq<u8>, int, int)>,
}

impl View for ParsedMedia {
    type V = (Seq<u8>, int, int);

    closed spec fn view(&self) -> (Seq<u8>, int, int) {
        self.at@
    }
}

/// Parses a feed with `feed_rs::parser::parse`. Trusted: it succeeds exactly
/// when the bytes are a feed, and the feed keeps the bytes it came from. The
/// requirement leaves out every input on which feed-rs panics reading a
/// duration (it unwraps `str::parse::<u64>` on each run of `\d`).
#[verifier::external_body]
fn parse_feed(bytes: &[u8]) -> (r: Option<ParsedFeed>)
    requires
        feed_bytes_admitted(bytes@),
    ensures
        r is Some == parses_as_feed(bytes@),
        r matches Some(p) ==> p@ == bytes@,
{
    match feed_rs::parser::parse(bytes) {
        Ok(feed) => Some(ParsedFeed { feed, source: Ghost(bytes@) }),
        Err(_) => None,
    }
}

/// The content of the title, description and language of a feed. Trusted:
/// the field values of the parsed feed.
#[verifier::external_body]
fn feed_texts(p: &ParsedFeed) -> (r: (Option<String>, Option<String>, Option<String>))
    ensures
        (opt_view(r.0), opt_view(r.1), opt_view(r.2)) == feed_texts_of(p@),
{
    let feed = &p.feed;
    (
        feed.title.as_ref().map(|t| t.content.clone()),
        feed.description.as_ref().map(|t| t.content.clone()),
        feed.language.clone(),
    )
}

/// The plain values of an optional image.
pub open spec fn image_parts_view(o: Option<(String, Option<String>, Option<String>)>) -> Option<(Seq<char>, Option<Seq<char>>, Option<Seq<char>>)> {
    match o {
        Some((u, t, d)) => Some((u@, opt_view(t), opt_view(d))),
        None => None,
    }
}

/// The logo of a feed: address, title, description. Trusted: the field values
/// of the parsed feed.
#[verifier::external_body]
fn feed_logo(p: &ParsedFeed) -> (r: Option<(String, Option<String>, Option<String>)>)
    ensures
        image_parts_view(r) == feed_logo_of(p@),
{
    let logo = p.feed.logo.as_ref()?;
    Some((logo.uri.clone(), logo.title.clone(), logo.description.clone()))
}

/// The icon of a feed: address, title, description. Trusted: the field values
/// of the parsed feed.
#[verifier::external_body]
fn feed_icon(p: &ParsedFeed) -> (r: Option<(String, Option<String>, Option<String>)>)
    ensures
        image_parts_view(r) == feed_icon_of(p@),
{
    let icon = p.feed.icon.as_ref()?;
    Some((icon.uri.clone(), icon.title.clone(), icon.description.clone()))
}

/// The address of the first link of a feed. Trusted: the field value of the
/// parsed feed.
#[verifier::external_body]
fn feed_first_link(p: &ParsedFeed) -> (r: Option<String>)
    ensures
        opt_view(r) == feed_first_link_of(p@),
{
    Some(p.feed.links.first()?.href.clone())
}

/// The entries of a feed, in order. Trusted: as many as the parsed feed has,
/// each marked with its place.
#[verifier::external_body]
fn feed_entries(p: &ParsedFeed) -> (r: Vec<ParsedEntry>)
    ensures
        r@.len() == feed_entry_count(p@),
        forall|i: int| 0 <= i < r@.len() ==> #[trigger] r@[i]@ == (p@, i),
{
    let mut out: Vec<ParsedEntry> = Vec::new();
    for e in p.feed.entries.iter() {
        out.push(ParsedEntry { entry: e.clone(), at: Ghost((p@, out.len() as int)) });
    }
    out
}

/// The id of an entry. Trusted: when the entry has a link, its id is named
/// (feed-rs draws a random id only for an entry with neither id nor link).
#[verifier::external_body]
fn entry_id(e: &ParsedEntry) -> (r: String)
    ensures
        entry_links_of(e@.0, e@.1).len() > 0 ==> r@ == entry_id_of(e@.0, e@.1),
{
    e.entry.id.clone()
}

/// The title content and summary content of an entry. Trusted: the field
/// values of the parsed entry.
#[verifier::external_body]
fn entry_texts(e: &ParsedEntry) -> (r: (Option<String>, Option<String>))
    ensures
        (opt_view(r.0), opt_view(r.1)) == entry_texts_of(e@.0, e@.1),
{
    (
        e.entry.title.as_ref().map(|t| t.content.clone()),
        e.entry.summary.as_ref().map(|t| t.content.clone()),
    )
}

/// The addresses of the links of an entry. Trusted: the field values of the
/// parsed entry, in order.
#[verifier::external_body]
fn entry_links(e: &ParsedEntry) -> (r: Vec<String>)
    ensures
        crate::text::strings_view(r@) == entry_links_of(e@.0, e@.1),
{
    let mut out: Vec<String> = Vec::new();
    for link in e.entry.links.iter() {
        out.push(link.href.clone());
    }
    out
}

/// The content of an entry, with its body. Trusted: the field value of the
/// parsed entry.
#[verifier::external_body]
fn entry_content(e: &ParsedEntry) -> (r: Option<Option<String>>)
    ensures
        (match r {
            Some(c) => Some(opt_view(c)),
            None => None,
        }) == entry_content_of(e@.0, e@.1),
{
    Some(e.entry.content.as_ref()?.body.clone())
}

/// When an entry was published (`DateTime::timestamp`,
/// `DateTime::timestamp_subsec_nanos`). Trusted: the field value of the parsed
/// entry.
#[verifier::external_body]
fn entry_published(e: &ParsedEntry) -> (r: Option<(i64, u32)>)
    ensures
        r == entry_published_of(e@.0, e@.1),
{
    let date = e.entry.published?;
    Some((date.timestamp(), date.timestamp_subsec_nanos()))
}

/// The media objects of an entry, in order. Trusted: as many as the parsed
/// entry has, each marked with its place.
#[verifier::external_body]
fn entry_media(e: &ParsedEntry) -> (r: Vec<ParsedMedia>)
    ensures
        r@.len() == entry_media_count(e@.0, e@.1),
        forall|j: int| 0 <= j < r@.len() ==> #[trigger] r@[j]@ == (e@.0, e@.1, j),
{
    let mut out: Vec<ParsedMedia> = Vec::new();
    for m in e.entry.media.iter() {
        out.push(ParsedMedia { media: m.clone(), at: Ghost((e@.0, e@.1, out.len() as int)) });
    }
    out
}

/// The views (of its community statistics), description content, first
/// thumbnail address and duration in seconds of a media object. Trusted: the
/// field values of the parsed media object.
#[verifier::external_body]
fn media_fields(m: &ParsedMedia) -> (r: (Option<u64>, Option<String>, Option<String>, Option<u64>))
    ensures
        (r.0, opt_view(r.1), opt_view(r.2), r.3) == media_fields_of(m@.0, m@.1, m@.2),
{
    let media = &m.media;
    (
        media.community.as_ref().and_then(|c| c.stats_views),
        media.description.as_ref().map(|t| t.content.clone()),
        media.thumbnails.first().map(|t| t.image.uri.clone()),
        media.duration.map(|d| d.as_secs()),
    )
}

/// The contents of a media object, as (MIME type, URL). Trusted: the field
/// values of the parsed media object, in order.
#[verifier::external_body]
fn media_contents(m: &ParsedMedia) -> (r: Vec<(Option<String>, Option<String>)>)
    ensures
        contents_view(r@) == media_contents_of(m@.0, m@.1, m@.2),
{
    let mut out: Vec<(Option<String>, Option<String>)> = Vec::new();
    for c in m.media.content.iter() {
        out.push((c.content_type.as_ref().map(|t| t.to_string()), c.url.as_ref().map(|u| u.to_string())));
    }
    out
}

/// Media object `j` of entry `i` of the feed parsed from `bytes`.
pub open spec fn media_view_of(bytes: Seq<u8>, i: int, j: int) -> MediaView {
    let f = media_fields_of(bytes, i, j);
    MediaView {
        views: f.0,
        contents: media_contents_of(bytes, i, j),
        description: f.1,
        thumbnail: f.2,
        duration_secs: f.3,
    }
}

/// Whether `e` holds entry `i` of the feed parsed from `bytes`: its title,
/// summary, links, date, content and media objects in order, and its id where
/// the entry has a link.
pub open spec fn entry_read_from(e: EntryView, bytes: Seq<u8>, i: int) -> bool {
    &&& entry_links_of(bytes, i).len() > 0 ==> e.id == entry_id_of(bytes, i)
    &&& e.title == entry_texts_of(bytes, i).0
    &&& e.summary == entry_texts_of(bytes, i).1
    &&& e.links == entry_links_of(bytes, i)
    &&& e.published == entry_published_of(bytes, i)
    &&& e.content == entry_content_of(bytes, i)
    &&& e.media.len() == entry_media_count(bytes, i)
    &&& forall|j: int| 0 <= j < e.media.len() ==> #[trigger] e.media[j] == media_view_of(bytes, i, j)
}

/// The plain values of an optional image.
pub open spec fn image_view(o: Option<SourceImage>) -> Option<(Seq<char>, Option<Seq<char>>, Option<Seq<char>>)> {
    match o {
        Some(img) => Some((img.uri@, opt_view(img.title), opt_view(img.description))),
        None => None,
    }
}

/// Whether `f` holds the feed parsed from `bytes`: its title, description,
/// language, logo, icon, first link, and its entries in order.
pub open spec fn feed_read_from(f: SourceFeed, bytes: Seq<u8>) -> bool {
    &&& (opt_view(f.title), opt_view(f.description), opt_view(f.language)) == feed_texts_of(bytes)
    &&& image_view(f.logo) == feed_logo_of(bytes)
    &&& image_view(f.icon) == feed_icon_of(bytes)
    &&& opt_view(f.first_link) == feed_first_link_of(bytes)
    &&& f.entries@.len() == feed_entry_count(bytes)
    &&& forall|i: int| 0 <= i < f.entries@.len() ==> entry_read_from(#[trigger] f.entries@[i]@, bytes, i)
}

/// The image with the given address, title and description, if any.
fn read_image(parts: Option<(String, Option<String>, Option<String>)>) -> (r: Option<SourceImage>)
    ensures
        match parts {
            Some((uri, title, description)) => r matches Some(img) && img.uri == uri
                && img.title == title && img.description == description,
            None => r is None,
        },
{
    match parts {
        Some((uri, title, description)) => Some(SourceImage { uri, title, description }),
        None => None,
    }
}

/// A media object of a parsed feed as plain values.
fn read_media(media: &ParsedMedia) -> (r: SourceMedia)
    ensures
        r@ == media_view_of(media@.0, media@.1, media@.2),
{
    let (views, description, thumbnail, duration_secs) = media_fields(media);
    SourceMedia { views, contents: media_contents(media), description, thumbnail, duration_secs }
}

/// An entry of a parsed feed as plain values, with its media objects in order.
fn read_entry(entry: &ParsedEntry) -> (r: SourceEntry)
    ensures
        entry_read_from(r@, entry@.0, entry@.1),
{
    let (title, summary) = entry_texts(entry);
    let objects = entry_media(entry);
    let mut media: Vec<SourceMedia> = Vec::new();
    let mut i: usize = 0;
    while i < objects.len()
        invariant
            i <= objects@.len(),
            objects@.len() == entry_media_count(entry@.0, entry@.1),
            forall|j: int| 0 <= j < objects@.len() ==> #[trigger] objects@[j]@ == (entry@.0, entry@.1, j),
            media@.len() == i,
            forall|j: int| 0 <= j < i ==> #[trigger] media@[j]@ == media_view_of(entry@.0, entry@.1, j),
        decreases objects@.len() - i,
    {
        let m = read_media(&objects[i]);
        media.push(m);
        i = i + 1;
    }
    let r = SourceEntry {
        id: entry_id(entry),
        title,
        links: entry_links(entry),
        published: entry_published(entry),
        content: entry_content(entry),
        summary,
        media,
    };
    assert(r@.media =~= media@.map_values(|m: SourceMedia| m@));
    r
}

/// Reads an RSS or Atom feed: bytes that might make feed-rs panic are refused
/// before it sees them; otherwise an error exactly when the bytes are no feed,
/// and else what feed-rs reads from them (see `feed_read_from`).
pub fn read_feed(bytes: &[u8]) -> (r: Result<SourceFeed, FeedError>)
    ensures
        !feed_bytes_admitted(bytes@) ==> r == Err::<SourceFeed, FeedError>(FeedError::Refused),
        feed_bytes_admitted(bytes@) ==> (r is Ok == parses_as_feed(bytes@)),
        feed_bytes_admitted(bytes@) && !parses_as_feed(bytes@) ==> r == Err::<SourceFeed, FeedError>(FeedError::Unparsable),
        r matches Ok(f) ==> feed_read_from(f, bytes@),
{
    if !admitted_feed_bytes(bytes) {
        return Err(FeedError::Refused);
    }
    let feed = match parse_feed(bytes) {
        Some(f) => f,
        None => return Err(FeedError::Unparsable),
    };
    let (title, description, language) = feed_texts(&feed);
    let raw_entries = feed_entries(&feed);
    let mut entries: Vec<SourceEntry> = Vec::new();
    let mut i: usize = 0;
    while i < raw_entries.len()
        invariant
            i <= raw_entries@.len(),
            raw_entries@.len() == feed_entry_count(bytes@),
            forall|k: int| 0 <= k < raw_entries@.len() ==> #[trigger] raw_entries@[k]@ == (bytes@, k),
            entries@.len() == i,
            forall|k: int| 0 <= k < i ==> entry_read_from(#[trigger] entries@[k]@, bytes@, k),
        decreases raw_entries@.len() - i,
    {
        let e = read_entry(&raw_entries[i]);
        entries.push(e);
        i = i + 1;
    }
    Ok(
        SourceFeed {
            title,
            description,
            language,
            logo: read_image(feed_logo(&feed)),
            icon: read_image(feed_icon(&feed)),
            first_link: feed_first_link(&feed),
            entries,
        },
    )
}

} // verus!
