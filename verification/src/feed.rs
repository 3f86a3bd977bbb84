//! The podcast feed that the service hands out: a channel and its items, and
//! their RSS form, written by the `rss` crate.
use vstd::prelude::*;

use rss::extension::itunes::{ITunesChannelExtension, ITunesItemExtension};
use rss::{Channel, Enclosure, Guid, Image, Item};

use std::collections::BTreeMap;

use crate::text::opt_view;

verus! {

#[verifier::external_type_specification]
#[verifier::external_body]
pub struct ExItem(Item);

#[verifier::external_type_specification]
#[verifier::external_body]
pub struct ExChannel(Channel);

/// The unique id of an item.
#[derive(Debug)]
pub struct FeedGuid {
    pub value: String,
    /// Whether the id is a URL that leads to the item.
    pub permalink: bool,
}

/// The media file of an item.
#[derive(Debug)]
pub struct FeedEnclosure {
    pub url: String,
    /// The size in bytes, in decimal.
    pub length: String,
    pub mime_type: String,
}

/// What podcast players read of an item.
#[derive(Debug)]
pub struct ItunesItem {
    /// `hh:mm:ss`.
    pub duration: Option<String>,
    pub summary: Option<String>,
    pub image: Option<String>,
}

/// One episode of the feed.
#[derive(Debug)]
pub struct FeedItem {
    pub title: Option<String>,
    pub link: Option<String>,
    pub description: Option<String>,
    pub author: Option<String>,
    /// RFC 2822.
    pub pub_date: Option<String>,
    pub guid: Option<FeedGuid>,
    pub enclosure: Option<FeedEnclosure>,
    pub itunes: Option<ItunesItem>,
}

/// The image of a channel.
#[derive(Debug)]
pub struct ChannelImage {
    pub url: String,
    pub link: String,
    pub description: Option<String>,
}

/// What podcast players read of a channel.
#[derive(Debug)]
pub struct ItunesChannel {
    pub image: Option<String>,
    pub author: Option<String>,
    pub explicit: Option<String>,
    /// `yes` asks podcast directories not to list the feed.
    pub block: Option<String>,
}

/// A podcast feed.
#[derive(Debug)]
pub struct FeedChannel {
    pub title: String,
    pub link: String,
    pub description: String,
    pub language: Option<String>,
    pub generator: Option<String>,
    pub image: Option<ChannelImage>,
    pub itunes: Option<ItunesChannel>,
    /// Whether the `rss` and `itunes` XML namespaces are declared.
    pub podcast_namespaces: bool,
    pub items: Vec<FeedItem>,
}

/// The plain content of an item: the guid as (value, permalink), the
/// enclosure as (url, length, mime type), the iTunes part as (duration,
/// summary, image).
pub struct ItemView {
    pub title: Option<Seq<char>>,
    pub link: Option<Seq<char>>,
    pub description: Option<Seq<char>>,
    pub author: Option<Seq<char>>,
    pub pub_date: Option<Seq<char>>,
    pub guid: Option<(Seq<char>, bool)>,
    pub enclosure: Option<(Seq<char>, Seq<char>, Seq<char>)>,
    pub itunes: Option<(Option<Seq<char>>, Option<Seq<char>>, Option<Seq<char>>)>,
}

impl View for FeedItem {
    type V = ItemView;

    open spec fn view(&self) -> ItemView {
        ItemView {
            title: opt_view(self.title),
            link: opt_view(self.link),
            description: opt_view(self.description),
            author: opt_view(self.author),
            pub_date: opt_view(self.pub_date),
            guid: match self.guid {
                Some(g) => Some((g.value@, g.permalink)),
                None => None,
            },
            enclosure: match self.enclosure {
                Some(e) => Some((e.url@, e.length@, e.mime_type@)),
                None => None,
            },
            itunes: match self.itunes {
                Some(x) => Some((opt_view(x.duration), opt_view(x.summary), opt_view(x.image))),
                None => None,
            },
        }
    }
}

/// The views of a list of items.
pub open spec fn items_view(v: Seq<FeedItem>) -> Seq<ItemView> {
    v.map_values(|i: FeedItem| i@)
}

/// The plain content of a channel: the image as (url, link, description), the
/// iTunes part as (image, author, explicit, block).
pub struct ChannelView {
    pub title: Seq<char>,
    pub link: Seq<char>,
    pub description: Seq<char>,
    pub language: Option<Seq<char>>,
    pub generator: Option<Seq<char>>,
    pub image: Option<(Seq<char>, Seq<char>, Option<Seq<char>>)>,
    pub itunes: Option<(Option<Seq<char>>, Option<Seq<char>>, Option<Seq<char>>, Option<Seq<char>>)>,
    pub podcast_namespaces: bool,
    pub items: Seq<ItemView>,
}

impl View for FeedChannel {
    type V = ChannelView;

    open spec fn view(&self) -> ChannelView {
        ChannelView {
            title: self.title@,
            link: self.link@,
            description: self.description@,
            language: opt_view(self.language),
            generator: opt_view(self.generator),
            image: match self.image {
                Some(i) => Some((i.url@, i.link@, opt_view(i.description))),
                None => None,
            },
            itunes: match self.itunes {
                Some(x) => Some((opt_view(x.image), opt_view(x.author), opt_view(x.explicit), opt_view(x.block))),
                None => None,
            },
            podcast_namespaces: self.podcast_namespaces,
            items: items_view(self.items@),
        }
    }
}

/// The channel every generated feed starts from, with the given title, link,
/// description, language, image and iTunes part: the podcast namespaces are
/// declared and the service is the generator.
pub open spec fn podcast_channel(
    title: Seq<char>,
    link: Seq<char>,
    description: Seq<char>,
    language: Option<Seq<char>>,
    image: Option<(Seq<char>, Seq<char>, Option<Seq<char>>)>,
    itunes: Option<(Option<Seq<char>>, Option<Seq<char>>, Option<Seq<char>>, Option<Seq<char>>)>,
    items: Seq<ItemView>,
) -> ChannelView {
    ChannelView {
        title,
        link,
        description,
        language,
        generator: Some(generator_name()),
        image,
        itunes,
        podcast_namespaces: true,
        items,
    }
}

/// The name the service signs its feeds with.
pub open spec fn generator_name() -> Seq<char> {
    "generated by vod2pod-rss"@
}

/// An empty item.
pub fn empty_item() -> (r: FeedItem)
    ensures
        r.title is None && r.link is None && r.description is None && r.author is None,
        r.pub_date is None && r.guid is None && r.enclosure is None && r.itunes is None,
{
    FeedItem {
        title: None,
        link: None,
        description: None,
        author: None,
        pub_date: None,
        guid: None,
        enclosure: None,
        itunes: None,
    }
}

/// An empty channel (no title, link or description yet).
pub fn empty_channel() -> (r: FeedChannel)
    ensures
        r.title@ == Seq::<char>::empty() && r.link@ == Seq::<char>::empty(),
        r.description@ == Seq::<char>::empty(),
        r.language is None && r.generator is None && r.image is None && r.itunes is None,
        !r.podcast_namespaces && r.items@.len() == 0,
{
    FeedChannel {
        title: String::new(),
        link: String::new(),
        description: String::new(),
        language: None,
        generator: None,
        image: None,
        itunes: None,
        podcast_namespaces: false,
        items: Vec::new(),
    }
}

/// The channel every generated feed starts from: the podcast namespaces, the
/// service as generator, and a request to podcast directories not to list it.
pub fn build_default_rss_structure() -> (r: FeedChannel)
    ensures
        r.title@ == Seq::<char>::empty() && r.link@ == Seq::<char>::empty(),
        r.description@ == Seq::<char>::empty(),
        r.language is None && r.image is None && r.items@.len() == 0,
        r.podcast_namespaces,
        r.generator matches Some(g) && g@ == generator_name(),
        r.itunes matches Some(it) && it.image is None && it.author is None && it.explicit is None
            && (it.block matches Some(b) && b@ == "yes"@),
{
    let mut c = empty_channel();
    c.podcast_namespaces = true;
    c.generator = Some(String::from_str("generated by vod2pod-rss"));
    c.itunes = Some(
        ItunesChannel {
            image: None,
            author: None,
            explicit: None,
            block: Some(String::from_str("yes")),
        },
    );
    proof {
        reveal_strlit("generated by vod2pod-rss");
        reveal_strlit("yes");
    }
    c
}

/// What an `rss::Channel` holds once the library has filled it: the fields it
/// sets (the image as (url, link, description), the iTunes extension as
/// (image, author, explicit, block)), the declared XML namespaces, and the
/// items; everything else keeps its `Default` value.
pub struct RssChannelModel {
    pub title: Seq<char>,
    pub link: Seq<char>,
    pub description: Seq<char>,
    pub language: Option<Seq<char>>,
    pub generator: Option<Seq<char>>,
    pub image: Option<(Seq<char>, Seq<char>, Option<Seq<char>>)>,
    pub itunes: Option<(Option<Seq<char>>, Option<Seq<char>>, Option<Seq<char>>, Option<Seq<char>>)>,
    pub namespaces: Map<Seq<char>, Seq<char>>,
    pub items: Seq<ItemView>,
}

/// The XML text that rss's `Display` (`Channel::to_string`) writes of a
/// channel that holds `channel`, each item holding what its `ItemView` says
/// (title, link, description, author, publication date, guid, enclosure and
/// iTunes duration, summary and image) and nothing else.
pub uninterp spec fn rss_xml(channel: RssChannelModel) -> Seq<char>;

/// The namespace map made from (prefix, URI) pairs, a later pair replacing an
/// earlier one with the same prefix.
pub open spec fn pairs_map(pairs: Seq<(Seq<char>, Seq<char>)>) -> Map<Seq<char>, Seq<char>>
    decreases pairs.len(),
{
    if pairs.len() == 0 {
        Map::empty()
    } else {
        pairs_map(pairs.drop_last()).insert(pairs.last().0, pairs.last().1)
    }
}

/// An `rss::Item` under construction, with what it holds.
struct RssItem {
    item: Item,
    model: Ghost<ItemView>,
}

impl View for RssItem {
    type V = ItemView;

    closed spec fn view(&self) -> ItemView {
        self.model@
    }
}

/// An `rss::Channel` under construction, with what it holds.
struct RssChannel {
    channel: Channel,
    model: Ghost<RssChannelModel>,
}

impl View for RssChannel {
    type V = RssChannelModel;

    closed spec fn view(&self) -> RssChannelModel {
        self.model@
    }
}

/// An item holding the given title, link, description, author and
/// publication date, and nothing else.
pub open spec fn plain_item(
    title: Option<Seq<char>>,
    link: Option<Seq<char>>,
    description: Option<Seq<char>>,
    author: Option<Seq<char>>,
    pub_date: Option<Seq<char>>,
) -> ItemView {
    ItemView { title, link, description, author, pub_date, guid: None, enclosure: None, itunes: None }
}

/// An `rss::Item` (`Item::default`) with the given title, link, description,
/// author and publication date set through its setters. Trusted: it holds
/// those and nothing else.
#[verifier::external_body]
fn rss_item(
    title: Option<String>,
    link: Option<String>,
    description: Option<String>,
    author: Option<String>,
    pub_date: Option<String>,
) -> (r: RssItem)
    ensures
        r@ == plain_item(opt_view(title), opt_view(link), opt_view(description), opt_view(author), opt_view(pub_date)),
{
    let model = Ghost(plain_item(opt_view(title), opt_view(link), opt_view(description), opt_view(author), opt_view(pub_date)));
    let mut item = Item::default();
    item.set_title(title);
    item.set_link(link);
    item.set_description(description);
    item.set_author(author);
    item.set_pub_date(pub_date);
    RssItem { item, model }
}

/// Sets the guid of an `rss::Item` (`Guid` with `set_value`, `set_permalink`).
/// Trusted: only the guid changes.
#[verifier::external_body]
fn set_item_guid(item: &mut RssItem, value: String, permalink: bool)
    ensures
        final(item)@ == (ItemView { guid: Some((value@, permalink)), ..old(item)@ }),
{
    item.model = Ghost(ItemView { guid: Some((value@, permalink)), ..item.model@ });
    let mut guid = Guid::default();
    guid.set_value(value);
    guid.set_permalink(permalink);
    item.item.set_guid(Some(guid));
}

/// Sets the enclosure of an `rss::Item`. Trusted: only the enclosure changes.
#[verifier::external_body]
fn set_item_enclosure(item: &mut RssItem, url: String, length: String, mime_type: String)
    ensures
        final(item)@ == (ItemView { enclosure: Some((url@, length@, mime_type@)), ..old(item)@ }),
{
    item.model = Ghost(ItemView { enclosure: Some((url@, length@, mime_type@)), ..item.model@ });
    let mut enclosure = Enclosure::default();
    enclosure.set_url(url);
    enclosure.set_length(length);
    enclosure.set_mime_type(mime_type);
    item.item.set_enclosure(Some(enclosure));
}

/// Sets the iTunes extension of an `rss::Item` (duration, summary, image).
/// Trusted: only that extension changes.
#[verifier::external_body]
fn set_item_itunes(
    item: &mut RssItem,
    duration: Option<String>,
    summary: Option<String>,
    image: Option<String>,
)
    ensures
        final(item)@ == (ItemView {
            itunes: Some((opt_view(duration), opt_view(summary), opt_view(image))),
            ..old(item)@
        }),
{
    item.model = Ghost(ItemView { itunes: Some((opt_view(duration), opt_view(summary), opt_view(image))), ..item.model@ });
    let mut ext = ITunesItemExtension::default();
    ext.set_duration(duration);
    ext.set_summary(summary);
    ext.set_image(image);
    item.item.set_itunes_ext(Some(ext));
}

/// A channel holding the given title, link, description, language and
/// generator, no image, iTunes extension, namespaces or items.
pub open spec fn plain_channel(
    title: Seq<char>,
    link: Seq<char>,
    description: Seq<char>,
    language: Option<Seq<char>>,
    generator: Option<Seq<char>>,
) -> RssChannelModel {
    RssChannelModel {
        title,
        link,
        description,
        language,
        generator,
        image: None,
        itunes: None,
        namespaces: Map::empty(),
        items: Seq::empty(),
    }
}

/// An `rss::Channel` (`Channel::default`) with the given title, link,
/// description, language and generator. Trusted: it holds those, no
/// namespaces and no items.
#[verifier::external_body]
fn rss_channel(
    title: String,
    link: String,
    description: String,
    language: Option<String>,
    generator: Option<String>,
) -> (r: RssChannel)
    ensures
        r@ == plain_channel(title@, link@, description@, opt_view(language), opt_view(generator)),
{
    let model = Ghost(plain_channel(title@, link@, description@, opt_view(language), opt_view(generator)));
    let mut channel = Channel::default();
    channel.set_title(title);
    channel.set_link(link);
    channel.set_description(description);
    channel.set_language(language);
    channel.set_generator(generator);
    RssChannel { channel, model }
}

/// Sets the image of an `rss::Channel`. Trusted: only the image changes.
#[verifier::external_body]
fn set_channel_image(channel: &mut RssChannel, url: String, link: String, description: Option<String>)
    ensures
        final(channel)@ == (RssChannelModel { image: Some((url@, link@, opt_view(description))), ..old(channel)@ }),
{
    channel.model = Ghost(RssChannelModel { image: Some((url@, link@, opt_view(description))), ..channel.model@ });
    let mut image = Image::default();
    image.set_url(url);
    image.set_link(link);
    image.set_description(description);
    channel.channel.set_image(Some(image));
}

/// Sets the iTunes extension of an `rss::Channel` (image, author, explicit,
/// block). Trusted: only that extension changes.
#[verifier::external_body]
fn set_channel_itunes(
    channel: &mut RssChannel,
    image: Option<String>,
    author: Option<String>,
    explicit: Option<String>,
    block: Option<String>,
)
    ensures
        final(channel)@ == (RssChannelModel {
            itunes: Some((opt_view(image), opt_view(author), opt_view(explicit), opt_view(block))),
            ..old(channel)@
        }),
{
    channel.model = Ghost(RssChannelModel { itunes: Some((opt_view(image), opt_view(author), opt_view(explicit), opt_view(block))), ..channel.model@ });
    let mut ext = ITunesChannelExtension::default();
    ext.set_image(image);
    ext.set_author(author);
    ext.set_explicit(explicit);
    ext.set_block(block);
    channel.channel.set_itunes_ext(Some(ext));
}

/// Sets the XML namespaces of an `rss::Channel` (`Channel::set_namespaces`)
/// to the map of the given (prefix, URI) pairs. Trusted: only the namespaces
/// change.
#[verifier::external_body]
fn set_namespaces(channel: &mut RssChannel, pairs: Vec<(String, String)>)
    ensures
        final(channel)@ == (RssChannelModel {
            namespaces: pairs_map(pairs@.map_values(|p: (String, String)| (p.0@, p.1@))),
            ..old(channel)@
        }),
{
    channel.model = Ghost(RssChannelModel { namespaces: pairs_map(pairs@.map_values(|p: (String, String)| (p.0@, p.1@))), ..channel.model@ });
    channel.channel.set_namespaces(pairs.into_iter().collect::<BTreeMap<String, String>>());
}

/// Sets the items of an `rss::Channel` and writes it as XML (its `Display`).
/// Trusted: the text is the name `rss_xml` of what the channel holds.
#[verifier::external_body]
fn channel_xml(channel: RssChannel, items: Vec<RssItem>) -> (r: String)
    ensures
        r@ == rss_xml(RssChannelModel { items: items@.map_values(|i: RssItem| i@), ..channel@ }),
{
    let mut c = channel.channel;
    c.set_items(items.into_iter().map(|i| i.item).collect::<Vec<Item>>());
    c.to_string()
}

/// The URI of the iTunes podcast DTD.
pub open spec fn itunes_dtd() -> Seq<char> {
    "http://www.itunes.com/dtds/podcast-1.0.dtd"@
}

/// The namespaces of a podcast feed: `rss` and `itunes`, both the iTunes
/// podcast DTD.
fn podcast_namespaces() -> (r: Vec<(String, String)>)
    ensures
        pairs_map(r@.map_values(|p: (String, String)| (p.0@, p.1@)))
            == map![ "rss"@ => itunes_dtd(), "itunes"@ => itunes_dtd() ],
{
    let r = vec![
        (String::from_str("rss"), String::from_str("http://www.itunes.com/dtds/podcast-1.0.dtd")),
        (String::from_str("itunes"), String::from_str("http://www.itunes.com/dtds/podcast-1.0.dtd")),
    ];
    proof {
        reveal_strlit("rss");
        reveal_strlit("itunes");
        reveal_strlit("http://www.itunes.com/dtds/podcast-1.0.dtd");
        let s = r@.map_values(|p: (String, String)| (p.0@, p.1@));
        assert(s.len() == 2 && s[0] == ("rss"@, itunes_dtd()) && s[1] == ("itunes"@, itunes_dtd()));
        assert(s.drop_last().drop_last() =~= Seq::<(Seq<char>, Seq<char>)>::empty());
        assert(pairs_map(s.drop_last()) =~= map![ "rss"@ => itunes_dtd() ]) by {
            reveal_with_fuel(pairs_map, 2);
        }
        assert(pairs_map(s) =~= map![ "rss"@ => itunes_dtd(), "itunes"@ => itunes_dtd() ]);
    }
    r
}

/// The `rss::Item` of an item.
fn to_rss_item(it: &FeedItem) -> (r: RssItem)
    ensures
        r@ == it@,
{
    let mut item = rss_item(
        it.title.clone(),
        it.link.clone(),
        it.description.clone(),
        it.author.clone(),
        it.pub_date.clone(),
    );
    match &it.guid {
        Some(g) => set_item_guid(&mut item, g.value.clone(), g.permalink),
        None => {},
    }
    match &it.enclosure {
        Some(e) => set_item_enclosure(
            &mut item,
            e.url.clone(),
            e.length.clone(),
            e.mime_type.clone(),
        ),
        None => {},
    }
    match &it.itunes {
        Some(x) => set_item_itunes(&mut item, x.duration.clone(), x.summary.clone(), x.image.clone()),
        None => {},
    }
    item
}

/// What the `rss::Channel` of a feed holds: its fields, the two podcast
/// namespaces when it declares them (else none), and its items.
pub open spec fn rss_model_of(feed: ChannelView) -> RssChannelModel {
    RssChannelModel {
        title: feed.title,
        link: feed.link,
        description: feed.description,
        language: feed.language,
        generator: feed.generator,
        image: feed.image,
        itunes: feed.itunes,
        namespaces: if feed.podcast_namespaces {
            map![ "rss"@ => itunes_dtd(), "itunes"@ => itunes_dtd() ]
        } else {
            Map::empty()
        },
        items: feed.items,
    }
}

/// The feed as RSS XML: what rss writes of the channel that holds the feed.
pub fn render(feed: &FeedChannel) -> (r: String)
    ensures
        r@ == rss_xml(rss_model_of(feed@)),
{
    let mut channel = rss_channel(
        feed.title.clone(),
        feed.link.clone(),
        feed.description.clone(),
        feed.language.clone(),
        feed.generator.clone(),
    );
    match &feed.image {
        Some(img) => set_channel_image(
            &mut channel,
            img.url.clone(),
            img.link.clone(),
            img.description.clone(),
        ),
        None => {},
    }
    match &feed.itunes {
        Some(x) => set_channel_itunes(
            &mut channel,
            x.image.clone(),
            x.author.clone(),
            x.explicit.clone(),
            x.block.clone(),
        ),
        None => {},
    }
    if feed.podcast_namespaces {
        set_namespaces(&mut channel, podcast_namespaces());
    }
    let mut items: Vec<RssItem> = Vec::new();
    let mut i: usize = 0;
    while i < feed.items.len()
        invariant
            i <= feed.items@.len(),
            items@.len() == i,
            forall|k: int| 0 <= k < i ==> #[trigger] items@[k]@ == feed.items@[k]@,
        decreases feed.items@.len() - i,
    {
        items.push(to_rss_item(&feed.items[i]));
        i = i + 1;
    }
    assert(items@.map_values(|x: RssItem| x@) =~= feed@.items);
    channel_xml(channel, items)
}

} // verus!
