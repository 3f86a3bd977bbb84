use vstd::prelude::*;

use crate::dates::{instant_of, instant_rfc2822, rfc2822_at, rfc2822_instant, FIRST_RFC2822_SECOND, LAST_RFC2822_SECOND};
use crate::feed::{empty_channel, empty_item, items_view, generator_name, ChannelImage, ChannelView, FeedChannel, FeedEnclosure, FeedItem, ItemView, ItunesItem};
use crate::ids::md5_uuid_of;
use crate::patterns::{is_match, regex_match};
use crate::server::{spec_decide_range, RangeDecision, ServedRange};
use crate::source::{contents_view, EntryView, MediaView, SourceEntry, SourceFeed, SourceImage, SourceMedia};
use crate::text::{
    bounds_match, clone_opt, decimal, from_chars, opt_view, parse_u64_range, push_str,
    push_two_digits, spec_parse_u64, split_all, split_bounds, str_eq, to_chars,
    two_digits, u64_to_string,
};
use crate::urls::{append_query_pair, parse_url, url_appended, url_parsed};

verus! {

/// The `k`-th `:`-separated field of a duration, counted from the right
/// (0 is the seconds): its value, `Some(0)` when the field is absent, `None` when
/// it is present but not a number.
pub open spec fn duration_field(s: Seq<char>, k: int) -> Option<nat> {
    let parts = split_all(s, ':');
    if k < parts.len() {
        match spec_parse_u64(parts[parts.len() - 1 - k]) {
            Some(v) => Some(v as nat),
            None => None,
        }
    } else {
        Some(0)
    }
}

/// The number of seconds written by `[[hh:]mm:]ss` (more leading fields are
/// ignored), or `None` when one of the last three fields is not a number.
pub open spec fn spec_parse_duration(s: Seq<char>) -> Option<nat> {
    match (duration_field(s, 0), duration_field(s, 1), duration_field(s, 2)) {
        (Some(sec), Some(min), Some(hours)) => Some(hours * 3600 + min * 60 + sec),
        _ => None,
    }
}

/// The seconds, minutes and hours fields of a duration (0 for an absent
/// one); `None` when a field present is not a number.
fn duration_fields(duration_str: &str) -> (r: Option<(u64, u64, u64)>)
    ensures
        match r {
            Some((sec, min, hours)) => duration_field(duration_str@, 0) == Some(sec as nat)
                && duration_field(duration_str@, 1) == Some(min as nat)
                && duration_field(duration_str@, 2) == Some(hours as nat),
            None => spec_parse_duration(duration_str@) is None,
        },
{
    let v = to_chars(duration_str);
    let parts = split_bounds(v.as_slice(), 0, v.len(), ':');
    let ghost sp = split_all(duration_str@, ':');
    assert(v@.subrange(0, v@.len() as int) =~= duration_str@);
    let n = parts.len();
    let mut fields: [u64; 3] = [0, 0, 0];
    let mut k: usize = 0;
    while k < 3
        invariant
            k <= 3,
            n == sp.len(),
            n == parts@.len(),
            v@ == duration_str@,
            sp == split_all(duration_str@, ':'),
            forall|q: int|
                0 <= q < parts@.len() ==> bounds_match(
                    v@,
                    0,
                    v@.len() as int,
                    #[trigger] parts@[q],
                    sp[q],
                ),
            forall|q: int| 0 <= q < k ==> duration_field(duration_str@, q) == Some(#[trigger] fields@[q] as nat),
        decreases 3 - k,
    {
        if k < n {
            let (a, b) = parts[n - 1 - k];
            proof {
                assert(bounds_match(v@, 0, v@.len() as int, parts@[n - 1 - k], sp[n - 1 - k]));
            }
            match parse_u64_range(v.as_slice(), a, b) {
                Some(x) => {
                    fields[k] = x;
                },
                None => {
                    return None;
                },
            }
        } else {
            fields[k] = 0;
        }
        k = k + 1;
    }
    assert(duration_field(duration_str@, 0) == Some(fields@[0] as nat));
    assert(duration_field(duration_str@, 1) == Some(fields@[1] as nat));
    assert(duration_field(duration_str@, 2) == Some(fields@[2] as nat));
    Some((fields[0], fields[1], fields[2]))
}

/// Reads a duration written `[[hh:]mm:]ss` (as `yt-dlp --get-duration` prints it)
/// and returns it in seconds; `"Invalid format"` when a field is not a number.
pub fn parse_duration(duration_str: &str) -> (r: Result<u64, String>)
    requires
        spec_parse_duration(duration_str@) matches Some(v) ==> v <= u64::MAX,
    ensures
        r matches Ok(v) ==> spec_parse_duration(duration_str@) == Some(v as nat),
        r matches Err(e) ==> spec_parse_duration(duration_str@) is None && e@
            == "Invalid format"@,
{
    match duration_fields(duration_str) {
        Some((seconds, minutes, hours)) => Ok(hours * 3600 + minutes * 60 + seconds),
        None => {
            proof {
                reveal_strlit("Invalid format");
            }
            Err(String::from_str("Invalid format"))
        },
    }
}

/// Reads a duration as `parse_duration` does, for any text: `None` when the
/// number of seconds it writes does not fit in 64 bits.
pub fn parse_duration_in_range(duration_str: &str) -> (r: Option<Result<u64, String>>)
    ensures
        match spec_parse_duration(duration_str@) {
            Some(v) => if v <= u64::MAX {
                r matches Some(Ok(x)) && x == v
            } else {
                r is None
            },
            None => r matches Some(Err(e)) && e@ == "Invalid format"@,
        },
{
    match duration_fields(duration_str) {
        Some((seconds, minutes, hours)) => {
            let h = hours.checked_mul(3600)?;
            let m = minutes.checked_mul(60)?;
            let hm = h.checked_add(m)?;
            let total = hm.checked_add(seconds)?;
            Some(Ok(total))
        },
        None => {
            proof {
                reveal_strlit("Invalid format");
            }
            Some(Err(String::from_str("Invalid format")))
        },
    }
}

/// The MIME type of the media that is streamed as it is.
pub open spec fn audio_mpeg() -> Seq<char> {
    "audio/mpeg"@
}

/// The URL of the first content of type `audio/mpeg` (which may have none);
/// `None` when there is no such content.
pub open spec fn audio_url(contents: Seq<(Option<Seq<char>>, Option<Seq<char>>)>) -> Option<Seq<char>>
    decreases contents.len(),
{
    if contents.len() == 0 {
        None
    } else if contents[0].0 == Some(audio_mpeg()) {
        contents[0].1
    } else {
        audio_url(contents.drop_first())
    }
}

/// The contents up to the first of type `audio/mpeg` all say their type.
pub open spec fn typed_until_audio(contents: Seq<(Option<Seq<char>>, Option<Seq<char>>)>) -> bool
    decreases contents.len(),
{
    contents.len() == 0 || (contents[0].0 is Some && (contents[0].0 == Some(audio_mpeg())
        || typed_until_audio(contents.drop_first())))
}

/// The first audio URL found in the media objects, in order.
pub open spec fn first_audio_url(media: Seq<MediaView>) -> Option<Seq<char>>
    decreases media.len(),
{
    if media.len() == 0 {
        None
    } else {
        match audio_url(media[0].contents) {
            Some(u) => Some(u),
            None => first_audio_url(media.drop_first()),
        }
    }
}

/// Every media object says the type of its contents up to the first audio one.
pub open spec fn media_typed(media: Seq<MediaView>) -> bool {
    forall|i: int| 0 <= i < media.len() ==> typed_until_audio(#[trigger] media[i].contents)
}

/// A link to a YouTube video.
pub open spec fn youtube_link_regex() -> Seq<char> {
    "^(https?://)?(www\\.youtube\\.com|youtu\\.be)/.+$"@
}

/// A URL of YouTube.
pub open spec fn youtube_url_regex() -> Seq<char> {
    "^(https?://)?(www\\.)?(youtu\\.be/|youtube\\.com/)"@
}

/// The first link to a YouTube video.
pub open spec fn first_youtube_link(links: Seq<Seq<char>>) -> Option<Seq<char>>
    decreases links.len(),
{
    if links.len() == 0 {
        None
    } else if regex_match(youtube_link_regex(), links[0]) == Some(true) {
        Some(links[0])
    } else {
        first_youtube_link(links.drop_first())
    }
}

/// Where an entry's media is: an audio file of the feed, a YouTube link, or
/// nowhere.
pub enum MediaSource {
    Audio(String),
    YoutubeLink(String),
    Missing,
}

/// The plain content of a `MediaSource`.
pub open spec fn source_view(m: MediaSource) -> Option<(bool, Seq<char>)> {
    match m {
        MediaSource::Audio(u) => Some((true, u@)),
        MediaSource::YoutubeLink(h) => Some((false, h@)),
        MediaSource::Missing => None,
    }
}

/// Where an entry's media is: the first audio URL of its media objects, else
/// its first YouTube link.
pub open spec fn spec_media_source(e: EntryView) -> Option<(bool, Seq<char>)> {
    match first_audio_url(e.media) {
        Some(u) => Some((true, u)),
        None => match first_youtube_link(e.links) {
            Some(h) => Some((false, h)),
            None => None,
        },
    }
}

fn find_audio_url(contents: &Vec<(Option<String>, Option<String>)>) -> (r: (Option<String>, bool))
    ensures
        r.1 ==> opt_view(r.0) == audio_url(contents_view(contents@)),
        r.1 == typed_until_audio(contents_view(contents@)),
{
    let ghost all = contents_view(contents@);
    let mut i: usize = 0;
    assert(all.subrange(0, all.len() as int) =~= all);
    while i < contents.len()
        invariant
            i <= contents@.len(),
            all == contents_view(contents@),
            audio_url(all) == audio_url(all.subrange(i as int, all.len() as int)),
            typed_until_audio(all) == typed_until_audio(all.subrange(i as int, all.len() as int)),
        decreases contents@.len() - i,
    {
        let ghost rest = all.subrange(i as int, all.len() as int);
        assert(rest.drop_first() =~= all.subrange(i + 1, all.len() as int));
        assert(rest[0] == (opt_view(contents@[i as int].0), opt_view(contents@[i as int].1)));
        match &contents[i].0 {
            Some(t) => {
                proof {
                    reveal_strlit("audio/mpeg");
                }
                if str_eq(t.as_str(), "audio/mpeg") {
                    return (clone_opt(&contents[i].1), true);
                }
            },
            None => {
                return (None, false);
            },
        }
        i = i + 1;
    }
    (None, true)
}

/// Where an entry's media is, and whether its media objects say the types of
/// their contents up to the first audio one.
pub fn media_source(entry: &SourceEntry) -> (r: (MediaSource, bool))
    ensures
        r.1 ==> source_view(r.0) == spec_media_source(entry@),
        r.1 == media_typed(entry@.media),
{
    let ghost media = entry@.media;
    let mut found: Option<String> = None;
    let mut typed = true;
    let mut i: usize = 0;
    while i < entry.media.len()
        invariant
            i <= entry.media@.len(),
            media == entry@.media,
            media.len() == entry.media@.len(),
            typed ==> opt_view(found) == first_audio_url(media.take(i as int)),
            typed == (forall|k: int| 0 <= k < i ==> typed_until_audio(#[trigger] media[k].contents)),
        decreases entry.media@.len() - i,
    {
        let (u, t) = find_audio_url(&entry.media[i].contents);
        assert(media[i as int] == entry.media@[i as int]@);
        proof {
            lemma_first_audio_url_push(media.take(i as int), media[i as int]);
            assert(media.take(i + 1) =~= media.take(i as int).push(media[i as int]));
        }
        if found.is_none() {
            found = u;
        }
        typed = typed && t;
        proof {
            if !t {
                assert(!typed_until_audio(media[i as int].contents));
            }
        }
        i = i + 1;
    }
    assert(media.take(i as int) =~= media);
    assert(typed == media_typed(entry@.media));
    match found {
        Some(u) => (MediaSource::Audio(u), typed),
        None => {
            let mut j: usize = 0;
            let ghost links = entry@.links;
            assert(links.subrange(0, links.len() as int) =~= links);
            while j < entry.links.len()
                invariant
                    j <= entry.links@.len(),
                    links == entry@.links,
                    links.len() == entry.links@.len(),
                    first_youtube_link(links) == first_youtube_link(links.subrange(j as int, links.len() as int)),
                    typed == media_typed(entry@.media),
                    typed ==> first_audio_url(entry@.media) is None,
                decreases entry.links@.len() - j,
            {
                let ghost rest = links.subrange(j as int, links.len() as int);
                assert(rest.drop_first() =~= links.subrange(j + 1, links.len() as int));
                assert(rest[0] == entry.links@[j as int]@);
                let m = is_match("^(https?://)?(www\\.youtube\\.com|youtu\\.be)/.+$", entry.links[j].as_str());
                if m == Some(true) {
                    return (MediaSource::YoutubeLink(entry.links[j].clone()), typed);
                }
                j = j + 1;
            }
            (MediaSource::Missing, typed)
        },
    }
}

proof fn lemma_first_audio_url_push(s: Seq<MediaView>, m: MediaView)
    ensures
        first_audio_url(s.push(m)) == match first_audio_url(s) {
            Some(u) => Some(u),
            None => audio_url(m.contents),
        },
    decreases s.len(),
{
    if s.len() == 0 {
        assert(s.push(m).drop_first() =~= Seq::<MediaView>::empty());
        assert(first_audio_url(Seq::<MediaView>::empty()) is None);
        assert(s.push(m)[0] == m);
    } else {
        assert(s.push(m).drop_first() =~= s.drop_first().push(m));
        assert(s.push(m)[0] == s[0]);
        lemma_first_audio_url_push(s.drop_first(), m);
    }
}

/// The line every description ends with, naming the service's version.
pub open spec fn description_footer(version: Seq<char>) -> Seq<char> {
    "<br><br>generated by vod2pod-rss "@ + version
        + " made by Mattia Di Eleuterio (<a href=\"https://github.com/madiele\">madiele</a>). Check out the <a href=\"https://github.com/madiele/vod2pod-rss\">GitHub repository</a>."@
}

/// The description of an entry: that of its media object, else the body of its
/// content (empty when the content has none), else its summary; followed by
/// the footer.
pub open spec fn spec_get_description(media: MediaView, e: EntryView, version: Seq<char>) -> Option<Seq<char>> {
    let d = match media.description {
        Some(x) => Some(x),
        None => match e.content {
            Some(body) => Some(
                match body {
                    Some(b) => b,
                    None => Seq::<char>::empty(),
                },
            ),
            None => e.summary,
        },
    };
    match d {
        Some(x) => Some(x + description_footer(version)),
        None => None,
    }
}

/// `d` begins with `x`.
pub open spec fn begins_with(d: Seq<char>, x: Seq<char>) -> bool {
    x.len() <= d.len() && d.subrange(0, x.len() as int) == x
}

/// What an item's description is made of, stated of any description `r`: it
/// begins with the media object's description when there is one, else with the
/// body of the entry's content (show notes such as `content:encoded`), else
/// with the entry's summary, the service's footer coming after that text; and
/// there is a description exactly when one of those three is there.
pub open spec fn description_from_sources(media: MediaView, e: EntryView, version: Seq<char>, r: Option<Seq<char>>) -> bool {
    &&& (r is Some <==> (media.description is Some || e.content is Some || e.summary is Some))
    &&& media.description matches Some(x) ==> (r matches Some(d) && begins_with(d, x)
        && d.len() == x.len() + description_footer(version).len())
    &&& media.description is None ==> (e.content matches Some(Some(b)) ==> (r matches Some(d) && begins_with(d, b)
        && d.len() == b.len() + description_footer(version).len()))
    &&& (media.description is None && e.content is None) ==> (e.summary matches Some(x) ==> (r matches Some(d)
        && begins_with(d, x) && d.len() == x.len() + description_footer(version).len()))
}

/// An item's description keeps the text it is made from (the media's
/// description, else the show notes of the entry's content, else its summary)
/// at its start, followed by the footer.
pub proof fn law_description_keeps_its_source(media: MediaView, e: EntryView, version: Seq<char>)
    ensures
        description_from_sources(media, e, version, spec_get_description(media, e, version)),
{
    let f = description_footer(version);
    match media.description {
        Some(x) => {
            assert((x + f).subrange(0, x.len() as int) =~= x);
        },
        None => match e.content {
            Some(Some(b)) => {
                assert((b + f).subrange(0, b.len() as int) =~= b);
            },
            Some(None) => {},
            None => match e.summary {
                Some(x) => {
                    assert((x + f).subrange(0, x.len() as int) =~= x);
                },
                None => {},
            },
        },
    }
}

/// The description of an entry, from its first media object.
pub fn get_description(media: &SourceMedia, entry: &SourceEntry, version: &str) -> (r: Option<String>)
    ensures
        opt_view(r) == spec_get_description(media@, entry@, version@),
        description_from_sources(media@, entry@, version@, opt_view(r)),
{
    proof {
        law_description_keeps_its_source(media@, entry@, version@);
    }
    let d = match &media.description {
        Some(x) => Some(x.clone()),
        None => match &entry.content {
            Some(body) => Some(
                match body {
                    Some(b) => b.clone(),
                    None => String::new(),
                },
            ),
            None => clone_opt(&entry.summary),
        },
    };
    match d {
        Some(x) => {
            let mut v = to_chars(x.as_str());
            push_str(&mut v, "<br><br>generated by vod2pod-rss ");
            push_str(&mut v, version);
            push_str(&mut v, " made by Mattia Di Eleuterio (<a href=\"https://github.com/madiele\">madiele</a>). Check out the <a href=\"https://github.com/madiele/vod2pod-rss\">GitHub repository</a>.");
            proof {
                assert(v@ =~= x@ + description_footer(version@));
            }
            Some(from_chars(v.as_slice()))
        },
        None => None,
    }
}

/// A duration as `hh:mm:ss`, each field with at least two digits.
pub open spec fn hms(secs: nat) -> Seq<char> {
    two_digits(secs / 3600) + ":"@ + two_digits((secs % 3600) / 60) + ":"@ + two_digits(secs % 60)
}

/// A duration as `hh:mm:ss`.
pub fn format_hms(secs: u64) -> (r: String)
    ensures
        r@ == hms(secs as nat),
{
    let mut v: Vec<char> = Vec::new();
    push_two_digits(&mut v, secs / 3600);
    v.push(':');
    push_two_digits(&mut v, (secs % 3600) / 60);
    v.push(':');
    push_two_digits(&mut v, secs % 60);
    proof {
        reveal_strlit(":");
        assert(v@ =~= hms(secs as nat));
    }
    from_chars(v.as_slice())
}

/// The address of the transcoding service for a media file: its query names
/// the bitrate, a uuid, the duration, the media's URL, and, last (some
/// players only play addresses that end in it), the `.mp3` extension.
pub open spec fn spec_enclosure_url(service: Seq<char>, bitrate: u64, uuid: Seq<char>, secs: u64, media_url: Seq<char>) -> Option<Seq<char>> {
    match url_appended(service, "bitrate"@, decimal(bitrate as nat)) {
        None => None,
        Some(u1) => match url_appended(u1, "uuid"@, uuid) {
            None => None,
            Some(u2) => match url_appended(u2, "duration"@, decimal(secs as nat)) {
                None => None,
                Some(u3) => match url_appended(u3, "url"@, media_url) {
                    None => None,
                    Some(u4) => url_appended(u4, "ext"@, ".mp3"@),
                },
            },
        },
    }
}

/// The address of the transcoding service for a media file.
pub fn enclosure_url(service: &str, bitrate: u64, uuid: &str, secs: u64, media_url: &str) -> (r: Option<String>)
    ensures
        opt_view(r) == spec_enclosure_url(service@, bitrate, uuid@, secs, media_url@),
{
    let b = u64_to_string(bitrate);
    let u1 = append_query_pair(service, "bitrate", b.as_str())?;
    let u2 = append_query_pair(u1.as_str(), "uuid", uuid)?;
    let d = u64_to_string(secs);
    let u3 = append_query_pair(u2.as_str(), "duration", d.as_str())?;
    let u4 = append_query_pair(u3.as_str(), "url", media_url)?;
    append_query_pair(u4.as_str(), "ext", ".mp3")
}

/// Why an entry could not be made into an item.
#[derive(Debug, PartialEq, Eq, Structural, Clone, Copy)]
pub enum ItemError {
    /// A media content up to the first audio one does not say its type.
    UntypedContent,
    /// The YouTube link of the entry is no URL.
    LinkNotUrl,
    /// The entry's date is outside the years 0 to 9999.
    DateOutOfRange,
    /// The address of the transcoding service is no URL.
    ServiceUrlInvalid,
    /// The size of the transcoded file does not fit in 64 bits.
    LengthOverflow,
}

/// A YouTube premiere, which its feed lists with no views yet.
pub open spec fn is_premiere(e: EntryView) -> bool {
    e.media.len() > 0 && e.media[0].views == Some(0u64)
}

/// The URL of the entry's media: the audio URL, or the YouTube link parsed.
pub open spec fn resolved_media_url(source: (bool, Seq<char>)) -> Option<Seq<char>> {
    if source.0 {
        Some(source.1)
    } else {
        url_parsed(source.1)
    }
}

/// The entry's date lies within the years 0 to 9999 (or it has none).
pub open spec fn date_in_range(published: Option<(i64, u32)>) -> bool {
    match published {
        Some((secs, _)) => FIRST_RFC2822_SECOND <= secs <= LAST_RFC2822_SECOND,
        None => true,
    }
}

/// The entry's date in RFC 2822 form.
pub open spec fn spec_pub_date(published: Option<(i64, u32)>) -> Option<Seq<char>> {
    match published {
        Some((secs, nanos)) => rfc2822_at(secs, nanos),
        None => None,
    }
}

/// The length of a media file in seconds: as its feed says, else (for a
/// YouTube URL) as looked up, else 0.
pub open spec fn spec_item_duration(m0: MediaView, media_url: Seq<char>, looked_up: u64) -> u64 {
    match m0.duration_secs {
        Some(d) => d,
        None => if regex_match(youtube_url_regex(), media_url) == Some(true) {
            looked_up
        } else {
            0
        },
    }
}

/// The URL whose duration has to be looked up for an entry to become an
/// item: that of a YouTube video whose feed does not give its length.
pub open spec fn spec_duration_lookup(e: EntryView) -> Option<Seq<char>> {
    if is_premiere(e) || !media_typed(e.media) || e.media.len() == 0 {
        None
    } else {
        match spec_media_source(e) {
            None => None,
            Some(src) => match resolved_media_url(src) {
                None => None,
                Some(u) => if e.media[0].duration_secs is None && regex_match(youtube_url_regex(), u) == Some(true) {
                    Some(u)
                } else {
                    None
                },
            },
        }
    }
}

/// An item that has only a title.
pub open spec fn title_only(title: Option<Seq<char>>) -> ItemView {
    ItemView {
        title,
        link: None,
        description: None,
        author: None,
        pub_date: None,
        guid: None,
        enclosure: None,
        itunes: None,
    }
}

/// The item of an entry of a feed. Premieres are left out (`Ok(None)`), as
/// are entries whose media is a YouTube link and that have no media object.
/// An entry without media keeps its title only. Otherwise the item has the
/// entry's title, description and date, a guid made from the entry's id, the
/// media's length and thumbnail, and, when transcoding is on, an enclosure
/// that leads to the transcoding service (its size: the bitrate in kbit times
/// 1024 times the length). `looked_up` is the length found for a YouTube video
/// whose feed gives none.
pub open spec fn spec_convert_item(
    e: EntryView,
    service: Seq<char>,
    should_transcode: bool,
    bitrate: u64,
    uuid: Seq<char>,
    looked_up: u64,
    version: Seq<char>,
) -> Result<Option<ItemView>, ItemError> {
    if is_premiere(e) {
        Ok(None)
    } else if !media_typed(e.media) {
        Err(ItemError::UntypedContent)
    } else {
        match spec_media_source(e) {
            None => Ok(Some(title_only(e.title))),
            Some(src) => match resolved_media_url(src) {
                None => Err(ItemError::LinkNotUrl),
                Some(media_url) => if e.media.len() == 0 {
                    Ok(None)
                } else if !date_in_range(e.published) {
                    Err(ItemError::DateOutOfRange)
                } else {
                    let m0 = e.media[0];
                    let secs = spec_item_duration(m0, media_url, looked_up);
                    match spec_enclosure_url(service, bitrate, uuid, secs, media_url) {
                        None => Err(ItemError::ServiceUrlInvalid),
                        Some(encl) => if bitrate * 1024 * secs > u64::MAX {
                            Err(ItemError::LengthOverflow)
                        } else {
                            Ok(
                                Some(
                                    ItemView {
                                        title: e.title,
                                        link: None,
                                        description: spec_get_description(m0, e, version),
                                        author: None,
                                        pub_date: spec_pub_date(e.published),
                                        guid: Some((md5_uuid_of(e.id), true)),
                                        enclosure: if should_transcode {
                                            Some((encl, decimal((bitrate * 1024 * secs) as nat), audio_mpeg()))
                                        } else {
                                            None
                                        },
                                        itunes: Some((Some(hms(secs as nat)), None, m0.thumbnail)),
                                    },
                                ),
                            )
                        },
                    }
                },
            },
        }
    }
}

/// The media URL of an entry, when it can be made into an item.
fn media_url_of(entry: &SourceEntry) -> (r: Result<Option<String>, ItemError>)
    requires
        !is_premiere(entry@),
    ensures
        !media_typed(entry@.media) ==> r == Err::<Option<String>, ItemError>(ItemError::UntypedContent),
        media_typed(entry@.media) ==> match spec_media_source(entry@) {
            None => r matches Ok(None),
            Some(src) => match resolved_media_url(src) {
                None => r == Err::<Option<String>, ItemError>(ItemError::LinkNotUrl),
                Some(u) => r matches Ok(Some(x)) && x@ == u,
            },
        },
{
    let (src, typed) = media_source(entry);
    if !typed {
        return Err(ItemError::UntypedContent);
    }
    match src {
        MediaSource::Missing => Ok(None),
        MediaSource::Audio(u) => Ok(Some(u)),
        MediaSource::YoutubeLink(h) => match parse_url(h.as_str()) {
            Some(u) => Ok(Some(u)),
            None => Err(ItemError::LinkNotUrl),
        },
    }
}

/// Whether a YouTube premiere.
fn premiere(entry: &SourceEntry) -> (b: bool)
    ensures
        b == is_premiere(entry@),
{
    entry.media.len() > 0 && entry.media[0].views == Some(0u64)
}

/// The URL of the YouTube video whose length has to be looked up before the
/// entry can become an item, if any.
pub fn duration_lookup(entry: &SourceEntry) -> (r: Option<String>)
    ensures
        opt_view(r) == spec_duration_lookup(entry@),
{
    if premiere(entry) || entry.media.len() == 0 {
        return None;
    }
    match media_url_of(entry) {
        Ok(Some(u)) => {
            assert(entry@.media[0] == entry.media@[0]@);
            if entry.media[0].duration_secs.is_none()
                && is_match("^(https?://)?(www\\.)?(youtu\\.be/|youtube\\.com/)", u.as_str()) == Some(true) {
                Some(u)
            } else {
                None
            }
        },
        _ => None,
    }
}

/// Makes an entry of a feed into an item of the podcast feed (see
/// `spec_convert_item`).
pub fn convert_item(
    entry: &SourceEntry,
    transcode_service_url: &str,
    should_transcode: bool,
    bitrate: u64,
    generation_uuid: &str,
    looked_up_duration: u64,
    version: &str,
) -> (r: Result<Option<FeedItem>, ItemError>)
    ensures
        match r {
            Ok(Some(item)) => spec_convert_item(entry@, transcode_service_url@, should_transcode, bitrate, generation_uuid@, looked_up_duration, version@) == Ok::<Option<ItemView>, ItemError>(Some(item@)),
            Ok(None) => spec_convert_item(entry@, transcode_service_url@, should_transcode, bitrate, generation_uuid@, looked_up_duration, version@) == Ok::<Option<ItemView>, ItemError>(None),
            Err(e) => spec_convert_item(entry@, transcode_service_url@, should_transcode, bitrate, generation_uuid@, looked_up_duration, version@) == Err::<Option<ItemView>, ItemError>(e),
        },
{
    if premiere(entry) {
        return Ok(None);
    }
    let media_url = match media_url_of(entry) {
        Err(e) => return Err(e),
        Ok(None) => {
            let mut item = empty_item();
            item.title = clone_opt(&entry.title);
            return Ok(Some(item));
        },
        Ok(Some(u)) => u,
    };
    if entry.media.len() == 0 {
        return Ok(None);
    }
    let m0 = &entry.media[0];
    assert(entry@.media[0] == m0@);
    let pub_date = match entry.published {
        Some((secs, nanos)) => {
            if secs < FIRST_RFC2822_SECOND || secs > LAST_RFC2822_SECOND {
                return Err(ItemError::DateOutOfRange);
            }
            instant_rfc2822(secs, nanos)
        },
        None => None,
    };
    let secs: u64 = match m0.duration_secs {
        Some(d) => d,
        None => if is_match("^(https?://)?(www\\.)?(youtu\\.be/|youtube\\.com/)", media_url.as_str()) == Some(true) {
            looked_up_duration
        } else {
            0
        },
    };
    let encl_url = match enclosure_url(transcode_service_url, bitrate, generation_uuid, secs, media_url.as_str()) {
        Some(u) => u,
        None => return Err(ItemError::ServiceUrlInvalid),
    };
    if bitrate > u64::MAX / 1024 || (secs > 0 && bitrate * 1024 > u64::MAX / secs) {
        proof {
            if bitrate > u64::MAX / 1024 {
                assert(bitrate * 1024 > u64::MAX) by (nonlinear_arith)
                    requires bitrate > u64::MAX / 1024;
                assert(bitrate * 1024 * secs >= bitrate * 1024 || secs == 0) by (nonlinear_arith);
            } else {
                assert(bitrate * 1024 * secs > u64::MAX) by (nonlinear_arith)
                    requires secs > 0, bitrate * 1024 > u64::MAX / secs;
            }
        }
        if bitrate > u64::MAX / 1024 && secs == 0 {
            // the size is zero: no overflow
        } else {
            return Err(ItemError::LengthOverflow);
        }
    }
    proof {
        if bitrate <= u64::MAX / 1024 && secs > 0 {
            assert(bitrate * 1024 * secs <= u64::MAX) by (nonlinear_arith)
                requires bitrate * 1024 <= u64::MAX / secs, secs > 0;
        }
    }
    let length: u64 = if secs == 0 { 0 } else { bitrate * 1024 * secs };
    let mut item = empty_item();
    item.title = clone_opt(&entry.title);
    item.description = get_description(m0, entry, version);
    item.pub_date = pub_date;
    item.guid = Some(crate::ids::generate_guid(entry.id.as_str()));
    if should_transcode {
        item.enclosure = Some(FeedEnclosure { url: encl_url, length: u64_to_string(length), mime_type: String::from_str("audio/mpeg") });
        proof {
            reveal_strlit("audio/mpeg");
        }
    }
    item.itunes = Some(ItunesItem { duration: Some(format_hms(secs)), summary: None, image: clone_opt(&m0.thumbnail) });
    Ok(Some(item))
}

/// The instant of an RFC 2822 date; the Unix epoch when it does not parse.
pub open spec fn date_key(d: Seq<char>) -> (i64, u32) {
    match instant_of(d) {
        Some(k) => k,
        None => (0i64, 0u32),
    }
}

/// The instant an item was published (the Unix epoch when it has no date, or
/// one that does not parse).
pub open spec fn item_key(item: ItemView) -> (i64, u32) {
    date_key(
        match item.pub_date {
            Some(d) => d,
            None => Seq::<char>::empty(),
        },
    )
}

/// Instant `a` comes strictly before instant `b`.
pub open spec fn before(a: (i64, u32), b: (i64, u32)) -> bool {
    a.0 < b.0 || (a.0 == b.0 && a.1 < b.1)
}

/// Whether instant `a` comes strictly before instant `b`.
fn is_before(a: (i64, u32), b: (i64, u32)) -> (r: bool)
    ensures
        r == before(a, b),
{
    a.0 < b.0 || (a.0 == b.0 && a.1 < b.1)
}

/// `x` put into the newest-first list `sorted` after every item at least as
/// new.
pub open spec fn insert_newest_first(sorted: Seq<ItemView>, x: ItemView) -> Seq<ItemView>
    decreases sorted.len(),
{
    if sorted.len() == 0 {
        seq![x]
    } else if before(item_key(sorted.last()), item_key(x)) {
        insert_newest_first(sorted.drop_last(), x).push(sorted.last())
    } else {
        sorted.push(x)
    }
}

/// The items, newest first; items published at the same instant keep their
/// order (a stable sort).
pub open spec fn newest_first(items: Seq<ItemView>) -> Seq<ItemView>
    decreases items.len(),
{
    if items.len() == 0 {
        Seq::empty()
    } else {
        insert_newest_first(newest_first(items.drop_last()), items.last())
    }
}

/// The instant an item was published.
fn publication_key(item: &FeedItem) -> (r: (i64, u32))
    ensures
        r == item_key(item@),
{
    proof {
        reveal_strlit("");
    }
    let k = match &item.pub_date {
        Some(d) => rfc2822_instant(d.as_str()),
        None => rfc2822_instant(""),
    };
    assert(""@ == Seq::<char>::empty());
    match k {
        Some(k) => k,
        None => (0i64, 0u32),
    }
}

/// Sorts items newest first, keeping the order of those published at the
/// same instant.
pub fn sort_newest_first(items: Vec<FeedItem>) -> (r: Vec<FeedItem>)
    ensures
        items_view(r@) == newest_first(items_view(items@)),
{
    let ghost all = items_view(items@);
    let mut rest = items;
    let mut taken: Vec<FeedItem> = Vec::new();
    // take the items off the end, so that they can be inserted in their order
    while rest.len() > 0
        invariant
            items_view(rest@) + items_view(taken@).reverse() == all,
        decreases rest@.len(),
    {
        let ghost rv = items_view(rest@);
        let ghost tv = items_view(taken@);
        let x = rest.pop().unwrap();
        taken.push(x);
        proof {
            assert(items_view(rest@) =~= rv.drop_last());
            assert(items_view(taken@) =~= tv.push(x@));
            assert(tv.push(x@).reverse() =~= seq![x@] + tv.reverse());
            assert(rv =~= rv.drop_last().push(x@));
            assert(rv.drop_last() + (seq![x@] + tv.reverse()) =~= rv + tv.reverse());
        }
    }
    assert(items_view(rest@) =~= Seq::<ItemView>::empty());
    assert(items_view(taken@).reverse() =~= all);
    let mut sorted: Vec<FeedItem> = Vec::new();
    let mut keys: Vec<(i64, u32)> = Vec::new();
    let ghost n = all.len();
    while taken.len() > 0
        invariant
            items_view(taken@).len() + items_view(sorted@).len() >= 0,
            n == all.len(),
            items_view(taken@).reverse() == all.subrange(n - taken@.len(), n as int) || taken@.len() == 0,
            taken@.len() <= n,
            items_view(taken@).reverse() =~= all.subrange((n - taken@.len()) as int, n as int),
            items_view(sorted@) == newest_first(all.take((n - taken@.len()) as int)),
            keys@.len() == sorted@.len(),
            forall|k: int| 0 <= k < keys@.len() ==> keys@[k] == item_key(#[trigger] items_view(sorted@)[k]),
        decreases taken@.len(),
    {
        let ghost tv = items_view(taken@);
        let ghost i = n - taken@.len();
        let x = taken.pop().unwrap();
        let kx = publication_key(&x);
        proof {
            assert(items_view(taken@) =~= tv.drop_last());
            assert(tv.reverse()[0] == x@);
            assert(all[i] == x@);
            assert(all.take(i + 1).drop_last() =~= all.take(i));
            assert(all.take(i + 1).last() == x@);
            assert(tv.drop_last().reverse() =~= tv.reverse().drop_first());
        }
        insert_sorted(&mut sorted, &mut keys, x, kx);
    }
    assert(all.take(n as int) =~= all);
    sorted
}

/// Inserts `x` (published at `kx`) into the newest-first `sorted` after every
/// item at least as new; `keys` holds the instants of `sorted`.
fn insert_sorted(sorted: &mut Vec<FeedItem>, keys: &mut Vec<(i64, u32)>, x: FeedItem, kx: (i64, u32))
    requires
        kx == item_key(x@),
        old(keys)@.len() == old(sorted)@.len(),
        forall|k: int| 0 <= k < old(keys)@.len() ==> old(keys)@[k] == item_key(#[trigger] items_view(old(sorted)@)[k]),
    ensures
        items_view(final(sorted)@) == insert_newest_first(items_view(old(sorted)@), x@),
        final(keys)@.len() == final(sorted)@.len(),
        forall|k: int| 0 <= k < final(keys)@.len() ==> final(keys)@[k] == item_key(#[trigger] items_view(final(sorted)@)[k]),
{
    let ghost sv = items_view(sorted@);
    assert(sv.take(sv.len() as int) =~= sv);
    assert(sv.skip(sv.len() as int) =~= Seq::<ItemView>::empty());
    assert(insert_newest_first(sv, x@) + Seq::<ItemView>::empty() =~= insert_newest_first(sv, x@));
    // the position: after the last item that is at least as new as `x`
    let mut pos = sorted.len();
    while pos > 0 && is_before(keys[pos - 1], kx)
        invariant
            pos <= sorted@.len() == keys@.len(),
            sv == items_view(sorted@),
            sorted@ == old(sorted)@,
            keys@ == old(keys)@,
            kx == item_key(x@),
            forall|k: int| 0 <= k < keys@.len() ==> keys@[k] == item_key(#[trigger] items_view(sorted@)[k]),
            insert_newest_first(sv, x@) == insert_newest_first(sv.take(pos as int), x@) + sv.skip(pos as int),
        decreases pos,
    {
        proof {
            let t = sv.take(pos as int);
            assert(t.last() == sv[pos - 1]);
            assert(keys@[pos - 1] == item_key(sv[pos - 1]));
            assert(t.drop_last() =~= sv.take(pos - 1));
            assert(insert_newest_first(t, x@) == insert_newest_first(t.drop_last(), x@).push(t.last()));
            assert(sv.skip(pos - 1) =~= seq![sv[pos - 1]] + sv.skip(pos as int));
            assert(insert_newest_first(sv.take(pos - 1), x@).push(sv[pos - 1]) + sv.skip(pos as int)
                =~= insert_newest_first(sv.take(pos - 1), x@) + sv.skip(pos - 1));
        }
        pos = pos - 1;
    }
    proof {
        let t = sv.take(pos as int);
        if pos > 0 {
            assert(t.last() == sv[pos - 1]);
            assert(keys@[pos - 1] == item_key(sv[pos - 1]));
            assert(insert_newest_first(t, x@) == t.push(x@));
        } else {
            assert(t =~= Seq::<ItemView>::empty());
            assert(insert_newest_first(t, x@) == seq![x@]);
            assert(seq![x@] =~= t.push(x@));
        }
    }
    let ghost ks = keys@;
    sorted.insert(pos, x);
    keys.insert(pos, kx);
    proof {
        assert(items_view(sorted@) =~= sv.take(pos as int).push(x@) + sv.skip(pos as int));
        assert forall|k: int| 0 <= k < keys@.len() implies keys@[k] == item_key(#[trigger] items_view(sorted@)[k]) by {
            if k < pos {
                assert(keys@[k] == ks[k]);
                assert(items_view(sorted@)[k] == sv[k]);
            } else if k == pos {
            } else {
                assert(keys@[k] == ks[k - 1]);
                assert(items_view(sorted@)[k] == sv[k - 1]);
            }
        }
    }
}

/// A text, or the empty one.
pub open spec fn or_empty(o: Option<Seq<char>>) -> Seq<char> {
    match o {
        Some(t) => t,
        None => Seq::<char>::empty(),
    }
}

/// The image of the podcast feed for an image of the read feed: its address,
/// its title as link, and its description (empty when it has none).
pub open spec fn spec_feed_image(img: Option<SourceImage>) -> Option<(Seq<char>, Seq<char>, Option<Seq<char>>)> {
    match img {
        Some(i) => Some((i.uri@, or_empty(opt_view(i.title)), Some(or_empty(opt_view(i.description))))),
        None => None,
    }
}

/// The podcast feed made from a read feed and the items of its entries: the
/// feed's title and description, its logo (else its icon) as image, the
/// service as generator, and the items newest first.
pub open spec fn spec_transcodize_feed(feed: SourceFeed, items: Seq<ItemView>) -> ChannelView {
    ChannelView {
        title: or_empty(opt_view(feed.title)),
        link: Seq::<char>::empty(),
        description: or_empty(opt_view(feed.description)),
        language: None,
        generator: Some(generator_name()),
        image: match feed.logo {
            Some(l) => spec_feed_image(Some(l)),
            None => spec_feed_image(feed.icon),
        },
        itunes: None,
        podcast_namespaces: false,
        items: newest_first(items),
    }
}

fn feed_image(img: &SourceImage) -> (r: ChannelImage)
    ensures
        spec_feed_image(Some(*img)) == Some((r.url@, r.link@, opt_view(r.description))),
{
    ChannelImage {
        url: img.uri.clone(),
        link: match &img.title {
            Some(t) => t.clone(),
            None => String::new(),
        },
        description: Some(
            match &img.description {
                Some(d) => d.clone(),
                None => String::new(),
            },
        ),
    }
}

/// Makes the podcast feed of a read feed from the items of its entries (those
/// left out already dropped).
pub fn transcodize_feed(feed: &SourceFeed, items: Vec<FeedItem>) -> (r: FeedChannel)
    ensures
        r@ == spec_transcodize_feed(*feed, items_view(items@)),
{
    let mut c = empty_channel();
    c.title = match &feed.title {
        Some(t) => t.clone(),
        None => String::new(),
    };
    c.description = match &feed.description {
        Some(t) => t.clone(),
        None => String::new(),
    };
    c.image = match &feed.logo {
        Some(l) => Some(feed_image(l)),
        None => match &feed.icon {
            Some(i) => Some(feed_image(i)),
            None => None,
        },
    };
    c.generator = Some(String::from_str("generated by vod2pod-rss"));
    proof {
        reveal_strlit("generated by vod2pod-rss");
    }
    c.items = sort_newest_first(items);
    c
}

/// The items are newest first.
pub open spec fn is_newest_first(s: Seq<ItemView>) -> bool {
    forall|i: int, j: int| 0 <= i < j < s.len() ==> !before(item_key(#[trigger] s[i]), item_key(#[trigger] s[j]))
}

/// Where `insert_newest_first` puts `x`: after the items at least as new, before
/// the older ones.
proof fn lemma_insert_position(s: Seq<ItemView>, x: ItemView) -> (p: int)
    ensures
        0 <= p <= s.len(),
        insert_newest_first(s, x) == s.take(p).push(x) + s.skip(p),
        forall|j: int| p <= j < s.len() ==> before(item_key(#[trigger] s[j]), item_key(x)),
        p > 0 ==> !before(item_key(s[p - 1]), item_key(x)),
    decreases s.len(),
{
    if s.len() == 0 {
        assert(s.take(0).push(x) + s.skip(0) =~= seq![x]);
        0
    } else if before(item_key(s.last()), item_key(x)) {
        let t = s.drop_last();
        let q = lemma_insert_position(t, x);
        assert(t.take(q) =~= s.take(q));
        assert((t.take(q).push(x) + t.skip(q)).push(s.last()) =~= s.take(q).push(x) + s.skip(q));
        assert forall|j: int| q <= j < s.len() implies before(item_key(#[trigger] s[j]), item_key(x)) by {
            if j < s.len() - 1 {
                assert(s[j] == t[j]);
            }
        }
        if q > 0 {
            assert(s[q - 1] == t[q - 1]);
        }
        q
    } else {
        assert(s.take(s.len() as int) =~= s);
        assert(s.skip(s.len() as int) =~= Seq::<ItemView>::empty());
        assert(s.push(x) =~= s.take(s.len() as int).push(x) + s.skip(s.len() as int));
        s.len() as int
    }
}

/// Putting an item into a newest-first list keeps it newest first and adds
/// just that item.
proof fn lemma_insert_newest_first(s: Seq<ItemView>, x: ItemView)
    requires
        is_newest_first(s),
    ensures
        is_newest_first(insert_newest_first(s, x)),
        insert_newest_first(s, x).to_multiset() == s.to_multiset().insert(x),
{
    let p = lemma_insert_position(s, x);
    let r = insert_newest_first(s, x);
    assert(r.len() == s.len() + 1);
    assert forall|i: int| 0 <= i < r.len() implies #[trigger] r[i] == (if i < p {
        s[i]
    } else if i == p {
        x
    } else {
        s[i - 1]
    }) by {}
    assert forall|i: int, j: int| 0 <= i < j < r.len() implies !before(item_key(#[trigger] r[i]), item_key(#[trigger] r[j])) by {
        if j < p {
        } else if j == p {
            if i < p - 1 {
                assert(!before(item_key(s[i]), item_key(s[p - 1])));
            }
        } else if i < p {
            assert(before(item_key(s[j - 1]), item_key(x)));
            assert(!before(item_key(s[i]), item_key(s[j - 1])));
        } else if i == p {
            assert(before(item_key(s[j - 1]), item_key(x)));
        } else {
        }
    }
    vstd::seq_lib::lemma_multiset_commutative(s.take(p).push(x), s.skip(p));
    vstd::seq_lib::lemma_multiset_commutative(s.take(p), s.skip(p));
    assert(s.take(p) + s.skip(p) =~= s);
    assert(s.take(p).push(x).to_multiset() == s.take(p).to_multiset().insert(x)) by {
        s.take(p).to_multiset_ensures();
    }
}

/// The podcast feed's items come newest first (an item without a readable
/// date counts as published at the Unix epoch), and they are the items it was
/// given, each as often.
pub proof fn law_items_newest_first(items: Seq<ItemView>)
    ensures
        is_newest_first(newest_first(items)),
        newest_first(items).to_multiset() == items.to_multiset(),
    decreases items.len(),
{
    if items.len() == 0 {
        assert(newest_first(items) =~= Seq::<ItemView>::empty());
        assert(items =~= Seq::<ItemView>::empty());
    } else {
        law_items_newest_first(items.drop_last());
        lemma_insert_newest_first(newest_first(items.drop_last()), items.last());
        assert(items.drop_last().push(items.last()) =~= items);
        items.drop_last().to_multiset_ensures();
    }
}

/// The lengths the service writes into its feeds (`hh:mm:ss`) read back, with
/// its duration parser, as the same number of seconds.
pub proof fn law_duration_round_trip(secs: u64)
    ensures
        spec_parse_duration(hms(secs as nat)) == Some(secs as nat),
{
    let h = (secs / 3600) as nat;
    let m = ((secs % 3600) / 60) as nat;
    let s = (secs % 60) as nat;
    let (a, b, c) = (two_digits(h), two_digits(m), two_digits(s));
    crate::text::lemma_two_digits_parse(h);
    crate::text::lemma_two_digits_parse(m);
    crate::text::lemma_two_digits_parse(s);
    let colon = seq![':'];
    assert(":"@ == colon) by {
        reveal_strlit(":");
    }
    assert(hms(secs as nat) =~= a + colon + (b + colon + c));
    crate::text::lemma_split_piece(a, ':', b + colon + c);
    crate::text::lemma_split_piece(b, ':', c);
    crate::text::lemma_split_single(c, ':');
    assert(split_all(hms(secs as nat), ':') =~= seq![a, b, c]);
    assert(h * 3600 + m * 60 + s == secs) by (nonlinear_arith)
        requires
            h == secs / 3600,
            m == (secs % 3600) / 60,
            s == secs % 60,
    ;
}

/// A number written in decimal holds no `:`.
proof fn lemma_decimal_free_of_colon(x: u64)
    ensures
        crate::text::free_of(decimal(x as nat), ':'),
        spec_parse_u64(decimal(x as nat)) == Some(x),
{
    crate::text::lemma_parse_decimal(x);
    assert forall|i: int| 0 <= i < decimal(x as nat).len() implies #[trigger] decimal(x as nat)[i] != ':' by {
        assert(crate::text::is_digit(decimal(x as nat)[i]));
    }
}

/// Durations written `h:m:s`, `m:s` or `s`, with the numbers in decimal, read
/// as `h * 3600 + m * 60 + s`, `m * 60 + s` and `s` seconds; an empty text is
/// no duration.
pub proof fn law_duration_forms(h: u64, m: u64, s: u64)
    ensures
        spec_parse_duration(decimal(h as nat) + ":"@ + decimal(m as nat) + ":"@ + decimal(s as nat))
            == Some((h * 3600 + m * 60 + s) as nat),
        spec_parse_duration(decimal(m as nat) + ":"@ + decimal(s as nat)) == Some((m * 60 + s) as nat),
        spec_parse_duration(decimal(s as nat)) == Some(s as nat),
        spec_parse_duration(""@) is None,
{
    lemma_decimal_free_of_colon(h);
    lemma_decimal_free_of_colon(m);
    lemma_decimal_free_of_colon(s);
    let (a, b, c) = (decimal(h as nat), decimal(m as nat), decimal(s as nat));
    let colon = seq![':'];
    assert(":"@ == colon) by {
        reveal_strlit(":");
    }
    crate::text::lemma_split_single(c, ':');
    crate::text::lemma_split_piece(b, ':', c);
    crate::text::lemma_split_piece(a, ':', b + colon + c);
    assert(a + colon + b + colon + c =~= a + colon + (b + colon + c));
    assert(split_all(a + colon + b + colon + c, ':') =~= seq![a, b, c]);
    assert(split_all(b + colon + c, ':') =~= seq![b, c]);
    let e = Seq::<char>::empty();
    assert(""@ == e) by {
        reveal_strlit("");
    }
    assert(crate::text::free_of(e, ':'));
    crate::text::lemma_split_single(e, ':');
    assert(spec_parse_u64(e) is None);
}

/// An episode keeps its guid each time the feed is made (it comes from the
/// entry's id alone), while the address of its transcoded file changes with
/// the uuid drawn for it.
pub proof fn law_guid_is_stable(
    e: EntryView,
    service: Seq<char>,
    should_transcode: bool,
    bitrate: u64,
    uuid1: Seq<char>,
    uuid2: Seq<char>,
    looked_up: u64,
    version: Seq<char>,
)
    ensures
        forall|a: ItemView, b: ItemView|
            spec_convert_item(e, service, should_transcode, bitrate, uuid1, looked_up, version) == Ok::<Option<ItemView>, ItemError>(Some(a))
                && #[trigger] spec_convert_item(e, service, should_transcode, bitrate, uuid2, looked_up, version) == Ok::<Option<ItemView>, ItemError>(Some(b))
                ==> a.guid == b.guid && a.title == b.title && a.itunes == b.itunes,
{
}

/// An item's enclosure announces the size the transcoding service serves for
/// it: the item's duration, read back, times the bitrate times 1024 fits in 64
/// bits, the enclosure's length is that number in decimal, its address is the
/// service's address with that bitrate and duration, and a request for the
/// whole file at that bitrate and duration is answered with exactly that many
/// bytes.
pub proof fn law_announced_size_is_served(
    e: EntryView,
    service: Seq<char>,
    bitrate: u64,
    uuid: Seq<char>,
    looked_up: u64,
    version: Seq<char>,
    item: ItemView,
)
    requires
        spec_convert_item(e, service, true, bitrate, uuid, looked_up, version) == Ok::<Option<ItemView>, ItemError>(Some(item)),
        item.enclosure is Some,
    ensures
        item.itunes matches Some((Some(d), _, _)) && spec_parse_duration(d) matches Some(secs) && {
            let total = bitrate * 1024 * secs;
            &&& secs <= u64::MAX
            &&& total <= u64::MAX
            &&& item.enclosure matches Some((address, length, _)) && length == decimal(total as nat)
                && exists|media_url: Seq<char>| #[trigger] spec_enclosure_url(service, bitrate, uuid, secs as u64, media_url) == Some(address)
            &&& total > 0 ==> spec_decide_range(None, total as u64) == RangeDecision::Serve(
                ServedRange { is_partial: false, start: 0, end: (total - 1) as u64, expected: total as u64 },
            )
            &&& total == 0 ==> spec_decide_range(None, total as u64) == RangeDecision::NoContent
        },
{
    assert(!is_premiere(e) && media_typed(e.media));
    let src = spec_media_source(e).unwrap();
    let media_url = resolved_media_url(src).unwrap();
    assert(e.media.len() > 0 && date_in_range(e.published));
    let secs = spec_item_duration(e.media[0], media_url, looked_up);
    let address = spec_enclosure_url(service, bitrate, uuid, secs, media_url).unwrap();
    law_duration_round_trip(secs);
    assert(spec_enclosure_url(service, bitrate, uuid, (secs as nat) as u64, media_url) == Some(address));
}

/// How many lookups of a video's length with yt-dlp may run at once: those
/// ranked 0 to 4 in the waiting set.
pub fn lookup_admitted(rank: u64) -> (b: bool)
    ensures
        b == (rank <= 4),
{
    rank <= 4
}

/// Waiting lookups older than ten minutes are dropped: those that entered
/// before `now - 600` (seconds since the Unix epoch).
pub fn lookup_cutoff(now: u64) -> (r: u64)
    requires
        now >= 600,
    ensures
        r == now - 600,
{
    now - 600
}

/// The lengths asked of the YouTube API at once.
pub const API_BATCH: i64 = 50;

/// The window of the queue of waiting video ids taken in one request to the
/// API (the last 50, or all when fewer wait; the start may be negative, which
/// Redis clamps), and the last index kept in the queue afterwards.
pub fn queue_batch(queue_len: i64) -> (r: (i64, i64, i64))
    requires
        queue_len > 0,
    ensures
        r.1 == queue_len - 1,
        r.0 == queue_len - API_BATCH,
        r.2 == r.0 - 1,
{
    let end = queue_len - 1;
    let start = end - API_BATCH + 1;
    (start, end, start - 1)
}

/// Whether to look again for a length another request is fetching: not yet
/// found, and fewer than 100 looks so far.
pub fn keep_waiting(found: bool, looks: u32) -> (b: bool)
    ensures
        b == (!found && looks < 100),
{
    !found && looks < 100
}

} // verus!
