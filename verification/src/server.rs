use vstd::prelude::*;

use crate::text::{
    all_digits, decimal, is_digit, is_first_index, lemma_first_index_unique, lemma_parse_decimal,
    trim_end, trim_start, eq_ignore_ascii_case, find_char, from_chars, push_chars, str_eq_ignore_ascii_case,
    u64_to_chars, parse_u64_range, push_str, spec_parse_u64, split_once, starts_with_at, to_chars,
    trim, trim_bounds,
};

use crate::configs::AudioCodec;
use crate::patterns::spec_any_match;
use crate::provider::{provider_for, spec_provider_for, spec_whitelist, url_allowed, ProviderKind};
use crate::urls::{parse_url_or_error, url_error_of, url_parsed};

verus! {

/// Why a `Range` request header cannot be served.
#[derive(Debug, PartialEq, Eq, Structural, Clone, Copy)]
pub enum RangeError {
    /// The header is not a single `bytes=` range in a form we understand.
    Invalid,
    /// The range lies outside the content.
    Unsatisfiable,
}

/// The range `(start, end, count)` for the given bounds, with `count` the number
/// of bytes from `start` to `end` inclusive.
pub open spec fn range_of(start: u64, end: u64) -> (u64, u64, u64) {
    (start, end, (end - start + 1) as u64)
}

/// What a `Range` header asks of a body of `bytes_count` bytes: the first and last
/// byte positions and the byte count, or why it cannot be served.
///
/// The header, once trimmed, must be `bytes=` followed by one range with no comma:
/// `a-b`, `a-` (to the end) or `-n` (the last `n` bytes); numbers are read as
/// `str::parse::<u64>` reads them. An empty body can never be served.
pub open spec fn spec_parse_range_header(header: Seq<char>, bytes_count: u64) -> Result<
    (u64, u64, u64),
    RangeError,
> {
    if bytes_count == 0 {
        Err(RangeError::Unsatisfiable)
    } else {
        let t = trim(header);
        if !(t.len() >= 6 && t.take(6) == "bytes="@) {
            Err(RangeError::Invalid)
        } else {
            let r = t.skip(6);
            if r.contains(',') {
                Err(RangeError::Invalid)
            } else {
                match split_once(r, '-') {
                    None => Err(RangeError::Invalid),
                    Some((a, b)) => {
                        if a.len() == 0 && b.len() == 0 {
                            Err(RangeError::Invalid)
                        } else if a.len() == 0 {
                            match spec_parse_u64(b) {
                                None => Err(RangeError::Invalid),
                                Some(suffix) => if suffix == 0 {
                                    Err(RangeError::Invalid)
                                } else {
                                    let start = if suffix <= bytes_count {
                                        (bytes_count - suffix) as u64
                                    } else {
                                        0u64
                                    };
                                    Ok(range_of(start, (bytes_count - 1) as u64))
                                },
                            }
                        } else if b.len() == 0 {
                            match spec_parse_u64(a) {
                                None => Err(RangeError::Invalid),
                                Some(start) => if start >= bytes_count {
                                    Err(RangeError::Unsatisfiable)
                                } else {
                                    Ok(range_of(start, (bytes_count - 1) as u64))
                                },
                            }
                        } else {
                            match spec_parse_u64(a) {
                                None => Err(RangeError::Invalid),
                                Some(start) => match spec_parse_u64(b) {
                                    None => Err(RangeError::Invalid),
                                    Some(end) => if start >= bytes_count || end < start {
                                        Err(RangeError::Unsatisfiable)
                                    } else {
                                        let last = if end <= bytes_count - 1 {
                                            end
                                        } else {
                                            (bytes_count - 1) as u64
                                        };
                                        Ok(range_of(start, last))
                                    },
                                },
                            }
                        }
                    },
                }
            }
        }
    }
}

/// Reads a `Range` request header against a body of `bytes_count` bytes.
///
/// Every range it accepts lies inside the body, and its count is the number of
/// bytes it covers.
pub fn parse_range_header(range_header: &str, bytes_count: u64) -> (r: Result<
    (u64, u64, u64),
    RangeError,
>)
    ensures
        r == spec_parse_range_header(range_header@, bytes_count),
        r matches Ok((start, end, count)) ==> start <= end < bytes_count && count == end - start
            + 1,
{
    if bytes_count == 0 {
        return Err(RangeError::Unsatisfiable);
    }
    let v = to_chars(range_header);
    let (lo, hi) = trim_bounds(v.as_slice());
    let ghost t = v@.subrange(lo as int, hi as int);
    proof {
        reveal_strlit("bytes=");
    }
    if !starts_with_at(v.as_slice(), lo, hi, "bytes=") {
        proof {
            if t.len() >= 6 {
                assert(t.take(6) =~= v@.subrange(lo as int, lo + 6));
            }
        }
        return Err(RangeError::Invalid);
    }
    assert(t.take(6) =~= v@.subrange(lo as int, lo + 6));
    let rs = lo + 6;
    let ghost r = t.skip(6);
    assert(r =~= v@.subrange(rs as int, hi as int));
    if find_char(v.as_slice(), rs, hi, ',').is_some() {
        return Err(RangeError::Invalid);
    }
    let k = match find_char(v.as_slice(), rs, hi, '-') {
        None => {
            return Err(RangeError::Invalid);
        },
        Some(k) => k,
    };
    let mid = rs + k;
    assert(r.take(k as int) =~= v@.subrange(rs as int, mid as int));
    assert(r.skip(k + 1) =~= v@.subrange(mid + 1, hi as int));
    let a_empty = mid == rs;
    let b_empty = mid + 1 == hi;
    if a_empty && b_empty {
        return Err(RangeError::Invalid);
    }
    if a_empty {
        let suffix = match parse_u64_range(v.as_slice(), mid + 1, hi) {
            None => {
                return Err(RangeError::Invalid);
            },
            Some(x) => x,
        };
        if suffix == 0 {
            return Err(RangeError::Invalid);
        }
        let start = bytes_count.saturating_sub(suffix);
        let end = bytes_count - 1;
        return Ok((start, end, end - start + 1));
    }
    if b_empty {
        let start = match parse_u64_range(v.as_slice(), rs, mid) {
            None => {
                return Err(RangeError::Invalid);
            },
            Some(x) => x,
        };
        if start >= bytes_count {
            return Err(RangeError::Unsatisfiable);
        }
        let end = bytes_count - 1;
        return Ok((start, end, end - start + 1));
    }
    let start = match parse_u64_range(v.as_slice(), rs, mid) {
        None => {
            return Err(RangeError::Invalid);
        },
        Some(x) => x,
    };
    let end = match parse_u64_range(v.as_slice(), mid + 1, hi) {
        None => {
            return Err(RangeError::Invalid);
        },
        Some(x) => x,
    };
    if start >= bytes_count || end < start {
        return Err(RangeError::Unsatisfiable);
    }
    let last = if end <= bytes_count - 1 {
        end
    } else {
        bytes_count - 1
    };
    Ok((start, last, last - start + 1))
}

/// Whether a `TRANSCODE` setting leaves transcoding on: only a value equal to
/// `false` (in any ASCII case) turns it off, and a missing setting leaves it on.
pub open spec fn spec_transcoding_enabled(setting: Option<Seq<char>>) -> bool {
    match setting {
        Some(v) => !eq_ignore_ascii_case(v, "false"@),
        None => true,
    }
}

/// Whether transcoding is on, given the `TRANSCODE` setting (if it could be read).
pub fn transcoding_enabled(setting: Option<&str>) -> (b: bool)
    ensures
        b == spec_transcoding_enabled(
            match setting {
                Some(v) => Some(v@),
                None => None,
            },
        ),
{
    match setting {
        Some(v) => !str_eq_ignore_ascii_case(v, "false"),
        None => true,
    }
}

/// The `Range` header of a media request.
pub enum RangeHeader {
    /// No `Range` header was sent.
    Absent,
    /// A `Range` header was sent, but its value is not visible ASCII text.
    Unreadable,
    /// A `Range` header with this value was sent.
    Value(String),
}

/// The part of the media that a request is answered with.
#[derive(Debug, PartialEq, Eq, Structural, Clone, Copy)]
pub struct ServedRange {
    /// Whether a `Range` header was honoured (a `206 Partial Content` answer).
    pub is_partial: bool,
    /// The first byte served.
    pub start: u64,
    /// The last byte served.
    pub end: u64,
    /// The number of bytes served.
    pub expected: u64,
}

/// How a media request is answered, as far as its range goes.
#[derive(Debug, PartialEq, Eq, Structural, Clone, Copy)]
pub enum RangeDecision {
    /// Serve these bytes.
    Serve(ServedRange),
    /// `400 Bad Request`: the range header cannot be read.
    BadRequest,
    /// `416 Range Not Satisfiable`: the range lies outside the content.
    NotSatisfiable,
    /// `204 No Content`: there is nothing to serve.
    NoContent,
}

/// The decision for a range header against a body of `total` bytes.
pub open spec fn spec_decide_range(header: Option<Option<Seq<char>>>, total: u64) -> RangeDecision {
    match header {
        Some(Some(h)) => match spec_parse_range_header(h, total) {
            Ok((start, end, expected)) => RangeDecision::Serve(
                ServedRange { is_partial: true, start, end, expected },
            ),
            Err(RangeError::Invalid) => RangeDecision::BadRequest,
            Err(RangeError::Unsatisfiable) => RangeDecision::NotSatisfiable,
        },
        Some(None) => RangeDecision::BadRequest,
        None => if total > 0 {
            RangeDecision::Serve(
                ServedRange { is_partial: false, start: 0, end: (total - 1) as u64, expected: total },
            )
        } else {
            RangeDecision::NoContent
        },
    }
}

/// The header as the specification sees it: absent, unreadable, or its text.
pub open spec fn range_header_view(h: RangeHeader) -> Option<Option<Seq<char>>> {
    match h {
        RangeHeader::Absent => None,
        RangeHeader::Unreadable => Some(None),
        RangeHeader::Value(v) => Some(Some(v@)),
    }
}

/// Decides which bytes of a transcoded body of `total` bytes a request is answered
/// with. A request without a range gets the whole body (or `204` when it is empty).
pub fn decide_range(header: &RangeHeader, total: u64) -> (d: RangeDecision)
    ensures
        d == spec_decide_range(range_header_view(*header), total),
        d matches RangeDecision::Serve(r) ==> r.start <= r.end < total && r.expected == r.end
            - r.start + 1,
{
    match header {
        RangeHeader::Value(h) => match parse_range_header(h.as_str(), total) {
            Ok((start, end, expected)) => RangeDecision::Serve(
                ServedRange { is_partial: true, start, end, expected },
            ),
            Err(RangeError::Invalid) => RangeDecision::BadRequest,
            Err(RangeError::Unsatisfiable) => RangeDecision::NotSatisfiable,
        },
        RangeHeader::Unreadable => RangeDecision::BadRequest,
        RangeHeader::Absent => {
            if total > 0 {
                RangeDecision::Serve(
                    ServedRange { is_partial: false, start: 0, end: total - 1, expected: total },
                )
            } else {
                RangeDecision::NoContent
            }
        },
    }
}

/// The `Content-Range` value of a `416` answer: `bytes */{total}`.
pub fn unsatisfied_content_range(total: u64) -> (s: String)
    ensures
        s@ == "bytes */"@ + decimal(total as nat),
{
    let mut v: Vec<char> = Vec::new();
    push_str(&mut v, "bytes */");
    let d = u64_to_chars(total);
    push_chars(&mut v, d.as_slice());
    from_chars(v.as_slice())
}

/// The `Content-Range` value of a `206` answer: `bytes {start}-{end}/{total}`.
pub open spec fn spec_content_range(start: u64, end: u64, total: u64) -> Seq<char> {
    "bytes "@ + decimal(start as nat) + "-"@ + decimal(end as nat) + "/"@ + decimal(total as nat)
}

/// The status line of a media answer.
#[derive(Debug, PartialEq, Eq, Structural, Clone, Copy)]
pub enum MediaStatus {
    /// `200 OK`
    Success,
    /// `206 Partial Content`
    PartialContent,
}

/// The status and headers of a media answer.
pub struct MediaResponseHead {
    pub status: MediaStatus,
    /// `Accept-Ranges`
    pub accept_ranges: String,
    /// `Content-Length`: the body is sent in one piece of this size, not chunked.
    pub content_length: u64,
    /// `Content-Type`
    pub content_type: String,
    /// `Content-Range`, sent on partial answers only.
    pub content_range: Option<String>,
}

/// What a `Content-Range` value says when read back: after `bytes `, the
/// first byte served up to the `-`, the last byte served up to the `/`, and
/// then the size of the whole body, each a number as `str::parse::<u64>` reads
/// it.
pub open spec fn content_range_reads_back(cr: Seq<char>, start: u64, end: u64, total: u64) -> bool {
    &&& cr.len() >= 6
    &&& cr.take(6) == "bytes "@
    &&& match split_once(cr.skip(6), '-') {
        Some((a, rest)) => spec_parse_u64(a) == Some(start) && match split_once(rest, '/') {
            Some((b, c)) => spec_parse_u64(b) == Some(end) && spec_parse_u64(c) == Some(total),
            None => false,
        },
        None => false,
    }
}

/// Splitting digits, then `c` (no digit), then anything, at `c` gives the
/// digits and the rest.
proof fn lemma_split_after_digits(a: Seq<char>, c: char, rest: Seq<char>)
    requires
        all_digits(a),
        !is_digit(c),
    ensures
        split_once(a + seq![c] + rest, c) == Some((a, rest)),
{
    let r = a + seq![c] + rest;
    let k = a.len() as int;
    assert forall|j: int| 0 <= j < k implies r[j] != c by {
        assert(is_digit(a[j]));
    }
    assert(is_first_index(r, c, k));
    let i = choose|i: int| is_first_index(r, c, i);
    lemma_first_index_unique(r, c, i, k);
    assert(r.take(k) =~= a);
    assert(r.skip(k + 1) =~= rest);
}

/// A partial answer's `Content-Range` reads back as the first and last byte
/// served and the size of the body it was made from, in that order.
pub proof fn law_content_range_reads_back(start: u64, end: u64, total: u64)
    ensures
        content_range_reads_back(spec_content_range(start, end, total), start, end, total),
{
    reveal_strlit("bytes ");
    reveal_strlit("-");
    reveal_strlit("/");
    lemma_parse_decimal(start);
    lemma_parse_decimal(end);
    lemma_parse_decimal(total);
    let (a, b, c) = (decimal(start as nat), decimal(end as nat), decimal(total as nat));
    let cr = spec_content_range(start, end, total);
    assert(cr =~= "bytes "@ + (a + seq!['-'] + (b + seq!['/'] + c)));
    assert(cr.take(6) =~= "bytes "@);
    assert(cr.skip(6) =~= a + seq!['-'] + (b + seq!['/'] + c));
    lemma_split_after_digits(a, '-', b + seq!['/'] + c);
    lemma_split_after_digits(b, '/', c);
}

/// The status and headers of a media answer: `206` with a `Content-Range` when a
/// range was asked for, `200` otherwise; always `Accept-Ranges: bytes`, the given
/// length and content type.
pub fn media_response_builder(
    is_partial: bool,
    start_bytes: u64,
    end_bytes: u64,
    total_bytes: u64,
    content_length: u64,
    content_type: &str,
) -> (r: MediaResponseHead)
    ensures
        r.status == (if is_partial {
            MediaStatus::PartialContent
        } else {
            MediaStatus::Success
        }),
        r.accept_ranges@ == "bytes"@,
        r.content_length == content_length,
        r.content_type@ == content_type@,
        is_partial ==> (r.content_range matches Some(cr) && cr@ == spec_content_range(
            start_bytes,
            end_bytes,
            total_bytes,
        )),
        !is_partial ==> r.content_range is None,
        is_partial ==> (r.content_range matches Some(cr) && content_range_reads_back(cr@, start_bytes, end_bytes, total_bytes)),
{
    proof {
        law_content_range_reads_back(start_bytes, end_bytes, total_bytes);
    }
    let content_range = if is_partial {
        let mut v: Vec<char> = Vec::new();
        push_str(&mut v, "bytes ");
        let a = u64_to_chars(start_bytes);
        push_chars(&mut v, a.as_slice());
        push_str(&mut v, "-");
        let b = u64_to_chars(end_bytes);
        push_chars(&mut v, b.as_slice());
        push_str(&mut v, "/");
        let c = u64_to_chars(total_bytes);
        push_chars(&mut v, c.as_slice());
        Some(from_chars(v.as_slice()))
    } else {
        None
    };
    MediaResponseHead {
        status: if is_partial {
            MediaStatus::PartialContent
        } else {
            MediaStatus::Success
        },
        accept_ranges: String::from_str("bytes"),
        content_length,
        content_type: String::from_str(content_type),
        content_range,
    }
}

/// A media answer without a body (to a `HEAD` request) that still declares the
/// size of the body a `GET` would have.
pub struct HeadMediaResponse {
    pub head: MediaResponseHead,
    /// The declared body size.
    pub body_size: u64,
}

/// Turns response headers into the answer to a `HEAD` request, which declares a
/// body of `content_length` bytes and sends none.
pub fn head_media_response(response: MediaResponseHead, content_length: u64) -> (r:
    HeadMediaResponse)
    ensures
        r.head == response,
        r.body_size == content_length,
{
    HeadMediaResponse { head: response, body_size: content_length }
}

/// The size in bytes of the transcoded body of a media file of `duration_secs`
/// seconds at `bitrate` kbit/s: the size its feed item announces (the bitrate
/// times 1024 times the length). `None` when it does not fit in 64 bits.
pub fn estimated_output_bytes(duration_secs: u64, bitrate: u64) -> (r: Option<u64>)
    ensures
        r == (if bitrate * 1024 * duration_secs <= u64::MAX {
            Some((bitrate * 1024 * duration_secs) as u64)
        } else {
            None::<u64>
        }),
{
    if bitrate > u64::MAX / 1024 {
        if duration_secs == 0 {
            return Some(0);
        }
        proof {
            assert(bitrate * 1024 > u64::MAX) by (nonlinear_arith)
                requires bitrate > u64::MAX / 1024;
            assert(bitrate * 1024 * duration_secs >= bitrate * 1024) by (nonlinear_arith)
                requires duration_secs >= 1;
        }
        return None;
    }
    let per_second = bitrate * 1024;
    match per_second.checked_mul(duration_secs) {
        Some(t) => Some(t),
        None => None,
    }
}

/// How a request to transcode a media file is answered.
pub enum TranscodeAnswer {
    /// `403`: transcoding is off.
    TranscodingOff,
    /// `403`: the media's URL is not one its provider serves.
    NotAllowed,
    /// `400`: the size of the body does not fit in 64 bits, or the range
    /// header cannot be read.
    BadRequest,
    /// `416` with `Content-Range: bytes */{total}`.
    NotSatisfiable(u64),
    /// `204`: there is nothing to serve.
    NoContent,
    /// `500`: the bytes to serve do not fit in this machine's sizes.
    InternalError,
    /// Serve `range` of the body of `total` bytes, transcoding with ffmpeg at a
    /// maximum rate of `max_rate_kbit`, under the answer head `head`.
    Serve { range: ServedRange, total: u64, expected: usize, max_rate_kbit: usize, head: MediaResponseHead },
}

/// Decides the answer to a request to transcode a media file.
pub fn plan_transcode(
    setting: Option<&str>,
    allowed: bool,
    header: &RangeHeader,
    duration_secs: usize,
    bitrate: usize,
    codec: AudioCodec,
) -> (r: TranscodeAnswer)
    ensures
        !spec_transcoding_enabled(crate::url_convert::opt_str_view(setting)) ==> r is TranscodingOff,
        spec_transcoding_enabled(crate::url_convert::opt_str_view(setting)) && !allowed ==> r is NotAllowed,
        spec_transcoding_enabled(crate::url_convert::opt_str_view(setting)) && allowed
            && bitrate * 1024 * duration_secs > u64::MAX ==> r is BadRequest,
        spec_transcoding_enabled(crate::url_convert::opt_str_view(setting)) && allowed
            && bitrate * 1024 * duration_secs <= u64::MAX ==> {
            let total = (bitrate * 1024 * duration_secs) as u64;
            match spec_decide_range(range_header_view(*header), total) {
                RangeDecision::BadRequest => r is BadRequest,
                RangeDecision::NotSatisfiable => r == TranscodeAnswer::NotSatisfiable(total),
                RangeDecision::NoContent => r is NoContent,
                RangeDecision::Serve(range) => if range.expected > usize::MAX || bitrate * 30 > usize::MAX {
                    r is InternalError
                } else {
                    r matches TranscodeAnswer::Serve { range: rr, total: t, expected, max_rate_kbit, head } && rr == range && t == total
                        && expected == range.expected && max_rate_kbit == bitrate * 30
                        && head.status == (if range.is_partial { MediaStatus::PartialContent } else { MediaStatus::Success })
                        && head.accept_ranges@ == "bytes"@ && head.content_length == range.expected
                        && head.content_type@ == crate::configs::spec_mime_type(codec)
                        && (range.is_partial ==> (head.content_range matches Some(cr) && cr@ == spec_content_range(range.start, range.end, total)))
                        && (!range.is_partial ==> head.content_range is None)
                },
            }
        },
{
    if !transcoding_enabled(setting) {
        return TranscodeAnswer::TranscodingOff;
    }
    if !allowed {
        return TranscodeAnswer::NotAllowed;
    }
    let total = match estimated_output_bytes(duration_secs as u64, bitrate as u64) {
        Some(t) => t,
        None => return TranscodeAnswer::BadRequest,
    };
    match decide_range(header, total) {
        RangeDecision::BadRequest => TranscodeAnswer::BadRequest,
        RangeDecision::NotSatisfiable => TranscodeAnswer::NotSatisfiable(total),
        RangeDecision::NoContent => TranscodeAnswer::NoContent,
        RangeDecision::Serve(range) => {
            if range.expected > usize::MAX as u64 || bitrate > usize::MAX / 30 {
                return TranscodeAnswer::InternalError;
            }
            let head = media_response_builder(range.is_partial, range.start, range.end, total, range.expected, codec.get_mime_type_str());
            TranscodeAnswer::Serve { range, total, expected: range.expected as usize, max_rate_kbit: bitrate * 30, head }
        },
    }
}

/// How a request for a feed is answered before the feed is made.
pub enum FeedAnswer {
    /// `200` with no body: a `HEAD` request.
    HeadOk,
    /// `400`: no `url` was given.
    MissingUrl,
    /// `400` with the reason: the `url` given is no URL.
    InvalidUrl(String),
    /// `403` "scheme and host not in whitelist": the URL is not one its
    /// provider serves; nothing is fetched.
    NotAllowed,
    /// A pattern of the allowed addresses does not compile: the settings are
    /// broken.
    BrokenWhitelist,
}

/// The first step of answering a request for a feed, taken before anything is
/// fetched: a `HEAD` request gets an empty answer, a request without a `url` or
/// with one that does not parse is refused with `400`, and a URL that the
/// provider chosen for it does not serve is refused with `403`; otherwise the
/// parsed URL and its provider.
pub fn feed_request_url(is_head: bool, url: Option<&str>, peertube_hosts: &str, valid_domains: &str) -> (r: Result<(String, ProviderKind), FeedAnswer>)
    ensures
        is_head ==> r matches Err(FeedAnswer::HeadOk),
        !is_head && url is None ==> r matches Err(FeedAnswer::MissingUrl),
        !is_head ==> (url matches Some(u) ==> match url_parsed(u@) {
            None => r matches Err(FeedAnswer::InvalidUrl(reason)) && reason@ == url_error_of(u@),
            Some(p) => match spec_provider_for(p, peertube_hosts@, valid_domains@) {
                None => r matches Err(FeedAnswer::BrokenWhitelist),
                Some(k) => match spec_any_match(spec_whitelist(k, peertube_hosts@, valid_domains@), p) {
                    None => r matches Err(FeedAnswer::BrokenWhitelist),
                    Some(false) => r matches Err(FeedAnswer::NotAllowed),
                    Some(true) => r matches Ok((x, kind)) && x@ == p && kind == k,
                },
            },
        }),
{
    if is_head {
        return Err(FeedAnswer::HeadOk);
    }
    let u = match url {
        Some(u) => u,
        None => return Err(FeedAnswer::MissingUrl),
    };
    let p = match parse_url_or_error(u) {
        Ok(p) => p,
        Err(reason) => return Err(FeedAnswer::InvalidUrl(reason)),
    };
    let kind = match provider_for(p.as_str(), peertube_hosts, valid_domains) {
        Some(k) => k,
        None => return Err(FeedAnswer::BrokenWhitelist),
    };
    match url_allowed(kind, p.as_str(), peertube_hosts, valid_domains) {
        None => Err(FeedAnswer::BrokenWhitelist),
        Some(false) => Err(FeedAnswer::NotAllowed),
        Some(true) => Ok((p, kind)),
    }
}

/// Whether the cache must be emptied at start: a version of the service was
/// cached and it is not this one.
pub fn version_changed(cached_version: Option<&str>, app_version: &str) -> (b: bool)
    ensures
        b == (crate::url_convert::opt_str_view(cached_version) matches Some(v) && v != app_version@),
{
    match cached_version {
        Some(v) => !crate::text::str_eq(v, app_version),
        None => false,
    }
}


/// A header `bytes=A-B` with digit strings `A` and `B` is its own trim, and
/// splits, after `bytes=`, into `A` and `B`, with no comma.
proof fn lemma_range_header_parts(a: Seq<char>, b: Seq<char>)
    requires
        all_digits(a),
        all_digits(b),
    ensures
        trim("bytes="@ + a + "-"@ + b) == "bytes="@ + a + "-"@ + b,
        ("bytes="@ + a + "-"@ + b).take(6) == "bytes="@,
        ("bytes="@ + a + "-"@ + b).skip(6) == a + "-"@ + b,
        !(a + "-"@ + b).contains(','),
        split_once(a + "-"@ + b, '-') == Some((a, b)),
{
    reveal_strlit("bytes=");
    reveal_strlit("-");
    let h = "bytes="@ + a + "-"@ + b;
    let r = a + "-"@ + b;
    assert(h[0] == 'b');
    assert(trim_start(h) == h);
    if b.len() > 0 {
        assert(h.last() == b.last());
        assert(is_digit(b[b.len() - 1]));
    } else {
        assert(h.last() == '-');
    }
    assert(trim_end(h) == h);
    assert(h.take(6) =~= "bytes="@);
    assert(h.skip(6) =~= r);
    assert forall|i: int| 0 <= i < r.len() implies r[i] != ',' by {
        if i < a.len() {
            assert(is_digit(a[i]));
        } else if i > a.len() {
            assert(r[i] == b[i - a.len() - 1]);
            assert(is_digit(b[i - a.len() - 1]));
        }
    }
    let k = a.len() as int;
    assert forall|j: int| 0 <= j < k implies r[j] != '-' by {
        assert(is_digit(a[j]));
    }
    assert(is_first_index(r, '-', k));
    let i = choose|i: int| is_first_index(r, '-', i);
    lemma_first_index_unique(r, '-', i, k);
    assert(r.take(k) =~= a);
    assert(r.skip(k + 1) =~= b);
}

/// The three forms of a `Range` header, with their numbers in decimal: `bytes=s-e`
/// gives `s` to `e` cut at the end of the body, unless it starts past the body
/// or ends before it starts; `bytes=s-` gives `s` to the end; `bytes=-k` gives
/// the last `k` bytes, or the whole body when it is shorter.
pub proof fn law_range_header_forms(s: u64, e: u64, k: u64, n: u64)
    requires
        n > 0,
        k > 0,
    ensures
        spec_parse_range_header("bytes="@ + decimal(s as nat) + "-"@ + decimal(e as nat), n) == if s >= n || e < s {
            Err::<(u64, u64, u64), RangeError>(RangeError::Unsatisfiable)
        } else {
            Ok(range_of(s, if e <= n - 1 { e } else { (n - 1) as u64 }))
        },
        spec_parse_range_header("bytes="@ + decimal(s as nat) + "-"@, n) == if s >= n {
            Err::<(u64, u64, u64), RangeError>(RangeError::Unsatisfiable)
        } else {
            Ok(range_of(s, (n - 1) as u64))
        },
        spec_parse_range_header("bytes=-"@ + decimal(k as nat), n) == Ok::<(u64, u64, u64), RangeError>(
            range_of(if k <= n { (n - k) as u64 } else { 0u64 }, (n - 1) as u64),
        ),
{
    lemma_parse_decimal(s);
    lemma_parse_decimal(e);
    lemma_parse_decimal(k);
    let ds = decimal(s as nat);
    let de = decimal(e as nat);
    let dk = decimal(k as nat);
    let empty = Seq::<char>::empty();
    assert(all_digits(empty));
    lemma_range_header_parts(ds, de);
    lemma_range_header_parts(ds, empty);
    lemma_range_header_parts(empty, dk);
    reveal_strlit("bytes=-");
    reveal_strlit("bytes=");
    reveal_strlit("-");
    assert("bytes="@ + ds + "-"@ =~= "bytes="@ + ds + "-"@ + empty);
    assert("bytes=-"@ + dk =~= "bytes="@ + empty + "-"@ + dk);
    assert(empty + "-"@ + dk =~= "-"@ + dk);
}

} // verus!
