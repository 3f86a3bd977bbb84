//! URLs, held as their serialization and worked on by the `url` crate.
use vstd::prelude::*;

use url::Url;

use crate::text::opt_view;

verus! {

/// The serialization of `s` parsed as an absolute URL (`None`: not a URL).
pub uninterp spec fn url_parsed(s: Seq<char>) -> Option<Seq<char>>;

/// Why `s` is no absolute URL, in words (`url::ParseError`'s `Display`).
pub uninterp spec fn url_error_of(s: Seq<char>) -> Seq<char>;

/// `href` resolved against the URL `base`.
pub uninterp spec fn url_joined(base: Seq<char>, href: Seq<char>) -> Option<Seq<char>>;

/// The last segment of the path of the URL `u`.
pub uninterp spec fn url_last_segment(u: Seq<char>) -> Option<Seq<char>>;

/// The segments of the path of the URL `u` (`None` when it cannot have any).
pub uninterp spec fn url_segments(u: Seq<char>) -> Option<Seq<Seq<char>>>;

/// The scheme and host (`None`: it has none) of the URL `u`.
pub uninterp spec fn url_origin(u: Seq<char>) -> Option<(Seq<char>, Option<Seq<char>>)>;

/// The path of the URL `u`.
pub uninterp spec fn url_path(u: Seq<char>) -> Option<Seq<char>>;

/// The domain of the URL `u` (`None` also when its host is no domain).
pub uninterp spec fn url_domain(u: Seq<char>) -> Option<Seq<char>>;

/// The decoded name/value pairs of the query of the URL `u`, in order.
pub uninterp spec fn url_query(u: Seq<char>) -> Option<Seq<(Seq<char>, Seq<char>)>>;

/// The URL `u` with `segment` added to the end of its path.
pub uninterp spec fn url_pushed(u: Seq<char>, segment: Seq<char>) -> Option<Seq<char>>;

/// The URL `u` with the pair `name=value` added to the end of its query.
pub uninterp spec fn url_appended(u: Seq<char>, name: Seq<char>, value: Seq<char>) -> Option<
    Seq<char>,
>;

/// The URL `u` with its path replaced by `path`.
pub uninterp spec fn url_with_path(u: Seq<char>, path: Seq<char>) -> Option<Seq<char>>;

/// The views of a list of pairs of strings.
pub open spec fn pairs_view(v: Seq<(String, String)>) -> Seq<(Seq<char>, Seq<char>)> {
    v.map_values(|p: (String, String)| (p.0@, p.1@))
}

/// Parses `s` with `url::Url::parse` and gives back its serialization
/// (`Url::as_str`). Trusted: the result is named, not stated.
#[verifier::external_body]
pub(crate) fn parse_url(s: &str) -> (r: Option<String>)
    ensures
        opt_view(r) == url_parsed(s@),
{
    match Url::parse(s) {
        Ok(u) => Some(u.as_str().to_string()),
        Err(_) => None,
    }
}

/// Parses `s` with `url::Url::parse`: its serialization, or why it is no URL
/// (the error's `to_string`). Trusted: the results are named, not stated.
#[verifier::external_body]
pub(crate) fn parse_url_or_error(s: &str) -> (r: Result<String, String>)
    ensures
        match r {
            Ok(u) => url_parsed(s@) == Some(u@),
            Err(e) => url_parsed(s@) is None && e@ == url_error_of(s@),
        },
{
    match Url::parse(s) {
        Ok(u) => Ok(u.as_str().to_string()),
        Err(e) => Err(e.to_string()),
    }
}

/// Resolves `href` against `base` with `Url::parse` and `Url::join`.
/// Trusted: the result is named, not stated.
#[verifier::external_body]
pub(crate) fn join_url(base: &str, href: &str) -> (r: Option<String>)
    ensures
        opt_view(r) == url_joined(base@, href@),
{
    let base = Url::parse(base).ok()?;
    match base.join(href) {
        Ok(u) => Some(u.as_str().to_string()),
        Err(_) => None,
    }
}

/// The last item of `Url::path_segments` of `u` parsed with `Url::parse`.
/// Trusted: the result is named, not stated.
#[verifier::external_body]
pub(crate) fn last_path_segment(u: &str) -> (r: Option<String>)
    ensures
        opt_view(r) == url_last_segment(u@),
{
    let u = Url::parse(u).ok()?;
    let last = u.path_segments()?.last()?;
    Some(last.to_string())
}

/// The items of `Url::path_segments` of `u` parsed with `Url::parse` (`None`
/// also when `u` is no URL). Trusted: the result is named, not stated.
#[verifier::external_body]
pub(crate) fn path_segments_of(u: &str) -> (r: Option<Vec<String>>)
    ensures
        match r {
            Some(v) => url_segments(u@) == Some(crate::text::strings_view(v@)),
            None => url_segments(u@) is None,
        },
{
    let u = Url::parse(u).ok()?;
    let mut out: Vec<String> = Vec::new();
    for segment in u.path_segments()? {
        out.push(segment.to_string());
    }
    Some(out)
}

/// `Url::scheme` and `Url::host_str` of `u` parsed with `Url::parse`.
/// Trusted: the result is named, not stated.
#[verifier::external_body]
pub(crate) fn origin_of(u: &str) -> (r: Option<(String, Option<String>)>)
    ensures
        match r {
            Some((scheme, host)) => url_origin(u@) == Some((scheme@, opt_view(host))),
            None => url_origin(u@) is None,
        },
{
    let u = Url::parse(u).ok()?;
    let host = match u.host_str() {
        Some(h) => Some(h.to_string()),
        None => None,
    };
    Some((u.scheme().to_string(), host))
}

/// `Url::path` of `u` parsed with `Url::parse`. Trusted: the result is named,
/// not stated.
#[verifier::external_body]
pub(crate) fn path_of(u: &str) -> (r: Option<String>)
    ensures
        opt_view(r) == url_path(u@),
{
    let u = Url::parse(u).ok()?;
    Some(u.path().to_string())
}

/// `Url::domain` of `u` parsed with `Url::parse`. Trusted: the result is
/// named, not stated.
#[verifier::external_body]
pub(crate) fn domain_of(u: &str) -> (r: Option<String>)
    ensures
        opt_view(r) == url_domain(u@),
{
    let u = Url::parse(u).ok()?;
    Some(u.domain()?.to_string())
}

/// The pairs that `Url::query_pairs` gives for `u` parsed with `Url::parse`.
/// Trusted: the result is named, not stated.
#[verifier::external_body]
pub(crate) fn query_pairs_of(u: &str) -> (r: Option<Vec<(String, String)>>)
    ensures
        match r {
            Some(v) => url_query(u@) == Some(pairs_view(v@)),
            None => url_query(u@) is None,
        },
{
    let u = Url::parse(u).ok()?;
    let mut out: Vec<(String, String)> = Vec::new();
    for (name, value) in u.query_pairs() {
        out.push((name.to_string(), value.to_string()));
    }
    Some(out)
}

/// `u` parsed with `Url::parse`, with `segment` pushed through
/// `Url::path_segments_mut` (`None` also when the URL cannot take path
/// segments). Trusted: the result is named, not stated.
#[verifier::external_body]
pub(crate) fn push_path_segment(u: &str, segment: &str) -> (r: Option<String>)
    ensures
        opt_view(r) == url_pushed(u@, segment@),
{
    let mut u = Url::parse(u).ok()?;
    u.path_segments_mut().ok()?.push(segment);
    Some(u.as_str().to_string())
}

/// `u` parsed with `Url::parse`, with `name=value` added through
/// `Url::query_pairs_mut().append_pair`. Trusted: the result is named, not stated.
#[verifier::external_body]
pub(crate) fn append_query_pair(u: &str, name: &str, value: &str) -> (r: Option<String>)
    ensures
        opt_view(r) == url_appended(u@, name@, value@),
{
    let mut u = Url::parse(u).ok()?;
    u.query_pairs_mut().append_pair(name, value);
    Some(u.as_str().to_string())
}

/// `u` parsed with `Url::parse`, with `Url::set_path(path)`. Trusted: the
/// result is named, not stated.
#[verifier::external_body]
pub(crate) fn set_url_path(u: &str, path: &str) -> (r: Option<String>)
    ensures
        opt_view(r) == url_with_path(u@, path@),
{
    let mut u = Url::parse(u).ok()?;
    u.set_path(path);
    Some(u.as_str().to_string())
}

/// The value of the first pair named `name`.
pub open spec fn first_value(pairs: Seq<(Seq<char>, Seq<char>)>, name: Seq<char>) -> Option<
    Seq<char>,
>
    decreases pairs.len(),
{
    if pairs.len() == 0 {
        None
    } else if pairs[0].0 == name {
        Some(pairs[0].1)
    } else {
        first_value(pairs.drop_first(), name)
    }
}

/// The value of the first query pair of the URL `u` named `name`.
pub open spec fn spec_query_value(u: Seq<char>, name: Seq<char>) -> Option<Seq<char>> {
    match url_query(u) {
        Some(pairs) => first_value(pairs, name),
        None => None,
    }
}

/// The value of the first query pair of the URL `u` named `name`.
pub fn query_value(u: &str, name: &str) -> (r: Option<String>)
    ensures
        opt_view(r) == spec_query_value(u@, name@),
{
    let pairs = match query_pairs_of(u) {
        Some(p) => p,
        None => return None,
    };
    let mut i: usize = 0;
    assert(pairs_view(pairs@).subrange(0, pairs@.len() as int) =~= pairs_view(pairs@));
    while i < pairs.len()
        invariant
            i <= pairs@.len(),
            url_query(u@) == Some(pairs_view(pairs@)),
            first_value(pairs_view(pairs@), name@) == first_value(
                pairs_view(pairs@).subrange(i as int, pairs@.len() as int),
                name@,
            ),
        decreases pairs@.len() - i,
    {
        let ghost rest = pairs_view(pairs@).subrange(i as int, pairs@.len() as int);
        assert(rest[0] == (pairs@[i as int].0@, pairs@[i as int].1@));
        if crate::text::str_eq(pairs[i].0.as_str(), name) {
            return Some(pairs[i].1.clone());
        }
        assert(rest.drop_first() =~= pairs_view(pairs@).subrange(i + 1, pairs@.len() as int));
        i = i + 1;
    }
    None
}

} // verus!
