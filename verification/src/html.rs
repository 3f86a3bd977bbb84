//! Reading web pages: the HTML is parsed and searched with CSS selectors by
//! the `scraper` crate; what comes back is plain text.
use vstd::prelude::*;

use scraper::{Html, Selector};

use crate::text::{opt_view, strings_view};

verus! {

/// The markup of each element that `selector` matches in the document `html`,
/// in document order (empty when the selector does not parse).
pub uninterp spec fn document_matches(html: Seq<char>, selector: Seq<char>) -> Seq<Seq<char>>;

/// The text of the first element that `selector` matches in the document `html`
/// (`None` when none matches or the selector does not parse).
pub uninterp spec fn document_text(html: Seq<char>, selector: Seq<char>) -> Option<Seq<char>>;

/// The attribute `attr` of the first element that `selector` matches in the
/// document `html` (`None` when there is no such element, it lacks the
/// attribute, or the selector does not parse).
pub uninterp spec fn document_attr(html: Seq<char>, selector: Seq<char>, attr: Seq<char>) -> Option<
    Seq<char>,
>;

/// The markup of each element that `selector` matches in the fragment `html`
/// (empty when the selector does not parse).
pub uninterp spec fn fragment_matches(html: Seq<char>, selector: Seq<char>) -> Seq<Seq<char>>;

/// The text of the first element that `selector` matches in the fragment
/// `html` (`None` when none matches or the selector does not parse).
pub uninterp spec fn fragment_text(html: Seq<char>, selector: Seq<char>) -> Option<Seq<char>>;

/// The attribute `attr` of the first element that `selector` matches in the
/// fragment `html` (`None` as for `document_attr`).
pub uninterp spec fn fragment_attr(html: Seq<char>, selector: Seq<char>, attr: Seq<char>) -> Option<
    Seq<char>,
>;

/// Parses `html` as a whole document (`scraper::Html::parse_document`) and
/// returns the outer HTML (`ElementRef::html`) of every element that
/// `selector` (`scraper::Selector::parse`) matches, in document order; no
/// element when the selector does not parse. Trusted: the result is named,
/// not stated.
#[verifier::external_body]
pub(crate) fn select_all(html: &str, selector: &str) -> (r: Vec<String>)
    ensures
        strings_view(r@) == document_matches(html@, selector@),
{
    let sel = match Selector::parse(selector) {
        Ok(sel) => sel,
        Err(_) => return Vec::new(),
    };
    let mut out: Vec<String> = Vec::new();
    for element in Html::parse_document(html).select(&sel) {
        out.push(element.html());
    }
    out
}

/// Parses `html` as a whole document and returns the concatenated text nodes
/// (`ElementRef::text`) of the first element that `selector` matches.
/// Trusted: the result is named, not stated.
#[verifier::external_body]
pub(crate) fn select_text(html: &str, selector: &str) -> (r: Option<String>)
    ensures
        opt_view(r) == document_text(html@, selector@),
{
    let sel = Selector::parse(selector).ok()?;
    let doc = Html::parse_document(html);
    let first = doc.select(&sel).next()?;
    Some(first.text().collect::<String>())
}

/// Parses `html` as a whole document and returns the attribute `attr`
/// (`ElementRef::attr`) of the first element that `selector` matches.
/// Trusted: the result is named, not stated.
#[verifier::external_body]
pub(crate) fn select_attr(html: &str, selector: &str, attr: &str) -> (r: Option<String>)
    ensures
        opt_view(r) == document_attr(html@, selector@, attr@),
{
    let sel = Selector::parse(selector).ok()?;
    let doc = Html::parse_document(html);
    let first = doc.select(&sel).next()?;
    match first.attr(attr) {
        Some(value) => Some(value.to_string()),
        None => None,
    }
}

/// As `select_all`, with `html` parsed as a fragment
/// (`scraper::Html::parse_fragment`). Trusted: the result is named, not stated.
#[verifier::external_body]
pub(crate) fn fragment_select_all(html: &str, selector: &str) -> (r: Vec<String>)
    ensures
        strings_view(r@) == fragment_matches(html@, selector@),
{
    let sel = match Selector::parse(selector) {
        Ok(sel) => sel,
        Err(_) => return Vec::new(),
    };
    let mut out: Vec<String> = Vec::new();
    for element in Html::parse_fragment(html).select(&sel) {
        out.push(element.html());
    }
    out
}

/// As `select_text`, with `html` parsed as a fragment. Trusted: the result is
/// named, not stated.
#[verifier::external_body]
pub(crate) fn fragment_select_text(html: &str, selector: &str) -> (r: Option<String>)
    ensures
        opt_view(r) == fragment_text(html@, selector@),
{
    let sel = Selector::parse(selector).ok()?;
    let doc = Html::parse_fragment(html);
    let first = doc.select(&sel).next()?;
    Some(first.text().collect::<String>())
}

/// As `select_attr`, with `html` parsed as a fragment. Trusted: the result is
/// named, not stated.
#[verifier::external_body]
pub(crate) fn fragment_select_attr(html: &str, selector: &str, attr: &str) -> (r: Option<String>)
    ensures
        opt_view(r) == fragment_attr(html@, selector@, attr@),
{
    let sel = Selector::parse(selector).ok()?;
    let doc = Html::parse_fragment(html);
    let first = doc.select(&sel).next()?;
    match first.attr(attr) {
        Some(value) => Some(value.to_string()),
        None => None,
    }
}

} // verus!
