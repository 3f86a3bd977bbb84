//! Regular expressions, compiled and matched by the `regex` crate.
use vstd::prelude::*;

use regex::Regex;

use crate::text::{strings_view, to_chars};

verus! {

/// Whether the regular expression `pattern` matches somewhere in `text`
/// (`None`: `pattern` does not compile).
pub uninterp spec fn regex_match(pattern: Seq<char>, text: Seq<char>) -> Option<bool>;

/// Compiles `pattern` with `regex::Regex::new` and tests `text` with
/// `Regex::is_match`; `None` when the pattern does not compile. Trusted: the
/// result is named, not stated.
#[verifier::external_body]
pub(crate) fn is_match(pattern: &str, text: &str) -> (r: Option<bool>)
    ensures
        r == regex_match(pattern@, text@),
{
    match Regex::new(pattern) {
        Ok(re) => Some(re.is_match(text)),
        Err(_) => None,
    }
}

/// Whether one of `patterns` matches `text`; `None` when one of them does not
/// compile.
pub open spec fn spec_any_match(patterns: Seq<Seq<char>>, text: Seq<char>) -> Option<bool>
    decreases patterns.len(),
{
    if patterns.len() == 0 {
        Some(false)
    } else {
        match regex_match(patterns[0], text) {
            None => None,
            Some(b) => match spec_any_match(patterns.drop_first(), text) {
                None => None,
                Some(rest) => Some(b || rest),
            },
        }
    }
}

/// Whether one of `patterns` matches `text`; `None` when one of them does not
/// compile.
pub fn any_match(patterns: &Vec<String>, text: &str) -> (r: Option<bool>)
    ensures
        r == spec_any_match(strings_view(patterns@), text@),
    decreases patterns@.len(),
{
    let ghost all = strings_view(patterns@);
    let mut found = false;
    let mut i: usize = patterns.len();
    assert(all.subrange(i as int, all.len() as int) =~= Seq::<Seq<char>>::empty());
    while i > 0
        invariant
            i <= patterns@.len(),
            all == strings_view(patterns@),
            spec_any_match(all.subrange(i as int, all.len() as int), text@) == Some(found),
        decreases i,
    {
        let ghost rest = all.subrange(i - 1, all.len() as int);
        assert(rest.drop_first() =~= all.subrange(i as int, all.len() as int));
        match is_match(patterns[i - 1].as_str(), text) {
            None => {
                proof {
                    lemma_any_match_none(all, i - 1, text@);
                }
                return None;
            },
            Some(b) => {
                found = b || found;
            },
        }
        i = i - 1;
    }
    assert(all.subrange(0, all.len() as int) =~= all);
    Some(found)
}

/// A pattern that does not compile makes the whole test fail.
proof fn lemma_any_match_none(all: Seq<Seq<char>>, k: int, text: Seq<char>)
    requires
        0 <= k < all.len(),
        regex_match(all[k], text) is None,
    ensures
        spec_any_match(all, text) is None,
    decreases k,
{
    if k > 0 {
        lemma_any_match_none(all.drop_first(), k - 1, text);
    }
}

/// The regular expression for a host pattern in which `*` stands for any
/// text: dots are escaped and `*` becomes `.+`.
pub open spec fn host_regex(host: Seq<char>) -> Seq<char>
    decreases host.len(),
{
    if host.len() == 0 {
        Seq::empty()
    } else {
        let c = host[0];
        let head = if c == '.' {
            seq!['\\', '.']
        } else if c == '*' {
            seq!['.', '+']
        } else {
            seq![c]
        };
        head + host_regex(host.drop_first())
    }
}

/// The regular expression for a host pattern in which `*` stands for any text.
pub fn host_pattern_to_regex(host: &str) -> (r: String)
    ensures
        r@ == host_regex(host@),
{
    let v = to_chars(host);
    let mut out: Vec<char> = Vec::new();
    let mut i: usize = v.len();
    let mut rev: Vec<char> = Vec::new();
    assert(v@.subrange(i as int, v@.len() as int) =~= Seq::<char>::empty());
    while i > 0
        invariant
            i <= v@.len(),
            rev@.reverse() == host_regex(v@.subrange(i as int, v@.len() as int)),
        decreases i,
    {
        let c = v[i - 1];
        let ghost rest = v@.subrange(i - 1, v@.len() as int);
        let ghost old_rev = rev@;
        assert(rest.drop_first() =~= v@.subrange(i as int, v@.len() as int));
        assert(rest[0] == c);
        if c == '.' {
            rev.push('.');
            rev.push('\\');
            proof {
                assert(rev@.reverse() =~= seq!['\\', '.'] + old_rev.reverse());
            }
        } else if c == '*' {
            rev.push('+');
            rev.push('.');
            proof {
                assert(rev@.reverse() =~= seq!['.', '+'] + old_rev.reverse());
            }
        } else {
            rev.push(c);
            proof {
                assert(rev@.reverse() =~= seq![c] + old_rev.reverse());
            }
        }
        i = i - 1;
    }
    assert(v@.subrange(0, v@.len() as int) =~= v@);
    let mut j: usize = rev.len();
    while j > 0
        invariant
            j <= rev@.len(),
            out@ == rev@.subrange(j as int, rev@.len() as int).reverse(),
        decreases j,
    {
        out.push(rev[j - 1]);
        proof {
            assert(rev@.subrange(j - 1, rev@.len() as int).reverse() =~= rev@.subrange(
                j as int,
                rev@.len() as int,
            ).reverse().push(rev@[j - 1]));
        }
        j = j - 1;
    }
    assert(rev@.subrange(0, rev@.len() as int) =~= rev@);
    crate::text::from_chars(out.as_slice())
}

/// The regular expressions for a list of host patterns.
pub fn host_patterns_to_regexes(hosts: &Vec<String>) -> (r: Vec<String>)
    ensures
        strings_view(r@) == strings_view(hosts@).map_values(|h: Seq<char>| host_regex(h)),
{
    let mut r: Vec<String> = Vec::new();
    let mut i: usize = 0;
    while i < hosts.len()
        invariant
            i <= hosts@.len(),
            strings_view(r@) == strings_view(hosts@.take(i as int)).map_values(
                |h: Seq<char>| host_regex(h),
            ),
        decreases hosts@.len() - i,
    {
        let ghost before = r@;
        let x = host_pattern_to_regex(hosts[i].as_str());
        r.push(x);
        proof {
            assert(strings_view(r@) =~= strings_view(before).push(x@));
            assert(hosts@.take(i + 1) =~= hosts@.take(i as int).push(hosts@[i as int]));
            assert(strings_view(hosts@.take(i + 1)) =~= strings_view(hosts@.take(i as int)).push(hosts@[i as int]@));
            assert(strings_view(r@) =~= strings_view(hosts@.take(i + 1)).map_values(
                |h: Seq<char>| host_regex(h),
            ));
        }
        i = i + 1;
    }
    assert(hosts@.take(i as int) =~= hosts@);
    r
}

} // verus!
