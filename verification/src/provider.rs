//! Where feeds come from: each provider knows the URLs it serves and how to
//! turn what its site hands out into a podcast feed.
pub mod peertube;
pub mod rumble;
pub mod twitch;
pub mod youtube;

use vstd::prelude::*;

use crate::patterns::{any_match, host_patterns_to_regexes, host_regex, spec_any_match};
use crate::text::{nonblank, nonblank_pieces, split_all, strings_view};

verus! {

/// The providers. YouTube, Twitch and PeerTube are tried for a URL, in that
/// order, before the generic one; the Rumble provider (its channel pages read
/// as a feed) is not chosen for a URL.
#[derive(Debug, PartialEq, Eq, Structural, Clone, Copy)]
pub enum ProviderKind {
    Youtube,
    Twitch,
    PeerTube,
    Rumble,
    /// Any other feed, from the domains the settings allow.
    Generic,
}

/// The regular expressions for the host patterns of a comma-separated setting.
pub open spec fn setting_regexes(setting: Seq<char>) -> Seq<Seq<char>> {
    nonblank(split_all(setting, ',')).map_values(|h: Seq<char>| host_regex(h))
}

/// The regular expressions that a provider's URLs match. `peertube_hosts`
/// and `valid_domains` are the settings that list the PeerTube hosts and the
/// other allowed domains.
pub open spec fn spec_whitelist(kind: ProviderKind, peertube_hosts: Seq<char>, valid_domains: Seq<char>) -> Seq<Seq<char>> {
    match kind {
        ProviderKind::Youtube => crate::provider::youtube::spec_youtube_whitelist(),
        ProviderKind::Twitch => crate::provider::twitch::spec_twitch_whitelist(),
        ProviderKind::PeerTube => setting_regexes(peertube_hosts),
        ProviderKind::Rumble => crate::provider::rumble::spec_rumble_whitelist(),
        ProviderKind::Generic => setting_regexes(valid_domains),
    }
}

/// The allowed URLs of the generic provider: the regular expressions for the
/// host patterns in the setting of valid domains.
pub fn get_generic_whitelist(valid_domains: &str) -> (r: Vec<String>)
    ensures
        strings_view(r@) == setting_regexes(valid_domains@),
{
    let hosts = nonblank_pieces(valid_domains);
    host_patterns_to_regexes(&hosts)
}

/// The regular expressions that a provider's URLs match.
pub fn domain_whitelist_regexes(kind: ProviderKind, peertube_hosts: &str, valid_domains: &str) -> (r: Vec<String>)
    ensures
        strings_view(r@) == spec_whitelist(kind, peertube_hosts@, valid_domains@),
{
    match kind {
        ProviderKind::Youtube => crate::provider::youtube::youtube_whitelist(),
        ProviderKind::Twitch => crate::provider::twitch::twitch_whitelist(),
        ProviderKind::PeerTube => crate::provider::peertube::peertube_whitelist(peertube_hosts),
        ProviderKind::Rumble => crate::provider::rumble::rumble_whitelist(),
        ProviderKind::Generic => get_generic_whitelist(valid_domains),
    }
}

/// The provider for a URL: the first of YouTube, Twitch and PeerTube one of
/// whose regular expressions matches it, else the generic one (a Rumble
/// channel too is read as a generic feed); `None` when a regular expression
/// tried does not compile.
pub open spec fn spec_provider_for(url: Seq<char>, peertube_hosts: Seq<char>, valid_domains: Seq<char>) -> Option<ProviderKind> {
    match spec_any_match(spec_whitelist(ProviderKind::Youtube, peertube_hosts, valid_domains), url) {
        None => None,
        Some(true) => Some(ProviderKind::Youtube),
        Some(false) => match spec_any_match(spec_whitelist(ProviderKind::Twitch, peertube_hosts, valid_domains), url) {
            None => None,
            Some(true) => Some(ProviderKind::Twitch),
            Some(false) => match spec_any_match(spec_whitelist(ProviderKind::PeerTube, peertube_hosts, valid_domains), url) {
                None => None,
                Some(true) => Some(ProviderKind::PeerTube),
                Some(false) => Some(ProviderKind::Generic),
            },
        },
    }
}

/// Chooses the provider for a URL.
pub fn provider_for(url: &str, peertube_hosts: &str, valid_domains: &str) -> (r: Option<ProviderKind>)
    ensures
        r == spec_provider_for(url@, peertube_hosts@, valid_domains@),
{
    let w0 = domain_whitelist_regexes(ProviderKind::Youtube, peertube_hosts, valid_domains);
    match any_match(&w0, url) {
        None => return None,
        Some(true) => return Some(ProviderKind::Youtube),
        Some(false) => {},
    }
    let w1 = domain_whitelist_regexes(ProviderKind::Twitch, peertube_hosts, valid_domains);
    match any_match(&w1, url) {
        None => return None,
        Some(true) => return Some(ProviderKind::Twitch),
        Some(false) => {},
    }
    let w2 = domain_whitelist_regexes(ProviderKind::PeerTube, peertube_hosts, valid_domains);
    match any_match(&w2, url) {
        None => None,
        Some(true) => Some(ProviderKind::PeerTube),
        Some(false) => Some(ProviderKind::Generic),
    }
}

/// Whether a URL is one that its provider serves (the check that keeps the
/// service from fetching arbitrary addresses); `None` when a regular
/// expression does not compile.
pub fn url_allowed(kind: ProviderKind, url: &str, peertube_hosts: &str, valid_domains: &str) -> (r: Option<bool>)
    ensures
        r == spec_any_match(spec_whitelist(kind, peertube_hosts@, valid_domains@), url@),
{
    let w = domain_whitelist_regexes(kind, peertube_hosts, valid_domains);
    any_match(&w, url)
}

/// A URL that is handed to YouTube, Twitch or PeerTube is one that
/// provider serves, so it passes the check against fetching arbitrary
/// addresses; the generic provider is chosen only when none of them matches.
pub proof fn law_chosen_provider_serves_url(url: Seq<char>, peertube_hosts: Seq<char>, valid_domains: Seq<char>)
    ensures
        forall|k: ProviderKind| spec_provider_for(url, peertube_hosts, valid_domains) == Some(k) && k != ProviderKind::Generic
            ==> #[trigger] spec_any_match(spec_whitelist(k, peertube_hosts, valid_domains), url) == Some(true),
        spec_provider_for(url, peertube_hosts, valid_domains) == Some(ProviderKind::Generic) ==> {
            &&& spec_any_match(spec_whitelist(ProviderKind::Youtube, peertube_hosts, valid_domains), url) == Some(false)
            &&& spec_any_match(spec_whitelist(ProviderKind::Twitch, peertube_hosts, valid_domains), url) == Some(false)
            &&& spec_any_match(spec_whitelist(ProviderKind::PeerTube, peertube_hosts, valid_domains), url) == Some(false)
        },
{
}

} // verus!
