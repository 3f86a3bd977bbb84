use vod2pod_rss::provider::peertube::{find_api_url, get_peertube_hosts, peertube_whitelist, ApiUrlError};
use vod2pod_rss::provider::{domain_whitelist_regexes, get_generic_whitelist, provider_for, url_allowed, ProviderKind};
use vod2pod_rss::patterns::{any_match, host_pattern_to_regex};

#[test]
fn peertube_hosts_skip_blank_pieces() {
    assert_eq!(get_peertube_hosts("a.org, ,b.net,,"), vec!["a.org".to_string(), "b.net".to_string()]);
    assert_eq!(get_peertube_hosts(""), Vec::<String>::new());
}

#[test]
fn host_patterns_become_regexes() {
    assert_eq!(host_pattern_to_regex("https://*.youtube.com/"), "https://.+\\.youtube\\.com/");
    assert_eq!(peertube_whitelist("video.*.org"), vec!["video\\..+\\.org".to_string()]);
    let generic = get_generic_whitelist("https://feeds.simplecast.com/");
    assert_eq!(any_match(&generic, "https://feeds.simplecast.com/aU_RzZ7j"), Some(true));
}

#[test]
fn providers_are_chosen_by_url() {
    let none = "";
    let domains = "https://feeds.simplecast.com/";
    assert_eq!(provider_for("https://www.youtube.com/@x", none, domains), Some(ProviderKind::Youtube));
    assert_eq!(provider_for("https://www.twitch.tv/x", none, domains), Some(ProviderKind::Twitch));
    assert_eq!(provider_for("https://rumble.com/c/x", none, domains), Some(ProviderKind::Generic));
    assert_eq!(
        provider_for("https://video.example.org/w/1", "video.example.org", domains),
        Some(ProviderKind::PeerTube)
    );
    assert_eq!(provider_for("https://feeds.simplecast.com/aU_RzZ7j", none, domains), Some(ProviderKind::Generic));
    assert_eq!(provider_for("https://x.org/", "(", domains), None);
}

#[test]
fn urls_outside_the_whitelist_are_refused() {
    let domains = "https://feeds.simplecast.com/";
    assert_eq!(url_allowed(ProviderKind::Generic, "http://169.254.169.254/", "", domains), Some(false));
    assert_eq!(url_allowed(ProviderKind::Youtube, "https://rr1.googlevideo.com/x", "", domains), Some(true));
    assert_eq!(domain_whitelist_regexes(ProviderKind::Twitch, "", "").len(), 2);
}

#[test]
fn regex_matching() {
    assert_eq!(any_match(&vec!["^a+$".to_string()], "aaa"), Some(true));
    assert_eq!(any_match(&vec!["^a+$".to_string()], "ab"), Some(false));
    assert_eq!(any_match(&vec!["^a+$".to_string(), "(".to_string()], "aaa"), None);
    assert_eq!(any_match(&vec![], "aaa"), Some(false));
}

#[test]
fn peertube_api_address() {
    assert_eq!(
        find_api_url("https://video.example.org/w/9c9de5e8-0a1e-484a-b099-e80766180a6d?start=1"),
        Ok("https://video.example.org/api/v1/videos/9c9de5e8-0a1e-484a-b099-e80766180a6d?start=1".to_string())
    );
    assert_eq!(find_api_url("https://video.example.org/w/nothing"), Err(ApiUrlError::NoUuid));
    assert_eq!(find_api_url("mailto:someone@example.org"), Err(ApiUrlError::NoPath));
}
