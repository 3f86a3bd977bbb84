//! PeerTube instances, from the hosts the settings list.
use vstd::prelude::*;

use crate::patterns::host_patterns_to_regexes;
use crate::provider::setting_regexes;
use crate::ids::{parse_uuid, uuid_of};
use crate::text::{concat, nonblank, nonblank_pieces, split_all, strings_view};
use crate::urls::{path_segments_of, set_url_path, url_segments, url_with_path};

verus! {

/// The provider of PeerTube videos.
pub struct PeerTubeProvider;

/// The PeerTube hosts of the setting that lists them: the pieces between
/// commas that hold more than white space, as they stand.
pub fn get_peertube_hosts(setting: &str) -> (r: Vec<String>)
    ensures
        strings_view(r@) == nonblank(split_all(setting@, ',')),
{
    nonblank_pieces(setting)
}

/// The regular expressions of the URLs of the PeerTube hosts in the setting:
/// each host pattern with its dots escaped and `*` standing for any text.
pub fn peertube_whitelist(setting: &str) -> (r: Vec<String>)
    ensures
        strings_view(r@) == setting_regexes(setting@),
{
    let hosts = get_peertube_hosts(setting);
    host_patterns_to_regexes(&hosts)
}

/// Why the API address of a video could not be found.
#[derive(Debug, PartialEq, Eq, Structural, Clone, Copy)]
pub enum ApiUrlError {
    /// The video's URL has no path (or is no URL).
    NoPath,
    /// No segment of the path is a UUID.
    NoUuid,
    /// The address could not be built.
    BadUrl,
}

/// The UUID written by the first path segment that writes one.
pub open spec fn first_uuid(segments: Seq<Seq<char>>) -> Option<Seq<char>>
    decreases segments.len(),
{
    if segments.len() == 0 {
        None
    } else {
        match uuid_of(segments[0]) {
            Some(u) => Some(u),
            None => first_uuid(segments.drop_first()),
        }
    }
}

/// The address in the PeerTube API of the video at `media_url`: its path
/// becomes `/api/v1/videos/<uuid>`, with the UUID found in its path.
pub open spec fn spec_find_api_url(media_url: Seq<char>) -> Result<Seq<char>, ApiUrlError> {
    match url_segments(media_url) {
        None => Err(ApiUrlError::NoPath),
        Some(segments) => match first_uuid(segments) {
            None => Err(ApiUrlError::NoUuid),
            Some(uuid) => match url_with_path(media_url, "/api/v1/videos/"@ + uuid) {
                None => Err(ApiUrlError::BadUrl),
                Some(u) => Ok(u),
            },
        },
    }
}

/// The address in the PeerTube API of a video.
pub fn find_api_url(media_url: &str) -> (r: Result<String, ApiUrlError>)
    ensures
        match r {
            Ok(u) => spec_find_api_url(media_url@) == Ok::<Seq<char>, ApiUrlError>(u@),
            Err(e) => spec_find_api_url(media_url@) == Err::<Seq<char>, ApiUrlError>(e),
        },
{
    let segments = match path_segments_of(media_url) {
        Some(s) => s,
        None => return Err(ApiUrlError::NoPath),
    };
    let ghost all = strings_view(segments@);
    let mut i: usize = 0;
    assert(all.subrange(0, all.len() as int) =~= all);
    while i < segments.len()
        invariant
            i <= segments@.len(),
            all == strings_view(segments@),
            url_segments(media_url@) == Some(all),
            first_uuid(all) == first_uuid(all.subrange(i as int, all.len() as int)),
        decreases segments@.len() - i,
    {
        let ghost rest = all.subrange(i as int, all.len() as int);
        assert(rest.drop_first() =~= all.subrange(i + 1, all.len() as int));
        assert(rest[0] == segments@[i as int]@);
        match parse_uuid(segments[i].as_str()) {
            Some(uuid) => {
                let path = concat("/api/v1/videos/", uuid.as_str());
                return match set_url_path(media_url, path.as_str()) {
                    Some(u) => Ok(u),
                    None => Err(ApiUrlError::BadUrl),
                };
            },
            None => {},
        }
        i = i + 1;
    }
    assert(all.subrange(i as int, all.len() as int) =~= Seq::<Seq<char>>::empty());
    Err(ApiUrlError::NoUuid)
}

impl PeerTubeProvider {
    /// The regular expressions of the URLs this provider serves.
    pub fn domain_whitelist_regexes(&self, hosts_setting: &str) -> (r: Vec<String>)
        ensures
            crate::text::strings_view(r@) == setting_regexes(hosts_setting@),
    {
        peertube_whitelist(hosts_setting)
    }
}

} // verus!
