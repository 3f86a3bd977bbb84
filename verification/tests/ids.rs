use vod2pod_rss::ids::{generate_guid, generation_uuid};
use vod2pod_rss::provider::peertube::find_api_url;

#[test]
fn guids_are_uuids_of_md5_digests() {
    let guid = generate_guid("episode-1");
    assert_eq!(guid.value, "917f5804-9379-3f2a-b513-2c395819d0c1");
    assert!(guid.permalink);
    assert_ne!(generate_guid("episode-2").value, guid.value);
}

#[test]
fn uuids() {
    let a = generation_uuid();
    assert_eq!(a.len(), 36);
    assert_ne!(a, generation_uuid());
    assert_eq!(
        find_api_url("https://v.example.org/w/9C9DE5E80A1E484AB099E80766180A6D").unwrap(),
        "https://v.example.org/api/v1/videos/9c9de5e8-0a1e-484a-b099-e80766180a6d"
    );
}
