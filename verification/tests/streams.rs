use vod2pod_rss::streams::Streams;

#[test]
fn check_correct_total_byte_len() {
    let duration = 60;
    let stream_url = "http://url.mp3";
    let stream = Streams::new(duration, stream_url);
    let bitarate = 100;
    let stream_byte_len = stream.total_byte_len(bitarate);

    assert_eq!(stream_byte_len, i64::from(bitarate * duration))
}

#[test]
fn streams_keep_what_they_were_made_with() {
    let stream = Streams::new(42, "http://example.org/a.mp3");
    assert_eq!(stream.duratiion_s(), 42);
    assert_eq!(stream.stream_url(), "http://example.org/a.mp3");
    assert_eq!(stream.total_byte_len(-3), -126);
}
