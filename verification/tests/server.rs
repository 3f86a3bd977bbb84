use vod2pod_rss::server::{
    decide_range, head_media_response, media_response_builder, parse_range_header,
    transcoding_enabled, unsatisfied_content_range, MediaStatus, RangeDecision, RangeError,
    RangeHeader, ServedRange,
};

#[test]
fn test_get_start_and_end_start_to_end() {
    let content_range_str = "bytes=0-99";
    let bytes_count = 100;
    let (start, end, expected) = parse_range_header(content_range_str, bytes_count).unwrap();
    assert_eq!((start, end, expected), (0, 99, 100));
}

#[test]
fn test_get_start_and_end_middle1_to_middle2() {
    let content_range_str = "bytes=50-199";
    let bytes_count = 200;
    let (start, end, expected) = parse_range_header(content_range_str, bytes_count).unwrap();
    assert_eq!((start, end, expected), (50, 199, 150));
}

#[test]
fn test_get_start_and_end_middle_to_undefined() {
    let content_range_str = "bytes=100-";
    let bytes_count = 200;
    let (start, end, expected) = parse_range_header(content_range_str, bytes_count).unwrap();
    assert_eq!((start, end, expected), (100, 199, 100));
}

#[test]
fn test_get_start_and_end_start_to_undefined() {
    let content_range_str = "bytes=0-";
    let bytes_count = 200;
    let (start, end, expected) = parse_range_header(content_range_str, bytes_count).unwrap();
    assert_eq!((start, end, expected), (0, 199, 200));
}

#[test]
fn test_get_single_byte_range() {
    assert_eq!(parse_range_header("bytes=0-0", 100), Ok((0, 0, 1)));
}

#[test]
fn test_get_suffix_range() {
    assert_eq!(parse_range_header("bytes=-25", 100), Ok((75, 99, 25)));
}

#[test]
fn test_range_end_is_clamped_to_content_length() {
    assert_eq!(parse_range_header("bytes=75-200", 100), Ok((75, 99, 25)));
}

#[test]
fn test_range_start_beyond_content_is_unsatisfiable() {
    assert_eq!(
        parse_range_header("bytes=100-", 100),
        Err(RangeError::Unsatisfiable)
    );
}

#[test]
fn full_response_has_content_length_without_content_range() {
    let response = media_response_builder(false, 0, 99, 100, 100, "audio/mpeg");

    assert_eq!(response.status, MediaStatus::Success);
    assert_eq!(response.content_length, 100);
    assert!(response.content_range.is_none());
}

#[test]
fn partial_response_has_range_status_and_headers() {
    let response = media_response_builder(true, 0, 0, 100, 1, "audio/mpeg");

    assert_eq!(response.status, MediaStatus::PartialContent);
    assert_eq!(response.content_length, 1);
    assert_eq!(response.content_range.as_deref(), Some("bytes 0-0/100"));
}

#[test]
fn head_response_preserves_the_declared_body_size() {
    let response = head_media_response(
        media_response_builder(false, 0, 99, 100, 100, "audio/mpeg"),
        100,
    );

    assert_eq!(response.body_size, 100);
}

#[test]
fn range_errors_for_malformed_headers() {
    assert_eq!(parse_range_header("bytes=", 100), Err(RangeError::Invalid));
    assert_eq!(parse_range_header("bytes=-", 100), Err(RangeError::Invalid));
    assert_eq!(parse_range_header("bytes=-0", 100), Err(RangeError::Invalid));
    assert_eq!(parse_range_header("bytes=0-1,5-6", 100), Err(RangeError::Invalid));
    assert_eq!(parse_range_header("items=0-1", 100), Err(RangeError::Invalid));
    assert_eq!(parse_range_header("bytes=a-1", 100), Err(RangeError::Invalid));
    assert_eq!(parse_range_header("bytes=1-b", 100), Err(RangeError::Invalid));
    assert_eq!(parse_range_header("bytes=10", 100), Err(RangeError::Invalid));
    assert_eq!(parse_range_header("bytes=5-1", 100), Err(RangeError::Unsatisfiable));
    assert_eq!(parse_range_header("bytes=0-1", 0), Err(RangeError::Unsatisfiable));
}

#[test]
fn range_header_is_trimmed_and_accepts_plus_signs() {
    assert_eq!(parse_range_header("  bytes=+3-+4 \t", 100), Ok((3, 4, 2)));
    assert_eq!(parse_range_header("bytes=-500", 100), Ok((0, 99, 100)));
    assert_eq!(
        parse_range_header("bytes=0-18446744073709551616", 100),
        Err(RangeError::Invalid)
    );
    assert_eq!(
        parse_range_header("bytes=0-18446744073709551615", 100),
        Ok((0, 99, 100))
    );
}

#[test]
fn range_decisions() {
    assert_eq!(
        decide_range(&RangeHeader::Absent, 10),
        RangeDecision::Serve(ServedRange { is_partial: false, start: 0, end: 9, expected: 10 })
    );
    assert_eq!(decide_range(&RangeHeader::Absent, 0), RangeDecision::NoContent);
    assert_eq!(decide_range(&RangeHeader::Unreadable, 10), RangeDecision::BadRequest);
    assert_eq!(
        decide_range(&RangeHeader::Value("bytes=10-".to_string()), 10),
        RangeDecision::NotSatisfiable
    );
    assert_eq!(
        decide_range(&RangeHeader::Value("bytes=2-3".to_string()), 10),
        RangeDecision::Serve(ServedRange { is_partial: true, start: 2, end: 3, expected: 2 })
    );
    assert_eq!(unsatisfied_content_range(1234), "bytes */1234");
}

#[test]
fn transcoding_setting() {
    assert!(!transcoding_enabled(Some("FaLsE")));
    assert!(!transcoding_enabled(Some("false")));
    assert!(transcoding_enabled(Some("true")));
    assert!(transcoding_enabled(Some("False ")));
    assert!(transcoding_enabled(None));
}

use vod2pod_rss::server::{estimated_output_bytes, feed_request_url, plan_transcode, version_changed, FeedAnswer, TranscodeAnswer};
use vod2pod_rss::configs::AudioCodec;
use vod2pod_rss::provider::ProviderKind;

#[test]
fn feed_requests() {
    assert!(matches!(feed_request_url(true, None, "", ""), Err(FeedAnswer::HeadOk)));
    assert!(matches!(feed_request_url(false, None, "", ""), Err(FeedAnswer::MissingUrl)));
    match feed_request_url(false, Some("not a url"), "", "") {
        Err(FeedAnswer::InvalidUrl(reason)) => assert_eq!(reason, "relative URL without a base"),
        _ => panic!("expected an invalid URL"),
    }
    let domains = "https://example.org/";
    match feed_request_url(false, Some("HTTPS://Example.org"), "", domains) {
        Ok((url, kind)) => {
            assert_eq!(url, "https://example.org/");
            assert_eq!(kind, ProviderKind::Generic);
        }
        _ => panic!("expected an allowed URL"),
    }
    assert!(matches!(feed_request_url(false, Some("http://169.254.169.254/latest"), "", domains), Err(FeedAnswer::NotAllowed)));
    match feed_request_url(false, Some("https://www.youtube.com/@channel"), "", domains) {
        Ok((_, kind)) => assert_eq!(kind, ProviderKind::Youtube),
        _ => panic!("expected a YouTube URL"),
    }
}

#[test]
fn transcode_plans() {
    assert_eq!(estimated_output_bytes(10, 192), Some(10 * 192 * 1024));
    assert_eq!(estimated_output_bytes(u64::MAX, 2), None);
    assert!(matches!(plan_transcode(Some("false"), true, &RangeHeader::Absent, 10, 192, AudioCodec::MP3), TranscodeAnswer::TranscodingOff));
    assert!(matches!(plan_transcode(Some("FALSE"), true, &RangeHeader::Absent, usize::MAX, usize::MAX, AudioCodec::MP3), TranscodeAnswer::TranscodingOff));
    assert!(matches!(plan_transcode(None, true, &RangeHeader::Absent, usize::MAX, usize::MAX, AudioCodec::MP3), TranscodeAnswer::BadRequest));
    assert!(matches!(plan_transcode(None, false, &RangeHeader::Absent, 10, 192, AudioCodec::MP3), TranscodeAnswer::NotAllowed));
    assert!(matches!(plan_transcode(None, true, &RangeHeader::Absent, 0, 192, AudioCodec::MP3), TranscodeAnswer::NoContent));
    let total = 10 * 192 * 1024;
    match plan_transcode(None, true, &RangeHeader::Value(format!("bytes={}-", total)), 10, 192, AudioCodec::MP3) {
        TranscodeAnswer::NotSatisfiable(t) => assert_eq!(t, total),
        _ => panic!("expected 416"),
    }
    match plan_transcode(Some("true"), true, &RangeHeader::Value("bytes=0-99".to_string()), 10, 192, AudioCodec::Opus) {
        TranscodeAnswer::Serve { range, total: t, expected, max_rate_kbit, head } => {
            assert_eq!((range.start, range.end, t, expected, max_rate_kbit), (0, 99, total, 100, 192 * 30));
            assert_eq!(head.content_type, "audio/webm");
            assert_eq!(head.content_range.as_deref(), Some("bytes 0-99/1966080"));
        }
        _ => panic!("expected a partial answer"),
    }
}

#[test]
fn cache_is_flushed_on_a_new_version() {
    assert!(version_changed(Some("1.0"), "1.1"));
    assert!(!version_changed(Some("1.1"), "1.1"));
    assert!(!version_changed(None, "1.1"));
}
