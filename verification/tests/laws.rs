use vod2pod_rss::configs::{conf, AudioCodec, Conf, ConfName, Environment};
use vod2pod_rss::provider::{provider_for, url_allowed, ProviderKind};
use vod2pod_rss::rss_transcodizer::{convert_item, format_hms, parse_duration};
use vod2pod_rss::server::{parse_range_header, plan_transcode, RangeError, RangeHeader, TranscodeAnswer};
use vod2pod_rss::source::{SourceEntry, SourceMedia};
use vod2pod_rss::transcoder::{make_padding, stdout_step, StdoutAction, StdoutEvent, StreamProgress};

#[test]
fn written_lengths_read_back() {
    for secs in [0u64, 59, 60, 3599, 3600, 3723, 86399, 360000, 1234567] {
        assert_eq!(parse_duration(&format_hms(secs)), Ok(secs));
    }
}

#[test]
fn chosen_providers_serve_their_urls() {
    let domains = "https://*.youtube.com/,https://feeds.simplecast.com/";
    for url in ["https://www.youtube.com/@x", "https://www.twitch.tv/x", "https://video.example.org/w/1"] {
        let kind = provider_for(url, "video.example.org", domains).unwrap();
        assert_ne!(kind, ProviderKind::Generic);
        assert_eq!(url_allowed(kind, url, "video.example.org", domains), Some(true));
    }
}

#[test]
fn streams_end_with_the_promised_bytes() {
    for (reads, expected) in [(vec![1024usize, 1024, 0], 5000usize), (vec![1024, 1024, 1024], 2500), (vec![0], 0)] {
        let mut p = StreamProgress { sent_bytes_count: 0, expected_bytes_count: expected, tries: 0 };
        let mut delivered = 0usize;
        for n in reads {
            let (next, action) = stdout_step(p, StdoutEvent::Read(n));
            p = next;
            match action {
                StdoutAction::Send(k) => delivered += k,
                StdoutAction::SendLast(k) => {
                    delivered += k;
                    break;
                }
                StdoutAction::Pad(k) => {
                    delivered += make_padding(k).iter().sum::<usize>();
                    break;
                }
                _ => {}
            }
            assert!(delivered <= expected);
        }
        assert_eq!(delivered, expected);
        assert_eq!(p.sent_bytes_count, expected);
    }
}

#[test]
fn subfolder_is_normalized_once_and_for_all() {
    for raw in ["", "/", "pods", "/pods/", "a//", "//"] {
        let once = conf(Environment::new(vec![("SUBFOLDER".to_string(), raw.to_string())]))
            .get(ConfName::SubfolderPath)
            .unwrap();
        let twice = conf(Environment::new(vec![("SUBFOLDER".to_string(), once.clone())]))
            .get(ConfName::SubfolderPath)
            .unwrap();
        assert_eq!(once, twice);
        assert!(once.is_empty() || (once.starts_with('/') && !once.ends_with('/')));
    }
}

#[test]
fn codec_settings_name_codecs() {
    for (raw, codec) in [("OPUS", AudioCodec::Opus), ("OGG", AudioCodec::OGGVorbis), ("VORBIS", AudioCodec::OGGVorbis), ("wav", AudioCodec::MP3)] {
        let setting = conf(Environment::new(vec![("AUDIO_CODEC".to_string(), raw.to_string())]))
            .get(ConfName::AudioCodec)
            .unwrap();
        assert_eq!(AudioCodec::from(setting), codec);
    }
}

#[test]
fn announced_size_is_served() {
    for (secs, bitrate) in [(3723u64, 192u64), (1, 64), (59, 320)] {
        let entry = SourceEntry {
            id: "e".to_string(),
            title: Some("t".to_string()),
            links: vec![],
            published: None,
            content: None,
            summary: None,
            media: vec![SourceMedia {
                views: Some(1),
                contents: vec![(Some("audio/mpeg".to_string()), Some("https://cdn/a.mp3".to_string()))],
                description: None,
                thumbnail: None,
                duration_secs: Some(secs),
            }],
        };
        let item = convert_item(&entry, "http://me/transcode_media/to.mp3", true, bitrate, "u", 0, "1").unwrap().unwrap();
        let announced: u64 = item.enclosure.unwrap().length.parse().unwrap();
        let duration = parse_duration(&item.itunes.unwrap().duration.unwrap()).unwrap();
        assert_eq!(duration, secs);
        match plan_transcode(None, true, &RangeHeader::Absent, duration as usize, bitrate as usize, AudioCodec::MP3) {
            TranscodeAnswer::Serve { total, expected, head, .. } => {
                assert_eq!(total, announced);
                assert_eq!(expected as u64, announced);
                assert_eq!(head.content_length, announced);
            }
            _ => panic!("whole file not served"),
        }
    }
}

#[test]
fn range_header_forms() {
    let n = 1000u64;
    for (s, e) in [(0u64, 0u64), (0, 999), (10, 20), (500, 5000), (999, 999), (1000, 1001), (20, 10)] {
        let expected = if s >= n || e < s {
            Err(RangeError::Unsatisfiable)
        } else {
            let last = e.min(n - 1);
            Ok((s, last, last - s + 1))
        };
        assert_eq!(parse_range_header(&format!("bytes={s}-{e}"), n), expected);
    }
    for k in [1u64, 10, 999, 1000, 5000] {
        assert_eq!(parse_range_header(&format!("bytes=-{k}"), n), Ok((n.saturating_sub(k), n - 1, k.min(n))));
    }
    assert_eq!(parse_range_header("bytes=7-", n), Ok((7, 999, 993)));
}

#[test]
fn duration_forms() {
    for (h, m, s) in [(0u64, 0u64, 0u64), (1, 2, 3), (10, 70, 95), (123, 0, 59)] {
        assert_eq!(parse_duration(&format!("{h}:{m}:{s}")), Ok(h * 3600 + m * 60 + s));
        assert_eq!(parse_duration(&format!("{m}:{s}")), Ok(m * 60 + s));
        assert_eq!(parse_duration(&s.to_string()), Ok(s));
    }
    assert_eq!(parse_duration(""), Err("Invalid format".to_string()));
}

#[test]
fn stream_content_is_output_cut_or_padded() {
    let output: Vec<u8> = (1..=250u8).collect();
    for (expected, chunk_size) in [(100usize, 64usize), (250, 100), (400, 128)] {
        let mut p = StreamProgress { sent_bytes_count: 0, expected_bytes_count: expected, tries: 0 };
        let mut delivered: Vec<u8> = Vec::new();
        let mut chunks = output.chunks(chunk_size);
        loop {
            let chunk = chunks.next().unwrap_or(&[]);
            let (next, action) = stdout_step(p, StdoutEvent::Read(chunk.len()));
            p = next;
            match action {
                StdoutAction::Send(k) => delivered.extend_from_slice(&chunk[..k]),
                StdoutAction::SendLast(k) => {
                    delivered.extend_from_slice(&chunk[..k]);
                    break;
                }
                StdoutAction::Pad(k) => {
                    delivered.extend(std::iter::repeat(0u8).take(k));
                    break;
                }
                _ => {}
            }
        }
        let mut fitted = output.clone();
        fitted.resize(expected, 0);
        assert_eq!(delivered, fitted);
    }
}
