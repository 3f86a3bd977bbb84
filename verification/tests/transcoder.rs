use vod2pod_rss::configs::AudioCodec;
use vod2pod_rss::transcoder::{
    ffmpeg_program, get_ffmpeg_command, make_padding, stdout_step, FfmpegParameters,
    StdoutAction, StdoutEvent, StreamProgress, BUFFER_SIZE,
};

#[test]
fn check_ffmpeg_command() {
    let params = FfmpegParameters {
        seek_time: 30.0f32.to_string(),
        url: "http://url.mp3".to_string(),
        max_rate_kbit: 64,
        audio_codec: AudioCodec::MP3,
        bitrate_kbit: 3,
        expected_bytes_count: 999,
        timeout_in_seconds: 600,
    };
    assert_eq!(ffmpeg_program(), "ffmpeg");
    let args = get_ffmpeg_command(&params);
    let mut it = args.iter();
    while let Some(arg) = it.next() {
        match arg.as_str() {
            "-ss" => assert_eq!(it.next().unwrap(), &30.0f32.to_string()),
            "-protocol_whitelist" => assert_eq!(it.next().unwrap(), "file,http,https,tcp,tls"),
            "-i" => assert_eq!(it.next().unwrap(), "http://url.mp3"),
            "-acodec" => assert_eq!(it.next().unwrap(), params.audio_codec.get_ffmpeg_codec_str()),
            "-ab" => assert_eq!(it.next().unwrap(), "3k"),
            "-f" => assert_eq!(it.next().unwrap(), "mp3"),
            "-bufsize" => assert_eq!(it.next().unwrap(), "90"),
            "-maxrate" => assert_eq!(it.next().unwrap(), "64k"),
            "-timeout" => assert_eq!(it.next().unwrap(), "600"),
            "-loglevel" => assert_eq!(it.next().unwrap(), "error"),
            "-hide_banner" | "-" => {}
            x => panic!("ffmpeg run with uknown option: {x}"),
        }
    }
    assert_eq!(args.len(), 22);
    assert_eq!(params.bitarate(), 3072);
}

fn progress(sent: usize, expected: usize) -> StreamProgress {
    StreamProgress { sent_bytes_count: sent, expected_bytes_count: expected, tries: 0 }
}

#[test]
fn reads_are_sent_until_the_promise_is_kept() {
    let (p, a) = stdout_step(progress(0, 3000), StdoutEvent::Read(1024));
    assert_eq!((p.sent_bytes_count, a), (1024, StdoutAction::Send(1024)));
    let (p, a) = stdout_step(progress(2500, 3000), StdoutEvent::Read(1024));
    assert_eq!((p.sent_bytes_count, a), (3000, StdoutAction::SendLast(500)));
    let (p, a) = stdout_step(progress(1000, 3000), StdoutEvent::Read(0));
    assert_eq!((p.sent_bytes_count, a), (3000, StdoutAction::Pad(2000)));
    assert_eq!(make_padding(2000), vec![BUFFER_SIZE, 2000 - BUFFER_SIZE]);
    assert_eq!(make_padding(0), Vec::<usize>::new());
    assert_eq!(make_padding(2048).iter().sum::<usize>(), 2048);
}

#[test]
fn interrupted_reads_are_retried() {
    let (p, a) = stdout_step(progress(0, 10), StdoutEvent::Interrupted);
    assert_eq!((p.tries, a), (1, StdoutAction::Retry));
    let many = StreamProgress { tries: 11, ..progress(0, 10) };
    let (p, a) = stdout_step(many, StdoutEvent::Interrupted);
    assert_eq!((p.tries, a), (12, StdoutAction::ReportAndRetry));
    let (p, a) = stdout_step(progress(5, 10), StdoutEvent::Failed);
    assert_eq!((p, a), (progress(5, 10), StdoutAction::Report));
}
