use vod2pod_rss::configs::{conf, AudioCodec, Conf, ConfError, ConfName, Environment};

fn env(vars: &[(&str, &str)]) -> Environment {
    Environment::new(vars.iter().map(|(k, v)| (k.to_string(), v.to_string())).collect())
}

#[test]
fn defaults() {
    let c = conf(env(&[]));
    assert_eq!(c.get(ConfName::Mp3Bitrate).unwrap(), "192");
    assert_eq!(c.get(ConfName::RedisUrl).unwrap(), "redis://localhost:6379/");
    assert_eq!(c.get(ConfName::TranscodingEnabled).unwrap(), "true");
    assert_eq!(conf(env(&[("BITRATE", "64")])).get(ConfName::Mp3Bitrate).unwrap(), "64");
    assert_eq!(c.get(ConfName::SubfolderPath).unwrap(), "");
    assert_eq!(c.get(ConfName::AudioCodec).unwrap(), "MP3");
    assert_eq!(c.get(ConfName::PeerTubeValidHosts).unwrap(), "");
    assert_eq!(conf(env(&[("PEERTUBE_VALID_HOSTS", "video.example.org")])).get(ConfName::PeerTubeValidHosts).unwrap(), "video.example.org");
    assert_eq!(c.get(ConfName::YoutubeApiKey).unwrap_err(), ConfError::NotPresent);
    assert_eq!(c.get(ConfName::PodTubeUrl).unwrap_err(), ConfError::NotPresent);
}

#[test]
fn settings_from_the_environment() {
    let c = conf(env(&[
        ("SUBFOLDER", "pods//"),
        ("AUDIO_CODEC", "VORBIS"),
        ("YT_API_KEY", ""),
        ("REDIS_ADDRESS", "redis"),
        ("REDIS_PORT", "1"),
    ]));
    assert_eq!(c.get(ConfName::SubfolderPath).unwrap(), "/pods");
    assert_eq!(c.get(ConfName::AudioCodec).unwrap(), "OGG_VORBIS");
    assert_eq!(c.get(ConfName::YoutubeApiKey).unwrap_err(), ConfError::EmptyValue);
    assert_eq!(c.get(ConfName::RedisUrl).unwrap(), "redis://redis:1/");
    let codec: AudioCodec = c.get(ConfName::AudioCodec).unwrap().into();
    assert_eq!(codec.get_ffmpeg_codec_str(), "libvorbis");
    assert_eq!(codec.get_extension_str(), "webm");
    assert_eq!(codec.get_mime_type_str(), "audio/webm");
    let unknown = conf(env(&[("AUDIO_CODEC", "flac")]));
    assert_eq!(unknown.get(ConfName::AudioCodec).unwrap(), "MP3");
    assert_eq!(AudioCodec::default().get_mime_type_str(), "audio/mpeg");
}
