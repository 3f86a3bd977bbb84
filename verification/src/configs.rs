use vstd::prelude::*;

use crate::text::{str_eq, to_chars};

verus! {

/// The settings of the service.
#[derive(Debug, PartialEq, Eq, Structural, Clone, Copy)]
pub enum ConfName {
    RedisAddress,
    RedisPort,
    RedisUrl,
    Mp3Bitrate,
    TwitchToPodcastUrl,
    YoutubeApiKey,
    TwitchClientId,
    TwitchSecretKey,
    PodTubeUrl,
    TranscodingEnabled,
    SubfolderPath,
    ValidUrlDomains,
    /// The hosts served as PeerTube instances, comma-separated.
    PeerTubeValidHosts,
    AudioCodec,
}

/// Why a setting has no value.
#[derive(Debug, PartialEq, Eq, Structural, Clone, Copy)]
pub enum ConfError {
    /// The environment variable it is read from is not set.
    NotPresent,
    /// The environment variable is set but empty, which an API key may not be.
    EmptyValue,
}

/// A source of settings.
pub trait Conf {
    fn get(&self, key: ConfName) -> Result<String, ConfError>;
}

/// A snapshot of the process environment: variable names and their values.
pub struct Environment {
    vars: Vec<(String, String)>,
}

/// The value of the first variable called `name` in `vars`.
pub open spec fn spec_lookup(vars: Seq<(Seq<char>, Seq<char>)>, name: Seq<char>) -> Option<
    Seq<char>,
>
    decreases vars.len(),
{
    if vars.len() == 0 {
        None
    } else if vars[0].0 == name {
        Some(vars[0].1)
    } else {
        spec_lookup(vars.drop_first(), name)
    }
}

impl View for Environment {
    type V = Seq<(Seq<char>, Seq<char>)>;

    closed spec fn view(&self) -> Seq<(Seq<char>, Seq<char>)> {
        self.vars@.map_values(|p: (String, String)| (p.0@, p.1@))
    }
}

impl Environment {
    /// An environment holding the given variables.
    pub fn new(vars: Vec<(String, String)>) -> (r: Self)
        ensures
            r@ == vars@.map_values(|p: (String, String)| (p.0@, p.1@)),
    {
        Environment { vars }
    }

    /// The value of the variable `name`, if it is set (the first one, if it is
    /// given more than once).
    pub fn var(&self, name: &str) -> (r: Option<String>)
        ensures
            r matches Some(v) ==> spec_lookup(self@, name@) == Some(v@),
            r is None ==> spec_lookup(self@, name@) is None,
    {
        let mut i: usize = 0;
        assert(self@.skip(0) =~= self@);
        while i < self.vars.len()
            invariant
                i <= self.vars@.len(),
                self@.len() == self.vars@.len(),
                spec_lookup(self@, name@) == spec_lookup(self@.skip(i as int), name@),
            decreases self.vars@.len() - i,
        {
            assert(self@.skip(i as int)[0] == (self.vars@[i as int].0@, self.vars@[i as int].1@));
            assert(self@.skip(i as int).drop_first() =~= self@.skip(i + 1));
            if str_eq(self.vars[i].0.as_str(), name) {
                return Some(self.vars[i].1.clone());
            }
            i = i + 1;
        }
        None
    }
}

/// The environment variable each setting is read from (the Redis URL is made
/// from two of them).
pub open spec fn env_name(key: ConfName) -> Seq<char> {
    match key {
        ConfName::RedisAddress => "REDIS_ADDRESS"@,
        ConfName::RedisPort => "REDIS_PORT"@,
        ConfName::RedisUrl => Seq::empty(),
        ConfName::Mp3Bitrate => "BITRATE"@,
        ConfName::TwitchToPodcastUrl => "TWITCH_TO_PODCAST_URL"@,
        ConfName::YoutubeApiKey => "YT_API_KEY"@,
        ConfName::TwitchClientId => "TWITCH_CLIENT_ID"@,
        ConfName::TwitchSecretKey => "TWITCH_SECRET"@,
        ConfName::PodTubeUrl => "PODTUBE_URL"@,
        ConfName::TranscodingEnabled => "TRANSCODE"@,
        ConfName::SubfolderPath => "SUBFOLDER"@,
        ConfName::ValidUrlDomains => "VALID_URL_DOMAINS"@,
        ConfName::PeerTubeValidHosts => "PEERTUBE_VALID_HOSTS"@,
        ConfName::AudioCodec => "AUDIO_CODEC"@,
    }
}

/// `s` without its trailing `/` characters.
pub open spec fn strip_trailing_slashes(s: Seq<char>) -> Seq<char>
    decreases s.len(),
{
    if s.len() > 0 && s.last() == '/' {
        strip_trailing_slashes(s.drop_last())
    } else {
        s
    }
}

/// The sub-folder the service is mounted under: it starts with `/` and has no
/// trailing `/` (so the root is the empty string).
pub open spec fn spec_subfolder(raw: Seq<char>) -> Seq<char> {
    strip_trailing_slashes(if raw.len() > 0 && raw[0] == '/' { raw } else { seq!['/'] + raw })
}

/// The codec setting a raw `AUDIO_CODEC` value stands for: `OGG` and `VORBIS`
/// are other names of `OGG_VORBIS`, and anything unknown falls back to `MP3`.
pub open spec fn spec_codec_setting(raw: Seq<char>) -> Seq<char> {
    if raw == "MP3"@ || raw == "OPUS"@ || raw == "OGG_VORBIS"@ {
        raw
    } else if raw == "OGG"@ || raw == "VORBIS"@ {
        "OGG_VORBIS"@
    } else {
        "MP3"@
    }
}

/// A value read from the environment, or the default when it is not set.
pub open spec fn or_default(v: Option<Seq<char>>, default: Seq<char>) -> Seq<char> {
    match v {
        Some(x) => x,
        None => default,
    }
}

/// An API key read from the environment: missing and empty keys are errors.
pub open spec fn api_key(v: Option<Seq<char>>) -> Result<Seq<char>, ConfError> {
    match v {
        Some(x) => if x.len() == 0 {
            Err(ConfError::EmptyValue)
        } else {
            Ok(x)
        },
        None => Err(ConfError::NotPresent),
    }
}

/// The domains accepted by default.
pub open spec fn default_valid_domains() -> Seq<char> {
    "https://*.youtube.com/,https://youtube.com/,https://youtu.be/,https://*.youtu.be/,https://*.twitch.tv/,https://twitch.tv/,https://*.googlevideo.com/,https://*.cloudfront.net/"@
}

/// The value of a setting in an environment.
pub open spec fn spec_conf_value(env: Seq<(Seq<char>, Seq<char>)>, key: ConfName) -> Result<
    Seq<char>,
    ConfError,
> {
    let v = spec_lookup(env, env_name(key));
    match key {
        ConfName::RedisAddress => Ok(or_default(v, "localhost"@)),
        ConfName::RedisPort => Ok(or_default(v, "6379"@)),
        ConfName::RedisUrl => Ok(
            "redis://"@ + or_default(spec_lookup(env, "REDIS_ADDRESS"@), "localhost"@) + ":"@
                + or_default(spec_lookup(env, "REDIS_PORT"@), "6379"@) + "/"@,
        ),
        ConfName::Mp3Bitrate => Ok(or_default(v, "192"@)),
        ConfName::TwitchToPodcastUrl => match v {
            Some(x) => Ok(x),
            None => Err(ConfError::NotPresent),
        },
        ConfName::TwitchClientId => api_key(v),
        ConfName::TwitchSecretKey => api_key(v),
        ConfName::YoutubeApiKey => api_key(v),
        ConfName::PodTubeUrl => match v {
            Some(x) => Ok(x),
            None => Err(ConfError::NotPresent),
        },
        ConfName::TranscodingEnabled => Ok(or_default(v, "true"@)),
        ConfName::SubfolderPath => Ok(spec_subfolder(or_default(v, ""@))),
        ConfName::ValidUrlDomains => Ok(or_default(v, default_valid_domains())),
        ConfName::PeerTubeValidHosts => Ok(or_default(v, ""@)),
        ConfName::AudioCodec => Ok(
            match v {
                Some(x) => spec_codec_setting(x),
                None => "MP3"@,
            },
        ),
    }
}

/// Settings read from a snapshot of the environment.
pub struct EnvConf {
    pub env: Environment,
}

/// The settings of the service, read from the given environment.
pub fn conf(env: Environment) -> (r: EnvConf)
    ensures
        r.env@ == env@,
{
    EnvConf { env }
}

fn or_default_string(v: Option<String>, default: &str) -> (r: String)
    ensures
        r@ == or_default(
            match v {
                Some(x) => Some(x@),
                None => None,
            },
            default@,
        ),
{
    match v {
        Some(x) => x,
        None => String::from_str(default),
    }
}

fn api_key_value(v: Option<String>) -> (r: Result<String, ConfError>)
    ensures
        match r {
            Ok(x) => api_key(
                match v {
                    Some(y) => Some(y@),
                    None => None,
                },
            ) == Ok::<Seq<char>, ConfError>(x@),
            Err(e) => api_key(
                match v {
                    Some(y) => Some(y@),
                    None => None,
                },
            ) == Err::<Seq<char>, ConfError>(e),
        },
{
    match v {
        Some(x) => {
            if x.as_str().unicode_len() == 0 {
                Err(ConfError::EmptyValue)
            } else {
                Ok(x)
            }
        },
        None => Err(ConfError::NotPresent),
    }
}

/// The sub-folder setting made from a raw `SUBFOLDER` value.
pub fn subfolder_path(raw: &str) -> (r: String)
    ensures
        r@ == spec_subfolder(raw@),
{
    let v = to_chars(raw);
    let mut out: Vec<char> = Vec::new();
    if !(v.len() > 0 && v[0] == '/') {
        out.push('/');
    }
    let mut i: usize = 0;
    while i < v.len()
        invariant
            i <= v@.len(),
            v@ == raw@,
            out@ == (if raw@.len() > 0 && raw@[0] == '/' {
                Seq::<char>::empty()
            } else {
                seq!['/']
            }) + raw@.subrange(0, i as int),
        decreases v@.len() - i,
    {
        out.push(v[i]);
        i = i + 1;
    }
    assert(raw@.subrange(0, raw@.len() as int) =~= raw@);
    assert(out@ =~= (if raw@.len() > 0 && raw@[0] == '/' { raw@ } else { seq!['/'] + raw@ }));
    let ghost full = out@;
    while out.len() > 0 && out[out.len() - 1] == '/'
        invariant
            strip_trailing_slashes(out@) == strip_trailing_slashes(full),
        decreases out@.len(),
    {
        assert(out@.drop_last() == out@.subrange(0, out@.len() - 1));
        out.pop();
    }
    crate::text::from_chars(out.as_slice())
}

/// The codec setting a raw `AUDIO_CODEC` value stands for.
pub fn codec_setting(raw: String) -> (r: String)
    ensures
        r@ == spec_codec_setting(raw@),
{
    if str_eq(raw.as_str(), "MP3") || str_eq(raw.as_str(), "OPUS") || str_eq(
        raw.as_str(),
        "OGG_VORBIS",
    ) {
        raw
    } else if str_eq(raw.as_str(), "OGG") || str_eq(raw.as_str(), "VORBIS") {
        String::from_str("OGG_VORBIS")
    } else {
        String::from_str("MP3")
    }
}

impl Conf for EnvConf {
    /// The value of a setting: what its variable holds, the default when it is
    /// not set, and an error for a missing URL or a missing or empty API key.
    fn get(&self, key: ConfName) -> (r: Result<String, ConfError>)
        ensures
            match r {
                Ok(v) => spec_conf_value(self.env@, key) == Ok::<Seq<char>, ConfError>(v@),
                Err(e) => spec_conf_value(self.env@, key) == Err::<Seq<char>, ConfError>(e),
            },
    {
        match key {
            ConfName::RedisAddress => Ok(
                or_default_string(self.env.var("REDIS_ADDRESS"), "localhost"),
            ),
            ConfName::RedisPort => Ok(or_default_string(self.env.var("REDIS_PORT"), "6379")),
            ConfName::RedisUrl => {
                let address = or_default_string(self.env.var("REDIS_ADDRESS"), "localhost");
                let port = or_default_string(self.env.var("REDIS_PORT"), "6379");
                let mut v: Vec<char> = Vec::new();
                crate::text::push_str(&mut v, "redis://");
                crate::text::push_str(&mut v, address.as_str());
                crate::text::push_str(&mut v, ":");
                crate::text::push_str(&mut v, port.as_str());
                crate::text::push_str(&mut v, "/");
                assert(v@ =~= "redis://"@ + address@ + ":"@ + port@ + "/"@);
                Ok(crate::text::from_chars(v.as_slice()))
            },
            ConfName::Mp3Bitrate => Ok(or_default_string(self.env.var("BITRATE"), "192")),
            ConfName::TwitchToPodcastUrl => match self.env.var("TWITCH_TO_PODCAST_URL") {
                Some(x) => Ok(x),
                None => Err(ConfError::NotPresent),
            },
            ConfName::TwitchClientId => api_key_value(self.env.var("TWITCH_CLIENT_ID")),
            ConfName::TwitchSecretKey => api_key_value(self.env.var("TWITCH_SECRET")),
            ConfName::YoutubeApiKey => api_key_value(self.env.var("YT_API_KEY")),
            ConfName::PodTubeUrl => match self.env.var("PODTUBE_URL") {
                Some(x) => Ok(x),
                None => Err(ConfError::NotPresent),
            },
            ConfName::TranscodingEnabled => Ok(
                or_default_string(self.env.var("TRANSCODE"), "true"),
            ),
            ConfName::SubfolderPath => {
                let raw = or_default_string(self.env.var("SUBFOLDER"), "");
                Ok(subfolder_path(raw.as_str()))
            },
            ConfName::ValidUrlDomains => Ok(
                or_default_string(
                    self.env.var("VALID_URL_DOMAINS"),
                    "https://*.youtube.com/,https://youtube.com/,https://youtu.be/,https://*.youtu.be/,https://*.twitch.tv/,https://twitch.tv/,https://*.googlevideo.com/,https://*.cloudfront.net/",
                ),
            ),
            ConfName::PeerTubeValidHosts => Ok(or_default_string(self.env.var("PEERTUBE_VALID_HOSTS"), "")),
            ConfName::AudioCodec => Ok(
                match self.env.var("AUDIO_CODEC") {
                    Some(x) => codec_setting(x),
                    None => String::from_str("MP3"),
                },
            ),
        }
    }
}

/// The audio codecs the transcoder can produce.
#[derive(Debug, PartialEq, Eq, Structural, Clone, Copy)]
pub enum AudioCodec {
    MP3,
    Opus,
    OGGVorbis,
}

impl AudioCodec {
    /// The name of the ffmpeg encoder for the codec.
    pub fn get_ffmpeg_codec_str(&self) -> (r: &'static str)
        ensures
            r@ == match self {
                AudioCodec::MP3 => "libmp3lame"@,
                AudioCodec::Opus => "libopus"@,
                AudioCodec::OGGVorbis => "libvorbis"@,
            },
    {
        match self {
            AudioCodec::MP3 => "libmp3lame",
            AudioCodec::Opus => "libopus",
            AudioCodec::OGGVorbis => "libvorbis",
        }
    }

    /// The container format (ffmpeg's `-f`) of the codec.
    pub fn get_extension_str(&self) -> (r: &'static str)
        ensures
            r@ == match self {
                AudioCodec::MP3 => "mp3"@,
                AudioCodec::Opus => "webm"@,
                AudioCodec::OGGVorbis => "webm"@,
            },
    {
        match self {
            AudioCodec::MP3 => "mp3",
            AudioCodec::Opus => "webm",
            AudioCodec::OGGVorbis => "webm",
        }
    }

    /// The MIME type of the codec's stream.
    pub fn get_mime_type_str(&self) -> (r: &'static str)
        ensures
            r@ == match self {
                AudioCodec::MP3 => "audio/mpeg"@,
                AudioCodec::Opus => "audio/webm"@,
                AudioCodec::OGGVorbis => "audio/webm"@,
            },
    {
        match self {
            AudioCodec::MP3 => "audio/mpeg",
            AudioCodec::Opus => "audio/webm",
            AudioCodec::OGGVorbis => "audio/webm",
        }
    }
}

/// The MIME type of a codec's stream.
pub open spec fn spec_mime_type(c: AudioCodec) -> Seq<char> {
    match c {
        AudioCodec::MP3 => "audio/mpeg"@,
        AudioCodec::Opus => "audio/webm"@,
        AudioCodec::OGGVorbis => "audio/webm"@,
    }
}

/// The codec a codec setting names; anything else is `MP3`.
pub open spec fn spec_audio_codec(setting: Seq<char>) -> AudioCodec {
    if setting == "MP3"@ {
        AudioCodec::MP3
    } else if setting == "OPUS"@ {
        AudioCodec::Opus
    } else if setting == "OGG_VORBIS"@ {
        AudioCodec::OGGVorbis
    } else {
        AudioCodec::MP3
    }
}

impl From<String> for AudioCodec {
    fn from(value: String) -> (r: AudioCodec) {
        if str_eq(value.as_str(), "MP3") {
            AudioCodec::MP3
        } else if str_eq(value.as_str(), "OPUS") {
            AudioCodec::Opus
        } else if str_eq(value.as_str(), "OGG_VORBIS") {
            AudioCodec::OGGVorbis
        } else {
            AudioCodec::MP3
        }
    }
}

impl vstd::std_specs::convert::FromSpecImpl<String> for AudioCodec {
    open spec fn obeys_from_spec() -> bool {
        true
    }

    open spec fn from_spec(v: String) -> AudioCodec {
        spec_audio_codec(v@)
    }
}

impl Default for AudioCodec {
    fn default() -> (r: Self)
        ensures
            r == AudioCodec::MP3,
    {
        Self::MP3
    }
}

proof fn lemma_strip_trailing_slashes(s: Seq<char>)
    ensures
        strip_trailing_slashes(s).len() <= s.len(),
        strip_trailing_slashes(s) == s.take(strip_trailing_slashes(s).len() as int),
        strip_trailing_slashes(s).len() == 0 || strip_trailing_slashes(s).last() != '/',
    decreases s.len(),
{
    if s.len() > 0 && s.last() == '/' {
        lemma_strip_trailing_slashes(s.drop_last());
        let r = strip_trailing_slashes(s.drop_last());
        assert(s.drop_last().take(r.len() as int) =~= s.take(r.len() as int));
    } else {
        assert(s.take(s.len() as int) =~= s);
    }
}

/// The sub-folder setting is brought to a normal form: empty (the root), or
/// starting with `/` and not ending with one; and normalizing it again
/// changes nothing.
pub proof fn law_subfolder_normal_form(raw: Seq<char>)
    ensures
        spec_subfolder(raw).len() == 0 || (spec_subfolder(raw)[0] == '/' && spec_subfolder(raw).last() != '/'),
        spec_subfolder(spec_subfolder(raw)) == spec_subfolder(raw),
{
    let t = if raw.len() > 0 && raw[0] == '/' { raw } else { seq!['/'] + raw };
    assert(t[0] == '/');
    lemma_strip_trailing_slashes(t);
    let r = spec_subfolder(raw);
    if r.len() > 0 {
        assert(r[0] == t.take(r.len() as int)[0]);
        assert(strip_trailing_slashes(r) == r);
    } else {
        let t2 = seq!['/'] + r;
        assert(t2 =~= seq!['/']);
        assert(t2.drop_last() =~= Seq::<char>::empty());
        assert(strip_trailing_slashes(Seq::<char>::empty()) == Seq::<char>::empty());
    }
}

/// Every `AUDIO_CODEC` value is read as one of the codecs: `OPUS` as Opus,
/// `OGG`, `VORBIS` and `OGG_VORBIS` as Ogg Vorbis, anything else as MP3.
pub proof fn law_codec_setting_names_codec(raw: Seq<char>)
    ensures
        spec_audio_codec(spec_codec_setting(raw)) == (if raw == "OPUS"@ {
            AudioCodec::Opus
        } else if raw == "OGG"@ || raw == "VORBIS"@ || raw == "OGG_VORBIS"@ {
            AudioCodec::OGGVorbis
        } else {
            AudioCodec::MP3
        }),
{
    reveal_strlit("MP3");
    reveal_strlit("OPUS");
    reveal_strlit("OGG_VORBIS");
    reveal_strlit("OGG");
    reveal_strlit("VORBIS");
    assert("MP3"@.len() == 3);
    assert("OPUS"@.len() == 4);
    assert("OGG_VORBIS"@.len() == 10);
    assert("MP3"@ != "OPUS"@);
    assert("MP3"@ != "OGG_VORBIS"@);
    assert("OPUS"@ != "OGG_VORBIS"@);
    assert("MP3"@[0] != "OGG"@[0]);
    assert("MP3"@ != "OGG"@);
    assert("MP3"@ != "VORBIS"@);
    assert("OPUS"@[1] != "OGG"@[1]);
    assert("OPUS"@ != "OGG"@);
    assert("OPUS"@ != "VORBIS"@);
}

} // verus!
