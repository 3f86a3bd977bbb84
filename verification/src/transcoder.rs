use vstd::prelude::*;

use crate::configs::AudioCodec;
use crate::text::{decimal, from_chars, strings_view, u64_to_chars};

verus! {

/// What ffmpeg is asked to do for one transcoding request.
pub struct FfmpegParameters {
    /// The position to start from, as written on ffmpeg's command line.
    pub seek_time: String,
    /// The URL of the media to read.
    pub url: String,
    pub audio_codec: AudioCodec,
    pub bitrate_kbit: usize,
    pub max_rate_kbit: usize,
    /// The number of bytes the client was promised.
    pub expected_bytes_count: usize,
    pub timeout_in_seconds: usize,
}

impl FfmpegParameters {
    /// The bitrate in bits per second (1 kbit counted as 1024 bits).
    pub fn bitarate(&self) -> (r: usize)
        requires
            self.bitrate_kbit * 1024 <= usize::MAX,
        ensures
            r == self.bitrate_kbit * 1024,
    {
        self.bitrate_kbit * 1024
    }
}

/// The codec name ffmpeg is given for a codec.
pub open spec fn codec_arg(c: AudioCodec) -> Seq<char> {
    match c {
        AudioCodec::MP3 => "libmp3lame"@,
        AudioCodec::Opus => "libopus"@,
        AudioCodec::OGGVorbis => "libvorbis"@,
    }
}

/// The container format ffmpeg is given for a codec.
pub open spec fn format_arg(c: AudioCodec) -> Seq<char> {
    match c {
        AudioCodec::MP3 => "mp3"@,
        AudioCodec::Opus => "webm"@,
        AudioCodec::OGGVorbis => "webm"@,
    }
}

/// The arguments ffmpeg is run with: seek, read the URL over the allowed
/// protocols, encode with the codec at the bitrate (with a buffer of 30 times
/// the bitrate and the given maximum rate), give up after the timeout, log only
/// errors, and write the stream to standard output.
pub open spec fn spec_ffmpeg_args(p: FfmpegParameters) -> Seq<Seq<char>> {
    seq![
        "-ss"@,
        p.seek_time@,
        "-protocol_whitelist"@,
        "file,http,https,tcp,tls"@,
        "-i"@,
        p.url@,
        "-acodec"@,
        codec_arg(p.audio_codec),
        "-ab"@,
        decimal(p.bitrate_kbit as nat) + "k"@,
        "-f"@,
        format_arg(p.audio_codec),
        "-bufsize"@,
        decimal(p.bitrate_kbit as nat * 30),
        "-maxrate"@,
        decimal(p.max_rate_kbit as nat) + "k"@,
        "-timeout"@,
        decimal(p.timeout_in_seconds as nat),
        "-hide_banner"@,
        "-loglevel"@,
        "error"@,
        "-"@,
    ]
}

fn decimal_string(n: usize, suffix: &str) -> (r: String)
    ensures
        r@ == decimal(n as nat) + suffix@,
{
    let mut v = u64_to_chars(n as u64);
    crate::text::push_str(&mut v, suffix);
    from_chars(v.as_slice())
}

/// The program ffmpeg runs as.
pub fn ffmpeg_program() -> (r: &'static str)
    ensures
        r@ == "ffmpeg"@,
{
    "ffmpeg"
}

/// The command-line arguments of ffmpeg (after the program name) for a request.
pub fn get_ffmpeg_command(ffmpeg_paramenters: &FfmpegParameters) -> (r: Vec<String>)
    requires
        ffmpeg_paramenters.bitrate_kbit * 30 <= usize::MAX,
    ensures
        strings_view(r@) == spec_ffmpeg_args(*ffmpeg_paramenters),
{
    let p = ffmpeg_paramenters;
    let mut args: Vec<String> = Vec::new();
    args.push(String::from_str("-ss"));
    args.push(p.seek_time.clone());
    args.push(String::from_str("-protocol_whitelist"));
    args.push(String::from_str("file,http,https,tcp,tls"));
    args.push(String::from_str("-i"));
    args.push(p.url.clone());
    args.push(String::from_str("-acodec"));
    args.push(String::from_str(p.audio_codec.get_ffmpeg_codec_str()));
    args.push(String::from_str("-ab"));
    args.push(decimal_string(p.bitrate_kbit, "k"));
    args.push(String::from_str("-f"));
    args.push(String::from_str(p.audio_codec.get_extension_str()));
    args.push(String::from_str("-bufsize"));
    args.push(decimal_string(p.bitrate_kbit * 30, ""));
    args.push(String::from_str("-maxrate"));
    args.push(decimal_string(p.max_rate_kbit, "k"));
    args.push(String::from_str("-timeout"));
    args.push(decimal_string(p.timeout_in_seconds, ""));
    args.push(String::from_str("-hide_banner"));
    args.push(String::from_str("-loglevel"));
    args.push(String::from_str("error"));
    args.push(String::from_str("-"));
    proof {
        reveal_strlit("");
        assert(decimal(p.bitrate_kbit as nat * 30) + ""@ =~= decimal(p.bitrate_kbit as nat * 30));
        assert(decimal(p.timeout_in_seconds as nat) + ""@ =~= decimal(
            p.timeout_in_seconds as nat,
        ));
        assert(strings_view(args@) =~= spec_ffmpeg_args(*p));
    }
    args
}

/// The size of one read from ffmpeg's output, and of one chunk of padding.
pub const BUFFER_SIZE: usize = 1024;

/// How far the transfer of one transcoded stream has come.
#[derive(Debug, PartialEq, Eq, Structural, Clone, Copy)]
pub struct StreamProgress {
    /// Bytes already handed to the client.
    pub sent_bytes_count: usize,
    /// Bytes the client was promised.
    pub expected_bytes_count: usize,
    /// Interrupted reads so far.
    pub tries: u64,
}

/// The outcome of one read from ffmpeg's standard output.
#[derive(Debug, PartialEq, Eq, Structural, Clone, Copy)]
pub enum StdoutEvent {
    /// This many bytes were read (0: ffmpeg closed its output).
    Read(usize),
    /// The read was interrupted.
    Interrupted,
    /// The read failed otherwise.
    Failed,
}

/// What to do after a read from ffmpeg's standard output.
#[derive(Debug, PartialEq, Eq, Structural, Clone, Copy)]
pub enum StdoutAction {
    /// Send the first `n` bytes read, and keep reading.
    Send(usize),
    /// Send the first `n` bytes read: the promise is fulfilled, so stop ffmpeg.
    SendLast(usize),
    /// ffmpeg is done: send this many zero bytes (in the chunks that
    /// `make_padding` gives), then wait for it.
    Pad(usize),
    /// Pause for a second and read again.
    Retry,
    /// Pass the read error on to the client, pause for a second and read again.
    ReportAndRetry,
    /// Pass the read error on to the client and read again.
    Report,
}

/// The sum of a sequence of sizes.
pub open spec fn sum_sizes(s: Seq<usize>) -> nat
    decreases s.len(),
{
    if s.len() == 0 {
        0
    } else {
        s[0] as nat + sum_sizes(s.drop_first())
    }
}

/// The chunks of zero bytes that pad a stream by `remaining` bytes: full
/// buffers, then what is left.
pub open spec fn padding_chunks(remaining: nat) -> Seq<usize>
    decreases remaining,
{
    if remaining == 0 {
        Seq::empty()
    } else if remaining >= BUFFER_SIZE {
        seq![BUFFER_SIZE].add(padding_chunks((remaining - BUFFER_SIZE) as nat))
    } else {
        seq![remaining as usize]
    }
}

/// Padding adds up to exactly what is missing, in chunks of at most one buffer.
pub proof fn lemma_padding_chunks(remaining: nat)
    requires
        remaining <= usize::MAX,
    ensures
        sum_sizes(padding_chunks(remaining)) == remaining,
        forall|i: int|
            0 <= i < padding_chunks(remaining).len() ==> 0 < #[trigger] padding_chunks(remaining)[i]
                <= BUFFER_SIZE,
    decreases remaining,
{
    if remaining >= BUFFER_SIZE {
        let rest = padding_chunks((remaining - BUFFER_SIZE) as nat);
        lemma_padding_chunks((remaining - BUFFER_SIZE) as nat);
        assert(padding_chunks(remaining) == seq![BUFFER_SIZE] + rest);
        assert((seq![BUFFER_SIZE] + rest).drop_first() =~= rest);
        assert((seq![BUFFER_SIZE] + rest)[0] == BUFFER_SIZE);
        assert(sum_sizes(padding_chunks(remaining)) == BUFFER_SIZE + sum_sizes(rest));
        assert forall|i: int| 0 <= i < padding_chunks(remaining).len() implies 0
            < #[trigger] padding_chunks(remaining)[i] <= BUFFER_SIZE by {
            if i > 0 {
                assert(padding_chunks(remaining)[i] == rest[i - 1]);
            }
        }
    } else if remaining > 0 {
        assert(padding_chunks(remaining) == seq![remaining as usize]);
        assert(seq![remaining as usize].drop_first() =~= Seq::<usize>::empty());
        assert(sum_sizes(Seq::<usize>::empty()) == 0);
        assert(sum_sizes(padding_chunks(remaining)) == remaining + sum_sizes(Seq::<usize>::empty()));
    }
}

/// The chunks of zero bytes that make up `remaining` bytes of padding: full
/// buffers, then what is left. They add up to `remaining`.
pub fn make_padding(remaining: usize) -> (r: Vec<usize>)
    ensures
        r@ == padding_chunks(remaining as nat),
        sum_sizes(r@) == remaining,
{
    let mut r: Vec<usize> = Vec::new();
    let mut left = remaining;
    while left > 0
        invariant
            left <= remaining,
            r@ + padding_chunks(left as nat) == padding_chunks(remaining as nat),
        decreases left,
    {
        let ghost before = r@;
        if left >= BUFFER_SIZE {
            assert(padding_chunks(left as nat) == seq![BUFFER_SIZE] + padding_chunks(
                (left - BUFFER_SIZE) as nat,
            ));
            r.push(BUFFER_SIZE);
            assert(before + padding_chunks(left as nat) =~= r@ + padding_chunks(
                (left - BUFFER_SIZE) as nat,
            ));
            left = left - BUFFER_SIZE;
        } else {
            assert(padding_chunks(left as nat) == seq![left]);
            r.push(left);
            assert(before + padding_chunks(left as nat) =~= r@ + padding_chunks(0));
            left = 0;
        }
    }
    assert(r@ + padding_chunks(0) =~= r@);
    proof {
        lemma_padding_chunks(remaining as nat);
    }
    r
}

/// The bytes an action hands to the client.
pub open spec fn action_bytes(a: StdoutAction) -> nat {
    match a {
        StdoutAction::Send(n) => n as nat,
        StdoutAction::SendLast(n) => n as nat,
        StdoutAction::Pad(n) => n as nat,
        _ => 0,
    }
}

/// The next step of the transfer after a read from ffmpeg: what to do, and the
/// progress once it is done.
///
/// Data beyond the promised size is cut off and ends the transfer; when ffmpeg
/// ends early the rest is padded with zeros; an interrupted read is retried after
/// a pause, and reported once more than ten have happened.
pub open spec fn spec_stdout_step(p: StreamProgress, e: StdoutEvent) -> (StreamProgress, StdoutAction) {
    match e {
        StdoutEvent::Read(n) => if p.sent_bytes_count + n > p.expected_bytes_count {
            (
                StreamProgress { sent_bytes_count: p.expected_bytes_count, ..p },
                StdoutAction::SendLast((p.expected_bytes_count - p.sent_bytes_count) as usize),
            )
        } else if n == 0 {
            (
                StreamProgress { sent_bytes_count: p.expected_bytes_count, ..p },
                StdoutAction::Pad((p.expected_bytes_count - p.sent_bytes_count) as usize),
            )
        } else {
            (
                StreamProgress { sent_bytes_count: (p.sent_bytes_count + n) as usize, ..p },
                StdoutAction::Send(n),
            )
        },
        StdoutEvent::Interrupted => (
            StreamProgress { tries: (p.tries + 1) as u64, ..p },
            if p.tries > 10 {
                StdoutAction::ReportAndRetry
            } else {
                StdoutAction::Retry
            },
        ),
        StdoutEvent::Failed => (p, StdoutAction::Report),
    }
}

/// Decides what to do after a read from ffmpeg's standard output.
///
/// The client never gets more than it was promised, and when the stream ends
/// (ffmpeg stops early, or produces more) it has got exactly that.
pub fn stdout_step(progress: StreamProgress, event: StdoutEvent) -> (r: (StreamProgress, StdoutAction))
    requires
        progress.sent_bytes_count <= progress.expected_bytes_count,
        progress.tries < u64::MAX,
    ensures
        r == spec_stdout_step(progress, event),
        r.0.sent_bytes_count == progress.sent_bytes_count + action_bytes(r.1),
        r.0.sent_bytes_count <= r.0.expected_bytes_count == progress.expected_bytes_count,
        (r.1 is SendLast || r.1 is Pad) ==> r.0.sent_bytes_count == progress.expected_bytes_count,
{
    match event {
        StdoutEvent::Read(n) => {
            if n > progress.expected_bytes_count - progress.sent_bytes_count {
                let remaining = progress.expected_bytes_count - progress.sent_bytes_count;
                (
                    StreamProgress { sent_bytes_count: progress.expected_bytes_count, ..progress },
                    StdoutAction::SendLast(remaining),
                )
            } else if n == 0 {
                let remaining = progress.expected_bytes_count - progress.sent_bytes_count;
                (
                    StreamProgress { sent_bytes_count: progress.expected_bytes_count, ..progress },
                    StdoutAction::Pad(remaining),
                )
            } else {
                (
                    StreamProgress { sent_bytes_count: progress.sent_bytes_count + n, ..progress },
                    StdoutAction::Send(n),
                )
            }
        },
        StdoutEvent::Interrupted => {
            let action = if progress.tries > 10 {
                StdoutAction::ReportAndRetry
            } else {
                StdoutAction::Retry
            };
            (StreamProgress { tries: progress.tries + 1, ..progress }, action)
        },
        StdoutEvent::Failed => (progress, StdoutAction::Report),
    }
}

/// The progress after a run of reads from ffmpeg, and whether the transfer
/// has ended (with a final send or the padding).
pub open spec fn run_stdout(p: StreamProgress, events: Seq<StdoutEvent>) -> (StreamProgress, bool)
    decreases events.len(),
{
    if events.len() == 0 {
        (p, false)
    } else {
        let (q, a) = spec_stdout_step(p, events[0]);
        if a is SendLast || a is Pad {
            (q, true)
        } else {
            run_stdout(q, events.drop_first())
        }
    }
}

/// Whatever ffmpeg does, a client never gets more bytes than it was promised,
/// and once the transfer ends it has got exactly the promised number (cut off
/// when ffmpeg writes more, padded with zeros when it writes less).
pub proof fn law_stream_delivers_promised_bytes(p: StreamProgress, events: Seq<StdoutEvent>)
    requires
        p.sent_bytes_count <= p.expected_bytes_count,
        p.tries as int + events.len() <= u64::MAX,
    ensures
        run_stdout(p, events).0.sent_bytes_count <= p.expected_bytes_count,
        run_stdout(p, events).0.expected_bytes_count == p.expected_bytes_count,
        run_stdout(p, events).1 ==> run_stdout(p, events).0.sent_bytes_count == p.expected_bytes_count,
    decreases events.len(),
{
    if events.len() > 0 {
        let (q, a) = spec_stdout_step(p, events[0]);
        if !(a is SendLast || a is Pad) {
            law_stream_delivers_promised_bytes(q, events.drop_first());
        }
    }
}

/// What an action hands to the client, given the bytes just read: the first
/// `n` of them for a send, `n` zero bytes for padding, nothing otherwise.
pub open spec fn action_output(a: StdoutAction, chunk: Seq<u8>) -> Seq<u8> {
    match a {
        StdoutAction::Send(n) => chunk.take(n as int),
        StdoutAction::SendLast(n) => chunk.take(n as int),
        StdoutAction::Pad(n) => Seq::new(n as nat, |i: int| 0u8),
        _ => Seq::empty(),
    }
}

/// The bytes handed to the client over a run of reads, `chunks[i]` being the
/// bytes of read `i`, up to the end of the transfer.
pub open spec fn run_output(p: StreamProgress, events: Seq<StdoutEvent>, chunks: Seq<Seq<u8>>) -> Seq<u8>
    decreases events.len(),
{
    if events.len() == 0 {
        Seq::empty()
    } else {
        let (q, a) = spec_stdout_step(p, events[0]);
        let o = action_output(a, chunks[0]);
        if a is SendLast || a is Pad {
            o
        } else {
            o + run_output(q, events.drop_first(), chunks.drop_first())
        }
    }
}

/// The bytes ffmpeg wrote over a run of reads, up to the end of the transfer.
pub open spec fn run_read(p: StreamProgress, events: Seq<StdoutEvent>, chunks: Seq<Seq<u8>>) -> Seq<u8>
    decreases events.len(),
{
    if events.len() == 0 {
        Seq::empty()
    } else {
        let (q, a) = spec_stdout_step(p, events[0]);
        let r = if events[0] is Read { chunks[0] } else { Seq::<u8>::empty() };
        if a is SendLast || a is Pad {
            r
        } else {
            r + run_read(q, events.drop_first(), chunks.drop_first())
        }
    }
}

/// `bytes` brought to exactly `k` bytes: cut, or padded with zeros.
pub open spec fn fit_to(bytes: Seq<u8>, k: nat) -> Seq<u8> {
    if bytes.len() >= k {
        bytes.take(k as int)
    } else {
        bytes + Seq::new((k - bytes.len()) as nat, |i: int| 0u8)
    }
}

/// Once a transfer ends, the client has got what ffmpeg wrote, cut to the
/// promised size when it wrote more, padded with zeros when it wrote less.
pub proof fn law_stream_content(p: StreamProgress, events: Seq<StdoutEvent>, chunks: Seq<Seq<u8>>)
    requires
        p.sent_bytes_count <= p.expected_bytes_count,
        chunks.len() == events.len(),
        forall|i: int| 0 <= i < events.len() ==> (#[trigger] events[i] matches StdoutEvent::Read(n) ==> chunks[i].len() == n),
        run_stdout(p, events).1,
    ensures
        run_output(p, events, chunks) == fit_to(run_read(p, events, chunks), (p.expected_bytes_count - p.sent_bytes_count) as nat),
    decreases events.len(),
{
    let k = (p.expected_bytes_count - p.sent_bytes_count) as nat;
    let (q, a) = spec_stdout_step(p, events[0]);
    let c = chunks[0];
    assert(events[0] matches StdoutEvent::Read(n) ==> c.len() == n);
    if a is SendLast || a is Pad {
        if a is Pad {
            assert(c.len() == 0);
            assert(c + Seq::new(k, |i: int| 0u8) =~= Seq::new(k, |i: int| 0u8));
        }
    } else {
        let evs = events.drop_first();
        let chs = chunks.drop_first();
        assert forall|i: int| 0 <= i < evs.len() implies (#[trigger] evs[i] matches StdoutEvent::Read(n) ==> chs[i].len() == n) by {
            assert(evs[i] == events[i + 1]);
        }
        law_stream_content(q, evs, chs);
        let rest_out = run_output(q, evs, chs);
        let rest_read = run_read(q, evs, chs);
        let k2 = (q.expected_bytes_count - q.sent_bytes_count) as nat;
        if events[0] is Read {
            let n = c.len();
            assert(k2 == k - n);
            assert(c.take(n as int) =~= c);
            if rest_read.len() >= k2 {
                assert(c + rest_read.take(k2 as int) =~= (c + rest_read).take(k as int));
            } else {
                assert(c + (rest_read + Seq::new((k2 - rest_read.len()) as nat, |i: int| 0u8))
                    =~= (c + rest_read) + Seq::new((k - (c + rest_read).len()) as nat, |i: int| 0u8));
            }
        } else {
            assert(Seq::<u8>::empty() + rest_out =~= rest_out);
            assert(Seq::<u8>::empty() + rest_read =~= rest_read);
        }
    }
}

} // verus!
