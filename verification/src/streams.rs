use vstd::prelude::*;

verus! {

/// A media stream: its duration in seconds and the URL it is read from.
pub struct Streams<'a> {
    duratiion_s: i32,
    stream_url: &'a str,
}

impl<'a> Streams<'a> {
    /// The duration, in seconds.
    pub closed spec fn spec_duration(&self) -> i32 {
        self.duratiion_s
    }

    /// The URL of the stream.
    pub closed spec fn spec_url(&self) -> Seq<char> {
        self.stream_url@
    }

    pub fn new(duratiion_s: i32, stream_url: &'a str) -> (r: Self)
        ensures
            r.spec_duration() == duratiion_s,
            r.spec_url() == stream_url@,
    {
        Self { duratiion_s, stream_url }
    }

    pub fn duratiion_s(&self) -> (r: i32)
        ensures
            r == self.spec_duration(),
    {
        self.duratiion_s
    }

    pub fn stream_url(&self) -> (r: &str)
        ensures
            r@ == self.spec_url(),
    {
        self.stream_url
    }

    /// The byte length of the stream at `bitrate` bytes per second: the duration
    /// times the bitrate (computed in `i32`, so the product must fit in one).
    pub fn total_byte_len(&self, bitrate: i32) -> (r: i64)
        requires
            i32::MIN <= self.spec_duration() * bitrate <= i32::MAX,
        ensures
            r == self.spec_duration() * bitrate,
    {
        (self.duratiion_s * bitrate) as i64
    }
}

} // verus!
