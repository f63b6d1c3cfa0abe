//! Reading the media description that ffprobe reports: the container
//! format, the file size and the first audio and video streams.  Decoding
//! the JSON, and the fractional duration and frame rate, are done by the
//! caller.

use vstd::prelude::*;

use crate::text::{
    before_char, copy_opt_string, opt_view, parse_unsigned, parsed_unsigned, prefix_before, str_eq,
};

verus! {

/// The `format` section of ffprobe's report.
#[derive(Debug, Clone)]
pub struct ProbeFormat {
    /// File name.
    pub filename: String,
    /// Comma-separated names of the container format.
    pub format_name: String,
    /// Duration in seconds, as text.
    pub duration: Option<String>,
    /// Size in bytes, as text.
    pub size: Option<String>,
}

/// One stream of ffprobe's report.
#[derive(Debug, Clone)]
pub struct ProbeStream {
    /// "audio", "video", "subtitle", ...
    pub codec_type: String,
    /// Codec name.
    pub codec_name: Option<String>,
    /// Bitrate in bits per second, as text.
    pub bit_rate: Option<String>,
    /// Sample rate in Hz, as text.
    pub sample_rate: Option<String>,
    /// Audio channels.
    pub channels: Option<u8>,
    /// Video width.
    pub width: Option<u32>,
    /// Video height.
    pub height: Option<u32>,
    /// Frame rate as a fraction ("24000/1001") or number, as text.
    pub r_frame_rate: Option<String>,
}

/// ffprobe's report.
#[derive(Debug, Clone)]
pub struct ProbeOutput {
    /// Container section.
    pub format: ProbeFormat,
    /// Streams.
    pub streams: Vec<ProbeStream>,
}

/// What the library reads from a probe report.
#[derive(Debug, Clone)]
pub struct ProbeSummary {
    /// File path.
    pub path: String,
    /// File size in bytes (0 when not reported).
    pub size_bytes: u64,
    /// Container format (the first of its names).
    pub format: String,
    /// Audio codec.
    pub audio_codec: Option<String>,
    /// Audio bitrate in kbps.
    pub audio_bitrate_kbps: Option<u32>,
    /// Audio sample rate in Hz.
    pub audio_sample_rate: Option<u32>,
    /// Audio channels.
    pub audio_channels: Option<u8>,
    /// Video codec.
    pub video_codec: Option<String>,
    /// Video width.
    pub video_width: Option<u32>,
    /// Video height.
    pub video_height: Option<u32>,
}

/// Index of the first stream of the given kind.
pub open spec fn first_stream(streams: Seq<ProbeStream>, kind: Seq<char>) -> Option<int>
    decreases streams.len(),
{
    if streams.len() == 0 {
        None
    } else if streams[0].codec_type@ == kind {
        Some(0)
    } else {
        match first_stream(streams.drop_first(), kind) {
            Some(i) => Some(i + 1),
            None => None,
        }
    }
}

/// A number from optional text, when the text parses.
pub open spec fn parsed_field(t: Option<String>, max: nat) -> Option<nat> {
    match t {
        Some(s) => parsed_unsigned(s@, max),
        None => None,
    }
}

/// The first stream of `kind`, as a stream.
pub open spec fn stream_of(streams: Seq<ProbeStream>, kind: Seq<char>) -> Option<ProbeStream> {
    match first_stream(streams, kind) {
        Some(i) => Some(streams[i]),
        None => None,
    }
}

/// `s` is the summary of report `p` for the file at `path`: size 0 when
/// missing or unreadable, the first format name, and the fields of the
/// first audio and first video stream (a bitrate in kbps, rounded down).
pub open spec fn summarizes(s: ProbeSummary, path: Seq<char>, p: ProbeOutput) -> bool {
    let audio = stream_of(p.streams@, "audio"@);
    let video = stream_of(p.streams@, "video"@);
    &&& s.path@ == path
    &&& s.size_bytes as nat == match parsed_field(p.format.size, u64::MAX as nat) {
        Some(n) => n,
        None => 0,
    }
    &&& s.format@ == before_char(p.format.format_name@, ',')
    &&& opt_view(s.audio_codec) == match audio {
        Some(a) => opt_view(a.codec_name),
        None => None,
    }
    &&& s.audio_bitrate_kbps == match audio {
        Some(a) => match parsed_field(a.bit_rate, u32::MAX as nat) {
            Some(b) => Some((b / 1000) as u32),
            None => None,
        },
        None => None,
    }
    &&& s.audio_sample_rate == match audio {
        Some(a) => match parsed_field(a.sample_rate, u32::MAX as nat) {
            Some(r) => Some(r as u32),
            None => None,
        },
        None => None,
    }
    &&& s.audio_channels == match audio {
        Some(a) => a.channels,
        None => None,
    }
    &&& opt_view(s.video_codec) == match video {
        Some(v) => opt_view(v.codec_name),
        None => None,
    }
    &&& s.video_width == match video {
        Some(v) => v.width,
        None => None,
    }
    &&& s.video_height == match video {
        Some(v) => v.height,
        None => None,
    }
}

/// Index of the first stream of the given kind.
fn find_stream(streams: &Vec<ProbeStream>, kind: &str) -> (r: Option<usize>)
    ensures
        match r {
            Some(i) => first_stream(streams@, kind@) == Some(i as int) && i < streams@.len(),
            None => first_stream(streams@, kind@) is None,
        },
{
    let mut i: usize = 0;
    assert(streams@.skip(0) =~= streams@);
    while i < streams.len()
        invariant
            i <= streams@.len(),
            first_stream(streams@, kind@) == match first_stream(streams@.skip(i as int), kind@) {
                Some(j) => Some(j + i),
                None => None,
            },
        decreases streams@.len() - i,
    {
        assert(streams@.skip(i as int).drop_first() =~= streams@.skip(i as int + 1));
        if str_eq(streams[i].codec_type.as_str(), kind) {
            return Some(i);
        }
        i += 1;
    }
    None
}

/// A number from optional text, when the text parses.
fn parse_field(t: &Option<String>, max: u64) -> (r: Option<u64>)
    ensures
        match r {
            Some(v) => parsed_field(*t, max as nat) == Some(v as nat),
            None => parsed_field(*t, max as nat) is None,
        },
{
    match t {
        Some(s) => parse_unsigned(s.as_str(), max),
        None => None,
    }
}

/// Summarizes the probe report of the file at `path`.
pub fn summarize_probe(path: &str, probe: &ProbeOutput) -> (s: ProbeSummary)
    ensures
        summarizes(s, path@, *probe),
{
    let size_bytes: u64 = match parse_field(&probe.format.size, u64::MAX) {
        Some(n) => n,
        None => 0,
    };
    let audio_idx = find_stream(&probe.streams, "audio");
    let video_idx = find_stream(&probe.streams, "video");
    proof {
        reveal_strlit("audio");
        reveal_strlit("video");
    }
    let mut audio_codec: Option<String> = None;
    let mut audio_bitrate_kbps: Option<u32> = None;
    let mut audio_sample_rate: Option<u32> = None;
    let mut audio_channels: Option<u8> = None;
    if let Some(i) = audio_idx {
        let a = &probe.streams[i];
        audio_codec = copy_opt_string(&a.codec_name);
        audio_bitrate_kbps = match parse_field(&a.bit_rate, u32::MAX as u64) {
            Some(b) => Some((b / 1000) as u32),
            None => None,
        };
        audio_sample_rate = match parse_field(&a.sample_rate, u32::MAX as u64) {
            Some(r) => Some(r as u32),
            None => None,
        };
        audio_channels = a.channels;
    }
    let mut video_codec: Option<String> = None;
    let mut video_width: Option<u32> = None;
    let mut video_height: Option<u32> = None;
    if let Some(i) = video_idx {
        let v = &probe.streams[i];
        video_codec = copy_opt_string(&v.codec_name);
        video_width = v.width;
        video_height = v.height;
    }
    ProbeSummary {
        path: path.to_owned(),
        size_bytes,
        format: prefix_before(probe.format.format_name.as_str(), ','),
        audio_codec,
        audio_bitrate_kbps,
        audio_sample_rate,
        audio_channels,
        video_codec,
        video_width,
        video_height,
    }
}

} // verus!
