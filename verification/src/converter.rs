//! Media formats, conversion settings and the ffmpeg argument lists built
//! from them.

use vstd::prelude::*;

use crate::pattern::{compile_pattern, regex_compiles, regex_first_group};
use crate::text::{
    concat2, concat3, copy_string, decimal, decimal_string, extend_strings, opt_view, push_str,
    push_string, seq_contains, str_contains, views,
};

verus! {

/// Audio format specification.
#[derive(Debug, Clone, Copy, PartialEq, Eq, Structural)]
pub enum AudioFormat {
    /// Free Lossless Audio Codec (lossless)
    Flac,
    /// MPEG Audio Layer III
    Mp3,
    /// Advanced Audio Coding
    Aac,
    /// Ogg Vorbis
    OggVorbis,
    /// Opus
    Opus,
    /// WAVE (uncompressed)
    Wav,
    /// Apple Lossless
    Alac,
}

/// File extension of an audio format.
pub open spec fn audio_extension(f: AudioFormat) -> Seq<char> {
    match f {
        AudioFormat::Flac => "flac"@,
        AudioFormat::Mp3 => "mp3"@,
        AudioFormat::Aac => "m4a"@,
        AudioFormat::OggVorbis => "ogg"@,
        AudioFormat::Opus => "opus"@,
        AudioFormat::Wav => "wav"@,
        AudioFormat::Alac => "m4a"@,
    }
}

/// ffmpeg encoder name of an audio format.
pub open spec fn audio_codec(f: AudioFormat) -> Seq<char> {
    match f {
        AudioFormat::Flac => "flac"@,
        AudioFormat::Mp3 => "libmp3lame"@,
        AudioFormat::Aac => "aac"@,
        AudioFormat::OggVorbis => "libvorbis"@,
        AudioFormat::Opus => "libopus"@,
        AudioFormat::Wav => "pcm_s16le"@,
        AudioFormat::Alac => "alac"@,
    }
}

/// Lossless audio formats.
pub open spec fn audio_lossless(f: AudioFormat) -> bool {
    f == AudioFormat::Flac || f == AudioFormat::Wav || f == AudioFormat::Alac
}

impl AudioFormat {
    /// Returns the file extension for this format.
    pub fn extension(&self) -> (e: &'static str)
        ensures
            e@ == audio_extension(*self),
    {
        match self {
            AudioFormat::Flac => "flac",
            AudioFormat::Mp3 => "mp3",
            AudioFormat::Aac => "m4a",
            AudioFormat::OggVorbis => "ogg",
            AudioFormat::Opus => "opus",
            AudioFormat::Wav => "wav",
            AudioFormat::Alac => "m4a",
        }
    }

    /// Returns the ffmpeg codec name for this format.
    pub fn ffmpeg_codec(&self) -> (c: &'static str)
        ensures
            c@ == audio_codec(*self),
    {
        match self {
            AudioFormat::Flac => "flac",
            AudioFormat::Mp3 => "libmp3lame",
            AudioFormat::Aac => "aac",
            AudioFormat::OggVorbis => "libvorbis",
            AudioFormat::Opus => "libopus",
            AudioFormat::Wav => "pcm_s16le",
            AudioFormat::Alac => "alac",
        }
    }

    /// Whether this format is lossless.
    pub fn is_lossless(&self) -> (b: bool)
        ensures
            b == audio_lossless(*self),
    {
        match self {
            AudioFormat::Flac | AudioFormat::Wav | AudioFormat::Alac => true,
            _ => false,
        }
    }
}

/// Video codec specification, including the NVIDIA hardware encoders.
#[derive(Debug, Clone, Copy, PartialEq, Eq, Structural)]
pub enum VideoFormat {
    /// H.264 / AVC
    H264,
    /// H.265 / HEVC
    H265,
    /// VP9
    Vp9,
    /// AV1
    Av1,
    /// Copy (no re-encoding)
    Copy,
    /// H.264 on NVENC
    H264Nvenc,
    /// H.265 on NVENC
    H265Nvenc,
    /// AV1 on NVENC
    Av1Nvenc,
}

/// ffmpeg encoder name of a video format.
pub open spec fn video_codec(f: VideoFormat) -> Seq<char> {
    match f {
        VideoFormat::H264 => "libx264"@,
        VideoFormat::H265 => "libx265"@,
        VideoFormat::Vp9 => "libvpx-vp9"@,
        VideoFormat::Av1 => "libaom-av1"@,
        VideoFormat::Copy => "copy"@,
        VideoFormat::H264Nvenc => "h264_nvenc"@,
        VideoFormat::H265Nvenc => "hevc_nvenc"@,
        VideoFormat::Av1Nvenc => "av1_nvenc"@,
    }
}

impl VideoFormat {
    /// Returns the ffmpeg codec name for this format.
    pub fn ffmpeg_codec(&self) -> (c: &'static str)
        ensures
            c@ == video_codec(*self),
    {
        match self {
            VideoFormat::H264 => "libx264",
            VideoFormat::H265 => "libx265",
            VideoFormat::Vp9 => "libvpx-vp9",
            VideoFormat::Av1 => "libaom-av1",
            VideoFormat::Copy => "copy",
            VideoFormat::H264Nvenc => "h264_nvenc",
            VideoFormat::H265Nvenc => "hevc_nvenc",
            VideoFormat::Av1Nvenc => "av1_nvenc",
        }
    }
}

/// Container format for output files.
#[derive(Debug, Clone, Copy, PartialEq, Eq, Structural)]
pub enum ContainerFormat {
    /// Matroska (.mkv)
    Mkv,
    /// MPEG-4 Part 14 (.mp4)
    Mp4,
    /// WebM
    Webm,
    /// Audio only (extension taken from the audio format)
    AudioOnly,
}

/// File extension of a container, given the audio format of audio-only output.
pub open spec fn container_extension(c: ContainerFormat, audio: Option<AudioFormat>) -> Seq<char> {
    match c {
        ContainerFormat::Mkv => "mkv"@,
        ContainerFormat::Mp4 => "mp4"@,
        ContainerFormat::Webm => "webm"@,
        ContainerFormat::AudioOnly => match audio {
            Some(f) => audio_extension(f),
            None => "audio"@,
        },
    }
}

impl ContainerFormat {
    /// Returns the file extension for this container.
    pub fn extension(&self, audio_format: Option<&AudioFormat>) -> (e: &'static str)
        ensures
            e@ == container_extension(
                *self,
                match audio_format {
                    Some(f) => Some(*f),
                    None => None,
                },
            ),
    {
        match self {
            ContainerFormat::Mkv => "mkv",
            ContainerFormat::Mp4 => "mp4",
            ContainerFormat::Webm => "webm",
            ContainerFormat::AudioOnly => match audio_format {
                Some(f) => f.extension(),
                None => "audio",
            },
        }
    }
}

/// Constraints for audio conversion.
#[derive(Debug, Clone, PartialEq, Eq, Structural)]
pub struct AudioConstraints {
    /// Target audio format.
    pub format: AudioFormat,
    /// Target bitrate in kbps (for lossy formats).
    pub bitrate_kbps: Option<u32>,
    /// Target sample rate in Hz.
    pub sample_rate_hz: Option<u32>,
    /// Number of audio channels.
    pub channels: Option<u8>,
    /// Compression level for lossless formats.
    pub compression_level: Option<u8>,
}

impl Default for AudioConstraints {
    /// Ogg Vorbis at 320 kbps, other settings kept from the source.
    fn default() -> (c: Self)
        ensures
            c.format == AudioFormat::OggVorbis,
            c.bitrate_kbps == Some(320u32),
            c.sample_rate_hz is None,
            c.channels is None,
            c.compression_level is None,
    {
        AudioConstraints {
            format: AudioFormat::OggVorbis,
            bitrate_kbps: Some(320),
            sample_rate_hz: None,
            channels: None,
            compression_level: None,
        }
    }
}


/// Constraints for video conversion.  The frame rate is carried as the
/// text ffmpeg receives (the decimal form of the configured number).
#[derive(Debug, Clone)]
pub struct VideoConstraints {
    /// Target video codec.
    pub format: VideoFormat,
    /// Target container.
    pub container: ContainerFormat,
    /// Constant rate factor (quality, lower is better).
    pub crf: Option<u8>,
    /// Target video bitrate in kbps (used when no CRF is set).
    pub bitrate_kbps: Option<u32>,
    /// Maximum width (height scaled proportionally).
    pub max_width: Option<u32>,
    /// Maximum height (width scaled proportionally).
    pub max_height: Option<u32>,
    /// Target frame rate, as text.
    pub fps: Option<String>,
    /// Audio track constraints.
    pub audio: Option<AudioConstraints>,
}

impl Default for VideoConstraints {
    /// H.264 in MP4 at CRF 23, with 192 kbps AAC audio.
    fn default() -> (c: Self)
        ensures
            c.format == VideoFormat::H264,
            c.container == ContainerFormat::Mp4,
            c.crf == Some(23u8),
            c.bitrate_kbps is None,
            c.max_width is None,
            c.max_height is None,
            c.fps is None,
            c.audio == Some(
                AudioConstraints {
                    format: AudioFormat::Aac,
                    bitrate_kbps: Some(192u32),
                    sample_rate_hz: None,
                    channels: None,
                    compression_level: None,
                },
            ),
    {
        VideoConstraints {
            format: VideoFormat::H264,
            container: ContainerFormat::Mp4,
            crf: Some(23),
            bitrate_kbps: None,
            max_width: None,
            max_height: None,
            fps: None,
            audio: Some(
                AudioConstraints {
                    format: AudioFormat::Aac,
                    bitrate_kbps: Some(192),
                    sample_rate_hz: None,
                    channels: None,
                    compression_level: None,
                },
            ),
        }
    }
}

/// Constraints of a conversion.
#[derive(Debug, Clone)]
pub enum ConversionConstraints {
    /// Audio-only conversion.
    Audio(AudioConstraints),
    /// Video conversion (with its audio track).
    Video(VideoConstraints),
}

impl Default for ConversionConstraints {
    /// An audio conversion with the default audio constraints.
    fn default() -> (c: Self)
        ensures
            c matches ConversionConstraints::Audio(a) && a.format == AudioFormat::OggVorbis
                && a.bitrate_kbps == Some(320u32) && a.sample_rate_hz is None && a.channels is None
                && a.compression_level is None,
    {
        ConversionConstraints::Audio(AudioConstraints::default())
    }
}

/// The extension of the file a conversion writes.
pub open spec fn output_extension_of(c: ConversionConstraints) -> Seq<char> {
    match c {
        ConversionConstraints::Audio(a) => audio_extension(a.format),
        ConversionConstraints::Video(v) => container_extension(
            v.container,
            match v.audio {
                Some(a) => Some(a.format),
                None => None,
            },
        ),
    }
}

impl ConversionConstraints {
    /// The extension of the file a conversion writes: the audio format's
    /// for audio, the container's for video.
    pub fn output_extension(&self) -> (e: &'static str)
        ensures
            e@ == output_extension_of(*self),
    {
        match self {
            ConversionConstraints::Audio(a) => a.format.extension(),
            ConversionConstraints::Video(v) => match &v.audio {
                Some(a) => v.container.extension(Some(&a.format)),
                None => v.container.extension(None),
            },
        }
    }
}

/// Metadata to embed in the output file.
#[derive(Debug, Clone, Default)]
pub struct EmbeddedMetadata {
    /// Track/content title.
    pub title: Option<String>,
    /// Artist/creator.
    pub artist: Option<String>,
    /// Album name.
    pub album: Option<String>,
    /// Album artist.
    pub album_artist: Option<String>,
    /// Release year.
    pub year: Option<u16>,
    /// Track number.
    pub track_number: Option<u16>,
    /// Total tracks in album.
    pub track_total: Option<u16>,
    /// Disc number.
    pub disc_number: Option<u16>,
    /// Total discs.
    pub disc_total: Option<u16>,
    /// Genre.
    pub genre: Option<String>,
    /// Comment.
    pub comment: Option<String>,
    /// Additional metadata fields, as (key, value) pairs in insertion order.
    pub extra: Vec<(String, String)>,
}

/// `-metadata key=value` for a present text field.
pub open spec fn text_entry(key: Seq<char>, v: Option<String>) -> Seq<Seq<char>> {
    match v {
        Some(s) => seq!["-metadata"@, key + s@],
        None => seq![],
    }
}

/// `-metadata key=n` or `-metadata key=n/total` for a present number.
pub open spec fn numbered_entry(key: Seq<char>, n: Option<u16>, total: Option<u16>) -> Seq<Seq<char>> {
    match n {
        Some(a) => match total {
            Some(t) => seq!["-metadata"@, key + decimal(a as nat) + "/"@ + decimal(t as nat)],
            None => seq!["-metadata"@, key + decimal(a as nat)],
        },
        None => seq![],
    }
}

/// `-metadata key=value` for each extra pair, in order.
pub open spec fn extra_entries(extra: Seq<(String, String)>) -> Seq<Seq<char>>
    decreases extra.len(),
{
    if extra.len() == 0 {
        seq![]
    } else {
        extra_entries(extra.drop_last()) + seq!["-metadata"@, extra.last().0@ + "="@ + extra.last().1@]
    }
}

/// The ffmpeg metadata arguments for `m`.
pub open spec fn metadata_args(m: EmbeddedMetadata) -> Seq<Seq<char>> {
    text_entry("title="@, m.title) + text_entry("artist="@, m.artist) + text_entry("album="@, m.album)
        + text_entry("album_artist="@, m.album_artist) + match m.year {
        Some(y) => seq!["-metadata"@, "date="@ + decimal(y as nat)],
        None => seq![],
    } + numbered_entry("track="@, m.track_number, m.track_total) + numbered_entry(
        "disc="@,
        m.disc_number,
        m.disc_total,
    ) + text_entry("genre="@, m.genre) + text_entry("comment="@, m.comment) + extra_entries(m.extra@)
}

fn push_text_entry(args: &mut Vec<String>, key: &str, v: &Option<String>)
    ensures
        views(final(args)@) == views(old(args)@) + text_entry(key@, *v),
{
    match v {
        Some(s) => {
            push_str(args, "-metadata");
            push_string(args, concat2(key, s.as_str()));
        },
        None => {},
    }
    assert(views(args@) =~= views(old(args)@) + text_entry(key@, *v));
}

fn push_numbered_entry(args: &mut Vec<String>, key: &str, n: Option<u16>, total: Option<u16>)
    ensures
        views(final(args)@) == views(old(args)@) + numbered_entry(key@, n, total),
{
    match n {
        Some(a) => {
            push_str(args, "-metadata");
            let a_s = decimal_string(a as u64);
            match total {
                Some(t) => {
                    let t_s = decimal_string(t as u64);
                    let mut e = concat3(key, a_s.as_str(), "/");
                    e.append(t_s.as_str());
                    push_string(args, e);
                },
                None => {
                    push_string(args, concat2(key, a_s.as_str()));
                },
            }
        },
        None => {},
    }
    assert(views(args@) =~= views(old(args)@) + numbered_entry(key@, n, total));
}

impl EmbeddedMetadata {
    /// Convert to ffmpeg metadata arguments.
    pub fn to_ffmpeg_args(&self) -> (args: Vec<String>)
        ensures
            views(args@) == metadata_args(*self),
    {
        let mut args: Vec<String> = Vec::new();
        push_text_entry(&mut args, "title=", &self.title);
        push_text_entry(&mut args, "artist=", &self.artist);
        push_text_entry(&mut args, "album=", &self.album);
        push_text_entry(&mut args, "album_artist=", &self.album_artist);
        let ghost before_year = views(args@);
        match self.year {
            Some(y) => {
                push_str(&mut args, "-metadata");
                let y_s = decimal_string(y as u64);
                push_string(&mut args, concat2("date=", y_s.as_str()));
            },
            None => {},
        }
        push_numbered_entry(&mut args, "track=", self.track_number, self.track_total);
        push_numbered_entry(&mut args, "disc=", self.disc_number, self.disc_total);
        push_text_entry(&mut args, "genre=", &self.genre);
        push_text_entry(&mut args, "comment=", &self.comment);
        let ghost before_extra = views(args@);
        let mut i: usize = 0;
        while i < self.extra.len()
            invariant
                i <= self.extra@.len(),
                views(args@) == before_extra + extra_entries(self.extra@.take(i as int)),
            decreases self.extra.len() - i,
        {
            let (k, v) = &self.extra[i];
            push_str(&mut args, "-metadata");
            push_string(&mut args, concat3(k.as_str(), "=", v.as_str()));
            assert(self.extra@.take(i as int + 1).drop_last() =~= self.extra@.take(i as int));
            i += 1;
        }
        assert(self.extra@.take(self.extra@.len() as int) =~= self.extra@);
        assert(views(args@) =~= metadata_args(*self));
        args
    }
}


/// `root` joined with the component `name` using `/`, the way `Path::join`
/// does on Unix: an absolute `name` replaces `root`.
pub open spec fn path_join(root: Seq<char>, name: Seq<char>) -> Seq<char> {
    if name.len() > 0 && name[0] == '/' {
        name
    } else if root.len() == 0 {
        name
    } else if root.last() == '/' {
        root + name
    } else {
        root + "/"@ + name
    }
}

/// Joins a directory and a path component.
pub fn join_path(root: &str, name: &str) -> (p: String)
    ensures
        p@ == path_join(root@, name@),
{
    let rv = crate::text::chars_of(root);
    let nv = crate::text::chars_of(name);
    if nv.len() > 0 && nv[0] == '/' {
        name.to_owned()
    } else if rv.len() == 0 {
        name.to_owned()
    } else if rv[rv.len() - 1] == '/' {
        concat2(root, name)
    } else {
        concat3(root, "/", name)
    }
}

/// Configuration for the ffmpeg-based converter. Paths are kept as text.
#[derive(Debug, Clone)]
pub struct ConverterConfig {
    /// Path to the ffmpeg binary.
    pub ffmpeg_path: String,
    /// Path to the ffprobe binary.
    pub ffprobe_path: String,
    /// Temporary directory for intermediate files.
    pub temp_dir: String,
    /// Maximum parallel conversions.
    pub max_parallel_conversions: usize,
    /// Timeout for a single conversion job in seconds.
    pub timeout_secs: u64,
    /// Whether to preserve original files after conversion.
    pub preserve_originals: bool,
    /// ffmpeg log level.
    pub ffmpeg_log_level: String,
    /// Additional global ffmpeg arguments.
    pub extra_ffmpeg_args: Vec<String>,
}

/// The default settings, with the working directory `quentin-converter`
/// inside the system temporary directory `temp_root`.
pub open spec fn default_converter_config(c: ConverterConfig, temp_root: Seq<char>) -> bool {
    &&& c.ffmpeg_path@ == "ffmpeg"@
    &&& c.ffprobe_path@ == "ffprobe"@
    &&& default_converter_settings(c, temp_root)
}

/// The default settings other than the two binary paths.
pub open spec fn default_converter_settings(c: ConverterConfig, temp_root: Seq<char>) -> bool {
    &&& c.temp_dir@ == path_join(temp_root, "quentin-converter"@)
    &&& c.max_parallel_conversions == 4
    &&& c.timeout_secs == 3600
    &&& !c.preserve_originals
    &&& c.ffmpeg_log_level@ == "warning"@
    &&& c.extra_ffmpeg_args@.len() == 0
}

impl ConverterConfig {
    /// The default configuration; `temp_root` is the system temporary directory.
    pub fn default_in(temp_root: &str) -> (c: Self)
        ensures
            default_converter_config(c, temp_root@),
    {
        ConverterConfig {
            ffmpeg_path: "ffmpeg".to_owned(),
            ffprobe_path: "ffprobe".to_owned(),
            temp_dir: join_path(temp_root, "quentin-converter"),
            max_parallel_conversions: 4,
            timeout_secs: 3600,
            preserve_originals: false,
            ffmpeg_log_level: "warning".to_owned(),
            extra_ffmpeg_args: Vec::new(),
        }
    }

    /// Creates a new config with custom ffmpeg/ffprobe paths and defaults otherwise;
    /// `temp_root` is the system temporary directory.
    pub fn with_paths(ffmpeg_path: String, ffprobe_path: String, temp_root: &str) -> (c: Self)
        ensures
            c.ffmpeg_path == ffmpeg_path,
            c.ffprobe_path == ffprobe_path,
            default_converter_settings(c, temp_root@),
    {
        let d = Self::default_in(temp_root);
        ConverterConfig { ffmpeg_path, ffprobe_path, ..d }
    }

    /// Sets the temp directory.
    pub fn with_temp_dir(self, temp_dir: String) -> (c: Self)
        ensures
            c == (ConverterConfig { temp_dir, ..self }),
    {
        ConverterConfig { temp_dir, ..self }
    }

    /// Sets the maximum parallel conversions.
    pub fn with_max_parallel(self, max: usize) -> (c: Self)
        ensures
            c == (ConverterConfig { max_parallel_conversions: max, ..self }),
    {
        ConverterConfig { max_parallel_conversions: max, ..self }
    }

    /// Sets the timeout in seconds.
    pub fn with_timeout(self, timeout_secs: u64) -> (c: Self)
        ensures
            c == (ConverterConfig { timeout_secs, ..self }),
    {
        ConverterConfig { timeout_secs, ..self }
    }
}

/// Errors that can occur during conversion. Paths are kept as text.
#[derive(Debug)]
pub enum ConverterError {
    /// FFmpeg binary not found.
    FfmpegNotFound { path: String },
    /// FFprobe binary not found.
    FfprobeNotFound { path: String },
    /// Input file not found.
    InputNotFound { path: String },
    /// Input file is not a supported format.
    UnsupportedInputFormat { format: String },
    /// Output directory does not exist and could not be created.
    OutputDirectoryFailed { path: String },
    /// Conversion process failed.
    ConversionFailed { reason: String, stderr: Option<String> },
    /// Conversion timed out.
    Timeout { timeout_secs: u64 },
    /// Failed to probe media file.
    ProbeFailed { reason: String },
    /// Invalid conversion constraints.
    InvalidConstraints { reason: String },
    /// Cover art embedding failed.
    CoverArtFailed { reason: String },
    /// I/O error during conversion.
    Io(std::io::Error),
    /// Failed to parse ffprobe output.
    ParseError { reason: String },
    /// Job was cancelled.
    Cancelled,
}

/// The message of a converter error; the I/O variant's message comes from
/// the operating system and is not composed here.
pub open spec fn converter_error_message(e: ConverterError) -> Option<Seq<char>> {
    match e {
        ConverterError::FfmpegNotFound { path } => Some("FFmpeg not found at path: "@ + path@),
        ConverterError::FfprobeNotFound { path } => Some("FFprobe not found at path: "@ + path@),
        ConverterError::InputNotFound { path } => Some("Input file not found: "@ + path@),
        ConverterError::UnsupportedInputFormat { format } => Some("Unsupported input format: "@ + format@),
        ConverterError::OutputDirectoryFailed { path } => Some(
            "Failed to create output directory: "@ + path@,
        ),
        ConverterError::ConversionFailed { reason, .. } => Some("Conversion failed: "@ + reason@),
        ConverterError::Timeout { timeout_secs } => Some(
            "Conversion timed out after "@ + decimal(timeout_secs as nat) + " seconds"@,
        ),
        ConverterError::ProbeFailed { reason } => Some("Failed to probe media file: "@ + reason@),
        ConverterError::InvalidConstraints { reason } => Some("Invalid constraints: "@ + reason@),
        ConverterError::CoverArtFailed { reason } => Some("Failed to embed cover art: "@ + reason@),
        ConverterError::Io(_) => None,
        ConverterError::ParseError { reason } => Some("Failed to parse media info: "@ + reason@),
        ConverterError::Cancelled => Some("Conversion cancelled"@),
    }
}

impl ConverterError {
    /// The error message, for the variants whose message is made of their
    /// own fields.
    pub fn message(&self) -> (m: Option<String>)
        ensures
            opt_view(m) == converter_error_message(*self),
    {
        match self {
            ConverterError::FfmpegNotFound { path } => Some(concat2("FFmpeg not found at path: ", path.as_str())),
            ConverterError::FfprobeNotFound { path } => Some(concat2("FFprobe not found at path: ", path.as_str())),
            ConverterError::InputNotFound { path } => Some(concat2("Input file not found: ", path.as_str())),
            ConverterError::UnsupportedInputFormat { format } => Some(
                concat2("Unsupported input format: ", format.as_str()),
            ),
            ConverterError::OutputDirectoryFailed { path } => Some(
                concat2("Failed to create output directory: ", path.as_str()),
            ),
            ConverterError::ConversionFailed { reason, .. } => Some(
                concat2("Conversion failed: ", reason.as_str()),
            ),
            ConverterError::Timeout { timeout_secs } => {
                let n = decimal_string(*timeout_secs);
                Some(concat3("Conversion timed out after ", n.as_str(), " seconds"))
            },
            ConverterError::ProbeFailed { reason } => Some(
                concat2("Failed to probe media file: ", reason.as_str()),
            ),
            ConverterError::InvalidConstraints { reason } => Some(
                concat2("Invalid constraints: ", reason.as_str()),
            ),
            ConverterError::CoverArtFailed { reason } => Some(
                concat2("Failed to embed cover art: ", reason.as_str()),
            ),
            ConverterError::Io(_) => None,
            ConverterError::ParseError { reason } => Some(
                concat2("Failed to parse media info: ", reason.as_str()),
            ),
            ConverterError::Cancelled => Some("Conversion cancelled".to_owned()),
        }
    }

    /// Creates a conversion failed error with stderr output.
    pub fn conversion_failed(reason: String, stderr: Option<String>) -> (e: Self)
        ensures
            e == (ConverterError::ConversionFailed { reason, stderr }),
    {
        ConverterError::ConversionFailed { reason, stderr }
    }

    /// Creates a probe failed error.
    pub fn probe_failed(reason: String) -> (e: Self)
        ensures
            e == (ConverterError::ProbeFailed { reason }),
    {
        ConverterError::ProbeFailed { reason }
    }

    /// Creates an invalid constraints error.
    pub fn invalid_constraints(reason: String) -> (e: Self)
        ensures
            e == (ConverterError::InvalidConstraints { reason }),
    {
        ConverterError::InvalidConstraints { reason }
    }

    /// Whether this error is retryable: only timeouts and I/O errors are.
    pub fn is_retryable(&self) -> (b: bool)
        ensures
            b == (self is Timeout || self is Io),
    {
        match self {
            ConverterError::Timeout { .. } | ConverterError::Io(_) => true,
            _ => false,
        }
    }
}

/// The input formats a converter accepts.
pub open spec fn supported_input_names() -> Seq<Seq<char>> {
    seq![
        "flac"@, "mp3"@, "m4a"@, "aac"@, "ogg"@, "opus"@, "wav"@, "wma"@, "ape"@, "alac"@,
        "mkv"@, "mp4"@, "avi"@, "mov"@, "wmv"@, "webm"@, "ts"@, "m2ts"@,
    ]
}

/// The output formats a converter produces.
pub open spec fn supported_output_names() -> Seq<Seq<char>> {
    seq!["flac"@, "mp3"@, "m4a"@, "ogg"@, "opus"@, "wav"@, "mkv"@, "mp4"@, "webm"@]
}

/// ffmpeg-based converter.
pub struct FfmpegConverter {
    /// The converter's configuration.
    pub config: ConverterConfig,
}

/// Cover art can be embedded into these formats.
pub open spec fn embeds_cover(f: AudioFormat) -> bool {
    f == AudioFormat::Mp3 || f == AudioFormat::Flac || f == AudioFormat::OggVorbis
}

/// Cover-art arguments: a second input mapped as an attached picture.
pub open spec fn cover_args(c: AudioConstraints, cover: Option<Seq<char>>) -> Seq<Seq<char>> {
    match cover {
        Some(p) => if embeds_cover(c.format) {
            seq![
                "-i"@,
                p,
                "-map"@,
                "0:a"@,
                "-map"@,
                "1:v"@,
                "-c:v"@,
                "copy"@,
                "-disposition:v:0"@,
                "attached_pic"@,
            ]
        } else {
            seq![]
        },
        None => seq![],
    }
}

/// Codec, bitrate (lossy only), compression level (lossless only), sample
/// rate and channel arguments.
pub open spec fn quality_args(c: AudioConstraints) -> Seq<Seq<char>> {
    seq!["-c:a"@, audio_codec(c.format)] + (if !audio_lossless(c.format) {
        match c.bitrate_kbps {
            Some(b) => seq!["-b:a"@, decimal(b as nat) + "k"@],
            None => seq![],
        }
    } else {
        seq![]
    }) + (if audio_lossless(c.format) {
        match c.compression_level {
            Some(l) => seq!["-compression_level"@, decimal(l as nat)],
            None => seq![],
        }
    } else {
        seq![]
    }) + match c.sample_rate_hz {
        Some(r) => seq!["-ar"@, decimal(r as nat)],
        None => seq![],
    } + match c.channels {
        Some(n) => seq!["-ac"@, decimal(n as nat)],
        None => seq![],
    }
}

/// The ffmpeg argument list for an audio conversion.
pub open spec fn audio_args(
    config: ConverterConfig,
    input: Seq<char>,
    output: Seq<char>,
    c: AudioConstraints,
    metadata: Seq<Seq<char>>,
    cover: Option<Seq<char>>,
) -> Seq<Seq<char>> {
    seq!["-y"@, "-i"@, input] + cover_args(c, cover) + quality_args(c) + metadata + seq![
        "-loglevel"@,
        config.ffmpeg_log_level@,
        "-progress"@,
        "pipe:2"@,
    ] + views(config.extra_ffmpeg_args@) + seq![output]
}

/// Cover art is embedded into MP3, FLAC and Ogg Vorbis output: with a cover
/// given, the arguments after the input are the cover as a second input,
/// mapped as the attached picture of the audio.  Into any other format (and
/// without a cover) nothing about a cover is passed: the arguments are those
/// of the same conversion without cover.
pub proof fn lemma_cover_embedded_in_mp3_flac_ogg(
    config: ConverterConfig,
    input: Seq<char>,
    output: Seq<char>,
    c: AudioConstraints,
    metadata: Seq<Seq<char>>,
    cover: Seq<char>,
)
    ensures
        (c.format == AudioFormat::Mp3 || c.format == AudioFormat::Flac || c.format
            == AudioFormat::OggVorbis) ==> audio_args(config, input, output, c, metadata, Some(cover)).subrange(3, 13)
            == seq![
            "-i"@,
            cover,
            "-map"@,
            "0:a"@,
            "-map"@,
            "1:v"@,
            "-c:v"@,
            "copy"@,
            "-disposition:v:0"@,
            "attached_pic"@,
        ],
        (c.format == AudioFormat::Mp3 || c.format == AudioFormat::Flac || c.format
            == AudioFormat::OggVorbis) ==> audio_args(config, input, output, c, metadata, Some(cover)).take(3)
            == seq!["-y"@, "-i"@, input],
        !(c.format == AudioFormat::Mp3 || c.format == AudioFormat::Flac || c.format
            == AudioFormat::OggVorbis) ==> audio_args(config, input, output, c, metadata, Some(cover))
            == audio_args(config, input, output, c, metadata, None),
{
    let args = audio_args(config, input, output, c, metadata, Some(cover));
    if c.format == AudioFormat::Mp3 || c.format == AudioFormat::Flac || c.format == AudioFormat::OggVorbis {
        assert(args.subrange(3, 13) =~= cover_args(c, Some(cover)));
        assert(args.take(3) =~= seq!["-y"@, "-i"@, input]);
    }
}

fn push_cover_args(args: &mut Vec<String>, c: &AudioConstraints, cover_art_path: Option<&str>)
    ensures
        views(final(args)@) == views(old(args)@) + cover_args(
            *c,
            match cover_art_path {
                Some(p) => Some(p@),
                None => None,
            },
        ),
{
    if let Some(cover) = cover_art_path {
        if c.format == AudioFormat::Mp3 || c.format == AudioFormat::Flac || c.format
            == AudioFormat::OggVorbis {
            push_str(args, "-i");
            push_str(args, cover);
            push_str(args, "-map");
            push_str(args, "0:a");
            push_str(args, "-map");
            push_str(args, "1:v");
            push_str(args, "-c:v");
            push_str(args, "copy");
            push_str(args, "-disposition:v:0");
            push_str(args, "attached_pic");
        }
    }
    assert(views(args@) =~= views(old(args)@) + cover_args(
        *c,
        match cover_art_path {
            Some(p) => Some(p@),
            None => None,
        },
    ));
}

fn push_quality_args(args: &mut Vec<String>, c: &AudioConstraints)
    ensures
        views(final(args)@) == views(old(args)@) + quality_args(*c),
{
    push_str(args, "-c:a");
    push_str(args, c.format.ffmpeg_codec());
    let ghost s1 = views(args@);
    let lossless = c.format.is_lossless();
    if !lossless {
        if let Some(bitrate) = c.bitrate_kbps {
            push_str(args, "-b:a");
            let b = decimal_string(bitrate as u64);
            push_string(args, concat2(b.as_str(), "k"));
        }
    }
    let ghost s2 = views(args@);
    if lossless {
        if let Some(level) = c.compression_level {
            push_str(args, "-compression_level");
            push_string(args, decimal_string(level as u64));
        }
    }
    let ghost s3 = views(args@);
    if let Some(rate) = c.sample_rate_hz {
        push_str(args, "-ar");
        push_string(args, decimal_string(rate as u64));
    }
    let ghost s4 = views(args@);
    if let Some(channels) = c.channels {
        push_str(args, "-ac");
        push_string(args, decimal_string(channels as u64));
    }
    assert(views(args@) =~= views(old(args)@) + quality_args(*c));
}

/// Rate-control, scaling and frame-rate arguments of a re-encoded video.
pub open spec fn video_quality_args(c: VideoConstraints) -> Seq<Seq<char>> {
    (match c.crf {
        Some(crf) => seq!["-crf"@, decimal(crf as nat)],
        None => match c.bitrate_kbps {
            Some(b) => seq!["-b:v"@, decimal(b as nat) + "k"@],
            None => seq![],
        },
    }) + (if c.max_width is Some || c.max_height is Some {
        seq![
            "-vf"@,
            "scale='min("@ + decimal(
                match c.max_width {
                    Some(w) => w as nat,
                    None => u32::MAX as nat,
                },
            ) + ",iw)':'min("@ + decimal(
                match c.max_height {
                    Some(h) => h as nat,
                    None => u32::MAX as nat,
                },
            ) + ",ih)':force_original_aspect_ratio=decrease"@,
        ]
    } else {
        seq![]
    }) + match c.fps {
        Some(f) => seq!["-r"@, f@],
        None => seq![],
    }
}

/// Audio-track arguments of a video conversion.
pub open spec fn video_audio_args(a: Option<AudioConstraints>) -> Seq<Seq<char>> {
    match a {
        Some(a) => seq!["-c:a"@, audio_codec(a.format)] + match a.bitrate_kbps {
            Some(b) => seq!["-b:a"@, decimal(b as nat) + "k"@],
            None => seq![],
        } + match a.sample_rate_hz {
            Some(r) => seq!["-ar"@, decimal(r as nat)],
            None => seq![],
        },
        None => seq![],
    }
}

/// The ffmpeg argument list for a video conversion: stream copies get no
/// quality arguments.
pub open spec fn video_args(
    config: ConverterConfig,
    input: Seq<char>,
    output: Seq<char>,
    c: VideoConstraints,
    metadata: Seq<Seq<char>>,
) -> Seq<Seq<char>> {
    seq!["-y"@, "-i"@, input, "-c:v"@, video_codec(c.format)] + (if c.format != VideoFormat::Copy {
        video_quality_args(c)
    } else {
        seq![]
    }) + video_audio_args(c.audio) + metadata + seq![
        "-loglevel"@,
        config.ffmpeg_log_level@,
        "-progress"@,
        "pipe:2"@,
    ] + views(config.extra_ffmpeg_args@) + seq![output]
}

fn push_video_quality_args(args: &mut Vec<String>, c: &VideoConstraints)
    ensures
        views(final(args)@) == views(old(args)@) + video_quality_args(*c),
{
    let ghost s0 = views(args@);
    if let Some(crf) = c.crf {
        push_str(args, "-crf");
        push_string(args, decimal_string(crf as u64));
    } else if let Some(bitrate) = c.bitrate_kbps {
        push_str(args, "-b:v");
        let b = decimal_string(bitrate as u64);
        push_string(args, concat2(b.as_str(), "k"));
    }
    let ghost s1 = views(args@);
    if c.max_width.is_some() || c.max_height.is_some() {
        let width: u32 = match c.max_width {
            Some(w) => w,
            None => u32::MAX,
        };
        let height: u32 = match c.max_height {
            Some(h) => h,
            None => u32::MAX,
        };
        let ws = decimal_string(width as u64);
        let hs = decimal_string(height as u64);
        let mut filter = concat3("scale='min(", ws.as_str(), ",iw)':'min(");
        filter = concat3(filter.as_str(), hs.as_str(), ",ih)':force_original_aspect_ratio=decrease");
        push_str(args, "-vf");
        push_string(args, filter);
    }
    let ghost s2 = views(args@);
    if let Some(fps) = &c.fps {
        push_str(args, "-r");
        push_str(args, fps.as_str());
    }
    assert(views(args@) =~= views(old(args)@) + video_quality_args(*c));
}

fn push_video_audio_args(args: &mut Vec<String>, a: &Option<AudioConstraints>)
    ensures
        views(final(args)@) == views(old(args)@) + video_audio_args(*a),
{
    if let Some(audio) = a {
        push_str(args, "-c:a");
        push_str(args, audio.format.ffmpeg_codec());
        let ghost s1 = views(args@);
        if let Some(bitrate) = audio.bitrate_kbps {
            push_str(args, "-b:a");
            let b = decimal_string(bitrate as u64);
            push_string(args, concat2(b.as_str(), "k"));
        }
        let ghost s2 = views(args@);
        if let Some(rate) = audio.sample_rate_hz {
            push_str(args, "-ar");
            push_string(args, decimal_string(rate as u64));
        }
    }
    assert(views(args@) =~= views(old(args)@) + video_audio_args(*a));
}

impl FfmpegConverter {
    /// Creates a converter with the given configuration.
    pub fn new(config: ConverterConfig) -> (c: Self)
        ensures
            c.config == config,
    {
        FfmpegConverter { config }
    }

    /// Creates a converter with the default configuration; `temp_root` is the
    /// system temporary directory.
    pub fn with_defaults(temp_root: &str) -> (c: Self)
        ensures
            default_converter_config(c.config, temp_root@),
    {
        Self::new(ConverterConfig::default_in(temp_root))
    }

    /// The name of this converter implementation.
    pub fn name(&self) -> (n: &'static str)
        ensures
            n@ == "ffmpeg"@,
    {
        "ffmpeg"
    }

    /// The input formats the converter accepts: common audio formats, then
    /// common video containers.
    pub fn supported_input_formats(&self) -> (v: Vec<String>)
        ensures
            views(v@) == supported_input_names(),
    {
        let mut v: Vec<String> = Vec::new();
        push_str(&mut v, "flac");
        push_str(&mut v, "mp3");
        push_str(&mut v, "m4a");
        push_str(&mut v, "aac");
        push_str(&mut v, "ogg");
        push_str(&mut v, "opus");
        push_str(&mut v, "wav");
        push_str(&mut v, "wma");
        push_str(&mut v, "ape");
        push_str(&mut v, "alac");
        push_str(&mut v, "mkv");
        push_str(&mut v, "mp4");
        push_str(&mut v, "avi");
        push_str(&mut v, "mov");
        push_str(&mut v, "wmv");
        push_str(&mut v, "webm");
        push_str(&mut v, "ts");
        push_str(&mut v, "m2ts");
        v
    }

    /// The output formats the converter produces: audio formats, then video
    /// containers.
    pub fn supported_output_formats(&self) -> (v: Vec<String>)
        ensures
            views(v@) == supported_output_names(),
    {
        let mut v: Vec<String> = Vec::new();
        push_str(&mut v, "flac");
        push_str(&mut v, "mp3");
        push_str(&mut v, "m4a");
        push_str(&mut v, "ogg");
        push_str(&mut v, "opus");
        push_str(&mut v, "wav");
        push_str(&mut v, "mkv");
        push_str(&mut v, "mp4");
        push_str(&mut v, "webm");
        v
    }

    /// Builds the ffmpeg arguments for an audio conversion.
    pub fn build_audio_args(
        &self,
        input_path: &str,
        output_path: &str,
        constraints: &AudioConstraints,
        metadata_args: &[String],
        cover_art_path: Option<&str>,
    ) -> (args: Vec<String>)
        ensures
            views(args@) == audio_args(
                self.config,
                input_path@,
                output_path@,
                *constraints,
                views(metadata_args@),
                match cover_art_path {
                    Some(p) => Some(p@),
                    None => None,
                },
            ),
    {
        let mut args: Vec<String> = Vec::new();
        push_str(&mut args, "-y");
        push_str(&mut args, "-i");
        push_str(&mut args, input_path);
        push_cover_args(&mut args, constraints, cover_art_path);
        push_quality_args(&mut args, constraints);
        extend_strings(&mut args, metadata_args);
        push_str(&mut args, "-loglevel");
        push_str(&mut args, self.config.ffmpeg_log_level.as_str());
        push_str(&mut args, "-progress");
        push_str(&mut args, "pipe:2");
        extend_strings(&mut args, self.config.extra_ffmpeg_args.as_slice());
        push_str(&mut args, output_path);
        assert(views(args@) =~= audio_args(
            self.config,
            input_path@,
            output_path@,
            *constraints,
            views(metadata_args@),
            match cover_art_path {
                Some(p) => Some(p@),
                None => None,
            },
        ));
        args
    }

    /// Builds the ffmpeg arguments for a video conversion.
    pub fn build_video_args(
        &self,
        input_path: &str,
        output_path: &str,
        constraints: &VideoConstraints,
        metadata_args: &[String],
    ) -> (args: Vec<String>)
        ensures
            views(args@) == video_args(
                self.config,
                input_path@,
                output_path@,
                *constraints,
                views(metadata_args@),
            ),
    {
        let mut args: Vec<String> = Vec::new();
        push_str(&mut args, "-y");
        push_str(&mut args, "-i");
        push_str(&mut args, input_path);
        push_str(&mut args, "-c:v");
        push_str(&mut args, constraints.format.ffmpeg_codec());
        if constraints.format != VideoFormat::Copy {
            push_video_quality_args(&mut args, constraints);
        }
        push_video_audio_args(&mut args, &constraints.audio);
        extend_strings(&mut args, metadata_args);
        push_str(&mut args, "-loglevel");
        push_str(&mut args, self.config.ffmpeg_log_level.as_str());
        push_str(&mut args, "-progress");
        push_str(&mut args, "pipe:2");
        extend_strings(&mut args, self.config.extra_ffmpeg_args.as_slice());
        push_str(&mut args, output_path);
        assert(views(args@) =~= video_args(
            self.config,
            input_path@,
            output_path@,
            *constraints,
            views(metadata_args@),
        ));
        args
    }
}

/// A conversion to run.
#[derive(Debug, Clone)]
pub struct ConversionJob {
    /// Job ID.
    pub job_id: String,
    /// Input file.
    pub input_path: String,
    /// Output file.
    pub output_path: String,
    /// What to produce.
    pub constraints: ConversionConstraints,
    /// Metadata to embed.
    pub metadata: Option<EmbeddedMetadata>,
    /// Cover art to embed (audio only).
    pub cover_art_path: Option<String>,
}

/// The ffmpeg arguments of a conversion job.
pub open spec fn job_args(config: ConverterConfig, job: ConversionJob) -> Seq<Seq<char>> {
    let meta = match job.metadata {
        Some(m) => metadata_args(m),
        None => seq![],
    };
    match job.constraints {
        ConversionConstraints::Audio(a) => audio_args(
            config,
            job.input_path@,
            job.output_path@,
            a,
            meta,
            opt_view(job.cover_art_path),
        ),
        ConversionConstraints::Video(v) => video_args(
            config,
            job.input_path@,
            job.output_path@,
            v,
            meta,
        ),
    }
}

impl FfmpegConverter {
    /// The ffmpeg arguments of a job: audio or video arguments according to
    /// its constraints, with its metadata (if any) embedded.
    pub fn conversion_args(&self, job: &ConversionJob) -> (args: Vec<String>)
        ensures
            views(args@) == job_args(self.config, *job),
    {
        let meta: Vec<String> = match &job.metadata {
            Some(m) => m.to_ffmpeg_args(),
            None => Vec::new(),
        };
        assert(views(meta@) == match job.metadata {
            Some(m) => metadata_args(m),
            None => seq![],
        });
        match &job.constraints {
            ConversionConstraints::Audio(a) => {
                let cover: Option<&str> = match &job.cover_art_path {
                    Some(p) => Some(p.as_str()),
                    None => None,
                };
                self.build_audio_args(
                    job.input_path.as_str(),
                    job.output_path.as_str(),
                    a,
                    meta.as_slice(),
                    cover,
                )
            },
            ConversionConstraints::Video(v) => self.build_video_args(
                job.input_path.as_str(),
                job.output_path.as_str(),
                v,
                meta.as_slice(),
            ),
        }
    }

    /// The ffprobe arguments that describe `path` as JSON.
    pub fn probe_args(&self, path: &str) -> (args: Vec<String>)
        ensures
            views(args@) == seq![
                "-v"@,
                "quiet"@,
                "-print_format"@,
                "json"@,
                "-show_format"@,
                "-show_streams"@,
                path@,
            ],
    {
        let mut args: Vec<String> = Vec::new();
        push_str(&mut args, "-v");
        push_str(&mut args, "quiet");
        push_str(&mut args, "-print_format");
        push_str(&mut args, "json");
        push_str(&mut args, "-show_format");
        push_str(&mut args, "-show_streams");
        push_str(&mut args, path);
        assert(views(args@) =~= seq![
            "-v"@,
            "quiet"@,
            "-print_format"@,
            "json"@,
            "-show_format"@,
            "-show_streams"@,
            path@,
        ]);
        args
    }
}

/// Whether an ffmpeg output line reports an error (it says "Error" or
/// "error"); such lines are collected for the failure report.
pub fn is_error_line(line: &str) -> (b: bool)
    ensures
        b == (seq_contains(line@, "Error"@) || seq_contains(line@, "error"@)),
{
    str_contains(line, "Error") || str_contains(line, "error")
}

/// The pattern of the encoding speed in ffmpeg's progress output.
pub open spec fn speed_pattern() -> Seq<char> {
    "speed=(\\d+\\.?\\d*)x"@
}

/// The encoding speed reported by a progress line ("1.5x"), if any.
pub fn progress_speed(line: &str) -> (s: Option<String>)
    ensures
        match s {
            Some(t) => regex_compiles(speed_pattern()) && (regex_first_group(speed_pattern(), line@)
                matches Some(g) && t@ == g + "x"@),
            None => !regex_compiles(speed_pattern()) || regex_first_group(speed_pattern(), line@)
                is None,
        },
{
    let pattern = "speed=(\\d+\\.?\\d*)x";
    match compile_pattern(pattern) {
        Some(re) => match re.first_group(line) {
            Some(g) => Some(concat2(g.as_str(), "x")),
            None => None,
        },
        None => None,
    }
}

/// The pattern of the output time (in microseconds) in ffmpeg's progress
/// output.
pub open spec fn out_time_pattern() -> Seq<char> {
    "out_time_ms=(\\d+)"@
}

/// The digits of the output time (in microseconds) reported by a progress
/// line, if any.
pub fn progress_out_time(line: &str) -> (t: Option<String>)
    ensures
        match t {
            Some(d) => regex_compiles(out_time_pattern()) && regex_first_group(out_time_pattern(), line@)
                == Some(d@),
            None => !regex_compiles(out_time_pattern()) || regex_first_group(out_time_pattern(), line@)
                is None,
        },
{
    match compile_pattern("out_time_ms=(\\d+)") {
        Some(re) => re.first_group(line),
        None => None,
    }
}

/// The text of an exit code as `{:?}` prints an `Option<i32>`.
pub open spec fn exit_code_text(code: Option<i32>) -> Seq<char> {
    match code {
        Some(c) => "Some("@ + (if c < 0 {
            "-"@ + decimal((-c) as nat)
        } else {
            decimal(c as nat)
        }) + ")"@,
        None => "None"@,
    }
}

/// The error of an ffmpeg run that exited unsuccessfully: its exit code,
/// with the collected error lines when there were any.
pub fn exit_failure(code: Option<i32>, error_output: String) -> (e: ConverterError)
    ensures
        e matches ConverterError::ConversionFailed { reason, stderr } && reason@
            == "FFmpeg exited with code: "@ + exit_code_text(code) && (if error_output@.len() == 0 {
            stderr is None
        } else {
            stderr matches Some(t) && t@ == error_output@
        }),
{
    let code_text = match code {
        Some(c) => {
            let digits = if c < 0 {
                let magnitude: u64 = (-(c as i64)) as u64;
                concat2("-", decimal_string(magnitude).as_str())
            } else {
                decimal_string(c as u64)
            };
            concat3("Some(", digits.as_str(), ")")
        },
        None => "None".to_owned(),
    };
    let reason = concat2("FFmpeg exited with code: ", code_text.as_str());
    let stderr = if error_output.as_str().is_empty() {
        None
    } else {
        Some(error_output)
    };
    ConverterError::conversion_failed(reason, stderr)
}

impl ConversionResult {
    /// The result of a finished job: the output format is the job's output
    /// extension and an undetected input format reads "unknown".
    pub fn for_job(
        job: &ConversionJob,
        output_size_bytes: u64,
        duration_ms: u64,
        input_format: Option<String>,
    ) -> (r: Self)
        ensures
            r.job_id@ == job.job_id@,
            r.output_path@ == job.output_path@,
            r.output_size_bytes == output_size_bytes,
            r.duration_ms == duration_ms,
            r.input_format@ == match input_format {
                Some(f) => f@,
                None => "unknown"@,
            },
            r.output_format@ == output_extension_of(job.constraints),
    {
        ConversionResult {
            job_id: copy_string(&job.job_id),
            output_path: copy_string(&job.output_path),
            output_size_bytes,
            duration_ms,
            input_format: match input_format {
                Some(f) => f,
                None => "unknown".to_owned(),
            },
            output_format: job.constraints.output_extension().to_owned(),
        }
    }
}

/// Hardware encoders available on the system.
#[derive(Debug, Clone, Copy, PartialEq, Eq)]
pub struct EncoderCapabilities {
    /// NVIDIA NVENC H.264
    pub h264_nvenc: bool,
    /// NVIDIA NVENC H.265/HEVC
    pub hevc_nvenc: bool,
    /// NVIDIA NVENC AV1
    pub av1_nvenc: bool,
    /// Intel Quick Sync H.264
    pub h264_qsv: bool,
    /// Intel Quick Sync H.265/HEVC
    pub hevc_qsv: bool,
    /// AMD AMF H.264
    pub h264_amf: bool,
    /// AMD AMF H.265/HEVC
    pub hevc_amf: bool,
    /// VA-API H.264
    pub h264_vaapi: bool,
    /// VA-API H.265/HEVC
    pub hevc_vaapi: bool,
}

impl Default for EncoderCapabilities {
    /// No hardware encoder.
    fn default() -> (c: Self)
        ensures
            !c.h264_nvenc && !c.hevc_nvenc && !c.av1_nvenc && !c.h264_qsv && !c.hevc_qsv
                && !c.h264_amf && !c.hevc_amf && !c.h264_vaapi && !c.hevc_vaapi,
    {
        EncoderCapabilities {
            h264_nvenc: false,
            hevc_nvenc: false,
            av1_nvenc: false,
            h264_qsv: false,
            hevc_qsv: false,
            h264_amf: false,
            hevc_amf: false,
            h264_vaapi: false,
            hevc_vaapi: false,
        }
    }
}

/// Video formats offered given the detected hardware encoders.
pub open spec fn video_formats_for(c: EncoderCapabilities) -> Seq<VideoFormat> {
    seq![VideoFormat::Copy, VideoFormat::H264, VideoFormat::H265, VideoFormat::Vp9, VideoFormat::Av1]
        + (if c.h264_nvenc { seq![VideoFormat::H264Nvenc] } else { seq![] })
        + (if c.hevc_nvenc { seq![VideoFormat::H265Nvenc] } else { seq![] })
        + (if c.av1_nvenc { seq![VideoFormat::Av1Nvenc] } else { seq![] })
}

impl EncoderCapabilities {
    /// Reads the encoder list printed by `ffmpeg -encoders`: an encoder is
    /// available when its name occurs in the listing.
    pub fn from_encoder_listing(stdout: &str) -> (c: Self)
        ensures
            c.h264_nvenc == seq_contains(stdout@, "h264_nvenc"@),
            c.hevc_nvenc == seq_contains(stdout@, "hevc_nvenc"@),
            c.av1_nvenc == seq_contains(stdout@, "av1_nvenc"@),
            c.h264_qsv == seq_contains(stdout@, "h264_qsv"@),
            c.hevc_qsv == seq_contains(stdout@, "hevc_qsv"@),
            c.h264_amf == seq_contains(stdout@, "h264_amf"@),
            c.hevc_amf == seq_contains(stdout@, "hevc_amf"@),
            c.h264_vaapi == seq_contains(stdout@, "h264_vaapi"@),
            c.hevc_vaapi == seq_contains(stdout@, "hevc_vaapi"@),
    {
        EncoderCapabilities {
            h264_nvenc: str_contains(stdout, "h264_nvenc"),
            hevc_nvenc: str_contains(stdout, "hevc_nvenc"),
            av1_nvenc: str_contains(stdout, "av1_nvenc"),
            h264_qsv: str_contains(stdout, "h264_qsv"),
            hevc_qsv: str_contains(stdout, "hevc_qsv"),
            h264_amf: str_contains(stdout, "h264_amf"),
            hevc_amf: str_contains(stdout, "hevc_amf"),
            h264_vaapi: str_contains(stdout, "h264_vaapi"),
            hevc_vaapi: str_contains(stdout, "hevc_vaapi"),
        }
    }

    /// All available video formats, software ones first, then NVENC ones.
    pub fn available_video_formats(&self) -> (v: Vec<VideoFormat>)
        ensures
            v@ == video_formats_for(*self),
    {
        let mut formats: Vec<VideoFormat> = Vec::new();
        formats.push(VideoFormat::Copy);
        formats.push(VideoFormat::H264);
        formats.push(VideoFormat::H265);
        formats.push(VideoFormat::Vp9);
        formats.push(VideoFormat::Av1);
        if self.h264_nvenc {
            formats.push(VideoFormat::H264Nvenc);
        }
        if self.hevc_nvenc {
            formats.push(VideoFormat::H265Nvenc);
        }
        if self.av1_nvenc {
            formats.push(VideoFormat::Av1Nvenc);
        }
        assert(formats@ =~= video_formats_for(*self));
        formats
    }

    /// Whether any hardware encoder is available.
    pub fn has_hardware_encoder(&self) -> (b: bool)
        ensures
            b == (self.h264_nvenc || self.hevc_nvenc || self.av1_nvenc || self.h264_qsv
                || self.hevc_qsv || self.h264_amf || self.hevc_amf || self.h264_vaapi
                || self.hevc_vaapi),
    {
        self.h264_nvenc || self.hevc_nvenc || self.av1_nvenc || self.h264_qsv || self.hevc_qsv
            || self.h264_amf || self.hevc_amf || self.h264_vaapi || self.hevc_vaapi
    }

    /// Whether an NVENC encoder is available.
    pub fn has_nvenc(&self) -> (b: bool)
        ensures
            b == (self.h264_nvenc || self.hevc_nvenc || self.av1_nvenc),
    {
        self.h264_nvenc || self.hevc_nvenc || self.av1_nvenc
    }
}

/// Result of a successful conversion.
#[derive(Debug, Clone)]
pub struct ConversionResult {
    /// Job ID.
    pub job_id: String,
    /// Output file path.
    pub output_path: String,
    /// Output file size in bytes.
    pub output_size_bytes: u64,
    /// Conversion duration in milliseconds.
    pub duration_ms: u64,
    /// Detected input format.
    pub input_format: String,
    /// Output format used.
    pub output_format: String,
}

} // verus!
