use torrentino_core::probe::{summarize_probe, ProbeFormat, ProbeOutput, ProbeStream};
use torrentino_core::text::parse_unsigned;

fn stream(kind: &str, codec: &str) -> ProbeStream {
    ProbeStream {
        codec_type: kind.to_string(),
        codec_name: Some(codec.to_string()),
        bit_rate: None,
        sample_rate: None,
        channels: None,
        width: None,
        height: None,
        r_frame_rate: None,
    }
}

#[test]
fn probe_summary_audio_file() {
    let mut audio = stream("audio", "flac");
    audio.bit_rate = Some("1411000".to_string());
    audio.sample_rate = Some("44100".to_string());
    audio.channels = Some(2);
    let probe = ProbeOutput {
        format: ProbeFormat {
            filename: "test.flac".to_string(),
            format_name: "flac".to_string(),
            duration: Some("180.5".to_string()),
            size: Some("30000000".to_string()),
        },
        streams: vec![audio],
    };
    let info = summarize_probe("test.flac", &probe);
    assert_eq!(info.format, "flac");
    assert_eq!(info.size_bytes, 30000000);
    assert_eq!(info.audio_codec, Some("flac".to_string()));
    assert_eq!(info.audio_bitrate_kbps, Some(1411));
    assert_eq!(info.audio_sample_rate, Some(44100));
    assert_eq!(info.audio_channels, Some(2));
    assert_eq!(info.video_codec, None);
}

#[test]
fn probe_summary_video_file() {
    let mut video = stream("video", "h264");
    video.width = Some(1920);
    video.height = Some(1080);
    video.r_frame_rate = Some("24000/1001".to_string());
    let mut audio = stream("audio", "aac");
    audio.bit_rate = Some("192000".to_string());
    audio.sample_rate = Some("48000".to_string());
    audio.channels = Some(6);
    let probe = ProbeOutput {
        format: ProbeFormat {
            filename: "test.mkv".to_string(),
            format_name: "matroska,webm".to_string(),
            duration: Some("7200.0".to_string()),
            size: Some("5000000000".to_string()),
        },
        streams: vec![video, audio, stream("audio", "opus")],
    };
    let info = summarize_probe("test.mkv", &probe);
    assert_eq!(info.format, "matroska");
    assert_eq!(info.size_bytes, 5000000000);
    assert_eq!(info.video_codec, Some("h264".to_string()));
    assert_eq!(info.video_width, Some(1920));
    assert_eq!(info.video_height, Some(1080));
    assert_eq!(info.audio_codec, Some("aac".to_string()));
    assert_eq!(info.audio_channels, Some(6));
    assert_eq!(info.path, "test.mkv");
}

#[test]
fn probe_summary_unreadable_size() {
    let probe = ProbeOutput {
        format: ProbeFormat {
            filename: "x".to_string(),
            format_name: "".to_string(),
            duration: None,
            size: Some("N/A".to_string()),
        },
        streams: vec![],
    };
    let info = summarize_probe("x", &probe);
    assert_eq!(info.size_bytes, 0);
    assert_eq!(info.format, "");
    assert_eq!(info.audio_codec, None);
}

#[test]
fn unsigned_parsing_matches_std() {
    for s in ["0", "42", "+7", "007", "", "+", "-1", "1a", " 1", "4294967295", "4294967296", "18446744073709551615", "18446744073709551616"] {
        assert_eq!(parse_unsigned(s, u32::MAX as u64), s.parse::<u32>().ok().map(|v| v as u64), "{}", s);
        assert_eq!(parse_unsigned(s, u64::MAX), s.parse::<u64>().ok(), "{}", s);
    }
}
