use torrentino_core::converter::{
    exit_failure, is_error_line, progress_out_time, progress_speed, AudioConstraints, AudioFormat, ContainerFormat,
    ConversionConstraints, ConversionJob, ConversionResult, ConverterConfig, ConverterError,
    EmbeddedMetadata, EncoderCapabilities, FfmpegConverter, VideoConstraints, VideoFormat,
};

fn strings(v: &[&str]) -> Vec<String> {
    v.iter().map(|s| s.to_string()).collect()
}

#[test]
fn test_default_capabilities() {
    let caps = EncoderCapabilities::default();
    assert!(!caps.h264_nvenc);
    assert!(!caps.has_hardware_encoder());
}

#[test]
fn test_available_formats_no_hardware() {
    let caps = EncoderCapabilities::default();
    let formats = caps.available_video_formats();
    assert!(formats.contains(&VideoFormat::H264));
    assert!(formats.contains(&VideoFormat::Copy));
    assert!(!formats.contains(&VideoFormat::H264Nvenc));
}

#[test]
fn test_available_formats_with_nvenc() {
    let caps = EncoderCapabilities {
        h264_nvenc: true,
        hevc_nvenc: true,
        ..Default::default()
    };
    let formats = caps.available_video_formats();
    assert!(formats.contains(&VideoFormat::H264Nvenc));
    assert!(formats.contains(&VideoFormat::H265Nvenc));
    assert!(!formats.contains(&VideoFormat::Av1Nvenc));
}

#[test]
fn capabilities_from_encoder_listing() {
    let listing = " V....D h264_nvenc  NVIDIA NVENC H.264 encoder\n V....D libx264 \n A....D aac";
    let caps = EncoderCapabilities::from_encoder_listing(listing);
    assert!(caps.h264_nvenc);
    assert!(!caps.hevc_nvenc);
    assert!(caps.has_nvenc());
    assert!(caps.has_hardware_encoder());
    assert_eq!(
        caps.available_video_formats(),
        vec![
            VideoFormat::Copy,
            VideoFormat::H264,
            VideoFormat::H265,
            VideoFormat::Vp9,
            VideoFormat::Av1,
            VideoFormat::H264Nvenc
        ]
    );
}

#[test]
fn test_default_config() {
    let config = ConverterConfig::default_in("/tmp");
    assert_eq!(config.ffmpeg_path, "ffmpeg");
    assert_eq!(config.ffprobe_path, "ffprobe");
    assert_eq!(config.max_parallel_conversions, 4);
    assert_eq!(config.timeout_secs, 3600);
}

#[test]
fn default_config_temp_dir_inside_temp_root() {
    assert_eq!(ConverterConfig::default_in("/tmp").temp_dir, "/tmp/quentin-converter");
    assert_eq!(ConverterConfig::default_in("/var/tmp/").temp_dir, "/var/tmp/quentin-converter");
    assert_eq!(ConverterConfig::default_in("/tmp").ffmpeg_log_level, "warning");
}

#[test]
fn test_config_builder() {
    let config = ConverterConfig::with_paths(
        "/usr/local/bin/ffmpeg".to_string(),
        "/usr/local/bin/ffprobe".to_string(),
        "/tmp",
    )
    .with_temp_dir("/tmp/test".to_string())
    .with_max_parallel(8)
    .with_timeout(7200);

    assert_eq!(config.ffmpeg_path, "/usr/local/bin/ffmpeg");
    assert_eq!(config.temp_dir, "/tmp/test");
    assert_eq!(config.max_parallel_conversions, 8);
    assert_eq!(config.timeout_secs, 7200);
}

#[test]
fn test_build_audio_args_mp3() {
    let converter = FfmpegConverter::with_defaults("/tmp");
    let constraints = AudioConstraints {
        format: AudioFormat::Mp3,
        bitrate_kbps: Some(320),
        sample_rate_hz: Some(44100),
        channels: None,
        compression_level: None,
    };

    let args = converter.build_audio_args("/input.flac", "/output.mp3", &constraints, &[], None);

    assert!(args.contains(&"-c:a".to_string()));
    assert!(args.contains(&"libmp3lame".to_string()));
    assert!(args.contains(&"-b:a".to_string()));
    assert!(args.contains(&"320k".to_string()));
    assert!(args.contains(&"-ar".to_string()));
    assert!(args.contains(&"44100".to_string()));
}

#[test]
fn test_build_audio_args_flac() {
    let converter = FfmpegConverter::with_defaults("/tmp");
    let constraints = AudioConstraints {
        format: AudioFormat::Flac,
        bitrate_kbps: None,
        sample_rate_hz: None,
        channels: None,
        compression_level: Some(8),
    };

    let args = converter.build_audio_args("/input.wav", "/output.flac", &constraints, &[], None);

    assert!(args.contains(&"-c:a".to_string()));
    assert!(args.contains(&"flac".to_string()));
    assert!(args.contains(&"-compression_level".to_string()));
    assert!(args.contains(&"8".to_string()));
    assert!(!args.contains(&"-b:a".to_string()));
}

#[test]
fn build_audio_args_exact_list_with_cover() {
    let converter = FfmpegConverter::with_defaults("/tmp");
    let constraints = AudioConstraints {
        format: AudioFormat::Mp3,
        bitrate_kbps: Some(256),
        sample_rate_hz: None,
        channels: Some(2),
        compression_level: None,
    };
    let meta = strings(&["-metadata", "title=Song"]);
    let args = converter.build_audio_args("in.flac", "out.mp3", &constraints, &meta, Some("cover.jpg"));
    assert_eq!(
        args,
        strings(&[
            "-y", "-i", "in.flac", "-i", "cover.jpg", "-map", "0:a", "-map", "1:v", "-c:v", "copy",
            "-disposition:v:0", "attached_pic", "-c:a", "libmp3lame", "-b:a", "256k", "-ac", "2",
            "-metadata", "title=Song", "-loglevel", "warning", "-progress", "pipe:2", "out.mp3"
        ])
    );
}

#[test]
fn build_audio_args_no_cover_for_opus() {
    let converter = FfmpegConverter::with_defaults("/tmp");
    let constraints = AudioConstraints {
        format: AudioFormat::Opus,
        bitrate_kbps: None,
        sample_rate_hz: None,
        channels: None,
        compression_level: Some(5),
    };
    let args = converter.build_audio_args("a", "b", &constraints, &[], Some("cover.jpg"));
    assert!(!args.contains(&"cover.jpg".to_string()));
    assert!(!args.contains(&"-compression_level".to_string()));
}

#[test]
fn build_video_args_scaling_and_audio() {
    let converter = FfmpegConverter::with_defaults("/tmp");
    let constraints = VideoConstraints {
        format: VideoFormat::H264,
        container: ContainerFormat::Mp4,
        crf: Some(23),
        bitrate_kbps: None,
        max_width: Some(1920),
        max_height: Some(1080),
        fps: None,
        audio: Some(AudioConstraints {
            format: AudioFormat::Aac,
            bitrate_kbps: Some(192),
            sample_rate_hz: None,
            channels: None,
            compression_level: None,
        }),
    };
    let args = converter.build_video_args("/input.mkv", "/output.mp4", &constraints, &[]);
    assert_eq!(
        args,
        strings(&[
            "-y",
            "-i",
            "/input.mkv",
            "-c:v",
            "libx264",
            "-crf",
            "23",
            "-vf",
            "scale='min(1920,iw)':'min(1080,ih)':force_original_aspect_ratio=decrease",
            "-c:a",
            "aac",
            "-b:a",
            "192k",
            "-loglevel",
            "warning",
            "-progress",
            "pipe:2",
            "/output.mp4"
        ])
    );
}

#[test]
fn build_video_args_copy_skips_quality() {
    let converter = FfmpegConverter::with_defaults("/tmp");
    let constraints = VideoConstraints {
        format: VideoFormat::Copy,
        container: ContainerFormat::Mkv,
        crf: Some(18),
        bitrate_kbps: None,
        max_width: Some(1280),
        max_height: None,
        fps: Some("25".to_string()),
        audio: None,
    };
    let args = converter.build_video_args("in", "out", &constraints, &[]);
    assert_eq!(
        args,
        strings(&["-y", "-i", "in", "-c:v", "copy", "-loglevel", "warning", "-progress", "pipe:2", "out"])
    );
}

#[test]
fn build_video_args_bitrate_and_unbounded_height() {
    let converter = FfmpegConverter::with_defaults("/tmp");
    let constraints = VideoConstraints {
        format: VideoFormat::H265,
        container: ContainerFormat::Mkv,
        crf: None,
        bitrate_kbps: Some(4000),
        max_width: Some(1280),
        max_height: None,
        fps: Some("23.976".to_string()),
        audio: None,
    };
    let args = converter.build_video_args("in", "out", &constraints, &[]);
    assert!(args.contains(&"4000k".to_string()));
    assert!(args.contains(
        &"scale='min(1280,iw)':'min(4294967295,ih)':force_original_aspect_ratio=decrease".to_string()
    ));
    assert!(args.contains(&"23.976".to_string()));
}

#[test]
fn video_constraints_default() {
    let c = VideoConstraints::default();
    assert_eq!(c.format, VideoFormat::H264);
    assert_eq!(c.container, ContainerFormat::Mp4);
    assert_eq!(c.crf, Some(23));
    assert_eq!(c.audio.unwrap().bitrate_kbps, Some(192));
}

#[test]
fn conversion_output_extension() {
    assert_eq!(ConversionConstraints::default().output_extension(), "ogg");
    let v = ConversionConstraints::Video(VideoConstraints::default());
    assert_eq!(v.output_extension(), "mp4");
    let mut only_audio = VideoConstraints::default();
    only_audio.container = ContainerFormat::AudioOnly;
    assert_eq!(ConversionConstraints::Video(only_audio).output_extension(), "m4a");
}

#[test]
fn test_audio_format_extension() {
    assert_eq!(AudioFormat::Flac.extension(), "flac");
    assert_eq!(AudioFormat::Mp3.extension(), "mp3");
    assert_eq!(AudioFormat::OggVorbis.extension(), "ogg");
    assert_eq!(AudioFormat::Opus.extension(), "opus");
}

#[test]
fn test_audio_format_codec() {
    assert_eq!(AudioFormat::Flac.ffmpeg_codec(), "flac");
    assert_eq!(AudioFormat::Mp3.ffmpeg_codec(), "libmp3lame");
    assert_eq!(AudioFormat::OggVorbis.ffmpeg_codec(), "libvorbis");
}

#[test]
fn test_audio_format_lossless() {
    assert!(AudioFormat::Flac.is_lossless());
    assert!(AudioFormat::Wav.is_lossless());
    assert!(AudioFormat::Alac.is_lossless());
    assert!(!AudioFormat::Mp3.is_lossless());
    assert!(!AudioFormat::OggVorbis.is_lossless());
}

#[test]
fn test_embedded_metadata_to_ffmpeg_args() {
    let metadata = EmbeddedMetadata {
        title: Some("Test Song".to_string()),
        artist: Some("Test Artist".to_string()),
        album: Some("Test Album".to_string()),
        year: Some(2024),
        track_number: Some(1),
        track_total: Some(12),
        ..Default::default()
    };

    let args = metadata.to_ffmpeg_args();
    assert!(args.contains(&"-metadata".to_string()));
    assert!(args.contains(&"title=Test Song".to_string()));
    assert!(args.contains(&"artist=Test Artist".to_string()));
    assert!(args.contains(&"album=Test Album".to_string()));
    assert!(args.contains(&"date=2024".to_string()));
    assert!(args.contains(&"track=1/12".to_string()));
}

#[test]
fn embedded_metadata_exact_order() {
    let metadata = EmbeddedMetadata {
        album_artist: Some("Various".to_string()),
        disc_number: Some(2),
        genre: Some("Rock".to_string()),
        extra: vec![("encoder".to_string(), "x".to_string())],
        ..Default::default()
    };
    assert_eq!(
        metadata.to_ffmpeg_args(),
        strings(&[
            "-metadata",
            "album_artist=Various",
            "-metadata",
            "disc=2",
            "-metadata",
            "genre=Rock",
            "-metadata",
            "encoder=x"
        ])
    );
}

#[test]
fn test_video_format_codec() {
    assert_eq!(VideoFormat::H264.ffmpeg_codec(), "libx264");
    assert_eq!(VideoFormat::H265.ffmpeg_codec(), "libx265");
    assert_eq!(VideoFormat::Copy.ffmpeg_codec(), "copy");
}

#[test]
fn test_container_extension() {
    assert_eq!(ContainerFormat::Mkv.extension(None), "mkv");
    assert_eq!(ContainerFormat::Mp4.extension(None), "mp4");
    assert_eq!(ContainerFormat::AudioOnly.extension(Some(&AudioFormat::Flac)), "flac");
}

#[test]
fn converter_error_constructors_and_retry() {
    let e = ConverterError::conversion_failed("bad".to_string(), Some("stderr".to_string()));
    assert!(!e.is_retryable());
    assert!(ConverterError::Timeout { timeout_secs: 5 }.is_retryable());
    assert!(!ConverterError::probe_failed("x".to_string()).is_retryable());
    assert!(!ConverterError::invalid_constraints("x".to_string()).is_retryable());
}

#[test]
fn conversion_args_dispatch_on_constraints() {
    let converter = FfmpegConverter::with_defaults("/tmp");
    let job = ConversionJob {
        job_id: "j".to_string(),
        input_path: "in.wav".to_string(),
        output_path: "out.flac".to_string(),
        constraints: ConversionConstraints::Audio(AudioConstraints {
            format: AudioFormat::Flac,
            bitrate_kbps: None,
            sample_rate_hz: None,
            channels: None,
            compression_level: None,
        }),
        metadata: Some(EmbeddedMetadata { title: Some("T".to_string()), ..Default::default() }),
        cover_art_path: Some("c.jpg".to_string()),
    };
    let args = converter.conversion_args(&job);
    assert_eq!(
        args,
        strings(&[
            "-y", "-i", "in.wav", "-i", "c.jpg", "-map", "0:a", "-map", "1:v", "-c:v", "copy",
            "-disposition:v:0", "attached_pic", "-c:a", "flac", "-metadata", "title=T", "-loglevel",
            "warning", "-progress", "pipe:2", "out.flac"
        ])
    );
    let result = ConversionResult::for_job(&job, 10, 5, None);
    assert_eq!(result.output_format, "flac");
    assert_eq!(result.input_format, "unknown");
}

#[test]
fn probe_arguments() {
    let converter = FfmpegConverter::with_defaults("/tmp");
    assert_eq!(
        converter.probe_args("a.flac"),
        strings(&["-v", "quiet", "-print_format", "json", "-show_format", "-show_streams", "a.flac"])
    );
}

#[test]
fn ffmpeg_output_lines() {
    assert!(is_error_line("Error opening input"));
    assert!(is_error_line("an error occurred"));
    assert!(!is_error_line("frame=10 fps=0.0"));
    assert_eq!(progress_speed("bitrate=1411.2kbits/s speed=1.52x"), Some("1.52x".to_string()));
    assert_eq!(progress_speed("speed=12x"), Some("12x".to_string()));
    assert_eq!(progress_speed("out_time_ms=1000"), None);
}

#[test]
fn ffmpeg_exit_failures() {
    match exit_failure(Some(1), String::new()) {
        ConverterError::ConversionFailed { reason, stderr } => {
            assert_eq!(reason, "FFmpeg exited with code: Some(1)");
            assert!(stderr.is_none());
        }
        _ => panic!("expected a conversion failure"),
    }
    match exit_failure(None, "Error: x\n".to_string()) {
        ConverterError::ConversionFailed { reason, stderr } => {
            assert_eq!(reason, "FFmpeg exited with code: None");
            assert_eq!(stderr, Some("Error: x\n".to_string()));
        }
        _ => panic!("expected a conversion failure"),
    }
    match exit_failure(Some(-2), String::new()) {
        ConverterError::ConversionFailed { reason, .. } => {
            assert_eq!(reason, format!("FFmpeg exited with code: {:?}", Some(-2)));
        }
        _ => panic!("expected a conversion failure"),
    }
}

#[test]
fn test_build_video_args() {
    let converter = FfmpegConverter::with_defaults("/tmp");
    let constraints = VideoConstraints {
        format: VideoFormat::H264,
        container: ContainerFormat::Mp4,
        crf: Some(23),
        bitrate_kbps: None,
        max_width: Some(1920),
        max_height: Some(1080),
        fps: None,
        audio: Some(AudioConstraints {
            format: AudioFormat::Aac,
            bitrate_kbps: Some(192),
            sample_rate_hz: None,
            channels: None,
            compression_level: None,
        }),
    };

    let args = converter.build_video_args("/input.mkv", "/output.mp4", &constraints, &[]);

    assert!(args.contains(&"-c:v".to_string()));
    assert!(args.contains(&"libx264".to_string()));
    assert!(args.contains(&"-crf".to_string()));
    assert!(args.contains(&"23".to_string()));
    assert!(args.contains(&"-c:a".to_string()));
    assert!(args.contains(&"aac".to_string()));
}

#[test]
fn test_supported_formats() {
    let converter = FfmpegConverter::with_defaults("/tmp");
    let input_formats = converter.supported_input_formats();
    assert!(input_formats.contains(&"flac".to_string()));
    assert!(input_formats.contains(&"mp3".to_string()));
    assert!(input_formats.contains(&"mkv".to_string()));
}

#[test]
fn supported_output_formats_are_listed_in_order() {
    let converter = FfmpegConverter::with_defaults("/tmp");
    assert_eq!(
        converter.supported_output_formats(),
        strings(&["flac", "mp3", "m4a", "ogg", "opus", "wav", "mkv", "mp4", "webm"])
    );
    assert_eq!(converter.supported_input_formats().len(), 18);
    assert!(!converter.supported_output_formats().contains(&"aac".to_string()));
}

#[test]
fn converter_name_is_ffmpeg() {
    let converter = FfmpegConverter::with_defaults("/tmp");
    assert_eq!(converter.name(), "ffmpeg");
}

#[test]
fn out_time_digits_from_progress_lines() {
    assert_eq!(progress_out_time("out_time_ms=1500000"), Some("1500000".to_string()));
    assert_eq!(progress_out_time("frame=10 out_time_ms=42 speed=1.0x"), Some("42".to_string()));
    assert_eq!(progress_out_time("out_time_ms=N/A"), None);
    assert_eq!(progress_out_time("speed=2.0x"), None);
}

#[test]
fn converter_error_messages() {
    assert_eq!(
        ConverterError::Timeout { timeout_secs: 30 }.message(),
        Some("Conversion timed out after 30 seconds".to_string())
    );
    assert_eq!(
        ConverterError::conversion_failed("bad".to_string(), None).message(),
        Some("Conversion failed: bad".to_string())
    );
    assert_eq!(ConverterError::Cancelled.message(), Some("Conversion cancelled".to_string()));
    assert_eq!(ConverterError::Io(std::io::Error::other("x")).message(), None);
}
