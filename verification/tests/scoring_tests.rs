use torrentino_core::converter::AudioFormat;
use torrentino_core::scoring::{
    album_words, check_bitrate, check_track_count, compilation_penalty, count_hits,
    discography_format_class, is_audio_path, live_penalty, names_preferred_format, red_flags,
    release_format_class, seeder_tier, significant_words_in, word_evidence, BitrateCheck,
    FormatClass, Penalty, RedFlags, SeederTier, TrackCountCheck, WordEvidence,
};
use torrentino_core::text::{split_words, suffix_after};

fn strings(v: &[&str]) -> Vec<String> {
    v.iter().map(|s| s.to_string()).collect()
}

#[test]
fn format_classes_of_release_titles() {
    assert_eq!(release_format_class("pink floyd - animals [flac]"), FormatClass::Lossless);
    assert_eq!(release_format_class("album 24-bit"), FormatClass::Lossless);
    assert_eq!(release_format_class("album dsd"), FormatClass::Lossless);
    assert_eq!(release_format_class("album mp3 320"), FormatClass::HighBitrate);
    assert_eq!(release_format_class("album mp3 v0"), FormatClass::HighBitrate);
    assert_eq!(release_format_class("album ogg"), FormatClass::Lossy);
    assert_eq!(release_format_class("album"), FormatClass::Unstated);
}

#[test]
fn discography_format_classes_use_fewer_keywords() {
    assert_eq!(discography_format_class("discography flac"), FormatClass::Lossless);
    assert_eq!(discography_format_class("discography 24-bit"), FormatClass::Unstated);
    assert_eq!(discography_format_class("discography dsd"), FormatClass::Unstated);
    assert_eq!(discography_format_class("discography ogg"), FormatClass::Unstated);
    assert_eq!(discography_format_class("discography aac"), FormatClass::Lossy);
    assert_eq!(discography_format_class("discography 320 mp3"), FormatClass::HighBitrate);
}

#[test]
fn seeder_tiers() {
    assert_eq!(seeder_tier(0), SeederTier::Dead);
    assert_eq!(seeder_tier(1), SeederTier::Scarce);
    assert_eq!(seeder_tier(2), SeederTier::Scarce);
    assert_eq!(seeder_tier(3), SeederTier::Moderate);
    assert_eq!(seeder_tier(10), SeederTier::Moderate);
    assert_eq!(seeder_tier(11), SeederTier::Healthy);
    assert_eq!(seeder_tier(50), SeederTier::Healthy);
    assert_eq!(seeder_tier(51), SeederTier::Abundant);
}

#[test]
fn preferred_formats_named_in_titles() {
    let flac_first = vec![AudioFormat::Flac, AudioFormat::Mp3];
    assert!(names_preferred_format(&flac_first, "album [flac]"));
    assert!(names_preferred_format(&flac_first, "album mp3"));
    assert!(!names_preferred_format(&flac_first, "album opus"));
    assert!(names_preferred_format(&vec![AudioFormat::OggVorbis], "album vorbis"));
    assert!(!names_preferred_format(&vec![AudioFormat::Wav], "album wav"));
    assert!(!names_preferred_format(&vec![], "album flac"));
}

#[test]
fn bitrate_against_minimum() {
    assert_eq!(check_bitrate(None, "album mp3 128"), BitrateCheck::NotApplicable);
    assert_eq!(check_bitrate(Some(256), "album mp3 320"), BitrateCheck::Meets);
    assert_eq!(check_bitrate(Some(256), "album mp3 128"), BitrateCheck::Below);
    assert_eq!(check_bitrate(Some(256), "album flac"), BitrateCheck::NotApplicable);
    assert_eq!(check_bitrate(Some(320), "album 320kbps"), BitrateCheck::Meets);
}

#[test]
fn red_flags_in_titles() {
    assert_eq!(
        red_flags("various artists - hits"),
        RedFlags { compilation: true, sample: false, live: false, tribute: false, video: false }
    );
    assert_eq!(
        red_flags("band - album (live) promo dvd"),
        RedFlags { compilation: false, sample: true, live: true, tribute: false, video: true }
    );
    assert_eq!(
        red_flags("a tribute to the band"),
        RedFlags { compilation: false, sample: false, live: false, tribute: true, video: false }
    );
    assert_eq!(
        red_flags("band - alive"),
        RedFlags { compilation: false, sample: false, live: false, tribute: false, video: false }
    );
}

#[test]
fn red_flag_penalties() {
    assert_eq!(compilation_penalty(false, true, true), Penalty::Waived);
    assert_eq!(compilation_penalty(true, true, false), Penalty::Strong);
    assert_eq!(compilation_penalty(true, false, true), Penalty::Mild);
    assert_eq!(compilation_penalty(true, false, false), Penalty::Waived);
    assert_eq!(live_penalty(false, true, None), Penalty::Waived);
    assert_eq!(live_penalty(true, true, Some("Live at Leeds")), Penalty::Strong);
    assert_eq!(live_penalty(true, false, Some("Live at Leeds")), Penalty::Waived);
    assert_eq!(live_penalty(true, false, Some("Quadrophenia")), Penalty::Mild);
    assert_eq!(live_penalty(true, false, None), Penalty::Mild);
}

#[test]
fn track_count_against_catalog() {
    assert_eq!(check_track_count(0, 10), TrackCountCheck::Unchecked);
    assert_eq!(check_track_count(10, 0), TrackCountCheck::Unchecked);
    assert_eq!(check_track_count(10, 10), TrackCountCheck::Exact);
    assert_eq!(check_track_count(12, 10), TrackCountCheck::Close);
    assert_eq!(check_track_count(8, 10), TrackCountCheck::Close);
    assert_eq!(check_track_count(16, 10), TrackCountCheck::Mismatch);
    assert_eq!(check_track_count(4, 10), TrackCountCheck::Mismatch);
    assert_eq!(check_track_count(14, 10), TrackCountCheck::Inconclusive);
}

#[test]
fn words_and_significant_words() {
    assert_eq!(split_words("  dark\tside of\nthe moon "), strings(&["dark", "side", "of", "the", "moon"]));
    assert!(split_words("   ").is_empty());
    assert_eq!(significant_words_in("dark side of the moon"), strings(&["dark", "side", "moon"]));
    assert_eq!(significant_words_in("on the run"), strings(&["run"]));
    assert!(significant_words_in("up in it").is_empty());
    assert_eq!(significant_words_in("né ça"), strings(&["né", "ça"]));
}

#[test]
fn album_words_of_a_title() {
    let a = album_words("Dark Side of the Moon (Remastered)");
    assert_eq!(a.clean, "dark side of the moon");
    assert_eq!(a.significant, strings(&["dark", "side", "moon"]));
}

#[test]
fn word_hits_and_evidence() {
    let words = strings(&["dark", "side", "moon"]);
    assert_eq!(count_hits(&words, "pink floyd/1973 - dark side of the moon/01.flac"), 3);
    assert_eq!(count_hits(&words, "pink floyd/1979 - the wall/01.flac"), 0);
    assert_eq!(
        word_evidence("dark side of the moon", &words, "pink floyd/dark side/01.flac"),
        WordEvidence::Words { hits: 2, total: 3 }
    );
    assert_eq!(word_evidence("up", &vec![], "x/up/01.flac"), WordEvidence::Phrase(true));
    assert_eq!(word_evidence("up", &vec![], "x/down/01.flac"), WordEvidence::Phrase(false));
}

#[test]
fn audio_paths_and_file_names() {
    assert!(is_audio_path("a/b/01 - speak to me.flac"));
    assert!(is_audio_path("a/b/track.m4a"));
    assert!(is_audio_path("a/b/trackflac"));
    assert!(!is_audio_path("a/b/cover.jpg"));
    assert!(!is_audio_path("a/b/flac.txt"));
    assert_eq!(suffix_after("Pink Floyd/Album/01 - Breathe.flac", '/'), "01 - Breathe.flac");
    assert_eq!(suffix_after("Breathe.flac", '/'), "Breathe.flac");
    assert_eq!(suffix_after("dir/", '/'), "");
}
