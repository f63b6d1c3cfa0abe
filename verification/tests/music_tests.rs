use torrentino_core::content::{
    build_fallback_queries, try_build_fallback_queries, cover_art_candidates, is_discography_candidate as context_is_discography,
    subdir_cover_art_candidates, ContentError, PostProcessResult,
};
use torrentino_core::converter::AudioFormat;
use torrentino_core::music::{
    add_query, build_queries, dedup_query_list, try_build_queries, QueryBuildError, is_artist_cleanable, try_build_album_queries,
    try_build_discography_queries, try_build_track_queries, try_clean_artist_name,
    try_clean_track_title,
    build_album_queries, build_discography_queries, build_track_queries, clean_album_title,
    clean_artist_name, clean_track_title, extract_bitrate, get_format_keywords,
    is_discography_candidate, is_stop_word,
};
use torrentino_core::searcher::{TorrentCandidate, TorrentSource};
use torrentino_core::text::normalize_text;
use torrentino_core::ticket::{
    AudioSearchConstraints, ExpectedContent, ExpectedTrack, QueryContext, SearchConstraints,
};

fn make_query_context(description: &str, expected: Option<ExpectedContent>) -> QueryContext {
    QueryContext {
        tags: vec![],
        description: description.to_string(),
        expected,
        search_constraints: None,
    }
}

fn make_candidate(title: &str, seeders: u32) -> TorrentCandidate {
    TorrentCandidate {
        title: title.to_string(),
        info_hash: "abc123".to_string(),
        size_bytes: 500_000_000,
        seeders,
        leechers: 5,
        category: None,
        publish_date: None,
        files: None,
        sources: vec![TorrentSource {
            indexer: "test".to_string(),
            magnet_uri: Some("magnet:?xt=urn:btih:abc123".to_string()),
            torrent_url: None,
            seeders,
            leechers: 5,
            details_url: None,
        }],
        from_cache: false,
    }
}

fn content_candidate(title: &str) -> TorrentCandidate {
    let mut c = make_candidate(title, 10);
    c.size_bytes = 100_000_000;
    c.leechers = 2;
    c
}

fn pink_floyd_album() -> Option<ExpectedContent> {
    Some(ExpectedContent::Album {
        artist: Some("Pink Floyd".to_string()),
        title: "Dark Side of the Moon".to_string(),
        tracks: vec![],
    })
}

#[test]
fn test_build_fallback_queries_returns_discography_queries_for_album() {
    let context = make_query_context("Dark Side of the Moon by Pink Floyd", pink_floyd_album());
    let queries = build_fallback_queries(&context);
    assert!(!queries.is_empty());
    assert!(queries.iter().any(|q| q.contains("discography")));
    assert!(queries.iter().any(|q| q.to_lowercase().contains("pink floyd")));
}

#[test]
fn test_build_fallback_queries_returns_empty_for_video() {
    let context = make_query_context(
        "Inception 2010",
        Some(ExpectedContent::Movie { title: "Inception".to_string(), year: Some(2010) }),
    );
    let queries = build_fallback_queries(&context);
    assert!(queries.is_empty());
}

#[test]
fn test_build_fallback_queries_returns_empty_for_album_without_artist() {
    let context = make_query_context(
        "Some Album",
        Some(ExpectedContent::Album { artist: None, title: "Some Album".to_string(), tracks: vec![] }),
    );
    let queries = build_fallback_queries(&context);
    assert!(queries.is_empty());
}

#[test]
fn test_is_discography_candidate_detects_discography_keyword() {
    let context = make_query_context("Dark Side of the Moon", pink_floyd_album());
    let discography_candidate = content_candidate("Pink Floyd - Discography (1967-2014) FLAC");
    assert!(context_is_discography(&context, &discography_candidate));
    let album_candidate = content_candidate("Pink Floyd - Dark Side of the Moon FLAC");
    assert!(!context_is_discography(&context, &album_candidate));
}

#[test]
fn test_is_discography_candidate_detects_collection_keyword() {
    let context = make_query_context("Dark Side of the Moon", pink_floyd_album());
    let collection_candidate = content_candidate("Pink Floyd - Complete Collection FLAC");
    assert!(context_is_discography(&context, &collection_candidate));
}

#[test]
fn discography_never_for_video_tickets() {
    let context = make_query_context(
        "Inception",
        Some(ExpectedContent::Movie { title: "Inception".to_string(), year: None }),
    );
    assert!(!context_is_discography(&context, &content_candidate("Nolan Complete Collection")));
}

#[test]
fn test_content_error_display() {
    let err = ContentError::FetchFailed {
        asset_type: "cover art".to_string(),
        reason: "404 not found".to_string(),
    };
    assert_eq!(err.message().unwrap(), "failed to fetch cover art: 404 not found");
}

#[test]
fn test_build_discography_queries_with_artist() {
    let queries = build_discography_queries(Some("Pink Floyd"), None);
    assert!(!queries.is_empty());
    assert!(queries.iter().any(|q| q.contains("discography")));
    assert!(queries.iter().any(|q| q.contains("complete")));
    assert!(queries.iter().any(|q| q.contains("collection")));
    assert!(queries.iter().all(|q| q.to_lowercase().contains("pink floyd")));
}

#[test]
fn test_build_discography_queries_without_artist() {
    let queries = build_discography_queries(None, None);
    assert!(queries.is_empty());
}

#[test]
fn test_build_discography_queries_with_format_constraints() {
    let constraints = AudioSearchConstraints {
        preferred_formats: vec![AudioFormat::Flac],
        min_bitrate_kbps: None,
        avoid_compilations: false,
        avoid_live: false,
    };
    let queries = build_discography_queries(Some("Beatles"), Some(&constraints));
    assert!(queries.iter().any(|q| q.contains("FLAC") && q.contains("discography")));
}

#[test]
fn discography_queries_exact_without_constraints() {
    let queries = build_discography_queries(Some("Queen feat. Bowie"), None);
    assert_eq!(
        queries,
        vec![
            "Queen discography FLAC",
            "Queen discography",
            "Queen complete FLAC",
            "Queen complete discography",
            "Queen complete collection",
            "Queen collection",
            "Queen all albums",
            "Queen studio albums",
            "Queen anthology",
            "Queen box set",
            "Queen FLAC"
        ]
    );
}

#[test]
fn test_is_discography_candidate_keyword_detection() {
    let candidate = make_candidate("Pink Floyd - Discography (1967-2014) FLAC", 50);
    assert!(is_discography_candidate(Some("Pink Floyd"), &candidate));
    let candidate = make_candidate("Beatles - Complete Studio Albums FLAC", 50);
    assert!(is_discography_candidate(Some("Beatles"), &candidate));
    let candidate = make_candidate("Led Zeppelin - Anthology Box Set", 50);
    assert!(is_discography_candidate(Some("Led Zeppelin"), &candidate));
}

#[test]
fn test_is_discography_candidate_year_range_detection() {
    let candidate = make_candidate("Pink Floyd 1967-2014 FLAC", 50);
    assert!(is_discography_candidate(Some("Pink Floyd"), &candidate));
    let candidate = make_candidate("Radiohead [1993-2016] Complete", 50);
    assert!(is_discography_candidate(Some("Radiohead"), &candidate));
}

#[test]
fn test_is_discography_candidate_rejects_regular_album() {
    let candidate = make_candidate("Pink Floyd - Dark Side of the Moon FLAC", 50);
    assert!(!is_discography_candidate(Some("Pink Floyd"), &candidate));
    let candidate = make_candidate("Beatles - Abbey Road [2019 Remaster]", 50);
    assert!(!is_discography_candidate(Some("Beatles"), &candidate));
}

#[test]
fn test_is_discography_candidate_large_size_heuristic() {
    let mut candidate = make_candidate("Pink Floyd FLAC Collection", 50);
    candidate.size_bytes = 10_000_000_000;
    assert!(is_discography_candidate(Some("Pink Floyd"), &candidate));
    let mut candidate = make_candidate("Pink Floyd FLAC", 50);
    candidate.size_bytes = 500_000_000;
    assert!(!is_discography_candidate(Some("Pink Floyd"), &candidate));
}

#[test]
fn test_clean_album_title() {
    assert_eq!(clean_album_title("Abbey Road (Remastered)"), "Abbey Road");
    assert_eq!(clean_album_title("Rumours (Deluxe Edition)"), "Rumours");
}

#[test]
fn test_clean_artist_name() {
    assert_eq!(clean_artist_name("Queen feat. David Bowie"), "Queen");
    assert_eq!(clean_artist_name("Pink Floyd ft. Roger Waters"), "Pink Floyd");
}

#[test]
fn clean_track_title_drops_featuring() {
    assert_eq!(clean_track_title("Under Pressure (feat. David Bowie)"), "Under Pressure");
    assert_eq!(clean_track_title("  Yesterday  "), "Yesterday");
}

fn make_album_context(artist: Option<&str>, title: &str, tracks: Vec<ExpectedTrack>) -> QueryContext {
    QueryContext {
        tags: vec!["music".to_string(), "flac".to_string()],
        description: format!("{} {}", artist.unwrap_or(""), title),
        expected: Some(ExpectedContent::Album {
            artist: artist.map(String::from),
            title: title.to_string(),
            tracks,
        }),
        search_constraints: None,
    }
}

fn make_track_context(artist: Option<&str>, title: &str) -> QueryContext {
    QueryContext {
        tags: vec!["music".to_string()],
        description: format!("{} {}", artist.unwrap_or(""), title),
        expected: Some(ExpectedContent::Track {
            artist: artist.map(String::from),
            title: title.to_string(),
        }),
        search_constraints: None,
    }
}

#[test]
fn test_build_album_queries() {
    let context = make_album_context(Some("Pink Floyd"), "Dark Side of the Moon", vec![]);
    let result = build_queries(&context).unwrap();
    assert_eq!(result.method, "music");
    assert!(!result.queries.is_empty());
    assert!(result.queries.iter().any(|q| q.contains("Pink Floyd") && q.contains("Dark Side")));
    assert!(result.queries.iter().any(|q| q.contains("FLAC")));
}

#[test]
fn album_queries_mention_complete_album_for_long_albums() {
    let queries = build_album_queries(Some("Beatles"), "Abbey Road", 17, None);
    assert!(queries.contains(&"Beatles complete album".to_string()));
    let queries = build_album_queries(Some("Beatles"), "Abbey Road", 8, None);
    assert!(!queries.contains(&"Beatles complete album".to_string()));
}

#[test]
fn test_build_track_queries() {
    let context = make_track_context(Some("Beatles"), "Yesterday");
    let result = build_queries(&context).unwrap();
    assert_eq!(result.method, "music");
    assert!(!result.queries.is_empty());
    assert!(result.queries.iter().any(|q| q.contains("Beatles") && q.contains("Yesterday")));
}

#[test]
fn test_build_queries_dispatches_to_music_album() {
    let context = make_query_context(
        "Dark Side of the Moon by Pink Floyd",
        Some(ExpectedContent::Album {
            artist: Some("Pink Floyd".to_string()),
            title: "Dark Side of the Moon".to_string(),
            tracks: vec![],
        }),
    );
    let result = build_queries(&context).unwrap();
    assert!(!result.queries.is_empty());
}

#[test]
fn test_build_queries_dispatches_to_music_track() {
    let context = make_query_context(
        "Comfortably Numb by Pink Floyd",
        Some(ExpectedContent::Track {
            artist: Some("Pink Floyd".to_string()),
            title: "Comfortably Numb".to_string(),
        }),
    );
    let result = build_queries(&context).unwrap();
    assert!(!result.queries.is_empty());
}

#[test]
fn music_queries_leave_other_content_to_the_generic_builder() {
    let movie = make_query_context(
        "Inception 2010",
        Some(ExpectedContent::Movie { title: "Inception".to_string(), year: Some(2010) }),
    );
    assert_eq!(build_queries(&movie).unwrap_err(), QueryBuildError::NotMusic);
    assert_eq!(build_queries(&make_query_context("x", None)).unwrap_err(), QueryBuildError::NotMusic);
    let album = make_album_context(Some("Queen"), "Jazz", vec![]);
    assert_eq!(build_queries(&album).unwrap().queries, build_album_queries(Some("Queen"), "Jazz", 0, None));
    let bad = make_track_context(Some("\u{212A}\u{212A} feat X"), "Song");
    assert!(try_build_queries(&bad).is_none());
    let good = make_track_context(Some("Beatles"), "Yesterday");
    assert_eq!(
        try_build_queries(&good).unwrap().unwrap().queries,
        build_track_queries(Some("Beatles"), "Yesterday", None)
    );
}

#[test]
fn format_keywords_follow_preferences() {
    assert_eq!(get_format_keywords(None), vec!["FLAC"]);
    let constraints = AudioSearchConstraints {
        preferred_formats: vec![AudioFormat::Mp3, AudioFormat::Wav, AudioFormat::Alac],
        min_bitrate_kbps: Some(320),
        avoid_compilations: true,
        avoid_live: true,
    };
    assert_eq!(get_format_keywords(Some(&constraints)), vec!["MP3", "ALAC"]);
}

#[test]
fn stop_words() {
    assert!(is_stop_word("the"));
    assert!(is_stop_word("of"));
    assert!(!is_stop_word("The"));
    assert!(!is_stop_word("moon"));
}

#[test]
fn bitrate_extraction() {
    assert_eq!(extract_bitrate("album mp3 320kbps"), Some(320));
    assert_eq!(extract_bitrate("album 320 kbps"), Some(320));
    assert_eq!(extract_bitrate("album flac"), None);
}

#[test]
fn normalize_whitespace() {
    assert_eq!(normalize_text("  Abbey   Road \t"), "Abbey Road");
}

#[test]
fn expected_track_new() {
    let t = ExpectedTrack::new(3, "Money");
    assert_eq!(t.number, 3);
    assert_eq!(t.title, "Money");
    assert!(t.duration_ms.is_none());
}

#[test]
fn checked_cleaning_refuses_unsplittable_names() {
    assert_eq!(try_clean_artist_name("Queen feat. Bowie"), Some("Queen".to_string()));
    assert_eq!(try_clean_artist_name("\u{212A}\u{212A} feat X"), None);
    assert_eq!(try_clean_track_title("Song (feat. X)"), Some("Song".to_string()));
    assert!(try_build_discography_queries(Some("\u{212A}\u{212A} feat X"), None).is_none());
    assert_eq!(try_build_discography_queries(None, None), Some(vec![]));
}

#[test]
fn test_post_process_result_default() {
    let result = PostProcessResult::default();
    assert!(result.cover_art_path.is_none());
    assert!(result.subtitle_paths.is_empty());
    assert!(result.warnings.is_empty());
}

#[test]
fn test_post_process_result_with_cover_art() {
    let result = PostProcessResult::with_cover_art("/tmp/cover.jpg".to_string());
    assert_eq!(result.cover_art_path, Some("/tmp/cover.jpg".to_string()));
}

#[test]
fn post_process_result_builders() {
    let mut r = PostProcessResult::with_subtitles(vec!["/s/en.srt".to_string()]);
    r.add_warning("no cover".to_string());
    assert_eq!(r.subtitle_paths, vec!["/s/en.srt".to_string()]);
    assert_eq!(r.warnings, vec!["no cover".to_string()]);
    assert!(PostProcessResult::empty().metadata.is_none());
}

#[test]
fn cover_art_search_order() {
    let c = cover_art_candidates("/dl/Album");
    assert_eq!(c.len(), 24);
    assert_eq!(c[0], "/dl/Album/cover.jpg");
    assert_eq!(c[1], "/dl/Album/COVER.JPG");
    assert_eq!(c[23], "/dl/Album/ALBUM.PNG");
    let s = subdir_cover_art_candidates("/dl/Album/CD1");
    assert_eq!(s.len(), 12);
    assert_eq!(s[3], "/dl/Album/CD1/folder.jpg");
}

#[test]
fn dedup_keeps_first_spelling_and_drops_empty() {
    let cands = vec![
        "Pink Floyd FLAC".to_string(),
        "pink floyd flac".to_string(),
        "".to_string(),
        "Pink Floyd discography".to_string(),
        "PINK FLOYD DISCOGRAPHY".to_string(),
    ];
    assert_eq!(
        dedup_query_list(&cands),
        vec!["Pink Floyd FLAC".to_string(), "Pink Floyd discography".to_string()]
    );
    assert!(dedup_query_list(&vec![]).is_empty());
}

#[test]
fn add_query_tracks_lowercased_forms() {
    let mut queries: Vec<String> = vec![];
    let mut seen: Vec<String> = vec![];
    add_query(&mut queries, &mut seen, "Abbey Road".to_string());
    add_query(&mut queries, &mut seen, "ABBEY ROAD".to_string());
    add_query(&mut queries, &mut seen, "".to_string());
    add_query(&mut queries, &mut seen, "Let It Be".to_string());
    assert_eq!(queries, vec!["Abbey Road".to_string(), "Let It Be".to_string()]);
    assert_eq!(seen, vec!["abbey road".to_string(), "let it be".to_string()]);
}

#[test]
fn checked_query_builders_refuse_uncleanable_names() {
    assert!(is_artist_cleanable("Queen feat. Bowie"));
    assert!(is_artist_cleanable("Queen"));
    assert!(!is_artist_cleanable("\u{212A}\u{212A} feat X"));

    let album = try_build_album_queries(Some("Pink Floyd"), "Animals", 0, None).unwrap();
    assert_eq!(album, build_album_queries(Some("Pink Floyd"), "Animals", 0, None));
    assert!(try_build_album_queries(Some("\u{212A}\u{212A} feat X"), "Animals", 0, None).is_none());

    let track = try_build_track_queries(Some("Beatles"), "Yesterday", None).unwrap();
    assert_eq!(track, build_track_queries(Some("Beatles"), "Yesterday", None));
    assert!(try_build_track_queries(Some("\u{212A}\u{212A} feat X"), "Yesterday", None).is_none());
}

#[test]
fn checked_fallback_queries_match_unchecked_ones() {
    let context = make_query_context(
        "some album",
        Some(ExpectedContent::Album {
            artist: Some("Radiohead".to_string()),
            title: "OK Computer".to_string(),
            tracks: vec![],
        }),
    );
    assert_eq!(try_build_fallback_queries(&context), Some(build_fallback_queries(&context)));
    let generic = make_query_context("anything", None);
    assert_eq!(try_build_fallback_queries(&generic), Some(vec![]));
}

#[test]
fn context_audio_constraints() {
    let mut context = make_query_context("x", None);
    assert!(context.audio_constraints().is_none());
    context.search_constraints = Some(SearchConstraints { audio: None });
    assert!(context.audio_constraints().is_none());
    context.search_constraints = Some(SearchConstraints {
        audio: Some(AudioSearchConstraints {
            preferred_formats: vec![AudioFormat::Opus],
            min_bitrate_kbps: Some(128),
            avoid_compilations: false,
            avoid_live: true,
        }),
    });
    let audio = context.audio_constraints().unwrap();
    assert_eq!(audio.min_bitrate_kbps, Some(128));
    assert!(audio.avoid_live);
}
