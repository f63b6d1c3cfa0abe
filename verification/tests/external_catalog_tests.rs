use torrentino_core::external_catalog::{
    default_rate_limit, default_user_agent, MbArtist, MbArtistCredit, MbCoverArtArchive, MbMedium,
    MbRelease, MbTrack, MusicBrainzConfig, MusicBrainzRelease, MusicBrainzTrack,
    TmdbSeasonResult, TmdbSeasonSummary, release_year, season_runtime_minutes,
    musicbrainz_base_url, rate_limit_wait_ms, response_error, search_limit, tmdb_movie_subject,
    tmdb_season_subject, tmdb_series_subject, tmdb_settings, CatalogRequest, ExternalCatalogError,
    TmdbConfig,
};

fn track(position: u32, title: &str, duration_ms: Option<u64>) -> MusicBrainzTrack {
    MusicBrainzTrack {
        position,
        title: title.to_string(),
        duration_ms,
        disc_number: None,
        artist_credit: None,
    }
}

fn release(tracks: Vec<MusicBrainzTrack>) -> MusicBrainzRelease {
    MusicBrainzRelease {
        mbid: "test".to_string(),
        title: "Test Album".to_string(),
        artist_credit: "Test Artist".to_string(),
        release_date: None,
        tracks,
        cover_art_available: false,
        disambiguation: None,
        country: None,
    }
}

#[test]
fn test_musicbrainz_release_total_duration() {
    let release = release(vec![
        track(1, "Track 1", Some(180_000)),
        track(2, "Track 2", Some(240_000)),
    ]);
    assert_eq!(release.total_duration_ms(), Some(420_000));
}

#[test]
fn total_duration_needs_every_track() {
    assert_eq!(release(vec![]).total_duration_ms(), None);
    let partial = release(vec![track(1, "a", Some(1000)), track(2, "b", None)]);
    assert_eq!(partial.total_duration_ms(), None);
}

fn credit(name: Option<&str>, artist: &str, join: Option<&str>) -> MbArtistCredit {
    MbArtistCredit {
        name: name.map(|s| s.to_string()),
        artist: MbArtist { name: artist.to_string() },
        joinphrase: join.map(|s| s.to_string()),
    }
}

#[test]
fn test_artist_credit_parsing() {
    let mb_release = MbRelease {
        id: "test-id".to_string(),
        title: "Test Album".to_string(),
        artist_credit: vec![
            credit(Some("Artist 1"), "Artist 1", Some(" & ")),
            credit(Some("Artist 2"), "Artist 2", None),
        ],
        date: Some("2023-01-01".to_string()),
        country: Some("US".to_string()),
        disambiguation: None,
        cover_art_archive: Some(MbCoverArtArchive { artwork: true }),
        media: vec![],
    };
    let release = MusicBrainzRelease::from_api(mb_release);
    assert_eq!(release.artist_credit, "Artist 1 & Artist 2");
    assert!(release.cover_art_available);
}

#[test]
fn test_tracks_from_media() {
    let mb_release = MbRelease {
        id: "test-id".to_string(),
        title: "Test Album".to_string(),
        artist_credit: vec![credit(Some("Artist"), "Artist", None)],
        date: None,
        country: None,
        disambiguation: None,
        cover_art_archive: None,
        media: vec![
            MbMedium {
                position: 1,
                tracks: vec![
                    MbTrack {
                        position: 1,
                        title: "Track 1".to_string(),
                        length: Some(180000),
                        artist_credit: vec![],
                    },
                    MbTrack {
                        position: 2,
                        title: "Track 2".to_string(),
                        length: Some(200000),
                        artist_credit: vec![],
                    },
                ],
            },
            MbMedium {
                position: 2,
                tracks: vec![MbTrack {
                    position: 1,
                    title: "Track 3".to_string(),
                    length: Some(220000),
                    artist_credit: vec![],
                }],
            },
        ],
    };
    let release = MusicBrainzRelease::from_api(mb_release);
    assert_eq!(release.tracks.len(), 3);
    assert_eq!(release.tracks[0].disc_number, Some(1));
    assert_eq!(release.tracks[2].disc_number, Some(2));
    assert_eq!(release.tracks[2].title, "Track 3");
}

#[test]
fn track_credit_falls_back_to_artist_name_and_disc_zero_is_unknown() {
    let mb_release = MbRelease {
        id: "x".to_string(),
        title: "y".to_string(),
        artist_credit: vec![],
        date: None,
        country: None,
        disambiguation: Some("live".to_string()),
        cover_art_archive: Some(MbCoverArtArchive { artwork: false }),
        media: vec![MbMedium {
            position: 0,
            tracks: vec![MbTrack {
                position: 4,
                title: "Duet".to_string(),
                length: None,
                artist_credit: vec![credit(None, "Singer A", Some(" feat. ")), credit(None, "Singer B", None)],
            }],
        }],
    };
    let release = MusicBrainzRelease::from_api(mb_release);
    assert_eq!(release.artist_credit, "");
    assert!(!release.cover_art_available);
    assert_eq!(release.disambiguation, Some("live".to_string()));
    assert_eq!(release.tracks[0].disc_number, None);
    assert_eq!(release.tracks[0].artist_credit, Some("Singer A feat. Singer B".to_string()));
    assert_eq!(release.tracks[0].position, 4);
}

#[test]
fn musicbrainz_defaults() {
    let c = MusicBrainzConfig::default();
    assert_eq!(c.rate_limit_ms, 1100);
    assert_eq!(default_rate_limit(), 1100);
    assert!(default_user_agent().starts_with("QuentinTorrentino/"));
    assert!(c.base_url.is_none());
}

#[test]
fn season_summary_from_listing() {
    let s = TmdbSeasonSummary::from_api(TmdbSeasonResult {
        season_number: 0,
        name: Some("Specials".to_string()),
        episode_count: None,
        air_date: None,
        poster_path: None,
    });
    assert_eq!(s.season_number, 0);
    assert_eq!(s.episode_count, 0);
    assert_eq!(s.name, Some("Specials".to_string()));
}

#[test]
fn test_tmdb_movie_year() {
    let release_date = Some("1999-03-31".to_string());
    assert_eq!(release_year(&release_date), Some(1999));
}

#[test]
fn test_tmdb_season_total_runtime() {
    let episode_runtimes = vec![Some(45), Some(42)];
    assert_eq!(season_runtime_minutes(&episode_runtimes), Some(87));
}

#[test]
fn release_year_edge_cases() {
    assert_eq!(release_year(&None), None);
    assert_eq!(release_year(&Some("2024".to_string())), Some(2024));
    assert_eq!(release_year(&Some("".to_string())), None);
    assert_eq!(release_year(&Some("-03-31".to_string())), None);
    assert_eq!(release_year(&Some("19x9-03-31".to_string())), None);
    assert_eq!(release_year(&Some("+2001-01-01".to_string())), Some(2001));
    assert_eq!(release_year(&Some("99999999999-01-01".to_string())), None);
}

#[test]
fn season_runtime_needs_every_episode() {
    assert_eq!(season_runtime_minutes(&vec![]), None);
    assert_eq!(season_runtime_minutes(&vec![Some(30), None, Some(30)]), None);
    assert_eq!(season_runtime_minutes(&vec![Some(0)]), Some(0));
}

#[test]
fn musicbrainz_response_statuses() {
    assert!(response_error(CatalogRequest::MusicBrainz, 200, "q", "").is_none());
    assert!(matches!(
        response_error(CatalogRequest::MusicBrainz, 429, "q", "slow"),
        Some(ExternalCatalogError::RateLimitExceeded)
    ));
    assert!(matches!(
        response_error(CatalogRequest::MusicBrainz, 404, "pink floyd", "x"),
        Some(ExternalCatalogError::NotFound(s)) if s == "pink floyd"
    ));
    assert!(matches!(
        response_error(CatalogRequest::MusicBrainz, 503, "q", "down"),
        Some(ExternalCatalogError::ApiError { status: 503, message }) if message == "down"
    ));
    assert!(matches!(
        response_error(CatalogRequest::MusicBrainz, 401, "q", "no"),
        Some(ExternalCatalogError::ApiError { status: 401, .. })
    ));
}

#[test]
fn tmdb_response_statuses() {
    assert!(matches!(
        response_error(CatalogRequest::TmdbSearch, 401, "q", ""),
        Some(ExternalCatalogError::NotConfigured(m)) if m == "Invalid TMDB API key"
    ));
    assert!(matches!(
        response_error(CatalogRequest::TmdbSearch, 429, "q", ""),
        Some(ExternalCatalogError::RateLimitExceeded)
    ));
    assert!(matches!(
        response_error(CatalogRequest::TmdbSearch, 404, "q", "gone"),
        Some(ExternalCatalogError::ApiError { status: 404, message }) if message == "gone"
    ));
    assert!(matches!(
        response_error(CatalogRequest::TmdbLookup, 404, &tmdb_movie_subject(27205), ""),
        Some(ExternalCatalogError::NotFound(s)) if s == "Movie ID 27205"
    ));
    assert!(matches!(
        response_error(CatalogRequest::TmdbLookup, 429, "q", "busy"),
        Some(ExternalCatalogError::ApiError { status: 429, .. })
    ));
    assert!(response_error(CatalogRequest::TmdbLookup, 204, "q", "").is_none());
    assert_eq!(tmdb_series_subject(1396), "TV series ID 1396");
    assert_eq!(tmdb_season_subject(1396, 2), "TV series 1396 season 2");
}

#[test]
fn external_catalog_error_messages() {
    assert_eq!(
        ExternalCatalogError::ApiError { status: 500, message: "boom".to_string() }.message(),
        "API error: 500 - boom"
    );
    assert_eq!(ExternalCatalogError::NotFound("x".to_string()).message(), "Resource not found: x");
    assert_eq!(
        ExternalCatalogError::RateLimitExceeded.message(),
        "Rate limit exceeded, please wait before retrying"
    );
}

#[test]
fn client_settings_and_limits() {
    assert_eq!(search_limit(25), 25);
    assert_eq!(search_limit(100), 100);
    assert_eq!(search_limit(500), 100);
    assert_eq!(rate_limit_wait_ms(None, 1000), 0);
    assert_eq!(rate_limit_wait_ms(Some(300), 1000), 700);
    assert_eq!(rate_limit_wait_ms(Some(1500), 1000), 0);
    assert_eq!(musicbrainz_base_url(&MusicBrainzConfig::default()), "https://musicbrainz.org/ws/2");
    let empty = TmdbConfig { api_key: String::new(), base_url: None, image_base_url: None };
    assert!(matches!(
        tmdb_settings(&empty),
        Err(ExternalCatalogError::NotConfigured(m)) if m == "TMDB API key is required"
    ));
    let keyed = TmdbConfig { api_key: "k".to_string(), base_url: None, image_base_url: Some("img".to_string()) };
    let s = tmdb_settings(&keyed).unwrap();
    assert_eq!(s.base_url, "https://api.themoviedb.org/3");
    assert_eq!(s.image_base_url, "img");
    assert_eq!(s.api_key, "k");
}
