//! External metadata catalogs (MusicBrainz, TMDB): their configuration, the
//! release records the library works with, the conversion of a MusicBrainz
//! API release into such a record, and the release year and season runtime
//! read from TMDB records, and what the clients make of an API response's
//! status, of their settings and of the rate limit.  The HTTP exchanges
//! live outside the library; they hand over statuses and decoded records.

use vstd::prelude::*;

use crate::text::{
    before_char, concat2, concat4, decimal, decimal_string, concat3, copy_opt_string, copy_string, opt_view, parse_unsigned, parsed_unsigned,
    prefix_before,
};

verus! {

// ---------------------------------------------------------------------------
// Configuration
// ---------------------------------------------------------------------------

/// MusicBrainz client configuration.
#[derive(Debug, Clone)]
pub struct MusicBrainzConfig {
    /// User-Agent string (required by MusicBrainz).
    pub user_agent: String,
    /// Delay between requests in milliseconds.
    pub rate_limit_ms: u64,
    /// Base URL of the API, when not the public one.
    pub base_url: Option<String>,
}

/// The User-Agent sent when none is configured.
pub open spec fn default_user_agent_text() -> Seq<char> {
    "QuentinTorrentino/0.1.0 ( https://github.com/quentin )"@
}

/// The User-Agent sent when none is configured.
pub fn default_user_agent() -> (s: String)
    ensures
        s@ == default_user_agent_text(),
{
    "QuentinTorrentino/0.1.0 ( https://github.com/quentin )".to_owned()
}

/// Delay between MusicBrainz requests when none is configured: a little
/// over one second, the service's limit being one request per second.
pub fn default_rate_limit() -> (ms: u64)
    ensures
        ms == 1100,
{
    1100
}

impl Default for MusicBrainzConfig {
    fn default() -> (c: Self)
        ensures
            c.user_agent@ == default_user_agent_text(),
            c.rate_limit_ms == 1100,
            c.base_url is None,
    {
        MusicBrainzConfig {
            user_agent: default_user_agent(),
            rate_limit_ms: default_rate_limit(),
            base_url: None,
        }
    }
}

/// TMDB client configuration.
#[derive(Debug, Clone)]
pub struct TmdbConfig {
    /// TMDB API key.
    pub api_key: String,
    /// Base URL of the API, when not the public one.
    pub base_url: Option<String>,
    /// Base URL for posters and backdrops.
    pub image_base_url: Option<String>,
}

// ---------------------------------------------------------------------------
// Responses of the catalog APIs
// ---------------------------------------------------------------------------

/// Errors of the external catalogs that the library decides on.  (A failed
/// HTTP exchange is reported by the client itself.)
#[derive(Debug, Clone)]
pub enum ExternalCatalogError {
    /// Rate limit exceeded.
    RateLimitExceeded,
    /// Resource not found (404).
    NotFound(String),
    /// The API returned an error status.
    ApiError { status: u16, message: String },
    /// The response could not be decoded.
    ParseError(String),
    /// Client not configured (missing API key, etc.).
    NotConfigured(String),
}

/// The message of an external catalog error.
pub open spec fn external_catalog_error_message(e: ExternalCatalogError) -> Seq<char> {
    match e {
        ExternalCatalogError::RateLimitExceeded => "Rate limit exceeded, please wait before retrying"@,
        ExternalCatalogError::NotFound(m) => "Resource not found: "@ + m@,
        ExternalCatalogError::ApiError { status, message } => "API error: "@ + decimal(status as nat)
            + " - "@ + message@,
        ExternalCatalogError::ParseError(m) => "Failed to parse response: "@ + m@,
        ExternalCatalogError::NotConfigured(m) => "Client not configured: "@ + m@,
    }
}

impl ExternalCatalogError {
    /// The error message.
    pub fn message(&self) -> (m: String)
        ensures
            m@ == external_catalog_error_message(*self),
    {
        match self {
            ExternalCatalogError::RateLimitExceeded => "Rate limit exceeded, please wait before retrying".to_owned(),
            ExternalCatalogError::NotFound(m) => concat2("Resource not found: ", m.as_str()),
            ExternalCatalogError::ApiError { status, message } => {
                let code = decimal_string(*status as u64);
                concat4("API error: ", code.as_str(), " - ", message.as_str())
            },
            ExternalCatalogError::ParseError(m) => concat2("Failed to parse response: ", m.as_str()),
            ExternalCatalogError::NotConfigured(m) => concat2("Client not configured: ", m.as_str()),
        }
    }
}

/// The kind of request whose response is judged.
#[derive(Debug, Clone, Copy, PartialEq, Eq, Structural)]
pub enum CatalogRequest {
    /// A MusicBrainz search or release lookup.
    MusicBrainz,
    /// A TMDB search (movies or TV).
    TmdbSearch,
    /// A TMDB lookup by ID (movie, series or season).
    TmdbLookup,
}

/// A successful HTTP status (2xx).
pub open spec fn success_status(status: u16) -> bool {
    200 <= status <= 299
}

/// `e` is what a response with `status` means for a request of kind
/// `request` about `subject`, whose body (read only on failure) is `body`:
/// - TMDB search: 401 means an invalid API key;
/// - MusicBrainz and TMDB search: 429 is a rate-limit error;
/// - MusicBrainz and TMDB lookup: 404 is "not found" for the subject;
/// - any other unsuccessful status is an API error with the body as its
///   message; a successful one is no error.
pub open spec fn response_verdict(
    request: CatalogRequest,
    status: u16,
    subject: Seq<char>,
    body: Seq<char>,
    e: Option<ExternalCatalogError>,
) -> bool {
    if request == CatalogRequest::TmdbSearch && status == 401 {
        e matches Some(ExternalCatalogError::NotConfigured(m)) && m@ == "Invalid TMDB API key"@
    } else if request != CatalogRequest::TmdbLookup && status == 429 {
        e matches Some(ExternalCatalogError::RateLimitExceeded)
    } else if request != CatalogRequest::TmdbSearch && status == 404 {
        e matches Some(ExternalCatalogError::NotFound(m)) && m@ == subject
    } else if !success_status(status) {
        e matches Some(ExternalCatalogError::ApiError { status: s, message }) && s == status
            && message@ == body
    } else {
        e is None
    }
}

/// The error of a catalog response, if it is one (see [`response_verdict`]).
pub fn response_error(request: CatalogRequest, status: u16, subject: &str, body: &str) -> (e: Option<
    ExternalCatalogError,
>)
    ensures
        response_verdict(request, status, subject@, body@, e),
{
    if request == CatalogRequest::TmdbSearch && status == 401 {
        Some(ExternalCatalogError::NotConfigured("Invalid TMDB API key".to_owned()))
    } else if request != CatalogRequest::TmdbLookup && status == 429 {
        Some(ExternalCatalogError::RateLimitExceeded)
    } else if request != CatalogRequest::TmdbSearch && status == 404 {
        Some(ExternalCatalogError::NotFound(subject.to_owned()))
    } else if !(200 <= status && status <= 299) {
        Some(ExternalCatalogError::ApiError { status, message: body.to_owned() })
    } else {
        None
    }
}

/// The number of results asked of a MusicBrainz search: at most 100.
pub fn search_limit(limit: u32) -> (n: u32)
    ensures
        n == if limit <= 100 {
            limit
        } else {
            100
        },
{
    if limit <= 100 {
        limit
    } else {
        100
    }
}

/// How long to wait before the next MusicBrainz request: what is left of
/// the rate-limit interval since the previous request (none before the
/// first request, or once the interval has passed).
pub fn rate_limit_wait_ms(since_last_ms: Option<u64>, rate_limit_ms: u64) -> (w: u64)
    ensures
        w == match since_last_ms {
            Some(e) => if e < rate_limit_ms {
                (rate_limit_ms - e) as u64
            } else {
                0
            },
            None => 0,
        },
{
    match since_last_ms {
        Some(e) => if e < rate_limit_ms {
            rate_limit_ms - e
        } else {
            0
        },
        None => 0,
    }
}

/// The MusicBrainz API base URL of a configuration: the configured one,
/// else the public service.
pub fn musicbrainz_base_url(config: &MusicBrainzConfig) -> (u: String)
    ensures
        u@ == match config.base_url {
            Some(b) => b@,
            None => "https://musicbrainz.org/ws/2"@,
        },
{
    match &config.base_url {
        Some(b) => copy_string(b),
        None => "https://musicbrainz.org/ws/2".to_owned(),
    }
}

/// The settings a TMDB client runs with.
#[derive(Debug, Clone)]
pub struct TmdbSettings {
    /// API base URL.
    pub base_url: String,
    /// API key.
    pub api_key: String,
    /// Image base URL.
    pub image_base_url: String,
}

/// The settings of a TMDB client: an API key is required; the base URLs
/// default to the public service.
pub fn tmdb_settings(config: &TmdbConfig) -> (r: Result<TmdbSettings, ExternalCatalogError>)
    ensures
        config.api_key@.len() == 0 ==> (r matches Err(ExternalCatalogError::NotConfigured(m)) && m@
            == "TMDB API key is required"@),
        config.api_key@.len() > 0 ==> (r matches Ok(t) && t.api_key@ == config.api_key@
            && t.base_url@ == match config.base_url {
            Some(b) => b@,
            None => "https://api.themoviedb.org/3"@,
        } && t.image_base_url@ == match config.image_base_url {
            Some(b) => b@,
            None => "https://image.tmdb.org/t/p"@,
        }),
{
    if config.api_key.as_str().is_empty() {
        return Err(ExternalCatalogError::NotConfigured("TMDB API key is required".to_owned()));
    }
    let base_url = match &config.base_url {
        Some(b) => copy_string(b),
        None => "https://api.themoviedb.org/3".to_owned(),
    };
    let image_base_url = match &config.image_base_url {
        Some(b) => copy_string(b),
        None => "https://image.tmdb.org/t/p".to_owned(),
    };
    Ok(TmdbSettings { base_url, api_key: copy_string(&config.api_key), image_base_url })
}

/// The subject of a TMDB movie lookup, as a not-found error names it.
pub fn tmdb_movie_subject(tmdb_id: u32) -> (s: String)
    ensures
        s@ == "Movie ID "@ + decimal(tmdb_id as nat),
{
    let id = decimal_string(tmdb_id as u64);
    concat2("Movie ID ", id.as_str())
}

/// The subject of a TMDB series lookup, as a not-found error names it.
pub fn tmdb_series_subject(tmdb_id: u32) -> (s: String)
    ensures
        s@ == "TV series ID "@ + decimal(tmdb_id as nat),
{
    let id = decimal_string(tmdb_id as u64);
    concat2("TV series ID ", id.as_str())
}

/// The subject of a TMDB season lookup, as a not-found error names it.
pub fn tmdb_season_subject(tmdb_id: u32, season: u32) -> (s: String)
    ensures
        s@ == "TV series "@ + decimal(tmdb_id as nat) + " season "@ + decimal(season as nat),
{
    let id = decimal_string(tmdb_id as u64);
    let n = decimal_string(season as u64);
    concat4("TV series ", id.as_str(), " season ", n.as_str())
}

// ---------------------------------------------------------------------------
// Records
// ---------------------------------------------------------------------------

/// A MusicBrainz release (album).
#[derive(Debug, Clone)]
pub struct MusicBrainzRelease {
    /// MusicBrainz release ID.
    pub mbid: String,
    /// Release title.
    pub title: String,
    /// Artist credit (combined artist name).
    pub artist_credit: String,
    /// Release date (YYYY-MM-DD or partial).
    pub release_date: Option<String>,
    /// Tracks in this release.
    pub tracks: Vec<MusicBrainzTrack>,
    /// Whether cover art is available from the Cover Art Archive.
    pub cover_art_available: bool,
    /// Disambiguation comment.
    pub disambiguation: Option<String>,
    /// Release country.
    pub country: Option<String>,
}

/// A track of a MusicBrainz release.
#[derive(Debug, Clone)]
pub struct MusicBrainzTrack {
    /// Track position (1-indexed).
    pub position: u32,
    /// Track title.
    pub title: String,
    /// Duration in milliseconds.
    pub duration_ms: Option<u64>,
    /// Disc number (for multi-disc releases).
    pub disc_number: Option<u32>,
    /// Artist credit if different from the release artist.
    pub artist_credit: Option<String>,
}

/// Summary of a TMDB season (from a series response).
#[derive(Debug, Clone)]
pub struct TmdbSeasonSummary {
    /// Season number (0 for specials).
    pub season_number: u32,
    /// Season name.
    pub name: Option<String>,
    /// Episode count.
    pub episode_count: u32,
    /// Air date of the first episode.
    pub air_date: Option<String>,
    /// Poster path.
    pub poster_path: Option<String>,
}

/// A season as a TMDB series response lists it.
#[derive(Debug, Clone)]
pub struct TmdbSeasonResult {
    /// Season number.
    pub season_number: u32,
    /// Season name.
    pub name: Option<String>,
    /// Episode count, when given.
    pub episode_count: Option<u32>,
    /// Air date of the first episode.
    pub air_date: Option<String>,
    /// Poster path.
    pub poster_path: Option<String>,
}

impl TmdbSeasonSummary {
    /// The summary of a listed season; a missing episode count reads 0.
    pub fn from_api(s: TmdbSeasonResult) -> (r: Self)
        ensures
            r.season_number == s.season_number,
            opt_view(r.name) == opt_view(s.name),
            r.episode_count == match s.episode_count {
                Some(n) => n,
                None => 0,
            },
            opt_view(r.air_date) == opt_view(s.air_date),
            opt_view(r.poster_path) == opt_view(s.poster_path),
    {
        TmdbSeasonSummary {
            season_number: s.season_number,
            name: s.name,
            episode_count: match s.episode_count {
                Some(n) => n,
                None => 0,
            },
            air_date: s.air_date,
            poster_path: s.poster_path,
        }
    }
}

/// The year of a `YYYY-MM-DD` date: the text before the first `-`, when it
/// reads as a `u32`.
pub open spec fn date_year(date: Seq<char>) -> Option<nat> {
    parsed_unsigned(before_char(date, '-'), u32::MAX as nat)
}

/// The release year of a TMDB movie, from its release date: none without a
/// date, or when the part before the first `-` is not a number.
pub fn release_year(release_date: &Option<String>) -> (y: Option<u32>)
    ensures
        y == match *release_date {
            Some(d) => match date_year(d@) {
                Some(n) => Some(n as u32),
                None => None,
            },
            None => None::<u32>,
        },
{
    match release_date {
        Some(d) => {
            let year = prefix_before(d.as_str(), '-');
            match parse_unsigned(year.as_str(), 4294967295u64) {
                Some(n) => Some(n as u32),
                None => None,
            }
        },
        None => None,
    }
}

/// Whether every episode has a known runtime.
pub open spec fn all_runtimes_known(runtimes: Seq<Option<u32>>) -> bool {
    forall|i: int| 0 <= i < runtimes.len() ==> (#[trigger] runtimes[i]) is Some
}

/// The sum of the known episode runtimes.
pub open spec fn known_runtime_sum(runtimes: Seq<Option<u32>>) -> int
    decreases runtimes.len(),
{
    if runtimes.len() == 0 {
        0
    } else {
        known_runtime_sum(runtimes.drop_last()) + match runtimes.last() {
            Some(m) => m as int,
            None => 0,
        }
    }
}

/// The total runtime of a season whose episodes have the given runtimes:
/// their sum when there are episodes and every runtime is known, none
/// otherwise.
pub open spec fn season_runtime(runtimes: Seq<Option<u32>>) -> Option<int> {
    if runtimes.len() > 0 && all_runtimes_known(runtimes) {
        Some(known_runtime_sum(runtimes))
    } else {
        None
    }
}

/// A runtime sum over a prefix never exceeds the sum over the whole list.
proof fn lemma_prefix_runtime_sum(runtimes: Seq<Option<u32>>, i: int)
    requires
        0 <= i <= runtimes.len(),
    ensures
        known_runtime_sum(runtimes.take(i)) <= known_runtime_sum(runtimes),
    decreases runtimes.len() - i,
{
    if i < runtimes.len() {
        lemma_prefix_runtime_sum(runtimes, i + 1);
        assert(runtimes.take(i + 1).drop_last() =~= runtimes.take(i));
    } else {
        assert(runtimes.take(i) =~= runtimes);
    }
}

/// Total runtime in minutes of a TMDB season whose episodes (in order) have
/// the given runtimes.
pub fn season_runtime_minutes(runtimes: &Vec<Option<u32>>) -> (m: Option<u32>)
    requires
        all_runtimes_known(runtimes@) ==> known_runtime_sum(runtimes@) <= u32::MAX,
    ensures
        match m {
            Some(v) => season_runtime(runtimes@) == Some(v as int),
            None => season_runtime(runtimes@) is None,
        },
{
    let n = runtimes.len();
    let mut i: usize = 0;
    while i < n
        invariant
            n == runtimes@.len(),
            i <= n,
            forall|j: int| 0 <= j < i ==> (#[trigger] runtimes@[j]) is Some,
        decreases n - i,
    {
        if runtimes[i].is_none() {
            return None;
        }
        i += 1;
    }
    if n == 0 {
        return None;
    }
    let mut total: u32 = 0;
    let mut k: usize = 0;
    while k < n
        invariant
            n == runtimes@.len(),
            k <= n,
            all_runtimes_known(runtimes@),
            known_runtime_sum(runtimes@) <= u32::MAX,
            total as int == known_runtime_sum(runtimes@.take(k as int)),
        decreases n - k,
    {
        proof {
            lemma_prefix_runtime_sum(runtimes@, k as int + 1);
            assert(runtimes@.take(k as int + 1).drop_last() =~= runtimes@.take(k as int));
            assert(runtimes@[k as int] is Some);
        }
        match runtimes[k] {
            Some(m) => {
                total = total + m;
            },
            None => {},
        }
        k += 1;
    }
    assert(runtimes@.take(n as int) =~= runtimes@);
    Some(total)
}

/// Whether every track has a known duration.
pub open spec fn all_durations_known(tracks: Seq<MusicBrainzTrack>) -> bool {
    forall|i: int| 0 <= i < tracks.len() ==> (#[trigger] tracks[i]).duration_ms is Some
}

/// The sum of the known track durations.
pub open spec fn known_duration_sum(tracks: Seq<MusicBrainzTrack>) -> int
    decreases tracks.len(),
{
    if tracks.len() == 0 {
        0
    } else {
        known_duration_sum(tracks.drop_last()) + match tracks.last().duration_ms {
            Some(d) => d as int,
            None => 0,
        }
    }
}

/// The total duration of a release: the sum of its track durations when it
/// has tracks and every one of them has a duration, none otherwise.
pub open spec fn release_duration(tracks: Seq<MusicBrainzTrack>) -> Option<int> {
    if tracks.len() > 0 && all_durations_known(tracks) {
        Some(known_duration_sum(tracks))
    } else {
        None
    }
}

/// A sum over a prefix never exceeds the sum over the whole list.
proof fn lemma_prefix_duration_sum(tracks: Seq<MusicBrainzTrack>, i: int)
    requires
        0 <= i <= tracks.len(),
    ensures
        known_duration_sum(tracks.take(i)) <= known_duration_sum(tracks),
    decreases tracks.len() - i,
{
    if i < tracks.len() {
        lemma_prefix_duration_sum(tracks, i + 1);
        assert(tracks.take(i + 1).drop_last() =~= tracks.take(i));
    } else {
        assert(tracks.take(i) =~= tracks);
    }
}

impl MusicBrainzRelease {
    /// Total duration in milliseconds: the sum of the track durations when
    /// the release has tracks and all of them are known.
    pub fn total_duration_ms(&self) -> (d: Option<u64>)
        requires
            all_durations_known(self.tracks@) ==> known_duration_sum(self.tracks@) <= u64::MAX,
        ensures
            match d {
                Some(v) => release_duration(self.tracks@) == Some(v as int),
                None => release_duration(self.tracks@) is None,
            },
    {
        let n = self.tracks.len();
        let mut i: usize = 0;
        while i < n
            invariant
                n == self.tracks@.len(),
                i <= n,
                forall|j: int| 0 <= j < i ==> (#[trigger] self.tracks@[j]).duration_ms is Some,
            decreases n - i,
        {
            if self.tracks[i].duration_ms.is_none() {
                return None;
            }
            i += 1;
        }
        if n == 0 {
            return None;
        }
        let mut total: u64 = 0;
        let mut k: usize = 0;
        while k < n
            invariant
                n == self.tracks@.len(),
                k <= n,
                all_durations_known(self.tracks@),
                known_duration_sum(self.tracks@) <= u64::MAX,
                total as int == known_duration_sum(self.tracks@.take(k as int)),
            decreases n - k,
        {
            proof {
                lemma_prefix_duration_sum(self.tracks@, k as int + 1);
                assert(self.tracks@.take(k as int + 1).drop_last() =~= self.tracks@.take(k as int));
                assert(self.tracks@[k as int].duration_ms is Some);
            }
            match self.tracks[k].duration_ms {
                Some(d) => {
                    total = total + d;
                },
                None => {},
            }
            k += 1;
        }
        assert(self.tracks@.take(n as int) =~= self.tracks@);
        Some(total)
    }
}

// ---------------------------------------------------------------------------
// MusicBrainz API records
// ---------------------------------------------------------------------------

/// A release as the MusicBrainz API returns it.
#[derive(Debug, Clone)]
pub struct MbRelease {
    /// Release ID.
    pub id: String,
    /// Release title.
    pub title: String,
    /// Credited artists, in order.
    pub artist_credit: Vec<MbArtistCredit>,
    /// Release date.
    pub date: Option<String>,
    /// Release country.
    pub country: Option<String>,
    /// Disambiguation comment.
    pub disambiguation: Option<String>,
    /// Cover Art Archive information.
    pub cover_art_archive: Option<MbCoverArtArchive>,
    /// Media (discs) with their tracks.
    pub media: Vec<MbMedium>,
}

/// One credited artist.
#[derive(Debug, Clone)]
pub struct MbArtistCredit {
    /// Name as credited on this release, when it differs.
    pub name: Option<String>,
    /// The artist.
    pub artist: MbArtist,
    /// Text joining this credit to the next one (" & ", " feat. ").
    pub joinphrase: Option<String>,
}

/// An artist.
#[derive(Debug, Clone)]
pub struct MbArtist {
    /// Artist name.
    pub name: String,
}

/// Cover Art Archive information of a release.
#[derive(Debug, Clone, Copy)]
pub struct MbCoverArtArchive {
    /// Whether artwork is available.
    pub artwork: bool,
}

/// A medium (disc) of a release.
#[derive(Debug, Clone)]
pub struct MbMedium {
    /// Position of the medium (1-based; 0 when unknown).
    pub position: u32,
    /// Tracks on this medium.
    pub tracks: Vec<MbTrack>,
}

/// A track as the MusicBrainz API returns it.
#[derive(Debug, Clone)]
pub struct MbTrack {
    /// Position on the medium.
    pub position: u32,
    /// Track title.
    pub title: String,
    /// Length in milliseconds.
    pub length: Option<u64>,
    /// Credited artists of the track.
    pub artist_credit: Vec<MbArtistCredit>,
}

/// One credit as text: the credited name (or the artist's own name) followed
/// by the join phrase.
pub open spec fn credit_part(ac: MbArtistCredit) -> Seq<char> {
    (match ac.name {
        Some(n) => n@,
        None => ac.artist.name@,
    }) + (match ac.joinphrase {
        Some(j) => j@,
        None => Seq::<char>::empty(),
    })
}

/// A list of credits as text: the parts one after the other.
pub open spec fn credit_text(acs: Seq<MbArtistCredit>) -> Seq<char>
    decreases acs.len(),
{
    if acs.len() == 0 {
        Seq::empty()
    } else {
        credit_text(acs.drop_last()) + credit_part(acs.last())
    }
}

/// What the library records of a track: position, title, duration, disc
/// number and artist credit.
pub type TrackFacts = (u32, Seq<char>, Option<u64>, Option<u32>, Option<Seq<char>>);

/// The facts of a release track.
pub open spec fn track_facts(t: MusicBrainzTrack) -> TrackFacts {
    (t.position, t.title@, t.duration_ms, t.disc_number, opt_view(t.artist_credit))
}

/// The disc number a medium gives its tracks: its position, when known.
pub open spec fn disc_of(m: MbMedium) -> Option<u32> {
    if m.position > 0 {
        Some(m.position)
    } else {
        None
    }
}

/// The facts of an API track on a disc.
pub open spec fn api_track_facts(t: MbTrack, disc: Option<u32>) -> TrackFacts {
    (
        t.position,
        t.title@,
        t.length,
        disc,
        if t.artist_credit@.len() > 0 {
            Some(credit_text(t.artist_credit@))
        } else {
            None
        },
    )
}

/// The facts of the tracks of one medium, in order.
pub open spec fn medium_track_facts(m: MbMedium) -> Seq<TrackFacts> {
    m.tracks@.map_values(|t: MbTrack| api_track_facts(t, disc_of(m)))
}

/// The facts of all tracks of all media, medium after medium.
pub open spec fn media_track_facts(media: Seq<MbMedium>) -> Seq<TrackFacts>
    decreases media.len(),
{
    if media.len() == 0 {
        Seq::empty()
    } else {
        media_track_facts(media.drop_last()) + medium_track_facts(media.last())
    }
}

/// The number of tracks on all media.
pub open spec fn media_track_total(media: Seq<MbMedium>) -> nat
    decreases media.len(),
{
    if media.len() == 0 {
        0
    } else {
        media_track_total(media.drop_last()) + media.last().tracks@.len()
    }
}

/// Flattening keeps every track: a release has as many tracks as its media
/// together.
pub proof fn lemma_flattening_keeps_every_track(media: Seq<MbMedium>)
    ensures
        media_track_facts(media).len() == media_track_total(media),
    decreases media.len(),
{
    if media.len() > 0 {
        lemma_flattening_keeps_every_track(media.drop_last());
    }
}

/// The credits as one string.
fn credit_string(acs: &Vec<MbArtistCredit>) -> (s: String)
    ensures
        s@ == credit_text(acs@),
{
    let mut s = String::new();
    let mut i: usize = 0;
    while i < acs.len()
        invariant
            i <= acs@.len(),
            s@ == credit_text(acs@.take(i as int)),
        decreases acs@.len() - i,
    {
        let ac = &acs[i];
        let name: &str = match &ac.name {
            Some(n) => n.as_str(),
            None => ac.artist.name.as_str(),
        };
        let join: &str = match &ac.joinphrase {
            Some(j) => j.as_str(),
            None => "",
        };
        proof {
            reveal_strlit("");
            assert(acs@.take(i as int + 1).drop_last() =~= acs@.take(i as int));
        }
        s = concat3(s.as_str(), name, join);
        assert(s@ == credit_text(acs@.take(i as int)) + credit_part(acs@[i as int]));
        i += 1;
    }
    assert(acs@.take(acs@.len() as int) =~= acs@);
    s
}

/// Appends the tracks of one medium.
fn push_medium_tracks(tracks: &mut Vec<MusicBrainzTrack>, medium: &MbMedium)
    ensures
        final(tracks)@.map_values(|t: MusicBrainzTrack| track_facts(t)) == old(tracks)@.map_values(
            |t: MusicBrainzTrack| track_facts(t),
        ) + medium_track_facts(*medium),
{
    let disc_number: Option<u32> = if medium.position > 0 {
        Some(medium.position)
    } else {
        None
    };
    let ghost start = old(tracks)@.map_values(|t: MusicBrainzTrack| track_facts(t));
    let mut i: usize = 0;
    while i < medium.tracks.len()
        invariant
            i <= medium.tracks@.len(),
            disc_number == disc_of(*medium),
            start == old(tracks)@.map_values(|t: MusicBrainzTrack| track_facts(t)),
            tracks@.map_values(|t: MusicBrainzTrack| track_facts(t)) == start
                + medium_track_facts(*medium).take(i as int),
        decreases medium.tracks@.len() - i,
    {
        let t = &medium.tracks[i];
        let artist_credit = if t.artist_credit.len() > 0 {
            Some(credit_string(&t.artist_credit))
        } else {
            None
        };
        let track = MusicBrainzTrack {
            position: t.position,
            title: copy_string(&t.title),
            duration_ms: t.length,
            disc_number,
            artist_credit,
        };
        assert(track_facts(track) == api_track_facts(*t, disc_of(*medium)));
        let ghost before = tracks@;
        tracks.push(track);
        assert(tracks@.map_values(|t: MusicBrainzTrack| track_facts(t)) =~= before.map_values(
            |t: MusicBrainzTrack| track_facts(t),
        ).push(track_facts(track)));
        assert(medium_track_facts(*medium).take(i as int + 1) =~= medium_track_facts(*medium).take(
            i as int,
        ).push(api_track_facts(medium.tracks@[i as int], disc_of(*medium))));
        i += 1;
    }
    assert(medium_track_facts(*medium).take(medium.tracks@.len() as int) =~= medium_track_facts(
        *medium,
    ));
}

impl MusicBrainzRelease {
    /// The release record for a release returned by the MusicBrainz API: the
    /// artist credits joined into one string, the tracks of all media in
    /// order, each with its medium's position as disc number (when known),
    /// and cover art available exactly when the archive says so.
    pub fn from_api(mb: MbRelease) -> (r: Self)
        ensures
            r.mbid@ == mb.id@,
            r.title@ == mb.title@,
            r.artist_credit@ == credit_text(mb.artist_credit@),
            opt_view(r.release_date) == opt_view(mb.date),
            r.tracks@.map_values(|t: MusicBrainzTrack| track_facts(t)) == media_track_facts(
                mb.media@,
            ),
            r.cover_art_available == match mb.cover_art_archive {
                Some(c) => c.artwork,
                None => false,
            },
            opt_view(r.disambiguation) == opt_view(mb.disambiguation),
            opt_view(r.country) == opt_view(mb.country),
    {
        let artist_credit = credit_string(&mb.artist_credit);
        let mut tracks: Vec<MusicBrainzTrack> = Vec::new();
        let mut m: usize = 0;
        while m < mb.media.len()
            invariant
                m <= mb.media@.len(),
                tracks@.map_values(|t: MusicBrainzTrack| track_facts(t)) == media_track_facts(
                    mb.media@.take(m as int),
                ),
            decreases mb.media@.len() - m,
        {
            push_medium_tracks(&mut tracks, &mb.media[m]);
            assert(mb.media@.take(m as int + 1).drop_last() =~= mb.media@.take(m as int));
            m += 1;
        }
        assert(mb.media@.take(mb.media@.len() as int) =~= mb.media@);
        let cover_art_available = match &mb.cover_art_archive {
            Some(c) => c.artwork,
            None => false,
        };
        MusicBrainzRelease {
            mbid: copy_string(&mb.id),
            title: copy_string(&mb.title),
            artist_credit,
            release_date: copy_opt_string(&mb.date),
            tracks,
            cover_art_available,
            disambiguation: copy_opt_string(&mb.disambiguation),
            country: copy_opt_string(&mb.country),
        }
    }
}

} // verus!
