//! Service configuration: its sections with their defaults, the validation
//! of a loaded configuration, and the sanitized form that may be shown to
//! clients (no secret ever leaves through it, only whether one is set).
//! Reading the configuration file is done outside the library.

use vstd::prelude::*;

use crate::external_catalog::{MusicBrainzConfig, TmdbConfig};
use crate::orchestrator::OrchestratorSettings;
use crate::text::{copy_opt_string, copy_string, opt_view};

verus! {

/// Errors of configuration loading and validation.
#[derive(Debug)]
pub enum ConfigError {
    /// The configuration file does not exist.
    FileNotFound(String),
    /// The configuration could not be parsed.
    ParseError(String),
    /// The configuration is not valid.
    ValidationError(String),
}

/// The message of a configuration error.
pub open spec fn config_error_message(e: ConfigError) -> Seq<char> {
    match e {
        ConfigError::FileNotFound(p) => "Configuration file not found: "@ + p@,
        ConfigError::ParseError(m) => "Failed to parse configuration: "@ + m@,
        ConfigError::ValidationError(m) => "Configuration validation failed: "@ + m@,
    }
}

impl ConfigError {
    /// The error message.
    pub fn message(&self) -> (m: String)
        ensures
            m@ == config_error_message(*self),
    {
        match self {
            ConfigError::FileNotFound(p) => crate::text::concat2(
                "Configuration file not found: ",
                p.as_str(),
            ),
            ConfigError::ParseError(m) => crate::text::concat2(
                "Failed to parse configuration: ",
                m.as_str(),
            ),
            ConfigError::ValidationError(m) => crate::text::concat2(
                "Configuration validation failed: ",
                m.as_str(),
            ),
        }
    }
}

// ---------------------------------------------------------------------------
// Sections
// ---------------------------------------------------------------------------

/// Root configuration.
#[derive(Debug, Clone)]
pub struct Config {
    /// Authentication.
    pub auth: AuthConfig,
    /// HTTP server.
    pub server: ServerConfig,
    /// Database.
    pub database: DatabaseConfig,
    /// Torrent search backend.
    pub searcher: Option<SearcherConfig>,
    /// Torrent client backend.
    pub torrent_client: Option<TorrentClientConfig>,
    /// Ticket orchestrator.
    pub orchestrator: OrchestratorSettings,
    /// External metadata catalogs.
    pub external_catalogs: Option<ExternalCatalogsConfig>,
}

/// External catalog configuration (MusicBrainz, TMDB).
#[derive(Debug, Clone)]
pub struct ExternalCatalogsConfig {
    /// MusicBrainz configuration (no API key required).
    pub musicbrainz: Option<MusicBrainzConfig>,
    /// TMDB configuration (requires an API key).
    pub tmdb: Option<TmdbConfig>,
}

impl Default for ExternalCatalogsConfig {
    fn default() -> (c: Self)
        ensures
            c.musicbrainz is None,
            c.tmdb is None,
    {
        ExternalCatalogsConfig { musicbrainz: None, tmdb: None }
    }
}

/// Server configuration.
#[derive(Debug, Clone)]
pub struct ServerConfig {
    /// Address to listen on, as text.
    pub host: String,
    /// Port to listen on.
    pub port: u16,
}

/// Address the server listens on when none is configured.
pub fn default_host() -> (h: String)
    ensures
        h@ == "0.0.0.0"@,
{
    "0.0.0.0".to_owned()
}

/// Port the server listens on when none is configured.
pub fn default_port() -> (p: u16)
    ensures
        p == 8080,
{
    8080
}

impl Default for ServerConfig {
    fn default() -> (c: Self)
        ensures
            c.host@ == "0.0.0.0"@,
            c.port == 8080,
    {
        ServerConfig { host: default_host(), port: default_port() }
    }
}

/// Authentication configuration.
#[derive(Debug, Clone)]
pub struct AuthConfig {
    /// Authentication method.
    pub method: AuthMethod,
    /// API key for the api_key method.
    pub api_key: Option<String>,
}

/// Database configuration.
#[derive(Debug, Clone)]
pub struct DatabaseConfig {
    /// Path of the database file.
    pub path: String,
}

/// Database file used when none is configured.
pub fn default_db_path() -> (p: String)
    ensures
        p@ == "quentin.db"@,
{
    "quentin.db".to_owned()
}

impl Default for DatabaseConfig {
    fn default() -> (c: Self)
        ensures
            c.path@ == "quentin.db"@,
    {
        DatabaseConfig { path: default_db_path() }
    }
}

/// Authentication methods.
#[derive(Debug, Clone, Copy, PartialEq, Eq, Structural)]
pub enum AuthMethod {
    /// No authentication: all requests allowed.
    NoAuth,
    /// API key authentication.
    ApiKey,
}

/// Searcher configuration.
#[derive(Debug, Clone)]
pub struct SearcherConfig {
    /// Search backend.
    pub backend: SearcherBackend,
    /// Jackett configuration (required with the Jackett backend).
    pub jackett: Option<JackettConfig>,
}

/// Search backends.
#[derive(Debug, Clone, Copy, PartialEq, Eq, Structural)]
pub enum SearcherBackend {
    /// Jackett.
    Jackett,
}

/// Jackett configuration.
#[derive(Debug, Clone)]
pub struct JackettConfig {
    /// Jackett server URL.
    pub url: String,
    /// Jackett API key.
    pub api_key: String,
    /// Request timeout in seconds.
    pub timeout_secs: u32,
}

/// Request timeout in seconds when none is configured.
pub fn default_timeout() -> (t: u32)
    ensures
        t == 30,
{
    30
}

/// Torrent client configuration.
#[derive(Debug, Clone)]
pub struct TorrentClientConfig {
    /// Torrent client backend.
    pub backend: TorrentClientBackend,
    /// qBittorrent configuration (required with the qBittorrent backend).
    pub qbittorrent: Option<QBittorrentConfig>,
    /// librqbit configuration (required with the librqbit backend).
    pub librqbit: Option<LibrqbitConfig>,
}

/// Torrent client backends.
#[derive(Debug, Clone, Copy, PartialEq, Eq, Structural)]
pub enum TorrentClientBackend {
    /// qBittorrent through its Web UI.
    QBittorrent,
    /// Embedded librqbit.
    Librqbit,
}

/// qBittorrent configuration.
#[derive(Debug, Clone)]
pub struct QBittorrentConfig {
    /// Web UI URL.
    pub url: String,
    /// Web UI user name.
    pub username: String,
    /// Web UI password.
    pub password: String,
    /// Default download path.
    pub download_path: Option<String>,
    /// Request timeout in seconds.
    pub timeout_secs: u32,
}

/// librqbit configuration.
#[derive(Debug, Clone)]
pub struct LibrqbitConfig {
    /// Download directory.
    pub download_path: String,
    /// Whether DHT peer discovery is on.
    pub enable_dht: bool,
    /// TCP listen port (0 for random, none to disable).
    pub listen_port: Option<u16>,
    /// Directory for session state.
    pub persistence_path: Option<String>,
}

/// Value of switches that are on unless configured otherwise.
pub fn default_true() -> (b: bool)
    ensures
        b,
{
    true
}

// ---------------------------------------------------------------------------
// Validation
// ---------------------------------------------------------------------------

/// Validates a configuration: the one rule is that the server port is not 0.
pub fn validate_config(config: &Config) -> (r: Result<(), ConfigError>)
    ensures
        r is Ok <==> config.server.port != 0,
        r matches Err(e) ==> e matches ConfigError::ValidationError(m) && m@
            == "server.port cannot be 0"@,
{
    if config.server.port == 0 {
        return Err(ConfigError::ValidationError("server.port cannot be 0".to_owned()));
    }
    Ok(())
}

// ---------------------------------------------------------------------------
// Sanitized form
// ---------------------------------------------------------------------------

/// Sanitized configuration (secrets replaced by whether they are set).
#[derive(Debug, Clone)]
pub struct SanitizedConfig {
    /// Authentication.
    pub auth: SanitizedAuthConfig,
    /// HTTP server.
    pub server: ServerConfig,
    /// Database.
    pub database: DatabaseConfig,
    /// Torrent search backend.
    pub searcher: Option<SanitizedSearcherConfig>,
    /// Torrent client backend.
    pub torrent_client: Option<SanitizedTorrentClientConfig>,
    /// Ticket orchestrator.
    pub orchestrator: SanitizedOrchestratorConfig,
    /// External metadata catalogs.
    pub external_catalogs: Option<SanitizedExternalCatalogsConfig>,
}

/// Sanitized external catalogs configuration.
#[derive(Debug, Clone)]
pub struct SanitizedExternalCatalogsConfig {
    /// MusicBrainz.
    pub musicbrainz: Option<SanitizedMusicBrainzConfig>,
    /// TMDB.
    pub tmdb: Option<SanitizedTmdbConfig>,
}

/// Sanitized MusicBrainz configuration.
#[derive(Debug, Clone)]
pub struct SanitizedMusicBrainzConfig {
    /// User-Agent string.
    pub user_agent: String,
    /// Delay between requests in milliseconds.
    pub rate_limit_ms: u64,
}

/// Sanitized TMDB configuration.
#[derive(Debug, Clone, Copy)]
pub struct SanitizedTmdbConfig {
    /// Whether an API key is set.
    pub api_key_configured: bool,
}

/// Sanitized orchestrator configuration.
#[derive(Debug, Clone, Copy)]
pub struct SanitizedOrchestratorConfig {
    /// Whether the orchestrator is on.
    pub enabled: bool,
    /// Poll interval for pending tickets (milliseconds).
    pub acquisition_poll_interval_ms: u64,
    /// Poll interval for download progress (milliseconds).
    pub download_poll_interval_ms: u64,
    /// Maximum concurrent downloads (0 = unlimited).
    pub max_concurrent_downloads: usize,
}

/// Sanitized authentication configuration.
#[derive(Debug, Clone)]
pub struct SanitizedAuthConfig {
    /// Name of the method.
    pub method: String,
}

/// Sanitized searcher configuration.
#[derive(Debug, Clone)]
pub struct SanitizedSearcherConfig {
    /// Name of the backend.
    pub backend: String,
    /// Jackett.
    pub jackett: Option<SanitizedJackettConfig>,
}

/// Sanitized Jackett configuration.
#[derive(Debug, Clone)]
pub struct SanitizedJackettConfig {
    /// Jackett server URL.
    pub url: String,
    /// Whether an API key is set.
    pub api_key_configured: bool,
    /// Request timeout in seconds.
    pub timeout_secs: u32,
}

/// Sanitized torrent client configuration.
#[derive(Debug, Clone)]
pub struct SanitizedTorrentClientConfig {
    /// Name of the backend.
    pub backend: String,
    /// qBittorrent.
    pub qbittorrent: Option<SanitizedQBittorrentConfig>,
    /// librqbit.
    pub librqbit: Option<SanitizedLibrqbitConfig>,
}

/// Sanitized qBittorrent configuration.
#[derive(Debug, Clone)]
pub struct SanitizedQBittorrentConfig {
    /// Web UI URL.
    pub url: String,
    /// Web UI user name.
    pub username: String,
    /// Whether a password is set.
    pub credentials_configured: bool,
    /// Default download path.
    pub download_path: Option<String>,
    /// Request timeout in seconds.
    pub timeout_secs: u32,
}

/// Sanitized librqbit configuration.
#[derive(Debug, Clone)]
pub struct SanitizedLibrqbitConfig {
    /// Download directory.
    pub download_path: String,
    /// Whether DHT peer discovery is on.
    pub enable_dht: bool,
    /// TCP listen port.
    pub listen_port: Option<u16>,
    /// Directory for session state.
    pub persistence_path: Option<String>,
}

/// Name of an authentication method.
pub open spec fn auth_method_name(m: AuthMethod) -> Seq<char> {
    match m {
        AuthMethod::NoAuth => "none"@,
        AuthMethod::ApiKey => "api_key"@,
    }
}

/// Name of a search backend.
pub open spec fn searcher_backend_name(b: SearcherBackend) -> Seq<char> {
    match b {
        SearcherBackend::Jackett => "jackett"@,
    }
}

/// Name of a torrent client backend.
pub open spec fn torrent_client_backend_name(b: TorrentClientBackend) -> Seq<char> {
    match b {
        TorrentClientBackend::QBittorrent => "qbittorrent"@,
        TorrentClientBackend::Librqbit => "librqbit"@,
    }
}

/// `s` is the sanitized form of the Jackett configuration `j`.
pub open spec fn sanitizes_jackett(s: SanitizedJackettConfig, j: JackettConfig) -> bool {
    &&& s.url@ == j.url@
    &&& s.api_key_configured == (j.api_key@.len() > 0)
    &&& s.timeout_secs == j.timeout_secs
}

/// `s` is the sanitized form of the searcher configuration `c`.
pub open spec fn sanitizes_searcher(s: SanitizedSearcherConfig, c: SearcherConfig) -> bool {
    &&& s.backend@ == searcher_backend_name(c.backend)
    &&& match (s.jackett, c.jackett) {
        (Some(sj), Some(cj)) => sanitizes_jackett(sj, cj),
        (None, None) => true,
        _ => false,
    }
}

/// `s` is the sanitized form of the qBittorrent configuration `q`.
pub open spec fn sanitizes_qbittorrent(s: SanitizedQBittorrentConfig, q: QBittorrentConfig) -> bool {
    &&& s.url@ == q.url@
    &&& s.username@ == q.username@
    &&& s.credentials_configured == (q.password@.len() > 0)
    &&& opt_view(s.download_path) == opt_view(q.download_path)
    &&& s.timeout_secs == q.timeout_secs
}

/// `s` is the sanitized form of the librqbit configuration `l`.
pub open spec fn sanitizes_librqbit(s: SanitizedLibrqbitConfig, l: LibrqbitConfig) -> bool {
    &&& s.download_path@ == l.download_path@
    &&& s.enable_dht == l.enable_dht
    &&& s.listen_port == l.listen_port
    &&& opt_view(s.persistence_path) == opt_view(l.persistence_path)
}

/// `s` is the sanitized form of the torrent client configuration `c`.
pub open spec fn sanitizes_torrent_client(
    s: SanitizedTorrentClientConfig,
    c: TorrentClientConfig,
) -> bool {
    &&& s.backend@ == torrent_client_backend_name(c.backend)
    &&& match (s.qbittorrent, c.qbittorrent) {
        (Some(sq), Some(cq)) => sanitizes_qbittorrent(sq, cq),
        (None, None) => true,
        _ => false,
    }
    &&& match (s.librqbit, c.librqbit) {
        (Some(sl), Some(cl)) => sanitizes_librqbit(sl, cl),
        (None, None) => true,
        _ => false,
    }
}

/// `s` is the sanitized form of the external catalogs configuration `c`.
pub open spec fn sanitizes_catalogs(
    s: SanitizedExternalCatalogsConfig,
    c: ExternalCatalogsConfig,
) -> bool {
    &&& match (s.musicbrainz, c.musicbrainz) {
        (Some(sm), Some(cm)) => sm.user_agent@ == cm.user_agent@ && sm.rate_limit_ms
            == cm.rate_limit_ms,
        (None, None) => true,
        _ => false,
    }
    &&& match (s.tmdb, c.tmdb) {
        (Some(st), Some(ct)) => st.api_key_configured == (ct.api_key@.len() > 0),
        (None, None) => true,
        _ => false,
    }
}

/// `s` is the sanitized form of the orchestrator settings `o`.
pub open spec fn sanitizes_orchestrator(s: SanitizedOrchestratorConfig, o: OrchestratorSettings) -> bool {
    &&& s.enabled == o.enabled
    &&& s.acquisition_poll_interval_ms == o.acquisition_poll_interval_ms
    &&& s.download_poll_interval_ms == o.download_poll_interval_ms
    &&& s.max_concurrent_downloads == o.max_concurrent_downloads
}

/// `s` is the sanitized form of the configuration `c`.
pub open spec fn sanitizes(s: SanitizedConfig, c: Config) -> bool {
    &&& s.auth.method@ == auth_method_name(c.auth.method)
    &&& s.server.host@ == c.server.host@
    &&& s.server.port == c.server.port
    &&& s.database.path@ == c.database.path@
    &&& match (s.searcher, c.searcher) {
        (Some(ss), Some(cs)) => sanitizes_searcher(ss, cs),
        (None, None) => true,
        _ => false,
    }
    &&& match (s.torrent_client, c.torrent_client) {
        (Some(st), Some(ct)) => sanitizes_torrent_client(st, ct),
        (None, None) => true,
        _ => false,
    }
    &&& sanitizes_orchestrator(s.orchestrator, c.orchestrator)
    &&& match (s.external_catalogs, c.external_catalogs) {
        (Some(se), Some(ce)) => sanitizes_catalogs(se, ce),
        (None, None) => true,
        _ => false,
    }
}

fn sanitize_searcher(c: &SearcherConfig) -> (s: SanitizedSearcherConfig)
    ensures
        sanitizes_searcher(s, *c),
{
    let backend = match c.backend {
        SearcherBackend::Jackett => "jackett".to_owned(),
    };
    let jackett = match &c.jackett {
        Some(j) => Some(
            SanitizedJackettConfig {
                url: copy_string(&j.url),
                api_key_configured: !j.api_key.as_str().is_empty(),
                timeout_secs: j.timeout_secs,
            },
        ),
        None => None,
    };
    SanitizedSearcherConfig { backend, jackett }
}

fn sanitize_torrent_client(c: &TorrentClientConfig) -> (s: SanitizedTorrentClientConfig)
    ensures
        sanitizes_torrent_client(s, *c),
{
    let backend = match c.backend {
        TorrentClientBackend::QBittorrent => "qbittorrent".to_owned(),
        TorrentClientBackend::Librqbit => "librqbit".to_owned(),
    };
    let qbittorrent = match &c.qbittorrent {
        Some(q) => Some(
            SanitizedQBittorrentConfig {
                url: copy_string(&q.url),
                username: copy_string(&q.username),
                credentials_configured: !q.password.as_str().is_empty(),
                download_path: copy_opt_string(&q.download_path),
                timeout_secs: q.timeout_secs,
            },
        ),
        None => None,
    };
    let librqbit = match &c.librqbit {
        Some(l) => Some(
            SanitizedLibrqbitConfig {
                download_path: copy_string(&l.download_path),
                enable_dht: l.enable_dht,
                listen_port: l.listen_port,
                persistence_path: copy_opt_string(&l.persistence_path),
            },
        ),
        None => None,
    };
    SanitizedTorrentClientConfig { backend, qbittorrent, librqbit }
}

fn sanitize_catalogs(c: &ExternalCatalogsConfig) -> (s: SanitizedExternalCatalogsConfig)
    ensures
        sanitizes_catalogs(s, *c),
{
    let musicbrainz = match &c.musicbrainz {
        Some(m) => Some(
            SanitizedMusicBrainzConfig {
                user_agent: copy_string(&m.user_agent),
                rate_limit_ms: m.rate_limit_ms,
            },
        ),
        None => None,
    };
    let tmdb = match &c.tmdb {
        Some(t) => Some(SanitizedTmdbConfig { api_key_configured: !t.api_key.as_str().is_empty() }),
        None => None,
    };
    SanitizedExternalCatalogsConfig { musicbrainz, tmdb }
}

impl SanitizedConfig {
    /// The sanitized form of a configuration: every section carried over
    /// field by field, except that each secret (API keys, the qBittorrent
    /// password) is replaced by whether it is set (non-empty), and the
    /// methods and backends by their names.
    pub fn from_config(config: &Config) -> (s: Self)
        ensures
            sanitizes(s, *config),
    {
        let method = match config.auth.method {
            AuthMethod::NoAuth => "none".to_owned(),
            AuthMethod::ApiKey => "api_key".to_owned(),
        };
        let searcher = match &config.searcher {
            Some(c) => Some(sanitize_searcher(c)),
            None => None,
        };
        let torrent_client = match &config.torrent_client {
            Some(c) => Some(sanitize_torrent_client(c)),
            None => None,
        };
        let external_catalogs = match &config.external_catalogs {
            Some(c) => Some(sanitize_catalogs(c)),
            None => None,
        };
        SanitizedConfig {
            auth: SanitizedAuthConfig { method },
            server: ServerConfig { host: copy_string(&config.server.host), port: config.server.port },
            database: DatabaseConfig { path: copy_string(&config.database.path) },
            searcher,
            torrent_client,
            orchestrator: SanitizedOrchestratorConfig {
                enabled: config.orchestrator.enabled,
                acquisition_poll_interval_ms: config.orchestrator.acquisition_poll_interval_ms,
                download_poll_interval_ms: config.orchestrator.download_poll_interval_ms,
                max_concurrent_downloads: config.orchestrator.max_concurrent_downloads,
            },
            external_catalogs,
        }
    }
}

} // verus!
