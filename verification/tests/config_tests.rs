use torrentino_core::config::{
    default_host, default_db_path, default_port, default_timeout, default_true, validate_config, AuthConfig,
    AuthMethod, Config, ConfigError, DatabaseConfig, ExternalCatalogsConfig, JackettConfig,
    LibrqbitConfig, QBittorrentConfig, SanitizedConfig, SearcherBackend, SearcherConfig,
    ServerConfig, TorrentClientBackend, TorrentClientConfig,
};
use torrentino_core::external_catalog::{MusicBrainzConfig, TmdbConfig};
use torrentino_core::orchestrator::OrchestratorSettings;

fn base_config() -> Config {
    Config {
        auth: AuthConfig { method: AuthMethod::NoAuth, api_key: None },
        server: ServerConfig::default(),
        database: DatabaseConfig::default(),
        searcher: None,
        torrent_client: None,
        orchestrator: OrchestratorSettings::default(),
        external_catalogs: None,
    }
}

#[test]
fn test_sanitized_config() {
    let config = base_config();
    let sanitized = SanitizedConfig::from_config(&config);
    assert_eq!(sanitized.auth.method, "none");
    assert_eq!(sanitized.server.port, 8080);
    assert_eq!(sanitized.database.path, "quentin.db");
    assert!(sanitized.searcher.is_none());
    assert!(sanitized.torrent_client.is_none());
    assert!(!sanitized.orchestrator.enabled);
}

#[test]
fn test_sanitized_config_with_searcher() {
    let mut config = base_config();
    config.searcher = Some(SearcherConfig {
        backend: SearcherBackend::Jackett,
        jackett: Some(JackettConfig {
            url: "http://localhost:9117".to_string(),
            api_key: "secret-key".to_string(),
            timeout_secs: 60,
        }),
    });
    let sanitized = SanitizedConfig::from_config(&config);
    let searcher = sanitized.searcher.as_ref().unwrap();
    assert_eq!(searcher.backend, "jackett");
    let jackett = searcher.jackett.as_ref().unwrap();
    assert_eq!(jackett.url, "http://localhost:9117");
    assert!(jackett.api_key_configured);
    assert_eq!(jackett.timeout_secs, 60);
}

#[test]
fn test_sanitized_config_with_torrent_client() {
    let mut config = base_config();
    config.torrent_client = Some(TorrentClientConfig {
        backend: TorrentClientBackend::QBittorrent,
        qbittorrent: Some(QBittorrentConfig {
            url: "http://localhost:8080".to_string(),
            username: "admin".to_string(),
            password: "secret-password".to_string(),
            download_path: Some("/downloads".to_string()),
            timeout_secs: 45,
        }),
        librqbit: None,
    });
    let sanitized = SanitizedConfig::from_config(&config);
    let tc = sanitized.torrent_client.as_ref().unwrap();
    assert_eq!(tc.backend, "qbittorrent");
    let qbit = tc.qbittorrent.as_ref().unwrap();
    assert_eq!(qbit.url, "http://localhost:8080");
    assert_eq!(qbit.username, "admin");
    assert!(qbit.credentials_configured);
    assert_eq!(qbit.download_path, Some("/downloads".to_string()));
    assert_eq!(qbit.timeout_secs, 45);
}

#[test]
fn sanitized_config_hides_empty_secrets_and_keeps_librqbit() {
    let mut config = base_config();
    config.auth = AuthConfig { method: AuthMethod::ApiKey, api_key: Some("k".to_string()) };
    config.torrent_client = Some(TorrentClientConfig {
        backend: TorrentClientBackend::Librqbit,
        qbittorrent: None,
        librqbit: Some(LibrqbitConfig {
            download_path: "/dl".to_string(),
            enable_dht: default_true(),
            listen_port: Some(4240),
            persistence_path: None,
        }),
    });
    config.external_catalogs = Some(ExternalCatalogsConfig {
        musicbrainz: Some(MusicBrainzConfig::default()),
        tmdb: Some(TmdbConfig { api_key: String::new(), base_url: None, image_base_url: None }),
    });
    let s = SanitizedConfig::from_config(&config);
    assert_eq!(s.auth.method, "api_key");
    let tc = s.torrent_client.unwrap();
    assert_eq!(tc.backend, "librqbit");
    let lb = tc.librqbit.unwrap();
    assert_eq!(lb.download_path, "/dl");
    assert!(lb.enable_dht);
    assert_eq!(lb.listen_port, Some(4240));
    let ec = s.external_catalogs.unwrap();
    assert_eq!(ec.musicbrainz.unwrap().rate_limit_ms, 1100);
    assert!(!ec.tmdb.unwrap().api_key_configured);
}

#[test]
fn test_validate_valid_config() {
    assert!(validate_config(&base_config()).is_ok());
}

#[test]
fn test_validate_port_zero_fails() {
    let mut config = base_config();
    config.server = ServerConfig { host: "0.0.0.0".to_string(), port: 0 };
    let result = validate_config(&config);
    assert!(result.is_err());
    let err = result.unwrap_err();
    assert!(matches!(err, ConfigError::ValidationError(_)));
    assert_eq!(err.message(), "Configuration validation failed: server.port cannot be 0");
}

#[test]
fn config_defaults() {
    assert_eq!(default_port(), 8080);
    assert_eq!(default_db_path(), "quentin.db");
    assert_eq!(default_timeout(), 30);
    assert_eq!(ServerConfig::default().host, "0.0.0.0");
    assert!(ExternalCatalogsConfig::default().musicbrainz.is_none());
}

#[test]
fn config_error_messages() {
    assert_eq!(
        ConfigError::FileNotFound("/x.toml".to_string()).message(),
        "Configuration file not found: /x.toml"
    );
    assert_eq!(
        ConfigError::ParseError("bad".to_string()).message(),
        "Failed to parse configuration: bad"
    );
}

#[test]
fn default_host_listens_everywhere() {
    assert_eq!(default_host(), "0.0.0.0");
}
