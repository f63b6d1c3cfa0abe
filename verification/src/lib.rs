//! Core logic of a media acquisition service: search-query construction,
//! candidate classification, conversion arguments, placement bookkeeping,
//! authentication, auditing and configuration handling, each stated and
//! proved with Verus.

pub mod audit;
pub mod auth;
pub mod catalog;
pub mod config;
pub mod content;
pub mod converter;
pub mod external_catalog;
pub mod foreign;
pub mod music;
pub mod orchestrator;
pub mod pattern;
pub mod placer;
pub mod probe;
pub mod processor;
pub mod scoring;
pub mod searcher;
pub mod text;
pub mod ticket;

pub use audit::{AuditError, AuditEvent, AuditFilter, AuditRecord};
pub use auth::{
    create_authenticator, ApiKeyAuthenticator, AuthError, AuthRequest, Authenticator, Identity,
    NoneAuthenticator,
};
pub use catalog::{
    CachedTorrent, CachedTorrentFile, CachedTorrentSource, CatalogError, CatalogSearchQuery,
    CatalogStats, SearchMode,
};
pub use config::{
    validate_config, AuthConfig, AuthMethod, Config, ConfigError, DatabaseConfig,
    ExternalCatalogsConfig, JackettConfig, LibrqbitConfig, QBittorrentConfig, SanitizedConfig,
    SearcherBackend, SearcherConfig, ServerConfig, TorrentClientBackend, TorrentClientConfig,
};
pub use content::{ContentError, PostProcessResult};
pub use converter::{
    AudioConstraints, AudioFormat, ContainerFormat, ConversionConstraints, ConversionJob,
    ConversionResult, ConverterConfig, ConverterError, EmbeddedMetadata, EncoderCapabilities,
    FfmpegConverter, VideoConstraints, VideoFormat,
};
pub use external_catalog::{
    MusicBrainzConfig, MusicBrainzRelease, MusicBrainzTrack, TmdbConfig, TmdbSeasonSummary,
};
pub use orchestrator::{OrchestratorError, OrchestratorSettings, OrchestratorStatus};
pub use placer::{
    ChecksumType, FilePlacement, FsPlacer, PlacedFile, PlacementJob, PlacementProgress,
    PlacementResult, PlacerConfig, PlacerError, RollbackFile, RollbackPlan, RollbackResult,
};
pub use processor::{
    PipelineError, PipelineMetadata, PipelineResult, PipelineStatus, PlacedFileInfo, PoolStatus,
    ProcessorConfig, SourceFile,
};
