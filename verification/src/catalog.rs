//! The torrent catalog: a cache of torrent metadata from earlier searches.
//! This module holds its records, queries and errors, and the rules the
//! store applies to keys and search text; the database itself is driven
//! outside the library.

use vstd::prelude::*;

use crate::text::{concat2, concat3, lowercase, to_lowercase};

verus! {

/// A cached torrent.
#[derive(Debug, Clone)]
pub struct CachedTorrent {
    /// Info hash (lower-case hex).
    pub info_hash: String,
    /// Torrent title.
    pub title: String,
    /// Total size in bytes.
    pub size_bytes: u64,
    /// Category (e.g. "Audio", "Music/Lossless").
    pub category: Option<String>,
    /// When first cached (RFC 3339).
    pub first_seen_at: String,
    /// When last seen in a search result (RFC 3339).
    pub last_seen_at: String,
    /// Number of search results it appeared in.
    pub seen_count: u32,
    /// All known sources.
    pub sources: Vec<CachedTorrentSource>,
    /// File list, when known.
    pub files: Option<Vec<CachedTorrentFile>>,
}

/// An indexer that listed a cached torrent.
#[derive(Debug, Clone)]
pub struct CachedTorrentSource {
    /// Indexer name.
    pub indexer: String,
    /// Magnet URI.
    pub magnet_uri: Option<String>,
    /// .torrent download URL.
    pub torrent_url: Option<String>,
    /// Seeders (last known).
    pub seeders: u32,
    /// Leechers (last known).
    pub leechers: u32,
    /// Details page URL.
    pub details_url: Option<String>,
    /// When this source was last updated (RFC 3339).
    pub updated_at: String,
}

/// A file within a cached torrent.
#[derive(Debug, Clone)]
pub struct CachedTorrentFile {
    /// File path within the torrent.
    pub path: String,
    /// File size in bytes.
    pub size_bytes: u64,
}

/// Where a search looks.
#[derive(Debug, Clone, Copy, PartialEq, Eq, Structural)]
pub enum SearchMode {
    /// Only the local cache.
    CacheOnly,
    /// Only the external indexers.
    ExternalOnly,
    /// Both, with the results combined.
    Both,
}

impl Default for SearchMode {
    /// Searches look in both places unless told otherwise.
    fn default() -> (m: Self)
        ensures
            m == SearchMode::Both,
    {
        SearchMode::Both
    }
}

/// A catalog search.
#[derive(Debug, Clone)]
pub struct CatalogSearchQuery {
    /// Search text, matched against titles and file paths.
    pub query: String,
    /// Maximum number of results.
    pub limit: u32,
}

/// Result limit of a search that sets none.
pub fn default_limit() -> (n: u32)
    ensures
        n == 100,
{
    100
}

impl CatalogSearchQuery {
    /// A search for `query` with the default limit.
    pub fn new(query: String) -> (q: Self)
        ensures
            q.query@ == query@,
            q.limit == 100,
    {
        CatalogSearchQuery { query, limit: default_limit() }
    }
}

/// Catalog statistics.
#[derive(Debug, Clone)]
pub struct CatalogStats {
    /// Cached torrents.
    pub total_torrents: u64,
    /// Cached files.
    pub total_files: u64,
    /// Total size of the cached torrents in bytes.
    pub total_size_bytes: u64,
    /// Distinct indexers.
    pub unique_indexers: u32,
    /// First-seen time of the oldest entry (RFC 3339).
    pub oldest_entry: Option<String>,
    /// Last-seen time of the newest entry (RFC 3339).
    pub newest_entry: Option<String>,
}

/// Catalog errors.
#[derive(Debug)]
pub enum CatalogError {
    /// The database reported an error.
    Database(String),
    /// No such entry.
    NotFound(String),
    /// Anything else.
    Internal(String),
}

/// The message of a catalog error.
pub open spec fn catalog_error_message(e: CatalogError) -> Seq<char> {
    match e {
        CatalogError::Database(m) => "Database error: "@ + m@,
        CatalogError::NotFound(m) => "Not found: "@ + m@,
        CatalogError::Internal(m) => "Internal error: "@ + m@,
    }
}

impl CatalogError {
    /// The error message.
    pub fn message(&self) -> (m: String)
        ensures
            m@ == catalog_error_message(*self),
    {
        match self {
            CatalogError::Database(m) => concat2("Database error: ", m.as_str()),
            CatalogError::NotFound(m) => concat2("Not found: ", m.as_str()),
            CatalogError::Internal(m) => concat2("Internal error: ", m.as_str()),
        }
    }
}

/// The key under which the catalog keeps a torrent: its info hash in lower
/// case; a torrent without an info hash is not kept.
pub open spec fn catalog_key_of(info_hash: Seq<char>) -> Option<Seq<char>> {
    if info_hash.len() == 0 {
        None
    } else {
        Some(lowercase(info_hash))
    }
}

/// The key under which the catalog keeps a torrent with this info hash.
pub fn catalog_key(info_hash: &str) -> (k: Option<String>)
    ensures
        match k {
            Some(s) => catalog_key_of(info_hash@) == Some(s@),
            None => catalog_key_of(info_hash@) is None,
        },
{
    if info_hash.is_empty() {
        None
    } else {
        Some(to_lowercase(info_hash))
    }
}

/// The SQL LIKE pattern of a search: the text anywhere in the field.
pub fn like_pattern(query: &CatalogSearchQuery) -> (p: String)
    ensures
        p@ == "%"@ + query.query@ + "%"@,
{
    concat3("%", query.query.as_str(), "%")
}

} // verus!
