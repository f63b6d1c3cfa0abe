//! Search results: torrent candidates, the indexers that listed them and
//! their file listings.

use vstd::prelude::*;

verus! {

/// A file inside a torrent.
#[derive(Debug, Clone)]
pub struct TorrentFile {
    /// Path within the torrent.
    pub path: String,
    /// Size in bytes.
    pub size_bytes: u64,
}

/// An indexer that listed a torrent.
#[derive(Debug, Clone)]
pub struct TorrentSource {
    /// Indexer name.
    pub indexer: String,
    /// Magnet URI, when the indexer gave one.
    pub magnet_uri: Option<String>,
    /// Download URL of the .torrent file, when the indexer gave one.
    pub torrent_url: Option<String>,
    /// Seeders reported by this indexer.
    pub seeders: u32,
    /// Leechers reported by this indexer.
    pub leechers: u32,
    /// Details page URL.
    pub details_url: Option<String>,
}

/// A torrent found by a search.
#[derive(Debug, Clone)]
pub struct TorrentCandidate {
    /// Release title.
    pub title: String,
    /// Info hash.
    pub info_hash: String,
    /// Total size in bytes.
    pub size_bytes: u64,
    /// Best seeder count over all sources.
    pub seeders: u32,
    /// Best leecher count over all sources.
    pub leechers: u32,
    /// Category reported by the indexer.
    pub category: Option<String>,
    /// Publication date as the indexer wrote it (RFC 3339).
    pub publish_date: Option<String>,
    /// File listing, when known.
    pub files: Option<Vec<TorrentFile>>,
    /// Indexers that listed this torrent.
    pub sources: Vec<TorrentSource>,
    /// Whether this candidate came from the local catalog.
    pub from_cache: bool,
}

} // verus!
