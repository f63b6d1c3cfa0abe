//! Audit trail: training-data records, errors, and the filter of audit
//! queries together with the SQL text and parameters the store runs for
//! it.  Timestamps are carried as RFC 3339 text; the database is driven
//! outside the library.

use vstd::prelude::*;

use crate::text::{concat2, concat3, copy_string, joined, opt_view, push_string, views};

verus! {

/// A torrent candidate as recorded for training data.
#[derive(Debug, Clone)]
pub struct TrainingCandidate {
    /// Torrent title.
    pub title: String,
    /// Info hash.
    pub hash: String,
    /// Size in bytes.
    pub size_bytes: u64,
    /// Seeder count.
    pub seeders: u32,
    /// Category, when known.
    pub category: Option<String>,
}

/// A torrent file as recorded for training data.
#[derive(Debug, Clone)]
pub struct TrainingFile {
    /// File path within the torrent.
    pub path: String,
    /// Size in bytes.
    pub size_bytes: u64,
}

/// A file mapping as recorded for training data.
#[derive(Debug, Clone)]
pub struct TrainingFileMapping {
    /// Torrent file path.
    pub file_path: String,
    /// Matched item ID.
    pub item_id: String,
    /// Confidence score (bit pattern of the `f32` value).
    pub confidence: u32,
}

/// Audit events.  Fractional scores are carried as the bit patterns of
/// their `f32` values; the library only stores and forwards them.
#[derive(Debug, Clone)]
pub enum AuditEvent {
    /// Service started.
    ServiceStarted {
        /// Version.
        version: String,
        /// Config hash.
        config_hash: String,
    },
    /// Service stopped.
    ServiceStopped {
        /// Reason.
        reason: String,
    },
    /// Ticket created.
    TicketCreated {
        /// Ticket id.
        ticket_id: String,
        /// Requested by.
        requested_by: String,
        /// Priority.
        priority: u16,
        /// Tags.
        tags: Vec<String>,
        /// Description.
        description: String,
        /// Dest path.
        dest_path: String,
    },
    /// Ticket state changed.
    TicketStateChanged {
        /// Ticket id.
        ticket_id: String,
        /// From state.
        from_state: String,
        /// To state.
        to_state: String,
        /// Reason.
        reason: Option<String>,
    },
    /// Ticket cancelled.
    TicketCancelled {
        /// Ticket id.
        ticket_id: String,
        /// Cancelled by.
        cancelled_by: String,
        /// Reason.
        reason: Option<String>,
        /// Previous state.
        previous_state: String,
    },
    /// Ticket was permanently deleted (hard delete).
    TicketDeleted {
        /// Ticket id.
        ticket_id: String,
        /// Deleted by.
        deleted_by: String,
        /// Previous state.
        previous_state: String,
    },
    /// Search executed.
    SearchExecuted {
        /// Who initiated the search
        user_id: String,
        /// Search backend used (e.g., "jackett")
        searcher: String,
        /// The query that was searched
        query: String,
        /// Which indexers were queried
        indexers_queried: Vec<String>,
        /// Number of results returned
        results_count: u32,
        /// How long the search took in milliseconds
        duration_ms: u64,
        /// Any indexers that failed (name -> error message)
        /// (pairs of indexer and error, each indexer once)
        indexer_errors: Vec<(String, String)>,
    },
    /// Indexer rate limit updated.
    IndexerRateLimitUpdated {
        /// Who updated the rate limit
        user_id: String,
        /// Which indexer was updated
        indexer: String,
        /// Previous rate limit (requests per minute)
        old_rpm: u32,
        /// New rate limit (requests per minute)
        new_rpm: u32,
    },
    /// Indexer enabled changed.
    IndexerEnabledChanged {
        /// Who changed the enabled state
        user_id: String,
        /// Which indexer was updated
        indexer: String,
        /// New enabled state
        enabled: bool,
    },
    /// Torrent added.
    TorrentAdded {
        /// Who added the torrent
        user_id: String,
        /// Info hash of the added torrent
        hash: String,
        /// Torrent name (if available)
        name: Option<String>,
        /// Source: "magnet" or "file"
        source: String,
        /// Associated ticket (if any)
        ticket_id: Option<String>,
    },
    /// Torrent removed.
    TorrentRemoved {
        /// Who removed the torrent
        user_id: String,
        /// Info hash of the removed torrent
        hash: String,
        /// Torrent name
        name: String,
        /// Whether files were also deleted
        delete_files: bool,
    },
    /// Torrent paused.
    TorrentPaused {
        /// Who paused the torrent
        user_id: String,
        /// Info hash
        hash: String,
        /// Torrent name
        name: String,
    },
    /// Torrent resumed.
    TorrentResumed {
        /// Who resumed the torrent
        user_id: String,
        /// Info hash
        hash: String,
        /// Torrent name
        name: String,
    },
    /// Torrent limit changed.
    TorrentLimitChanged {
        /// Who changed the limit
        user_id: String,
        /// Info hash
        hash: String,
        /// Torrent name
        name: String,
        /// Type of limit: "upload" or "download"
        limit_type: String,
        /// Previous limit (bytes/sec, 0 = unlimited)
        old_limit: u64,
        /// New limit (bytes/sec, 0 = unlimited)
        new_limit: u64,
    },
    /// Torrent rechecked.
    TorrentRechecked {
        /// Who initiated the recheck
        user_id: String,
        /// Info hash
        hash: String,
        /// Torrent name
        name: String,
    },
    /// Acquisition process started for a ticket.
    AcquisitionStarted {
        /// Associated ticket
        ticket_id: String,
        /// TextBrain mode being used
        mode: String,
        /// Description from query context
        description: String,
    },
    /// Query building phase started.
    QueryBuildingStarted {
        /// Associated ticket
        ticket_id: String,
        /// Method being attempted: "dumb", "llm", or hybrid
        method: String,
    },
    /// Query building phase completed.
    QueryBuildingCompleted {
        /// Associated ticket
        ticket_id: String,
        /// Generated queries
        queries: Vec<String>,
        /// Method that succeeded
        method: String,
        /// Duration in milliseconds
        duration_ms: u64,
    },
    /// Search operation started.
    SearchStarted {
        /// Associated ticket
        ticket_id: String,
        /// The query being searched
        query: String,
        /// Query index (1-based)
        query_index: u32,
        /// Total queries to try
        total_queries: u32,
    },
    /// Search operation completed.
    SearchCompleted {
        /// Associated ticket
        ticket_id: String,
        /// The query that was searched
        query: String,
        /// Number of candidates found
        candidates_found: u32,
        /// Duration in milliseconds
        duration_ms: u64,
    },
    /// Scoring phase started.
    ScoringStarted {
        /// Associated ticket
        ticket_id: String,
        /// Number of candidates to score
        candidates_count: u32,
        /// Method being attempted: "dumb", "llm", or hybrid
        method: String,
    },
    /// Scoring phase completed.
    ScoringCompleted {
        /// Associated ticket
        ticket_id: String,
        /// Number of candidates scored
        candidates_count: u32,
        /// Top candidate info hash (if any)
        top_candidate_hash: Option<String>,
        /// Top candidate score (0.0-1.0)
        /// (bit pattern of the `f32` value)
        top_candidate_score: Option<u32>,
        /// Method that succeeded
        method: String,
        /// Duration in milliseconds
        duration_ms: u64,
    },
    /// LLM call started.
    LlmCallStarted {
        /// Associated ticket (if any)
        ticket_id: Option<String>,
        /// Purpose of the call: "query_building" or "scoring"
        purpose: String,
        /// LLM provider being used
        provider: String,
        /// Model being used
        model: String,
    },
    /// LLM call completed successfully.
    LlmCallCompleted {
        /// Associated ticket (if any)
        ticket_id: Option<String>,
        /// Purpose of the call
        purpose: String,
        /// Input tokens used
        input_tokens: u32,
        /// Output tokens used
        output_tokens: u32,
        /// Duration in milliseconds
        duration_ms: u64,
    },
    /// LLM call failed.
    LlmCallFailed {
        /// Associated ticket (if any)
        ticket_id: Option<String>,
        /// Purpose of the call
        purpose: String,
        /// Error message
        error: String,
        /// Duration before failure in milliseconds
        duration_ms: u64,
        /// Whether it was a timeout
        is_timeout: bool,
    },
    /// Acquisition completed (summary event).
    AcquisitionCompleted {
        /// Associated ticket
        ticket_id: String,
        /// Whether a suitable candidate was found
        success: bool,
        /// Number of queries tried
        queries_tried: u32,
        /// Number of candidates evaluated
        candidates_evaluated: u32,
        /// Best candidate score (if any)
        /// (bit pattern of the `f32` value)
        best_score: Option<u32>,
        /// Total duration in milliseconds
        duration_ms: u64,
        /// Outcome: "auto_approved", "needs_approval", "no_candidates", "failed"
        outcome: String,
    },
    /// Fallback search started (e.g., discography search after album search fails).
    FallbackSearchStarted {
        /// Associated ticket
        ticket_id: String,
        /// Reason for fallback
        reason: String,
        /// Number of fallback queries to try
        fallback_queries: u32,
    },
    /// Fallback search completed.
    FallbackSearchCompleted {
        /// Associated ticket
        ticket_id: String,
        /// Number of candidates found in fallback
        candidates_found: u32,
        /// Best score from fallback candidates
        /// (bit pattern of the `f32` value)
        best_score: Option<u32>,
        /// Whether a discography was used
        used_discography: bool,
    },
    /// A discography/collection candidate was identified and scored.
    DiscographyCandidateScored {
        /// Associated ticket
        ticket_id: String,
        /// Candidate title
        title: String,
        /// Candidate info hash
        info_hash: String,
        /// Whether the target album was found in the file listing
        album_found: bool,
        /// Score assigned to this candidate
        /// (bit pattern of the `f32` value)
        score: u32,
        /// Number of files in the discography (if known)
        file_count: Option<u32>,
    },
    /// Target album found within a discography's file listing.
    AlbumFoundInDiscography {
        /// Associated ticket
        ticket_id: String,
        /// Discography title
        discography_title: String,
        /// Target album title being searched
        album_title: String,
        /// Number of matching tracks found
        matching_tracks: u32,
        /// Expected track count (if known)
        expected_tracks: Option<u32>,
    },
    /// Queries generated.
    QueriesGenerated {
        /// Associated ticket
        ticket_id: String,
        /// Generated search queries
        queries: Vec<String>,
        /// Method used: "dumb", "llm", or "dumb_then_llm"
        method: String,
        /// LLM tokens used (if any)
        llm_input_tokens: Option<u32>,
        /// Llm output tokens.
        llm_output_tokens: Option<u32>,
        /// How long query generation took
        duration_ms: u64,
    },
    /// Candidates scored.
    CandidatesScored {
        /// Associated ticket
        ticket_id: String,
        /// Number of candidates scored
        candidates_count: u32,
        /// Top candidate info hash (if any)
        top_candidate_hash: Option<String>,
        /// Top candidate score (0-100)
        top_candidate_score: Option<u32>,
        /// Method used: "dumb", "llm", or "dumb_then_llm"
        method: String,
        /// LLM tokens used (if any)
        llm_input_tokens: Option<u32>,
        /// Llm output tokens.
        llm_output_tokens: Option<u32>,
        /// How long scoring took
        duration_ms: u64,
    },
    /// Candidate selected.
    CandidateSelected {
        /// Associated ticket
        ticket_id: String,
        /// Who selected (user or "auto")
        selected_by: String,
        /// Selected torrent info hash
        hash: String,
        /// Selected torrent title
        title: String,
        /// Final score
        score: u32,
        /// Whether this was auto-selected (high confidence) or manual
        auto_selected: bool,
    },
    /// Full context for query building - used for training query generation models.
    TrainingQueryContext {
        /// Unique training sample ID
        sample_id: String,
        /// Associated ticket
        ticket_id: String,
        /// Input: structured tags
        input_tags: Vec<String>,
        /// Input: freeform description
        input_description: String,
        /// Input: expected content (serialized JSON)
        input_expected: Option<String>,
        /// Output: generated queries
        output_queries: Vec<String>,
        /// Method that generated these queries
        method: String,
        /// Confidence score
        /// (bit pattern of the `f32` value)
        confidence: u32,
        /// Whether these queries led to a successful match (filled in later)
        success: Option<bool>,
    },
    /// Full context for candidate scoring - used for training ranking models.
    TrainingScoringContext {
        /// Unique training sample ID
        sample_id: String,
        /// Associated ticket
        ticket_id: String,
        /// Input: query context description
        input_description: String,
        /// Input: expected content (serialized JSON)
        input_expected: Option<String>,
        /// Input: candidate titles
        input_candidates: Vec<TrainingCandidate>,
        /// Output: recommended index
        output_recommended_idx: usize,
        /// Output: scores for each candidate
        /// (bit pattern of the `f32` value)
        output_scores: Vec<u32>,
        /// Method used for scoring
        method: String,
    },
    /// File mapping result - used for training file matching models.
    TrainingFileMappingContext {
        /// Unique training sample ID
        sample_id: String,
        /// Associated ticket
        ticket_id: String,
        /// Input: expected content (serialized JSON)
        input_expected: String,
        /// Input: torrent files
        input_files: Vec<TrainingFile>,
        /// Output: file mappings
        output_mappings: Vec<TrainingFileMapping>,
        /// Mapping quality score
        /// (bit pattern of the `f32` value)
        quality: u32,
    },
    /// User correction - when user selects different candidate than recommended.
    /// This is valuable training data for improving ranking.
    UserCorrection {
        /// Associated ticket
        ticket_id: String,
        /// Original recommended index
        recommended_idx: usize,
        /// User-selected index
        selected_idx: usize,
        /// Query context description
        context_description: String,
        /// Expected content (serialized JSON)
        expected_content: Option<String>,
        /// Candidates that were presented
        candidates: Vec<TrainingCandidate>,
        /// User ID who made the correction
        user_id: String,
    },
    /// Conversion job started.
    ConversionStarted {
        /// Associated ticket
        ticket_id: String,
        /// Conversion job ID
        job_id: String,
        /// Input file path
        input_path: String,
        /// Output file path
        output_path: String,
        /// Target format
        target_format: String,
        /// Number of files to convert in this job
        total_files: usize,
    },
    /// Conversion progress update (periodic).
    ConversionProgress {
        /// Associated ticket
        ticket_id: String,
        /// Conversion job ID
        job_id: String,
        /// Current file index (0-based)
        current_idx: usize,
        /// Total files
        total_files: usize,
        /// Current file name
        current_file: String,
        /// Progress percentage (0-100)
        percent: u8,
    },
    /// Conversion completed successfully.
    ConversionCompleted {
        /// Associated ticket
        ticket_id: String,
        /// Conversion job ID
        job_id: String,
        /// Number of files converted
        files_converted: usize,
        /// Total output size in bytes
        output_bytes: u64,
        /// Duration in milliseconds
        duration_ms: u64,
        /// Input format
        input_format: String,
        /// Output format
        output_format: String,
    },
    /// Conversion failed.
    ConversionFailed {
        /// Associated ticket
        ticket_id: String,
        /// Conversion job ID
        job_id: String,
        /// File that failed (if applicable)
        failed_file: Option<String>,
        /// Error message
        error: String,
        /// Files completed before failure
        files_completed: usize,
        /// Whether the error is retryable
        retryable: bool,
    },
    /// Placement job started.
    PlacementStarted {
        /// Associated ticket
        ticket_id: String,
        /// Placement job ID
        job_id: String,
        /// Number of files to place
        total_files: usize,
        /// Total bytes to place
        total_bytes: u64,
    },
    /// Placement progress update (periodic).
    PlacementProgress {
        /// Associated ticket
        ticket_id: String,
        /// Placement job ID
        job_id: String,
        /// Files placed so far
        files_placed: usize,
        /// Total files
        total_files: usize,
        /// Bytes copied so far
        bytes_placed: u64,
        /// Current file being placed
        current_file: String,
    },
    /// Placement completed successfully.
    PlacementCompleted {
        /// Associated ticket
        ticket_id: String,
        /// Placement job ID
        job_id: String,
        /// Number of files placed
        files_placed: usize,
        /// Total bytes placed
        total_bytes: u64,
        /// Duration in milliseconds
        duration_ms: u64,
        /// Destination directory
        dest_dir: String,
    },
    /// Placement failed.
    PlacementFailed {
        /// Associated ticket
        ticket_id: String,
        /// Placement job ID
        job_id: String,
        /// File that failed (if applicable)
        failed_file: Option<String>,
        /// Error message
        error: String,
        /// Files completed before failure
        files_completed: usize,
    },
    /// Placement was rolled back after a failure.
    PlacementRolledBack {
        /// Associated ticket
        ticket_id: String,
        /// Placement job ID
        job_id: String,
        /// Files that were rolled back (removed)
        files_removed: usize,
        /// Directories that were rolled back (removed)
        directories_removed: usize,
        /// Whether rollback was successful
        success: bool,
        /// Any errors during rollback
        errors: Vec<String>,
    },
}

/// The stored type name of an event.
pub open spec fn event_type_name(e: AuditEvent) -> Seq<char> {
    match e {
        AuditEvent::ServiceStarted { .. } => "service_started"@,
        AuditEvent::ServiceStopped { .. } => "service_stopped"@,
        AuditEvent::TicketCreated { .. } => "ticket_created"@,
        AuditEvent::TicketStateChanged { .. } => "ticket_state_changed"@,
        AuditEvent::TicketCancelled { .. } => "ticket_cancelled"@,
        AuditEvent::TicketDeleted { .. } => "ticket_deleted"@,
        AuditEvent::SearchExecuted { .. } => "search_executed"@,
        AuditEvent::IndexerRateLimitUpdated { .. } => "indexer_rate_limit_updated"@,
        AuditEvent::IndexerEnabledChanged { .. } => "indexer_enabled_changed"@,
        AuditEvent::TorrentAdded { .. } => "torrent_added"@,
        AuditEvent::TorrentRemoved { .. } => "torrent_removed"@,
        AuditEvent::TorrentPaused { .. } => "torrent_paused"@,
        AuditEvent::TorrentResumed { .. } => "torrent_resumed"@,
        AuditEvent::TorrentLimitChanged { .. } => "torrent_limit_changed"@,
        AuditEvent::TorrentRechecked { .. } => "torrent_rechecked"@,
        AuditEvent::AcquisitionStarted { .. } => "acquisition_started"@,
        AuditEvent::QueryBuildingStarted { .. } => "query_building_started"@,
        AuditEvent::QueryBuildingCompleted { .. } => "query_building_completed"@,
        AuditEvent::SearchStarted { .. } => "search_started"@,
        AuditEvent::SearchCompleted { .. } => "search_completed"@,
        AuditEvent::ScoringStarted { .. } => "scoring_started"@,
        AuditEvent::ScoringCompleted { .. } => "scoring_completed"@,
        AuditEvent::LlmCallStarted { .. } => "llm_call_started"@,
        AuditEvent::LlmCallCompleted { .. } => "llm_call_completed"@,
        AuditEvent::LlmCallFailed { .. } => "llm_call_failed"@,
        AuditEvent::AcquisitionCompleted { .. } => "acquisition_completed"@,
        AuditEvent::FallbackSearchStarted { .. } => "fallback_search_started"@,
        AuditEvent::FallbackSearchCompleted { .. } => "fallback_search_completed"@,
        AuditEvent::DiscographyCandidateScored { .. } => "discography_candidate_scored"@,
        AuditEvent::AlbumFoundInDiscography { .. } => "album_found_in_discography"@,
        AuditEvent::QueriesGenerated { .. } => "queries_generated"@,
        AuditEvent::CandidatesScored { .. } => "candidates_scored"@,
        AuditEvent::CandidateSelected { .. } => "candidate_selected"@,
        AuditEvent::TrainingQueryContext { .. } => "training_query_context"@,
        AuditEvent::TrainingScoringContext { .. } => "training_scoring_context"@,
        AuditEvent::TrainingFileMappingContext { .. } => "training_file_mapping_context"@,
        AuditEvent::UserCorrection { .. } => "user_correction"@,
        AuditEvent::ConversionStarted { .. } => "conversion_started"@,
        AuditEvent::ConversionProgress { .. } => "conversion_progress"@,
        AuditEvent::ConversionCompleted { .. } => "conversion_completed"@,
        AuditEvent::ConversionFailed { .. } => "conversion_failed"@,
        AuditEvent::PlacementStarted { .. } => "placement_started"@,
        AuditEvent::PlacementProgress { .. } => "placement_progress"@,
        AuditEvent::PlacementCompleted { .. } => "placement_completed"@,
        AuditEvent::PlacementFailed { .. } => "placement_failed"@,
        AuditEvent::PlacementRolledBack { .. } => "placement_rolled_back"@,
    }
}

/// The ticket an event concerns, if any.
pub open spec fn event_ticket(e: AuditEvent) -> Option<Seq<char>> {
    match e {
        AuditEvent::TicketCreated { ticket_id, .. } => Some(ticket_id@),
        AuditEvent::TicketStateChanged { ticket_id, .. } => Some(ticket_id@),
        AuditEvent::TicketCancelled { ticket_id, .. } => Some(ticket_id@),
        AuditEvent::TicketDeleted { ticket_id, .. } => Some(ticket_id@),
        AuditEvent::AcquisitionStarted { ticket_id, .. } => Some(ticket_id@),
        AuditEvent::QueryBuildingStarted { ticket_id, .. } => Some(ticket_id@),
        AuditEvent::QueryBuildingCompleted { ticket_id, .. } => Some(ticket_id@),
        AuditEvent::SearchStarted { ticket_id, .. } => Some(ticket_id@),
        AuditEvent::SearchCompleted { ticket_id, .. } => Some(ticket_id@),
        AuditEvent::ScoringStarted { ticket_id, .. } => Some(ticket_id@),
        AuditEvent::ScoringCompleted { ticket_id, .. } => Some(ticket_id@),
        AuditEvent::AcquisitionCompleted { ticket_id, .. } => Some(ticket_id@),
        AuditEvent::FallbackSearchStarted { ticket_id, .. } => Some(ticket_id@),
        AuditEvent::FallbackSearchCompleted { ticket_id, .. } => Some(ticket_id@),
        AuditEvent::DiscographyCandidateScored { ticket_id, .. } => Some(ticket_id@),
        AuditEvent::AlbumFoundInDiscography { ticket_id, .. } => Some(ticket_id@),
        AuditEvent::QueriesGenerated { ticket_id, .. } => Some(ticket_id@),
        AuditEvent::CandidatesScored { ticket_id, .. } => Some(ticket_id@),
        AuditEvent::CandidateSelected { ticket_id, .. } => Some(ticket_id@),
        AuditEvent::TrainingQueryContext { ticket_id, .. } => Some(ticket_id@),
        AuditEvent::TrainingScoringContext { ticket_id, .. } => Some(ticket_id@),
        AuditEvent::TrainingFileMappingContext { ticket_id, .. } => Some(ticket_id@),
        AuditEvent::UserCorrection { ticket_id, .. } => Some(ticket_id@),
        AuditEvent::ConversionStarted { ticket_id, .. } => Some(ticket_id@),
        AuditEvent::ConversionProgress { ticket_id, .. } => Some(ticket_id@),
        AuditEvent::ConversionCompleted { ticket_id, .. } => Some(ticket_id@),
        AuditEvent::ConversionFailed { ticket_id, .. } => Some(ticket_id@),
        AuditEvent::PlacementStarted { ticket_id, .. } => Some(ticket_id@),
        AuditEvent::PlacementProgress { ticket_id, .. } => Some(ticket_id@),
        AuditEvent::PlacementCompleted { ticket_id, .. } => Some(ticket_id@),
        AuditEvent::PlacementFailed { ticket_id, .. } => Some(ticket_id@),
        AuditEvent::PlacementRolledBack { ticket_id, .. } => Some(ticket_id@),
        AuditEvent::TorrentAdded { ticket_id, .. } => opt_view(ticket_id),
        AuditEvent::LlmCallStarted { ticket_id, .. } => opt_view(ticket_id),
        AuditEvent::LlmCallCompleted { ticket_id, .. } => opt_view(ticket_id),
        AuditEvent::LlmCallFailed { ticket_id, .. } => opt_view(ticket_id),
        _ => None,
    }
}

/// The user who triggered an event, if a user did.
pub open spec fn event_user(e: AuditEvent) -> Option<Seq<char>> {
    match e {
        AuditEvent::TicketCreated { requested_by, .. } => Some(requested_by@),
        AuditEvent::TicketCancelled { cancelled_by, .. } => Some(cancelled_by@),
        AuditEvent::TicketDeleted { deleted_by, .. } => Some(deleted_by@),
        AuditEvent::CandidateSelected { selected_by, .. } => Some(selected_by@),
        AuditEvent::SearchExecuted { user_id, .. } => Some(user_id@),
        AuditEvent::IndexerRateLimitUpdated { user_id, .. } => Some(user_id@),
        AuditEvent::IndexerEnabledChanged { user_id, .. } => Some(user_id@),
        AuditEvent::TorrentAdded { user_id, .. } => Some(user_id@),
        AuditEvent::TorrentRemoved { user_id, .. } => Some(user_id@),
        AuditEvent::TorrentPaused { user_id, .. } => Some(user_id@),
        AuditEvent::TorrentResumed { user_id, .. } => Some(user_id@),
        AuditEvent::TorrentLimitChanged { user_id, .. } => Some(user_id@),
        AuditEvent::TorrentRechecked { user_id, .. } => Some(user_id@),
        AuditEvent::UserCorrection { user_id, .. } => Some(user_id@),
        _ => None,
    }
}

/// The text of an optional string as a slice.
fn opt_str(o: &Option<String>) -> (r: Option<&str>)
    ensures
        match r {
            Some(s) => opt_view(*o) == Some(s@),
            None => opt_view(*o) is None,
        },
{
    match o {
        Some(s) => Some(s.as_str()),
        None => None,
    }
}

impl AuditEvent {
    /// The event type under which the event is stored.
    pub fn event_type(&self) -> (t: &'static str)
        ensures
            t@ == event_type_name(*self),
    {
        match self {
            AuditEvent::ServiceStarted { .. } => "service_started",
            AuditEvent::ServiceStopped { .. } => "service_stopped",
            AuditEvent::TicketCreated { .. } => "ticket_created",
            AuditEvent::TicketStateChanged { .. } => "ticket_state_changed",
            AuditEvent::TicketCancelled { .. } => "ticket_cancelled",
            AuditEvent::TicketDeleted { .. } => "ticket_deleted",
            AuditEvent::SearchExecuted { .. } => "search_executed",
            AuditEvent::IndexerRateLimitUpdated { .. } => "indexer_rate_limit_updated",
            AuditEvent::IndexerEnabledChanged { .. } => "indexer_enabled_changed",
            AuditEvent::TorrentAdded { .. } => "torrent_added",
            AuditEvent::TorrentRemoved { .. } => "torrent_removed",
            AuditEvent::TorrentPaused { .. } => "torrent_paused",
            AuditEvent::TorrentResumed { .. } => "torrent_resumed",
            AuditEvent::TorrentLimitChanged { .. } => "torrent_limit_changed",
            AuditEvent::TorrentRechecked { .. } => "torrent_rechecked",
            AuditEvent::AcquisitionStarted { .. } => "acquisition_started",
            AuditEvent::QueryBuildingStarted { .. } => "query_building_started",
            AuditEvent::QueryBuildingCompleted { .. } => "query_building_completed",
            AuditEvent::SearchStarted { .. } => "search_started",
            AuditEvent::SearchCompleted { .. } => "search_completed",
            AuditEvent::ScoringStarted { .. } => "scoring_started",
            AuditEvent::ScoringCompleted { .. } => "scoring_completed",
            AuditEvent::LlmCallStarted { .. } => "llm_call_started",
            AuditEvent::LlmCallCompleted { .. } => "llm_call_completed",
            AuditEvent::LlmCallFailed { .. } => "llm_call_failed",
            AuditEvent::AcquisitionCompleted { .. } => "acquisition_completed",
            AuditEvent::FallbackSearchStarted { .. } => "fallback_search_started",
            AuditEvent::FallbackSearchCompleted { .. } => "fallback_search_completed",
            AuditEvent::DiscographyCandidateScored { .. } => "discography_candidate_scored",
            AuditEvent::AlbumFoundInDiscography { .. } => "album_found_in_discography",
            AuditEvent::QueriesGenerated { .. } => "queries_generated",
            AuditEvent::CandidatesScored { .. } => "candidates_scored",
            AuditEvent::CandidateSelected { .. } => "candidate_selected",
            AuditEvent::TrainingQueryContext { .. } => "training_query_context",
            AuditEvent::TrainingScoringContext { .. } => "training_scoring_context",
            AuditEvent::TrainingFileMappingContext { .. } => "training_file_mapping_context",
            AuditEvent::UserCorrection { .. } => "user_correction",
            AuditEvent::ConversionStarted { .. } => "conversion_started",
            AuditEvent::ConversionProgress { .. } => "conversion_progress",
            AuditEvent::ConversionCompleted { .. } => "conversion_completed",
            AuditEvent::ConversionFailed { .. } => "conversion_failed",
            AuditEvent::PlacementStarted { .. } => "placement_started",
            AuditEvent::PlacementProgress { .. } => "placement_progress",
            AuditEvent::PlacementCompleted { .. } => "placement_completed",
            AuditEvent::PlacementFailed { .. } => "placement_failed",
            AuditEvent::PlacementRolledBack { .. } => "placement_rolled_back",
        }
    }

    /// The ticket the event concerns, if any.
    pub fn ticket_id(&self) -> (t: Option<&str>)
        ensures
            match t {
                Some(s) => event_ticket(*self) == Some(s@),
                None => event_ticket(*self) is None,
            },
    {
        match self {
            AuditEvent::TicketCreated { ticket_id, .. } => Some(ticket_id.as_str()),
            AuditEvent::TicketStateChanged { ticket_id, .. } => Some(ticket_id.as_str()),
            AuditEvent::TicketCancelled { ticket_id, .. } => Some(ticket_id.as_str()),
            AuditEvent::TicketDeleted { ticket_id, .. } => Some(ticket_id.as_str()),
            AuditEvent::AcquisitionStarted { ticket_id, .. } => Some(ticket_id.as_str()),
            AuditEvent::QueryBuildingStarted { ticket_id, .. } => Some(ticket_id.as_str()),
            AuditEvent::QueryBuildingCompleted { ticket_id, .. } => Some(ticket_id.as_str()),
            AuditEvent::SearchStarted { ticket_id, .. } => Some(ticket_id.as_str()),
            AuditEvent::SearchCompleted { ticket_id, .. } => Some(ticket_id.as_str()),
            AuditEvent::ScoringStarted { ticket_id, .. } => Some(ticket_id.as_str()),
            AuditEvent::ScoringCompleted { ticket_id, .. } => Some(ticket_id.as_str()),
            AuditEvent::AcquisitionCompleted { ticket_id, .. } => Some(ticket_id.as_str()),
            AuditEvent::FallbackSearchStarted { ticket_id, .. } => Some(ticket_id.as_str()),
            AuditEvent::FallbackSearchCompleted { ticket_id, .. } => Some(ticket_id.as_str()),
            AuditEvent::DiscographyCandidateScored { ticket_id, .. } => Some(ticket_id.as_str()),
            AuditEvent::AlbumFoundInDiscography { ticket_id, .. } => Some(ticket_id.as_str()),
            AuditEvent::QueriesGenerated { ticket_id, .. } => Some(ticket_id.as_str()),
            AuditEvent::CandidatesScored { ticket_id, .. } => Some(ticket_id.as_str()),
            AuditEvent::CandidateSelected { ticket_id, .. } => Some(ticket_id.as_str()),
            AuditEvent::TrainingQueryContext { ticket_id, .. } => Some(ticket_id.as_str()),
            AuditEvent::TrainingScoringContext { ticket_id, .. } => Some(ticket_id.as_str()),
            AuditEvent::TrainingFileMappingContext { ticket_id, .. } => Some(ticket_id.as_str()),
            AuditEvent::UserCorrection { ticket_id, .. } => Some(ticket_id.as_str()),
            AuditEvent::ConversionStarted { ticket_id, .. } => Some(ticket_id.as_str()),
            AuditEvent::ConversionProgress { ticket_id, .. } => Some(ticket_id.as_str()),
            AuditEvent::ConversionCompleted { ticket_id, .. } => Some(ticket_id.as_str()),
            AuditEvent::ConversionFailed { ticket_id, .. } => Some(ticket_id.as_str()),
            AuditEvent::PlacementStarted { ticket_id, .. } => Some(ticket_id.as_str()),
            AuditEvent::PlacementProgress { ticket_id, .. } => Some(ticket_id.as_str()),
            AuditEvent::PlacementCompleted { ticket_id, .. } => Some(ticket_id.as_str()),
            AuditEvent::PlacementFailed { ticket_id, .. } => Some(ticket_id.as_str()),
            AuditEvent::PlacementRolledBack { ticket_id, .. } => Some(ticket_id.as_str()),
            AuditEvent::TorrentAdded { ticket_id, .. } => opt_str(ticket_id),
            AuditEvent::LlmCallStarted { ticket_id, .. } => opt_str(ticket_id),
            AuditEvent::LlmCallCompleted { ticket_id, .. } => opt_str(ticket_id),
            AuditEvent::LlmCallFailed { ticket_id, .. } => opt_str(ticket_id),
            _ => None,
        }
    }

    /// The user who triggered the event, if a user did.
    pub fn user_id(&self) -> (u: Option<&str>)
        ensures
            match u {
                Some(s) => event_user(*self) == Some(s@),
                None => event_user(*self) is None,
            },
    {
        match self {
            AuditEvent::TicketCreated { requested_by, .. } => Some(requested_by.as_str()),
            AuditEvent::TicketCancelled { cancelled_by, .. } => Some(cancelled_by.as_str()),
            AuditEvent::TicketDeleted { deleted_by, .. } => Some(deleted_by.as_str()),
            AuditEvent::CandidateSelected { selected_by, .. } => Some(selected_by.as_str()),
            AuditEvent::SearchExecuted { user_id, .. } => Some(user_id.as_str()),
            AuditEvent::IndexerRateLimitUpdated { user_id, .. } => Some(user_id.as_str()),
            AuditEvent::IndexerEnabledChanged { user_id, .. } => Some(user_id.as_str()),
            AuditEvent::TorrentAdded { user_id, .. } => Some(user_id.as_str()),
            AuditEvent::TorrentRemoved { user_id, .. } => Some(user_id.as_str()),
            AuditEvent::TorrentPaused { user_id, .. } => Some(user_id.as_str()),
            AuditEvent::TorrentResumed { user_id, .. } => Some(user_id.as_str()),
            AuditEvent::TorrentLimitChanged { user_id, .. } => Some(user_id.as_str()),
            AuditEvent::TorrentRechecked { user_id, .. } => Some(user_id.as_str()),
            AuditEvent::UserCorrection { user_id, .. } => Some(user_id.as_str()),
            _ => None,
        }
    }
}

/// A stored audit record.
#[derive(Debug, Clone)]
pub struct AuditRecord {
    /// Database ID (0 before the record is stored).
    pub id: i64,
    /// When the event happened (RFC 3339).
    pub timestamp: String,
    /// Stored event type.
    pub event_type: String,
    /// Ticket concerned, if any.
    pub ticket_id: Option<String>,
    /// User who triggered the event, if any.
    pub user_id: Option<String>,
    /// The event.
    pub data: AuditEvent,
}

impl AuditRecord {
    /// The record written for an event emitted at `timestamp`: not yet
    /// stored (ID 0), indexed by the event's type, ticket and user.
    pub fn for_event(timestamp: String, event: AuditEvent) -> (r: Self)
        ensures
            r.id == 0,
            r.timestamp == timestamp,
            r.event_type@ == event_type_name(event),
            opt_view(r.ticket_id) == event_ticket(event),
            opt_view(r.user_id) == event_user(event),
            r.data == event,
    {
        let event_type = event.event_type().to_owned();
        let ticket_id = match event.ticket_id() {
            Some(t) => Some(t.to_owned()),
            None => None,
        };
        let user_id = match event.user_id() {
            Some(u) => Some(u.to_owned()),
            None => None,
        };
        AuditRecord { id: 0, timestamp, event_type, ticket_id, user_id, data: event }
    }
}

/// Audit store errors.
#[derive(Debug)]
pub enum AuditError {
    /// The database reported an error.
    Database(String),
    /// An event could not be (de)serialized.
    Serialization(String),
}

/// The message of an audit error.
pub open spec fn audit_error_message(e: AuditError) -> Seq<char> {
    match e {
        AuditError::Database(m) => "Database error: "@ + m@,
        AuditError::Serialization(m) => "Serialization error: "@ + m@,
    }
}

impl AuditError {
    /// The error message.
    pub fn message(&self) -> (m: String)
        ensures
            m@ == audit_error_message(*self),
    {
        match self {
            AuditError::Database(m) => concat2("Database error: ", m.as_str()),
            AuditError::Serialization(m) => concat2("Serialization error: ", m.as_str()),
        }
    }
}

/// Filter of an audit query.
#[derive(Debug, Clone)]
pub struct AuditFilter {
    /// Only events of this ticket.
    pub ticket_id: Option<String>,
    /// Only events of this type.
    pub event_type: Option<String>,
    /// Only events of this user.
    pub user_id: Option<String>,
    /// Only events at or after this time (RFC 3339).
    pub from: Option<String>,
    /// Only events at or before this time (RFC 3339).
    pub to: Option<String>,
    /// Maximum number of records.
    pub limit: i64,
    /// Records to skip.
    pub offset: i64,
}

impl AuditFilter {
    /// The filter that selects everything, 100 records at a time.
    pub fn new() -> (f: Self)
        ensures
            f.ticket_id is None,
            f.event_type is None,
            f.user_id is None,
            f.from is None,
            f.to is None,
            f.limit == 100,
            f.offset == 0,
    {
        AuditFilter {
            ticket_id: None,
            event_type: None,
            user_id: None,
            from: None,
            to: None,
            limit: 100,
            offset: 0,
        }
    }

    /// Restricts to one ticket.
    pub fn with_ticket_id(self, ticket_id: String) -> (f: Self)
        ensures
            f == (AuditFilter { ticket_id: Some(ticket_id), ..self }),
    {
        AuditFilter { ticket_id: Some(ticket_id), ..self }
    }

    /// Restricts to one event type.
    pub fn with_event_type(self, event_type: String) -> (f: Self)
        ensures
            f == (AuditFilter { event_type: Some(event_type), ..self }),
    {
        AuditFilter { event_type: Some(event_type), ..self }
    }

    /// Restricts to one user.
    pub fn with_user_id(self, user_id: String) -> (f: Self)
        ensures
            f == (AuditFilter { user_id: Some(user_id), ..self }),
    {
        AuditFilter { user_id: Some(user_id), ..self }
    }

    /// Restricts to a time range (either end optional).
    pub fn with_time_range(self, from: Option<String>, to: Option<String>) -> (f: Self)
        ensures
            f == (AuditFilter { from, to, ..self }),
    {
        AuditFilter { from, to, ..self }
    }

    /// Sets the maximum number of records.
    pub fn with_limit(self, limit: i64) -> (f: Self)
        ensures
            f == (AuditFilter { limit, ..self }),
    {
        AuditFilter { limit, ..self }
    }

    /// Sets the number of records to skip.
    pub fn with_offset(self, offset: i64) -> (f: Self)
        ensures
            f == (AuditFilter { offset, ..self }),
    {
        AuditFilter { offset, ..self }
    }
}

/// One condition with its parameter, for a field that is set.
pub open spec fn condition(field: Option<String>, text: Seq<char>) -> Seq<(Seq<char>, Seq<char>)> {
    match field {
        Some(v) => seq![(text, v@)],
        None => Seq::empty(),
    }
}

/// The conditions of a filter with their parameters, in the order ticket,
/// event type, user, start time, end time.
pub open spec fn filter_conditions(f: AuditFilter) -> Seq<(Seq<char>, Seq<char>)> {
    condition(f.ticket_id, "ticket_id = ?"@) + condition(f.event_type, "event_type = ?"@)
        + condition(f.user_id, "user_id = ?"@) + condition(f.from, "timestamp >= ?"@)
        + condition(f.to, "timestamp <= ?"@)
}

/// The WHERE clause of a filter: empty when no condition is set, else
/// "WHERE " and the conditions joined by " AND ".
pub open spec fn where_clause_of(f: AuditFilter) -> Seq<char> {
    let conds = filter_conditions(f).map_values(|c: (Seq<char>, Seq<char>)| c.0);
    if conds.len() == 0 {
        Seq::empty()
    } else {
        "WHERE "@ + joined(conds, " AND "@)
    }
}

/// The parameters of a filter's conditions, in order.
pub open spec fn where_params_of(f: AuditFilter) -> Seq<Seq<char>> {
    filter_conditions(f).map_values(|c: (Seq<char>, Seq<char>)| c.1)
}

/// Adds a condition when the field is set.
fn push_condition(
    conds: &mut Vec<&'static str>,
    params: &mut Vec<String>,
    field: &Option<String>,
    text: &'static str,
)
    ensures
        match *field {
            Some(v) => final(conds)@.map_values(|c: &str| c@) == old(conds)@.map_values(
                |c: &str| c@,
            ).push(text@) && views(final(params)@) == views(old(params)@).push(v@),
            None => final(conds)@ == old(conds)@ && final(params)@ == old(params)@,
        },
{
    if let Some(v) = field {
        let ghost before = conds@;
        conds.push(text);
        assert(conds@.map_values(|c: &str| c@) =~= before.map_values(|c: &str| c@).push(text@));
        push_string(params, copy_string(v));
    }
}

/// The WHERE clause of a filter and the parameters of its placeholders.
pub fn build_where_clause(filter: &AuditFilter) -> (r: (String, Vec<String>))
    ensures
        r.0@ == where_clause_of(*filter),
        views(r.1@) == where_params_of(*filter),
{
    let mut conds: Vec<&'static str> = Vec::new();
    let mut params: Vec<String> = Vec::new();
    let ghost f = *filter;
    push_condition(&mut conds, &mut params, &filter.ticket_id, "ticket_id = ?");
    push_condition(&mut conds, &mut params, &filter.event_type, "event_type = ?");
    push_condition(&mut conds, &mut params, &filter.user_id, "user_id = ?");
    push_condition(&mut conds, &mut params, &filter.from, "timestamp >= ?");
    push_condition(&mut conds, &mut params, &filter.to, "timestamp <= ?");
    let ghost fc = filter_conditions(f);
    assert(conds@.map_values(|c: &str| c@) =~= fc.map_values(|c: (Seq<char>, Seq<char>)| c.0));
    assert(views(params@) =~= fc.map_values(|c: (Seq<char>, Seq<char>)| c.1));
    if conds.len() == 0 {
        return (String::new(), params);
    }
    let mut text = conds[0].to_owned();
    let mut i: usize = 1;
    while i < conds.len()
        invariant
            1 <= i <= conds@.len(),
            text@ == joined(conds@.map_values(|c: &str| c@).take(i as int), " AND "@),
        decreases conds@.len() - i,
    {
        proof {
            let cv = conds@.map_values(|c: &str| c@);
            assert(cv.take(i as int + 1).drop_last() =~= cv.take(i as int));
            assert(cv.take(i as int + 1).last() == conds@[i as int]@);
        }
        text = concat3(text.as_str(), " AND ", conds[i]);
        i += 1;
    }
    proof {
        let cv = conds@.map_values(|c: &str| c@);
        assert(cv.take(conds@.len() as int) =~= cv);
        assert(cv.take(1) =~= seq![cv[0]]);
    }
    (concat2("WHERE ", text.as_str()), params)
}

/// Number of occurrences of `c` in `s`.
pub open spec fn count_char(s: Seq<char>, c: char) -> nat
    decreases s.len(),
{
    if s.len() == 0 {
        0
    } else {
        count_char(s.drop_last(), c) + if s.last() == c {
            1nat
        } else {
            0nat
        }
    }
}

proof fn lemma_count_concat(a: Seq<char>, b: Seq<char>, c: char)
    ensures
        count_char(a + b, c) == count_char(a, c) + count_char(b, c),
    decreases b.len(),
{
    if b.len() > 0 {
        lemma_count_concat(a, b.drop_last(), c);
        assert((a + b).drop_last() =~= a + b.drop_last());
    } else {
        assert(a + b =~= a);
    }
}

proof fn lemma_count_joined(parts: Seq<Seq<char>>, sep: Seq<char>, c: char)
    requires
        count_char(sep, c) == 0,
        forall|i: int| 0 <= i < parts.len() ==> count_char(#[trigger] parts[i], c) == 1,
    ensures
        count_char(joined(parts, sep), c) == parts.len(),
    decreases parts.len(),
{
    if parts.len() > 1 {
        lemma_count_joined(parts.drop_last(), sep, c);
        lemma_count_concat(joined(parts.drop_last(), sep), sep, c);
        lemma_count_concat(joined(parts.drop_last(), sep) + sep, parts.last(), c);
        assert(count_char(parts.last(), c) == 1);
    } else if parts.len() == 1 {
        assert(count_char(parts[0], c) == 1);
    }
}

proof fn lemma_condition_texts()
    ensures
        count_char("ticket_id = ?"@, '?') == 1,
        count_char("event_type = ?"@, '?') == 1,
        count_char("user_id = ?"@, '?') == 1,
        count_char("timestamp >= ?"@, '?') == 1,
        count_char("timestamp <= ?"@, '?') == 1,
        count_char(" AND "@, '?') == 0,
        count_char("WHERE "@, '?') == 0,
{
    reveal_strlit("ticket_id = ?");
    reveal_strlit("event_type = ?");
    reveal_strlit("user_id = ?");
    reveal_strlit("timestamp >= ?");
    reveal_strlit("timestamp <= ?");
    reveal_strlit(" AND ");
    reveal_strlit("WHERE ");
    reveal_with_fuel(count_char, 16);
}

/// The WHERE clause of a filter holds exactly one `?` placeholder per
/// parameter, so the parameters bind to the conditions in order.
pub proof fn lemma_one_placeholder_per_parameter(f: AuditFilter)
    ensures
        count_char(where_clause_of(f), '?') == where_params_of(f).len(),
{
    lemma_condition_texts();
    let fc = filter_conditions(f);
    let conds = fc.map_values(|c: (Seq<char>, Seq<char>)| c.0);
    assert forall|i: int| 0 <= i < conds.len() implies count_char(#[trigger] conds[i], '?') == 1 by {
        let texts = seq![
            "ticket_id = ?"@,
            "event_type = ?"@,
            "user_id = ?"@,
            "timestamp >= ?"@,
            "timestamp <= ?"@,
        ];
        assert(conds[i] == fc[i].0);
        assert(fc[i].0 == texts[0] || fc[i].0 == texts[1] || fc[i].0 == texts[2] || fc[i].0
            == texts[3] || fc[i].0 == texts[4]);
    }
    if conds.len() > 0 {
        lemma_count_joined(conds, " AND "@, '?');
        lemma_count_concat("WHERE "@, joined(conds, " AND "@), '?');
    }
}

/// The SQL of an audit query for a WHERE clause: newest first, with the
/// limit and offset as the last two parameters.
pub open spec fn query_sql_of(where_clause: Seq<char>) -> Seq<char> {
    "SELECT id, timestamp, event_type, ticket_id, user_id, data FROM audit_events "@ + where_clause
        + " ORDER BY timestamp DESC LIMIT ? OFFSET ?"@
}

/// The SQL of an audit query for a WHERE clause.
pub fn query_sql(where_clause: &str) -> (s: String)
    ensures
        s@ == query_sql_of(where_clause@),
{
    concat3(
        "SELECT id, timestamp, event_type, ticket_id, user_id, data FROM audit_events ",
        where_clause,
        " ORDER BY timestamp DESC LIMIT ? OFFSET ?",
    )
}

/// The SQL counting the audit records of a WHERE clause.
pub fn count_sql(where_clause: &str) -> (s: String)
    ensures
        s@ == "SELECT COUNT(*) FROM audit_events "@ + where_clause@,
{
    concat2("SELECT COUNT(*) FROM audit_events ", where_clause)
}

} // verus!
