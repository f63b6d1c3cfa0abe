//! The processing pipeline's records and decisions: pool status, what a job
//! converts and where each file is placed, and how results and failures
//! are reported.  Running conversions and placements, and the concurrency
//! around them, happen outside the library.

use vstd::prelude::*;

use crate::converter::{path_join, join_path, EmbeddedMetadata};
use crate::placer::{FilePlacement, PlacedFile, PlacementJob};
use crate::text::{
    concat2, concat3, copy_opt_string, copy_string, decimal, decimal_string, opt_view, views,
};

verus! {

/// Retry limits of the processor (the backoff multiplier is kept by the
/// caller).
#[derive(Debug, Clone, Copy, PartialEq, Eq)]
pub struct ProcessorRetryLimits {
    /// Maximum retry attempts.
    pub max_attempts: u32,
    /// Delay before the first retry in seconds.
    pub initial_delay_secs: u64,
    /// Cap on the delay between retries in seconds.
    pub max_delay_secs: u64,
}

/// Retry attempts, when not configured.
pub fn default_max_retries() -> (n: u32)
    ensures
        n == 3,
{
    3
}

/// Delay before the first retry, when not configured (1 minute).
pub fn default_retry_delay() -> (s: u64)
    ensures
        s == 60,
{
    60
}

/// Cap on the retry delay, when not configured (1 hour).
pub fn default_max_delay() -> (s: u64)
    ensures
        s == 3600,
{
    3600
}

impl Default for ProcessorRetryLimits {
    fn default() -> (r: Self)
        ensures
            r.max_attempts == 3,
            r.initial_delay_secs == 60,
            r.max_delay_secs == 3600,
    {
        ProcessorRetryLimits {
            max_attempts: default_max_retries(),
            initial_delay_secs: default_retry_delay(),
            max_delay_secs: default_max_delay(),
        }
    }
}

/// Configuration of the processing pipeline.
#[derive(Debug, Clone)]
pub struct ProcessorConfig {
    /// Maximum parallel conversions.
    pub max_parallel_conversions: usize,
    /// Maximum parallel placements.
    pub max_parallel_placements: usize,
    /// Directory for intermediate files.
    pub temp_dir: String,
    /// Whether source files are removed after a successful placement.
    pub cleanup_after_placement: bool,
    /// Retry limits.
    pub retry: ProcessorRetryLimits,
    /// Conversion timeout in seconds.
    pub conversion_timeout_secs: u64,
    /// Progress update interval in milliseconds.
    pub progress_interval_ms: u64,
}

/// Parallel conversions, when not configured.
pub fn default_max_conversions() -> (n: usize)
    ensures
        n == 4,
{
    4
}

/// Parallel placements, when not configured.
pub fn default_max_placements() -> (n: usize)
    ensures
        n == 8,
{
    8
}

/// Conversion timeout, when not configured (1 hour).
pub fn default_conversion_timeout() -> (s: u64)
    ensures
        s == 3600,
{
    3600
}

/// Progress update interval, when not configured (1 second).
pub fn default_progress_interval() -> (ms: u64)
    ensures
        ms == 1000,
{
    1000
}

impl ProcessorConfig {
    /// The default configuration; `temp_root` is the system temporary
    /// directory, in which the directory `quentin-processor` is used.
    pub fn default_in(temp_root: &str) -> (c: Self)
        ensures
            c.max_parallel_conversions == 4,
            c.max_parallel_placements == 8,
            c.temp_dir@ == path_join(temp_root@, "quentin-processor"@),
            !c.cleanup_after_placement,
            c.retry.max_attempts == 3,
            c.retry.initial_delay_secs == 60,
            c.retry.max_delay_secs == 3600,
            c.conversion_timeout_secs == 3600,
            c.progress_interval_ms == 1000,
    {
        ProcessorConfig {
            max_parallel_conversions: default_max_conversions(),
            max_parallel_placements: default_max_placements(),
            temp_dir: join_path(temp_root, "quentin-processor"),
            cleanup_after_placement: false,
            retry: ProcessorRetryLimits::default(),
            conversion_timeout_secs: default_conversion_timeout(),
            progress_interval_ms: default_progress_interval(),
        }
    }

    /// Sets the maximum parallel conversions.
    pub fn with_max_conversions(self, max: usize) -> (c: Self)
        ensures
            c == (ProcessorConfig { max_parallel_conversions: max, ..self }),
    {
        ProcessorConfig { max_parallel_conversions: max, ..self }
    }

    /// Sets the maximum parallel placements.
    pub fn with_max_placements(self, max: usize) -> (c: Self)
        ensures
            c == (ProcessorConfig { max_parallel_placements: max, ..self }),
    {
        ProcessorConfig { max_parallel_placements: max, ..self }
    }

    /// Sets the temporary directory.
    pub fn with_temp_dir(self, dir: String) -> (c: Self)
        ensures
            c == (ProcessorConfig { temp_dir: dir, ..self }),
    {
        ProcessorConfig { temp_dir: dir, ..self }
    }

    /// Sets whether sources are removed after placement.
    pub fn with_cleanup(self, enabled: bool) -> (c: Self)
        ensures
            c == (ProcessorConfig { cleanup_after_placement: enabled, ..self }),
    {
        ProcessorConfig { cleanup_after_placement: enabled, ..self }
    }
}

/// Status of a processing pool.
#[derive(Debug, Clone)]
pub struct PoolStatus {
    /// Pool name ("conversion", "placement").
    pub name: String,
    /// Active jobs.
    pub active_jobs: usize,
    /// Maximum concurrent jobs.
    pub max_concurrent: usize,
    /// Queued jobs.
    pub queued_jobs: usize,
    /// Jobs processed since startup.
    pub total_processed: u64,
    /// Jobs failed since startup.
    pub total_failed: u64,
}

/// Overall pipeline status.
#[derive(Debug, Clone)]
pub struct PipelineStatus {
    /// Whether the pipeline is running.
    pub running: bool,
    /// The conversion pool.
    pub conversion_pool: PoolStatus,
    /// The placement pool.
    pub placement_pool: PoolStatus,
    /// Tickets in the conversion phase.
    pub converting_tickets: Vec<String>,
    /// Tickets in the placement phase.
    pub placing_tickets: Vec<String>,
}

/// Counters of a processing pool, as read at one moment.
#[derive(Debug, Clone, Copy, Default)]
pub struct PoolStats {
    /// Jobs running.
    pub active: u64,
    /// Jobs waiting for a slot.
    pub queued: u64,
    /// Jobs finished.
    pub total_processed: u64,
    /// Jobs failed.
    pub total_failed: u64,
}

impl PoolStats {
    /// The status of the pool called `name` with room for `max_concurrent`
    /// jobs (counts that do not fit in `usize` are truncated, as on a
    /// 32-bit target).
    pub fn to_status(&self, name: &str, max_concurrent: usize) -> (s: PoolStatus)
        ensures
            s.name@ == name@,
            s.active_jobs == self.active as usize,
            s.max_concurrent == max_concurrent,
            s.queued_jobs == self.queued as usize,
            s.total_processed == self.total_processed,
            s.total_failed == self.total_failed,
    {
        PoolStatus {
            name: name.to_owned(),
            active_jobs: self.active as usize,
            max_concurrent,
            queued_jobs: self.queued as usize,
            total_processed: self.total_processed,
            total_failed: self.total_failed,
        }
    }
}

/// Phase of a job in the pipeline.
#[derive(Debug, Clone, Copy, PartialEq, Eq, Structural)]
pub enum JobPhase {
    /// Converting its files.
    Converting,
    /// Placing its files.
    Placing,
}

/// The tickets of the jobs that are in phase `phase`, in order.
pub open spec fn tickets_in_phase(jobs: Seq<(String, JobPhase)>, phase: JobPhase) -> Seq<Seq<char>>
    decreases jobs.len(),
{
    if jobs.len() == 0 {
        Seq::empty()
    } else {
        let rest = tickets_in_phase(jobs.drop_last(), phase);
        if jobs.last().1 == phase {
            rest.push(jobs.last().0@)
        } else {
            rest
        }
    }
}

/// The pipeline status: whether it runs, both pools, and the active jobs
/// split by phase (in the order given).
pub fn pipeline_status(
    running: bool,
    conversion: &PoolStats,
    max_conversions: usize,
    placement: &PoolStats,
    max_placements: usize,
    jobs: &Vec<(String, JobPhase)>,
) -> (s: PipelineStatus)
    ensures
        s.running == running,
        s.conversion_pool.name@ == "conversion"@,
        s.conversion_pool.active_jobs == conversion.active as usize,
        s.conversion_pool.queued_jobs == conversion.queued as usize,
        s.conversion_pool.max_concurrent == max_conversions,
        s.conversion_pool.total_processed == conversion.total_processed,
        s.conversion_pool.total_failed == conversion.total_failed,
        s.placement_pool.name@ == "placement"@,
        s.placement_pool.active_jobs == placement.active as usize,
        s.placement_pool.queued_jobs == placement.queued as usize,
        s.placement_pool.max_concurrent == max_placements,
        s.placement_pool.total_processed == placement.total_processed,
        s.placement_pool.total_failed == placement.total_failed,
        views(s.converting_tickets@) == tickets_in_phase(jobs@, JobPhase::Converting),
        views(s.placing_tickets@) == tickets_in_phase(jobs@, JobPhase::Placing),
{
    let mut converting_tickets: Vec<String> = Vec::new();
    let mut placing_tickets: Vec<String> = Vec::new();
    let mut i: usize = 0;
    while i < jobs.len()
        invariant
            i <= jobs@.len(),
            views(converting_tickets@) == tickets_in_phase(jobs@.take(i as int), JobPhase::Converting),
            views(placing_tickets@) == tickets_in_phase(jobs@.take(i as int), JobPhase::Placing),
        decreases jobs@.len() - i,
    {
        assert(jobs@.take(i as int + 1).drop_last() =~= jobs@.take(i as int));
        let (ticket, phase) = &jobs[i];
        let t = copy_string(ticket);
        match phase {
            JobPhase::Converting => crate::text::push_string(&mut converting_tickets, t),
            JobPhase::Placing => crate::text::push_string(&mut placing_tickets, t),
        }
        i += 1;
    }
    assert(jobs@.take(jobs@.len() as int) =~= jobs@);
    PipelineStatus {
        running,
        conversion_pool: conversion.to_status("conversion", max_conversions),
        placement_pool: placement.to_status("placement", max_placements),
        converting_tickets,
        placing_tickets,
    }
}

/// Every active job is listed exactly once in the status: the tickets in
/// conversion and the tickets in placement together number the jobs.
pub proof fn lemma_status_lists_every_job(jobs: Seq<(String, JobPhase)>)
    ensures
        tickets_in_phase(jobs, JobPhase::Converting).len() + tickets_in_phase(
            jobs,
            JobPhase::Placing,
        ).len() == jobs.len(),
    decreases jobs.len(),
{
    if jobs.len() > 0 {
        lemma_status_lists_every_job(jobs.drop_last());
    }
}

/// A source file of a job.
#[derive(Debug, Clone)]
pub struct SourceFile {
    /// Path of the downloaded file.
    pub path: String,
    /// Item ID from the ticket (track ID, episode ID).
    pub item_id: String,
    /// Destination file name (without directory).
    pub dest_filename: String,
}

/// Metadata to embed during conversion.
#[derive(Debug, Clone, Default)]
pub struct PipelineMetadata {
    /// Title.
    pub title: Option<String>,
    /// Artist.
    pub artist: Option<String>,
    /// Album.
    pub album: Option<String>,
    /// Album artist.
    pub album_artist: Option<String>,
    /// Year.
    pub year: Option<u16>,
    /// Track number.
    pub track_number: Option<u16>,
    /// Total tracks.
    pub track_total: Option<u16>,
    /// Disc number.
    pub disc_number: Option<u16>,
    /// Total discs.
    pub disc_total: Option<u16>,
    /// Genre.
    pub genre: Option<String>,
    /// Comment.
    pub comment: Option<String>,
    /// Cover art path.
    pub cover_art: Option<String>,
}

impl PipelineMetadata {
    /// The metadata embedded in each converted file: every field carried
    /// over (the cover art goes to the converter separately), no extra
    /// fields.
    pub fn to_embedded(&self) -> (m: EmbeddedMetadata)
        ensures
            opt_view(m.title) == opt_view(self.title),
            opt_view(m.artist) == opt_view(self.artist),
            opt_view(m.album) == opt_view(self.album),
            opt_view(m.album_artist) == opt_view(self.album_artist),
            m.year == self.year,
            m.track_number == self.track_number,
            m.track_total == self.track_total,
            m.disc_number == self.disc_number,
            m.disc_total == self.disc_total,
            opt_view(m.genre) == opt_view(self.genre),
            opt_view(m.comment) == opt_view(self.comment),
            m.extra@.len() == 0,
    {
        EmbeddedMetadata {
            title: copy_opt_string(&self.title),
            artist: copy_opt_string(&self.artist),
            album: copy_opt_string(&self.album),
            album_artist: copy_opt_string(&self.album_artist),
            year: self.year,
            track_number: self.track_number,
            track_total: self.track_total,
            disc_number: self.disc_number,
            disc_total: self.disc_total,
            genre: copy_opt_string(&self.genre),
            comment: copy_opt_string(&self.comment),
            extra: Vec::new(),
        }
    }
}

/// Result of processing a ticket through the pipeline.
#[derive(Debug, Clone)]
pub struct PipelineResult {
    /// Ticket ID.
    pub ticket_id: String,
    /// Whether processing succeeded.
    pub success: bool,
    /// Files that were placed.
    pub files_placed: Vec<PlacedFileInfo>,
    /// Conversion duration in milliseconds.
    pub conversion_duration_ms: u64,
    /// Placement duration in milliseconds.
    pub placement_duration_ms: u64,
    /// Total bytes output.
    pub total_bytes: u64,
    /// Error message if failed.
    pub error: Option<String>,
}

/// A placed file.
#[derive(Debug, Clone)]
pub struct PlacedFileInfo {
    /// Item ID.
    pub item_id: String,
    /// Final path.
    pub path: String,
    /// Size in bytes.
    pub size_bytes: u64,
}

/// Pipeline errors.
#[derive(Debug)]
pub enum PipelineError {
    /// A conversion failed.
    ConversionFailed(String),
    /// The placement failed.
    PlacementFailed(String),
    /// The pipeline is not running.
    NotRunning,
    /// A job for the ticket is already running.
    JobExists(String),
    /// No job for the ticket.
    JobNotFound(String),
}

/// The message of a pipeline error.
pub open spec fn pipeline_error_message(e: PipelineError) -> Seq<char> {
    match e {
        PipelineError::ConversionFailed(m) => "Conversion failed: "@ + m@,
        PipelineError::PlacementFailed(m) => "Placement failed: "@ + m@,
        PipelineError::NotRunning => "Pipeline is not running"@,
        PipelineError::JobExists(t) => "Job already exists for ticket: "@ + t@,
        PipelineError::JobNotFound(t) => "Job not found: "@ + t@,
    }
}

/// The phase reported for a failed job.
pub open spec fn failed_phase_name(e: PipelineError) -> Seq<char> {
    match e {
        PipelineError::ConversionFailed(_) => "conversion"@,
        PipelineError::PlacementFailed(_) => "placement"@,
        _ => "unknown"@,
    }
}

impl PipelineError {
    /// The error message.
    pub fn message(&self) -> (m: String)
        ensures
            m@ == pipeline_error_message(*self),
    {
        match self {
            PipelineError::ConversionFailed(m) => concat2("Conversion failed: ", m.as_str()),
            PipelineError::PlacementFailed(m) => concat2("Placement failed: ", m.as_str()),
            PipelineError::NotRunning => "Pipeline is not running".to_owned(),
            PipelineError::JobExists(t) => concat2("Job already exists for ticket: ", t.as_str()),
            PipelineError::JobNotFound(t) => concat2("Job not found: ", t.as_str()),
        }
    }

    /// The phase reported for a failed job.
    pub fn failed_phase(&self) -> (p: String)
        ensures
            p@ == failed_phase_name(*self),
    {
        match self {
            PipelineError::ConversionFailed(_) => "conversion".to_owned(),
            PipelineError::PlacementFailed(_) => "placement".to_owned(),
            _ => "unknown".to_owned(),
        }
    }
}

/// Whether a job may be started: the pipeline must run and no job for the
/// ticket may be active.
pub fn admit_job(running: bool, ticket_id: &String, active_tickets: &Vec<String>) -> (r: Result<(), PipelineError>)
    ensures
        !running ==> r matches Err(PipelineError::NotRunning),
        running && views(active_tickets@).contains(ticket_id@) ==> (r matches Err(
            PipelineError::JobExists(t),
        ) && t@ == ticket_id@),
        running && !views(active_tickets@).contains(ticket_id@) ==> r is Ok,
{
    if !running {
        return Err(PipelineError::NotRunning);
    }
    let mut i: usize = 0;
    while i < active_tickets.len()
        invariant
            running,
            i <= active_tickets@.len(),
            forall|j: int| 0 <= j < i ==> active_tickets@[j]@ != ticket_id@,
        decreases active_tickets@.len() - i,
    {
        if active_tickets[i] == *ticket_id {
            assert(views(active_tickets@)[i as int] == ticket_id@);
            return Err(PipelineError::JobExists(copy_string(ticket_id)));
        }
        i += 1;
    }
    assert(!views(active_tickets@).contains(ticket_id@)) by {
        if views(active_tickets@).contains(ticket_id@) {
            let j = choose|j: int| 0 <= j < views(active_tickets@).len() && views(active_tickets@)[j]
                == ticket_id@;
            assert(active_tickets@[j]@ == ticket_id@);
        }
    }
    Ok(())
}

/// ID of the conversion of one item of a ticket.
pub open spec fn conversion_job_id_of(ticket_id: Seq<char>, item_id: Seq<char>) -> Seq<char> {
    ticket_id + "-"@ + item_id
}

/// ID of the conversion of one item of a ticket: the ticket and the item
/// joined by a hyphen.
pub fn conversion_job_id(ticket_id: &str, item_id: &str) -> (id: String)
    ensures
        id@ == conversion_job_id_of(ticket_id@, item_id@),
{
    concat3(ticket_id, "-", item_id)
}

/// Where the converted file of an item goes: `<temp_dir>/<ticket>/<item>.<ext>`.
pub open spec fn conversion_output_path_of(
    temp_dir: Seq<char>,
    ticket_id: Seq<char>,
    item_id: Seq<char>,
    ext: Seq<char>,
) -> Seq<char> {
    path_join(path_join(temp_dir, ticket_id), item_id + "."@ + ext)
}

/// Where the converted file of an item goes.
pub fn conversion_output_path(temp_dir: &str, ticket_id: &str, item_id: &str, ext: &str) -> (p: String)
    ensures
        p@ == conversion_output_path_of(temp_dir@, ticket_id@, item_id@, ext@),
{
    let dir = join_path(temp_dir, ticket_id);
    let name = concat3(item_id, ".", ext);
    join_path(dir.as_str(), name.as_str())
}

/// `p` places the file at `from` as the item of `s` into `dest_dir`,
/// overwriting, without checksum.
pub open spec fn places_item(p: FilePlacement, s: SourceFile, from: Seq<char>, dest_dir: Seq<char>) -> bool {
    &&& p.item_id@ == s.item_id@
    &&& p.source@ == from
    &&& p.destination@ == path_join(dest_dir, s.dest_filename@)
    &&& p.overwrite
    &&& p.verify_checksum is None
}

/// The placement of one file: the item goes to its destination name in the
/// destination directory, overwriting whatever is there.
pub fn placement_for(source: &SourceFile, from: &str, dest_dir: &str) -> (p: FilePlacement)
    ensures
        places_item(p, *source, from@, dest_dir@),
{
    FilePlacement {
        item_id: copy_string(&source.item_id),
        source: from.to_owned(),
        destination: join_path(dest_dir, source.dest_filename.as_str()),
        overwrite: true,
        verify_checksum: None,
    }
}

/// The placement job of a ticket: `files[i]` is the file placed for
/// `sources[i]`; it moves atomically where it can, rolls back on failure,
/// and removes its sources afterwards exactly when they are the temporary
/// files of a conversion.
pub fn placement_job(
    ticket_id: &str,
    sources: &Vec<SourceFile>,
    files: &Vec<String>,
    dest_dir: &str,
    converted: bool,
) -> (j: PlacementJob)
    requires
        files@.len() == sources@.len(),
    ensures
        j.job_id@ == ticket_id@,
        j.files@.len() == sources@.len(),
        forall|i: int|
            0 <= i < sources@.len() ==> places_item(
                #[trigger] j.files@[i],
                sources@[i],
                files@[i]@,
                dest_dir@,
            ),
        j.atomic,
        j.cleanup_sources == converted,
        j.enable_rollback,
{
    let mut placements: Vec<FilePlacement> = Vec::new();
    let mut i: usize = 0;
    while i < sources.len()
        invariant
            files@.len() == sources@.len(),
            i <= sources@.len(),
            placements@.len() == i,
            forall|k: int|
                0 <= k < i ==> places_item(
                    #[trigger] placements@[k],
                    sources@[k],
                    files@[k]@,
                    dest_dir@,
                ),
        decreases sources@.len() - i,
    {
        let p = placement_for(&sources[i], files[i].as_str(), dest_dir);
        placements.push(p);
        i += 1;
    }
    PlacementJob {
        job_id: ticket_id.to_owned(),
        files: placements,
        atomic: true,
        cleanup_sources: converted,
        enable_rollback: true,
    }
}

/// What the pipeline reports of a placed file.
pub open spec fn reports_placed(i: PlacedFileInfo, f: PlacedFile) -> bool {
    &&& i.item_id@ == f.item_id@
    &&& i.path@ == f.destination@
    &&& i.size_bytes == f.size_bytes
}

/// The successful result of a ticket: the placed files in order, with the
/// durations and the byte total of the placement.
pub fn completed_result(
    ticket_id: &str,
    placed: &Vec<PlacedFile>,
    conversion_duration_ms: u64,
    placement_duration_ms: u64,
    total_bytes: u64,
) -> (r: PipelineResult)
    ensures
        r.ticket_id@ == ticket_id@,
        r.success,
        r.files_placed@.len() == placed@.len(),
        forall|i: int|
            0 <= i < placed@.len() ==> reports_placed(#[trigger] r.files_placed@[i], placed@[i]),
        r.conversion_duration_ms == conversion_duration_ms,
        r.placement_duration_ms == placement_duration_ms,
        r.total_bytes == total_bytes,
        r.error is None,
{
    let mut files_placed: Vec<PlacedFileInfo> = Vec::new();
    let mut i: usize = 0;
    while i < placed.len()
        invariant
            i <= placed@.len(),
            files_placed@.len() == i,
            forall|k: int|
                0 <= k < i ==> reports_placed(#[trigger] files_placed@[k], placed@[k]),
        decreases placed@.len() - i,
    {
        let f = &placed[i];
        files_placed.push(
            PlacedFileInfo {
                item_id: copy_string(&f.item_id),
                path: copy_string(&f.destination),
                size_bytes: f.size_bytes,
            },
        );
        i += 1;
    }
    PipelineResult {
        ticket_id: ticket_id.to_owned(),
        success: true,
        files_placed,
        conversion_duration_ms,
        placement_duration_ms,
        total_bytes,
        error: None,
    }
}


// ---------------------------------------------------------------------------
// The run of a job: state, events and actions
// ---------------------------------------------------------------------------

/// Where a job's run stands.
#[derive(Debug, Clone, Copy, PartialEq, Eq, Structural)]
pub enum RunPhase {
    /// Not started.
    Idle,
    /// Converting files, one after the other.
    Converting,
    /// Placing the files.
    Placing,
    /// Done, every file placed.
    Completed,
    /// Stopped by a failure.
    Failed,
}

/// The state of a job's run.
#[derive(Debug, Clone, Copy, PartialEq, Eq, Structural)]
pub struct PipelineRun {
    /// Where the run stands.
    pub phase: RunPhase,
    /// Number of files of the job.
    pub total_files: usize,
    /// Whether the job converts its files (else they are placed as they are).
    pub needs_conversion: bool,
    /// Files converted so far.
    pub converted: usize,
    /// Bytes of the converted files so far.
    pub output_bytes: u64,
}

/// What happened, as the caller reports it.
#[derive(Debug, Clone)]
pub enum PipelineEvent {
    /// The job was admitted and starts.
    Started,
    /// The file being converted was converted into `output_size_bytes` bytes.
    FileConverted { output_size_bytes: u64 },
    /// The file being converted failed, with this error message.
    ConversionFailed { error: String, retryable: bool },
    /// The placement succeeded.
    Placed { files_placed: usize, total_bytes: u64 },
    /// The placement failed, with this error message.
    PlacementFailed { error: String, retryable: bool },
}

/// A new state of the ticket, for its store.
#[derive(Debug, Clone)]
pub enum TicketUpdate {
    /// Converting file `current_idx` of `total` (`starting`: before the
    /// first file, shown as "Starting...").
    Converting { current_idx: usize, total: usize, starting: bool },
    /// Placing `total_files` files.
    Placing { files_placed: usize, total_files: usize },
    /// Completed.
    Completed { files_placed: usize, final_size_bytes: u64 },
    /// Failed.
    Failed { error: String, retryable: bool },
}

/// A change of the ticket's state, for the audit log.
#[derive(Debug, Clone)]
pub struct StateChange {
    /// The state left.
    pub from_state: String,
    /// The state entered.
    pub to_state: String,
    /// Why.
    pub reason: String,
}

/// What the caller does next.
#[derive(Debug, Clone, Copy, PartialEq, Eq, Structural)]
pub enum NextStep {
    /// Convert the file with this index.
    ConvertFile(usize),
    /// Place the files.
    PlaceFiles,
    /// The run is over.
    Finish,
    /// The event does not apply to the run's phase; nothing to do.
    Ignore,
}

/// What the caller performs after an event.
#[derive(Debug, Clone)]
pub struct PipelineAction {
    /// Ticket states to record, in order.
    pub updates: Vec<TicketUpdate>,
    /// State changes to log, in order.
    pub changes: Vec<StateChange>,
    /// What to do next.
    pub next: NextStep,
}

impl PipelineRun {
    /// A run's counts are consistent: nothing converted before the start,
    /// never more converted than there are files, a file left to convert
    /// while converting, and every file converted once a converting job is
    /// placing or completed.
    pub open spec fn wf(self) -> bool {
        &&& self.converted <= self.total_files
        &&& self.phase == RunPhase::Idle ==> self.converted == 0
        &&& self.phase == RunPhase::Converting ==> self.converted < self.total_files
        &&& (self.phase == RunPhase::Placing || self.phase == RunPhase::Completed)
            && self.needs_conversion ==> self.converted == self.total_files
    }
}

/// A fresh run of a job with `total_files` files.
pub fn new_run(total_files: usize, needs_conversion: bool) -> (r: PipelineRun)
    ensures
        r.wf(),
        r == (PipelineRun { phase: RunPhase::Idle, total_files, needs_conversion, converted: 0, output_bytes: 0 }),
{
    PipelineRun { phase: RunPhase::Idle, total_files, needs_conversion, converted: 0, output_bytes: 0 }
}

/// `c` is the state change from `from` to `to` for `reason`.
pub open spec fn is_change(c: StateChange, from: Seq<char>, to: Seq<char>, reason: Seq<char>) -> bool {
    c.from_state@ == from && c.to_state@ == to && c.reason@ == reason
}

/// The update and change that enter placement of `n` files.
pub open spec fn enters_placing(u: TicketUpdate, c: StateChange, n: usize) -> bool {
    &&& u == (TicketUpdate::Placing { files_placed: 0, total_files: n })
    &&& is_change(c, "converting"@, "placing"@, "Placing "@ + decimal(n as nat) + " files"@)
}

/// The update and change of a failure with message `msg`, left from `from`.
pub open spec fn enters_failed(
    u: TicketUpdate,
    c: StateChange,
    from: Seq<char>,
    msg: Seq<char>,
    retryable: bool,
) -> bool {
    &&& u matches TicketUpdate::Failed { error, retryable: r } && error@ == msg && r == retryable
    &&& is_change(c, from, "failed"@, msg)
}

/// One step of a run: the new state and the action for an event.
/// - Start: the ticket is converting ("Starting...", logged as leaving
///   "downloading"); a converting job with files converts its first file,
///   any other job goes straight to placement.
/// - A converted file: counted with its bytes; the next file is converted,
///   or, after the last one, placement begins.
/// - A failed conversion or placement: the ticket fails with the error
///   ("Conversion failed: ..." or "Placement failed: ...") and the run ends.
/// - A successful placement: the ticket is completed with the placed count
///   and bytes, and the run ends.
/// - Any event the phase does not expect changes nothing.
pub open spec fn pipeline_step_spec(run: PipelineRun, event: PipelineEvent, r: (PipelineRun, PipelineAction)) -> bool {
    let (s, a) = r;
    let n = run.total_files;
    match (run.phase, event) {
        (RunPhase::Idle, PipelineEvent::Started) => {
            &&& a.updates@.len() >= 1
            &&& a.changes@.len() >= 1
            &&& a.updates@[0] == (TicketUpdate::Converting { current_idx: 0, total: n, starting: true })
            &&& is_change(a.changes@[0], "downloading"@, "converting"@,
                "Starting conversion of "@ + decimal(n as nat) + " files"@)
            &&& if run.needs_conversion && n > 0 {
                &&& s == PipelineRun { phase: RunPhase::Converting, ..run }
                &&& a.updates@.len() == 2 && a.changes@.len() == 1
                &&& a.updates@[1] == (TicketUpdate::Converting { current_idx: 0, total: n, starting: false })
                &&& a.next == NextStep::ConvertFile(0)
            } else {
                &&& s == PipelineRun { phase: RunPhase::Placing, ..run }
                &&& a.updates@.len() == 2 && a.changes@.len() == 2
                &&& enters_placing(a.updates@[1], a.changes@[1], n)
                &&& a.next == NextStep::PlaceFiles
            }
        },
        (RunPhase::Converting, PipelineEvent::FileConverted { output_size_bytes }) => {
            let done = run.converted + 1;
            let bytes = run.output_bytes + output_size_bytes;
            if done < n {
                &&& s == PipelineRun { converted: done as usize, output_bytes: bytes as u64, ..run }
                &&& a.updates@.len() == 1 && a.changes@.len() == 0
                &&& a.updates@[0] == (TicketUpdate::Converting { current_idx: done as usize, total: n, starting: false })
                &&& a.next == NextStep::ConvertFile(done as usize)
            } else {
                &&& s == PipelineRun { phase: RunPhase::Placing, converted: done as usize, output_bytes: bytes as u64, ..run }
                &&& a.updates@.len() == 1 && a.changes@.len() == 1
                &&& enters_placing(a.updates@[0], a.changes@[0], n)
                &&& a.next == NextStep::PlaceFiles
            }
        },
        (RunPhase::Converting, PipelineEvent::ConversionFailed { error, retryable }) => {
            &&& s == PipelineRun { phase: RunPhase::Failed, ..run }
            &&& a.updates@.len() == 1 && a.changes@.len() == 1
            &&& enters_failed(a.updates@[0], a.changes@[0], "converting"@, "Conversion failed: "@ + error@, retryable)
            &&& a.next == NextStep::Finish
        },
        (RunPhase::Placing, PipelineEvent::Placed { files_placed, total_bytes }) => {
            &&& s == PipelineRun { phase: RunPhase::Completed, ..run }
            &&& a.updates@.len() == 1 && a.changes@.len() == 1
            &&& a.updates@[0] == (TicketUpdate::Completed { files_placed, final_size_bytes: total_bytes })
            &&& is_change(a.changes@[0], "placing"@, "completed"@,
                "Successfully placed "@ + decimal(files_placed as nat) + " files"@)
            &&& a.next == NextStep::Finish
        },
        (RunPhase::Placing, PipelineEvent::PlacementFailed { error, retryable }) => {
            &&& s == PipelineRun { phase: RunPhase::Failed, ..run }
            &&& a.updates@.len() == 1 && a.changes@.len() == 1
            &&& enters_failed(a.updates@[0], a.changes@[0], "placing"@, "Placement failed: "@ + error@, retryable)
            &&& a.next == NextStep::Finish
        },
        _ => {
            &&& s == run
            &&& a.updates@.len() == 0 && a.changes@.len() == 0
            &&& a.next == NextStep::Ignore
        },
    }
}

/// A converting job is placed only once every one of its files has been
/// converted, and a run that has ended (completed or failed) stays as it is.
pub proof fn lemma_placement_follows_every_conversion(
    run: PipelineRun,
    event: PipelineEvent,
    r: (PipelineRun, PipelineAction),
)
    requires
        run.wf(),
        pipeline_step_spec(run, event, r),
    ensures
        run.needs_conversion && r.0.phase == RunPhase::Placing ==> r.0.converted == run.total_files,
        (run.phase == RunPhase::Completed || run.phase == RunPhase::Failed) ==> r.0 == run
            && r.1.next == NextStep::Ignore,
{
}

fn change(from: &str, to: &str, reason: String) -> (c: StateChange)
    ensures
        is_change(c, from@, to@, reason@),
{
    StateChange { from_state: from.to_owned(), to_state: to.to_owned(), reason }
}

fn placing_reason(n: usize) -> (r: String)
    ensures
        r@ == "Placing "@ + decimal(n as nat) + " files"@,
{
    let d = decimal_string(n as u64);
    concat3("Placing ", d.as_str(), " files")
}

/// Advances a run by one event (see [`pipeline_step_spec`]).  A converted
/// file's bytes must not overflow the running total.
pub fn pipeline_step(run: &PipelineRun, event: PipelineEvent) -> (r: (PipelineRun, PipelineAction))
    requires
        run.wf(),
        event matches PipelineEvent::FileConverted { output_size_bytes } ==> run.output_bytes
            + output_size_bytes <= u64::MAX,
    ensures
        pipeline_step_spec(*run, event, r),
        r.0.wf(),
{
    let n = run.total_files;
    let mut updates: Vec<TicketUpdate> = Vec::new();
    let mut changes: Vec<StateChange> = Vec::new();
    match (run.phase, event) {
        (RunPhase::Idle, PipelineEvent::Started) => {
            updates.push(TicketUpdate::Converting { current_idx: 0, total: n, starting: true });
            let d = decimal_string(n as u64);
            changes.push(change("downloading", "converting", concat3("Starting conversion of ", d.as_str(), " files")));
            if run.needs_conversion && n > 0 {
                updates.push(TicketUpdate::Converting { current_idx: 0, total: n, starting: false });
                (PipelineRun { phase: RunPhase::Converting, ..*run }, PipelineAction { updates, changes, next: NextStep::ConvertFile(0) })
            } else {
                updates.push(TicketUpdate::Placing { files_placed: 0, total_files: n });
                changes.push(change("converting", "placing", placing_reason(n)));
                (PipelineRun { phase: RunPhase::Placing, ..*run }, PipelineAction { updates, changes, next: NextStep::PlaceFiles })
            }
        },
        (RunPhase::Converting, PipelineEvent::FileConverted { output_size_bytes }) => {
            let bytes = run.output_bytes + output_size_bytes;
            let done = run.converted + 1;
            if done < n {
                updates.push(TicketUpdate::Converting { current_idx: done, total: n, starting: false });
                (PipelineRun { converted: done, output_bytes: bytes, ..*run }, PipelineAction { updates, changes, next: NextStep::ConvertFile(done) })
            } else {
                updates.push(TicketUpdate::Placing { files_placed: 0, total_files: n });
                changes.push(change("converting", "placing", placing_reason(n)));
                (PipelineRun { phase: RunPhase::Placing, converted: done, output_bytes: bytes, ..*run }, PipelineAction { updates, changes, next: NextStep::PlaceFiles })
            }
        },
        (RunPhase::Converting, PipelineEvent::ConversionFailed { error, retryable }) => {
            let msg = concat2("Conversion failed: ", error.as_str());
            updates.push(TicketUpdate::Failed { error: copy_string(&msg), retryable });
            changes.push(change("converting", "failed", msg));
            (PipelineRun { phase: RunPhase::Failed, ..*run }, PipelineAction { updates, changes, next: NextStep::Finish })
        },
        (RunPhase::Placing, PipelineEvent::Placed { files_placed, total_bytes }) => {
            updates.push(TicketUpdate::Completed { files_placed, final_size_bytes: total_bytes });
            let d = decimal_string(files_placed as u64);
            changes.push(change("placing", "completed", concat3("Successfully placed ", d.as_str(), " files")));
            (PipelineRun { phase: RunPhase::Completed, ..*run }, PipelineAction { updates, changes, next: NextStep::Finish })
        },
        (RunPhase::Placing, PipelineEvent::PlacementFailed { error, retryable }) => {
            let msg = concat2("Placement failed: ", error.as_str());
            updates.push(TicketUpdate::Failed { error: copy_string(&msg), retryable });
            changes.push(change("placing", "failed", msg));
            (PipelineRun { phase: RunPhase::Failed, ..*run }, PipelineAction { updates, changes, next: NextStep::Finish })
        },
        _ => (*run, PipelineAction { updates, changes, next: NextStep::Ignore }),
    }
}

} // verus!
