//! File placement: configuration, jobs, errors and the rollback plan that
//! records what a placement changed so that a failed job can be undone.
//! Paths are kept as text; the file-system work is done by the caller.

use sha2::Digest;
use vstd::prelude::*;

use crate::text::{
    concat2, concat3, concat4, copy_string, decimal, decimal_string, joined, opt_view, push_string,
    views,
};

verus! {

/// Configuration for the file-system placer.
#[derive(Debug, Clone)]
pub struct PlacerConfig {
    /// Buffer size for file copies in bytes.
    pub buffer_size: usize,
    /// Whether to use atomic moves when possible.
    pub prefer_atomic_moves: bool,
    /// Whether to verify checksums after copying.
    pub verify_checksums: bool,
    /// Whether to clean up source files after placement.
    pub cleanup_sources: bool,
    /// Whether to create intermediate directories.
    pub create_parents: bool,
    /// Maximum parallel file operations.
    pub max_parallel_operations: usize,
    /// Permissions for created directories (Unix, octal).
    pub directory_mode: u32,
    /// Backup directory for replaced files.
    pub backup_dir: Option<String>,
}

impl Default for PlacerConfig {
    /// 8 MiB buffers, atomic moves, no checksums, no cleanup, parents created,
    /// four parallel operations, mode 0o755, no backup directory.
    fn default() -> (c: Self)
        ensures
            c.buffer_size == 8 * 1024 * 1024,
            c.prefer_atomic_moves,
            !c.verify_checksums,
            !c.cleanup_sources,
            c.create_parents,
            c.max_parallel_operations == 4,
            c.directory_mode == 0o755,
            c.backup_dir is None,
    {
        PlacerConfig {
            buffer_size: 8 * 1024 * 1024,
            prefer_atomic_moves: true,
            verify_checksums: false,
            cleanup_sources: false,
            create_parents: true,
            max_parallel_operations: 4,
            directory_mode: 0o755,
            backup_dir: None,
        }
    }
}

impl PlacerConfig {
    /// Enables or disables atomic moves.
    pub fn with_atomic_moves(self, enabled: bool) -> (c: Self)
        ensures
            c == (PlacerConfig { prefer_atomic_moves: enabled, ..self }),
    {
        PlacerConfig { prefer_atomic_moves: enabled, ..self }
    }

    /// Enables or disables checksum verification.
    pub fn with_checksum_verification(self, enabled: bool) -> (c: Self)
        ensures
            c == (PlacerConfig { verify_checksums: enabled, ..self }),
    {
        PlacerConfig { verify_checksums: enabled, ..self }
    }

    /// Enables or disables source cleanup.
    pub fn with_cleanup(self, enabled: bool) -> (c: Self)
        ensures
            c == (PlacerConfig { cleanup_sources: enabled, ..self }),
    {
        PlacerConfig { cleanup_sources: enabled, ..self }
    }

    /// Sets the buffer size for copies.
    pub fn with_buffer_size(self, size: usize) -> (c: Self)
        ensures
            c == (PlacerConfig { buffer_size: size, ..self }),
    {
        PlacerConfig { buffer_size: size, ..self }
    }

    /// Sets the backup directory.
    pub fn with_backup_dir(self, path: String) -> (c: Self)
        ensures
            c == (PlacerConfig { backup_dir: Some(path), ..self }),
    {
        PlacerConfig { backup_dir: Some(path), ..self }
    }
}

/// Errors that can occur during file placement.
#[derive(Debug)]
pub enum PlacerError {
    /// Source file not found.
    SourceNotFound { path: String },
    /// Destination already exists and overwrite is disabled.
    DestinationExists { path: String },
    /// Failed to create a destination directory.
    DirectoryCreationFailed { path: String, source: std::io::Error },
    /// Failed to copy a file.
    CopyFailed { source: String, destination: String, error: std::io::Error },
    /// Failed to move/rename a file.
    MoveFailed { source: String, destination: String, error: std::io::Error },
    /// Checksum verification failed.
    ChecksumMismatch { path: String, expected: String, actual: String },
    /// Failed to calculate a checksum.
    ChecksumCalculationFailed { path: String, source: std::io::Error },
    /// Failed to delete a source file during cleanup.
    CleanupFailed { path: String, source: std::io::Error },
    /// Placement failed partially and rollback is needed.
    PartialFailure { files_placed: usize, reason: String },
    /// Rollback failed.
    RollbackFailed { reason: String },
    /// Insufficient disk space.
    InsufficientSpace { path: String, required_bytes: u64, available_bytes: u64 },
    /// Permission denied.
    PermissionDenied { path: String },
    /// I/O error.
    Io(std::io::Error),
    /// Operation was cancelled.
    Cancelled,
}

impl PlacerError {
    /// Creates a copy failed error.
    pub fn copy_failed(source: String, destination: String, error: std::io::Error) -> (e: Self)
        ensures
            e == (PlacerError::CopyFailed { source, destination, error }),
    {
        PlacerError::CopyFailed { source, destination, error }
    }

    /// Creates a move failed error.
    pub fn move_failed(source: String, destination: String, error: std::io::Error) -> (e: Self)
        ensures
            e == (PlacerError::MoveFailed { source, destination, error }),
    {
        PlacerError::MoveFailed { source, destination, error }
    }

    /// Whether this error is retryable: I/O, copy and move failures are.
    pub fn is_retryable(&self) -> (b: bool)
        ensures
            b == (self is Io || self is CopyFailed || self is MoveFailed),
    {
        match self {
            PlacerError::Io(_) | PlacerError::CopyFailed { .. } | PlacerError::MoveFailed {
                ..
            } => true,
            _ => false,
        }
    }

    /// Whether this error requires rollback: only a partial failure does.
    pub fn requires_rollback(&self) -> (b: bool)
        ensures
            b == (self is PartialFailure),
    {
        match self {
            PlacerError::PartialFailure { .. } => true,
            _ => false,
        }
    }
}

/// The message of a placer error; the I/O variant's message comes from the
/// operating system and is not composed here.
pub open spec fn placer_error_message(e: PlacerError) -> Option<Seq<char>> {
    match e {
        PlacerError::SourceNotFound { path } => Some("Source file not found: "@ + path@),
        PlacerError::DestinationExists { path } => Some("Destination already exists: "@ + path@),
        PlacerError::DirectoryCreationFailed { path, .. } => Some(
            "Failed to create directory: "@ + path@,
        ),
        PlacerError::CopyFailed { source, destination, .. } => Some(
            "Failed to copy file from "@ + source@ + " to "@ + destination@,
        ),
        PlacerError::MoveFailed { source, destination, .. } => Some(
            "Failed to move file from "@ + source@ + " to "@ + destination@,
        ),
        PlacerError::ChecksumMismatch { path, expected, actual } => Some(
            "Checksum mismatch for "@ + path@ + ": expected "@ + expected@ + ", got "@ + actual@,
        ),
        PlacerError::ChecksumCalculationFailed { path, .. } => Some(
            "Failed to calculate checksum for "@ + path@,
        ),
        PlacerError::CleanupFailed { path, .. } => Some("Failed to cleanup source file: "@ + path@),
        PlacerError::PartialFailure { files_placed, reason } => Some(
            "Placement failed after "@ + decimal(files_placed as nat) + " files, rollback required: "@
                + reason@,
        ),
        PlacerError::RollbackFailed { reason } => Some("Rollback failed: "@ + reason@),
        PlacerError::InsufficientSpace { path, required_bytes, available_bytes } => Some(
            "Insufficient disk space at "@ + path@ + ": need "@ + decimal(required_bytes as nat)
                + " bytes, have "@ + decimal(available_bytes as nat),
        ),
        PlacerError::PermissionDenied { path } => Some("Permission denied: "@ + path@),
        PlacerError::Io(_) => None,
        PlacerError::Cancelled => Some("Placement cancelled"@),
    }
}

impl PlacerError {
    /// The error message, for the variants whose message is made of their
    /// own fields.
    pub fn message(&self) -> (m: Option<String>)
        ensures
            opt_view(m) == placer_error_message(*self),
    {
        match self {
            PlacerError::SourceNotFound { path } => Some(concat2("Source file not found: ", path.as_str())),
            PlacerError::DestinationExists { path } => Some(
                concat2("Destination already exists: ", path.as_str()),
            ),
            PlacerError::DirectoryCreationFailed { path, .. } => Some(
                concat2("Failed to create directory: ", path.as_str()),
            ),
            PlacerError::CopyFailed { source, destination, .. } => Some(
                concat4("Failed to copy file from ", source.as_str(), " to ", destination.as_str()),
            ),
            PlacerError::MoveFailed { source, destination, .. } => Some(
                concat4("Failed to move file from ", source.as_str(), " to ", destination.as_str()),
            ),
            PlacerError::ChecksumMismatch { path, expected, actual } => {
                let mut m = concat4(
                    "Checksum mismatch for ",
                    path.as_str(),
                    ": expected ",
                    expected.as_str(),
                );
                m = concat3(m.as_str(), ", got ", actual.as_str());
                Some(m)
            },
            PlacerError::ChecksumCalculationFailed { path, .. } => Some(
                concat2("Failed to calculate checksum for ", path.as_str()),
            ),
            PlacerError::CleanupFailed { path, .. } => Some(
                concat2("Failed to cleanup source file: ", path.as_str()),
            ),
            PlacerError::PartialFailure { files_placed, reason } => {
                let n = decimal_string(*files_placed as u64);
                Some(
                    concat4(
                        "Placement failed after ",
                        n.as_str(),
                        " files, rollback required: ",
                        reason.as_str(),
                    ),
                )
            },
            PlacerError::RollbackFailed { reason } => Some(concat2("Rollback failed: ", reason.as_str())),
            PlacerError::InsufficientSpace { path, required_bytes, available_bytes } => {
                let r = decimal_string(*required_bytes);
                let a = decimal_string(*available_bytes);
                let m = concat4("Insufficient disk space at ", path.as_str(), ": need ", r.as_str());
                Some(concat3(m.as_str(), " bytes, have ", a.as_str()))
            },
            PlacerError::PermissionDenied { path } => Some(concat2("Permission denied: ", path.as_str())),
            PlacerError::Io(_) => None,
            PlacerError::Cancelled => Some("Placement cancelled".to_owned()),
        }
    }
}

/// Type of checksum to verify.
#[derive(Debug, Clone, Copy, PartialEq, Eq, Structural)]
pub enum ChecksumType {
    /// SHA-256 checksum.
    Sha256,
    /// MD5 checksum.
    Md5,
}

/// A single file placement request.
#[derive(Debug, Clone)]
pub struct FilePlacement {
    /// Item ID (for tracking).
    pub item_id: String,
    /// Source file path.
    pub source: String,
    /// Destination file path.
    pub destination: String,
    /// Whether to overwrite an existing destination.
    pub overwrite: bool,
    /// Checksum to verify after the copy, if any.
    pub verify_checksum: Option<ChecksumType>,
}

/// A file placement job.
#[derive(Debug, Clone)]
pub struct PlacementJob {
    /// Unique job ID (usually the ticket ID).
    pub job_id: String,
    /// Files to place.
    pub files: Vec<FilePlacement>,
    /// Whether to use atomic moves when possible.
    pub atomic: bool,
    /// Whether to clean up source files after success.
    pub cleanup_sources: bool,
    /// Whether to roll back on failure.
    pub enable_rollback: bool,
}

/// Information about a placed file.
#[derive(Debug, Clone)]
pub struct PlacedFile {
    /// Item ID.
    pub item_id: String,
    /// Final destination path.
    pub destination: String,
    /// File size in bytes.
    pub size_bytes: u64,
    /// Checksum if verified.
    pub checksum: Option<String>,
}

/// Result of a successful placement job.
#[derive(Debug, Clone)]
pub struct PlacementResult {
    /// Job ID.
    pub job_id: String,
    /// Files placed.
    pub files_placed: Vec<PlacedFile>,
    /// Total bytes placed.
    pub total_bytes: u64,
    /// Duration in milliseconds.
    pub duration_ms: u64,
}

/// The total size of placed files.
pub open spec fn placed_bytes(files: Seq<PlacedFile>) -> int
    decreases files.len(),
{
    if files.len() == 0 {
        0
    } else {
        placed_bytes(files.drop_last()) + files.last().size_bytes
    }
}

/// A prefix of the placed files never weighs more than all of them.
proof fn lemma_placed_bytes_prefix(files: Seq<PlacedFile>, i: int)
    requires
        0 <= i <= files.len(),
    ensures
        placed_bytes(files.take(i)) <= placed_bytes(files),
    decreases files.len() - i,
{
    if i < files.len() {
        lemma_placed_bytes_prefix(files, i + 1);
        assert(files.take(i + 1).drop_last() =~= files.take(i));
    } else {
        assert(files.take(i) =~= files);
    }
}

impl PlacementResult {
    /// The result of a job whose files were all placed: the files, in
    /// order, and the sum of their sizes.
    pub fn from_placed(job_id: String, files_placed: Vec<PlacedFile>, duration_ms: u64) -> (r: Self)
        requires
            placed_bytes(files_placed@) <= u64::MAX,
        ensures
            r.job_id == job_id,
            r.files_placed == files_placed,
            r.total_bytes == placed_bytes(files_placed@),
            r.duration_ms == duration_ms,
    {
        let mut total: u64 = 0;
        let mut i: usize = 0;
        while i < files_placed.len()
            invariant
                i <= files_placed@.len(),
                placed_bytes(files_placed@) <= u64::MAX,
                total == placed_bytes(files_placed@.take(i as int)),
            decreases files_placed@.len() - i,
        {
            proof {
                lemma_placed_bytes_prefix(files_placed@, i as int + 1);
                assert(files_placed@.take(i as int + 1).drop_last() =~= files_placed@.take(i as int));
            }
            total = total + files_placed[i].size_bytes;
            i += 1;
        }
        assert(files_placed@.take(files_placed@.len() as int) =~= files_placed@);
        PlacementResult { job_id, files_placed, total_bytes: total, duration_ms }
    }
}

/// Progress update during placement.
#[derive(Debug, Clone)]
pub struct PlacementProgress {
    /// Job ID.
    pub job_id: String,
    /// Files placed so far.
    pub files_placed: usize,
    /// Total files to place.
    pub total_files: usize,
    /// Current file being placed.
    pub current_file: String,
    /// Bytes copied so far.
    pub bytes_copied: u64,
    /// Total bytes to copy.
    pub total_bytes: u64,
}

/// A file that was placed and may need rollback.
#[derive(Debug, Clone)]
pub struct RollbackFile {
    /// Destination where the file was placed.
    pub destination: String,
    /// Original source, if still available.
    pub source: Option<String>,
    /// File size for verification.
    pub size_bytes: u64,
}

/// What a placement changed, for recovering from partial failures.
#[derive(Debug, Clone)]
pub struct RollbackPlan {
    /// Job ID.
    pub job_id: String,
    /// Files placed, in placement order.
    pub placed_files: Vec<RollbackFile>,
    /// Directories created, in creation order.
    pub created_directories: Vec<String>,
}

impl RollbackPlan {
    /// Creates an empty rollback plan.
    pub fn new(job_id: String) -> (p: Self)
        ensures
            p.job_id == job_id,
            p.placed_files@.len() == 0,
            p.created_directories@.len() == 0,
    {
        RollbackPlan { job_id, placed_files: Vec::new(), created_directories: Vec::new() }
    }

    /// Records a placed file.
    pub fn record_placement(&mut self, destination: String, source: Option<String>, size_bytes: u64)
        ensures
            final(self).job_id == old(self).job_id,
            final(self).created_directories == old(self).created_directories,
            final(self).placed_files@ == old(self).placed_files@.push(
                RollbackFile { destination, source, size_bytes },
            ),
    {
        self.placed_files.push(RollbackFile { destination, source, size_bytes });
    }

    /// Records a created directory.
    pub fn record_directory(&mut self, path: String)
        ensures
            final(self).job_id == old(self).job_id,
            final(self).placed_files == old(self).placed_files,
            final(self).created_directories@ == old(self).created_directories@.push(path),
    {
        self.created_directories.push(path);
    }

    /// Whether there is anything to roll back.
    pub fn has_changes(&self) -> (b: bool)
        ensures
            b == (self.placed_files@.len() > 0 || self.created_directories@.len() > 0),
    {
        self.placed_files.len() > 0 || self.created_directories.len() > 0
    }
}

/// The directories of `dirs[k..]` taken from the last back to `dirs[k]`,
/// each kept at its first appearance in that order.
pub open spec fn distinct_from_end(dirs: Seq<Seq<char>>, k: int) -> Seq<Seq<char>>
    decreases dirs.len() - k,
{
    if k < 0 || k >= dirs.len() {
        Seq::empty()
    } else {
        let rest = distinct_from_end(dirs, k + 1);
        if rest.contains(dirs[k]) {
            rest
        } else {
            rest.push(dirs[k])
        }
    }
}

/// A rollback attempts each recorded directory exactly once: the order it
/// uses holds no path twice and holds exactly the recorded paths.
pub proof fn lemma_rollback_directories_once(dirs: Seq<Seq<char>>, k: int)
    requires
        0 <= k <= dirs.len(),
    ensures
        forall|i: int, j: int|
            0 <= i < j < distinct_from_end(dirs, k).len() ==> distinct_from_end(dirs, k)[i]
                != distinct_from_end(dirs, k)[j],
        forall|d: Seq<char>|
            distinct_from_end(dirs, k).contains(d) <==> dirs.subrange(k, dirs.len() as int).contains(d),
    decreases dirs.len() - k,
{
    if k < dirs.len() {
        lemma_rollback_directories_once(dirs, k + 1);
        let rest = distinct_from_end(dirs, k + 1);
        let tail = dirs.subrange(k + 1, dirs.len() as int);
        assert(dirs.subrange(k, dirs.len() as int) =~= seq![dirs[k]] + tail);
        assert forall|d: Seq<char>|
            distinct_from_end(dirs, k).contains(d) <==> dirs.subrange(k, dirs.len() as int).contains(
                d,
            ) by {
            if d == dirs[k] {
                assert(dirs.subrange(k, dirs.len() as int)[0] == d);
                if !rest.contains(d) {
                    assert(rest.push(d)[rest.len() as int] == d);
                }
            } else {
                if dirs.subrange(k, dirs.len() as int).contains(d) {
                    let i = choose|i: int|
                        0 <= i < dirs.subrange(k, dirs.len() as int).len() && dirs.subrange(
                            k,
                            dirs.len() as int,
                        )[i] == d;
                    assert(tail[i - 1] == d);
                    assert(tail.contains(d));
                }
                if tail.contains(d) {
                    let i = choose|i: int| 0 <= i < tail.len() && tail[i] == d;
                    assert(dirs.subrange(k, dirs.len() as int)[i + 1] == d);
                }
                if distinct_from_end(dirs, k).contains(d) && !rest.contains(d) {
                    let i = choose|i: int|
                        0 <= i < distinct_from_end(dirs, k).len() && distinct_from_end(dirs, k)[i]
                            == d;
                    assert(i < rest.len());
                    assert(rest[i] == d);
                }
                if rest.contains(d) && !rest.contains(dirs[k]) {
                    let i = choose|i: int| 0 <= i < rest.len() && rest[i] == d;
                    assert(rest.push(dirs[k])[i] == d);
                }
            }
        }
    } else {
        assert(dirs.subrange(k, dirs.len() as int) =~= Seq::<Seq<char>>::empty());
    }
}

/// Directories a rollback tries to remove, in order: the recorded paths
/// taken from the most recent record back, each path once (children are
/// recorded after their parents, so they come before them).
pub fn rollback_directory_order(plan: &RollbackPlan) -> (dirs: Vec<String>)
    ensures
        views(dirs@) == distinct_from_end(views(plan.created_directories@), 0),
{
    let created = &plan.created_directories;
    let ghost cv = views(created@);
    let mut out: Vec<String> = Vec::new();
    let mut k: usize = created.len();
    while k > 0
        invariant
            k <= created@.len(),
            cv == views(created@),
            views(out@) == distinct_from_end(cv, k as int),
        decreases k,
    {
        k -= 1;
        let d = &created[k];
        let mut seen = false;
        let mut i: usize = 0;
        while i < out.len()
            invariant
                i <= out@.len(),
                seen <==> exists|j: int| 0 <= j < i && #[trigger] out@[j]@ == d@,
            decreases out.len() - i,
        {
            if out[i] == *d {
                seen = true;
            }
            i += 1;
        }
        proof {
            if seen {
                let j = choose|j: int| 0 <= j < out@.len() && #[trigger] out@[j]@ == d@;
                assert(views(out@)[j] == d@);
            } else {
                assert forall|j: int| 0 <= j < views(out@).len() implies views(out@)[j] != d@ by {
                    assert(out@[j]@ == views(out@)[j]);
                }
            }
            assert(cv[k as int] == d@);
        }
        if !seen {
            push_string(&mut out, copy_string(d));
        }
    }
    out
}

/// Checks a placement before any file is touched: the source must exist,
/// and an existing destination is only replaced when the placement says so.
pub fn check_placement(placement: &FilePlacement, source_exists: bool, destination_exists: bool) -> (r:
    Result<(), PlacerError>)
    ensures
        !source_exists ==> (r matches Err(PlacerError::SourceNotFound { path }) && path@
            == placement.source@),
        source_exists && destination_exists && !placement.overwrite ==> (r matches Err(
            PlacerError::DestinationExists { path },
        ) && path@ == placement.destination@),
        source_exists && (!destination_exists || placement.overwrite) ==> r is Ok,
{
    if !source_exists {
        return Err(PlacerError::SourceNotFound { path: copy_string(&placement.source) });
    }
    if destination_exists && !placement.overwrite {
        return Err(PlacerError::DestinationExists { path: copy_string(&placement.destination) });
    }
    Ok(())
}

/// Whether the files of a job are moved by renaming (falling back to a
/// copy across file systems): only when the job asks for atomic moves, the
/// placer prefers them, and the job does not keep its sources (it cleans
/// them up).  Otherwise every file is copied and its source stays.
pub fn use_atomic_move(config: &PlacerConfig, job: &PlacementJob) -> (b: bool)
    ensures
        b == (job.atomic && config.prefer_atomic_moves && job.cleanup_sources),
{
    job.atomic && config.prefer_atomic_moves && job.cleanup_sources
}

/// The checksum computed for a placed file: the kind the placement asks
/// for, whether the file was renamed or copied; none when it asks for none.
pub open spec fn placed_checksum_kind(placement: FilePlacement) -> Option<ChecksumType> {
    placement.verify_checksum
}

/// The checksum kind computed for a placed file (see [`placed_checksum_kind`]).
pub fn checksum_kind_for(placement: &FilePlacement) -> (k: Option<ChecksumType>)
    ensures
        k == placed_checksum_kind(*placement),
{
    placement.verify_checksum
}

/// The SHA-256 digest of `data`, as lower-case hex.
pub uninterp spec fn sha256_hex(data: Seq<u8>) -> Seq<char>;

/// The MD5 digest of `data`, as lower-case hex.
pub uninterp spec fn md5_hex(data: Seq<u8>) -> Seq<char>;

/// `sha2::Sha256::digest`, formatted as lower-case hex.  The digest itself
/// is not restated; the result is named by [`sha256_hex`].
#[verifier::external_body]
fn sha256_hex_of(data: &[u8]) -> (h: String)
    ensures
        h@ == sha256_hex(data@),
{
    format!("{:x}", sha2::Sha256::digest(data))
}

/// `md5::compute`, formatted as lower-case hex.  The digest itself is not
/// restated; the result is named by [`md5_hex`].
#[verifier::external_body]
fn md5_hex_of(data: &[u8]) -> (h: String)
    ensures
        h@ == md5_hex(data@),
{
    format!("{:x}", md5::compute(data))
}

/// The hex digest of kind `kind` of a file's bytes.
pub open spec fn checksum_of(kind: ChecksumType, data: Seq<u8>) -> Seq<char> {
    match kind {
        ChecksumType::Sha256 => sha256_hex(data),
        ChecksumType::Md5 => md5_hex(data),
    }
}

/// The checksum of kind `kind` of a file's bytes, as lower-case hex.
pub fn checksum_hex(kind: ChecksumType, data: &[u8]) -> (h: String)
    ensures
        h@ == checksum_of(kind, data@),
{
    match kind {
        ChecksumType::Sha256 => sha256_hex_of(data),
        ChecksumType::Md5 => md5_hex_of(data),
    }
}

/// Verifies a copy: the checksums of kind `kind` of the source's bytes and
/// of the bytes read back from the destination must agree.  On agreement
/// the result is the destination's checksum; otherwise a checksum mismatch
/// for the destination, expecting the source's checksum.
pub fn verify_copy(
    kind: ChecksumType,
    source_bytes: &[u8],
    destination_bytes: &[u8],
    destination: &str,
) -> (r: Result<String, PlacerError>)
    ensures
        checksum_of(kind, source_bytes@) == checksum_of(kind, destination_bytes@) ==> (r matches Ok(
            h,
        ) && h@ == checksum_of(kind, destination_bytes@)),
        checksum_of(kind, source_bytes@) != checksum_of(kind, destination_bytes@) ==> (r matches Err(
            PlacerError::ChecksumMismatch { path, expected, actual },
        ) && path@ == destination@ && expected@ == checksum_of(kind, source_bytes@) && actual@
            == checksum_of(kind, destination_bytes@)),
{
    let expected = checksum_hex(kind, source_bytes);
    let actual = checksum_hex(kind, destination_bytes);
    if expected == actual {
        Ok(actual)
    } else {
        Err(PlacerError::ChecksumMismatch { path: destination.to_owned(), expected, actual })
    }
}

/// Distinct texts of a list, in the order of their first occurrence.
pub open spec fn first_occurrences(s: Seq<Seq<char>>) -> Seq<Seq<char>>
    decreases s.len(),
{
    if s.len() == 0 {
        seq![]
    } else if first_occurrences(s.drop_last()).contains(s.last()) {
        first_occurrences(s.drop_last())
    } else {
        first_occurrences(s.drop_last()).push(s.last())
    }
}

/// The source paths of a job's files, in order.
pub open spec fn job_sources(files: Seq<FilePlacement>) -> Seq<Seq<char>> {
    files.map_values(|f: FilePlacement| f.source@)
}

/// The sources removed after a successful job: each source path once, in
/// the order of the job's files, when the job cleans up its sources; none
/// otherwise.  (A source no longer present is skipped by the caller.)
pub fn sources_to_remove(job: &PlacementJob) -> (v: Vec<String>)
    ensures
        views(v@) == if job.cleanup_sources {
            first_occurrences(job_sources(job.files@))
        } else {
            seq![]
        },
{
    let mut out: Vec<String> = Vec::new();
    if !job.cleanup_sources {
        assert(views(out@) =~= seq![]);
        return out;
    }
    let ghost srcs = job_sources(job.files@);
    let mut k: usize = 0;
    while k < job.files.len()
        invariant
            k <= job.files@.len(),
            srcs == job_sources(job.files@),
            views(out@) == first_occurrences(srcs.take(k as int)),
        decreases job.files@.len() - k,
    {
        let src = &job.files[k].source;
        assert(srcs.take(k as int + 1).drop_last() =~= srcs.take(k as int));
        assert(srcs.take(k as int + 1).last() == src@);
        let mut seen = false;
        let mut i: usize = 0;
        while i < out.len()
            invariant
                i <= out@.len(),
                seen <==> exists|j: int| 0 <= j < i && #[trigger] out@[j]@ == src@,
            decreases out.len() - i,
        {
            if out[i] == *src {
                seen = true;
            }
            i += 1;
        }
        proof {
            if seen {
                let j = choose|j: int| 0 <= j < out@.len() && #[trigger] out@[j]@ == src@;
                assert(views(out@)[j] == src@);
            } else {
                assert forall|j: int| 0 <= j < views(out@).len() implies views(out@)[j] != src@ by {
                    assert(out@[j]@ == views(out@)[j]);
                }
            }
        }
        if !seen {
            push_string(&mut out, copy_string(src));
        }
        k += 1;
    }
    assert(srcs.take(job.files@.len() as int) =~= srcs);
    out
}

/// Whether a failed job is rolled back: when the job asks for it and
/// something was changed.
pub fn should_roll_back(job: &PlacementJob, plan: &RollbackPlan) -> (b: bool)
    ensures
        b == (job.enable_rollback && (plan.placed_files@.len() > 0
            || plan.created_directories@.len() > 0)),
{
    job.enable_rollback && plan.has_changes()
}

/// The error reported when a rollback did not succeed: its errors joined
/// by ", "; none when it succeeded.
pub fn rollback_failure(result: &RollbackResult) -> (e: Option<PlacerError>)
    ensures
        result.success ==> e is None,
        !result.success ==> (e matches Some(PlacerError::RollbackFailed { reason }) && reason@
            == joined(views(result.errors@), ", "@)),
{
    if result.success {
        return None;
    }
    let errs = &result.errors;
    let mut reason = String::new();
    let mut i: usize = 0;
    while i < errs.len()
        invariant
            i <= errs@.len(),
            reason@ == joined(views(errs@).take(i as int), ", "@),
        decreases errs@.len() - i,
    {
        proof {
            assert(views(errs@).take(i as int + 1).drop_last() =~= views(errs@).take(i as int));
            assert(views(errs@).take(1) =~= seq![errs@[0]@]);
        }
        if i == 0 {
            reason = copy_string(&errs[0]);
        } else {
            reason = concat3(reason.as_str(), ", ", errs[i].as_str());
        }
        i += 1;
    }
    assert(views(errs@).take(errs@.len() as int) =~= views(errs@));
    Some(PlacerError::RollbackFailed { reason })
}

/// Result of a rollback operation.
#[derive(Debug, Clone)]
pub struct RollbackResult {
    /// Job ID.
    pub job_id: String,
    /// Files removed.
    pub files_removed: usize,
    /// Directories removed.
    pub directories_removed: usize,
    /// Errors that occurred during rollback.
    pub errors: Vec<String>,
    /// Whether rollback completed without error.
    pub success: bool,
}

impl RollbackResult {
    /// Summarises a rollback: it succeeded exactly when no error occurred.
    pub fn summarize(job_id: String, files_removed: usize, directories_removed: usize, errors: Vec<String>) -> (r: Self)
        ensures
            r.job_id == job_id,
            r.files_removed == files_removed,
            r.directories_removed == directories_removed,
            r.errors == errors,
            r.success == (errors@.len() == 0),
    {
        let success = errors.len() == 0;
        RollbackResult { job_id, files_removed, directories_removed, errors, success }
    }
}

/// File-system placer.
pub struct FsPlacer {
    /// The placer's configuration.
    pub config: PlacerConfig,
}

impl FsPlacer {
    /// Creates a placer with the given configuration.
    pub fn new(config: PlacerConfig) -> (p: Self)
        ensures
            p.config == config,
    {
        FsPlacer { config }
    }

    /// Creates a placer with the default configuration.
    pub fn with_defaults() -> (p: Self)
        ensures
            p.config.buffer_size == 8 * 1024 * 1024,
            p.config.prefer_atomic_moves,
            !p.config.verify_checksums,
            !p.config.cleanup_sources,
            p.config.create_parents,
            p.config.max_parallel_operations == 4,
            p.config.directory_mode == 0o755,
            p.config.backup_dir is None,
    {
        FsPlacer::new(PlacerConfig::default())
    }

    /// The name of this placer implementation.
    pub fn name(&self) -> (n: &'static str)
        ensures
            n@ == "fs"@,
    {
        "fs"
    }
}

} // verus!
