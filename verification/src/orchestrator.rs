//! Ticket orchestration decisions: which failures are worth retrying, the
//! ticket's next state (with the change logged for it) after an acquisition
//! and after starting a download, how a stalled download fails over to the
//! next candidate, and the orchestrator's status and errors.

use vstd::prelude::*;

use crate::music::{contains_any, lemma_contains_any_members, str_views};
use crate::processor::{is_change, StateChange};
use crate::text::{concat2, concat3, concat4, decimal, decimal_string, lowercase, seq_contains, str_contains, to_lowercase};

verus! {

// ---------------------------------------------------------------------------
// Retryable errors
// ---------------------------------------------------------------------------

/// Error text fragments of transient failures.
pub open spec fn retryable_patterns() -> Seq<Seq<char>> {
    seq![
        "timeout"@,
        "timed out"@,
        "connection refused"@,
        "connection reset"@,
        "connection closed"@,
        "network"@,
        "dns"@,
        "temporary"@,
        "unavailable"@,
        "service unavailable"@,
        "too many requests"@,
        "rate limit"@,
        "429"@,
        "500"@,
        "502"@,
        "503"@,
        "504"@,
        "internal server error"@,
        "bad gateway"@,
        "gateway timeout"@,
        "econnrefused"@,
        "econnreset"@,
        "etimedout"@,
        "ehostunreach"@,
        "enetunreach"@,
    ]
}

/// Error text fragments of permanent failures; they take precedence.
pub open spec fn permanent_patterns() -> Seq<Seq<char>> {
    seq![
        "no candidates"@,
        "no suitable"@,
        "not found"@,
        "invalid"@,
        "unauthorized"@,
        "forbidden"@,
        "authentication"@,
        "401"@,
        "403"@,
        "404"@,
    ]
}

/// An error is retryable when its lower-cased text contains no permanent
/// pattern and some retryable pattern; unknown errors are not retried.
pub open spec fn retryable_error(e: Seq<char>) -> bool {
    !contains_any(lowercase(e), permanent_patterns()) && contains_any(
        lowercase(e),
        retryable_patterns(),
    )
}

/// Which failures are retried: an error whose lower-cased text contains one
/// of the permanent fragments (no candidates, no suitable, not found,
/// invalid, unauthorized, forbidden, authentication, 401, 403, 404) is never
/// retried; any other error is retried exactly when its lower-cased text
/// contains a transient fragment (timeouts, refused, reset or closed
/// connections, network and DNS trouble, temporary unavailability, rate
/// limits, 429 and 5xx server errors, and the matching OS error names).
pub proof fn lemma_retryable_errors(e: Seq<char>)
    ensures
        (exists|k: Seq<char>| seq![
            "no candidates"@, "no suitable"@, "not found"@, "invalid"@, "unauthorized"@,
            "forbidden"@, "authentication"@, "401"@, "403"@, "404"@,
        ].contains(k) && #[trigger] seq_contains(lowercase(e), k))
            ==> !retryable_error(e),
        !(exists|k: Seq<char>| seq![
            "no candidates"@, "no suitable"@, "not found"@, "invalid"@, "unauthorized"@,
            "forbidden"@, "authentication"@, "401"@, "403"@, "404"@,
        ].contains(k) && #[trigger] seq_contains(lowercase(e), k))
            ==> (retryable_error(e) <==> exists|k: Seq<char>| seq![
            "timeout"@, "timed out"@, "connection refused"@, "connection reset"@,
            "connection closed"@, "network"@, "dns"@, "temporary"@, "unavailable"@,
            "service unavailable"@, "too many requests"@, "rate limit"@, "429"@, "500"@, "502"@,
            "503"@, "504"@, "internal server error"@, "bad gateway"@, "gateway timeout"@,
            "econnrefused"@, "econnreset"@, "etimedout"@, "ehostunreach"@, "enetunreach"@,
        ].contains(k)
            && #[trigger] seq_contains(lowercase(e), k)),
{
    assert(permanent_patterns() =~= seq![
            "no candidates"@, "no suitable"@, "not found"@, "invalid"@, "unauthorized"@,
            "forbidden"@, "authentication"@, "401"@, "403"@, "404"@,
        ]);
    assert(retryable_patterns() =~= seq![
            "timeout"@, "timed out"@, "connection refused"@, "connection reset"@,
            "connection closed"@, "network"@, "dns"@, "temporary"@, "unavailable"@,
            "service unavailable"@, "too many requests"@, "rate limit"@, "429"@, "500"@, "502"@,
            "503"@, "504"@, "internal server error"@, "bad gateway"@, "gateway timeout"@,
            "econnrefused"@, "econnreset"@, "etimedout"@, "ehostunreach"@, "enetunreach"@,
        ]);
    lemma_contains_any_members(lowercase(e), permanent_patterns());
    lemma_contains_any_members(lowercase(e), retryable_patterns());
}

/// An error naming a closed connection, and no permanent failure, is
/// retried.
pub proof fn lemma_closed_connection_is_retried(e: Seq<char>)
    requires
        seq_contains(lowercase(e), "connection closed"@),
        forall|k: Seq<char>| seq![
            "no candidates"@, "no suitable"@, "not found"@, "invalid"@, "unauthorized"@,
            "forbidden"@, "authentication"@, "401"@, "403"@, "404"@,
        ].contains(k) ==> !seq_contains(lowercase(e), k),
    ensures
        retryable_error(e),
{
    lemma_retryable_errors(e);
    let t = seq![
            "timeout"@, "timed out"@, "connection refused"@, "connection reset"@,
            "connection closed"@, "network"@, "dns"@, "temporary"@, "unavailable"@,
            "service unavailable"@, "too many requests"@, "rate limit"@, "429"@, "500"@, "502"@,
            "503"@, "504"@, "internal server error"@, "bad gateway"@, "gateway timeout"@,
            "econnrefused"@, "econnreset"@, "etimedout"@, "ehostunreach"@, "enetunreach"@,
        ];
    assert(t[4] == "connection closed"@);
    assert(t.contains("connection closed"@));
}

fn retryable_pattern_list() -> (v: Vec<&'static str>)
    ensures
        str_views(v@) == retryable_patterns(),
{
    let mut v: Vec<&'static str> = Vec::new();
    v.push("timeout");
    v.push("timed out");
    v.push("connection refused");
    v.push("connection reset");
    v.push("connection closed");
    v.push("network");
    v.push("dns");
    v.push("temporary");
    v.push("unavailable");
    v.push("service unavailable");
    v.push("too many requests");
    v.push("rate limit");
    v.push("429");
    v.push("500");
    v.push("502");
    v.push("503");
    v.push("504");
    v.push("internal server error");
    v.push("bad gateway");
    v.push("gateway timeout");
    v.push("econnrefused");
    v.push("econnreset");
    v.push("etimedout");
    v.push("ehostunreach");
    v.push("enetunreach");
    assert(str_views(v@) =~= retryable_patterns());
    v
}

fn permanent_pattern_list() -> (v: Vec<&'static str>)
    ensures
        str_views(v@) == permanent_patterns(),
{
    let mut v: Vec<&'static str> = Vec::new();
    v.push("no candidates");
    v.push("no suitable");
    v.push("not found");
    v.push("invalid");
    v.push("unauthorized");
    v.push("forbidden");
    v.push("authentication");
    v.push("401");
    v.push("403");
    v.push("404");
    assert(str_views(v@) =~= permanent_patterns());
    v
}

fn any_pattern(t: &str, pats: &Vec<&'static str>) -> (b: bool)
    ensures
        b == contains_any(t@, str_views(pats@)),
{
    let mut i: usize = 0;
    while i < pats.len()
        invariant
            i <= pats@.len(),
            forall|j: int| 0 <= j < i ==> !seq_contains(t@, #[trigger] str_views(pats@)[j]),
        decreases pats.len() - i,
    {
        if str_contains(t, pats[i]) {
            assert(seq_contains(t@, str_views(pats@)[i as int]));
            return true;
        }
        i += 1;
    }
    false
}

/// Whether a failure described by `error` is transient and worth retrying.
pub fn is_retryable_error(error: &str) -> (b: bool)
    ensures
        b == retryable_error(error@),
{
    let lower = to_lowercase(error);
    let permanent = permanent_pattern_list();
    if any_pattern(lower.as_str(), &permanent) {
        return false;
    }
    let retryable = retryable_pattern_list();
    any_pattern(lower.as_str(), &retryable)
}

// ---------------------------------------------------------------------------
// Ticket decisions
// ---------------------------------------------------------------------------

/// What becomes of a ticket after a failed step.
#[derive(Debug, Clone, Copy, PartialEq, Eq)]
pub enum FailureDecision {
    /// Schedule retry number `attempt`.
    Retry { attempt: u32 },
    /// Fail the ticket.
    Fail,
}

/// A failure is retried when it is transient and fewer retries than the
/// maximum have been made; the retry is the next attempt.
pub open spec fn failure_decision(retryable: bool, retry_count: u32, max_attempts: u32) -> FailureDecision {
    if retryable && retry_count < max_attempts {
        FailureDecision::Retry { attempt: (retry_count + 1) as u32 }
    } else {
        FailureDecision::Fail
    }
}

/// Decides what becomes of a ticket whose step failed with `error` after
/// `retry_count` retries.
pub fn decide_failure(error: &str, retry_count: u32, limits: &RetryLimits) -> (d: FailureDecision)
    requires
        retry_count < u32::MAX,
    ensures
        d == failure_decision(retryable_error(error@), retry_count, limits.max_attempts),
{
    if is_retryable_error(error) && limits.should_retry(retry_count) {
        FailureDecision::Retry { attempt: retry_count + 1 }
    } else {
        FailureDecision::Fail
    }
}

/// Retries are bounded: a retry is only ever the next attempt after the
/// ones made, never beyond the maximum, and never for a permanent failure.
pub proof fn lemma_retries_bounded(retryable: bool, retry_count: u32, max_attempts: u32)
    ensures
        failure_decision(retryable, retry_count, max_attempts) matches FailureDecision::Retry {
            attempt,
        } ==> (retryable && attempt == retry_count + 1 && attempt <= max_attempts),
        retry_count >= max_attempts ==> failure_decision(retryable, retry_count, max_attempts)
            == FailureDecision::Fail,
        !retryable ==> failure_decision(retryable, retry_count, max_attempts)
            == FailureDecision::Fail,
{
}

/// Outcome of a finished acquisition for a ticket.
#[derive(Debug, Clone, PartialEq, Eq)]
pub enum AcquisitionDecision {
    /// Approve the best candidate, keeping the first `failover_candidates`
    /// candidates for failover.
    AutoApprove { failover_candidates: usize },
    /// Ask for approval, showing the first `review_candidates` candidates.
    NeedsApproval { review_candidates: usize },
    /// Fail the acquisition.
    Failed { reason: String },
}

/// Candidates shown for manual review.
pub open spec fn review_limit() -> usize {
    5
}

/// Decides the outcome of an acquisition that found `num_candidates`
/// candidates, `has_best` telling whether a best one exists and
/// `auto_approved` whether it scored above the approval threshold.
pub fn decide_acquisition(
    auto_approved: bool,
    has_best: bool,
    num_candidates: usize,
    max_failover_candidates: usize,
) -> (d: AcquisitionDecision)
    ensures
        auto_approved && has_best ==> d == (AcquisitionDecision::AutoApprove {
            failover_candidates: if num_candidates < max_failover_candidates {
                num_candidates
            } else {
                max_failover_candidates
            },
        }),
        auto_approved && !has_best ==> (d matches AcquisitionDecision::Failed { reason } && reason@
            == "No candidates found"@),
        !auto_approved && has_best ==> d == (AcquisitionDecision::NeedsApproval {
            review_candidates: if num_candidates < review_limit() {
                num_candidates
            } else {
                review_limit()
            },
        }),
        !auto_approved && !has_best ==> (d matches AcquisitionDecision::Failed { reason } && reason@
            == "No suitable candidates found"@),
{
    if auto_approved {
        if has_best {
            let keep = if num_candidates < max_failover_candidates {
                num_candidates
            } else {
                max_failover_candidates
            };
            AcquisitionDecision::AutoApprove { failover_candidates: keep }
        } else {
            AcquisitionDecision::Failed { reason: "No candidates found".to_owned() }
        }
    } else if has_best {
        let shown = if num_candidates < 5 {
            num_candidates
        } else {
            5
        };
        AcquisitionDecision::NeedsApproval { review_candidates: shown }
    } else {
        AcquisitionDecision::Failed { reason: "No suitable candidates found".to_owned() }
    }
}

/// What an acquisition came to, as the caller reports it.
#[derive(Debug, Clone)]
pub enum AcquisitionEvent {
    /// The acquisition ran: whether its best candidate was auto-approved,
    /// whether there is a best candidate, how many candidates it kept, and
    /// the best score as the caller prints it (two decimals).
    Finished { auto_approved: bool, has_best: bool, num_candidates: usize, score_text: String },
    /// The acquisition failed with `error`, after `retry_count` retries.
    Errored { error: String, retry_count: u32 },
}

/// What becomes of a ticket after its acquisition.
#[derive(Debug, Clone, Copy, PartialEq, Eq, Structural)]
pub enum AcquisitionStep {
    /// Auto-approved, keeping the first `failover_candidates` candidates.
    AutoApprove { failover_candidates: usize },
    /// Waiting for approval, showing the first `review_candidates`.
    NeedsApproval { review_candidates: usize },
    /// Retry number `attempt` is scheduled.
    ScheduleRetry { attempt: u32 },
    /// The acquisition failed.
    AcquisitionFailed,
}

/// The state change that starts an acquisition.
pub fn acquisition_start_change() -> (c: StateChange)
    ensures
        is_change(c, "pending"@, "acquiring"@, "Starting acquisition"@),
{
    StateChange {
        from_state: "pending".to_owned(),
        to_state: "acquiring".to_owned(),
        reason: "Starting acquisition".to_owned(),
    }
}

/// The step of a ticket after its acquisition, and the logged change:
/// - auto-approved with a best candidate: "auto_approved", "Auto-approved
///   with score S", keeping up to `max_failover_candidates` candidates;
/// - not auto-approved with a best candidate: "needs_approval", "Best score
///   S below threshold", showing up to five candidates;
/// - no best candidate: "acquisition_failed", "No candidates found" when it
///   was auto-approved, "No suitable candidates found" otherwise;
/// - an error that is worth retrying while retries remain: "pending_retry",
///   "Transient error, scheduling retry: E", the next attempt;
/// - any other error: "acquisition_failed", the error itself.
pub open spec fn acquisition_step_spec(
    event: AcquisitionEvent,
    limits: RetryLimits,
    max_failover_candidates: usize,
    r: (AcquisitionStep, StateChange),
) -> bool {
    let (step, c) = r;
    match event {
        AcquisitionEvent::Finished { auto_approved, has_best, num_candidates, score_text } => {
            if auto_approved && has_best {
                &&& step == AcquisitionStep::AutoApprove {
                    failover_candidates: if num_candidates < max_failover_candidates {
                        num_candidates
                    } else {
                        max_failover_candidates
                    },
                }
                &&& is_change(c, "acquiring"@, "auto_approved"@, "Auto-approved with score "@ + score_text@)
            } else if has_best {
                &&& step == AcquisitionStep::NeedsApproval {
                    review_candidates: if num_candidates < review_limit() {
                        num_candidates
                    } else {
                        review_limit()
                    },
                }
                &&& is_change(c, "acquiring"@, "needs_approval"@, "Best score "@ + score_text@ + " below threshold"@)
            } else {
                &&& step == AcquisitionStep::AcquisitionFailed
                &&& is_change(c, "acquiring"@, "acquisition_failed"@, if auto_approved {
                    "No candidates found"@
                } else {
                    "No suitable candidates found"@
                })
            }
        },
        AcquisitionEvent::Errored { error, retry_count } => {
            match failure_decision(retryable_error(error@), retry_count, limits.max_attempts) {
                FailureDecision::Retry { attempt } => {
                    &&& step == AcquisitionStep::ScheduleRetry { attempt }
                    &&& is_change(c, "acquiring"@, "pending_retry"@,
                        "Transient error, scheduling retry: "@ + error@)
                },
                FailureDecision::Fail => {
                    &&& step == AcquisitionStep::AcquisitionFailed
                    &&& is_change(c, "acquiring"@, "acquisition_failed"@, error@)
                },
            }
        },
    }
}

/// Decides what becomes of a ticket after its acquisition (see
/// [`acquisition_step_spec`]).
pub fn acquisition_step(
    event: AcquisitionEvent,
    limits: &RetryLimits,
    max_failover_candidates: usize,
) -> (r: (AcquisitionStep, StateChange))
    requires
        event matches AcquisitionEvent::Errored { retry_count, .. } ==> retry_count < u32::MAX,
    ensures
        acquisition_step_spec(event, *limits, max_failover_candidates, r),
{
    match event {
        AcquisitionEvent::Finished { auto_approved, has_best, num_candidates, score_text } => {
            match decide_acquisition(auto_approved, has_best, num_candidates, max_failover_candidates) {
                AcquisitionDecision::AutoApprove { failover_candidates } => (
                    AcquisitionStep::AutoApprove { failover_candidates },
                    StateChange {
                        from_state: "acquiring".to_owned(),
                        to_state: "auto_approved".to_owned(),
                        reason: concat2("Auto-approved with score ", score_text.as_str()),
                    },
                ),
                AcquisitionDecision::NeedsApproval { review_candidates } => (
                    AcquisitionStep::NeedsApproval { review_candidates },
                    StateChange {
                        from_state: "acquiring".to_owned(),
                        to_state: "needs_approval".to_owned(),
                        reason: concat3("Best score ", score_text.as_str(), " below threshold"),
                    },
                ),
                AcquisitionDecision::Failed { reason } => (
                    AcquisitionStep::AcquisitionFailed,
                    StateChange {
                        from_state: "acquiring".to_owned(),
                        to_state: "acquisition_failed".to_owned(),
                        reason,
                    },
                ),
            }
        },
        AcquisitionEvent::Errored { error, retry_count } => {
            match decide_failure(error.as_str(), retry_count, limits) {
                FailureDecision::Retry { attempt } => (
                    AcquisitionStep::ScheduleRetry { attempt },
                    StateChange {
                        from_state: "acquiring".to_owned(),
                        to_state: "pending_retry".to_owned(),
                        reason: concat2("Transient error, scheduling retry: ", error.as_str()),
                    },
                ),
                FailureDecision::Fail => (
                    AcquisitionStep::AcquisitionFailed,
                    StateChange {
                        from_state: "acquiring".to_owned(),
                        to_state: "acquisition_failed".to_owned(),
                        reason: error,
                    },
                ),
            }
        },
    }
}

/// How starting an approved ticket's download went, as the caller reports it.
#[derive(Debug, Clone)]
pub enum DownloadStartEvent {
    /// A candidate was added; the torrent has this info hash.
    Added { info_hash: String },
    /// None of the `num_candidates` candidates could be added; the last
    /// error was `last_error`; the ticket has had `retry_count` retries.
    AllFailed { num_candidates: usize, last_error: String, retry_count: u32 },
}

/// What becomes of an approved ticket after trying to start its download.
#[derive(Debug, Clone, Copy, PartialEq, Eq, Structural)]
pub enum DownloadStartStep {
    /// Downloading.
    Downloading,
    /// Retry number `attempt` is scheduled.
    ScheduleRetry { attempt: u32 },
    /// The ticket failed (as a retryable failure).
    Failed,
}

/// The step of an approved ticket (in state `from`) after trying to start
/// its download, and the logged change:
/// - added: "downloading", "Started download: H";
/// - all candidates failed: the failure message M names their number and
///   the last error; when the last error is worth retrying and retries
///   remain, "pending_retry", "Transient error, scheduling retry: M";
///   otherwise "failed", M.
pub open spec fn download_start_step_spec(
    from: Seq<char>,
    event: DownloadStartEvent,
    limits: RetryLimits,
    r: (DownloadStartStep, StateChange),
) -> bool {
    let (step, c) = r;
    match event {
        DownloadStartEvent::Added { info_hash } => {
            &&& step == DownloadStartStep::Downloading
            &&& is_change(c, from, "downloading"@, "Started download: "@ + info_hash@)
        },
        DownloadStartEvent::AllFailed { num_candidates, last_error, retry_count } => {
            let m = all_candidates_failed_message(num_candidates as nat, last_error@);
            match failure_decision(retryable_error(last_error@), retry_count, limits.max_attempts) {
                FailureDecision::Retry { attempt } => {
                    &&& step == DownloadStartStep::ScheduleRetry { attempt }
                    &&& is_change(c, from, "pending_retry"@, "Transient error, scheduling retry: "@ + m)
                },
                FailureDecision::Fail => {
                    &&& step == DownloadStartStep::Failed
                    &&& is_change(c, from, "failed"@, m)
                },
            }
        },
    }
}

/// Decides what becomes of an approved ticket after trying to start its
/// download (see [`download_start_step_spec`]).
pub fn download_start_step(
    from_state: &str,
    event: DownloadStartEvent,
    limits: &RetryLimits,
) -> (r: (DownloadStartStep, StateChange))
    requires
        event matches DownloadStartEvent::AllFailed { retry_count, .. } ==> retry_count < u32::MAX,
    ensures
        download_start_step_spec(from_state@, event, *limits, r),
{
    match event {
        DownloadStartEvent::Added { info_hash } => (
            DownloadStartStep::Downloading,
            StateChange {
                from_state: from_state.to_owned(),
                to_state: "downloading".to_owned(),
                reason: concat2("Started download: ", info_hash.as_str()),
            },
        ),
        DownloadStartEvent::AllFailed { num_candidates, last_error, retry_count } => {
            let m = all_candidates_failed(num_candidates, last_error.as_str());
            match decide_failure(last_error.as_str(), retry_count, limits) {
                FailureDecision::Retry { attempt } => (
                    DownloadStartStep::ScheduleRetry { attempt },
                    StateChange {
                        from_state: from_state.to_owned(),
                        to_state: "pending_retry".to_owned(),
                        reason: concat2("Transient error, scheduling retry: ", m.as_str()),
                    },
                ),
                FailureDecision::Fail => (
                    DownloadStartStep::Failed,
                    StateChange { from_state: from_state.to_owned(), to_state: "failed".to_owned(), reason: m },
                ),
            }
        },
    }
}

/// Whether another download may start: there is no limit (0) or fewer
/// downloads than the limit are active.
pub fn download_slot_available(max_concurrent_downloads: usize, active: usize) -> (b: bool)
    ensures
        b == (max_concurrent_downloads == 0 || active < max_concurrent_downloads),
{
    max_concurrent_downloads == 0 || active < max_concurrent_downloads
}

/// The failure of a ticket none of whose candidates could be added.
pub open spec fn all_candidates_failed_message(n: nat, last_error: Seq<char>) -> Seq<char> {
    "All "@ + decimal(n) + " candidates failed to add. Last error: "@ + last_error
}

/// Builds the failure of a ticket none of whose candidates could be added.
pub fn all_candidates_failed(num_candidates: usize, last_error: &str) -> (m: String)
    ensures
        m@ == all_candidates_failed_message(num_candidates as nat, last_error@),
{
    let n = decimal_string(num_candidates as u64);
    concat4("All ", n.as_str(), " candidates failed to add. Last error: ", last_error)
}

/// A torrent client error means the torrent is gone (deleted outside the
/// service) when its lower-cased text says "not found", "404" or "no such".
pub open spec fn missing_torrent_error(e: Seq<char>) -> bool {
    contains_any(lowercase(e), seq!["not found"@, "404"@, "no such"@])
}

/// Whether a torrent client error means the torrent is gone; such a
/// download is failed over like a stalled one.
pub fn is_missing_torrent_error(error: &str) -> (b: bool)
    ensures
        b == missing_torrent_error(error@),
{
    let lower = to_lowercase(error);
    let mut pats: Vec<&'static str> = Vec::new();
    pats.push("not found");
    pats.push("404");
    pats.push("no such");
    assert(str_views(pats@) =~= seq!["not found"@, "404"@, "no such"@]);
    any_pattern(lower.as_str(), &pats)
}

/// A download has stalled when no progress was seen for longer than the
/// round's timeout.
pub fn is_stalled(seconds_without_progress: i64, timeout_secs: u64) -> (b: bool)
    ensures
        b == (seconds_without_progress > timeout_secs),
{
    if seconds_without_progress < 0 {
        false
    } else {
        seconds_without_progress as u64 > timeout_secs
    }
}

// ---------------------------------------------------------------------------
// Stall handling
// ---------------------------------------------------------------------------

/// Stall timeouts of the three failover rounds, in seconds.
#[derive(Debug, Clone, Copy, PartialEq, Eq)]
pub struct StallTimeouts {
    /// Round 1 timeout.
    pub round1_secs: u64,
    /// Round 2 timeout.
    pub round2_secs: u64,
    /// Round 3 (and later) timeout.
    pub round3_secs: u64,
}

/// The stall timeout of a failover round: rounds 1 and 2 have their own,
/// every other round uses the round-3 timeout.
pub open spec fn stall_timeout(t: StallTimeouts, round: u8) -> u64 {
    if round == 1 {
        t.round1_secs
    } else if round == 2 {
        t.round2_secs
    } else {
        t.round3_secs
    }
}

/// Stall timeout for the given failover round.
pub fn get_stall_timeout(timeouts: &StallTimeouts, round: u8) -> (t: u64)
    ensures
        t == stall_timeout(*timeouts, round),
{
    match round {
        1 => timeouts.round1_secs,
        2 => timeouts.round2_secs,
        _ => timeouts.round3_secs,
    }
}

/// What to do about a stalled download.
#[derive(Debug, Clone, Copy, PartialEq, Eq)]
pub enum StallDecision {
    /// No candidate to fail over to: fail the ticket.
    NoCandidates,
    /// Every candidate was tried in all three rounds: fail the ticket.
    Exhausted,
    /// Switch to the candidate `next_idx` in round `next_round`.
    Failover { next_idx: usize, next_round: u8 },
}

/// The next candidate after `idx`, wrapping around into the next round.
pub open spec fn stall_decision(idx: usize, round: u8, n: usize) -> StallDecision {
    if n == 0 {
        StallDecision::NoCandidates
    } else {
        let wraps = idx + 1 >= n;
        let next_idx: int = if wraps { 0 } else { idx + 1 };
        let next_round: int = if wraps { round + 1 } else { round as int };
        if next_round > 3 {
            StallDecision::Exhausted
        } else {
            StallDecision::Failover { next_idx: next_idx as usize, next_round: next_round as u8 }
        }
    }
}

/// Decides how to handle a stall of candidate `candidate_idx` in round
/// `failover_round` when `num_candidates` candidates are available.
pub fn decide_stall(candidate_idx: usize, failover_round: u8, num_candidates: usize) -> (d:
    StallDecision)
    requires
        candidate_idx < usize::MAX,
        failover_round < u8::MAX,
    ensures
        d == stall_decision(candidate_idx, failover_round, num_candidates),
{
    if num_candidates == 0 {
        return StallDecision::NoCandidates;
    }
    let mut next_idx = candidate_idx + 1;
    let mut next_round = failover_round;
    if next_idx >= num_candidates {
        next_idx = 0;
        next_round += 1;
    }
    if next_round > 3 {
        StallDecision::Exhausted
    } else {
        StallDecision::Failover { next_idx, next_round }
    }
}

/// Attempts left before a download is given up: the candidates after `idx`
/// in this round plus all candidates of the later rounds up to round 3.
pub open spec fn attempts_left(idx: int, round: int, n: int) -> int {
    (3 - round) * n + (n - 1 - idx)
}

/// Failover terminates: from a valid position (a candidate index below `n`,
/// a round from 1 to 3), each failover moves to a valid position with fewer
/// attempts left, and the ticket is given up exactly when the last candidate
/// of round 3 stalls.
pub proof fn lemma_failover_terminates(idx: usize, round: u8, n: usize)
    requires
        idx < n,
        1 <= round <= 3,
    ensures
        stall_decision(idx, round, n) matches StallDecision::Failover { next_idx, next_round } ==> {
            &&& next_idx < n
            &&& 1 <= next_round <= 3
            &&& 0 <= attempts_left(next_idx as int, next_round as int, n as int) < attempts_left(
                idx as int,
                round as int,
                n as int,
            )
        },
        (stall_decision(idx, round, n) is Exhausted) <==> (idx + 1 == n && round == 3),
        !(stall_decision(idx, round, n) is NoCandidates),
{
    let ni = n as int;
    if idx + 1 >= n {
        assert(attempts_left(0, round + 1, ni) == (2 - round) * ni + ni - 1) by (nonlinear_arith);
        assert(attempts_left(idx as int, round as int, ni) == (3 - round) * ni + ni - 1 - idx) by (
        nonlinear_arith);
        assert((3 - round) * ni == (2 - round) * ni + ni) by (nonlinear_arith);
        if round < 3 {
            assert(0 <= (2 - round) * ni) by (nonlinear_arith)
                requires
                    round <= 2,
                    ni >= 0,
            ;
        }
    } else {
        assert(0 <= (3 - round) * ni) by (nonlinear_arith)
            requires
                round <= 3,
                ni >= 0,
        ;
    }
}

/// The failure message for a download given up after all rounds.
pub open spec fn exhausted_message(n: nat, t: StallTimeouts) -> Seq<char> {
    "Download stalled: tried "@ + decimal(n) + " candidates over 3 rounds (~"@ + decimal(
        ((t.round1_secs * n + t.round2_secs * n + t.round3_secs * n) / 3600) as nat,
    ) + " hours)"@
}

/// Builds the message for a download given up after all rounds.
pub fn exhausted_stall_message(num_candidates: usize, timeouts: &StallTimeouts) -> (m: String)
    requires
        timeouts.round1_secs * num_candidates + timeouts.round2_secs * num_candidates
            + timeouts.round3_secs * num_candidates <= u64::MAX,
    ensures
        m@ == exhausted_message(num_candidates as nat, *timeouts),
{
    let n = num_candidates as u64;
    assert(timeouts.round1_secs * n <= u64::MAX && timeouts.round2_secs * n <= u64::MAX
        && timeouts.round3_secs * n <= u64::MAX) by (nonlinear_arith)
        requires
            timeouts.round1_secs * num_candidates + timeouts.round2_secs * num_candidates
                + timeouts.round3_secs * num_candidates <= u64::MAX,
            n == num_candidates,
    ;
    let total = timeouts.round1_secs * n + timeouts.round2_secs * n + timeouts.round3_secs * n;
    let hours = total / 3600;
    let ns = decimal_string(n);
    let hs = decimal_string(hours);
    let mut m = concat4("Download stalled: tried ", ns.as_str(), " candidates over 3 rounds (~", hs.as_str());
    m.append(" hours)");
    m
}

// ---------------------------------------------------------------------------
// Settings
// ---------------------------------------------------------------------------

/// Retry limits for transient failures (the backoff multiplier and jitter
/// of the delay computation are kept by the caller).
#[derive(Debug, Clone, Copy, PartialEq, Eq)]
pub struct RetryLimits {
    /// Maximum number of retry attempts before giving up.
    pub max_attempts: u32,
    /// Delay before the first retry (milliseconds).
    pub initial_delay_ms: u64,
    /// Cap on the delay between retries (milliseconds).
    pub max_delay_ms: u64,
}

/// Retry attempts before giving up, when not configured.
pub fn default_max_attempts() -> (n: u32)
    ensures
        n == 10,
{
    10
}

/// Delay before the first retry, when not configured (5 seconds).
pub fn default_initial_delay_ms() -> (ms: u64)
    ensures
        ms == 5000,
{
    5000
}

/// Cap on the retry delay, when not configured (30 minutes).
pub fn default_max_delay_ms() -> (ms: u64)
    ensures
        ms == 1_800_000,
{
    1_800_000
}

impl Default for RetryLimits {
    fn default() -> (r: Self)
        ensures
            r.max_attempts == 10,
            r.initial_delay_ms == 5000,
            r.max_delay_ms == 1_800_000,
    {
        RetryLimits {
            max_attempts: default_max_attempts(),
            initial_delay_ms: default_initial_delay_ms(),
            max_delay_ms: default_max_delay_ms(),
        }
    }
}

impl RetryLimits {
    /// Whether another retry should be attempted after `current_attempt`
    /// attempts.
    pub fn should_retry(&self, current_attempt: u32) -> (b: bool)
        ensures
            b == (current_attempt < self.max_attempts),
    {
        current_attempt < self.max_attempts
    }

    /// Whether attempt number `attempt` (1-based) may still be made; past
    /// the maximum no delay is computed and the ticket fails.
    pub fn attempt_allowed(&self, attempt: u32) -> (b: bool)
        ensures
            b == (attempt <= self.max_attempts),
    {
        attempt <= self.max_attempts
    }
}

/// The orchestrator's integer settings (the auto-approve threshold is kept
/// by the caller).
#[derive(Debug, Clone, Copy, PartialEq, Eq)]
pub struct OrchestratorSettings {
    /// Whether the orchestrator runs; when off, tickets are processed
    /// manually.
    pub enabled: bool,
    /// Poll interval for pending tickets (milliseconds).
    pub acquisition_poll_interval_ms: u64,
    /// Poll interval for download progress (milliseconds).
    pub download_poll_interval_ms: u64,
    /// Maximum concurrent downloads (0 = unlimited).
    pub max_concurrent_downloads: usize,
    /// Round 1 stall timeout in seconds.
    pub stall_timeout_round1_secs: u64,
    /// Round 2 stall timeout in seconds.
    pub stall_timeout_round2_secs: u64,
    /// Round 3 stall timeout in seconds.
    pub stall_timeout_round3_secs: u64,
    /// Maximum candidates kept for failover.
    pub max_failover_candidates: usize,
    /// Retry limits for transient failures.
    pub retry: RetryLimits,
}

/// Poll interval for pending tickets, when not configured (5 seconds).
pub fn default_acquisition_interval() -> (ms: u64)
    ensures
        ms == 5000,
{
    5000
}

/// Poll interval for download progress, when not configured (3 seconds).
pub fn default_download_interval() -> (ms: u64)
    ensures
        ms == 3000,
{
    3000
}

/// Round 1 stall timeout, when not configured (5 minutes).
pub fn default_stall_timeout_round1() -> (s: u64)
    ensures
        s == 300,
{
    300
}

/// Round 2 stall timeout, when not configured (30 minutes).
pub fn default_stall_timeout_round2() -> (s: u64)
    ensures
        s == 1800,
{
    1800
}

/// Round 3 stall timeout, when not configured (2 hours).
pub fn default_stall_timeout_round3() -> (s: u64)
    ensures
        s == 7200,
{
    7200
}

/// Candidates kept for failover, when not configured.
pub fn default_max_failover_candidates() -> (n: usize)
    ensures
        n == 5,
{
    5
}

impl Default for OrchestratorSettings {
    fn default() -> (c: Self)
        ensures
            !c.enabled,
            c.acquisition_poll_interval_ms == 5000,
            c.download_poll_interval_ms == 3000,
            c.max_concurrent_downloads == 0,
            c.stall_timeout_round1_secs == 300,
            c.stall_timeout_round2_secs == 1800,
            c.stall_timeout_round3_secs == 7200,
            c.max_failover_candidates == 5,
            c.retry.max_attempts == 10,
            c.retry.initial_delay_ms == 5000,
            c.retry.max_delay_ms == 1_800_000,
    {
        OrchestratorSettings {
            enabled: false,
            acquisition_poll_interval_ms: default_acquisition_interval(),
            download_poll_interval_ms: default_download_interval(),
            max_concurrent_downloads: 0,
            stall_timeout_round1_secs: default_stall_timeout_round1(),
            stall_timeout_round2_secs: default_stall_timeout_round2(),
            stall_timeout_round3_secs: default_stall_timeout_round3(),
            max_failover_candidates: default_max_failover_candidates(),
            retry: RetryLimits::default(),
        }
    }
}

impl OrchestratorSettings {
    /// The stall timeouts of the three failover rounds.
    pub fn stall_timeouts(&self) -> (t: StallTimeouts)
        ensures
            t.round1_secs == self.stall_timeout_round1_secs,
            t.round2_secs == self.stall_timeout_round2_secs,
            t.round3_secs == self.stall_timeout_round3_secs,
    {
        StallTimeouts {
            round1_secs: self.stall_timeout_round1_secs,
            round2_secs: self.stall_timeout_round2_secs,
            round3_secs: self.stall_timeout_round3_secs,
        }
    }
}

// ---------------------------------------------------------------------------
// Status and errors
// ---------------------------------------------------------------------------

/// Current status of the orchestrator.
#[derive(Debug, Clone, Copy, PartialEq, Eq)]
pub struct OrchestratorStatus {
    /// Whether the orchestrator is running.
    pub running: bool,
    /// Number of active downloads being tracked.
    pub active_downloads: usize,
    /// Tickets currently being acquired.
    pub acquiring_count: usize,
    /// Tickets waiting for acquisition.
    pub pending_count: usize,
    /// Tickets waiting for approval.
    pub needs_approval_count: usize,
    /// Tickets currently downloading.
    pub downloading_count: usize,
}

impl Default for OrchestratorStatus {
    /// Not running, nothing tracked.
    fn default() -> (s: Self)
        ensures
            !s.running && s.active_downloads == 0 && s.acquiring_count == 0 && s.pending_count
                == 0 && s.needs_approval_count == 0 && s.downloading_count == 0,
    {
        OrchestratorStatus {
            running: false,
            active_downloads: 0,
            acquiring_count: 0,
            pending_count: 0,
            needs_approval_count: 0,
            downloading_count: 0,
        }
    }
}

/// Errors that can occur during orchestration; errors of the collaborating
/// services are carried as their messages.
#[derive(Debug)]
pub enum OrchestratorError {
    /// Ticket not found.
    TicketNotFound(String),
    /// Invalid ticket state for an operation.
    InvalidState { expected: String, actual: String },
    /// Ticket store error.
    TicketStore(String),
    /// Torrent client error.
    TorrentClient(String),
    /// Searcher error.
    Searcher(String),
    /// Pipeline error.
    Pipeline(String),
    /// Query/matching error.
    TextBrain(String),
    /// Missing required data in ticket state.
    MissingData(String),
}

/// The message of an orchestrator error.
pub open spec fn orchestrator_error_message(e: OrchestratorError) -> Seq<char> {
    match e {
        OrchestratorError::TicketNotFound(id) => "ticket not found: "@ + id@,
        OrchestratorError::InvalidState { expected, actual } => "invalid ticket state: expected "@
            + expected@ + ", got "@ + actual@,
        OrchestratorError::TicketStore(m) => "ticket store error: "@ + m@,
        OrchestratorError::TorrentClient(m) => "torrent client error: "@ + m@,
        OrchestratorError::Searcher(m) => "searcher error: "@ + m@,
        OrchestratorError::Pipeline(m) => "pipeline error: "@ + m@,
        OrchestratorError::TextBrain(m) => "textbrain error: "@ + m@,
        OrchestratorError::MissingData(m) => "missing data in ticket: "@ + m@,
    }
}

impl OrchestratorError {
    /// The error message.
    pub fn message(&self) -> (m: String)
        ensures
            m@ == orchestrator_error_message(*self),
    {
        match self {
            OrchestratorError::TicketNotFound(id) => concat2("ticket not found: ", id.as_str()),
            OrchestratorError::InvalidState { expected, actual } => concat4(
                "invalid ticket state: expected ",
                expected.as_str(),
                ", got ",
                actual.as_str(),
            ),
            OrchestratorError::TicketStore(m) => concat2("ticket store error: ", m.as_str()),
            OrchestratorError::TorrentClient(m) => concat2("torrent client error: ", m.as_str()),
            OrchestratorError::Searcher(m) => concat2("searcher error: ", m.as_str()),
            OrchestratorError::Pipeline(m) => concat2("pipeline error: ", m.as_str()),
            OrchestratorError::TextBrain(m) => concat2("textbrain error: ", m.as_str()),
            OrchestratorError::MissingData(m) => concat2("missing data in ticket: ", m.as_str()),
        }
    }
}

} // verus!
