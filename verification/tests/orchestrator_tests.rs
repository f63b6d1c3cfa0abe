use torrentino_core::orchestrator::{
    acquisition_start_change, acquisition_step, download_start_step, AcquisitionEvent,
    AcquisitionStep, DownloadStartEvent, DownloadStartStep,
    default_acquisition_interval, default_download_interval, default_initial_delay_ms,
    default_max_attempts, default_max_delay_ms, default_max_failover_candidates,
    default_stall_timeout_round1, default_stall_timeout_round2, default_stall_timeout_round3,
    all_candidates_failed, decide_acquisition, decide_failure, decide_stall,
    download_slot_available, exhausted_stall_message, get_stall_timeout, is_missing_torrent_error,
    is_retryable_error, is_stalled, AcquisitionDecision, FailureDecision, OrchestratorError,
    OrchestratorSettings, OrchestratorStatus, RetryLimits, StallDecision, StallTimeouts,
};

#[test]
fn runner_test_orchestrator_status_default() {
    let status = OrchestratorStatus::default();
    assert!(!status.running);
    assert_eq!(status.active_downloads, 0);
}

#[test]
fn types_test_orchestrator_status_default() {
    let status = OrchestratorStatus::default();
    assert!(!status.running);
    assert_eq!(status.active_downloads, 0);
    assert_eq!(status.pending_count, 0);
}

#[test]
fn test_error_display() {
    let err = OrchestratorError::TicketNotFound("ticket-456".to_string());
    assert_eq!(err.message(), "ticket not found: ticket-456");
    let err = OrchestratorError::InvalidState {
        expected: "Pending".to_string(),
        actual: "Completed".to_string(),
    };
    assert_eq!(err.message(), "invalid ticket state: expected Pending, got Completed");
}

#[test]
fn test_retryable_network_errors() {
    assert!(is_retryable_error("Connection refused"));
    assert!(is_retryable_error("connection reset by peer"));
    assert!(is_retryable_error("Network unreachable"));
    assert!(is_retryable_error("DNS lookup failed"));
    assert!(is_retryable_error("Request timeout"));
    assert!(is_retryable_error("Operation timed out"));
}

#[test]
fn test_retryable_server_errors() {
    assert!(is_retryable_error("HTTP 500 Internal Server Error"));
    assert!(is_retryable_error("502 Bad Gateway"));
    assert!(is_retryable_error("503 Service Unavailable"));
    assert!(is_retryable_error("504 Gateway Timeout"));
    assert!(is_retryable_error("Service temporarily unavailable"));
}

#[test]
fn test_retryable_rate_limit_errors() {
    assert!(is_retryable_error("429 Too Many Requests"));
    assert!(is_retryable_error("Rate limit exceeded"));
    assert!(is_retryable_error("Too many requests, please slow down"));
}

#[test]
fn test_permanent_not_found_errors() {
    assert!(!is_retryable_error("No candidates found"));
    assert!(!is_retryable_error("No suitable candidates found"));
    assert!(!is_retryable_error("404 Not Found"));
}

#[test]
fn test_permanent_auth_errors() {
    assert!(!is_retryable_error("401 Unauthorized"));
    assert!(!is_retryable_error("403 Forbidden"));
    assert!(!is_retryable_error("Authentication failed"));
}

#[test]
fn test_permanent_invalid_errors() {
    assert!(!is_retryable_error("Invalid torrent file"));
    assert!(!is_retryable_error("Invalid configuration"));
}

#[test]
fn test_unknown_errors_not_retryable() {
    assert!(!is_retryable_error("Some unknown error"));
    assert!(!is_retryable_error("Unexpected failure"));
}

#[test]
fn test_case_insensitive() {
    assert!(is_retryable_error("CONNECTION REFUSED"));
    assert!(is_retryable_error("Timeout"));
    assert!(is_retryable_error("ECONNRESET"));
}

#[test]
fn test_should_retry() {
    let config = RetryLimits { max_attempts: 3, initial_delay_ms: 1000, max_delay_ms: 10000 };
    assert!(config.should_retry(0));
    assert!(config.should_retry(1));
    assert!(config.should_retry(2));
    assert!(!config.should_retry(3));
    assert!(!config.should_retry(4));
}

#[test]
fn retry_attempt_allowed_up_to_max() {
    let config = RetryLimits { max_attempts: 3, initial_delay_ms: 1000, max_delay_ms: 10000 };
    assert!(config.attempt_allowed(3));
    assert!(!config.attempt_allowed(4));
}

#[test]
fn orchestrator_settings_default() {
    let config = OrchestratorSettings::default();
    assert!(!config.enabled);
    assert_eq!(config.acquisition_poll_interval_ms, 5000);
    assert_eq!(config.download_poll_interval_ms, 3000);
    assert_eq!(config.max_concurrent_downloads, 0);
    assert_eq!(config.stall_timeout_round1_secs, 300);
    assert_eq!(config.stall_timeout_round2_secs, 1800);
    assert_eq!(config.stall_timeout_round3_secs, 7200);
    assert_eq!(config.max_failover_candidates, 5);
    assert_eq!(config.retry.max_attempts, 10);
    assert_eq!(config.retry.initial_delay_ms, 5000);
    assert_eq!(config.retry.max_delay_ms, 1800000);
    let t = config.stall_timeouts();
    assert_eq!(get_stall_timeout(&t, 1), 300);
    assert_eq!(get_stall_timeout(&t, 2), 1800);
    assert_eq!(get_stall_timeout(&t, 3), 7200);
    assert_eq!(get_stall_timeout(&t, 9), 7200);
}

#[test]
fn stall_failover_walks_candidates_then_rounds() {
    assert_eq!(decide_stall(0, 1, 0), StallDecision::NoCandidates);
    assert_eq!(decide_stall(0, 1, 3), StallDecision::Failover { next_idx: 1, next_round: 1 });
    assert_eq!(decide_stall(2, 1, 3), StallDecision::Failover { next_idx: 0, next_round: 2 });
    assert_eq!(decide_stall(2, 3, 3), StallDecision::Exhausted);
}

#[test]
fn failover_visits_every_candidate_in_every_round() {
    let n = 4usize;
    let (mut idx, mut round) = (0usize, 1u8);
    let mut steps = 0;
    loop {
        match decide_stall(idx, round, n) {
            StallDecision::Failover { next_idx, next_round } => {
                idx = next_idx;
                round = next_round;
                steps += 1;
            }
            StallDecision::Exhausted => break,
            StallDecision::NoCandidates => panic!("candidates exist"),
        }
    }
    assert_eq!(steps, 3 * n - 1);
}

#[test]
fn exhausted_message_counts_hours() {
    let t = StallTimeouts { round1_secs: 300, round2_secs: 1800, round3_secs: 7200 };
    assert_eq!(
        exhausted_stall_message(3, &t),
        "Download stalled: tried 3 candidates over 3 rounds (~7 hours)"
    );
}

#[test]
fn failure_decisions() {
    let limits = RetryLimits::default();
    assert_eq!(decide_failure("Connection refused", 0, &limits), FailureDecision::Retry { attempt: 1 });
    assert_eq!(decide_failure("Connection refused", 10, &limits), FailureDecision::Fail);
    assert_eq!(decide_failure("404 Not Found", 0, &limits), FailureDecision::Fail);
}

#[test]
fn acquisition_decisions() {
    assert_eq!(
        decide_acquisition(true, true, 12, 5),
        AcquisitionDecision::AutoApprove { failover_candidates: 5 }
    );
    assert_eq!(
        decide_acquisition(true, true, 2, 5),
        AcquisitionDecision::AutoApprove { failover_candidates: 2 }
    );
    assert_eq!(
        decide_acquisition(false, true, 9, 5),
        AcquisitionDecision::NeedsApproval { review_candidates: 5 }
    );
    assert_eq!(
        decide_acquisition(true, false, 0, 5),
        AcquisitionDecision::Failed { reason: "No candidates found".to_string() }
    );
    assert_eq!(
        decide_acquisition(false, false, 0, 5),
        AcquisitionDecision::Failed { reason: "No suitable candidates found".to_string() }
    );
}

#[test]
fn download_slots() {
    assert!(download_slot_available(0, 100));
    assert!(download_slot_available(3, 2));
    assert!(!download_slot_available(3, 3));
}

#[test]
fn candidate_failure_message() {
    assert_eq!(
        all_candidates_failed(2, "timeout"),
        "All 2 candidates failed to add. Last error: timeout"
    );
}

#[test]
fn missing_torrent_errors() {
    assert!(is_missing_torrent_error("Torrent NOT FOUND"));
    assert!(is_missing_torrent_error("HTTP 404"));
    assert!(is_missing_torrent_error("no such torrent"));
    assert!(!is_missing_torrent_error("connection refused"));
}

#[test]
fn stall_detection() {
    assert!(is_stalled(301, 300));
    assert!(!is_stalled(300, 300));
    assert!(!is_stalled(-5, 0));
}

#[test]
fn orchestrator_default_values() {
    assert_eq!(default_acquisition_interval(), 5000);
    assert_eq!(default_download_interval(), 3000);
    assert_eq!(default_initial_delay_ms(), 5000);
    assert_eq!(default_max_attempts(), 10);
    assert_eq!(default_max_delay_ms(), 1_800_000);
    assert_eq!(default_max_failover_candidates(), 5);
    assert_eq!(default_stall_timeout_round1(), 300);
    assert_eq!(default_stall_timeout_round2(), 1800);
    assert_eq!(default_stall_timeout_round3(), 7200);
}

fn limits() -> RetryLimits {
    RetryLimits { max_attempts: 3, initial_delay_ms: 1000, max_delay_ms: 10000 }
}

fn finished(auto_approved: bool, has_best: bool, n: usize) -> AcquisitionEvent {
    AcquisitionEvent::Finished { auto_approved, has_best, num_candidates: n, score_text: "0.91".to_string() }
}

#[test]
fn acquisition_outcomes_move_the_ticket() {
    let start = acquisition_start_change();
    assert_eq!((start.from_state.as_str(), start.to_state.as_str()), ("pending", "acquiring"));
    assert_eq!(start.reason, "Starting acquisition");

    let (step, c) = acquisition_step(finished(true, true, 8), &limits(), 5);
    assert_eq!(step, AcquisitionStep::AutoApprove { failover_candidates: 5 });
    assert_eq!(c.to_state, "auto_approved");
    assert_eq!(c.reason, "Auto-approved with score 0.91");

    let (step, c) = acquisition_step(finished(false, true, 3), &limits(), 5);
    assert_eq!(step, AcquisitionStep::NeedsApproval { review_candidates: 3 });
    assert_eq!(c.to_state, "needs_approval");
    assert_eq!(c.reason, "Best score 0.91 below threshold");

    let (step, c) = acquisition_step(finished(true, false, 0), &limits(), 5);
    assert_eq!(step, AcquisitionStep::AcquisitionFailed);
    assert_eq!(c.reason, "No candidates found");
    let (_, c) = acquisition_step(finished(false, false, 0), &limits(), 5);
    assert_eq!(c.to_state, "acquisition_failed");
    assert_eq!(c.reason, "No suitable candidates found");
}

#[test]
fn acquisition_errors_retry_or_fail() {
    let (step, c) = acquisition_step(
        AcquisitionEvent::Errored { error: "connection timeout".to_string(), retry_count: 1 },
        &limits(),
        5,
    );
    assert_eq!(step, AcquisitionStep::ScheduleRetry { attempt: 2 });
    assert_eq!(c.to_state, "pending_retry");
    assert_eq!(c.reason, "Transient error, scheduling retry: connection timeout");

    let (step, c) = acquisition_step(
        AcquisitionEvent::Errored { error: "connection timeout".to_string(), retry_count: 3 },
        &limits(),
        5,
    );
    assert_eq!(step, AcquisitionStep::AcquisitionFailed);
    assert_eq!(c.reason, "connection timeout");

    let (step, _) = acquisition_step(
        AcquisitionEvent::Errored { error: "No results".to_string(), retry_count: 0 },
        &limits(),
        5,
    );
    assert_eq!(step, AcquisitionStep::AcquisitionFailed);
}

#[test]
fn download_start_outcomes() {
    let (step, c) = download_start_step(
        "auto_approved",
        DownloadStartEvent::Added { info_hash: "abc".to_string() },
        &limits(),
    );
    assert_eq!(step, DownloadStartStep::Downloading);
    assert_eq!((c.from_state.as_str(), c.to_state.as_str()), ("auto_approved", "downloading"));
    assert_eq!(c.reason, "Started download: abc");

    let (step, c) = download_start_step(
        "approved",
        DownloadStartEvent::AllFailed { num_candidates: 2, last_error: "503 service unavailable".to_string(), retry_count: 0 },
        &limits(),
    );
    assert_eq!(step, DownloadStartStep::ScheduleRetry { attempt: 1 });
    assert_eq!(
        c.reason,
        "Transient error, scheduling retry: All 2 candidates failed to add. Last error: 503 service unavailable"
    );

    let (step, c) = download_start_step(
        "approved",
        DownloadStartEvent::AllFailed { num_candidates: 1, last_error: "invalid torrent".to_string(), retry_count: 0 },
        &limits(),
    );
    assert_eq!(step, DownloadStartStep::Failed);
    assert_eq!(c.to_state, "failed");
    assert_eq!(c.reason, "All 1 candidates failed to add. Last error: invalid torrent");
}
