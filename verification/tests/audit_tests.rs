use torrentino_core::audit::{
    build_where_clause, count_sql, query_sql, AuditError, AuditEvent, AuditFilter, AuditRecord,
    TrainingCandidate, TrainingFile, TrainingFileMapping,
};

#[test]
fn filter_defaults() {
    let f = AuditFilter::new();
    assert_eq!(f.limit, 100);
    assert_eq!(f.offset, 0);
    let (clause, params) = build_where_clause(&f);
    assert_eq!(clause, "");
    assert!(params.is_empty());
}

#[test]
fn where_clause_in_field_order() {
    let f = AuditFilter::new()
        .with_user_id("u1".to_string())
        .with_ticket_id("t1".to_string())
        .with_time_range(Some("2024-01-01T00:00:00+00:00".to_string()), None)
        .with_limit(10)
        .with_offset(20);
    let (clause, params) = build_where_clause(&f);
    assert_eq!(clause, "WHERE ticket_id = ? AND user_id = ? AND timestamp >= ?");
    assert_eq!(params, vec!["t1", "u1", "2024-01-01T00:00:00+00:00"]);
    assert_eq!(f.limit, 10);
    assert_eq!(f.offset, 20);
}

#[test]
fn all_conditions() {
    let f = AuditFilter::new()
        .with_ticket_id("t".to_string())
        .with_event_type("ticket_created".to_string())
        .with_user_id("u".to_string())
        .with_time_range(Some("a".to_string()), Some("b".to_string()));
    let (clause, params) = build_where_clause(&f);
    assert_eq!(
        clause,
        "WHERE ticket_id = ? AND event_type = ? AND user_id = ? AND timestamp >= ? AND timestamp <= ?"
    );
    assert_eq!(params.len(), 5);
    assert_eq!(clause.matches('?').count(), params.len());
}

#[test]
fn sql_text() {
    assert_eq!(
        query_sql("WHERE user_id = ?"),
        "SELECT id, timestamp, event_type, ticket_id, user_id, data FROM audit_events WHERE user_id = ? ORDER BY timestamp DESC LIMIT ? OFFSET ?"
    );
    assert_eq!(count_sql(""), "SELECT COUNT(*) FROM audit_events ");
}

#[test]
fn audit_error_messages() {
    assert_eq!(AuditError::Database("x".to_string()).message(), "Database error: x");
    assert_eq!(AuditError::Serialization("y".to_string()).message(), "Serialization error: y");
}

#[test]
fn training_records() {
    let c = TrainingCandidate {
        title: "t".to_string(),
        hash: "h".to_string(),
        size_bytes: 1,
        seeders: 2,
        category: None,
    };
    let f = TrainingFile { path: "p".to_string(), size_bytes: 3 };
    assert_eq!(c.seeders, 2);
    assert_eq!(f.size_bytes, 3);
}

#[test]
fn test_event_type_service_started() {
    let event = AuditEvent::ServiceStarted {
        version: "0.1.0".to_string(),
        config_hash: "abc123".to_string(),
    };
    assert_eq!(event.event_type(), "service_started");
    assert_eq!(event.ticket_id(), None);
    assert_eq!(event.user_id(), None);
}

#[test]
fn test_event_type_service_stopped() {
    let event = AuditEvent::ServiceStopped {
        reason: "shutdown".to_string(),
    };
    assert_eq!(event.event_type(), "service_stopped");
    assert_eq!(event.ticket_id(), None);
    assert_eq!(event.user_id(), None);
}

#[test]
fn test_event_type_ticket_created() {
    let event = AuditEvent::TicketCreated {
        ticket_id: "ticket-123".to_string(),
        requested_by: "user-456".to_string(),
        priority: 100,
        tags: vec!["music".to_string(), "flac".to_string()],
        description: "test description".to_string(),
        dest_path: "/media/test".to_string(),
    };
    assert_eq!(event.event_type(), "ticket_created");
    assert_eq!(event.ticket_id(), Some("ticket-123"));
    assert_eq!(event.user_id(), Some("user-456"));
}

#[test]
fn test_event_type_ticket_state_changed() {
    let event = AuditEvent::TicketStateChanged {
        ticket_id: "ticket-123".to_string(),
        from_state: "pending".to_string(),
        to_state: "searching".to_string(),
        reason: Some("auto-transition".to_string()),
    };
    assert_eq!(event.event_type(), "ticket_state_changed");
    assert_eq!(event.ticket_id(), Some("ticket-123"));
    assert_eq!(event.user_id(), None);
}

#[test]
fn test_event_type_ticket_cancelled() {
    let event = AuditEvent::TicketCancelled {
        ticket_id: "ticket-123".to_string(),
        cancelled_by: "admin".to_string(),
        reason: Some("duplicate request".to_string()),
        previous_state: "pending".to_string(),
    };
    assert_eq!(event.event_type(), "ticket_cancelled");
    assert_eq!(event.ticket_id(), Some("ticket-123"));
    assert_eq!(event.user_id(), Some("admin"));
}

#[test]
fn test_event_type_search_executed() {
    let event = AuditEvent::SearchExecuted {
        user_id: "user-123".to_string(),
        searcher: "jackett".to_string(),
        query: "test query".to_string(),
        indexers_queried: vec!["rutracker".to_string(), "redacted".to_string()],
        results_count: 42,
        duration_ms: 1500,
        indexer_errors: vec![],
    };
    assert_eq!(event.event_type(), "search_executed");
    assert_eq!(event.ticket_id(), None);
    assert_eq!(event.user_id(), Some("user-123"));
}

#[test]
fn test_event_type_indexer_rate_limit_updated() {
    let event = AuditEvent::IndexerRateLimitUpdated {
        user_id: "admin".to_string(),
        indexer: "rutracker".to_string(),
        old_rpm: 10,
        new_rpm: 20,
    };
    assert_eq!(event.event_type(), "indexer_rate_limit_updated");
    assert_eq!(event.ticket_id(), None);
    assert_eq!(event.user_id(), Some("admin"));
}

#[test]
fn test_event_type_indexer_enabled_changed() {
    let event = AuditEvent::IndexerEnabledChanged {
        user_id: "admin".to_string(),
        indexer: "redacted".to_string(),
        enabled: false,
    };
    assert_eq!(event.event_type(), "indexer_enabled_changed");
    assert_eq!(event.ticket_id(), None);
    assert_eq!(event.user_id(), Some("admin"));
}

#[test]
fn test_event_type_torrent_added() {
    let event = AuditEvent::TorrentAdded {
        user_id: "user-123".to_string(),
        hash: "abc123def456".to_string(),
        name: Some("Test Torrent".to_string()),
        source: "magnet".to_string(),
        ticket_id: Some("ticket-789".to_string()),
    };
    assert_eq!(event.event_type(), "torrent_added");
    assert_eq!(event.ticket_id(), Some("ticket-789"));
    assert_eq!(event.user_id(), Some("user-123"));
}

#[test]
fn test_event_type_torrent_added_no_ticket() {
    let event = AuditEvent::TorrentAdded {
        user_id: "user-123".to_string(),
        hash: "abc123def456".to_string(),
        name: None,
        source: "file".to_string(),
        ticket_id: None,
    };
    assert_eq!(event.event_type(), "torrent_added");
    assert_eq!(event.ticket_id(), None);
    assert_eq!(event.user_id(), Some("user-123"));
}

#[test]
fn test_event_type_torrent_removed() {
    let event = AuditEvent::TorrentRemoved {
        user_id: "admin".to_string(),
        hash: "abc123".to_string(),
        name: "Test Torrent".to_string(),
        delete_files: true,
    };
    assert_eq!(event.event_type(), "torrent_removed");
    assert_eq!(event.ticket_id(), None);
    assert_eq!(event.user_id(), Some("admin"));
}

#[test]
fn test_event_type_torrent_paused() {
    let event = AuditEvent::TorrentPaused {
        user_id: "user-1".to_string(),
        hash: "abc123".to_string(),
        name: "Test Torrent".to_string(),
    };
    assert_eq!(event.event_type(), "torrent_paused");
    assert_eq!(event.user_id(), Some("user-1"));
}

#[test]
fn test_event_type_torrent_resumed() {
    let event = AuditEvent::TorrentResumed {
        user_id: "user-1".to_string(),
        hash: "abc123".to_string(),
        name: "Test Torrent".to_string(),
    };
    assert_eq!(event.event_type(), "torrent_resumed");
    assert_eq!(event.user_id(), Some("user-1"));
}

#[test]
fn test_event_type_torrent_limit_changed() {
    let event = AuditEvent::TorrentLimitChanged {
        user_id: "admin".to_string(),
        hash: "abc123".to_string(),
        name: "Test Torrent".to_string(),
        limit_type: "upload".to_string(),
        old_limit: 0,
        new_limit: 1048576,
    };
    assert_eq!(event.event_type(), "torrent_limit_changed");
    assert_eq!(event.user_id(), Some("admin"));
}

#[test]
fn test_event_type_torrent_rechecked() {
    let event = AuditEvent::TorrentRechecked {
        user_id: "user-1".to_string(),
        hash: "abc123".to_string(),
        name: "Test Torrent".to_string(),
    };
    assert_eq!(event.event_type(), "torrent_rechecked");
    assert_eq!(event.user_id(), Some("user-1"));
}

#[test]
fn records_index_events_by_ticket_and_user() {
    let event = AuditEvent::CandidateSelected {
        ticket_id: "t-1".to_string(),
        selected_by: "auto".to_string(),
        hash: "h".to_string(),
        title: "x".to_string(),
        score: 91,
        auto_selected: true,
    };
    let record = AuditRecord::for_event("2024-05-01T10:00:00+00:00".to_string(), event);
    assert_eq!(record.id, 0);
    assert_eq!(record.event_type, "candidate_selected");
    assert_eq!(record.ticket_id, Some("t-1".to_string()));
    assert_eq!(record.user_id, Some("auto".to_string()));

    let event = AuditEvent::LlmCallStarted {
        ticket_id: None,
        purpose: "scoring".to_string(),
        provider: "p".to_string(),
        model: "m".to_string(),
    };
    assert_eq!(event.event_type(), "llm_call_started");
    assert_eq!(event.ticket_id(), None);
    assert_eq!(event.user_id(), None);
}

#[test]
fn training_events_carry_score_bits() {
    let event = AuditEvent::TrainingFileMappingContext {
        sample_id: "s".to_string(),
        ticket_id: "t".to_string(),
        input_expected: "{}".to_string(),
        input_files: vec![TrainingFile { path: "a.flac".to_string(), size_bytes: 1 }],
        output_mappings: vec![TrainingFileMapping {
            file_path: "a.flac".to_string(),
            item_id: "track-1".to_string(),
            confidence: 0.9f32.to_bits(),
        }],
        quality: 0.75f32.to_bits(),
    };
    assert_eq!(event.event_type(), "training_file_mapping_context");
    assert_eq!(event.ticket_id(), Some("t"));
    match event {
        AuditEvent::TrainingFileMappingContext { quality, .. } => assert_eq!(f32::from_bits(quality), 0.75),
        _ => unreachable!(),
    }
}
