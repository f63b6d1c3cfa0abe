use torrentino_core::placer::{
    check_placement, checksum_hex, sources_to_remove, checksum_kind_for, verify_copy, rollback_directory_order, rollback_failure, should_roll_back, use_atomic_move,
    ChecksumType, FilePlacement, FsPlacer, PlacedFile, PlacementJob, PlacementResult, PlacerConfig, PlacerError, RollbackPlan,
    RollbackResult,
};

#[test]
fn config_test_default_config() {
    let config = PlacerConfig::default();
    assert_eq!(config.buffer_size, 8 * 1024 * 1024);
    assert!(config.prefer_atomic_moves);
    assert!(!config.verify_checksums);
    assert!(config.create_parents);
}

#[test]
fn config_test_config_builder() {
    let config = PlacerConfig::default()
        .with_atomic_moves(false)
        .with_checksum_verification(true)
        .with_cleanup(true)
        .with_buffer_size(1024 * 1024);
    assert!(!config.prefer_atomic_moves);
    assert!(config.verify_checksums);
    assert!(config.cleanup_sources);
    assert_eq!(config.buffer_size, 1024 * 1024);
}

#[test]
fn placer_backup_dir_and_defaults() {
    let config = PlacerConfig::default().with_backup_dir("/backup".to_string());
    assert_eq!(config.backup_dir, Some("/backup".to_string()));
    let placer = FsPlacer::with_defaults();
    assert_eq!(placer.config.max_parallel_operations, 4);
    assert_eq!(placer.config.directory_mode, 0o755);
}

#[test]
fn test_rollback_plan_new() {
    let plan = RollbackPlan::new("job-1".to_string());
    assert_eq!(plan.job_id, "job-1");
    assert!(plan.placed_files.is_empty());
    assert!(plan.created_directories.is_empty());
    assert!(!plan.has_changes());
}

#[test]
fn test_rollback_plan_record() {
    let mut plan = RollbackPlan::new("job-1".to_string());
    plan.record_placement("/dest/file.mp3".to_string(), Some("/src/file.mp3".to_string()), 1024);
    plan.record_directory("/dest".to_string());
    assert!(plan.has_changes());
    assert_eq!(plan.placed_files.len(), 1);
    assert_eq!(plan.created_directories.len(), 1);
}

fn placement(overwrite: bool) -> FilePlacement {
    FilePlacement {
        item_id: "track-1".to_string(),
        source: "/tmp/converted.mp3".to_string(),
        destination: "/music/album/01-song.mp3".to_string(),
        overwrite,
        verify_checksum: Some(ChecksumType::Sha256),
    }
}

#[test]
fn test_placement_job() {
    let job = PlacementJob {
        job_id: "job-1".to_string(),
        files: vec![placement(false)],
        atomic: true,
        cleanup_sources: true,
        enable_rollback: true,
    };
    assert_eq!(job.files.len(), 1);
    assert!(job.atomic);
}

#[test]
fn rollback_removes_directories_child_first_once() {
    let mut plan = RollbackPlan::new("job".to_string());
    plan.record_directory("/a".to_string());
    plan.record_directory("/a/b".to_string());
    plan.record_directory("/a".to_string());
    plan.record_directory("/a/b/c".to_string());
    assert_eq!(rollback_directory_order(&plan), vec!["/a/b/c", "/a", "/a/b"]);
}

#[test]
fn placement_checks() {
    assert!(matches!(
        check_placement(&placement(false), false, false),
        Err(PlacerError::SourceNotFound { .. })
    ));
    assert!(matches!(
        check_placement(&placement(false), true, true),
        Err(PlacerError::DestinationExists { .. })
    ));
    assert!(check_placement(&placement(true), true, true).is_ok());
    assert!(check_placement(&placement(false), true, false).is_ok());
}

fn job(atomic: bool, cleanup_sources: bool) -> PlacementJob {
    PlacementJob {
        job_id: "job-1".to_string(),
        files: vec![placement(false)],
        atomic,
        cleanup_sources,
        enable_rollback: true,
    }
}

#[test]
fn atomic_moves_only_when_asked_and_sources_go() {
    let config = PlacerConfig::default();
    assert!(use_atomic_move(&config, &job(true, true)));
    assert!(!use_atomic_move(&config, &job(false, true)));
    assert!(!use_atomic_move(&config, &job(true, false)));
    assert!(!use_atomic_move(&config.with_atomic_moves(false), &job(true, true)));
}

#[test]
fn checksum_kind_is_the_requested_one() {
    let mut p = placement(false);
    p.verify_checksum = Some(ChecksumType::Md5);
    assert_eq!(checksum_kind_for(&p), Some(ChecksumType::Md5));
    p.verify_checksum = Some(ChecksumType::Sha256);
    assert_eq!(checksum_kind_for(&p), Some(ChecksumType::Sha256));
    p.verify_checksum = None;
    assert_eq!(checksum_kind_for(&p), None);
}

#[test]
fn copies_are_verified_against_their_source() {
    assert_eq!(
        verify_copy(ChecksumType::Md5, b"abc", b"abc", "/m/a").unwrap(),
        "900150983cd24fb0d6963f7d28e17f72"
    );
    match verify_copy(ChecksumType::Md5, b"abc", b"abd", "/m/a") {
        Err(PlacerError::ChecksumMismatch { path, expected, actual }) => {
            assert_eq!(path, "/m/a");
            assert_eq!(expected, "900150983cd24fb0d6963f7d28e17f72");
            assert_ne!(actual, expected);
        }
        other => panic!("expected a checksum mismatch, got {:?}", other),
    }
    assert!(verify_copy(ChecksumType::Sha256, b"", b"", "/m/e").is_ok());
}

#[test]
fn placement_result_sums_the_placed_sizes() {
    let placed = vec![
        PlacedFile { item_id: "a".to_string(), destination: "/m/a".to_string(), size_bytes: 10, checksum: None },
        PlacedFile { item_id: "b".to_string(), destination: "/m/b".to_string(), size_bytes: 32, checksum: None },
    ];
    let r = PlacementResult::from_placed("job".to_string(), placed, 7);
    assert_eq!(r.job_id, "job");
    assert_eq!(r.total_bytes, 42);
    assert_eq!(r.files_placed.len(), 2);
    assert_eq!(r.duration_ms, 7);
    assert_eq!(PlacementResult::from_placed("e".to_string(), vec![], 0).total_bytes, 0);
}

#[test]
fn checksums_of_known_bytes() {
    assert_eq!(
        checksum_hex(ChecksumType::Sha256, b"abc"),
        "ba7816bf8f01cfea414140de5dae2223b00361a396177a9cb410ff61f20015ad"
    );
    assert_eq!(checksum_hex(ChecksumType::Md5, b"abc"), "900150983cd24fb0d6963f7d28e17f72");
    assert_eq!(
        checksum_hex(ChecksumType::Sha256, b""),
        "e3b0c44298fc1c149afbf4c8996fb92427ae41e4649b934ca495991b7852b855"
    );
    assert_eq!(checksum_hex(ChecksumType::Md5, b""), "d41d8cd98f00b204e9800998ecf8427e");
}

#[test]
fn rollback_only_when_enabled_and_changed() {
    let mut plan = RollbackPlan::new("j".to_string());
    let job = PlacementJob {
        job_id: "j".to_string(),
        files: vec![],
        atomic: true,
        cleanup_sources: false,
        enable_rollback: true,
    };
    assert!(!should_roll_back(&job, &plan));
    plan.record_directory("/x".to_string());
    assert!(should_roll_back(&job, &plan));
}

#[test]
fn rollback_failure_joins_errors() {
    let ok = RollbackResult::summarize("j".to_string(), 1, 0, vec![]);
    assert!(ok.success);
    assert!(rollback_failure(&ok).is_none());
    let bad = RollbackResult::summarize("j".to_string(), 0, 0, vec!["e1".to_string(), "e2".to_string()]);
    assert!(!bad.success);
    match rollback_failure(&bad) {
        Some(PlacerError::RollbackFailed { reason }) => assert_eq!(reason, "e1, e2"),
        _ => panic!("expected a rollback failure"),
    }
}

#[test]
fn placer_error_messages_and_flags() {
    let e = PlacerError::DestinationExists { path: "/x".to_string() };
    assert_eq!(e.message(), Some("Destination already exists: /x".to_string()));
    assert!(!e.is_retryable());
    let e = PlacerError::PartialFailure { files_placed: 3, reason: "disk".to_string() };
    assert!(e.requires_rollback());
    assert_eq!(
        e.message(),
        Some("Placement failed after 3 files, rollback required: disk".to_string())
    );
    let e = PlacerError::InsufficientSpace { path: "/m".to_string(), required_bytes: 10, available_bytes: 2 };
    assert_eq!(e.message(), Some("Insufficient disk space at /m: need 10 bytes, have 2".to_string()));
    let io = std::io::Error::new(std::io::ErrorKind::Other, "x");
    let e = PlacerError::copy_failed("a".to_string(), "b".to_string(), io);
    assert!(e.is_retryable());
    assert_eq!(e.message(), Some("Failed to copy file from a to b".to_string()));
}

#[test]
fn placer_name_is_fs() {
    assert_eq!(FsPlacer::with_defaults().name(), "fs");
}

#[test]
fn move_failure_is_retryable() {
    let io = std::io::Error::new(std::io::ErrorKind::Other, "cross-device");
    let e = PlacerError::move_failed("/a".to_string(), "/b".to_string(), io);
    assert!(e.is_retryable());
    assert!(!e.requires_rollback());
    assert_eq!(e.message(), Some("Failed to move file from /a to /b".to_string()));
}

#[test]
fn sources_removed_once_each_when_cleaning_up() {
    let mut j = job(true, true);
    let mut second = placement(false);
    second.source = "/tmp/other.mp3".to_string();
    j.files = vec![placement(false), second, placement(true)];
    assert_eq!(sources_to_remove(&j), vec!["/tmp/converted.mp3".to_string(), "/tmp/other.mp3".to_string()]);
    j.cleanup_sources = false;
    assert!(sources_to_remove(&j).is_empty());
}
