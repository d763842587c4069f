use golive::migrations::pending_migrations;
use golive::errors::AppError;
use golive::media::memory::MemoryMediaFiles;
use golive::media::MediaStorage;
use golive::repositories::project::MemoryProjectRepository;
use golive::services::project::ProjectService;
use golive::models::capture::CaptureType;
use golive::models::process::ProcessStatus;
use golive::text::{decimal_string, trim_str};

#[test]
fn every_error_has_its_code_and_message() {
    let cases = vec![
        (AppError::Storage, "storage_unavailable", "Local application storage is unavailable. Try restarting GoLive."),
        (AppError::Database, "database_error", "A local database operation failed."),
        (AppError::Migration, "migration_error", "GoLive's local database could not be prepared."),
        (AppError::Validation("v".to_string()), "validation_error", "v"),
        (AppError::NotFound, "not_found", "The requested item could not be found."),
        (AppError::Capture("c".to_string()), "capture_error", "c"),
        (AppError::Credential("k".to_string()), "credential_error", "k"),
        (AppError::Network("n".to_string()), "network_error", "n"),
        (AppError::Ai("a".to_string()), "ai_error", "a"),
        (AppError::Export("e".to_string()), "export_error", "e"),
    ];
    for (error, code, message) in cases {
        assert_eq!(error.code(), code);
        assert_eq!(error.message(), message);
    }
}

#[test]
fn statuses_and_capture_types_round_trip_through_their_strings() {
    for status in [ProcessStatus::Draft, ProcessStatus::InProgress, ProcessStatus::Completed] {
        assert_eq!(ProcessStatus::parse(status.as_str()), Some(status));
    }
    assert_eq!(ProcessStatus::InProgress.as_str(), "in_progress");
    assert_eq!(ProcessStatus::parse("IN_PROGRESS"), None);
    assert_eq!(ProcessStatus::parse(""), None);
    for t in [CaptureType::Screenshot, CaptureType::Recording, CaptureType::Note] {
        assert_eq!(CaptureType::parse(t.as_str()), Some(t));
    }
    assert_eq!(CaptureType::Note.as_str(), "note");
    assert_eq!(CaptureType::parse("video"), None);
}

#[test]
fn fresh_ids_are_canonical_uuids_and_differ() {
    let mut service = ProjectService::new(MemoryProjectRepository::new());
    let a = service.create("A", None).unwrap().id;
    let b = service.create("B", None).unwrap().id;
    assert_ne!(a, b);
    assert_eq!(a.len(), 36);
    assert_eq!(a, a.to_lowercase());
    let media = MediaStorage::new(MemoryMediaFiles::new());
    assert_eq!(media.screenshot_path(&a).unwrap(), format!("{a}.png"));
    assert!(matches!(media.screenshot_path("not-a-uuid"), Err(AppError::Validation(_))));
    assert!(media.screenshot_path("{67e55044-10b1-426f-9247-bb680e5fe0c8}").is_ok());
    assert!(media.screenshot_path("67e5504410b1426f9247bb680e5fe0c8").is_ok());
}

#[test]
fn trimming_removes_unicode_whitespace_at_both_ends_only() {
    assert_eq!(trim_str("\u{3000} a b \t\n"), "a b");
    assert_eq!(trim_str("   "), "");
    assert_eq!(trim_str("x"), "x");
}

#[test]
fn numbers_are_written_in_decimal() {
    assert_eq!(decimal_string(0), "0");
    assert_eq!(decimal_string(61), "61");
    assert_eq!(decimal_string(u64::MAX), u64::MAX.to_string());
}

#[test]
fn only_migrations_newer_than_the_schema_are_pending() {
    assert_eq!(pending_migrations(0, &vec![1, 2, 3]), vec![0, 1, 2]);
    assert_eq!(pending_migrations(1, &vec![1, 2, 3]), vec![1, 2]);
    assert_eq!(pending_migrations(3, &vec![1, 2, 3]), Vec::<usize>::new());
}
