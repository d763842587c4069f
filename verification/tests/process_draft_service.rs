use golive::ai::{AiService, ProcessDraft, ProcessDraftRequest, ProcessDraftStep};
use golive::credentials::{CredentialStore, MemoryCredentialStore};
use golive::errors::AppError;
use golive::media::memory::MemoryMediaFiles;
use golive::media::{MediaFiles, MediaStorage};
use golive::models::capture::{Capture, CaptureType};
use golive::models::process::{Process, ProcessStatus};
use golive::repositories::capture::{CaptureRepository, MemoryCaptureRepository};
use golive::repositories::process::{MemoryProcessRepository, ProcessRepository};
use golive::repositories::process_version::{MemoryProcessVersionRepository, ProcessVersionRepository};
use golive::services::process_draft::{ProcessDraftService, MAX_CAPTURES};
use std::sync::{Arc, Mutex};

type RecordedCaptureIds = Arc<Mutex<Option<Vec<String>>>>;

struct RecordingAiService {
    recorded: RecordedCaptureIds,
}

impl RecordingAiService {
    fn new_with_handle() -> (Self, RecordedCaptureIds) {
        let recorded: RecordedCaptureIds = Arc::new(Mutex::new(None));
        (Self { recorded: recorded.clone() }, recorded)
    }
    fn new() -> Self {
        Self::new_with_handle().0
    }
}

impl AiService for RecordingAiService {
    fn generate_process_draft(&self, _api_key: &str, request: &ProcessDraftRequest) -> Result<ProcessDraft, AppError> {
        *self.recorded.lock().unwrap() = Some(request.captures.iter().map(|c| c.id.clone()).collect());
        Ok(ProcessDraft {
            summary: "generated".to_string(),
            steps: vec![ProcessDraftStep {
                title: "Step".to_string(),
                description: "Desc".to_string(),
                capture_ids: vec![],
            }],
        })
    }
}

fn sample_process() -> Process {
    Process {
        id: "proc-1".to_string(),
        project_id: "proj-1".to_string(),
        name: "Kickoff call".to_string(),
        description: "First client call".to_string(),
        status: ProcessStatus::InProgress,
        created_at: 0,
        updated_at: 0,
    }
}

fn sample_capture(id: &str, created_at: i64) -> Capture {
    Capture {
        id: id.to_string(),
        process_id: "proc-1".to_string(),
        capture_type: CaptureType::Note,
        title: format!("Capture {id}"),
        description: "".to_string(),
        created_at,
        updated_at: created_at,
    }
}

type Service<A> = ProcessDraftService<
    A,
    MemoryCredentialStore,
    MemoryProcessRepository,
    MemoryCaptureRepository,
    MemoryProcessVersionRepository,
    MemoryMediaFiles,
>;

fn build_service_with_files<A: AiService>(
    key: Option<&'static str>,
    process: Option<Process>,
    captures: Vec<Capture>,
    ai: A,
    files: MemoryMediaFiles,
) -> Service<A> {
    let mut credentials = MemoryCredentialStore::new();
    if let Some(k) = key {
        credentials.save_api_key(k).unwrap();
    }
    let mut processes = MemoryProcessRepository::new();
    if let Some(p) = process {
        processes.create(&p).unwrap();
    }
    let mut capture_repo = MemoryCaptureRepository::new();
    for c in &captures {
        capture_repo.create(c).unwrap();
    }
    ProcessDraftService::new(
        ai,
        credentials,
        processes,
        capture_repo,
        MemoryProcessVersionRepository::new(),
        MediaStorage::new(files),
    )
}

fn build_service<A: AiService>(
    key: Option<&'static str>,
    process: Option<Process>,
    captures: Vec<Capture>,
    ai: A,
) -> Service<A> {
    build_service_with_files(key, process, captures, ai, MemoryMediaFiles::new())
}

#[test]
fn generate_rejects_when_no_api_key_is_saved() {
    let mut service = build_service(None, Some(sample_process()), vec![sample_capture("c1", 1)], RecordingAiService::new());
    let result = service.generate("proc-1");
    assert!(matches!(result, Err(AppError::Validation(_))));
}

#[test]
fn generate_rejects_a_missing_process() {
    let mut service = build_service(Some("sk-test"), None, vec![sample_capture("c1", 1)], RecordingAiService::new());
    let result = service.generate("proc-1");
    assert!(matches!(result, Err(AppError::NotFound)));
}

#[test]
fn generate_rejects_a_process_with_no_captures() {
    let mut service = build_service(Some("sk-test"), Some(sample_process()), vec![], RecordingAiService::new());
    let result = service.generate("proc-1");
    assert!(matches!(result, Err(AppError::Validation(_))));
}

#[test]
fn generate_rejects_more_than_the_max_capture_count() {
    let captures: Vec<Capture> =
        (0..(MAX_CAPTURES + 1) as i64).map(|i| sample_capture(&format!("c{i}"), i)).collect();
    let mut service = build_service(Some("sk-test"), Some(sample_process()), captures, RecordingAiService::new());
    let result = service.generate("proc-1");
    assert!(matches!(result, Err(AppError::Validation(_))));
}

#[test]
fn generate_sorts_captures_chronologically_before_sending() {
    let captures = vec![sample_capture("newest", 300), sample_capture("oldest", 100), sample_capture("middle", 200)];
    let (ai, recorded) = RecordingAiService::new_with_handle();
    let mut service = build_service(Some("sk-test"), Some(sample_process()), captures, ai);

    service.generate("proc-1").expect("generate");

    assert_eq!(
        recorded.lock().unwrap().clone(),
        Some(vec!["oldest".to_string(), "middle".to_string(), "newest".to_string()]),
        "captures must be sent oldest-created first, not in the repository's own updated_at-DESC order"
    );
}

#[test]
fn generate_returns_the_persisted_version_wrapping_the_ai_services_draft() {
    let mut service =
        build_service(Some("sk-test"), Some(sample_process()), vec![sample_capture("c1", 1)], RecordingAiService::new());
    let version = service.generate("proc-1").expect("generate");
    assert_eq!(version.process_id, "proc-1");
    assert!(!version.id.is_empty());
    assert_eq!(version.content.steps.len(), 1);
    assert_eq!(version.content.steps[0].title, "Step");
}

#[test]
fn generate_persists_a_version_the_repository_can_retrieve() {
    let mut service =
        build_service(Some("sk-test"), Some(sample_process()), vec![sample_capture("c1", 1)], RecordingAiService::new());
    let version = service.generate("proc-1").expect("generate");

    let fetched = service.versions().get(&version.id).expect("get").expect("version should be persisted");
    assert_eq!(fetched, version);
}

#[test]
fn generate_never_overwrites_a_previous_version_each_call_is_a_new_one() {
    let mut service =
        build_service(Some("sk-test"), Some(sample_process()), vec![sample_capture("c1", 1)], RecordingAiService::new());

    let first = service.generate("proc-1").expect("first generate");
    let second = service.generate("proc-1").expect("second generate");

    assert_ne!(first.id, second.id, "each generation must get its own id, never reusing one");
    let listed = service.versions().list_by_process("proc-1").expect("list");
    assert_eq!(listed.len(), 2, "both versions must remain retrievable — neither call may overwrite the other");
}

#[test]
fn list_versions_delegates_to_the_repository() {
    let mut service =
        build_service(Some("sk-test"), Some(sample_process()), vec![sample_capture("c1", 1)], RecordingAiService::new());
    service.generate("proc-1").expect("generate");
    service.generate("proc-1").expect("generate again");

    let listed = service.list_versions("proc-1").expect("list_versions");
    assert_eq!(listed.len(), 2);
}

#[test]
fn list_versions_for_a_process_with_none_is_empty() {
    let service =
        build_service(Some("sk-test"), Some(sample_process()), vec![sample_capture("c1", 1)], RecordingAiService::new());
    assert!(service.list_versions("no-such-process").expect("list_versions").is_empty());
}

#[test]
fn get_version_returns_a_persisted_version() {
    let mut service =
        build_service(Some("sk-test"), Some(sample_process()), vec![sample_capture("c1", 1)], RecordingAiService::new());
    let created = service.generate("proc-1").expect("generate");

    let fetched = service.get_version(&created.id).expect("get_version");
    assert_eq!(fetched, created);
}

#[test]
fn get_version_returns_not_found_for_a_missing_id() {
    let service =
        build_service(Some("sk-test"), Some(sample_process()), vec![sample_capture("c1", 1)], RecordingAiService::new());
    let result = service.get_version("does-not-exist");
    assert!(matches!(result, Err(AppError::NotFound)));
}

#[test]
fn get_latest_version_returns_none_before_any_generation() {
    let service =
        build_service(Some("sk-test"), Some(sample_process()), vec![sample_capture("c1", 1)], RecordingAiService::new());
    assert!(service.get_latest_version("proc-1").expect("get_latest_version").is_none());
}

#[test]
fn get_latest_version_returns_the_most_recent_generation() {
    let mut service =
        build_service(Some("sk-test"), Some(sample_process()), vec![sample_capture("c1", 1)], RecordingAiService::new());
    service.generate("proc-1").expect("first generate");
    let second = service.generate("proc-1").expect("second generate");

    let latest = service.get_latest_version("proc-1").expect("get_latest_version").expect("should exist");
    assert_eq!(latest.id, second.id);
}

#[test]
fn generation_refusals_carry_their_messages() {
    let mut service = build_service(None, Some(sample_process()), vec![sample_capture("c1", 1)], RecordingAiService::new());
    match service.generate("proc-1") {
        Err(AppError::Validation(m)) => assert_eq!(m, "Save an API key in Settings first."),
        _ => panic!("expected the missing-key refusal"),
    }
    let mut service = build_service(Some("k"), Some(sample_process()), vec![], RecordingAiService::new());
    match service.generate("proc-1") {
        Err(AppError::Validation(m)) => assert_eq!(m, "Add at least one capture to this process before generating."),
        _ => panic!("expected the no-captures refusal"),
    }
    let captures: Vec<Capture> = (0..61).map(|i| sample_capture(&format!("c{i}"), i)).collect();
    let mut service = build_service(Some("k"), Some(sample_process()), captures, RecordingAiService::new());
    match service.generate("proc-1") {
        Err(AppError::Validation(m)) => assert_eq!(
            m,
            "This process has 61 captures — generation is limited to 60 at a time. Split it into smaller processes."
        ),
        _ => panic!("expected the too-many refusal"),
    }
    let captures: Vec<Capture> = (0..60).map(|i| sample_capture(&format!("c{i}"), i)).collect();
    let mut service = build_service(Some("k"), Some(sample_process()), captures, RecordingAiService::new());
    assert!(service.generate("proc-1").is_ok(), "exactly 60 captures are allowed");
}

#[test]
fn prepare_request_describes_each_capture_and_reads_screenshots() {
    let shot_id = "11111111-1111-1111-1111-111111111111";
    let mut files = MemoryMediaFiles::new();
    files.write(&format!("{shot_id}.png"), &[7, 7]).unwrap();
    let mut shot = sample_capture(shot_id, 5);
    shot.capture_type = CaptureType::Screenshot;
    shot.description = "a form".to_string();
    let missing_shot_id = "22222222-2222-2222-2222-222222222222";
    let mut missing = sample_capture(missing_shot_id, 6);
    missing.capture_type = CaptureType::Screenshot;
    let service = build_service_with_files(
        Some("sk-x"),
        Some(sample_process()),
        vec![sample_capture("n1", 1), shot, missing],
        RecordingAiService::new(),
        files,
    );
    let (key, request) = service.prepare_request("proc-1").expect("prepare");
    assert_eq!(key, "sk-x");
    assert_eq!(request.process_name, "Kickoff call");
    assert_eq!(request.process_description, "First client call");
    assert_eq!(request.captures.len(), 3);
    assert_eq!(request.captures[0].id, "n1");
    assert_eq!(request.captures[0].capture_type, "note");
    assert!(request.captures[0].screenshot_png.is_none());
    assert_eq!(request.captures[1].capture_type, "screenshot");
    assert_eq!(request.captures[1].description, "a form");
    assert_eq!(request.captures[1].screenshot_png, Some(vec![7, 7]));
    assert!(request.captures[2].screenshot_png.is_none(), "a screenshot without its file is described from text only");
}

#[test]
fn update_version_content_replaces_the_draft_and_keeps_identity() {
    let mut service =
        build_service(Some("sk-test"), Some(sample_process()), vec![sample_capture("c1", 1)], RecordingAiService::new());
    let created = service.generate("proc-1").expect("generate");
    let edited = ProcessDraft { summary: "edited".to_string(), steps: vec![] };
    let updated = service.update_version_content(&created.id, edited.clone()).expect("update");
    assert_eq!(updated.id, created.id);
    assert_eq!(updated.process_id, created.process_id);
    assert_eq!(updated.created_at, created.created_at);
    assert_eq!(updated.content, edited);
    assert_eq!(service.get_version(&created.id).unwrap().content, edited);
    assert!(matches!(
        service.update_version_content("does-not-exist", ProcessDraft { summary: String::new(), steps: vec![] }),
        Err(AppError::NotFound)
    ));
}

#[test]
fn store_draft_keeps_the_given_content_as_a_new_version() {
    let mut service = build_service(None, Some(sample_process()), vec![], RecordingAiService::new());
    let draft = ProcessDraft {
        summary: "kept".to_string(),
        steps: vec![ProcessDraftStep { title: "One".to_string(), description: String::new(), capture_ids: vec!["c1".to_string()] }],
    };
    let first = service.store_draft("proc-1", draft.clone()).expect("store");
    let second = service.store_draft("proc-1", draft.clone()).expect("store again");
    assert_eq!(first.content, draft);
    assert_eq!(first.process_id, "proc-1");
    assert_eq!(first.created_at, first.updated_at);
    assert_ne!(first.id, second.id);
    assert_eq!(service.list_versions("proc-1").unwrap().len(), 2);
    assert_eq!(service.get_version(&first.id).unwrap().content, draft);
}
