use golive::ai::{ProcessDraft, ProcessDraftStep};
use golive::models::capture::{Capture, CaptureType};
use golive::models::process::{Process, ProcessStatus};
use golive::models::process_version::ProcessVersion;
use golive::models::project::Project;
use golive::repositories::capture::{CaptureRepository, MemoryCaptureRepository};
use golive::repositories::process::{MemoryProcessRepository, ProcessRepository};
use golive::repositories::process_version::{MemoryProcessVersionRepository, ProcessVersionRepository};
use golive::repositories::project::{MemoryProjectRepository, ProjectRepository};
use golive::repositories::storage_status::{MemoryStorageStatusRepository, StorageStatusRepository};

fn project(id: &str, name: &str, updated_at: i64) -> Project {
    Project { id: id.to_string(), name: name.to_string(), description: "desc".to_string(), created_at: updated_at, updated_at }
}

fn plain_project(id: &str) -> Project {
    Project { id: id.to_string(), name: "Sample project".to_string(), description: String::new(), created_at: 1, updated_at: 1 }
}

fn process(id: &str, project_id: &str, name: &str, updated_at: i64) -> Process {
    Process {
        id: id.to_string(),
        project_id: project_id.to_string(),
        name: name.to_string(),
        description: "desc".to_string(),
        status: ProcessStatus::Draft,
        created_at: updated_at,
        updated_at,
    }
}

fn plain_process(id: &str, project_id: &str) -> Process {
    Process {
        id: id.to_string(),
        project_id: project_id.to_string(),
        name: "Sample process".to_string(),
        description: String::new(),
        status: ProcessStatus::Draft,
        created_at: 1,
        updated_at: 1,
    }
}

fn capture(id: &str, process_id: &str, title: &str, updated_at: i64) -> Capture {
    Capture {
        id: id.to_string(),
        process_id: process_id.to_string(),
        capture_type: CaptureType::Screenshot,
        title: title.to_string(),
        description: "desc".to_string(),
        created_at: updated_at,
        updated_at,
    }
}

fn draft(summary: &str) -> ProcessDraft {
    ProcessDraft {
        summary: summary.to_string(),
        steps: vec![ProcessDraftStep {
            title: "Step".to_string(),
            description: "Desc".to_string(),
            capture_ids: vec!["cap-1".to_string()],
        }],
    }
}

fn version(id: &str, process_id: &str, summary: &str, created_at: i64) -> ProcessVersion {
    ProcessVersion {
        id: id.to_string(),
        process_id: process_id.to_string(),
        content: draft(summary),
        created_at,
        updated_at: created_at,
    }
}

fn seeded_processes(ids: &[&str]) -> (MemoryProcessRepository, MemoryProjectRepository) {
    let mut projects = MemoryProjectRepository::new();
    projects.create(&plain_project("proj1")).unwrap();
    let mut processes = MemoryProcessRepository::new();
    for id in ids {
        processes.create(&plain_process(id, "proj1")).unwrap();
    }
    (processes, projects)
}

// Projects.

#[test]
fn project_create_then_get_round_trips() {
    let mut repo = MemoryProjectRepository::new();
    let p = project("p1", "Migration ERP 2026", 1000);
    repo.create(&p).expect("create");
    let fetched = repo.get("p1").expect("get").expect("project should exist");
    assert_eq!(fetched.id, p.id);
    assert_eq!(fetched.name, p.name);
    assert_eq!(fetched.description, p.description);
    assert_eq!(fetched.created_at, p.created_at);
    assert_eq!(fetched.updated_at, p.updated_at);
}

#[test]
fn get_missing_project_returns_none() {
    let repo = MemoryProjectRepository::new();
    assert!(repo.get("does-not-exist").expect("get").is_none());
}

#[test]
fn list_orders_by_updated_at_descending() {
    let mut repo = MemoryProjectRepository::new();
    repo.create(&project("older", "Older project", 1000)).unwrap();
    repo.create(&project("newer", "Newer project", 2000)).unwrap();
    let listed = repo.list().expect("list");
    let ids: Vec<&str> = listed.iter().map(|p| p.id.as_str()).collect();
    assert_eq!(ids, vec!["newer", "older"]);
}

#[test]
fn update_changes_name_and_description() {
    let mut repo = MemoryProjectRepository::new();
    let mut p = project("p1", "Original name", 1000);
    p.description = "original description".to_string();
    repo.create(&p).unwrap();
    let mut changed = p.clone();
    changed.name = "New name".to_string();
    changed.description = "new description".to_string();
    changed.updated_at = 2000;
    assert!(repo.update(&changed).expect("update"));
    let fetched = repo.get("p1").expect("get").expect("project should exist");
    assert_eq!(fetched.name, "New name");
    assert_eq!(fetched.description, "new description");
    assert_eq!(fetched.updated_at, 2000);
}

#[test]
fn update_does_not_change_id_or_created_at() {
    let mut repo = MemoryProjectRepository::new();
    let p = project("p1", "Original name", 1000);
    repo.create(&p).unwrap();
    let mut changed = p.clone();
    changed.name = "New name".to_string();
    changed.updated_at = 2000;
    repo.update(&changed).expect("update");
    let fetched = repo.get("p1").expect("get").expect("project should exist");
    assert_eq!(fetched.id, "p1");
    assert_eq!(fetched.created_at, 1000, "created_at must not change on update");
}

#[test]
fn update_missing_project_returns_false() {
    let mut repo = MemoryProjectRepository::new();
    assert!(!repo.update(&project("does-not-exist", "Ghost", 1000)).expect("update"));
}

#[test]
fn updating_a_project_moves_it_to_the_top_of_the_list() {
    let mut repo = MemoryProjectRepository::new();
    repo.create(&project("older", "Older project", 1000)).unwrap();
    repo.create(&project("newer", "Newer project", 2000)).unwrap();
    let mut touched = project("older", "Older project", 3000);
    touched.description = "desc".to_string();
    repo.update(&touched).expect("update");
    let listed = repo.list().expect("list");
    let ids: Vec<&str> = listed.iter().map(|p| p.id.as_str()).collect();
    assert_eq!(ids, vec!["older", "newer"], "the just-updated project should now be first");
}

#[test]
fn delete_removes_the_project_and_reports_true() {
    let mut repo = MemoryProjectRepository::new();
    repo.create(&project("p1", "Project", 1000)).unwrap();
    assert!(repo.delete("p1").expect("delete"));
    assert!(repo.get("p1").expect("get").is_none());
}

#[test]
fn delete_missing_project_reports_false() {
    let mut repo = MemoryProjectRepository::new();
    assert!(!repo.delete("does-not-exist").expect("delete"));
}

// Processes.

#[test]
fn process_create_then_get_round_trips() {
    let (mut repo, _projects) = seeded_processes(&[]);
    let p = process("p1", "proj1", "Create a sales order", 1000);
    repo.create(&p).expect("create");
    let fetched = repo.get("p1").expect("get").expect("process should exist");
    assert_eq!(fetched.id, p.id);
    assert_eq!(fetched.project_id, "proj1");
    assert_eq!(fetched.name, p.name);
    assert_eq!(fetched.description, p.description);
    assert_eq!(fetched.status, ProcessStatus::Draft);
}

#[test]
fn get_missing_process_returns_none() {
    let repo = MemoryProcessRepository::new();
    assert!(repo.get("does-not-exist").expect("get").is_none());
}

#[test]
fn list_by_project_returns_only_matching_processes() {
    let mut repo = MemoryProcessRepository::new();
    repo.create(&process("p1", "proj1", "Process A", 1000)).unwrap();
    repo.create(&process("p2", "proj2", "Process B", 2000)).unwrap();
    let listed = repo.list_by_project("proj1").expect("list");
    assert_eq!(listed.len(), 1);
    assert_eq!(listed[0].id, "p1");
}

#[test]
fn list_by_project_orders_by_updated_at_descending() {
    let mut repo = MemoryProcessRepository::new();
    repo.create(&process("older", "proj1", "Older", 1000)).unwrap();
    repo.create(&process("newer", "proj1", "Newer", 2000)).unwrap();
    let listed = repo.list_by_project("proj1").expect("list");
    let ids: Vec<&str> = listed.iter().map(|p| p.id.as_str()).collect();
    assert_eq!(ids, vec!["newer", "older"]);
}

#[test]
fn update_changes_name_description_and_status() {
    let mut repo = MemoryProcessRepository::new();
    let p = process("p1", "proj1", "Original", 1000);
    repo.create(&p).unwrap();
    let mut changed = p.clone();
    changed.name = "Updated".to_string();
    changed.description = "new desc".to_string();
    changed.status = ProcessStatus::InProgress;
    changed.updated_at = 2000;
    assert!(repo.update(&changed).expect("update"));
    let fetched = repo.get("p1").expect("get").unwrap();
    assert_eq!(fetched.name, "Updated");
    assert_eq!(fetched.description, "new desc");
    assert_eq!(fetched.status, ProcessStatus::InProgress);
    assert_eq!(fetched.updated_at, 2000);
}

#[test]
fn update_does_not_change_id_project_id_or_created_at() {
    let mut repo = MemoryProcessRepository::new();
    let p = process("p1", "proj1", "Original", 1000);
    repo.create(&p).unwrap();
    let mut changed = p.clone();
    changed.project_id = "proj2".to_string();
    changed.name = "Updated".to_string();
    changed.updated_at = 2000;
    repo.update(&changed).expect("update");
    let fetched = repo.get("p1").expect("get").unwrap();
    assert_eq!(fetched.project_id, "proj1", "project_id must not change on update");
    assert_eq!(fetched.created_at, 1000, "created_at must not change on update");
}

#[test]
fn update_missing_process_returns_false() {
    let mut repo = MemoryProcessRepository::new();
    assert!(!repo.update(&process("does-not-exist", "proj1", "Ghost", 1000)).expect("update"));
}

#[test]
fn delete_removes_the_process_and_reports_true() {
    let mut repo = MemoryProcessRepository::new();
    repo.create(&process("p1", "proj1", "Process", 1000)).unwrap();
    assert!(repo.delete("p1").expect("delete"));
    assert!(repo.get("p1").expect("get").is_none());
}

#[test]
fn delete_missing_process_reports_false() {
    let mut repo = MemoryProcessRepository::new();
    assert!(!repo.delete("does-not-exist").expect("delete"));
}

// Captures.

#[test]
fn capture_create_then_get_round_trips() {
    let (_processes, _projects) = seeded_processes(&["p1"]);
    let mut repo = MemoryCaptureRepository::new();
    let c = capture("c1", "p1", "First screenshot", 1000);
    repo.create(&c).expect("create");
    let fetched = repo.get("c1").expect("get").expect("capture should exist");
    assert_eq!(fetched.id, c.id);
    assert_eq!(fetched.process_id, "p1");
    assert_eq!(fetched.title, c.title);
    assert_eq!(fetched.description, c.description);
    assert_eq!(fetched.capture_type, CaptureType::Screenshot);
}

#[test]
fn get_missing_capture_returns_none() {
    let repo = MemoryCaptureRepository::new();
    assert!(repo.get("does-not-exist").expect("get").is_none());
}

#[test]
fn list_by_process_returns_only_matching_captures() {
    let mut repo = MemoryCaptureRepository::new();
    repo.create(&capture("c1", "p1", "Capture A", 1000)).unwrap();
    repo.create(&capture("c2", "p2", "Capture B", 2000)).unwrap();
    let listed = repo.list_by_process("p1").expect("list");
    assert_eq!(listed.len(), 1);
    assert_eq!(listed[0].id, "c1");
}

#[test]
fn list_by_process_orders_by_updated_at_descending() {
    let mut repo = MemoryCaptureRepository::new();
    repo.create(&capture("older", "p1", "Older", 1000)).unwrap();
    repo.create(&capture("newer", "p1", "Newer", 2000)).unwrap();
    let listed = repo.list_by_process("p1").expect("list");
    let ids: Vec<&str> = listed.iter().map(|c| c.id.as_str()).collect();
    assert_eq!(ids, vec!["newer", "older"]);
}

#[test]
fn update_changes_type_title_and_description() {
    let mut repo = MemoryCaptureRepository::new();
    let c = capture("c1", "p1", "Original", 1000);
    repo.create(&c).unwrap();
    let mut changed = c.clone();
    changed.capture_type = CaptureType::Note;
    changed.title = "Updated".to_string();
    changed.description = "new desc".to_string();
    changed.updated_at = 2000;
    assert!(repo.update(&changed).expect("update"));
    let fetched = repo.get("c1").expect("get").unwrap();
    assert_eq!(fetched.capture_type, CaptureType::Note);
    assert_eq!(fetched.title, "Updated");
    assert_eq!(fetched.description, "new desc");
    assert_eq!(fetched.updated_at, 2000);
}

#[test]
fn update_does_not_change_id_process_id_or_created_at() {
    let mut repo = MemoryCaptureRepository::new();
    let c = capture("c1", "p1", "Original", 1000);
    repo.create(&c).unwrap();
    let mut changed = c.clone();
    changed.process_id = "p2".to_string();
    changed.title = "Updated".to_string();
    changed.updated_at = 2000;
    repo.update(&changed).expect("update");
    let fetched = repo.get("c1").expect("get").unwrap();
    assert_eq!(fetched.process_id, "p1", "process_id must not change on update");
    assert_eq!(fetched.created_at, 1000, "created_at must not change on update");
    assert_eq!(fetched.id, "c1", "id must not change on update");
}

#[test]
fn update_missing_capture_returns_false() {
    let mut repo = MemoryCaptureRepository::new();
    assert!(!repo.update(&capture("does-not-exist", "p1", "Ghost", 1000)).expect("update"));
}

#[test]
fn delete_removes_the_capture_and_reports_true() {
    let mut repo = MemoryCaptureRepository::new();
    repo.create(&capture("c1", "p1", "Capture", 1000)).unwrap();
    assert!(repo.delete("c1").expect("delete"));
    assert!(repo.get("c1").expect("get").is_none());
}

#[test]
fn delete_missing_capture_reports_false() {
    let mut repo = MemoryCaptureRepository::new();
    assert!(!repo.delete("does-not-exist").expect("delete"));
}

#[test]
fn list_all_ids_returns_every_capture_across_processes() {
    let mut repo = MemoryCaptureRepository::new();
    repo.create(&capture("c1", "p1", "Capture A", 1000)).unwrap();
    repo.create(&capture("c2", "p2", "Capture B", 2000)).unwrap();
    let mut ids = repo.list_all_ids().expect("list_all_ids");
    ids.sort();
    assert_eq!(ids, vec!["c1".to_string(), "c2".to_string()]);
}

// Versions.

#[test]
fn create_then_get_round_trips_the_full_content() {
    let mut repo = MemoryProcessVersionRepository::new();
    let v = version("v1", "p1", "A summary", 1000);
    repo.create(&v).expect("create");
    let fetched = repo.get("v1").expect("get").expect("version should exist");
    assert_eq!(fetched, v);
}

#[test]
fn get_missing_version_returns_none() {
    let repo = MemoryProcessVersionRepository::new();
    assert!(repo.get("does-not-exist").expect("get").is_none());
}

#[test]
fn generating_twice_produces_two_retrievable_versions_neither_overwriting_the_other() {
    let mut repo = MemoryProcessVersionRepository::new();
    repo.create(&version("v1", "p1", "First generation", 1000)).expect("create v1");
    repo.create(&version("v2", "p1", "Second generation", 2000)).expect("create v2");
    let listed = repo.list_by_process("p1").expect("list");
    assert_eq!(listed.len(), 2);
    assert_eq!(listed[0].id, "v2");
    assert_eq!(listed[1].id, "v1");
    assert_eq!(repo.get("v1").expect("get v1").unwrap().content.summary, "First generation");
    assert_eq!(repo.get("v2").expect("get v2").unwrap().content.summary, "Second generation");
}

#[test]
fn list_by_process_returns_only_matching_versions() {
    let mut repo = MemoryProcessVersionRepository::new();
    repo.create(&version("v1", "p1", "For p1", 1000)).unwrap();
    repo.create(&version("v2", "p2", "For p2", 1000)).unwrap();
    let listed = repo.list_by_process("p1").expect("list");
    assert_eq!(listed.len(), 1);
    assert_eq!(listed[0].id, "v1");
}

#[test]
fn list_by_process_for_a_process_with_no_versions_is_empty() {
    let repo = MemoryProcessVersionRepository::new();
    assert!(repo.list_by_process("p1").expect("list").is_empty());
}

#[test]
fn get_latest_by_process_returns_the_newest_version() {
    let mut repo = MemoryProcessVersionRepository::new();
    repo.create(&version("v1", "p1", "Older", 1000)).unwrap();
    repo.create(&version("v2", "p1", "Newer", 2000)).unwrap();
    let latest = repo.get_latest_by_process("p1").expect("get_latest").expect("should exist");
    assert_eq!(latest.id, "v2");
    assert_eq!(latest.content.summary, "Newer");
}

#[test]
fn get_latest_by_process_for_a_process_with_no_versions_returns_none() {
    let repo = MemoryProcessVersionRepository::new();
    assert!(repo.get_latest_by_process("p1").expect("get_latest").is_none());
}

#[test]
fn update_content_changes_content_and_updated_at_but_not_created_at_id_or_process_id() {
    let mut repo = MemoryProcessVersionRepository::new();
    repo.create(&version("v1", "p1", "Original", 1000)).unwrap();
    assert!(repo.update_content("v1", &draft("Edited by hand"), 5000).expect("update_content"));
    let fetched = repo.get("v1").expect("get").unwrap();
    assert_eq!(fetched.content.summary, "Edited by hand");
    assert_eq!(fetched.updated_at, 5000);
    assert_eq!(fetched.created_at, 1000, "created_at must never change");
    assert_eq!(fetched.id, "v1");
    assert_eq!(fetched.process_id, "p1");
}

#[test]
fn update_content_on_a_missing_version_returns_false() {
    let mut repo = MemoryProcessVersionRepository::new();
    assert!(!repo.update_content("does-not-exist", &draft("x"), 1000).expect("update_content"));
}

#[test]
fn update_content_never_creates_a_second_row() {
    let mut repo = MemoryProcessVersionRepository::new();
    repo.create(&version("v1", "p1", "Original", 1000)).unwrap();
    repo.update_content("v1", &draft("Edited"), 2000).unwrap();
    repo.update_content("v1", &draft("Edited again"), 3000).unwrap();
    let listed = repo.list_by_process("p1").expect("list");
    assert_eq!(listed.len(), 1, "editing must update the existing row, never insert a new one");
    assert_eq!(listed[0].content.summary, "Edited again");
}

// The storage marker.

#[test]
fn ensure_marker_writes_then_returns_a_value() {
    let mut repo = MemoryStorageStatusRepository::new();
    let value = repo.ensure_marker().expect("ensure_marker should succeed");
    assert!(!value.is_empty());
}

#[test]
fn ensure_marker_returns_the_same_value_on_repeated_calls() {
    let mut repo = MemoryStorageStatusRepository::new();
    let first = repo.ensure_marker().expect("first call");
    let second = repo.ensure_marker().expect("second call");
    let third = repo.ensure_marker().expect("third call");
    assert_eq!(first, second);
    assert_eq!(second, third);
}
