use golive::errors::AppError;
use golive::models::process::ProcessStatus;
use golive::models::project::Project;
use golive::repositories::process::MemoryProcessRepository;
use golive::repositories::project::{MemoryProjectRepository, ProjectRepository};
use golive::services::process::{ProcessService, MAX_DESCRIPTION_LENGTH, MAX_NAME_LENGTH};

type Service = ProcessService<MemoryProcessRepository, MemoryProjectRepository>;

fn service_with_project() -> (Service, String) {
    let project = Project {
        id: "proj1".to_string(),
        name: "Sample project".to_string(),
        description: String::new(),
        created_at: 1,
        updated_at: 1,
    };
    let mut projects = MemoryProjectRepository::new();
    projects.create(&project).unwrap();
    let service = ProcessService::new(MemoryProcessRepository::new(), projects);
    (service, project.id)
}

fn wait_a_few_milliseconds() {
    let start = std::time::Instant::now();
    while start.elapsed() < std::time::Duration::from_millis(5) {}
}

#[test]
fn create_generates_id_and_defaults_to_draft() {
    let (mut service, project_id) = service_with_project();
    let process = service.create(&project_id, "Create a sales order", None).expect("create");

    assert!(!process.id.is_empty());
    assert!(uuid::Uuid::parse_str(&process.id).is_ok(), "id should be a UUID");
    assert_eq!(process.project_id, project_id);
    assert_eq!(process.status, ProcessStatus::Draft);
    assert_eq!(process.created_at, process.updated_at);
}

#[test]
fn process_create_trims_name_and_description() {
    let (mut service, project_id) = service_with_project();
    let process = service.create(&project_id, "  Create a sales order  ", Some("  notes  ")).expect("create");

    assert_eq!(process.name, "Create a sales order");
    assert_eq!(process.description, "notes");
}

#[test]
fn process_create_rejects_empty_name() {
    let (mut service, project_id) = service_with_project();
    assert!(matches!(service.create(&project_id, "", None), Err(AppError::Validation(_))));
}

#[test]
fn process_create_rejects_whitespace_only_name() {
    let (mut service, project_id) = service_with_project();
    assert!(matches!(service.create(&project_id, "   ", None), Err(AppError::Validation(_))));
}

#[test]
fn process_create_rejects_name_over_the_length_limit() {
    let (mut service, project_id) = service_with_project();
    let too_long = "a".repeat(MAX_NAME_LENGTH + 1);
    assert!(matches!(service.create(&project_id, &too_long, None), Err(AppError::Validation(_))));
}

#[test]
fn process_create_rejects_description_over_the_length_limit() {
    let (mut service, project_id) = service_with_project();
    let too_long = "a".repeat(MAX_DESCRIPTION_LENGTH + 1);
    assert!(matches!(
        service.create(&project_id, "Valid name", Some(&too_long)),
        Err(AppError::Validation(_))
    ));
}

#[test]
fn create_rejects_missing_project() {
    let (mut service, _project_id) = service_with_project();
    let result = service.create("does-not-exist", "Valid name", None);
    assert!(matches!(result, Err(AppError::NotFound)));
}

#[test]
fn list_by_project_returns_created_processes() {
    let (mut service, project_id) = service_with_project();
    service.create(&project_id, "Process A", None).unwrap();
    service.create(&project_id, "Process B", None).unwrap();

    let listed = service.list_by_project(&project_id).expect("list");
    assert_eq!(listed.len(), 2);
}

#[test]
fn get_missing_process_returns_not_found() {
    let (service, _project_id) = service_with_project();
    assert!(matches!(service.get("does-not-exist"), Err(AppError::NotFound)));
}

#[test]
fn update_succeeds_trims_and_changes_status() {
    let (mut service, project_id) = service_with_project();
    let created = service.create(&project_id, "Original", None).unwrap();

    let updated = service
        .update(&created.id, "  Updated name  ", Some("  updated desc  "), "in_progress")
        .expect("update");

    assert_eq!(updated.name, "Updated name");
    assert_eq!(updated.description, "updated desc");
    assert_eq!(updated.status, ProcessStatus::InProgress);
}

#[test]
fn update_rejects_invalid_status() {
    let (mut service, project_id) = service_with_project();
    let created = service.create(&project_id, "Original", None).unwrap();
    let result = service.update(&created.id, "Original", None, "not_a_real_status");
    assert!(matches!(result, Err(AppError::Validation(_))));
}

#[test]
fn update_missing_process_returns_not_found() {
    let (mut service, _project_id) = service_with_project();
    let result = service.update("does-not-exist", "New name", None, "draft");
    assert!(matches!(result, Err(AppError::NotFound)));
}

#[test]
fn update_regenerates_updated_at_and_preserves_created_at_and_project_id() {
    let (mut service, project_id) = service_with_project();
    let created = service.create(&project_id, "Original", None).unwrap();

    wait_a_few_milliseconds();

    let updated = service.update(&created.id, "Updated", None, "draft").expect("update");

    assert_eq!(updated.id, created.id, "id must not change");
    assert_eq!(updated.project_id, project_id, "project_id must not change");
    assert_eq!(updated.created_at, created.created_at, "created_at must not change");
    assert!(updated.updated_at > created.updated_at, "updated_at must be regenerated by the backend");
}

#[test]
fn delete_removes_the_process() {
    let (mut service, project_id) = service_with_project();
    let created = service.create(&project_id, "Process", None).unwrap();

    service.delete(&created.id).expect("delete");
    assert!(matches!(service.get(&created.id), Err(AppError::NotFound)));
}

#[test]
fn delete_missing_process_returns_not_found() {
    let (mut service, _project_id) = service_with_project();
    assert!(matches!(service.delete("does-not-exist"), Err(AppError::NotFound)));
}

#[test]
fn process_rules_are_checked_before_the_project_and_status_after_them() {
    let (mut service, project_id) = service_with_project();
    match service.create("does-not-exist", "", None) {
        Err(AppError::Validation(m)) => assert_eq!(m, "Process name is required."),
        _ => panic!("the name rule comes first"),
    }
    let created = service.create(&project_id, "P", None).unwrap();
    match service.update(&created.id, "P", None, "Draft") {
        Err(AppError::Validation(m)) => assert_eq!(m, "Invalid process status."),
        _ => panic!("status strings are exact and lowercase"),
    }
    match service.update("does-not-exist", "P", None, "bogus") {
        Err(AppError::Validation(m)) => assert_eq!(m, "Invalid process status."),
        _ => panic!("the status is checked before the process is looked up"),
    }
    let completed = service.update(&created.id, "P", None, "completed").unwrap();
    assert_eq!(completed.status.as_str(), "completed");
}

#[test]
fn list_by_project_only_lists_that_projects_processes() {
    let (mut service, project_id) = service_with_project();
    service.create(&project_id, "A", None).unwrap();
    assert!(service.list_by_project("other-project").unwrap().is_empty());
}

#[test]
fn process_update_at_stamps_the_given_time() {
    let (mut service, project_id) = service_with_project();
    let created = service.create(&project_id, "Process", None).unwrap();
    let updated = service.update_at(&created.id, "Process", None, "completed", 99).unwrap();
    assert_eq!(updated.updated_at, 99);
    assert_eq!(updated.status, ProcessStatus::Completed);
    assert_eq!(updated.project_id, project_id);
    assert_eq!(updated.created_at, created.created_at);
}
