use golive::errors::AppError;
use golive::repositories::project::MemoryProjectRepository;
use golive::services::project::{ProjectService, MAX_DESCRIPTION_LENGTH, MAX_NAME_LENGTH};

fn service_in_memory() -> ProjectService<MemoryProjectRepository> {
    ProjectService::new(MemoryProjectRepository::new())
}

fn wait_a_few_milliseconds() {
    let start = std::time::Instant::now();
    while start.elapsed() < std::time::Duration::from_millis(5) {}
}

#[test]
fn project_create_generates_id_and_timestamps() {
    let mut service = service_in_memory();
    let project = service.create("Migration ERP 2026", None).expect("create");

    assert!(!project.id.is_empty());
    assert!(uuid::Uuid::parse_str(&project.id).is_ok(), "id should be a UUID");
    assert_eq!(project.created_at, project.updated_at);
    assert!(project.created_at > 0);
}

#[test]
fn project_create_trims_name_and_description() {
    let mut service = service_in_memory();
    let project = service.create("  Migration ERP 2026  ", Some("  some notes  ")).expect("create");

    assert_eq!(project.name, "Migration ERP 2026");
    assert_eq!(project.description, "some notes");
}

#[test]
fn project_create_rejects_empty_name() {
    let mut service = service_in_memory();
    let result = service.create("", None);
    assert!(matches!(result, Err(AppError::Validation(_))));
}

#[test]
fn project_create_rejects_whitespace_only_name() {
    let mut service = service_in_memory();
    let result = service.create("    ", None);
    assert!(matches!(result, Err(AppError::Validation(_))));
}

#[test]
fn project_create_rejects_name_over_the_length_limit() {
    let mut service = service_in_memory();
    let too_long = "a".repeat(MAX_NAME_LENGTH + 1);
    let result = service.create(&too_long, None);
    assert!(matches!(result, Err(AppError::Validation(_))));
}

#[test]
fn project_create_rejects_description_over_the_length_limit() {
    let mut service = service_in_memory();
    let too_long = "a".repeat(MAX_DESCRIPTION_LENGTH + 1);
    let result = service.create("Valid name", Some(&too_long));
    assert!(matches!(result, Err(AppError::Validation(_))));
}

#[test]
fn create_allows_missing_or_empty_description() {
    let mut service = service_in_memory();
    assert!(service.create("Project A", None).is_ok());
    assert!(service.create("Project B", Some("")).is_ok());
    assert!(service.create("Project C", Some("   ")).is_ok());
}

#[test]
fn list_returns_created_projects() {
    let mut service = service_in_memory();
    service.create("Project A", None).unwrap();
    service.create("Project B", None).unwrap();

    let listed = service.list().expect("list");
    assert_eq!(listed.len(), 2);
}

#[test]
fn get_missing_project_returns_not_found() {
    let service = service_in_memory();
    let result = service.get("does-not-exist");
    assert!(matches!(result, Err(AppError::NotFound)));
}

#[test]
fn get_returns_created_project() {
    let mut service = service_in_memory();
    let created = service.create("Project A", None).unwrap();
    let fetched = service.get(&created.id).expect("get");
    assert_eq!(fetched.id, created.id);
}

#[test]
fn update_succeeds_and_trims_name_and_description() {
    let mut service = service_in_memory();
    let created = service.create("Original", Some("original desc")).unwrap();

    let updated =
        service.update(&created.id, "  Updated name  ", Some("  updated desc  ")).expect("update");

    assert_eq!(updated.name, "Updated name");
    assert_eq!(updated.description, "updated desc");
}

#[test]
fn update_regenerates_updated_at_and_preserves_created_at() {
    let mut service = service_in_memory();
    let created = service.create("Original", None).unwrap();

    wait_a_few_milliseconds();

    let updated = service.update(&created.id, "Updated", None).expect("update");

    assert_eq!(updated.id, created.id, "id must not change");
    assert_eq!(updated.created_at, created.created_at, "created_at must not change");
    assert!(updated.updated_at > created.updated_at, "updated_at must be regenerated by the backend");
}

#[test]
fn update_rejects_empty_name() {
    let mut service = service_in_memory();
    let created = service.create("Original", None).unwrap();
    let result = service.update(&created.id, "", None);
    assert!(matches!(result, Err(AppError::Validation(_))));
}

#[test]
fn update_rejects_whitespace_only_name() {
    let mut service = service_in_memory();
    let created = service.create("Original", None).unwrap();
    let result = service.update(&created.id, "   ", None);
    assert!(matches!(result, Err(AppError::Validation(_))));
}

#[test]
fn update_rejects_name_over_the_length_limit() {
    let mut service = service_in_memory();
    let created = service.create("Original", None).unwrap();
    let too_long = "a".repeat(MAX_NAME_LENGTH + 1);
    let result = service.update(&created.id, &too_long, None);
    assert!(matches!(result, Err(AppError::Validation(_))));
}

#[test]
fn update_rejects_description_over_the_length_limit() {
    let mut service = service_in_memory();
    let created = service.create("Original", None).unwrap();
    let too_long = "a".repeat(MAX_DESCRIPTION_LENGTH + 1);
    let result = service.update(&created.id, "Valid name", Some(&too_long));
    assert!(matches!(result, Err(AppError::Validation(_))));
}

#[test]
fn update_missing_project_returns_not_found() {
    let mut service = service_in_memory();
    let result = service.update("does-not-exist", "New name", None);
    assert!(matches!(result, Err(AppError::NotFound)));
}

#[test]
fn delete_removes_the_project() {
    let mut service = service_in_memory();
    let created = service.create("Project A", None).unwrap();

    service.delete(&created.id).expect("delete");
    assert!(matches!(service.get(&created.id), Err(AppError::NotFound)));
}

#[test]
fn delete_missing_project_returns_not_found() {
    let mut service = service_in_memory();
    let result = service.delete("does-not-exist");
    assert!(matches!(result, Err(AppError::NotFound)));
}

#[test]
fn project_validation_messages_name_the_rule_broken() {
    let mut service = service_in_memory();
    match service.create(" \t ", None) {
        Err(AppError::Validation(m)) => assert_eq!(m, "Project name is required."),
        _ => panic!("expected a validation error"),
    }
    match service.create(&"é".repeat(201), None) {
        Err(AppError::Validation(m)) => assert_eq!(m, "Project name must be 200 characters or fewer."),
        _ => panic!("expected a validation error"),
    }
    assert!(service.create(&"é".repeat(200), None).is_ok(), "the limit counts characters, not bytes");
    match service.create("Name", Some(&"x".repeat(5001))) {
        Err(AppError::Validation(m)) => assert_eq!(m, "Description must be 5000 characters or fewer."),
        _ => panic!("expected a validation error"),
    }
}

#[test]
fn list_is_most_recently_updated_first() {
    let mut service = service_in_memory();
    let a = service.create("A", None).unwrap();
    wait_a_few_milliseconds();
    let b = service.create("B", None).unwrap();
    wait_a_few_milliseconds();
    service.update(&a.id, "A2", None).unwrap();
    let listed = service.list().unwrap();
    assert_eq!(listed.iter().map(|p| p.id.clone()).collect::<Vec<_>>(), vec![a.id.clone(), b.id.clone()]);
    assert_eq!(listed[0].name, "A2");
}

#[test]
fn delete_then_get_is_not_found_but_others_remain() {
    let mut service = service_in_memory();
    let a = service.create("A", None).unwrap();
    let b = service.create("B", None).unwrap();
    service.delete(&a.id).unwrap();
    assert!(matches!(service.get(&a.id), Err(AppError::NotFound)));
    assert_eq!(service.get(&b.id).unwrap().name, "B");
    assert!(matches!(service.delete(&a.id), Err(AppError::NotFound)));
}

#[test]
fn update_at_stamps_the_given_time_and_keeps_identity() {
    let mut service = service_in_memory();
    let created = service.create("Project", None).unwrap();
    let updated = service.update_at(&created.id, " Renamed ", Some("d"), 424242).unwrap();
    assert_eq!(updated.updated_at, 424242);
    assert_eq!(updated.created_at, created.created_at);
    assert_eq!(updated.name, "Renamed");
    assert_eq!(service.get(&created.id).unwrap().updated_at, 424242);
}
