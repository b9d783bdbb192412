use ilm::error::AppError;
use ilm::project::{parse_project_status, Project, ProjectStatus};

fn now_millis() -> i64 {
    chrono::Utc::now().timestamp_millis()
}

#[test]
fn test_project_creation() {
    let name = "Test Project".to_string();
    let description = Some("Test Description".to_string());
    let owner_id = "user_1".to_string();
    let created_by = "user_1".to_string();

    let project = Project::new(name.clone(), description.clone(), owner_id.clone(), created_by.clone());

    assert_eq!(project.name, name);
    assert_eq!(project.description, description);
    assert_eq!(project.owner_id, owner_id);
    assert_eq!(project.created_by, created_by);
    assert_eq!(project.updated_by, created_by);
    assert_eq!(project.status, ProjectStatus::Active);
    assert!(project.created_at <= now_millis());
    assert!(project.updated_at <= now_millis());
    assert_eq!(project.created_at, project.updated_at);
}

#[test]
fn test_project_unique_ids() {
    let project1 = Project::new(
        "Project 1".to_string(),
        Some("Description 1".to_string()),
        "user_1".to_string(),
        "user_1".to_string(),
    );
    let project2 = Project::new(
        "Project 2".to_string(),
        Some("Description 2".to_string()),
        "user_2".to_string(),
        "user_2".to_string(),
    );
    assert_ne!(project1.id, project2.id);
}

#[test]
fn project_ids_differ_for_identical_fields() {
    let a = Project::new("Same".to_string(), None, "u".to_string(), "u".to_string());
    let b = Project::new("Same".to_string(), None, "u".to_string(), "u".to_string());
    assert_ne!(a.id, b.id);
    assert_eq!(a.created_at, a.updated_at);
    assert_eq!(b.created_at, b.updated_at);
}

#[test]
fn project_creation_time_comes_from_the_clock() {
    let before = now_millis();
    let p = Project::new("Clock".to_string(), None, "u".to_string(), "u".to_string());
    let after = now_millis();
    assert!(before <= p.created_at && p.created_at <= after);
    assert!(p.created_at > 1_600_000_000_000);
}

#[test]
fn project_with_identity_is_exact() {
    let p = Project::with_identity(
        42,
        1_000,
        "Alpha".to_string(),
        None,
        "owner".to_string(),
        "maker".to_string(),
    );
    assert_eq!(p.id, 42);
    assert_eq!(p.created_at, 1_000);
    assert_eq!(p.updated_at, 1_000);
    assert_eq!(p.updated_by, "maker");
    assert_eq!(p.status, ProjectStatus::Active);
    assert_eq!(ProjectStatus::default(), ProjectStatus::Active);
}

#[test]
fn project_touch_moves_forward_only() {
    let mut p = Project::with_identity(1, 1_000, "A".to_string(), None, "o".to_string(), "c".to_string());
    p.touch("editor".to_string(), 2_000);
    assert_eq!(p.updated_at, 2_000);
    assert_eq!(p.updated_by, "editor");
    p.touch("late".to_string(), 1_500);
    assert_eq!(p.updated_at, 2_000);
    assert_eq!(p.updated_by, "late");
    assert_eq!(p.created_at, 1_000);
}

#[test]
fn project_mutators_replace_field_and_audit() {
    let mut p = Project::with_identity(7, 0, "Old".to_string(), None, "o".to_string(), "c".to_string());
    p.update_status(ProjectStatus::Archived, "u1".to_string());
    assert_eq!(p.status, ProjectStatus::Archived);
    assert_eq!(p.updated_by, "u1");
    assert!(p.updated_at >= p.created_at);
    let before = p.updated_at;
    p.update_name("New".to_string(), "u2".to_string());
    assert_eq!(p.name, "New");
    assert_eq!(p.updated_by, "u2");
    assert!(p.updated_at >= before);
    p.update_description(Some("d".to_string()), "u3".to_string());
    assert_eq!(p.description, Some("d".to_string()));
    assert_eq!(p.updated_by, "u3");
    p.update_status(ProjectStatus::Active, "u4".to_string());
    assert_eq!(p.status, ProjectStatus::Active);
    assert_eq!(p.id, 7);
    assert_eq!(p.created_by, "c");
}

#[test]
fn project_validation_rules() {
    let ok = Project::with_identity(1, 0, "Web Redesign".to_string(), None, "o".to_string(), "c".to_string());
    assert_eq!(ok.validate(), Ok(()));

    let blank = Project::with_identity(1, 0, " \t\n\u{3000}".to_string(), None, "o".to_string(), "c".to_string());
    assert!(matches!(blank.validate(), Err(AppError::Validation(_))));

    let empty = Project::with_identity(1, 0, String::new(), None, "o".to_string(), "c".to_string());
    assert!(matches!(empty.validate(), Err(AppError::Validation(_))));

    let at_limit = Project::with_identity(1, 0, "n".repeat(100), Some("d".repeat(500)), "o".to_string(), "c".to_string());
    assert_eq!(at_limit.validate(), Ok(()));

    let long_name = Project::with_identity(1, 0, "n".repeat(101), None, "o".to_string(), "c".to_string());
    assert!(matches!(long_name.validate(), Err(AppError::Validation(_))));

    let long_desc = Project::with_identity(1, 0, "ok".to_string(), Some("d".repeat(501)), "o".to_string(), "c".to_string());
    assert!(matches!(long_desc.validate(), Err(AppError::Validation(_))));

    // lengths count characters, not bytes
    let wide = Project::with_identity(1, 0, "é".repeat(100), None, "o".to_string(), "c".to_string());
    assert_eq!(wide.validate(), Ok(()));
}

#[test]
fn project_validation_is_not_enforced_by_constructor() {
    let mut p = Project::new(String::new(), None, "o".to_string(), "c".to_string());
    assert!(p.validate().is_err());
    p.update_name("Fixed".to_string(), "c".to_string());
    assert!(p.validate().is_ok());
}

#[test]
fn project_status_text_mapping() {
    assert_eq!(ProjectStatus::Active.as_str(), "Active");
    assert_eq!(ProjectStatus::Archived.as_str(), "Archived");
    assert_eq!(ProjectStatus::Completed.as_str(), "Completed");
    assert_eq!(parse_project_status("Active"), ProjectStatus::Active);
    assert_eq!(parse_project_status("Archived"), ProjectStatus::Archived);
    assert_eq!(parse_project_status("Completed"), ProjectStatus::Completed);
    assert_eq!(parse_project_status("archived"), ProjectStatus::Active);
    assert_eq!(parse_project_status(""), ProjectStatus::Active);
    assert_eq!(parse_project_status("Bogus"), ProjectStatus::Active);
}

#[test]
fn project_describe_text() {
    let mut p = Project::with_identity(1, 0, "Web".to_string(), None, "o".to_string(), "c".to_string());
    assert_eq!(p.describe(), "Project 'Web' [Active] - No description");
    p.update_description(Some("Site".to_string()), "c".to_string());
    p.update_status(ProjectStatus::Completed, "c".to_string());
    assert_eq!(p.describe(), "Project 'Web' [Completed] - Site");
}

#[test]
fn error_messages() {
    assert_eq!(AppError::NotFound.message(), "Resource not found");
    assert_eq!(AppError::Validation("x".to_string()).message(), "Validation error: x");
    assert_eq!(AppError::Database("boom".to_string()).message(), "Database error: boom");
    assert_eq!(AppError::Internal("oops".to_string()).message(), "Internal server error: oops");
}

#[test]
fn validation_messages() {
    let blank = Project::with_identity(1, 0, "  ".to_string(), Some("d".repeat(501)), "o".to_string(), "c".to_string());
    assert_eq!(blank.validate(), Err(AppError::Validation("Project name cannot be empty".to_string())));
    let long = Project::with_identity(1, 0, "n".repeat(101), None, "o".to_string(), "c".to_string());
    assert_eq!(long.validate(), Err(AppError::Validation("Project name cannot exceed 100 characters".to_string())));
    let desc = Project::with_identity(1, 0, "n".to_string(), Some("d".repeat(501)), "o".to_string(), "c".to_string());
    assert_eq!(
        desc.validate(),
        Err(AppError::Validation("Project description cannot exceed 500 characters".to_string()))
    );
}
