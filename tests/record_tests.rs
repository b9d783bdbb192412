use ilm::error::AppError;
use ilm::project::{Project, ProjectStatus};
use ilm::records::{ProjectRecord, TaskRecord};
use ilm::task::{Task, TaskPriority, TaskStatus};

#[test]
fn project_record_round_trip() {
    let mut p = Project::with_identity(3, 10, "A".to_string(), Some("d".to_string()), "o".to_string(), "c".to_string());
    p.update_status(ProjectStatus::Completed, "e".to_string());
    let record = ProjectRecord::from_project(&p);
    assert_eq!(record.status, "Completed");
    assert_eq!(record.into_project(), p);
}

#[test]
fn project_record_unknown_status_reads_as_active() {
    let p = Project::with_identity(3, 10, "A".to_string(), None, "o".to_string(), "c".to_string());
    let mut record = ProjectRecord::from_project(&p);
    record.status = "Frozen".to_string();
    assert_eq!(record.into_project().status, ProjectStatus::Active);
}

#[test]
fn task_record_round_trip() {
    let mut t = Task::with_identity(4, 20, 9, "T".to_string(), None, TaskPriority::Urgent, Some("a".to_string()), Some(5), "c".to_string());
    t.update_status(TaskStatus::InProgress, "e".to_string());
    let record = TaskRecord::from_task(&t);
    assert_eq!(record.status, "in_progress");
    assert_eq!(record.priority, "urgent");
    assert_eq!(record.into_task(), Ok(t));
}

#[test]
fn task_record_unknown_text_is_refused() {
    let t = Task::with_identity(4, 20, 9, "T".to_string(), None, TaskPriority::Low, None, None, "c".to_string());
    let mut bad_status = TaskRecord::from_task(&t);
    bad_status.status = "cancelled".to_string();
    assert!(matches!(bad_status.into_task(), Err(AppError::Database(_))));
    let mut bad_priority = TaskRecord::from_task(&t);
    bad_priority.priority = "critical".to_string();
    assert!(matches!(bad_priority.into_task(), Err(AppError::Database(_))));
}
