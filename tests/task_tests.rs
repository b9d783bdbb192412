use ilm::error::AppError;
use ilm::task::{Task, TaskPriority, TaskStatus};

fn now_millis() -> i64 {
    chrono::Utc::now().timestamp_millis()
}

fn fresh_id() -> u128 {
    uuid::Uuid::new_v4().as_u128()
}

#[test]
fn test_task_creation() {
    let project_id = fresh_id();
    let title = "Test Task".to_string();
    let description = Some("Test Description".to_string());
    let priority = TaskPriority::High;
    let assigned_to = Some("user_1".to_string());
    let due_date = Some(now_millis());
    let created_by = "creator_1".to_string();

    let task = Task::new(
        project_id,
        title.clone(),
        description.clone(),
        priority,
        assigned_to.clone(),
        due_date,
        created_by.clone(),
    );

    assert_eq!(task.project_id, project_id);
    assert_eq!(task.title, title);
    assert_eq!(task.description, description);
    assert!(matches!(task.status, TaskStatus::Todo));
    assert!(matches!(task.priority, TaskPriority::High));
    assert_eq!(task.assigned_to, assigned_to);
    assert_eq!(task.due_date, due_date);
    assert_eq!(task.created_by, created_by);
    assert!(task.created_at <= now_millis());
    assert!(task.updated_at <= now_millis());
    assert_eq!(task.created_at, task.updated_at);
}

#[test]
fn test_task_status_update() {
    let mut task = Task::new(
        fresh_id(),
        "Test Task".to_string(),
        None,
        TaskPriority::Medium,
        None,
        None,
        "creator_1".to_string(),
    );

    let original_updated_at = task.updated_at;

    // wait for the clock to move on by at least one millisecond
    while now_millis() <= original_updated_at {}

    task.update_status(TaskStatus::InProgress, "creator_1".to_string());

    assert!(matches!(task.status, TaskStatus::InProgress));
    assert!(task.updated_at > original_updated_at);
}

#[test]
fn test_task_assignment() {
    let mut task = Task::new(
        fresh_id(),
        "Test Task".to_string(),
        None,
        TaskPriority::Low,
        None,
        None,
        "creator_1".to_string(),
    );

    task.assign_to(Some("assignee_1".to_string()), "creator_1".to_string());

    assert_eq!(task.assigned_to, Some("assignee_1".to_string()));
    assert_eq!(task.updated_by, "creator_1");
    assert!(task.is_assigned());
}

#[test]
fn test_task_unique_ids() {
    let project_id = fresh_id();

    let task1 = Task::new(
        project_id,
        "Task 1".to_string(),
        None,
        TaskPriority::Medium,
        None,
        None,
        "creator_1".to_string(),
    );

    let task2 = Task::new(
        project_id,
        "Task 2".to_string(),
        None,
        TaskPriority::High,
        None,
        None,
        "creator_1".to_string(),
    );

    assert_ne!(task1.id, task2.id);
    assert_eq!(task1.project_id, task2.project_id);
}

fn sample(due: Option<i64>) -> Task {
    Task::with_identity(9, 1_000, 5, "T".to_string(), None, TaskPriority::Medium, None, due, "c".to_string())
}

#[test]
fn task_defaults_and_identity() {
    assert_eq!(TaskStatus::default(), TaskStatus::Todo);
    assert_eq!(TaskPriority::default(), TaskPriority::Medium);
    let t = sample(None);
    assert_eq!(t.id, 9);
    assert_eq!(t.project_id, 5);
    assert_eq!(t.created_at, 1_000);
    assert_eq!(t.updated_at, 1_000);
    assert_eq!(t.updated_by, "c");
    assert_eq!(t.status, TaskStatus::Todo);
}

#[test]
fn task_overdue_at_rules() {
    let t = sample(Some(500));
    assert!(t.is_overdue_at(501));
    assert!(!t.is_overdue_at(500));
    assert!(!t.is_overdue_at(499));

    let none = sample(None);
    assert!(!none.is_overdue_at(i64::MAX));

    let mut done = sample(Some(500));
    done.update_status(TaskStatus::Done, "c".to_string());
    assert!(done.is_completed());
    assert!(!done.is_overdue_at(10_000));

    let mut blocked = sample(Some(500));
    blocked.update_status(TaskStatus::Blocked, "c".to_string());
    assert!(blocked.is_overdue_at(10_000));
}

#[test]
fn task_overdue_by_clock() {
    let day = 24 * 60 * 60 * 1000;
    let past = sample(Some(now_millis() - day));
    assert!(past.is_overdue());
    let future = sample(Some(now_millis() + day));
    assert!(!future.is_overdue());
    let unset = sample(None);
    assert!(!unset.is_overdue());
}

#[test]
fn task_predicates() {
    let mut t = sample(None);
    assert!(!t.is_completed());
    assert!(!t.is_assigned());
    t.assign_to(Some("a".to_string()), "b".to_string());
    assert!(t.is_assigned());
    t.assign_to(None, "b".to_string());
    assert!(!t.is_assigned());
    t.update_status(TaskStatus::Done, "b".to_string());
    assert!(t.is_completed());
}

#[test]
fn task_mutators_keep_identity() {
    let mut t = sample(None);
    t.update_priority(TaskPriority::Urgent, "p".to_string());
    assert_eq!(t.priority, TaskPriority::Urgent);
    assert_eq!(t.updated_by, "p");
    t.set_due_date(Some(77), "q".to_string());
    assert_eq!(t.due_date, Some(77));
    assert_eq!(t.updated_by, "q");
    t.set_due_date(None, "r".to_string());
    assert_eq!(t.due_date, None);
    assert_eq!(t.id, 9);
    assert_eq!(t.project_id, 5);
    assert_eq!(t.created_at, 1_000);
    assert_eq!(t.created_by, "c");
    assert!(t.updated_at >= 1_000);
}

#[test]
fn task_touch_exact() {
    let mut t = sample(None);
    t.touch("x".to_string(), 1_001);
    assert_eq!(t.updated_at, 1_001);
    t.touch("y".to_string(), 5);
    assert_eq!(t.updated_at, 1_001);
    assert_eq!(t.updated_by, "y");
}

#[test]
fn task_validation_rules() {
    let mut t = sample(None);
    assert_eq!(t.validate(), Ok(()));
    t.title = "   ".to_string();
    assert!(matches!(t.validate(), Err(AppError::Validation(_))));
    t.title = "x".repeat(200);
    assert_eq!(t.validate(), Ok(()));
    t.title = "x".repeat(201);
    assert!(matches!(t.validate(), Err(AppError::Validation(_))));
    t.title = "ok".to_string();
    t.description = Some("d".repeat(1000));
    assert_eq!(t.validate(), Ok(()));
    t.description = Some("d".repeat(1001));
    assert!(matches!(t.validate(), Err(AppError::Validation(_))));
}

#[test]
fn task_text_mappings() {
    let statuses = [TaskStatus::Todo, TaskStatus::InProgress, TaskStatus::Done, TaskStatus::Blocked];
    for s in statuses {
        assert_eq!(TaskStatus::parse(s.as_str()), Some(s));
    }
    let priorities = [TaskPriority::Low, TaskPriority::Medium, TaskPriority::High, TaskPriority::Urgent];
    for p in priorities {
        assert_eq!(TaskPriority::parse(p.as_str()), Some(p));
    }
    assert_eq!(TaskStatus::InProgress.as_str(), "in_progress");
    assert_eq!(TaskPriority::Urgent.as_str(), "urgent");
    assert_eq!(TaskStatus::parse("cancelled"), None);
    assert_eq!(TaskPriority::parse("Critical"), None);
    assert_eq!(TaskStatus::Todo.label(), "To Do");
    assert_eq!(TaskStatus::InProgress.label(), "In Progress");
    assert_eq!(TaskPriority::High.label(), "High");
}

#[test]
fn task_describe_text() {
    let t = sample(None);
    assert_eq!(t.describe(), "Task 'T' [To Do] - Priority: Medium");
}

#[test]
fn task_validation_messages() {
    let mut t = sample(None);
    t.title = String::new();
    assert_eq!(t.validate(), Err(AppError::Validation("Task title cannot be empty".to_string())));
    t.title = "x".repeat(201);
    assert_eq!(t.validate(), Err(AppError::Validation("Task title cannot exceed 200 characters".to_string())));
    t.title = "x".to_string();
    t.description = Some("d".repeat(1001));
    assert_eq!(
        t.validate(),
        Err(AppError::Validation("Task description cannot exceed 1000 characters".to_string()))
    );
}

#[test]
fn mutation_after_clock_tick_rises_strictly() {
    let mut t = Task::new(1, "T".to_string(), None, TaskPriority::Low, None, None, "c".to_string());
    let before = t.updated_at;
    while now_millis() <= before {}
    t.set_due_date(Some(5), "d".to_string());
    assert!(t.updated_at > before);
    assert_eq!(t.updated_by, "d");
    assert_eq!(t.due_date, Some(5));
}
