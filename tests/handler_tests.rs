use ilm::error::AppError;
use ilm::handlers::{
    create_task, delete_task, get_project, get_task, get_tasks_by_project, reply_for, status_for,
    update_task_status, CreateTaskRequest, ProjectHandler, ProjectQuery, ProjectTasksQuery, TaskHandler,
    TaskQuery, UpdateTaskStatusRequest,
};
use ilm::memory::{MemoryProjectRepository, MemoryTaskRepository};
use ilm::project::Project;
use ilm::repository::{ProjectRepository, TaskRepository};
use ilm::service::{ProjectService, TaskService};
use ilm::task::{Task, TaskPriority, TaskStatus};

fn repo_with(projects: &[u128]) -> MemoryTaskRepository {
    let mut repo = MemoryTaskRepository::new();
    for id in projects {
        repo.add_project(*id);
    }
    repo
}

fn uuid_text(id: u128) -> String {
    uuid::Uuid::from_u128(id).to_string()
}

fn project_handler() -> (ProjectHandler<MemoryProjectRepository>, u128) {
    let mut repo = MemoryProjectRepository::new();
    let project = Project::new(
        "Test Project".to_string(),
        Some("Test Description".to_string()),
        "user_1".to_string(),
        "user_1".to_string(),
    );
    repo.create(&project).unwrap();
    (ProjectHandler::new(ProjectService::new(repo)), project.id)
}

fn task_handler() -> (TaskHandler<MemoryTaskRepository>, Task) {
    let mut repo = MemoryTaskRepository::new();
    let project_id = uuid::Uuid::new_v4().as_u128();
    let task = Task::new(
        project_id,
        "Test Task".to_string(),
        Some("Test task description".to_string()),
        TaskPriority::High,
        Some("user_1".to_string()),
        None,
        "creator_1".to_string(),
    );
    repo.add_project(project_id);
    repo.create(&task).unwrap();
    (TaskHandler::new(TaskService::new(repo)), task)
}

#[test]
fn test_get_project_success() {
    let (handler, project_id) = project_handler();
    let reply = get_project(&handler, &ProjectQuery { id: uuid_text(project_id) });
    assert!((200..300).contains(&reply.status));
    assert_eq!(reply.body.unwrap().id, project_id);
}

#[test]
fn test_get_project_not_found() {
    let (handler, _) = project_handler();
    let non_existent_id = uuid::Uuid::new_v4().as_u128();
    let reply = get_project(&handler, &ProjectQuery { id: uuid_text(non_existent_id) });
    assert_eq!(reply.status, 404);
    assert_eq!(reply.body, Err("Project not found".to_string()));
}

#[test]
fn test_get_project_invalid_id() {
    let (handler, _) = project_handler();
    let reply = get_project(&handler, &ProjectQuery { id: "invalid-uuid".to_string() });
    assert_eq!(reply.status, 400);
    assert_eq!(reply.body, Err("Invalid project ID format".to_string()));
}

#[test]
fn test_get_task_success() {
    let (handler, task) = task_handler();
    let reply = get_task(&handler, &TaskQuery { id: uuid_text(task.id) });
    assert!((200..300).contains(&reply.status));
    assert_eq!(reply.body, Ok(task));
}

#[test]
fn test_get_tasks_by_project_success() {
    let (handler, task) = task_handler();
    let reply = get_tasks_by_project(&handler, &ProjectTasksQuery { project_id: uuid_text(task.project_id) });
    assert!((200..300).contains(&reply.status));
    assert_eq!(reply.body, Ok(vec![task]));
}

#[test]
fn test_get_task_not_found() {
    let (handler, _) = task_handler();
    let non_existent_id = uuid::Uuid::new_v4().as_u128();
    let reply = get_task(&handler, &TaskQuery { id: uuid_text(non_existent_id) });
    assert_eq!(reply.status, 404);
}

#[test]
fn parsed_id_is_the_uuid_value() {
    let (handler, _) = task_handler();
    let reply = get_tasks_by_project(
        &handler,
        &ProjectTasksQuery { project_id: "00000000-0000-0000-0000-00000000002a".to_string() },
    );
    assert_eq!(reply.status, 200);
    assert_eq!(reply.body, Ok(vec![]));
    let bad = get_tasks_by_project(&handler, &ProjectTasksQuery { project_id: "nope".to_string() });
    assert_eq!(bad.status, 400);
}

fn request(project_id: String, due_date: Option<String>) -> CreateTaskRequest {
    CreateTaskRequest {
        project_id,
        title: "Design mockup".to_string(),
        description: None,
        priority: TaskPriority::Urgent,
        assigned_to: Some("dev".to_string()),
        due_date,
        created_by: "U1".to_string(),
    }
}

#[test]
fn create_task_parses_project_and_due_date() {
    let mut handler = TaskHandler::new(TaskService::new(repo_with(&[3, 7])));
    let reply = create_task(
        &mut handler,
        request("00000000-0000-0000-0000-000000000007".to_string(), Some("2024-01-02T03:04:05.678Z".to_string())),
    );
    assert_eq!(reply.status, 201);
    let task = reply.body.unwrap();
    assert_eq!(task.project_id, 7);
    assert_eq!(task.due_date, Some(1_704_164_645_678));
    assert_eq!(task.priority, TaskPriority::Urgent);
    assert_eq!(task.status, TaskStatus::Todo);
    assert_eq!(handler.service.repository.get_by_id(task.id), Ok(task));

    let offset = create_task(
        &mut handler,
        request("00000000-0000-0000-0000-000000000007".to_string(), Some("2024-01-02T05:04:05+02:00".to_string())),
    );
    assert_eq!(offset.body.unwrap().due_date, Some(1_704_164_645_000));
    assert_eq!(handler.service.repository.len(), 2);
}

#[test]
fn create_task_rejects_bad_input() {
    let mut handler = TaskHandler::new(TaskService::new(repo_with(&[3, 7])));
    let bad_project = create_task(&mut handler, request("not-a-uuid".to_string(), None));
    assert_eq!(bad_project.status, 400);
    assert_eq!(bad_project.body, Err("Invalid project ID format".to_string()));
    let bad_date = create_task(
        &mut handler,
        request(uuid_text(3), Some("yesterday".to_string())),
    );
    assert_eq!(bad_date.status, 400);
    assert_eq!(bad_date.body, Err("Invalid due_date format. Use RFC3339 format.".to_string()));
    assert_eq!(handler.service.repository.len(), 0);
    let no_date = create_task(&mut handler, request(uuid_text(3), None));
    assert_eq!(no_date.status, 201);
    assert_eq!(no_date.body.unwrap().due_date, None);
}

#[test]
fn update_status_and_delete_routes() {
    let (mut handler, task) = task_handler();
    let query = TaskQuery { id: uuid_text(task.id) };
    let reply = update_task_status(
        &mut handler,
        &query,
        UpdateTaskStatusRequest { status: TaskStatus::Done, updated_by: "lead".to_string() },
    );
    assert_eq!(reply.status, 200);
    let updated = reply.body.unwrap();
    assert_eq!(updated.status, TaskStatus::Done);
    assert_eq!(updated.updated_by, "lead");

    let missing = TaskQuery { id: uuid_text(task.id.wrapping_add(1)) };
    let reply = update_task_status(
        &mut handler,
        &missing,
        UpdateTaskStatusRequest { status: TaskStatus::Done, updated_by: "lead".to_string() },
    );
    assert_eq!(reply.status, 404);
    assert_eq!(delete_task(&mut handler, &missing).status, 404);
    assert_eq!(delete_task(&mut handler, &TaskQuery { id: "x".to_string() }).status, 400);

    let deleted = delete_task(&mut handler, &query);
    assert_eq!(deleted.status, 204);
    assert_eq!(deleted.body, Ok(()));
    assert_eq!(get_task(&handler, &query).status, 404);
}

#[test]
fn error_statuses() {
    assert_eq!(status_for(&AppError::NotFound), 404);
    assert_eq!(status_for(&AppError::Validation("v".to_string())), 400);
    assert_eq!(status_for(&AppError::Database("d".to_string())), 500);
    assert_eq!(status_for(&AppError::Internal("i".to_string())), 500);
    let r = reply_for::<u8>(Err(AppError::NotFound), 200, None);
    assert_eq!(r.status, 500);
    assert_eq!(r.body, Err("Internal server error".to_string()));
    let r = reply_for::<u8>(Err(AppError::Validation("v".to_string())), 200, Some("gone"));
    assert_eq!(r.status, 400);
    let r = reply_for::<u8>(Ok(3), 201, Some("gone"));
    assert_eq!(r.status, 201);
    assert_eq!(r.body, Ok(3));
}

#[test]
fn create_task_for_unknown_project_is_server_error() {
    let mut handler = TaskHandler::new(TaskService::new(repo_with(&[3])));
    let reply = create_task(&mut handler, request(uuid_text(4), None));
    assert_eq!(reply.status, 500);
    assert_eq!(reply.body, Err("Internal server error".to_string()));
    assert_eq!(handler.service.repository.len(), 0);
}
