//! Request handling: what each request turns into, and the status and body
//! of the reply. Transport and serialisation are left to the caller.
use vstd::prelude::*;

use crate::clock::{parse_rfc3339_millis, rfc3339_millis};
use crate::error::{AppError, AppResult};
use crate::ids::{parse_id, uuid_value};
use crate::project::Project;
use crate::repository::{lists_project_tasks, ProjectRepository, TaskRepository};
use crate::service::{ProjectService, TaskService};
use crate::task::{Task, TaskPriority, TaskStatus};

verus! {

/// A reply: an HTTP status, and either the payload or an error message.
#[derive(Debug, PartialEq, Eq)]
pub struct Reply<T> {
    pub status: u16,
    pub body: Result<T, String>,
}

/// `GET /projects?id=...`
#[derive(Debug, Clone, PartialEq, Eq)]
pub struct ProjectQuery {
    pub id: String,
}

/// `?id=...` of a single task.
#[derive(Debug, Clone, PartialEq, Eq)]
pub struct TaskQuery {
    pub id: String,
}

/// `GET /projects/tasks?project_id=...`
#[derive(Debug, Clone, PartialEq, Eq)]
pub struct ProjectTasksQuery {
    pub project_id: String,
}

/// The body of a request to create a task. `due_date` is RFC 3339 text.
#[derive(Debug, Clone, PartialEq, Eq)]
pub struct CreateTaskRequest {
    pub project_id: String,
    pub title: String,
    pub description: Option<String>,
    pub priority: TaskPriority,
    pub assigned_to: Option<String>,
    pub due_date: Option<String>,
    pub created_by: String,
}

/// The body of a request to change a task's status.
#[derive(Debug, Clone, PartialEq, Eq)]
pub struct UpdateTaskStatusRequest {
    pub status: TaskStatus,
    pub updated_by: String,
}

/// Serves project requests.
pub struct ProjectHandler<R: ProjectRepository> {
    pub service: ProjectService<R>,
}

impl<R: ProjectRepository> ProjectHandler<R> {
    pub fn new(service: ProjectService<R>) -> (r: Self)
        ensures
            r.service == service,
    {
        ProjectHandler { service }
    }
}

/// Serves task requests.
pub struct TaskHandler<R: TaskRepository> {
    pub service: TaskService<R>,
}

impl<R: TaskRepository> TaskHandler<R> {
    pub fn new(service: TaskService<R>) -> (r: Self)
        ensures
            r.service == service,
    {
        TaskHandler { service }
    }
}

/// The HTTP status of an error: 404 for a missing entity, 400 for a broken
/// rule, 500 for the rest.
pub open spec fn error_status(e: AppError) -> u16 {
    match e {
        AppError::NotFound => 404,
        AppError::Validation(_) => 400,
        _ => 500,
    }
}

/// Computes `error_status(*e)`.
pub fn status_for(e: &AppError) -> (r: u16)
    ensures
        r == error_status(*e),
{
    match e {
        AppError::NotFound => 404,
        AppError::Validation(_) => 400,
        _ => 500,
    }
}

/// A 400 reply with `message`.
pub fn bad_request<T>(message: &str) -> (r: Reply<T>)
    ensures
        r.status == 400,
        r.body is Err && r.body->Err_0@ == message@,
{
    Reply { status: 400, body: Err(String::from_str(message)) }
}

/// The reply to the outcome of a service call: `ok_status` with the payload
/// on success; on `NotFound`, 404 with `missing` where the route names one
/// and 500 otherwise; on any other error, its status with a generic message.
pub fn reply_for<T>(result: AppResult<T>, ok_status: u16, missing: Option<&str>) -> (r: Reply<T>)
    ensures
        result is Ok ==> r.status == ok_status && r.body == Ok::<T, String>(result->Ok_0),
        result is Err && result->Err_0 is NotFound && missing is Some ==> r.status == 404
            && r.body is Err && r.body->Err_0@ == missing->0@,
        result is Err && !(result->Err_0 is NotFound && missing is Some) ==> r.status
            == (if result->Err_0 is NotFound { 500 } else { error_status(result->Err_0) })
            && r.body is Err && r.body->Err_0@ == "Internal server error"@,
{
    match result {
        Ok(v) => Reply { status: ok_status, body: Ok(v) },
        Err(e) => {
            match (&e, missing) {
                (AppError::NotFound, Some(m)) => Reply { status: 404, body: Err(String::from_str(m)) },
                (AppError::NotFound, None) => Reply {
                    status: 500,
                    body: Err(String::from_str("Internal server error")),
                },
                _ => Reply { status: status_for(&e), body: Err(String::from_str("Internal server error")) },
            }
        },
    }
}

/// Looks up a project by the identifier in the query.
pub fn get_project<R: ProjectRepository>(handler: &ProjectHandler<R>, query: &ProjectQuery) -> (r: Reply<Project>)
    ensures
        uuid_value(query.id@) is None ==> r.status == 400 && r.body is Err && r.body->Err_0@
            == "Invalid project ID format"@,
        uuid_value(query.id@) is Some ==> {
            let id = uuid_value(query.id@)->0;
            let stored = handler.service.repository.projects();
            &&& !stored.contains_key(id) ==> r.status == 404 && r.body is Err && r.body->Err_0@
                == "Project not found"@
            &&& stored.contains_key(id) ==> r.status != 404
            &&& r.status == 200 ==> stored.contains_key(id) && r.body == Ok::<Project, String>(stored[id])
            &&& r.status == 200 || r.status == 404 || r.status == 500
        },
{
    match parse_id(query.id.as_str()) {
        None => bad_request("Invalid project ID format"),
        Some(id) => reply_for(handler.service.get_project(id), 200, Some("Project not found")),
    }
}

/// Looks up a task by the identifier in the query.
pub fn get_task<R: TaskRepository>(handler: &TaskHandler<R>, query: &TaskQuery) -> (r: Reply<Task>)
    ensures
        uuid_value(query.id@) is None ==> r.status == 400 && r.body is Err && r.body->Err_0@
            == "Invalid task ID format"@,
        uuid_value(query.id@) is Some ==> {
            let id = uuid_value(query.id@)->0;
            let stored = handler.service.repository.tasks();
            &&& !stored.contains_key(id) ==> r.status == 404 && r.body is Err && r.body->Err_0@
                == "Task not found"@
            &&& stored.contains_key(id) ==> r.status != 404
            &&& r.status == 200 ==> stored.contains_key(id) && r.body == Ok::<Task, String>(stored[id])
            &&& r.status == 200 || r.status == 404 || r.status == 500
        },
{
    match parse_id(query.id.as_str()) {
        None => bad_request("Invalid task ID format"),
        Some(id) => reply_for(handler.service.get_task(id), 200, Some("Task not found")),
    }
}

/// Lists the tasks of the project in the query, most recently created first.
pub fn get_tasks_by_project<R: TaskRepository>(handler: &TaskHandler<R>, query: &ProjectTasksQuery) -> (r: Reply<Vec<Task>>)
    ensures
        uuid_value(query.project_id@) is None ==> r.status == 400 && r.body is Err
            && r.body->Err_0@ == "Invalid project ID format"@,
        uuid_value(query.project_id@) is Some ==> {
            &&& r.status == 200 ==> r.body is Ok && lists_project_tasks(
                handler.service.repository.tasks(),
                uuid_value(query.project_id@)->0,
                r.body->Ok_0@,
            )
            &&& r.status == 200 || r.status == 500
        },
{
    match parse_id(query.project_id.as_str()) {
        None => bad_request("Invalid project ID format"),
        Some(project_id) => reply_for(handler.service.get_tasks_by_project(project_id), 200, None),
    }
}

/// Creates a task from the request: 201 with the task, 400 when the project
/// identifier or the due date cannot be read.
pub fn create_task<R: TaskRepository>(handler: &mut TaskHandler<R>, payload: CreateTaskRequest) -> (r: Reply<Task>)
    ensures
        uuid_value(payload.project_id@) is None ==> r.status == 400 && r.body is Err
            && r.body->Err_0@ == "Invalid project ID format"@
            && final(handler).service.repository.tasks() == old(handler).service.repository.tasks(),
        uuid_value(payload.project_id@) is Some && payload.due_date is Some && rfc3339_millis(
            payload.due_date->0@,
        ) is None ==> r.status == 400 && r.body is Err && r.body->Err_0@
            == "Invalid due_date format. Use RFC3339 format."@
            && final(handler).service.repository.tasks() == old(handler).service.repository.tasks(),
        r.status == 201 ==> r.body is Ok && {
            let t = r.body->Ok_0;
            &&& uuid_value(payload.project_id@) == Some(t.project_id)
            &&& old(handler).service.repository.project_ids().contains(t.project_id)
            &&& t.title == payload.title
            &&& t.description == payload.description
            &&& t.status == TaskStatus::Todo
            &&& t.priority == payload.priority
            &&& t.assigned_to == payload.assigned_to
            &&& payload.due_date is None ==> t.due_date is None
            &&& payload.due_date is Some ==> t.due_date == rfc3339_millis(payload.due_date->0@)
            &&& t.created_by == payload.created_by
            &&& final(handler).service.repository.tasks() == old(handler).service.repository.tasks().insert(t.id, t)
        },
        uuid_value(payload.project_id@) is Some && (payload.due_date is None || rfc3339_millis(
            payload.due_date->0@,
        ) is Some) ==> r.status == 201 || r.status == 500,
        r.status == 201 || r.status == 400 || r.status == 500,
        r.status != 201 ==> final(handler).service.repository.tasks() == old(handler).service.repository.tasks(),
{
    let CreateTaskRequest { project_id, title, description, priority, assigned_to, due_date, created_by } = payload;
    let project_id = match parse_id(project_id.as_str()) {
        None => {
            return bad_request("Invalid project ID format");
        },
        Some(id) => id,
    };
    let due_date = match due_date {
        None => None,
        Some(text) => match parse_rfc3339_millis(text.as_str()) {
            None => {
                return bad_request("Invalid due_date format. Use RFC3339 format.");
            },
            Some(at) => Some(at),
        },
    };
    let created = handler.service.create_task(project_id, title, description, priority, assigned_to, due_date, created_by);
    reply_for(created, 201, None)
}

/// Sets the status of the task in the query.
pub fn update_task_status<R: TaskRepository>(
    handler: &mut TaskHandler<R>,
    query: &TaskQuery,
    payload: UpdateTaskStatusRequest,
) -> (r: Reply<Task>)
    ensures
        uuid_value(query.id@) is None ==> r.status == 400 && r.body is Err && r.body->Err_0@
            == "Invalid task ID format"@,
        uuid_value(query.id@) is Some && !old(handler).service.repository.tasks().contains_key(
            uuid_value(query.id@)->0,
        ) ==> r.status == 404 && r.body is Err && r.body->Err_0@ == "Task not found"@,
        r.status == 200 ==> r.body is Ok && {
            let id = uuid_value(query.id@)->0;
            let t = r.body->Ok_0;
            &&& uuid_value(query.id@) is Some
            &&& old(handler).service.repository.tasks().contains_key(id)
            &&& t == (Task {
                status: payload.status,
                updated_at: t.updated_at,
                updated_by: payload.updated_by,
                ..old(handler).service.repository.tasks()[id]
            })
            &&& final(handler).service.repository.tasks() == old(handler).service.repository.tasks().insert(id, t)
        },
        uuid_value(query.id@) is Some ==> r.status != 400,
        r.status == 200 || r.status == 400 || r.status == 404 || r.status == 500,
        r.status != 200 ==> final(handler).service.repository.tasks() == old(handler).service.repository.tasks(),
{
    match parse_id(query.id.as_str()) {
        None => bad_request("Invalid task ID format"),
        Some(id) => {
            let updated = handler.service.update_task_status(id, payload.status, payload.updated_by);
            reply_for(updated, 200, Some("Task not found"))
        },
    }
}

/// Deletes the task in the query: 204 with no payload.
pub fn delete_task<R: TaskRepository>(handler: &mut TaskHandler<R>, query: &TaskQuery) -> (r: Reply<()>)
    ensures
        uuid_value(query.id@) is None ==> r.status == 400 && r.body is Err && r.body->Err_0@
            == "Invalid task ID format"@,
        uuid_value(query.id@) is Some && !old(handler).service.repository.tasks().contains_key(
            uuid_value(query.id@)->0,
        ) ==> r.status == 404 && r.body is Err && r.body->Err_0@ == "Task not found"@,
        r.status == 204 ==> uuid_value(query.id@) is Some && old(handler).service.repository.tasks().contains_key(
            uuid_value(query.id@)->0,
        ) && final(handler).service.repository.tasks() == old(handler).service.repository.tasks().remove(
            uuid_value(query.id@)->0,
        ),
        uuid_value(query.id@) is Some ==> r.status != 400,
        r.status == 204 || r.status == 400 || r.status == 404 || r.status == 500,
        r.status != 204 ==> final(handler).service.repository.tasks() == old(handler).service.repository.tasks(),
{
    match parse_id(query.id.as_str()) {
        None => bad_request("Invalid task ID format"),
        Some(id) => reply_for(handler.service.delete_task(id), 204, Some("Task not found")),
    }
}

} // verus!
