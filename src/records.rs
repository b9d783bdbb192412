//! Rows as a relational store holds them: enums as text. Writing an entity
//! to a row and reading it back is lossless; a project status that names no
//! status is read as `Active`, while unknown task status or priority text is
//! refused.
use vstd::prelude::*;

use crate::error::{AppError, AppResult};
use crate::project::{parse_project_status, project_status_named, project_status_text, Project};
use crate::task::{
    task_priority_named, task_priority_text, task_status_named, task_status_text, Task,
    TaskPriority, TaskStatus,
};
use crate::text::copy_opt;

verus! {

/// A project row.
#[derive(Debug, Clone, PartialEq, Eq)]
pub struct ProjectRecord {
    pub id: u128,
    pub name: String,
    pub description: Option<String>,
    pub status: String,
    pub owner_id: String,
    pub created_at: i64,
    pub updated_at: i64,
    pub created_by: String,
    pub updated_by: String,
}

/// A task row.
#[derive(Debug, Clone, PartialEq, Eq)]
pub struct TaskRecord {
    pub id: u128,
    pub project_id: u128,
    pub title: String,
    pub description: Option<String>,
    pub status: String,
    pub priority: String,
    pub assigned_to: Option<String>,
    pub due_date: Option<i64>,
    pub created_at: i64,
    pub updated_at: i64,
    pub created_by: String,
    pub updated_by: String,
}

/// The project that a row stands for.
pub open spec fn project_of(r: ProjectRecord) -> Project {
    Project {
        id: r.id,
        name: r.name,
        description: r.description,
        status: project_status_named(r.status@),
        owner_id: r.owner_id,
        created_at: r.created_at,
        updated_at: r.updated_at,
        created_by: r.created_by,
        updated_by: r.updated_by,
    }
}

impl ProjectRecord {
    /// The row of a project, with its status as canonical text.
    pub fn from_project(p: &Project) -> (r: ProjectRecord)
        ensures
            r.id == p.id,
            r.name == p.name,
            r.description == p.description,
            r.status@ == project_status_text(p.status),
            r.owner_id == p.owner_id,
            r.created_at == p.created_at,
            r.updated_at == p.updated_at,
            r.created_by == p.created_by,
            r.updated_by == p.updated_by,
    {
        ProjectRecord {
            id: p.id,
            name: p.name.clone(),
            description: copy_opt(&p.description),
            status: String::from_str(p.status.as_str()),
            owner_id: p.owner_id.clone(),
            created_at: p.created_at,
            updated_at: p.updated_at,
            created_by: p.created_by.clone(),
            updated_by: p.updated_by.clone(),
        }
    }

    /// The project that the row stands for.
    pub fn into_project(self) -> (r: Project)
        ensures
            r == project_of(self),
    {
        let status = parse_project_status(self.status.as_str());
        Project {
            id: self.id,
            name: self.name,
            description: self.description,
            status,
            owner_id: self.owner_id,
            created_at: self.created_at,
            updated_at: self.updated_at,
            created_by: self.created_by,
            updated_by: self.updated_by,
        }
    }
}

/// The task that a row stands for, if its status and priority text name
/// a status and a priority.
pub open spec fn task_of(r: TaskRecord) -> Option<Task> {
    if task_status_named(r.status@) is Some && task_priority_named(r.priority@) is Some {
        Some(
            Task {
                id: r.id,
                project_id: r.project_id,
                title: r.title,
                description: r.description,
                status: task_status_named(r.status@)->0,
                priority: task_priority_named(r.priority@)->0,
                assigned_to: r.assigned_to,
                due_date: r.due_date,
                created_at: r.created_at,
                updated_at: r.updated_at,
                created_by: r.created_by,
                updated_by: r.updated_by,
            },
        )
    } else {
        None
    }
}

impl TaskRecord {
    /// The row of a task, with its status and priority as stored text.
    pub fn from_task(t: &Task) -> (r: TaskRecord)
        ensures
            r.id == t.id,
            r.project_id == t.project_id,
            r.title == t.title,
            r.description == t.description,
            r.status@ == task_status_text(t.status),
            r.priority@ == task_priority_text(t.priority),
            r.assigned_to == t.assigned_to,
            r.due_date == t.due_date,
            r.created_at == t.created_at,
            r.updated_at == t.updated_at,
            r.created_by == t.created_by,
            r.updated_by == t.updated_by,
    {
        TaskRecord {
            id: t.id,
            project_id: t.project_id,
            title: t.title.clone(),
            description: copy_opt(&t.description),
            status: String::from_str(t.status.as_str()),
            priority: String::from_str(t.priority.as_str()),
            assigned_to: copy_opt(&t.assigned_to),
            due_date: t.due_date,
            created_at: t.created_at,
            updated_at: t.updated_at,
            created_by: t.created_by.clone(),
            updated_by: t.updated_by.clone(),
        }
    }

    /// The task that the row stands for; text that names no status or no
    /// priority is a `Database` error.
    pub fn into_task(self) -> (r: AppResult<Task>)
        ensures
            task_of(self) is Some ==> r == Ok::<Task, AppError>(task_of(self)->0),
            task_of(self) is None ==> r is Err && r->Err_0 is Database,
    {
        let status = match TaskStatus::parse(self.status.as_str()) {
            Some(s) => s,
            None => {
                return Err(AppError::Database(String::from_str("unknown task status")));
            },
        };
        let priority = match TaskPriority::parse(self.priority.as_str()) {
            Some(p) => p,
            None => {
                return Err(AppError::Database(String::from_str("unknown task priority")));
            },
        };
        Ok(
            Task {
                id: self.id,
                project_id: self.project_id,
                title: self.title,
                description: self.description,
                status,
                priority,
                assigned_to: self.assigned_to,
                due_date: self.due_date,
                created_at: self.created_at,
                updated_at: self.updated_at,
                created_by: self.created_by,
                updated_by: self.updated_by,
            },
        )
    }
}

/// Writing a project to a row and reading the row back gives the project.
pub proof fn lemma_project_record_round_trip(p: Project, r: ProjectRecord)
    requires
        r.id == p.id,
        r.name == p.name,
        r.description == p.description,
        r.status@ == project_status_text(p.status),
        r.owner_id == p.owner_id,
        r.created_at == p.created_at,
        r.updated_at == p.updated_at,
        r.created_by == p.created_by,
        r.updated_by == p.updated_by,
    ensures
        project_of(r) == p,
{
    crate::project::lemma_project_status_text_round_trip(p.status);
}

/// Writing a task to a row and reading the row back gives the task.
pub proof fn lemma_task_record_round_trip(t: Task, r: TaskRecord)
    requires
        r.id == t.id,
        r.project_id == t.project_id,
        r.title == t.title,
        r.description == t.description,
        r.status@ == task_status_text(t.status),
        r.priority@ == task_priority_text(t.priority),
        r.assigned_to == t.assigned_to,
        r.due_date == t.due_date,
        r.created_at == t.created_at,
        r.updated_at == t.updated_at,
        r.created_by == t.created_by,
        r.updated_by == t.updated_by,
    ensures
        task_of(r) == Some(t),
{
    crate::task::lemma_task_status_text_round_trip(t.status);
    crate::task::lemma_task_priority_text_round_trip(t.priority);
}

} // verus!
