//! Services: repository calls composed with the rule that an entity must
//! exist before it is changed or removed.
//!
//! The existence check and the write are two separate repository calls, so
//! a concurrent writer may act between them; the later write wins.
use vstd::prelude::*;

use crate::clock::stamped_after;
use crate::error::{AppError, AppResult};
use crate::project::{Project, ProjectStatus};
use crate::repository::{
    lemma_listing_counts, lists_project_tasks, project_overwritten, project_task_ids, task_overwritten,
    ProjectRepository, TaskRepository,
};
use crate::task::{Task, TaskPriority, TaskStatus};

verus! {

/// Operations on projects over a repository.
pub struct ProjectService<R: ProjectRepository> {
    pub repository: R,
}

impl<R: ProjectRepository> ProjectService<R> {
    pub fn new(repository: R) -> (r: Self)
        ensures
            r.repository == repository,
    {
        ProjectService { repository }
    }

    /// The stored project `id`, as the repository returns it.
    pub fn get_project(&self, id: u128) -> (r: AppResult<Project>)
        ensures
            r is Ok ==> self.repository.projects().contains_key(id) && r->Ok_0
                == self.repository.projects()[id],
            !self.repository.projects().contains_key(id) ==> r == Err::<Project, AppError>(
                AppError::NotFound,
            ),
            self.repository.projects().contains_key(id) ==> !(r is Err && r->Err_0 is NotFound),
            r is Err ==> r->Err_0 is NotFound || r->Err_0 is Database,
    {
        self.repository.get_by_id(id)
    }

    /// Builds a new project (fresh identifier, current time, status
    /// `Active`), stores it and returns it as built. Nothing is validated.
    pub fn create_project(
        &mut self,
        name: String,
        description: Option<String>,
        owner_id: String,
        created_by: String,
    ) -> (r: AppResult<Project>)
        ensures
            r is Ok ==> {
                let p = r->Ok_0;
                &&& p.name == name
                &&& p.description == description
                &&& p.status == ProjectStatus::Active
                &&& p.owner_id == owner_id
                &&& p.created_by == created_by
                &&& p.updated_by == created_by
                &&& p.created_at == p.updated_at
                &&& !old(self).repository.projects().contains_key(p.id)
                &&& final(self).repository.projects() == old(self).repository.projects().insert(p.id, p)
            },
            r is Err ==> r->Err_0 is Database && final(self).repository.projects()
                == old(self).repository.projects(),
    {
        let project = Project::new(name, description, owner_id, created_by);
        match self.repository.create(&project) {
            Ok(()) => Ok(project),
            Err(e) => Err(e),
        }
    }

    /// Checks that `project.id` is stored, then overwrites it.
    pub fn update_project(&mut self, project: &Project) -> (r: AppResult<()>)
        ensures
            !old(self).repository.projects().contains_key(project.id) ==> r == Err::<(), AppError>(
                AppError::NotFound,
            ),
            old(self).repository.projects().contains_key(project.id) ==> !(r is Err && r->Err_0 is NotFound),
            r is Ok ==> old(self).repository.projects().contains_key(project.id)
                && final(self).repository.projects() == old(self).repository.projects().insert(
                project.id,
                project_overwritten(
                    old(self).repository.projects()[project.id],
                    *project,
                ),
            ),
            r is Err ==> final(self).repository.projects() == old(self).repository.projects(),
            r is Err ==> r->Err_0 is NotFound || r->Err_0 is Database,
    {
        match self.repository.get_by_id(project.id) {
            Err(e) => Err(e),
            Ok(_) => self.repository.update(project),
        }
    }

    /// Checks that `id` is stored, then removes it.
    pub fn delete_project(&mut self, id: u128) -> (r: AppResult<()>)
        ensures
            !old(self).repository.projects().contains_key(id) ==> r == Err::<(), AppError>(
                AppError::NotFound,
            ),
            old(self).repository.projects().contains_key(id) ==> !(r is Err && r->Err_0 is NotFound),
            r is Ok ==> old(self).repository.projects().contains_key(id)
                && final(self).repository.projects() == old(self).repository.projects().remove(id),
            r is Err ==> final(self).repository.projects() == old(self).repository.projects(),
            r is Err ==> r->Err_0 is NotFound || r->Err_0 is Database,
    {
        match self.repository.get_by_id(id) {
            Err(e) => Err(e),
            Ok(_) => self.repository.delete(id),
        }
    }
}

/// Operations on tasks over a repository.
pub struct TaskService<R: TaskRepository> {
    pub repository: R,
}

/// The outcome of fetching task `id` from `before`, changing it and storing
/// it: when it succeeds, the task was stored, and the result replaced it.
pub open spec fn stored_change(
    before: Map<u128, Task>,
    after: Map<u128, Task>,
    id: u128,
    r: AppResult<Task>,
) -> bool {
    &&& !before.contains_key(id) ==> r == Err::<Task, AppError>(AppError::NotFound)
    &&& before.contains_key(id) ==> !(r is Err && r->Err_0 is NotFound)
    &&& r is Ok ==> {
        &&& before.contains_key(id)
        &&& r->Ok_0.updated_at >= before[id].updated_at
        &&& stamped_after(before[id].updated_at, r->Ok_0.updated_at)
        &&& after == before.insert(id, r->Ok_0)
    }
    &&& r is Err ==> after == before
    &&& r is Err ==> r->Err_0 is NotFound || r->Err_0 is Database
}

impl<R: TaskRepository> TaskService<R> {
    pub fn new(repository: R) -> (r: Self)
        ensures
            r.repository == repository,
    {
        TaskService { repository }
    }

    /// The stored task `id`, as the repository returns it.
    pub fn get_task(&self, id: u128) -> (r: AppResult<Task>)
        ensures
            r is Ok ==> self.repository.tasks().contains_key(id) && r->Ok_0
                == self.repository.tasks()[id],
            !self.repository.tasks().contains_key(id) ==> r == Err::<Task, AppError>(
                AppError::NotFound,
            ),
            self.repository.tasks().contains_key(id) ==> !(r is Err && r->Err_0 is NotFound),
            r is Err ==> r->Err_0 is NotFound || r->Err_0 is Database,
    {
        self.repository.get_by_id(id)
    }

    /// The tasks of `project_id`, most recently created first: one entry per
    /// stored task of the project, none when it has no tasks. Storage may
    /// still fail.
    pub fn get_tasks_by_project(&self, project_id: u128) -> (r: AppResult<Vec<Task>>)
        ensures
            r is Ok ==> lists_project_tasks(self.repository.tasks(), project_id, r->Ok_0@),
            r is Ok && self.repository.tasks().dom().finite() ==> r->Ok_0@.len() == project_task_ids(
                self.repository.tasks(),
                project_id,
            ).len(),
            r is Err ==> r->Err_0 is Database,
    {
        let listed = self.repository.get_by_project_id(project_id);
        proof {
            if listed is Ok && self.repository.tasks().dom().finite() {
                lemma_listing_counts(self.repository.tasks(), project_id, listed->Ok_0@);
            }
        }
        listed
    }

    /// Builds a new task (fresh identifier, current time, status `Todo`),
    /// stores it and returns it as built. Nothing is validated; a
    /// `project_id` that names no stored project fails with `Database`.
    pub fn create_task(
        &mut self,
        project_id: u128,
        title: String,
        description: Option<String>,
        priority: TaskPriority,
        assigned_to: Option<String>,
        due_date: Option<i64>,
        created_by: String,
    ) -> (r: AppResult<Task>)
        ensures
            r is Ok ==> {
                let t = r->Ok_0;
                &&& t.project_id == project_id
                &&& t.title == title
                &&& t.description == description
                &&& t.status == TaskStatus::Todo
                &&& t.priority == priority
                &&& t.assigned_to == assigned_to
                &&& t.due_date == due_date
                &&& t.created_by == created_by
                &&& t.updated_by == created_by
                &&& t.created_at == t.updated_at
                &&& !old(self).repository.tasks().contains_key(t.id)
                &&& final(self).repository.tasks() == old(self).repository.tasks().insert(t.id, t)
            },
            !old(self).repository.project_ids().contains(project_id) ==> r is Err,
            r is Err ==> r->Err_0 is Database && final(self).repository.tasks()
                == old(self).repository.tasks(),
    {
        let task = Task::new(project_id, title, description, priority, assigned_to, due_date, created_by);
        match self.repository.create(&task) {
            Ok(()) => Ok(task),
            Err(e) => Err(e),
        }
    }

    /// Checks that `task.id` is stored, then overwrites it.
    pub fn update_task(&mut self, task: &Task) -> (r: AppResult<()>)
        ensures
            !old(self).repository.tasks().contains_key(task.id) ==> r == Err::<(), AppError>(
                AppError::NotFound,
            ),
            old(self).repository.tasks().contains_key(task.id) ==> !(r is Err && r->Err_0 is NotFound),
            r is Ok ==> old(self).repository.tasks().contains_key(task.id)
                && final(self).repository.tasks() == old(self).repository.tasks().insert(
                task.id,
                task_overwritten(old(self).repository.tasks()[task.id], *task),
            ),
            r is Err ==> final(self).repository.tasks() == old(self).repository.tasks(),
            r is Err ==> r->Err_0 is NotFound || r->Err_0 is Database,
    {
        match self.repository.get_by_id(task.id) {
            Err(e) => Err(e),
            Ok(_) => self.repository.update(task),
        }
    }

    /// Fetches task `id`, sets its status, stores it and returns it.
    pub fn update_task_status(&mut self, id: u128, status: TaskStatus, updated_by: String) -> (r: AppResult<Task>)
        ensures
            stored_change(
                old(self).repository.tasks(),
                final(self).repository.tasks(),
                id,
                r,
            ),
            r is Ok ==> r->Ok_0 == (Task {
                status,
                updated_at: r->Ok_0.updated_at,
                updated_by,
                ..old(self).repository.tasks()[id]
            }),
    {
        match self.repository.get_by_id(id) {
            Err(e) => Err(e),
            Ok(task) => {
                let mut task = task;
                task.update_status(status, updated_by);
                match self.repository.update(&task) {
                    Ok(()) => {
                        assert(task_overwritten(old(self).repository.tasks()[id], task) == task);
                        Ok(task)
                    },
                    Err(e) => Err(e),
                }
            },
        }
    }

    /// Fetches task `id`, sets its assignee (`None` unassigns), stores it and
    /// returns it.
    pub fn assign_task(&mut self, id: u128, assigned_to: Option<String>, updated_by: String) -> (r: AppResult<Task>)
        ensures
            stored_change(
                old(self).repository.tasks(),
                final(self).repository.tasks(),
                id,
                r,
            ),
            r is Ok ==> r->Ok_0 == (Task {
                assigned_to,
                updated_at: r->Ok_0.updated_at,
                updated_by,
                ..old(self).repository.tasks()[id]
            }),
    {
        match self.repository.get_by_id(id) {
            Err(e) => Err(e),
            Ok(task) => {
                let mut task = task;
                task.assign_to(assigned_to, updated_by);
                match self.repository.update(&task) {
                    Ok(()) => {
                        assert(task_overwritten(old(self).repository.tasks()[id], task) == task);
                        Ok(task)
                    },
                    Err(e) => Err(e),
                }
            },
        }
    }

    /// Fetches task `id`, sets its due date (`None` clears it), stores it and
    /// returns it.
    pub fn set_task_due_date(&mut self, id: u128, due_date: Option<i64>, updated_by: String) -> (r: AppResult<Task>)
        ensures
            stored_change(
                old(self).repository.tasks(),
                final(self).repository.tasks(),
                id,
                r,
            ),
            r is Ok ==> r->Ok_0 == (Task {
                due_date,
                updated_at: r->Ok_0.updated_at,
                updated_by,
                ..old(self).repository.tasks()[id]
            }),
    {
        match self.repository.get_by_id(id) {
            Err(e) => Err(e),
            Ok(task) => {
                let mut task = task;
                task.set_due_date(due_date, updated_by);
                match self.repository.update(&task) {
                    Ok(()) => {
                        assert(task_overwritten(old(self).repository.tasks()[id], task) == task);
                        Ok(task)
                    },
                    Err(e) => Err(e),
                }
            },
        }
    }

    /// Checks that `id` is stored, then removes it.
    pub fn delete_task(&mut self, id: u128) -> (r: AppResult<()>)
        ensures
            !old(self).repository.tasks().contains_key(id) ==> r == Err::<(), AppError>(
                AppError::NotFound,
            ),
            old(self).repository.tasks().contains_key(id) ==> !(r is Err && r->Err_0 is NotFound),
            r is Ok ==> old(self).repository.tasks().contains_key(id) && final(self).repository.tasks()
                == old(self).repository.tasks().remove(id),
            r is Err ==> final(self).repository.tasks() == old(self).repository.tasks(),
            r is Err ==> r->Err_0 is NotFound || r->Err_0 is Database,
    {
        match self.repository.get_by_id(id) {
            Err(e) => Err(e),
            Ok(_) => self.repository.delete(id),
        }
    }
}

} // verus!
