//! The storage contract for each entity.
//!
//! A repository is described by the map from identifier to entity that it
//! holds. Each operation says what it returns and how the map changes, and
//! leaves room for the storage engine to fail with `AppError::Database`, in
//! which case nothing changed.
use vstd::prelude::*;

use crate::error::{AppError, AppResult};
use crate::project::Project;
use crate::task::Task;

verus! {

/// What an update stores over the row `stored`: every field of `p` but the
/// identity and creation fields, which never change.
pub open spec fn project_overwritten(stored: Project, p: Project) -> Project {
    Project { id: stored.id, created_at: stored.created_at, created_by: stored.created_by, ..p }
}

/// What an update stores over the row `stored`: every field of `t` but the
/// identity, the owning project and the creation fields, which never change.
pub open spec fn task_overwritten(stored: Task, t: Task) -> Task {
    Task {
        id: stored.id,
        project_id: stored.project_id,
        created_at: stored.created_at,
        created_by: stored.created_by,
        ..t
    }
}

/// `s` lists the tasks of `project_id` held in `stored`: each exactly once,
/// most recently created first.
pub open spec fn lists_project_tasks(stored: Map<u128, Task>, project_id: u128, s: Seq<Task>) -> bool {
    &&& forall|i: int|
        0 <= i < s.len() ==> {
            &&& stored.contains_key(#[trigger] s[i].id)
            &&& stored[s[i].id] == s[i]
            &&& s[i].project_id == project_id
        }
    &&& forall|id: u128|
        stored.contains_key(id) && stored[id].project_id == project_id ==> exists|i: int|
            0 <= i < s.len() && #[trigger] s[i].id == id
    &&& forall|i: int, j: int| 0 <= i < j < s.len() ==> s[i].id != s[j].id
    &&& forall|i: int, j: int| 0 <= i < j < s.len() ==> s[i].created_at >= s[j].created_at
}

/// The identifiers of the stored tasks of `project_id`.
pub open spec fn project_task_ids(stored: Map<u128, Task>, project_id: u128) -> Set<u128> {
    stored.dom().filter(|id: u128| stored[id].project_id == project_id)
}

/// What a lookup by identifier finds in `stored`.
pub open spec fn project_lookup(stored: Map<u128, Project>, id: u128) -> AppResult<Project> {
    if stored.contains_key(id) {
        Ok(stored[id])
    } else {
        Err(AppError::NotFound)
    }
}

/// What a lookup by identifier finds in `stored`.
pub open spec fn task_lookup(stored: Map<u128, Task>, id: u128) -> AppResult<Task> {
    if stored.contains_key(id) {
        Ok(stored[id])
    } else {
        Err(AppError::NotFound)
    }
}

/// Creating a project in storage that lacks its identifier, then looking
/// that identifier up, finds the project equal in every field.
pub proof fn lemma_project_round_trip(stored: Map<u128, Project>, p: Project)
    requires
        !stored.contains_key(p.id),
    ensures
        project_lookup(stored.insert(p.id, p), p.id) == Ok::<Project, AppError>(p),
{
}

/// Creating a task in storage that lacks its identifier, then looking that
/// identifier up, finds the task equal in every field.
pub proof fn lemma_task_round_trip(stored: Map<u128, Task>, t: Task)
    requires
        !stored.contains_key(t.id),
    ensures
        task_lookup(stored.insert(t.id, t), t.id) == Ok::<Task, AppError>(t),
{
}

/// A listing of a project's tasks has exactly one entry per stored task of
/// that project, so it is empty when the project has none.
pub proof fn lemma_listing_counts(stored: Map<u128, Task>, project_id: u128, s: Seq<Task>)
    requires
        stored.dom().finite(),
        lists_project_tasks(stored, project_id, s),
    ensures
        s.len() == project_task_ids(stored, project_id).len(),
        project_task_ids(stored, project_id).is_empty() ==> s.len() == 0,
{
    let ids = Seq::new(s.len(), |i: int| s[i].id);
    assert(ids.no_duplicates()) by {
        assert forall|i: int, j: int| 0 <= i < ids.len() && 0 <= j < ids.len() && i != j implies ids[i]
            != ids[j] by {
            if i < j {
                assert(s[i].id != s[j].id);
            } else {
                assert(s[j].id != s[i].id);
            }
        }
    }
    ids.unique_seq_to_set();
    assert(ids.to_set() =~= project_task_ids(stored, project_id)) by {
        assert forall|id: u128| #[trigger] project_task_ids(stored, project_id).contains(id) implies ids.to_set().contains(
            id,
        ) by {
            let i = choose|i: int| 0 <= i < s.len() && #[trigger] s[i].id == id;
            assert(ids[i] == id);
        }
        assert forall|id: u128| #[trigger] ids.to_set().contains(id) implies project_task_ids(
            stored,
            project_id,
        ).contains(id) by {
            let i = choose|i: int| 0 <= i < ids.len() && ids[i] == id;
            assert(stored.contains_key(s[i].id));
        }
    }
    if project_task_ids(stored, project_id).is_empty() {
        assert(project_task_ids(stored, project_id) =~= Set::empty());
    }
}

/// Storage of projects.
pub trait ProjectRepository {
    /// The stored projects, by identifier. An implementation that Verus does
    /// not check leaves it unspecified.
    closed spec fn projects(&self) -> Map<u128, Project> {
        arbitrary()
    }

    /// The stored project `id`; `NotFound` when there is none.
    fn get_by_id(&self, id: u128) -> (r: AppResult<Project>)
        ensures
            r is Ok ==> self.projects().contains_key(id) && r->Ok_0 == self.projects()[id],
            r is Ok ==> r->Ok_0.id == id,
            !self.projects().contains_key(id) ==> r is Err,
            r is Err ==> (r->Err_0 is NotFound <==> !self.projects().contains_key(id)),
            r is Err ==> r->Err_0 is NotFound || r->Err_0 is Database,
    ;

    /// Inserts a new row holding every field of `project`. An identifier that
    /// is already stored is a constraint violation (`Database`).
    fn create(&mut self, project: &Project) -> (r: AppResult<()>)
        ensures
            r is Ok ==> !old(self).projects().contains_key(project.id) && final(self).projects()
                == old(self).projects().insert(project.id, *project),
            old(self).projects().contains_key(project.id) ==> r is Err,
            r is Err ==> r->Err_0 is Database && final(self).projects() == old(self).projects(),
    ;

    /// Overwrites the mutable fields of the stored row `project.id`;
    /// `NotFound` when there is none.
    fn update(&mut self, project: &Project) -> (r: AppResult<()>)
        ensures
            r is Ok ==> old(self).projects().contains_key(project.id) && final(self).projects()
                == old(self).projects().insert(
                project.id,
                project_overwritten(old(self).projects()[project.id], *project),
            ),
            !old(self).projects().contains_key(project.id) ==> r is Err,
            r is Err ==> final(self).projects() == old(self).projects(),
            r is Err ==> (r->Err_0 is NotFound <==> !old(self).projects().contains_key(project.id)),
            r is Err ==> r->Err_0 is NotFound || r->Err_0 is Database,
    ;

    /// Removes the stored row `id`; `NotFound` when there is none.
    fn delete(&mut self, id: u128) -> (r: AppResult<()>)
        ensures
            r is Ok ==> old(self).projects().contains_key(id) && final(self).projects()
                == old(self).projects().remove(id),
            !old(self).projects().contains_key(id) ==> r is Err,
            r is Err ==> final(self).projects() == old(self).projects(),
            r is Err ==> (r->Err_0 is NotFound <==> !old(self).projects().contains_key(id)),
            r is Err ==> r->Err_0 is NotFound || r->Err_0 is Database,
    ;
}

/// Storage of tasks.
pub trait TaskRepository {
    /// The stored tasks, by identifier. An implementation that Verus does
    /// not check leaves it unspecified.
    closed spec fn tasks(&self) -> Map<u128, Task> {
        arbitrary()
    }

    /// The identifiers of the stored projects, which a task's `project_id`
    /// must name. An implementation that Verus does not check leaves it
    /// unspecified.
    closed spec fn project_ids(&self) -> Set<u128> {
        arbitrary()
    }

    /// The stored task `id`; `NotFound` when there is none.
    fn get_by_id(&self, id: u128) -> (r: AppResult<Task>)
        ensures
            r is Ok ==> self.tasks().contains_key(id) && r->Ok_0 == self.tasks()[id],
            r is Ok ==> r->Ok_0.id == id,
            !self.tasks().contains_key(id) ==> r is Err,
            r is Err ==> (r->Err_0 is NotFound <==> !self.tasks().contains_key(id)),
            r is Err ==> r->Err_0 is NotFound || r->Err_0 is Database,
    ;

    /// The tasks of `project_id`, most recently created first; an empty list
    /// when it has none.
    fn get_by_project_id(&self, project_id: u128) -> (r: AppResult<Vec<Task>>)
        ensures
            r is Ok ==> lists_project_tasks(self.tasks(), project_id, r->Ok_0@),
            r is Err ==> r->Err_0 is Database,
    ;

    /// Inserts a new row holding every field of `task`. An identifier that is
    /// already stored, or a `project_id` that names no stored project, is a
    /// constraint violation (`Database`).
    fn create(&mut self, task: &Task) -> (r: AppResult<()>)
        ensures
            r is Ok ==> !old(self).tasks().contains_key(task.id) && final(self).tasks()
                == old(self).tasks().insert(task.id, *task),
            old(self).tasks().contains_key(task.id) ==> r is Err,
            !old(self).project_ids().contains(task.project_id) ==> r is Err,
            final(self).project_ids() == old(self).project_ids(),
            r is Err ==> r->Err_0 is Database && final(self).tasks() == old(self).tasks(),
    ;

    /// Overwrites the mutable fields of the stored row `task.id`; `NotFound`
    /// when there is none.
    fn update(&mut self, task: &Task) -> (r: AppResult<()>)
        ensures
            r is Ok ==> old(self).tasks().contains_key(task.id) && final(self).tasks()
                == old(self).tasks().insert(
                task.id,
                task_overwritten(old(self).tasks()[task.id], *task),
            ),
            !old(self).tasks().contains_key(task.id) ==> r is Err,
            r is Err ==> final(self).tasks() == old(self).tasks(),
            final(self).project_ids() == old(self).project_ids(),
            r is Err ==> (r->Err_0 is NotFound <==> !old(self).tasks().contains_key(task.id)),
            r is Err ==> r->Err_0 is NotFound || r->Err_0 is Database,
    ;

    /// Removes the stored row `id`; `NotFound` when there is none.
    fn delete(&mut self, id: u128) -> (r: AppResult<()>)
        ensures
            r is Ok ==> old(self).tasks().contains_key(id) && final(self).tasks()
                == old(self).tasks().remove(id),
            !old(self).tasks().contains_key(id) ==> r is Err,
            r is Err ==> final(self).tasks() == old(self).tasks(),
            final(self).project_ids() == old(self).project_ids(),
            r is Err ==> (r->Err_0 is NotFound <==> !old(self).tasks().contains_key(id)),
            r is Err ==> r->Err_0 is NotFound || r->Err_0 is Database,
    ;
}

} // verus!
