//! Repositories held in memory, for tests and embedding. They meet the
//! storage contract exactly, and never fail with `Database` but on a
//! duplicate identifier.
use vstd::prelude::*;

use crate::error::{AppError, AppResult};
use crate::project::Project;
use crate::text::copy_opt;
use crate::repository::{
    lists_project_tasks, project_lookup, project_overwritten, task_lookup, task_overwritten,
    ProjectRepository, TaskRepository,
};
use crate::task::Task;

verus! {

/// `rows` holds the projects of `stored`, each once.
pub open spec fn project_rows_match(rows: Seq<Project>, stored: Map<u128, Project>) -> bool {
    &&& forall|i: int|
        0 <= i < rows.len() ==> {
            &&& stored.contains_key(#[trigger] rows[i].id)
            &&& stored[rows[i].id] == rows[i]
        }
    &&& forall|id: u128|
        stored.contains_key(id) ==> exists|i: int| 0 <= i < rows.len() && #[trigger] rows[i].id == id
    &&& forall|i: int, j: int|
        0 <= i < rows.len() && 0 <= j < rows.len() && i != j ==> rows[i].id != rows[j].id
}

/// Projects held in a vector, one row per identifier.
pub struct MemoryProjectRepository {
    rows: Vec<Project>,
    stored: Ghost<Map<u128, Project>>,
}

impl MemoryProjectRepository {
    #[verifier::type_invariant]
    spec fn inv(self) -> bool {
        project_rows_match(self.rows@, self.stored@)
    }

    /// An empty repository.
    pub fn new() -> (r: MemoryProjectRepository)
        ensures
            r.projects() == Map::<u128, Project>::empty(),
    {
        MemoryProjectRepository { rows: Vec::new(), stored: Ghost(Map::empty()) }
    }

    /// The number of stored projects.
    pub fn len(&self) -> (r: usize)
        ensures
            r == self.projects().len(),
            self.projects().dom().finite(),
    {
        proof {
            use_type_invariant(self);
            let ids = Seq::new(self.rows.len() as nat, |i: int| self.rows[i].id);
            assert(ids.no_duplicates());
            ids.unique_seq_to_set();
            assert(ids.to_set() =~= self.stored@.dom()) by {
                assert forall|id: u128| self.stored@.contains_key(id) implies ids.to_set().contains(id) by {
                    let i = choose|i: int| 0 <= i < self.rows.len() && #[trigger] self.rows[i].id == id;
                    assert(ids[i] == id);
                }
            }
        }
        self.rows.len()
    }

    /// Moves the rows out, leaving the repository empty.
    fn take_rows(&mut self) -> (r: (Vec<Project>, Ghost<Map<u128, Project>>))
        ensures
            r.1@ == old(self).stored@,
            r.0@ == old(self).rows@,
            project_rows_match(r.0@, r.1@),
    {
        proof {
            use_type_invariant(&*self);
        }
        let mut taken = MemoryProjectRepository::new();
        std::mem::swap(self, &mut taken);
        proof {
            use_type_invariant(&taken);
        }
        let MemoryProjectRepository { rows, stored } = taken;
        (rows, stored)
    }

    fn position(&self, id: u128) -> (r: Option<usize>)
        ensures
            r is Some ==> r->0 < self.rows.len() && self.rows[r->0 as int].id == id,
            r is Some <==> self.stored@.contains_key(id),
    {
        proof {
            use_type_invariant(self);
        }
        let mut i: usize = 0;
        while i < self.rows.len()
            invariant
                i <= self.rows.len(),
                project_rows_match(self.rows@, self.stored@),
                forall|j: int| 0 <= j < i ==> self.rows[j].id != id,
            decreases self.rows.len() - i,
        {
            if self.rows[i].id == id {
                return Some(i);
            }
            i = i + 1;
        }
        None
    }
}

impl ProjectRepository for MemoryProjectRepository {
    closed spec fn projects(&self) -> Map<u128, Project> {
        self.stored@
    }

    fn get_by_id(&self, id: u128) -> (r: AppResult<Project>)
        ensures
            r == project_lookup(self.projects(), id),
    {
        proof {
            use_type_invariant(self);
        }
        match self.position(id) {
            Some(i) => Ok(self.rows[i].copy()),
            None => Err(AppError::NotFound),
        }
    }

    fn create(&mut self, project: &Project) -> (r: AppResult<()>)
        ensures
            !old(self).projects().contains_key(project.id) ==> r is Ok,
    {
        proof {
            use_type_invariant(&*self);
        }
        if self.position(project.id).is_some() {
            return Err(AppError::Database(String::from_str("duplicate project id")));
        }
        let row = project.copy();
        let (mut rows, stored) = self.take_rows();
        let ghost old_rows = rows@;
        rows.push(row);
        let ghost new_stored = stored@.insert(project.id, *project);
        proof {
            assert(rows@[rows.len() - 1].id == project.id);
            assert forall|id: u128| new_stored.contains_key(id) implies exists|i: int|
                0 <= i < rows.len() && #[trigger] rows@[i].id == id by {
                if id != project.id {
                    let i = choose|i: int| 0 <= i < old_rows.len() && #[trigger] old_rows[i].id == id;
                    assert(rows@[i].id == id);
                }
            }
        }
        *self = MemoryProjectRepository { rows, stored: Ghost(new_stored) };
        Ok(())
    }

    fn update(&mut self, project: &Project) -> (r: AppResult<()>)
        ensures
            old(self).projects().contains_key(project.id) ==> r is Ok,
    {
        proof {
            use_type_invariant(&*self);
        }
        match self.position(project.id) {
            None => Err(AppError::NotFound),
            Some(i) => {
                let ghost old_stored = self.stored@;
                let ghost merged = project_overwritten(old_stored[project.id], *project);
                let row = Project {
                    id: self.rows[i].id,
                    name: project.name.clone(),
                    description: copy_opt(&project.description),
                    status: project.status,
                    owner_id: project.owner_id.clone(),
                    created_at: self.rows[i].created_at,
                    updated_at: project.updated_at,
                    created_by: self.rows[i].created_by.clone(),
                    updated_by: project.updated_by.clone(),
                };
                assert(row == merged);
                let (mut rows, stored) = self.take_rows();
                let ghost old_rows = rows@;
                rows.set(i, row);
                let ghost new_stored = old_stored.insert(project.id, merged);
                proof {
                    assert forall|id: u128| new_stored.contains_key(id) implies exists|j: int|
                        0 <= j < rows.len() && #[trigger] rows@[j].id == id by {
                        let j = choose|j: int| 0 <= j < old_rows.len() && #[trigger] old_rows[j].id == id;
                        assert(rows@[j].id == id);
                    }
                }
                *self = MemoryProjectRepository { rows, stored: Ghost(new_stored) };
                Ok(())
            },
        }
    }

    fn delete(&mut self, id: u128) -> (r: AppResult<()>)
        ensures
            old(self).projects().contains_key(id) ==> r is Ok,
    {
        proof {
            use_type_invariant(&*self);
        }
        match self.position(id) {
            None => Err(AppError::NotFound),
            Some(i) => {
                let (mut rows, stored) = self.take_rows();
                let ghost old_rows = rows@;
                rows.remove(i);
                let ghost new_stored = stored@.remove(id);
                proof {
                    assert forall|k: u128| new_stored.contains_key(k) implies exists|j: int|
                        0 <= j < rows.len() && #[trigger] rows@[j].id == k by {
                        let j = choose|j: int| 0 <= j < old_rows.len() && #[trigger] old_rows[j].id == k;
                        if j < i {
                            assert(rows@[j].id == k);
                        } else {
                            assert(rows@[j - 1].id == k);
                        }
                    }
                }
                *self = MemoryProjectRepository { rows, stored: Ghost(new_stored) };
                Ok(())
            },
        }
    }
}

/// `rows` holds the tasks of `stored`, each once.
pub open spec fn task_rows_match(rows: Seq<Task>, stored: Map<u128, Task>) -> bool {
    &&& forall|i: int|
        0 <= i < rows.len() ==> {
            &&& stored.contains_key(#[trigger] rows[i].id)
            &&& stored[rows[i].id] == rows[i]
        }
    &&& forall|id: u128|
        stored.contains_key(id) ==> exists|i: int| 0 <= i < rows.len() && #[trigger] rows[i].id == id
    &&& forall|i: int, j: int|
        0 <= i < rows.len() && 0 <= j < rows.len() && i != j ==> rows[i].id != rows[j].id
}

/// Tasks held in a vector, one row per identifier.
pub struct MemoryTaskRepository {
    rows: Vec<Task>,
    stored: Ghost<Map<u128, Task>>,
    projects: Vec<u128>,
}

/// Where a task created at `at` goes in a list ordered newest first: after
/// every task created at or after `at`.
fn insertion_point(out: &Vec<Task>, at: i64) -> (p: usize)
    requires
        forall|i: int, j: int| 0 <= i < j < out.len() ==> out[i].created_at >= out[j].created_at,
    ensures
        p <= out.len(),
        forall|k: int| 0 <= k < p ==> out[k].created_at >= at,
        forall|k: int| p <= k < out.len() ==> out[k].created_at < at,
{
    let mut p: usize = 0;
    while p < out.len() && out[p].created_at >= at
        invariant
            p <= out.len(),
            forall|k: int| 0 <= k < p ==> out[k].created_at >= at,
        decreases out.len() - p,
    {
        p = p + 1;
    }
    p
}

/// `out` lists, each once and newest first, the tasks of `project_id` among
/// the first `n` of `rows`, as `stored` holds them.
#[verifier::opaque]
pub open spec fn listed_upto(
    rows: Seq<Task>,
    stored: Map<u128, Task>,
    project_id: u128,
    n: int,
    out: Seq<Task>,
) -> bool {
    &&& forall|k: int|
        0 <= k < out.len() ==> {
            &&& stored.contains_key(#[trigger] out[k].id)
            &&& stored[out[k].id] == out[k]
            &&& out[k].project_id == project_id
            &&& exists|j: int| 0 <= j < n && #[trigger] rows[j].id == out[k].id
        }
    &&& forall|j: int|
        0 <= j < n && #[trigger] rows[j].project_id == project_id ==> exists|k: int|
            0 <= k < out.len() && #[trigger] out[k].id == rows[j].id
    &&& forall|a: int, b: int| 0 <= a < b < out.len() ==> out[a].id != out[b].id
    &&& forall|a: int, b: int| 0 <= a < b < out.len() ==> out[a].created_at >= out[b].created_at
}

proof fn lemma_listed_step(
    rows: Seq<Task>,
    stored: Map<u128, Task>,
    project_id: u128,
    n: int,
    out: Seq<Task>,
    p: int,
)
    requires
        task_rows_match(rows, stored),
        listed_upto(rows, stored, project_id, n, out),
        0 <= n < rows.len(),
        rows[n].project_id == project_id,
        0 <= p <= out.len(),
        forall|k: int| 0 <= k < p ==> out[k].created_at >= rows[n].created_at,
        forall|k: int| p <= k < out.len() ==> out[k].created_at < rows[n].created_at,
    ensures
        listed_upto(rows, stored, project_id, n + 1, out.insert(p, rows[n])),
{
    reveal(listed_upto);
    let t = rows[n];
    let after = out.insert(p, t);
    assert(stored.contains_key(rows[n].id));
    assert forall|k: int| 0 <= k < after.len() implies {
        &&& stored.contains_key(#[trigger] after[k].id)
        &&& stored[after[k].id] == after[k]
        &&& after[k].project_id == project_id
        &&& exists|j: int| 0 <= j < n + 1 && #[trigger] rows[j].id == after[k].id
    } by {
        if k < p {
            assert(after[k] == out[k]);
        } else if k == p {
            assert(rows[n].id == after[k].id);
        } else {
            assert(after[k] == out[k - 1]);
        }
    }
    assert forall|j: int|
        0 <= j < n + 1 && #[trigger] rows[j].project_id == project_id implies exists|k: int|
        0 <= k < after.len() && #[trigger] after[k].id == rows[j].id by {
        if j == n {
            assert(after[p].id == rows[j].id);
        } else {
            let k = choose|k: int| 0 <= k < out.len() && #[trigger] out[k].id == rows[j].id;
            if k < p {
                assert(after[k].id == rows[j].id);
            } else {
                assert(after[k + 1].id == rows[j].id);
            }
        }
    }
    assert forall|a: int, b: int| 0 <= a < b < after.len() implies after[a].id != after[b].id by {
        if a == p {
            assert(after[b] == out[b - 1]);
            let jb = choose|jb: int| 0 <= jb < n && #[trigger] rows[jb].id == out[b - 1].id;
        } else if b == p {
            assert(after[a] == out[a]);
            let ja = choose|ja: int| 0 <= ja < n && #[trigger] rows[ja].id == out[a].id;
        }
    }
}

proof fn lemma_listed_skip(rows: Seq<Task>, stored: Map<u128, Task>, project_id: u128, n: int, out: Seq<Task>)
    requires
        listed_upto(rows, stored, project_id, n, out),
        0 <= n < rows.len(),
        rows[n].project_id != project_id,
    ensures
        listed_upto(rows, stored, project_id, n + 1, out),
{
    reveal(listed_upto);
    assert forall|k: int| 0 <= k < out.len() implies {
        &&& stored.contains_key(#[trigger] out[k].id)
        &&& exists|j: int| 0 <= j < n + 1 && #[trigger] rows[j].id == out[k].id
    } by {
        let j = choose|j: int| 0 <= j < n && #[trigger] rows[j].id == out[k].id;
    }
}

proof fn lemma_listed_all(rows: Seq<Task>, stored: Map<u128, Task>, project_id: u128, out: Seq<Task>)
    requires
        task_rows_match(rows, stored),
        listed_upto(rows, stored, project_id, rows.len() as int, out),
    ensures
        lists_project_tasks(stored, project_id, out),
{
    reveal(listed_upto);
    assert forall|id: u128|
        stored.contains_key(id) && stored[id].project_id == project_id implies exists|k: int|
        0 <= k < out.len() && #[trigger] out[k].id == id by {
        let j = choose|j: int| 0 <= j < rows.len() && #[trigger] rows[j].id == id;
        assert(rows[j].project_id == project_id);
    }
}

impl MemoryTaskRepository {
    #[verifier::type_invariant]
    spec fn inv(self) -> bool {
        task_rows_match(self.rows@, self.stored@)
    }

    /// An empty repository, which knows of no project.
    pub fn new() -> (r: MemoryTaskRepository)
        ensures
            r.tasks() == Map::<u128, Task>::empty(),
            r.project_ids() == Set::<u128>::empty(),
    {
        proof {
            assert(Set::new(|id: u128| Seq::<u128>::empty().contains(id)) =~= Set::<u128>::empty());
        }
        MemoryTaskRepository { rows: Vec::new(), stored: Ghost(Map::empty()), projects: Vec::new() }
    }

    /// The number of stored tasks.
    pub fn len(&self) -> (r: usize)
        ensures
            r == self.tasks().len(),
            self.tasks().dom().finite(),
    {
        proof {
            use_type_invariant(self);
            let ids = Seq::new(self.rows.len() as nat, |i: int| self.rows[i].id);
            assert(ids.no_duplicates());
            ids.unique_seq_to_set();
            assert(ids.to_set() =~= self.stored@.dom()) by {
                assert forall|id: u128| self.stored@.contains_key(id) implies ids.to_set().contains(id) by {
                    let i = choose|i: int| 0 <= i < self.rows.len() && #[trigger] self.rows[i].id == id;
                    assert(ids[i] == id);
                }
            }
        }
        self.rows.len()
    }

    /// Records that project `project_id` is stored, so that its tasks can be
    /// created.
    pub fn add_project(&mut self, project_id: u128)
        ensures
            final(self).project_ids() == old(self).project_ids().insert(project_id),
            final(self).tasks() == old(self).tasks(),
    {
        let (rows, stored, mut projects) = self.take_rows();
        let ghost old_projects = projects@;
        projects.push(project_id);
        proof {
            assert(Set::new(|id: u128| projects@.contains(id)) =~= Set::new(
                |id: u128| old_projects.contains(id),
            ).insert(project_id)) by {
                assert forall|id: u128| #[trigger] projects@.contains(id) implies id == project_id
                    || old_projects.contains(id) by {
                    let i = choose|i: int| 0 <= i < projects@.len() && projects@[i] == id;
                    if i < old_projects.len() {
                        assert(old_projects[i] == id);
                    }
                }
                assert forall|id: u128| old_projects.contains(id) implies #[trigger] projects@.contains(id) by {
                    let i = choose|i: int| 0 <= i < old_projects.len() && old_projects[i] == id;
                    assert(projects@[i] == id);
                }
                assert(projects@[projects@.len() - 1] == project_id);
            }
        }
        *self = MemoryTaskRepository { rows, stored, projects };
    }

    fn has_project(&self, project_id: u128) -> (r: bool)
        ensures
            r == self.project_ids().contains(project_id),
    {
        let mut i: usize = 0;
        while i < self.projects.len()
            invariant
                i <= self.projects.len(),
                forall|j: int| 0 <= j < i ==> self.projects@[j] != project_id,
            decreases self.projects.len() - i,
        {
            if self.projects[i] == project_id {
                proof {
                    assert(self.projects@[i as int] == project_id);
                }
                return true;
            }
            i = i + 1;
        }
        false
    }

    /// Moves the rows out, leaving the repository empty.
    fn take_rows(&mut self) -> (r: (Vec<Task>, Ghost<Map<u128, Task>>, Vec<u128>))
        ensures
            r.1@ == old(self).stored@,
            r.0@ == old(self).rows@,
            r.2@ == old(self).projects@,
            task_rows_match(r.0@, r.1@),
    {
        proof {
            use_type_invariant(&*self);
        }
        let mut taken = MemoryTaskRepository::new();
        std::mem::swap(self, &mut taken);
        proof {
            use_type_invariant(&taken);
        }
        let MemoryTaskRepository { rows, stored, projects } = taken;
        (rows, stored, projects)
    }

    fn position(&self, id: u128) -> (r: Option<usize>)
        ensures
            r is Some ==> r->0 < self.rows.len() && self.rows[r->0 as int].id == id,
            r is Some <==> self.stored@.contains_key(id),
    {
        proof {
            use_type_invariant(self);
        }
        let mut i: usize = 0;
        while i < self.rows.len()
            invariant
                i <= self.rows.len(),
                task_rows_match(self.rows@, self.stored@),
                forall|j: int| 0 <= j < i ==> self.rows[j].id != id,
            decreases self.rows.len() - i,
        {
            if self.rows[i].id == id {
                return Some(i);
            }
            i = i + 1;
        }
        None
    }
}

impl TaskRepository for MemoryTaskRepository {
    closed spec fn tasks(&self) -> Map<u128, Task> {
        self.stored@
    }

    closed spec fn project_ids(&self) -> Set<u128> {
        Set::new(|id: u128| self.projects@.contains(id))
    }

    fn get_by_id(&self, id: u128) -> (r: AppResult<Task>)
        ensures
            r == task_lookup(self.tasks(), id),
    {
        proof {
            use_type_invariant(self);
        }
        match self.position(id) {
            Some(i) => Ok(self.rows[i].copy()),
            None => Err(AppError::NotFound),
        }
    }

    fn get_by_project_id(&self, project_id: u128) -> (r: AppResult<Vec<Task>>)
        ensures
            r is Ok,
    {
        proof {
            use_type_invariant(self);
            reveal(listed_upto);
        }
        let mut out: Vec<Task> = Vec::new();
        let mut i: usize = 0;
        while i < self.rows.len()
            invariant
                i <= self.rows.len(),
                task_rows_match(self.rows@, self.stored@),
                listed_upto(self.rows@, self.stored@, project_id, i as int, out@),
            decreases self.rows.len() - i,
        {
            if self.rows[i].project_id == project_id {
                let t = self.rows[i].copy();
                proof {
                    reveal(listed_upto);
                }
                let p = insertion_point(&out, t.created_at);
                let ghost before = out@;
                out.insert(p, t);
                proof {
                    lemma_listed_step(self.rows@, self.stored@, project_id, i as int, before, p as int);
                }
            } else {
                proof {
                    lemma_listed_skip(self.rows@, self.stored@, project_id, i as int, out@);
                }
            }
            i = i + 1;
        }
        proof {
            lemma_listed_all(self.rows@, self.stored@, project_id, out@);
        }
        Ok(out)
    }

    fn create(&mut self, task: &Task) -> (r: AppResult<()>)
        ensures
            !old(self).tasks().contains_key(task.id) && old(self).project_ids().contains(task.project_id)
                ==> r is Ok,
    {
        proof {
            use_type_invariant(&*self);
        }
        if self.position(task.id).is_some() {
            return Err(AppError::Database(String::from_str("duplicate task id")));
        }
        if !self.has_project(task.project_id) {
            return Err(AppError::Database(String::from_str("unknown project id")));
        }
        let row = task.copy();
        let (mut rows, stored, projects) = self.take_rows();
        let ghost old_rows = rows@;
        rows.push(row);
        let ghost new_stored = stored@.insert(task.id, *task);
        proof {
            assert(rows@[rows.len() - 1].id == task.id);
            assert forall|id: u128| new_stored.contains_key(id) implies exists|i: int|
                0 <= i < rows.len() && #[trigger] rows@[i].id == id by {
                if id != task.id {
                    let i = choose|i: int| 0 <= i < old_rows.len() && #[trigger] old_rows[i].id == id;
                    assert(rows@[i].id == id);
                }
            }
        }
        *self = MemoryTaskRepository { rows, stored: Ghost(new_stored), projects };
        Ok(())
    }

    fn update(&mut self, task: &Task) -> (r: AppResult<()>)
        ensures
            old(self).tasks().contains_key(task.id) ==> r is Ok,
    {
        proof {
            use_type_invariant(&*self);
        }
        match self.position(task.id) {
            None => Err(AppError::NotFound),
            Some(i) => {
                let ghost old_stored = self.stored@;
                let ghost merged = task_overwritten(old_stored[task.id], *task);
                let row = Task {
                    id: self.rows[i].id,
                    project_id: self.rows[i].project_id,
                    title: task.title.clone(),
                    description: copy_opt(&task.description),
                    status: task.status,
                    priority: task.priority,
                    assigned_to: copy_opt(&task.assigned_to),
                    due_date: task.due_date,
                    created_at: self.rows[i].created_at,
                    updated_at: task.updated_at,
                    created_by: self.rows[i].created_by.clone(),
                    updated_by: task.updated_by.clone(),
                };
                assert(row == merged);
                let (mut rows, stored, projects) = self.take_rows();
                let ghost old_rows = rows@;
                rows.set(i, row);
                let ghost new_stored = old_stored.insert(task.id, merged);
                proof {
                    assert forall|id: u128| new_stored.contains_key(id) implies exists|j: int|
                        0 <= j < rows.len() && #[trigger] rows@[j].id == id by {
                        let j = choose|j: int| 0 <= j < old_rows.len() && #[trigger] old_rows[j].id == id;
                        assert(rows@[j].id == id);
                    }
                }
                *self = MemoryTaskRepository { rows, stored: Ghost(new_stored), projects };
                Ok(())
            },
        }
    }

    fn delete(&mut self, id: u128) -> (r: AppResult<()>)
        ensures
            old(self).tasks().contains_key(id) ==> r is Ok,
    {
        proof {
            use_type_invariant(&*self);
        }
        match self.position(id) {
            None => Err(AppError::NotFound),
            Some(i) => {
                let (mut rows, stored, projects) = self.take_rows();
                let ghost old_rows = rows@;
                rows.remove(i);
                let ghost new_stored = stored@.remove(id);
                proof {
                    assert forall|k: u128| new_stored.contains_key(k) implies exists|j: int|
                        0 <= j < rows.len() && #[trigger] rows@[j].id == k by {
                        let j = choose|j: int| 0 <= j < old_rows.len() && #[trigger] old_rows[j].id == k;
                        if j < i {
                            assert(rows@[j].id == k);
                        } else {
                            assert(rows@[j - 1].id == k);
                        }
                    }
                }
                *self = MemoryTaskRepository { rows, stored: Ghost(new_stored), projects };
                Ok(())
            },
        }
    }
}

} // verus!
