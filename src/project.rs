//! Projects: containers of work with a name, an owner and a status.
use vstd::prelude::*;

use crate::clock::{advance, current_timestamp, later, stamped_after};
use crate::error::{AppError, AppResult};
use crate::ids::new_id;
use crate::text::{blank, char_count, copy_opt, is_blank, same_text};

verus! {

/// The longest project name accepted by validation, in characters.
pub const MAX_PROJECT_NAME: usize = 100;

/// The longest project description accepted by validation, in characters.
pub const MAX_PROJECT_DESCRIPTION: usize = 500;

/// Where a project stands. Any status may follow any other.
#[derive(Debug, Clone, Copy, PartialEq, Eq, Structural)]
pub enum ProjectStatus {
    Active,
    Archived,
    Completed,
}

impl Default for ProjectStatus {
    fn default() -> (r: ProjectStatus)
        ensures
            r == ProjectStatus::Active,
    {
        ProjectStatus::Active
    }
}

/// The canonical text of a status, as stored and as shown.
pub open spec fn project_status_text(s: ProjectStatus) -> Seq<char> {
    match s {
        ProjectStatus::Active => "Active"@,
        ProjectStatus::Archived => "Archived"@,
        ProjectStatus::Completed => "Completed"@,
    }
}

/// The status that stored text stands for; text that names no status is read
/// as `Active`.
pub open spec fn project_status_named(t: Seq<char>) -> ProjectStatus {
    if t == "Archived"@ {
        ProjectStatus::Archived
    } else if t == "Completed"@ {
        ProjectStatus::Completed
    } else {
        ProjectStatus::Active
    }
}

/// Storing a status as text and reading it back gives the same status.
pub proof fn lemma_project_status_text_round_trip(s: ProjectStatus)
    ensures
        project_status_named(project_status_text(s)) == s,
{
    reveal_strlit("Active");
    reveal_strlit("Archived");
    reveal_strlit("Completed");
    assert("Active"@.len() == 6 && "Archived"@.len() == 8 && "Completed"@.len() == 9);
}

impl ProjectStatus {
    /// The canonical text of the status.
    pub fn as_str(&self) -> (r: &'static str)
        ensures
            r@ == project_status_text(*self),
    {
        match self {
            ProjectStatus::Active => "Active",
            ProjectStatus::Archived => "Archived",
            ProjectStatus::Completed => "Completed",
        }
    }
}

/// Reads a stored status. Unrecognised text falls back to `Active`.
pub fn parse_project_status(status_str: &str) -> (r: ProjectStatus)
    ensures
        r == project_status_named(status_str@),
{
    if same_text(status_str, "Archived") {
        ProjectStatus::Archived
    } else if same_text(status_str, "Completed") {
        ProjectStatus::Completed
    } else {
        ProjectStatus::Active
    }
}

/// A project record.
#[derive(Debug, Clone, PartialEq, Eq)]
pub struct Project {
    pub id: u128,
    pub name: String,
    pub description: Option<String>,
    pub status: ProjectStatus,
    pub owner_id: String,
    pub created_at: i64,
    pub updated_at: i64,
    pub created_by: String,
    pub updated_by: String,
}

impl Project {
    /// The audit invariant: a project is never changed before it was created.
    pub open spec fn wf(&self) -> bool {
        self.created_at <= self.updated_at
    }

    /// The structural rules of validation.
    pub open spec fn valid(&self) -> bool {
        &&& !blank(self.name@)
        &&& self.name@.len() <= MAX_PROJECT_NAME
        &&& self.description is Some ==> self.description->0@.len() <= MAX_PROJECT_DESCRIPTION
    }

    /// A new project with the given identity and creation time: status
    /// `Active`, created and last changed at `now` by `created_by`.
    pub fn with_identity(
        id: u128,
        now: i64,
        name: String,
        description: Option<String>,
        owner_id: String,
        created_by: String,
    ) -> (r: Project)
        ensures
            r == (Project {
                id,
                name,
                description,
                status: ProjectStatus::Active,
                owner_id,
                created_at: now,
                updated_at: now,
                created_by,
                updated_by: created_by,
            }),
            r.wf(),
    {
        let updated_by = created_by.clone();
        Project {
            id,
            name,
            description,
            status: ProjectStatus::Active,
            owner_id,
            created_at: now,
            updated_at: now,
            created_by,
            updated_by,
        }
    }

    /// A new project with a fresh random identifier, stamped with the current
    /// time.
    pub fn new(name: String, description: Option<String>, owner_id: String, created_by: String) -> (r: Project)
        ensures
            r.name == name,
            r.description == description,
            r.status == ProjectStatus::Active,
            r.owner_id == owner_id,
            r.created_at == r.updated_at,
            r.created_at >= 0,
            r.created_by == created_by,
            r.updated_by == created_by,
            r.wf(),
    {
        let id = new_id();
        let now = current_timestamp();
        Project::with_identity(id, now, name, description, owner_id, created_by)
    }

    /// Records a change made at `now` by `updated_by`. The audit time never
    /// moves back, and moves to `now` whenever the clock has moved on.
    pub fn touch(&mut self, updated_by: String, now: i64)
        ensures
            *final(self) == (Project {
                updated_at: later(old(self).updated_at, now),
                updated_by,
                ..*old(self)
            }),
            old(self).wf() ==> final(self).wf(),
    {
        self.updated_at = advance(self.updated_at, now);
        self.updated_by = updated_by;
    }

    /// Replaces the status, recording the change.
    pub fn update_status(&mut self, status: ProjectStatus, updated_by: String)
        ensures
            *final(self) == (Project {
                status,
                updated_at: final(self).updated_at,
                updated_by,
                ..*old(self)
            }),
            final(self).updated_at >= old(self).updated_at,
            stamped_after(old(self).updated_at, final(self).updated_at),
            old(self).wf() ==> final(self).wf(),
    {
        self.status = status;
        let now = current_timestamp();
        self.touch(updated_by, now);
    }

    /// Replaces the name, recording the change. The name is not validated.
    pub fn update_name(&mut self, name: String, updated_by: String)
        ensures
            *final(self) == (Project {
                name,
                updated_at: final(self).updated_at,
                updated_by,
                ..*old(self)
            }),
            final(self).updated_at >= old(self).updated_at,
            stamped_after(old(self).updated_at, final(self).updated_at),
            old(self).wf() ==> final(self).wf(),
    {
        self.name = name;
        let now = current_timestamp();
        self.touch(updated_by, now);
    }

    /// Replaces the description, recording the change. The description is not
    /// validated.
    pub fn update_description(&mut self, description: Option<String>, updated_by: String)
        ensures
            *final(self) == (Project {
                description,
                updated_at: final(self).updated_at,
                updated_by,
                ..*old(self)
            }),
            final(self).updated_at >= old(self).updated_at,
            stamped_after(old(self).updated_at, final(self).updated_at),
            old(self).wf() ==> final(self).wf(),
    {
        self.description = description;
        let now = current_timestamp();
        self.touch(updated_by, now);
    }

    /// Checks the structural rules: a name that is not blank and has at most
    /// `MAX_PROJECT_NAME` characters, and a description, if any, of at most
    /// `MAX_PROJECT_DESCRIPTION` characters. The first broken rule is the one returned.
    pub fn validate(&self) -> (r: AppResult<()>)
        ensures
            r is Ok <==> self.valid(),
            r is Err ==> r->Err_0 is Validation,
            blank(self.name@) ==> r->Err_0->Validation_0@ == "Project name cannot be empty"@,
            !blank(self.name@) && self.name@.len() > MAX_PROJECT_NAME ==> r->Err_0->Validation_0@
                == "Project name cannot exceed 100 characters"@,
            !blank(self.name@) && self.name@.len() <= MAX_PROJECT_NAME && !self.valid()
                ==> r->Err_0->Validation_0@ == "Project description cannot exceed 500 characters"@,
    {
        if is_blank(self.name.as_str()) {
            return Err(AppError::Validation(String::from_str("Project name cannot be empty")));
        }
        if char_count(self.name.as_str()) > MAX_PROJECT_NAME {
            return Err(AppError::Validation(String::from_str("Project name cannot exceed 100 characters")));
        }
        match &self.description {
            Some(d) => {
                if char_count(d.as_str()) > MAX_PROJECT_DESCRIPTION {
                    return Err(AppError::Validation(String::from_str("Project description cannot exceed 500 characters")));
                }
            },
            None => {},
        }
        Ok(())
    }

    /// `Project '<name>' [<status>] - <description>`, with `No description`
    /// when there is none.
    pub fn describe(&self) -> (r: String)
        ensures
            r@ == "Project '"@ + self.name@ + "' ["@ + project_status_text(self.status) + "] - "@ + (
            match self.description {
                Some(d) => d@,
                None => "No description"@,
            }),
    {
        let mut s = String::from_str("Project '");
        s.append(self.name.as_str());
        s.append("' [");
        s.append(self.status.as_str());
        s.append("] - ");
        match &self.description {
            Some(d) => s.append(d.as_str()),
            None => s.append("No description"),
        }
        s
    }

    /// An exact copy of the project.
    pub fn copy(&self) -> (r: Project)
        ensures
            r == *self,
    {
        Project {
            id: self.id,
            name: self.name.clone(),
            description: copy_opt(&self.description),
            status: self.status,
            owner_id: self.owner_id.clone(),
            created_at: self.created_at,
            updated_at: self.updated_at,
            created_by: self.created_by.clone(),
            updated_by: self.updated_by.clone(),
        }
    }
}

} // verus!
