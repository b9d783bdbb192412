//! Tasks: units of work that belong to a project.
use vstd::prelude::*;

use crate::clock::{advance, current_timestamp, later, stamped_after};
use crate::error::{AppError, AppResult};
use crate::ids::new_id;
use crate::text::{blank, char_count, copy_opt, is_blank, same_text};

verus! {

/// The longest task title accepted by validation, in characters.
pub const MAX_TASK_TITLE: usize = 200;

/// The longest task description accepted by validation, in characters.
pub const MAX_TASK_DESCRIPTION: usize = 1000;

/// Where a task stands. Any status may follow any other.
#[derive(Debug, Clone, Copy, PartialEq, Eq, Structural)]
pub enum TaskStatus {
    Todo,
    InProgress,
    Done,
    Blocked,
}

/// How urgent a task is.
#[derive(Debug, Clone, Copy, PartialEq, Eq, Structural)]
pub enum TaskPriority {
    Low,
    Medium,
    High,
    Urgent,
}

impl Default for TaskStatus {
    fn default() -> (r: TaskStatus)
        ensures
            r == TaskStatus::Todo,
    {
        TaskStatus::Todo
    }
}

impl Default for TaskPriority {
    fn default() -> (r: TaskPriority)
        ensures
            r == TaskPriority::Medium,
    {
        TaskPriority::Medium
    }
}

/// The stored text of a status.
pub open spec fn task_status_text(s: TaskStatus) -> Seq<char> {
    match s {
        TaskStatus::Todo => "todo"@,
        TaskStatus::InProgress => "in_progress"@,
        TaskStatus::Done => "done"@,
        TaskStatus::Blocked => "blocked"@,
    }
}

/// The stored text of a priority.
pub open spec fn task_priority_text(p: TaskPriority) -> Seq<char> {
    match p {
        TaskPriority::Low => "low"@,
        TaskPriority::Medium => "medium"@,
        TaskPriority::High => "high"@,
        TaskPriority::Urgent => "urgent"@,
    }
}

/// A status as shown to people.
pub open spec fn task_status_label(s: TaskStatus) -> Seq<char> {
    match s {
        TaskStatus::Todo => "To Do"@,
        TaskStatus::InProgress => "In Progress"@,
        TaskStatus::Done => "Done"@,
        TaskStatus::Blocked => "Blocked"@,
    }
}

/// A priority as shown to people.
pub open spec fn task_priority_label(p: TaskPriority) -> Seq<char> {
    match p {
        TaskPriority::Low => "Low"@,
        TaskPriority::Medium => "Medium"@,
        TaskPriority::High => "High"@,
        TaskPriority::Urgent => "Urgent"@,
    }
}

/// The status that stored text names, if any.
pub open spec fn task_status_named(t: Seq<char>) -> Option<TaskStatus> {
    if t == "todo"@ {
        Some(TaskStatus::Todo)
    } else if t == "in_progress"@ {
        Some(TaskStatus::InProgress)
    } else if t == "done"@ {
        Some(TaskStatus::Done)
    } else if t == "blocked"@ {
        Some(TaskStatus::Blocked)
    } else {
        None
    }
}

/// The priority that stored text names, if any.
pub open spec fn task_priority_named(t: Seq<char>) -> Option<TaskPriority> {
    if t == "low"@ {
        Some(TaskPriority::Low)
    } else if t == "medium"@ {
        Some(TaskPriority::Medium)
    } else if t == "high"@ {
        Some(TaskPriority::High)
    } else if t == "urgent"@ {
        Some(TaskPriority::Urgent)
    } else {
        None
    }
}

/// Storing a status as text and reading it back gives the same status.
pub proof fn lemma_task_status_text_round_trip(s: TaskStatus)
    ensures
        task_status_named(task_status_text(s)) == Some(s),
{
    reveal_strlit("todo");
    reveal_strlit("in_progress");
    reveal_strlit("done");
    reveal_strlit("blocked");
    assert("todo"@.len() == 4 && "in_progress"@.len() == 11 && "blocked"@.len() == 7);
    assert("done"@.len() == 4 && "todo"@[0] != "done"@[0]);
}

/// Storing a priority as text and reading it back gives the same priority.
pub proof fn lemma_task_priority_text_round_trip(p: TaskPriority)
    ensures
        task_priority_named(task_priority_text(p)) == Some(p),
{
    reveal_strlit("low");
    reveal_strlit("medium");
    reveal_strlit("high");
    reveal_strlit("urgent");
    assert("low"@.len() == 3 && "high"@.len() == 4 && "medium"@.len() == 6);
    assert("urgent"@.len() == 6 && "medium"@[0] != "urgent"@[0]);
}

impl TaskStatus {
    /// The stored text of the status.
    pub fn as_str(&self) -> (r: &'static str)
        ensures
            r@ == task_status_text(*self),
    {
        match self {
            TaskStatus::Todo => "todo",
            TaskStatus::InProgress => "in_progress",
            TaskStatus::Done => "done",
            TaskStatus::Blocked => "blocked",
        }
    }

    /// Reads a stored status; text that names no status is refused.
    pub fn parse(t: &str) -> (r: Option<TaskStatus>)
        ensures
            r == task_status_named(t@),
    {
        if same_text(t, "todo") {
            Some(TaskStatus::Todo)
        } else if same_text(t, "in_progress") {
            Some(TaskStatus::InProgress)
        } else if same_text(t, "done") {
            Some(TaskStatus::Done)
        } else if same_text(t, "blocked") {
            Some(TaskStatus::Blocked)
        } else {
            None
        }
    }

    /// The status as shown to people.
    pub fn label(&self) -> (r: &'static str)
        ensures
            r@ == task_status_label(*self),
    {
        match self {
            TaskStatus::Todo => "To Do",
            TaskStatus::InProgress => "In Progress",
            TaskStatus::Done => "Done",
            TaskStatus::Blocked => "Blocked",
        }
    }
}

impl TaskPriority {
    /// The stored text of the priority.
    pub fn as_str(&self) -> (r: &'static str)
        ensures
            r@ == task_priority_text(*self),
    {
        match self {
            TaskPriority::Low => "low",
            TaskPriority::Medium => "medium",
            TaskPriority::High => "high",
            TaskPriority::Urgent => "urgent",
        }
    }

    /// Reads a stored priority; text that names no priority is refused.
    pub fn parse(t: &str) -> (r: Option<TaskPriority>)
        ensures
            r == task_priority_named(t@),
    {
        if same_text(t, "low") {
            Some(TaskPriority::Low)
        } else if same_text(t, "medium") {
            Some(TaskPriority::Medium)
        } else if same_text(t, "high") {
            Some(TaskPriority::High)
        } else if same_text(t, "urgent") {
            Some(TaskPriority::Urgent)
        } else {
            None
        }
    }

    /// The priority as shown to people.
    pub fn label(&self) -> (r: &'static str)
        ensures
            r@ == task_priority_label(*self),
    {
        match self {
            TaskPriority::Low => "Low",
            TaskPriority::Medium => "Medium",
            TaskPriority::High => "High",
            TaskPriority::Urgent => "Urgent",
        }
    }
}

/// A task record.
#[derive(Debug, Clone, PartialEq, Eq)]
pub struct Task {
    pub id: u128,
    pub project_id: u128,
    pub title: String,
    pub description: Option<String>,
    pub status: TaskStatus,
    pub priority: TaskPriority,
    pub assigned_to: Option<String>,
    pub due_date: Option<i64>,
    pub created_at: i64,
    pub updated_at: i64,
    pub created_by: String,
    pub updated_by: String,
}

impl Task {
    /// The audit invariant: a task is never changed before it was created.
    pub open spec fn wf(&self) -> bool {
        self.created_at <= self.updated_at
    }

    /// The structural rules of validation.
    pub open spec fn valid(&self) -> bool {
        &&& !blank(self.title@)
        &&& self.title@.len() <= MAX_TASK_TITLE
        &&& self.description is Some ==> self.description->0@.len() <= MAX_TASK_DESCRIPTION
    }

    /// Whether the task is overdue at time `now`: it has a due date strictly
    /// before `now` and is not done.
    pub open spec fn overdue_at(&self, now: i64) -> bool {
        &&& self.due_date is Some
        &&& self.due_date->0 < now
        &&& self.status != TaskStatus::Done
    }

    /// A new task with the given identity and creation time: status `Todo`,
    /// created and last changed at `now` by `created_by`.
    pub fn with_identity(
        id: u128,
        now: i64,
        project_id: u128,
        title: String,
        description: Option<String>,
        priority: TaskPriority,
        assigned_to: Option<String>,
        due_date: Option<i64>,
        created_by: String,
    ) -> (r: Task)
        ensures
            r == (Task {
                id,
                project_id,
                title,
                description,
                status: TaskStatus::Todo,
                priority,
                assigned_to,
                due_date,
                created_at: now,
                updated_at: now,
                created_by,
                updated_by: created_by,
            }),
            r.wf(),
    {
        let updated_by = created_by.clone();
        Task {
            id,
            project_id,
            title,
            description,
            status: TaskStatus::Todo,
            priority,
            assigned_to,
            due_date,
            created_at: now,
            updated_at: now,
            created_by,
            updated_by,
        }
    }

    /// A new task with a fresh random identifier, stamped with the current
    /// time.
    pub fn new(
        project_id: u128,
        title: String,
        description: Option<String>,
        priority: TaskPriority,
        assigned_to: Option<String>,
        due_date: Option<i64>,
        created_by: String,
    ) -> (r: Task)
        ensures
            r.project_id == project_id,
            r.title == title,
            r.description == description,
            r.status == TaskStatus::Todo,
            r.priority == priority,
            r.assigned_to == assigned_to,
            r.due_date == due_date,
            r.created_at == r.updated_at,
            r.created_at >= 0,
            r.created_by == created_by,
            r.updated_by == created_by,
            r.wf(),
    {
        let id = new_id();
        let now = current_timestamp();
        Task::with_identity(id, now, project_id, title, description, priority, assigned_to, due_date, created_by)
    }

    /// Records a change made at `now` by `updated_by`. The audit time never
    /// moves back, and moves to `now` whenever the clock has moved on.
    pub fn touch(&mut self, updated_by: String, now: i64)
        ensures
            *final(self) == (Task {
                updated_at: later(old(self).updated_at, now),
                updated_by,
                ..*old(self)
            }),
            old(self).wf() ==> final(self).wf(),
    {
        self.updated_at = advance(self.updated_at, now);
        self.updated_by = updated_by;
    }

    /// Replaces the status, recording the change.
    pub fn update_status(&mut self, status: TaskStatus, updated_by: String)
        ensures
            *final(self) == (Task {
                status,
                updated_at: final(self).updated_at,
                updated_by,
                ..*old(self)
            }),
            final(self).updated_at >= old(self).updated_at,
            stamped_after(old(self).updated_at, final(self).updated_at),
            old(self).wf() ==> final(self).wf(),
    {
        self.status = status;
        let now = current_timestamp();
        self.touch(updated_by, now);
    }

    /// Replaces the priority, recording the change.
    pub fn update_priority(&mut self, priority: TaskPriority, updated_by: String)
        ensures
            *final(self) == (Task {
                priority,
                updated_at: final(self).updated_at,
                updated_by,
                ..*old(self)
            }),
            final(self).updated_at >= old(self).updated_at,
            stamped_after(old(self).updated_at, final(self).updated_at),
            old(self).wf() ==> final(self).wf(),
    {
        self.priority = priority;
        let now = current_timestamp();
        self.touch(updated_by, now);
    }

    /// Replaces the assignee (`None` unassigns), recording the change.
    pub fn assign_to(&mut self, assigned_to: Option<String>, updated_by: String)
        ensures
            *final(self) == (Task {
                assigned_to,
                updated_at: final(self).updated_at,
                updated_by,
                ..*old(self)
            }),
            final(self).updated_at >= old(self).updated_at,
            stamped_after(old(self).updated_at, final(self).updated_at),
            old(self).wf() ==> final(self).wf(),
    {
        self.assigned_to = assigned_to;
        let now = current_timestamp();
        self.touch(updated_by, now);
    }

    /// Replaces the due date (`None` clears it), recording the change.
    pub fn set_due_date(&mut self, due_date: Option<i64>, updated_by: String)
        ensures
            *final(self) == (Task {
                due_date,
                updated_at: final(self).updated_at,
                updated_by,
                ..*old(self)
            }),
            final(self).updated_at >= old(self).updated_at,
            stamped_after(old(self).updated_at, final(self).updated_at),
            old(self).wf() ==> final(self).wf(),
    {
        self.due_date = due_date;
        let now = current_timestamp();
        self.touch(updated_by, now);
    }

    /// Whether the task is done.
    pub fn is_completed(&self) -> (r: bool)
        ensures
            r == (self.status == TaskStatus::Done),
    {
        self.status == TaskStatus::Done
    }

    /// Whether someone is assigned to the task.
    pub fn is_assigned(&self) -> (r: bool)
        ensures
            r == self.assigned_to is Some,
    {
        self.assigned_to.is_some()
    }

    /// Whether the task is overdue at time `now`.
    pub fn is_overdue_at(&self, now: i64) -> (r: bool)
        ensures
            r == self.overdue_at(now),
    {
        match self.due_date {
            Some(due) => due < now && !self.is_completed(),
            None => false,
        }
    }

    /// Whether the task is overdue now, by the system clock.
    pub fn is_overdue(&self) -> (r: bool)
        ensures
            exists|now: i64| now >= 0 && r == #[trigger] self.overdue_at(now),
            self.due_date is None ==> !r,
            self.status == TaskStatus::Done ==> !r,
            r ==> self.due_date is Some,
    {
        let now = current_timestamp();
        self.is_overdue_at(now)
    }

    /// Checks the structural rules: a title that is not blank and has at
    /// most `MAX_TASK_TITLE` characters, and a description, if any, of at most
    /// `MAX_TASK_DESCRIPTION` characters. The first broken rule is the one returned.
    pub fn validate(&self) -> (r: AppResult<()>)
        ensures
            r is Ok <==> self.valid(),
            r is Err ==> r->Err_0 is Validation,
            blank(self.title@) ==> r->Err_0->Validation_0@ == "Task title cannot be empty"@,
            !blank(self.title@) && self.title@.len() > MAX_TASK_TITLE ==> r->Err_0->Validation_0@
                == "Task title cannot exceed 200 characters"@,
            !blank(self.title@) && self.title@.len() <= MAX_TASK_TITLE && !self.valid()
                ==> r->Err_0->Validation_0@ == "Task description cannot exceed 1000 characters"@,
    {
        if is_blank(self.title.as_str()) {
            return Err(AppError::Validation(String::from_str("Task title cannot be empty")));
        }
        if char_count(self.title.as_str()) > MAX_TASK_TITLE {
            return Err(AppError::Validation(String::from_str("Task title cannot exceed 200 characters")));
        }
        match &self.description {
            Some(d) => {
                if char_count(d.as_str()) > MAX_TASK_DESCRIPTION {
                    return Err(AppError::Validation(String::from_str("Task description cannot exceed 1000 characters")));
                }
            },
            None => {},
        }
        Ok(())
    }

    /// `Task '<title>' [<status>] - Priority: <priority>`, with the status and
    /// priority as shown to people.
    pub fn describe(&self) -> (r: String)
        ensures
            r@ == "Task '"@ + self.title@ + "' ["@ + task_status_label(self.status) + "] - Priority: "@
                + task_priority_label(self.priority),
    {
        let mut s = String::from_str("Task '");
        s.append(self.title.as_str());
        s.append("' [");
        s.append(self.status.label());
        s.append("] - Priority: ");
        s.append(self.priority.label());
        s
    }

    /// An exact copy of the task.
    pub fn copy(&self) -> (r: Task)
        ensures
            r == *self,
    {
        Task {
            id: self.id,
            project_id: self.project_id,
            title: self.title.clone(),
            description: copy_opt(&self.description),
            status: self.status,
            priority: self.priority,
            assigned_to: copy_opt(&self.assigned_to),
            due_date: self.due_date,
            created_at: self.created_at,
            updated_at: self.updated_at,
            created_by: self.created_by.clone(),
            updated_by: self.updated_by.clone(),
        }
    }
}

} // verus!
