use vstd::prelude::*;
use vstd::string::StringExecFns;

use crate::error::DbError;
use crate::schedule::{long_term_text, normalize_schedule, schedule_of, schedule_ok, Schedule};
use crate::text::{same_text, trim_text, trimmed};

verus! {

/// The shape of a task, which decides its schedule fields.
#[derive(Clone, Copy, Debug, PartialEq, Eq, Structural)]
pub enum TaskType {
    Simple,
    Cycle,
    LongTerm,
}

/// Where a task stands in its lifecycle.
#[derive(Clone, Copy, Debug, PartialEq, Eq, Structural)]
pub enum TaskStatus {
    Active,
    Completed,
    Archived,
}

/// The task type that a stored or user-supplied name denotes; any name but
/// `cycle` and `long_term` denotes a simple task.
pub open spec fn kind_of(s: Seq<char>) -> TaskType {
    if s == "cycle"@ {
        TaskType::Cycle
    } else if s == "long_term"@ {
        TaskType::LongTerm
    } else {
        TaskType::Simple
    }
}

/// The status that a stored name denotes, if any.
pub open spec fn status_of(s: Seq<char>) -> Option<TaskStatus> {
    if s == "active"@ {
        Some(TaskStatus::Active)
    } else if s == "completed"@ {
        Some(TaskStatus::Completed)
    } else if s == "archived"@ {
        Some(TaskStatus::Archived)
    } else {
        None
    }
}

impl TaskType {
    pub open spec fn name(self) -> Seq<char> {
        match self {
            TaskType::Simple => "simple"@,
            TaskType::Cycle => "cycle"@,
            TaskType::LongTerm => "long_term"@,
        }
    }

    /// Reads a task type from its name.
    pub fn parse(s: &str) -> (r: TaskType)
        ensures
            r == kind_of(s@),
    {
        if same_text(s, "cycle") {
            TaskType::Cycle
        } else if same_text(s, "long_term") {
            TaskType::LongTerm
        } else {
            TaskType::Simple
        }
    }

    /// The name under which the type is stored.
    pub fn as_str(&self) -> (r: &'static str)
        ensures
            r@ == self.name(),
    {
        match self {
            TaskType::Simple => "simple",
            TaskType::Cycle => "cycle",
            TaskType::LongTerm => "long_term",
        }
    }
}

impl TaskStatus {
    pub open spec fn name(self) -> Seq<char> {
        match self {
            TaskStatus::Active => "active"@,
            TaskStatus::Completed => "completed"@,
            TaskStatus::Archived => "archived"@,
        }
    }

    /// Reads a status from its name; `None` for any other name.
    pub fn parse(s: &str) -> (r: Option<TaskStatus>)
        ensures
            r == status_of(s@),
    {
        if same_text(s, "active") {
            Some(TaskStatus::Active)
        } else if same_text(s, "completed") {
            Some(TaskStatus::Completed)
        } else if same_text(s, "archived") {
            Some(TaskStatus::Archived)
        } else {
            None
        }
    }

    /// The name under which the status is stored.
    pub fn as_str(&self) -> (r: &'static str)
        ensures
            r@ == self.name(),
    {
        match self {
            TaskStatus::Active => "active",
            TaskStatus::Completed => "completed",
            TaskStatus::Archived => "archived",
        }
    }
}

/// A task as it is stored and handed to callers: a snapshot, not a live
/// reference to the stored row.
#[derive(Clone, Debug)]
pub struct Task {
    pub id: String,
    pub name: String,
    pub description: String,
    pub task_type: TaskType,
    pub progress: i64,
    pub target: i64,
    pub repeat_rule: Option<String>,
    pub start_date: Option<String>,
    pub end_date: Option<String>,
    pub status: TaskStatus,
    pub created_at: String,
    pub updated_at: String,
}

/// What a caller supplies to create a task.
#[derive(Clone, Debug)]
pub struct NewTask {
    pub id: Option<String>,
    pub name: String,
    pub description: Option<String>,
    pub task_type: String,
    pub target: Option<i64>,
    pub repeat: Option<String>,
    pub date_range: Option<Vec<String>>,
}

/// What a caller supplies to edit a task in full.
#[derive(Clone, Debug)]
pub struct UpdateTask {
    pub id: String,
    pub name: String,
    pub description: Option<String>,
    pub task_type: String,
    pub target: Option<i64>,
    pub repeat: Option<String>,
    pub date_range: Option<Vec<String>>,
}

/// A request that names one task.
#[derive(Clone, Debug)]
pub struct IdPayload {
    pub id: String,
}

/// The columns of a stored task, in the order in which they are selected.
pub type TaskRow = (
    String,
    String,
    String,
    String,
    i64,
    i64,
    Option<String>,
    Option<String>,
    Option<String>,
    String,
    String,
    String,
);

/// The message for a stored status name that is none of the three.
pub open spec fn unknown_status_text(name: Seq<char>) -> Seq<char> {
    "unknown task status: "@ + name
}

/// The message for a step of progress asked of an archived task.
pub open spec fn archived_text() -> Seq<char> {
    "cannot update archived task"@
}

/// The target that a request leaves: the requested one, else the fallback,
/// and never below one.
pub open spec fn clamp_target(target: Option<i64>, fallback: i64) -> i64 {
    let t = match target {
        Some(t) => t,
        None => fallback,
    };
    if t < 1 {
        1
    } else {
        t
    }
}

/// The stored description: the given one, or empty, trimmed.
pub open spec fn description_of(description: Option<String>) -> Seq<char> {
    match description {
        Some(d) => trimmed(d@),
        None => trimmed(Seq::empty()),
    }
}

/// The progress after one increment: one more, but never past the target.
pub open spec fn next_progress(progress: i64, target: i64) -> i64 {
    if progress < target {
        (progress + 1) as i64
    } else {
        progress
    }
}

fn clamp_target_exec(target: Option<i64>, fallback: i64) -> (r: i64)
    ensures
        r == clamp_target(target, fallback),
{
    let t = match target {
        Some(t) => t,
        None => fallback,
    };
    if t < 1 {
        1
    } else {
        t
    }
}

fn description_text(description: Option<String>) -> (r: String)
    ensures
        r@ == description_of(description),
{
    match description {
        Some(d) => trim_text(d.as_str()),
        None => trim_text(String::new().as_str()),
    }
}

impl Task {
    /// The invariants that every stored task keeps.
    pub open spec fn is_valid(&self) -> bool {
        &&& 1 <= self.target
        &&& 0 <= self.progress <= self.target
        &&& self.status == TaskStatus::Completed ==> self.progress == self.target
        &&& match self.task_type {
            TaskType::Cycle => self.start_date is None && self.end_date is None,
            TaskType::LongTerm => self.repeat_rule is None && (self.start_date is Some
                <==> self.end_date is Some),
            TaskType::Simple => self.repeat_rule is None && self.start_date is None
                && self.end_date is None,
        }
    }

    /// The schedule fields as one triple.
    pub open spec fn schedule(&self) -> Schedule {
        (self.repeat_rule, self.start_date, self.end_date)
    }

    /// Everything but progress, status and the time of the last change agrees.
    pub open spec fn same_details(&self, other: &Task) -> bool {
        &&& self.id == other.id
        &&& self.name == other.name
        &&& self.description == other.description
        &&& self.task_type == other.task_type
        &&& self.target == other.target
        &&& self.schedule() == other.schedule()
        &&& self.created_at == other.created_at
    }

    /// `t` is the task that `p` creates under this id at this time.
    pub open spec fn created_from(p: NewTask, id: Seq<char>, now: Seq<char>, t: Task) -> bool {
        &&& t.id@ == id
        &&& t.name@ == trimmed(p.name@)
        &&& t.description@ == description_of(p.description)
        &&& t.task_type == kind_of(p.task_type@)
        &&& t.progress == 0
        &&& t.target == clamp_target(p.target, 1)
        &&& t.schedule() == schedule_of(p.task_type@, p.repeat, p.date_range)
        &&& t.status == TaskStatus::Active
        &&& t.created_at@ == now
        &&& t.updated_at@ == now
    }

    /// `t` is what the full edit `u` makes of `p`.
    pub open spec fn edited_from(p: Task, u: UpdateTask, t: Task) -> bool {
        &&& t.id == p.id
        &&& t.name@ == trimmed(u.name@)
        &&& t.description@ == description_of(u.description)
        &&& t.task_type == kind_of(u.task_type@)
        &&& t.target == clamp_target(u.target, p.target)
        &&& t.schedule() == schedule_of(u.task_type@, u.repeat, u.date_range)
        &&& t.progress == (if p.progress > t.target { t.target } else { p.progress })
        &&& t.status == (if p.status == TaskStatus::Archived {
            TaskStatus::Archived
        } else if t.progress >= t.target {
            TaskStatus::Completed
        } else {
            TaskStatus::Active
        })
        &&& t.created_at == p.created_at
    }

    /// `t` is `p` after one step of progress.
    pub open spec fn incremented_from(p: Task, t: Task) -> bool {
        &&& p.same_details(&t)
        &&& t.progress == next_progress(p.progress, p.target)
        &&& t.status == (if t.progress >= p.target {
            TaskStatus::Completed
        } else {
            p.status
        })
    }

    /// `t` is `p` moved to `status`, its progress untouched.
    pub open spec fn moved_from(p: Task, status: TaskStatus, t: Task) -> bool {
        &&& p.same_details(&t)
        &&& t.progress == p.progress
        &&& t.status == status
    }

    /// `t` is `p` reopened: active again, and a cycle task starts a fresh
    /// cycle at zero progress.
    pub open spec fn reopened_from(p: Task, t: Task) -> bool {
        &&& p.same_details(&t)
        &&& t.status == TaskStatus::Active
        &&& t.progress == (if p.task_type == TaskType::Cycle { 0 } else { p.progress })
    }

    /// `t` holds the columns of `row`, its type and status read from their
    /// names.
    pub open spec fn read_from(row: TaskRow, t: Task) -> bool {
        &&& t.id == row.0
        &&& t.name == row.1
        &&& t.description == row.2
        &&& t.task_type == kind_of(row.3@)
        &&& t.progress == row.4
        &&& t.target == row.5
        &&& t.schedule() == (row.6, row.7, row.8)
        &&& Some(t.status) == status_of(row.9@)
        &&& t.created_at == row.10
        &&& t.updated_at == row.11
    }

    /// Builds the record that a creation request stands for, at progress
    /// zero and active; fails as `normalize_schedule` does.
    pub fn from_new(payload: NewTask, id: String, now: String) -> (r: Result<Task, DbError>)
        ensures
            r is Ok <==> schedule_ok(payload.task_type@, payload.date_range),
            r matches Ok(t) ==> Task::created_from(payload, id@, now@, t),
            r matches Err(DbError::InvalidInput(m)) ==> m@ == long_term_text(),
            r is Err ==> r matches Err(DbError::InvalidInput(_)),
    {
        let target = clamp_target_exec(payload.target, 1);
        let schedule = match normalize_schedule(
            payload.task_type.as_str(),
            payload.repeat,
            payload.date_range,
        ) {
            Ok(s) => s,
            Err(e) => return Err(e),
        };
        let (repeat_rule, start_date, end_date) = schedule;
        let name = trim_text(payload.name.as_str());
        let description = description_text(payload.description);
        let task_type = TaskType::parse(payload.task_type.as_str());
        let created_at = now.clone();
        Ok(Task {
            id,
            name,
            description,
            task_type,
            progress: 0,
            target,
            repeat_rule,
            start_date,
            end_date,
            status: TaskStatus::Active,
            created_at,
            updated_at: now,
        })
    }

    /// Applies a full edit: details and schedule are replaced, progress is
    /// clamped to the new target, and the status is recomputed unless the
    /// task is archived; fails as `normalize_schedule` does.
    pub fn edited(self, payload: UpdateTask, now: String) -> (r: Result<Task, DbError>)
        ensures
            r is Ok <==> schedule_ok(payload.task_type@, payload.date_range),
            r matches Ok(t) ==> Task::edited_from(self, payload, t) && t.updated_at@ == now@,
            r matches Err(DbError::InvalidInput(m)) ==> m@ == long_term_text(),
            r is Err ==> r matches Err(DbError::InvalidInput(_)),
    {
        let schedule = match normalize_schedule(
            payload.task_type.as_str(),
            payload.repeat,
            payload.date_range,
        ) {
            Ok(s) => s,
            Err(e) => return Err(e),
        };
        let (repeat_rule, start_date, end_date) = schedule;
        let mut t = self;
        t.name = trim_text(payload.name.as_str());
        t.description = description_text(payload.description);
        t.task_type = TaskType::parse(payload.task_type.as_str());
        t.target = clamp_target_exec(payload.target, t.target);
        t.repeat_rule = repeat_rule;
        t.start_date = start_date;
        t.end_date = end_date;
        t.updated_at = now;
        if t.progress > t.target {
            t.progress = t.target;
        }
        if t.status != TaskStatus::Archived {
            t.status = if t.progress >= t.target {
                TaskStatus::Completed
            } else {
                TaskStatus::Active
            };
        }
        Ok(t)
    }

    /// One step of progress: refused on an archived task; otherwise progress
    /// grows by one up to the target, and reaching the target completes the
    /// task.
    pub fn incremented(self, now: String) -> (r: Result<Task, DbError>)
        ensures
            r is Err <==> self.status == TaskStatus::Archived,
            r is Err ==> r matches Err(DbError::InvalidInput(_)),
            r matches Err(DbError::InvalidInput(m)) ==> m@ == archived_text(),
            r matches Ok(t) ==> Task::incremented_from(self, t) && t.updated_at@ == now@,
    {
        if self.status == TaskStatus::Archived {
            return Err(DbError::InvalidInput(String::from_str("cannot update archived task")));
        }
        let mut t = self;
        if t.progress < t.target {
            t.progress = t.progress + 1;
        }
        if t.progress >= t.target {
            t.status = TaskStatus::Completed;
        }
        t.updated_at = now;
        Ok(t)
    }

    /// Moves the task to `status` whatever it was, progress untouched.
    pub fn with_status(self, status: TaskStatus, now: String) -> (t: Task)
        ensures
            Task::moved_from(self, status, t),
            t.updated_at@ == now@,
    {
        let mut t = self;
        t.status = status;
        t.updated_at = now;
        t
    }

    /// Sets progress back to zero, status untouched.
    pub fn progress_reset(self, now: String) -> (t: Task)
        ensures
            self.same_details(&t),
            t.progress == 0,
            t.status == self.status,
            t.updated_at@ == now@,
    {
        let mut t = self;
        t.progress = 0;
        t.updated_at = now;
        t
    }

    /// Reads a stored row; fails on a status name that is none of the three.
    /// A type name other than `cycle` or `long_term` reads as simple.
    pub fn from_row(row: TaskRow) -> (r: Result<Task, DbError>)
        ensures
            r is Ok <==> status_of(row.9@) is Some,
            r matches Err(DbError::InvalidInput(m)) ==> m@ == unknown_status_text(row.9@),
            r is Err ==> r matches Err(DbError::InvalidInput(_)),
            r matches Ok(t) ==> Task::read_from(row, t),
    {
        let (id, name, description, kind, progress, target, repeat_rule, start_date, end_date,
            status, created_at, updated_at) = row;
        let status = match TaskStatus::parse(status.as_str()) {
            Some(s) => s,
            None => {
                let msg = String::from_str("unknown task status: ").concat(status.as_str());
                return Err(DbError::InvalidInput(msg));
            },
        };
        Ok(Task {
            id,
            name,
            description,
            task_type: TaskType::parse(kind.as_str()),
            progress,
            target,
            repeat_rule,
            start_date,
            end_date,
            status,
            created_at,
            updated_at,
        })
    }
}

} // verus!
