//! What the lifecycle transitions guarantee, stated over the relations that
//! their executable versions ensure.
use vstd::prelude::*;

use crate::task::{NewTask, Task, TaskStatus, TaskType, UpdateTask};

verus! {

/// A newly created task starts at zero progress, active, and keeps every
/// invariant, whatever target was asked for.
pub proof fn lemma_created_task_is_fresh(p: NewTask, id: Seq<char>, now: Seq<char>, t: Task)
    requires
        Task::created_from(p, id, now, t),
    ensures
        t.progress == 0,
        t.status == TaskStatus::Active,
        t.is_valid(),
{
}

/// One step of progress on a valid task that is not archived never passes
/// the target; afterwards the task is completed exactly when progress has
/// reached the target, and a completed task stays completed.
pub proof fn lemma_increment_stays_in_bounds(p: Task, t: Task)
    requires
        p.is_valid(),
        p.status != TaskStatus::Archived,
        Task::incremented_from(p, t),
    ensures
        t.is_valid(),
        t.progress <= t.target,
        t.progress == t.target <==> t.status == TaskStatus::Completed,
        p.status == TaskStatus::Completed ==> t.status == TaskStatus::Completed,
{
}

/// Archiving works from any status, leaves progress as it was, and keeps
/// every invariant.
pub proof fn lemma_archive_keeps_progress(p: Task, t: Task)
    requires
        p.is_valid(),
        Task::moved_from(p, TaskStatus::Archived, t),
    ensures
        t.status == TaskStatus::Archived,
        t.progress == p.progress,
        t.is_valid(),
{
}

/// Reopening makes a task active; a cycle task restarts at zero progress,
/// any other keeps its progress. Every invariant is kept.
pub proof fn lemma_reopen_resets_cycles(p: Task, t: Task)
    requires
        p.is_valid(),
        Task::reopened_from(p, t),
    ensures
        t.status == TaskStatus::Active,
        p.task_type == TaskType::Cycle ==> t.progress == 0,
        p.task_type != TaskType::Cycle ==> t.progress == p.progress,
        t.is_valid(),
{
}

/// A full edit leaves an archived task archived; on any other task the new
/// status is completed exactly when progress has reached the new target.
/// Every invariant is kept.
pub proof fn lemma_edit_recomputes_status(p: Task, u: UpdateTask, t: Task)
    requires
        p.is_valid(),
        Task::edited_from(p, u, t),
    ensures
        p.status == TaskStatus::Archived ==> t.status == TaskStatus::Archived,
        p.status != TaskStatus::Archived ==> t.status != TaskStatus::Archived,
        p.status != TaskStatus::Archived ==> (t.status == TaskStatus::Completed <==> t.progress
            >= t.target),
        t.is_valid(),
{
}

} // verus!
