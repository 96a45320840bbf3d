use vstd::prelude::*;

use crate::error::DbError;
use crate::task::{kind_of, TaskType};

verus! {

/// The schedule fields of a task: repeat rule, start date, end date.
pub type Schedule = (Option<String>, Option<String>, Option<String>);

/// The repeat rule kept for a cycle task: the given rule unless it is empty.
pub open spec fn repeat_rule_of(repeat: Option<String>) -> Option<String> {
    match repeat {
        Some(r) => if r@.len() > 0 { Some(r) } else { None },
        None => None,
    }
}

/// A long term task needs a date range of exactly two entries.
pub open spec fn range_ok(date_range: Option<Vec<String>>) -> bool {
    match date_range {
        Some(v) => v@.len() == 2,
        None => false,
    }
}

/// Whether the schedule inputs suit the given type of task.
pub open spec fn schedule_ok(task_type: Seq<char>, date_range: Option<Vec<String>>) -> bool {
    kind_of(task_type) == TaskType::LongTerm ==> range_ok(date_range)
}

/// The canonical schedule of a task type, where `schedule_ok` holds.
pub open spec fn schedule_of(
    task_type: Seq<char>,
    repeat: Option<String>,
    date_range: Option<Vec<String>>,
) -> Schedule {
    match kind_of(task_type) {
        TaskType::Cycle => (repeat_rule_of(repeat), None, None),
        TaskType::LongTerm => (
            None,
            Some(date_range.unwrap()@[0]),
            Some(date_range.unwrap()@[1]),
        ),
        TaskType::Simple => (None, None, None),
    }
}

/// The message for a long term task without exactly two dates.
pub open spec fn long_term_text() -> Seq<char> {
    "long term task requires start and end date"@
}

/// Maps a task type and the schedule inputs a user gave to the canonical
/// (repeat rule, start date, end date) triple.
///
/// A cycle task keeps a non-empty repeat rule and no dates; a long term task
/// takes its two dates and fails unless exactly two are given; any other type
/// is simple and keeps nothing.
pub fn normalize_schedule(
    task_type: &str,
    repeat: Option<String>,
    date_range: Option<Vec<String>>,
) -> (r: Result<Schedule, DbError>)
    ensures
        schedule_ok(task_type@, date_range) ==> r == Ok::<Schedule, DbError>(
            schedule_of(task_type@, repeat, date_range),
        ),
        !schedule_ok(task_type@, date_range) ==> (r matches Err(DbError::InvalidInput(m)) && m@
            == long_term_text()),
{
    match TaskType::parse(task_type) {
        TaskType::Cycle => {
            let rule = match repeat {
                Some(r) => if r.as_str().is_empty() { None } else { Some(r) },
                None => None,
            };
            Ok((rule, None, None))
        },
        TaskType::LongTerm => {
            match date_range {
                Some(range) => {
                    if range.len() == 2 {
                        Ok((None, Some(range[0].clone()), Some(range[1].clone())))
                    } else {
                        Err(DbError::InvalidInput(long_term_message()))
                    }
                },
                None => Err(DbError::InvalidInput(long_term_message())),
            }
        },
        TaskType::Simple => Ok((None, None, None)),
    }
}

fn long_term_message() -> (m: String)
    ensures
        m@ == long_term_text(),
{
    String::from_str("long term task requires start and end date")
}

} // verus!
