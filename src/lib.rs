//! Persistence and lifecycle layer of a personal task tracker.
//!
//! Tasks come in three shapes (simple, cycle, long term), count progress
//! against a target and move through the states active, completed and
//! archived. The pure transitions live in `task`, the schedule rules in
//! `schedule`, and `store` keeps tasks in an embedded SQLite database.
mod dock;
mod error;
pub mod laws;
mod schedule;
mod store;
mod task;
mod text;

pub use dock::DockSide;
pub use error::DbError;
pub use schedule::normalize_schedule;
pub use store::{task_from_rows, tasks_from_rows, Db};
pub use task::{IdPayload, NewTask, Task, TaskRow, TaskStatus, TaskType, UpdateTask};
