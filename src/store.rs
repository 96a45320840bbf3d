use vstd::prelude::*;
use vstd::string::StringExecFns;

use r2d2::{Pool, PooledConnection};
use r2d2_sqlite::SqliteConnectionManager;
use rusqlite::types::Value;

use crate::error::DbError;
use crate::schedule::{long_term_text, schedule_ok};
use crate::task::{archived_text, status_of, unknown_status_text, Task, TaskRow, TaskStatus, TaskType, NewTask, UpdateTask};
use crate::text::same_text;

verus! {

#[verifier::external_type_specification]
#[verifier::external_body]
pub struct ExSqliteConnectionManager(SqliteConnectionManager);

/// An r2d2 pool of SQLite connections. Verus cannot declare r2d2's `Pool`,
/// whose parameter is bound by r2d2's `ManageConnection`, so it is held here
/// opaquely and reached only through the wrappers below.
#[verifier::external_body]
pub(crate) struct SqlitePool {
    pool: Pool<SqliteConnectionManager>,
}

/// A connection checked out of a `SqlitePool`, returned to it when dropped.
#[verifier::external_body]
pub(crate) struct PooledConn {
    conn: PooledConnection<SqliteConnectionManager>,
}

/// A value bound to a statement parameter.
pub(crate) enum SqlArg {
    Text(String),
    Int(i64),
    Null,
}

const SCHEMA: &'static str = "
    PRAGMA journal_mode = WAL;
    PRAGMA foreign_keys = ON;
    CREATE TABLE IF NOT EXISTS tasks (
        id TEXT PRIMARY KEY,
        name TEXT NOT NULL,
        description TEXT,
        task_type TEXT NOT NULL,
        progress INTEGER NOT NULL DEFAULT 0,
        target INTEGER NOT NULL DEFAULT 1,
        repeat_rule TEXT,
        start_date TEXT,
        end_date TEXT,
        status TEXT NOT NULL,
        created_at TEXT NOT NULL,
        updated_at TEXT NOT NULL
    );
    CREATE INDEX IF NOT EXISTS idx_tasks_status ON tasks(status);
";

const SELECT_ALL: &'static str = "SELECT id, name, description, task_type, progress, target, repeat_rule, start_date, end_date, status, created_at, updated_at FROM tasks ORDER BY updated_at DESC";

const SELECT_BY_STATUS: &'static str = "SELECT id, name, description, task_type, progress, target, repeat_rule, start_date, end_date, status, created_at, updated_at FROM tasks WHERE status = ?1 ORDER BY updated_at DESC";

const SELECT_BY_ID: &'static str = "SELECT id, name, description, task_type, progress, target, repeat_rule, start_date, end_date, status, created_at, updated_at FROM tasks WHERE id = ?1";

const INSERT: &'static str = "INSERT INTO tasks (id, name, description, task_type, progress, target, repeat_rule, start_date, end_date, status, created_at, updated_at) VALUES (?1, ?2, ?3, ?4, ?5, ?6, ?7, ?8, ?9, ?10, ?11, ?12)";

const UPDATE_DETAILS: &'static str = "UPDATE tasks SET name = ?1, description = ?2, task_type = ?3, target = ?4, repeat_rule = ?5, start_date = ?6, end_date = ?7, progress = ?8, status = ?9, updated_at = ?10 WHERE id = ?11";

const UPDATE_PROGRESS_STATUS: &'static str = "UPDATE tasks SET progress = ?1, status = ?2, updated_at = ?3 WHERE id = ?4";

const UPDATE_STATUS: &'static str = "UPDATE tasks SET status = ?1, updated_at = ?2 WHERE id = ?3";

const UPDATE_PROGRESS: &'static str = "UPDATE tasks SET progress = ?1, updated_at = ?2 WHERE id = ?3";

const DELETE: &'static str = "DELETE FROM tasks WHERE id = ?1";

/// Relies on `SqliteConnectionManager::file`: a manager for connections to
/// the database file at `path`.
#[verifier::external_body]
fn file_manager(path: &str) -> SqliteConnectionManager {
    SqliteConnectionManager::file(path)
}

/// Relies on `SqliteConnectionManager::memory`: a manager whose connections
/// all open one in-memory database under a fresh random name, in shared-cache
/// mode; the manager keeps a connection of its own that holds it alive.
#[verifier::external_body]
fn memory_manager() -> SqliteConnectionManager {
    SqliteConnectionManager::memory()
}

/// Relies on r2d2's `Builder::max_size` and `Builder::build`: a pool of at
/// most `max_size` connections, which panics on zero.
#[verifier::external_body]
fn build_pool(manager: SqliteConnectionManager, max_size: u32) -> (r: Result<SqlitePool, r2d2::Error>)
    requires
        max_size > 0,
{
    Pool::builder().max_size(max_size).build(manager).map(|pool| SqlitePool { pool })
}

/// Relies on `Pool::get`: checks a connection out of the pool, waiting for
/// one to be returned when all are in use.
#[verifier::external_body]
fn checkout(pool: &SqlitePool) -> (r: Result<PooledConn, r2d2::Error>) {
    pool.pool.get().map(|conn| PooledConn { conn })
}

/// Relies on rusqlite's `Connection::execute_batch`: runs each statement of
/// `sql` in turn.
#[verifier::external_body]
fn run_batch(conn: &PooledConn, sql: &str) -> (r: Result<
    (),
    rusqlite::Error,
>) {
    conn.conn.execute_batch(sql)
}

/// Relies on rusqlite's `Connection::execute`: runs one statement with `args`
/// bound to its parameters in order, and gives the number of changed rows.
#[verifier::external_body]
fn execute(
    conn: &PooledConn,
    sql: &str,
    args: &Vec<SqlArg>,
) -> (r: Result<usize, rusqlite::Error>) {
    conn.conn.execute(sql, rusqlite::params_from_iter(args.iter().map(|a| match a {
        SqlArg::Text(s) => Value::Text(s.clone()),
        SqlArg::Int(n) => Value::Integer(*n),
        SqlArg::Null => Value::Null,
    })))
}

/// Relies on rusqlite's `Connection::prepare` and `Statement::query_map`:
/// the rows that a query selects, in the order the query gives them, each
/// read as the twelve task columns.
#[verifier::external_body]
fn query_rows(
    conn: &PooledConn,
    sql: &str,
    args: &Vec<String>,
) -> (r: Result<Vec<TaskRow>, rusqlite::Error>) {
    let mut stmt = conn.conn.prepare(sql)?;
    let rows = stmt.query_map(rusqlite::params_from_iter(args.iter()), |row| {
        TaskRow::try_from(row)
    })?;
    rows.collect()
}

/// Relies on chrono's `Utc::now` and `DateTime::to_rfc3339`: the current
/// time in UTC as ISO-8601 text.
#[verifier::external_body]
fn now_timestamp() -> String {
    chrono::Utc::now().to_rfc3339()
}

/// Relies on uuid's `Uuid::new_v4`: a random identifier in its hyphenated
/// text form.
#[verifier::external_body]
fn new_id() -> String {
    uuid::Uuid::new_v4().to_string()
}

fn opt_arg(value: &Option<String>) -> SqlArg {
    match value {
        Some(s) => SqlArg::Text(s.clone()),
        None => SqlArg::Null,
    }
}

/// The message for an id that no stored task has.
pub open spec fn not_found_text(id: Seq<char>) -> Seq<char> {
    "task "@ + id + " not found"@
}

/// Every row holds one of the three status names.
pub open spec fn rows_known(rows: Seq<TaskRow>) -> bool {
    forall|i: int| 0 <= i < rows.len() ==> (#[trigger] status_of(rows[i].9@)) is Some
}

/// `tasks` holds one task per row, in the order of the rows, each read as
/// `Task::from_row` reads it.
pub open spec fn all_read_from(rows: Seq<TaskRow>, tasks: Seq<Task>) -> bool {
    &&& tasks.len() == rows.len()
    &&& forall|i: int| 0 <= i < rows.len() ==> #[trigger] Task::read_from(rows[i], tasks[i])
}

/// The message of an invalid-input error that reading a task by id can give.
pub open spec fn lookup_text(id: Seq<char>, m: Seq<char>) -> bool {
    m == not_found_text(id) || exists|name: Seq<char>| m == unknown_status_text(name)
}

fn not_found(id: &str) -> (e: DbError)
    ensures
        e matches DbError::InvalidInput(m) && m@ == not_found_text(id@),
{
    DbError::InvalidInput(String::from_str("task ").concat(id).concat(" not found"))
}

/// Reads the rows that a listing selected, keeping their order; fails on
/// the first row whose status is none of the three names.
pub fn tasks_from_rows(rows: Vec<TaskRow>) -> (r: Result<Vec<Task>, DbError>)
    ensures
        r is Ok <==> rows_known(rows@),
        r matches Ok(v) ==> all_read_from(rows@, v@),
        r is Err ==> r matches Err(DbError::InvalidInput(_)),
{
    let ghost all = rows@;
    let mut tasks: Vec<Task> = Vec::new();
    for row in it: rows
        invariant
            it.seq() == all,
            tasks@.len() == it.index(),
            forall|j: int| 0 <= j < it.index() ==> (#[trigger] status_of(all[j].9@)) is Some,
            forall|j: int| 0 <= j < it.index() ==> #[trigger] Task::read_from(all[j], tasks@[j]),
    {
        let ghost k = it.index();
        match Task::from_row(row) {
            Ok(t) => tasks.push(t),
            Err(e) => {
                assert(status_of(all[k].9@) is None);
                return Err(e);
            },
        }
    }
    Ok(tasks)
}

/// Picks the task with `id` out of the rows that a lookup selected: the
/// first row, where there is one and it carries that id.
pub fn task_from_rows(rows: Vec<TaskRow>, id: &str) -> (r: Result<Task, DbError>)
    ensures
        rows@.len() == 0 ==> (r matches Err(DbError::InvalidInput(m)) && m@ == not_found_text(
            id@,
        )),
        rows@.len() > 0 ==> (r is Ok <==> status_of(rows@[0].9@) is Some && rows@[0].0@ == id@),
        rows@.len() > 0 && status_of(rows@[0].9@) is None ==> (r matches Err(
            DbError::InvalidInput(m),
        ) && m@ == unknown_status_text(rows@[0].9@)),
        rows@.len() > 0 && status_of(rows@[0].9@) is Some && rows@[0].0@ != id@ ==> (r matches Err(
            DbError::InvalidInput(m),
        ) && m@ == not_found_text(id@)),
        r matches Ok(t) ==> Task::read_from(rows@[0], t) && t.id@ == id@,
{
    let mut rows = rows;
    if rows.len() == 0 {
        return Err(not_found(id));
    }
    let row = rows.swap_remove(0);
    let task = Task::from_row(row)?;
    if !same_text(task.id.as_str(), id) {
        return Err(not_found(id));
    }
    Ok(task)
}

/// A store of tasks in one SQLite database, reached through a bounded pool
/// of connections; each operation holds one connection for its duration.
pub struct Db {
    pool: SqlitePool,
}

impl Db {
    /// Opens the database file at `path` behind a pool of eight connections
    /// and makes sure its schema exists.
    pub fn open(path: &str) -> (r: Result<Db, DbError>)
        ensures
            r is Err ==> r matches Err(DbError::Pool(_)) || r matches Err(DbError::Sqlite(_)),
    {
        let pool = match build_pool(file_manager(path), 8) {
            Ok(p) => p,
            Err(e) => return Err(DbError::Pool(e)),
        };
        let db = Db { pool };
        match db.run_migrations() {
            Ok(()) => Ok(db),
            Err(e) => Err(e),
        }
    }

    /// Opens a fresh in-memory database behind a pool of one connection, with
    /// its schema. The database lives as long as the store.
    pub fn open_in_memory() -> (r: Result<Db, DbError>)
        ensures
            r is Err ==> r matches Err(DbError::Pool(_)) || r matches Err(DbError::Sqlite(_)),
    {
        let pool = match build_pool(memory_manager(), 1) {
            Ok(p) => p,
            Err(e) => return Err(DbError::Pool(e)),
        };
        let db = Db { pool };
        match db.run_migrations() {
            Ok(()) => Ok(db),
            Err(e) => Err(e),
        }
    }

    fn conn(&self) -> (r: Result<PooledConn, DbError>)
        ensures
            r is Err ==> r matches Err(DbError::Pool(_)),
    {
        match checkout(&self.pool) {
            Ok(c) => Ok(c),
            Err(e) => Err(DbError::Pool(e)),
        }
    }

    /// Creates the task table and its status index where they are missing;
    /// existing data is left alone.
    fn run_migrations(&self) -> (r: Result<(), DbError>)
        ensures
            r is Err ==> r matches Err(DbError::Pool(_)) || r matches Err(DbError::Sqlite(_)),
    {
        let conn = self.conn()?;
        match run_batch(&conn, SCHEMA) {
            Ok(()) => Ok(()),
            Err(e) => Err(DbError::Sqlite(e)),
        }
    }

    /// The stored task with this id; not-found is reported as invalid input.
    fn fetch_task(&self, conn: &PooledConn, id: &str) -> (r: Result<Task, DbError>)
        ensures
            r matches Ok(t) ==> t.id@ == id@ && exists|row: TaskRow| #[trigger]
                Task::read_from(row, t),
            r is Err ==> r matches Err(DbError::Sqlite(_)) || r matches Err(
                DbError::InvalidInput(_),
            ),
            r matches Err(DbError::InvalidInput(m)) ==> lookup_text(id@, m@),
    {
        let args = vec![id.to_owned()];
        let rows = match query_rows(conn, SELECT_BY_ID, &args) {
            Ok(rows) => rows,
            Err(e) => return Err(DbError::Sqlite(e)),
        };
        let ghost selected = rows@;
        let r = task_from_rows(rows, id);
        assert(r matches Ok(t) ==> Task::read_from(selected[0], t));
        assert(r matches Err(DbError::InvalidInput(m)) ==> lookup_text(id@, m@)) by {
            if selected.len() > 0 {
                let name = selected[0].9@;
                assert(r matches Err(DbError::InvalidInput(m)) ==> m@ == not_found_text(id@) || m@
                    == unknown_status_text(name));
            }
        }
        r
    }

    /// All tasks, or those whose status is named `status`, the most recently
    /// changed first.
    pub fn list_tasks(&self, status: Option<String>) -> (r: Result<Vec<Task>, DbError>)
        ensures
            r matches Ok(v) ==> exists|rows: Seq<TaskRow>| #[trigger] all_read_from(rows, v@),
            r is Err ==> r matches Err(DbError::Pool(_)) || r matches Err(DbError::Sqlite(_))
                || r matches Err(DbError::InvalidInput(_)),
    {
        let conn = self.conn()?;
        let rows = match status {
            Some(s) => query_rows(&conn, SELECT_BY_STATUS, &vec![s]),
            None => query_rows(&conn, SELECT_ALL, &Vec::new()),
        };
        let rows = match rows {
            Ok(rows) => rows,
            Err(e) => return Err(DbError::Sqlite(e)),
        };
        let ghost selected = rows@;
        let r = tasks_from_rows(rows);
        assert(r matches Ok(v) ==> all_read_from(selected, v@));
        r
    }

    /// Stores the task that `payload` describes, with a fresh random id
    /// where it gives none, and returns it as read back from the store.
    /// A schedule that does not fit the task type is refused before anything
    /// is written.
    pub fn create_task(&self, payload: NewTask) -> (r: Result<Task, DbError>)
        ensures
            !schedule_ok(payload.task_type@, payload.date_range) ==> (r matches Err(
                DbError::InvalidInput(m),
            ) && m@ == long_term_text()),
            payload.id matches Some(i) ==> (r matches Ok(t) ==> t.id@ == i@),
            r matches Ok(t) ==> exists|row: TaskRow| #[trigger] Task::read_from(row, t),
            r is Err ==> r matches Err(DbError::Pool(_)) || r matches Err(DbError::Sqlite(_))
                || r matches Err(DbError::InvalidInput(_)),
            r matches Err(DbError::InvalidInput(m)) ==> m@ == long_term_text() || exists|
                id: Seq<char>,
            | #[trigger] lookup_text(id, m@),
    {
        let now = now_timestamp();
        let id = match &payload.id {
            Some(id) => id.clone(),
            None => new_id(),
        };
        let task = Task::from_new(payload, id, now)?;
        let conn = self.conn()?;
        let args = vec![
            SqlArg::Text(task.id.clone()),
            SqlArg::Text(task.name.clone()),
            SqlArg::Text(task.description.clone()),
            SqlArg::Text(task.task_type.as_str().to_owned()),
            SqlArg::Int(task.progress),
            SqlArg::Int(task.target),
            opt_arg(&task.repeat_rule),
            opt_arg(&task.start_date),
            opt_arg(&task.end_date),
            SqlArg::Text(task.status.as_str().to_owned()),
            SqlArg::Text(task.created_at.clone()),
            SqlArg::Text(task.updated_at.clone()),
        ];
        if let Err(e) = execute(&conn, INSERT, &args) {
            return Err(DbError::Sqlite(e));
        }
        self.fetch_task(&conn, task.id.as_str())
    }

    /// Replaces the details and schedule of the task `payload.id` (see
    /// `Task::edited`) and returns it as read back from the store.
    pub fn update_task(&self, payload: UpdateTask) -> (r: Result<Task, DbError>)
        ensures
            !schedule_ok(payload.task_type@, payload.date_range) ==> r is Err,
            r matches Ok(t) ==> t.id@ == payload.id@,
            r matches Ok(t) ==> exists|row: TaskRow| #[trigger] Task::read_from(row, t),
            r is Err ==> r matches Err(DbError::Pool(_)) || r matches Err(DbError::Sqlite(_))
                || r matches Err(DbError::InvalidInput(_)),
            r matches Err(DbError::InvalidInput(m)) ==> m@ == long_term_text() || lookup_text(
                payload.id@,
                m@,
            ),
    {
        let conn = self.conn()?;
        let existing = self.fetch_task(&conn, payload.id.as_str())?;
        let task = existing.edited(payload, now_timestamp())?;
        let args = vec![
            SqlArg::Text(task.name.clone()),
            SqlArg::Text(task.description.clone()),
            SqlArg::Text(task.task_type.as_str().to_owned()),
            SqlArg::Int(task.target),
            opt_arg(&task.repeat_rule),
            opt_arg(&task.start_date),
            opt_arg(&task.end_date),
            SqlArg::Int(task.progress),
            SqlArg::Text(task.status.as_str().to_owned()),
            SqlArg::Text(task.updated_at.clone()),
            SqlArg::Text(task.id.clone()),
        ];
        if let Err(e) = execute(&conn, UPDATE_DETAILS, &args) {
            return Err(DbError::Sqlite(e));
        }
        self.fetch_task(&conn, task.id.as_str())
    }

    /// Removes the task with this id; an unknown id is no error.
    pub fn delete_task(&self, id: &str) -> (r: Result<(), DbError>)
        ensures
            r is Err ==> r matches Err(DbError::Pool(_)) || r matches Err(DbError::Sqlite(_)),
    {
        let conn = self.conn()?;
        match execute(&conn, DELETE, &vec![SqlArg::Text(id.to_owned())]) {
            Ok(_) => Ok(()),
            Err(e) => Err(DbError::Sqlite(e)),
        }
    }

    /// Advances the task by one step (see `Task::incremented`) and returns
    /// what was written.
    pub fn increment_progress(&self, id: &str) -> (r: Result<Task, DbError>)
        ensures
            r matches Ok(t) ==> t.id@ == id@ && exists|p: Task|
                p.status != TaskStatus::Archived && #[trigger] Task::incremented_from(p, t),
            r is Err ==> r matches Err(DbError::Pool(_)) || r matches Err(DbError::Sqlite(_))
                || r matches Err(DbError::InvalidInput(_)),
            r matches Err(DbError::InvalidInput(m)) ==> m@ == archived_text() || lookup_text(
                id@,
                m@,
            ),
    {
        let conn = self.conn()?;
        let task = self.fetch_task(&conn, id)?;
        let ghost prior = task;
        let task = task.incremented(now_timestamp())?;
        let args = vec![
            SqlArg::Int(task.progress),
            SqlArg::Text(task.status.as_str().to_owned()),
            SqlArg::Text(task.updated_at.clone()),
            SqlArg::Text(task.id.clone()),
        ];
        if let Err(e) = execute(&conn, UPDATE_PROGRESS_STATUS, &args) {
            return Err(DbError::Sqlite(e));
        }
        assert(Task::incremented_from(prior, task));
        Ok(task)
    }

    fn write_status(&self, conn: &PooledConn, task: &Task) -> (r: Result<(), DbError>)
        ensures
            r is Err ==> r matches Err(DbError::Sqlite(_)),
    {
        let args = vec![
            SqlArg::Text(task.status.as_str().to_owned()),
            SqlArg::Text(task.updated_at.clone()),
            SqlArg::Text(task.id.clone()),
        ];
        match execute(conn, UPDATE_STATUS, &args) {
            Ok(_) => Ok(()),
            Err(e) => Err(DbError::Sqlite(e)),
        }
    }

    /// Archives the task whatever its status, progress untouched, and
    /// returns what was written.
    pub fn archive_task(&self, id: &str) -> (r: Result<Task, DbError>)
        ensures
            r matches Ok(t) ==> t.id@ == id@ && exists|p: Task|
                #[trigger] Task::moved_from(p, TaskStatus::Archived, t),
            r is Err ==> r matches Err(DbError::Pool(_)) || r matches Err(DbError::Sqlite(_))
                || r matches Err(DbError::InvalidInput(_)),
            r matches Err(DbError::InvalidInput(m)) ==> lookup_text(id@, m@),
    {
        let conn = self.conn()?;
        let task = self.fetch_task(&conn, id)?;
        let ghost prior = task;
        let task = task.with_status(TaskStatus::Archived, now_timestamp());
        self.write_status(&conn, &task)?;
        assert(Task::moved_from(prior, TaskStatus::Archived, task));
        Ok(task)
    }

    /// Makes the task active again whatever its status; a cycle task then
    /// starts a fresh cycle, its progress reset to zero by a second write.
    /// Returns what was written last.
    pub fn reopen_task(&self, id: &str) -> (r: Result<Task, DbError>)
        ensures
            r matches Ok(t) ==> t.id@ == id@ && exists|p: Task| #[trigger] Task::reopened_from(p, t),
            r is Err ==> r matches Err(DbError::Pool(_)) || r matches Err(DbError::Sqlite(_))
                || r matches Err(DbError::InvalidInput(_)),
            r matches Err(DbError::InvalidInput(m)) ==> lookup_text(id@, m@),
    {
        let conn = self.conn()?;
        let task = self.fetch_task(&conn, id)?;
        let ghost prior = task;
        let task = task.with_status(TaskStatus::Active, now_timestamp());
        self.write_status(&conn, &task)?;
        if task.task_type != TaskType::Cycle {
            assert(Task::reopened_from(prior, task));
            return Ok(task);
        }
        let task = task.progress_reset(now_timestamp());
        let args = vec![
            SqlArg::Int(task.progress),
            SqlArg::Text(task.updated_at.clone()),
            SqlArg::Text(task.id.clone()),
        ];
        if let Err(e) = execute(&conn, UPDATE_PROGRESS, &args) {
            return Err(DbError::Sqlite(e));
        }
        assert(Task::reopened_from(prior, task));
        Ok(task)
    }
}

} // verus!
