use vstd::prelude::*;

verus! {

#[verifier::external_type_specification]
#[verifier::external_body]
pub struct ExIoError(std::io::Error);

#[verifier::external_type_specification]
#[verifier::external_body]
pub struct ExPoolError(r2d2::Error);

#[verifier::external_type_specification]
#[verifier::external_body]
pub struct ExSqliteError(rusqlite::Error);

/// Every failure that a store operation can report.
#[derive(Debug)]
pub enum DbError {
    /// The application data directory could not be resolved.
    AppDir(String),
    /// A file system operation failed.
    Io(std::io::Error),
    /// No pooled connection could be obtained.
    Pool(r2d2::Error),
    /// The storage engine reported an error.
    Sqlite(rusqlite::Error),
    /// The request itself is not acceptable (bad schedule, unknown id,
    /// archived task).
    InvalidInput(String),
}

} // verus!
