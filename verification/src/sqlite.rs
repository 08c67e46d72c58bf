//! The calls into `rusqlite` that the storage layer makes. Each result
//! depends on what the database file holds, which other processes may
//! change at any time, so no wrapper here names or states its result
//! beyond its type and, for a value read from a row, the column it was
//! read from.
use vstd::prelude::*;

verus! {

#[verifier::external_type_specification]
#[verifier::external_body]
pub struct ExConnection(rusqlite::Connection);

#[verifier::external_type_specification]
#[verifier::external_body]
pub struct ExSqliteError(rusqlite::Error);

#[verifier::external_type_specification]
#[verifier::external_body]
pub struct ExStatement<'conn>(rusqlite::Statement<'conn>);

#[verifier::external_type_specification]
#[verifier::external_body]
pub struct ExRows<'stmt>(rusqlite::Rows<'stmt>);

#[verifier::external_type_specification]
#[verifier::external_body]
pub struct ExRow<'stmt>(rusqlite::Row<'stmt>);

/// A text read from a result column, with the column it came from.
pub struct TextCell {
    pub column: usize,
    pub value: String,
}

/// An integer read from a result column, with the column it came from.
pub struct IntegerCell {
    pub column: usize,
    pub value: i64,
}

/// A nullable integer read from a result column, with the column it came
/// from (`None` for SQL `NULL`).
pub struct OptionalIntegerCell {
    pub column: usize,
    pub value: Option<i64>,
}

/// A failed SQLite call, with constraint violations (a duplicate primary
/// key, for instance) told apart from every other failure.
pub enum SqlFailure {
    ConstraintViolation(rusqlite::Error),
    Other(rusqlite::Error),
}

impl SqlFailure {
    /// The underlying `rusqlite` error.
    pub open spec fn error(self) -> rusqlite::Error {
        match self {
            SqlFailure::ConstraintViolation(e) => e,
            SqlFailure::Other(e) => e,
        }
    }
}

/// Calls `rusqlite::Connection::open_with_flags` with
/// `SQLITE_OPEN_READ_WRITE | SQLITE_OPEN_CREATE`. Nothing is claimed of
/// the outcome: it depends on the file system.
#[verifier::external_body]
pub(crate) fn open_or_create(path: &str) -> (res: Result<rusqlite::Connection, rusqlite::Error>) {
    rusqlite::Connection::open_with_flags(
        path,
        rusqlite::OpenFlags::SQLITE_OPEN_READ_WRITE | rusqlite::OpenFlags::SQLITE_OPEN_CREATE,
    )
}

/// Calls `rusqlite::Connection::open_with_flags` with
/// `SQLITE_OPEN_READ_WRITE` alone, so a missing file is an error. Nothing
/// is claimed of the outcome: it depends on the file system.
#[verifier::external_body]
pub(crate) fn open_existing(path: &str) -> (res: Result<rusqlite::Connection, rusqlite::Error>) {
    rusqlite::Connection::open_with_flags(path, rusqlite::OpenFlags::SQLITE_OPEN_READ_WRITE)
}

/// Calls `rusqlite::Connection::open_in_memory`. Nothing is claimed of the
/// outcome.
#[verifier::external_body]
pub(crate) fn open_in_memory() -> (res: Result<rusqlite::Connection, rusqlite::Error>) {
    rusqlite::Connection::open_in_memory()
}

/// Calls `rusqlite::Connection::execute_batch`. Nothing is claimed of the
/// outcome.
#[verifier::external_body]
pub(crate) fn execute_batch(connection: &rusqlite::Connection, sql: &str) -> (res: Result<
    (),
    rusqlite::Error,
>) {
    connection.execute_batch(sql)
}

/// Calls `rusqlite::Connection::execute` with the given text parameters,
/// bound in order, and sorts a failure by whether its SQLite code is
/// `ErrorCode::ConstraintViolation`. Nothing is claimed of the outcome: the
/// number of changed rows and any failure depend on the database's
/// contents.
#[verifier::external_body]
pub(crate) fn execute(connection: &rusqlite::Connection, sql: &str, params: &[&str]) -> (res:
    Result<usize, SqlFailure>) {
    match connection.execute(sql, rusqlite::params_from_iter(params.iter())) {
        Ok(rows) => Ok(rows),
        Err(rusqlite::Error::SqliteFailure(code, message))
            if code.code == rusqlite::ErrorCode::ConstraintViolation => {
            Err(SqlFailure::ConstraintViolation(rusqlite::Error::SqliteFailure(code, message)))
        },
        Err(error) => Err(SqlFailure::Other(error)),
    }
}

/// Calls `rusqlite::Connection::prepare`. Nothing is claimed of the
/// outcome.
#[verifier::external_body]
pub(crate) fn prepare<'conn>(connection: &'conn rusqlite::Connection, sql: &str) -> (res: Result<
    rusqlite::Statement<'conn>,
    rusqlite::Error,
>) {
    connection.prepare(sql)
}

/// Calls `rusqlite::Statement::query` with the given text parameters,
/// bound in order. Nothing is claimed of the outcome.
#[verifier::external_body]
pub(crate) fn query<'stmt, 'conn>(
    statement: &'stmt mut rusqlite::Statement<'conn>,
    params: &[&str],
) -> (res: Result<rusqlite::Rows<'stmt>, rusqlite::Error>) {
    statement.query(rusqlite::params_from_iter(params.iter()))
}

/// Calls `rusqlite::Rows::next`. Nothing is claimed of the outcome.
#[verifier::external_body]
pub(crate) fn next_row<'a, 'stmt>(rows: &'a mut rusqlite::Rows<'stmt>) -> (res: Result<
    Option<&'a rusqlite::Row<'stmt>>,
    rusqlite::Error,
>) {
    rows.next()
}

/// Calls `rusqlite::Row::get::<usize, String>` and labels the text with the
/// column it was read from. Nothing is claimed of the text or of a
/// failure.
#[verifier::external_body]
pub(crate) fn get_text(row: &rusqlite::Row, column: usize) -> (res: Result<TextCell, rusqlite::Error>)
    ensures
        res matches Ok(cell) ==> cell.column == column,
{
    match row.get::<usize, String>(column) {
        Ok(value) => Ok(TextCell { column, value }),
        Err(error) => Err(error),
    }
}

/// Calls `rusqlite::Row::get::<usize, i64>` and labels the number with the
/// column it was read from. Nothing is claimed of the number or of a
/// failure.
#[verifier::external_body]
pub(crate) fn get_integer(row: &rusqlite::Row, column: usize) -> (res: Result<
    IntegerCell,
    rusqlite::Error,
>)
    ensures
        res matches Ok(cell) ==> cell.column == column,
{
    match row.get::<usize, i64>(column) {
        Ok(value) => Ok(IntegerCell { column, value }),
        Err(error) => Err(error),
    }
}

/// Calls `rusqlite::Row::get::<usize, Option<i64>>` (SQL `NULL` reads as
/// `None`) and labels the value with the column it was read from. Nothing
/// is claimed of the value or of a failure.
#[verifier::external_body]
pub(crate) fn get_optional_integer(row: &rusqlite::Row, column: usize) -> (res: Result<
    OptionalIntegerCell,
    rusqlite::Error,
>)
    ensures
        res matches Ok(cell) ==> cell.column == column,
{
    match row.get::<usize, Option<i64>>(column) {
        Ok(value) => Ok(OptionalIntegerCell { column, value }),
        Err(error) => Err(error),
    }
}

/// Calls `<rusqlite::Error as Display>::fmt` through `format!`. The text is
/// not stated.
#[verifier::external_body]
pub(crate) fn sqlite_error_text(error: &rusqlite::Error) -> (res: String) {
    format!("{error}")
}

} // verus!
