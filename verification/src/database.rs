//! SQLite-backed storage of users, API keys and short codes.
use crate::api_key::{api_key_hash, generate_api_key, hash_api_key};
use crate::sqlite::{IntegerCell, OptionalIntegerCell, SqlFailure, TextCell};
use vstd::prelude::*;

verus! {

/// Information about a shortened URL entry.
#[derive(Debug)]
pub struct UrlInfo {
    /// The short code.
    pub code: String,
    /// The target URL.
    pub url: String,
    /// Unix timestamp of when this code was created.
    pub created_at: i64,
    /// The creator of this code.
    pub created_by: String,
    /// Number of times this code has been accessed.
    pub hits: i64,
    /// Unix timestamp of the last access, or `None` if never accessed.
    pub last_hit: Option<i64>,
}

/// Errors that can arise from database operations.
#[derive(Debug)]
pub enum DatabaseError {
    /// The requested resource does not exist.
    NotFound,
    /// A user with the given username already exists.
    UsernameAlreadyInUse,
    /// A short code with the given value already exists.
    CodeAlreadyInUse,
    /// A unique API key could not be generated after several attempts.
    CouldNotGenerateApiKey,
    /// A base64 decoding error while processing an API key.
    ApiKey(base64::DecodeError),
    /// An underlying SQLite error.
    Sqlite(rusqlite::Error),
}

/// Number of fresh keys `create_api_key` tries before giving up.
pub const API_KEY_ATTEMPTS: usize = 3;

/// What the schema holds: three tables, with foreign keys enforced.
pub const SCHEMA: &'static str = "PRAGMA foreign_keys = ON;
CREATE TABLE IF NOT EXISTS Users(
  username TEXT PRIMARY KEY,
  active   INTEGER NOT NULL
);
CREATE TABLE IF NOT EXISTS Urls(
  code       TEXT PRIMARY KEY,
  url        TEXT NOT NULL,
  created_at INTEGER NOT NULL,
  created_by TEXT NOT NULL,
  hits       INTEGER NOT NULL,
  last_hit   INTEGER
);
CREATE TABLE IF NOT EXISTS ApiKeys(
  key_hash TEXT PRIMARY KEY,
  username TEXT NOT NULL,
  active   INTEGER NOT NULL,
  FOREIGN KEY(username) REFERENCES Users(username)
);";

impl DatabaseError {
    /// Whether the error is one that a storage call reports as it is: an
    /// SQLite failure or a missing row.
    pub open spec fn is_lookup_error(self) -> bool {
        self is NotFound || self is Sqlite
    }

    /// The human-readable description of the error.
    pub fn message(&self) -> (res: String)
        ensures
            self is NotFound ==> res@ == "not found"@,
            self is UsernameAlreadyInUse ==> res@ == "username already in use"@,
            self is CodeAlreadyInUse ==> res@ == "code already in use"@,
            self is CouldNotGenerateApiKey ==> res@ == "could not generate API key"@,
    {
        match self {
            DatabaseError::NotFound => String::from_str("not found"),
            DatabaseError::UsernameAlreadyInUse => String::from_str("username already in use"),
            DatabaseError::CodeAlreadyInUse => String::from_str("code already in use"),
            DatabaseError::CouldNotGenerateApiKey => String::from_str("could not generate API key"),
            DatabaseError::ApiKey(error) => decode_error_text(error),
            DatabaseError::Sqlite(error) => crate::sqlite::sqlite_error_text(error),
        }
    }
}

/// Calls `<base64::DecodeError as Display>::fmt` through `format!`. The
/// text is not stated.
#[verifier::external_body]
fn decode_error_text(error: &base64::DecodeError) -> (res: String) {
    format!("{error}")
}

/// The result of an `INSERT`: success, `conflict` when a uniqueness
/// constraint refused the row, and the SQLite error otherwise.
pub fn insert_outcome(result: Result<usize, SqlFailure>, conflict: DatabaseError) -> (res: Result<
    (),
    DatabaseError,
>)
    ensures
        match result {
            Ok(_) => res is Ok,
            Err(SqlFailure::ConstraintViolation(_)) => res == Err::<(), DatabaseError>(conflict),
            Err(SqlFailure::Other(e)) => res == Err::<(), DatabaseError>(DatabaseError::Sqlite(e)),
        },
{
    match result {
        Ok(_) => Ok(()),
        Err(SqlFailure::ConstraintViolation(_)) => Err(conflict),
        Err(SqlFailure::Other(e)) => Err(DatabaseError::Sqlite(e)),
    }
}

/// The result of an `UPDATE` or `DELETE` that must touch a row: `NotFound`
/// when no row changed, the SQLite error when the statement failed.
pub fn change_outcome(result: Result<usize, SqlFailure>) -> (res: Result<(), DatabaseError>)
    ensures
        match result {
            Ok(rows) => if rows == 0 {
                res == Err::<(), DatabaseError>(DatabaseError::NotFound)
            } else {
                res is Ok
            },
            Err(f) => res == Err::<(), DatabaseError>(DatabaseError::Sqlite(f.error())),
        },
{
    match result {
        Ok(rows) => if rows == 0 {
            Err(DatabaseError::NotFound)
        } else {
            Ok(())
        },
        Err(SqlFailure::ConstraintViolation(e)) => Err(DatabaseError::Sqlite(e)),
        Err(SqlFailure::Other(e)) => Err(DatabaseError::Sqlite(e)),
    }
}

/// The result of a lookup of a single row: the value when there is one,
/// `NotFound` when there is none, the SQLite error when the query failed.
pub fn lookup_outcome<T>(result: Result<Option<T>, rusqlite::Error>) -> (res: Result<
    T,
    DatabaseError,
>)
    ensures
        match result {
            Ok(Some(v)) => res == Ok::<T, DatabaseError>(v),
            Ok(None) => res == Err::<T, DatabaseError>(DatabaseError::NotFound),
            Err(e) => res == Err::<T, DatabaseError>(DatabaseError::Sqlite(e)),
        },
{
    match result {
        Ok(Some(v)) => Ok(v),
        Ok(None) => Err(DatabaseError::NotFound),
        Err(e) => Err(DatabaseError::Sqlite(e)),
    }
}

fn sql_error<T>(failure: SqlFailure) -> (res: Result<T, DatabaseError>)
    ensures
        res == Err::<T, DatabaseError>(DatabaseError::Sqlite(failure.error())),
{
    match failure {
        SqlFailure::ConstraintViolation(e) => Err(DatabaseError::Sqlite(e)),
        SqlFailure::Other(e) => Err(DatabaseError::Sqlite(e)),
    }
}

pub const INSERT_USER_SQL: &'static str = "INSERT INTO Users(username, active) VALUES (?1, 1);";

pub const ACTIVE_USERNAMES_SQL: &'static str = "SELECT username FROM Users WHERE active = 1;";

pub const DEACTIVATE_USER_KEYS_SQL: &'static str =
    "UPDATE ApiKeys SET active = 0 WHERE username = ?1 AND active = 1;";

pub const DEACTIVATE_USER_SQL: &'static str =
    "UPDATE Users SET active = 0 WHERE username = ?1 AND active = 1;";

pub const ACTIVE_USER_SQL: &'static str =
    "SELECT username FROM Users WHERE username = ?1 AND active = 1;";

pub const INSERT_KEY_SQL: &'static str =
    "INSERT INTO ApiKeys(key_hash, username, active) VALUES (?1, ?2, 1);";

pub const KEY_OWNER_SQL: &'static str =
    "SELECT ak.username FROM ApiKeys ak JOIN Users u ON ak.username = u.username WHERE ak.key_hash = ?1 AND ak.active = 1 AND u.active = 1;";

pub const USER_KEY_HASHES_SQL: &'static str =
    "SELECT key_hash FROM ApiKeys WHERE username = ?1 AND active = 1;";

pub const DEACTIVATE_KEY_SQL: &'static str =
    "UPDATE ApiKeys SET active = 0 WHERE key_hash = ?1 AND active = 1;";

pub const URL_OF_CODE_SQL: &'static str = "SELECT url FROM Urls WHERE code = ?1;";

pub const COUNT_HIT_SQL: &'static str =
    "UPDATE Urls SET hits = hits + 1, last_hit = UNIXEPOCH() WHERE code = ?1;";

pub const INSERT_CODE_SQL: &'static str =
    "INSERT INTO Urls(code, url, created_at, created_by, hits, last_hit) VALUES (?1, ?2, UNIXEPOCH(), ?3, 0, NULL);";

pub const ALL_CODES_SQL: &'static str =
    "SELECT code, url, created_at, created_by, hits, last_hit FROM Urls ORDER BY created_at ASC;";

pub const CODE_INFO_SQL: &'static str =
    "SELECT code, url, created_at, created_by, hits, last_hit FROM Urls WHERE code = ?1;";

pub const DELETE_CODE_SQL: &'static str = "DELETE FROM Urls WHERE code = ?1;";

/// A statement the storage layer runs, with its parameters.
pub enum SqlStatement<'a> {
    /// Adds an active user.
    InsertUser { username: &'a str },
    /// Selects the names of all active users.
    ActiveUsernames,
    /// Deactivates every active key of a user.
    DeactivateUserKeys { username: &'a str },
    /// Deactivates a user.
    DeactivateUser { username: &'a str },
    /// Selects a user by name when active.
    ActiveUser { username: &'a str },
    /// Adds an active key, stored by its hash, for a user.
    InsertKey { key_hash: &'a str, username: &'a str },
    /// Selects the owner of an active key whose owner is active.
    KeyOwner { key_hash: &'a str },
    /// Selects the hashes of a user's active keys.
    UserKeyHashes { username: &'a str },
    /// Deactivates an active key.
    DeactivateKey { key_hash: &'a str },
    /// Selects the URL of a code.
    UrlOfCode { code: &'a str },
    /// Counts one hit of a code at the current time.
    CountHit { code: &'a str },
    /// Adds a code with no hits, created now.
    InsertCode { code: &'a str, url: &'a str, created_by: &'a str },
    /// Selects every code row, oldest first.
    AllCodes,
    /// Selects the row of a code.
    CodeInfo { code: &'a str },
    /// Removes a code.
    DeleteCode { code: &'a str },
}

/// SQL text and the parameters bound to `?1`, `?2`, ... in order.
pub struct SqlCall<'a> {
    pub sql: &'static str,
    pub params: Vec<&'a str>,
}

/// The SQL text of a statement.
pub open spec fn statement_sql(s: SqlStatement) -> &'static str {
    match s {
        SqlStatement::InsertUser { .. } => INSERT_USER_SQL,
        SqlStatement::ActiveUsernames => ACTIVE_USERNAMES_SQL,
        SqlStatement::DeactivateUserKeys { .. } => DEACTIVATE_USER_KEYS_SQL,
        SqlStatement::DeactivateUser { .. } => DEACTIVATE_USER_SQL,
        SqlStatement::ActiveUser { .. } => ACTIVE_USER_SQL,
        SqlStatement::InsertKey { .. } => INSERT_KEY_SQL,
        SqlStatement::KeyOwner { .. } => KEY_OWNER_SQL,
        SqlStatement::UserKeyHashes { .. } => USER_KEY_HASHES_SQL,
        SqlStatement::DeactivateKey { .. } => DEACTIVATE_KEY_SQL,
        SqlStatement::UrlOfCode { .. } => URL_OF_CODE_SQL,
        SqlStatement::CountHit { .. } => COUNT_HIT_SQL,
        SqlStatement::InsertCode { .. } => INSERT_CODE_SQL,
        SqlStatement::AllCodes => ALL_CODES_SQL,
        SqlStatement::CodeInfo { .. } => CODE_INFO_SQL,
        SqlStatement::DeleteCode { .. } => DELETE_CODE_SQL,
    }
}

/// The parameters of a statement, in the order of its placeholders.
pub open spec fn statement_params(s: SqlStatement) -> Seq<Seq<char>> {
    match s {
        SqlStatement::InsertUser { username } => seq![username@],
        SqlStatement::ActiveUsernames => seq![],
        SqlStatement::DeactivateUserKeys { username } => seq![username@],
        SqlStatement::DeactivateUser { username } => seq![username@],
        SqlStatement::ActiveUser { username } => seq![username@],
        SqlStatement::InsertKey { key_hash, username } => seq![key_hash@, username@],
        SqlStatement::KeyOwner { key_hash } => seq![key_hash@],
        SqlStatement::UserKeyHashes { username } => seq![username@],
        SqlStatement::DeactivateKey { key_hash } => seq![key_hash@],
        SqlStatement::UrlOfCode { code } => seq![code@],
        SqlStatement::CountHit { code } => seq![code@],
        SqlStatement::InsertCode { code, url, created_by } => seq![code@, url@, created_by@],
        SqlStatement::AllCodes => seq![],
        SqlStatement::CodeInfo { code } => seq![code@],
        SqlStatement::DeleteCode { code } => seq![code@],
    }
}

/// The call runs exactly this statement.
pub open spec fn is_call_of(c: SqlCall, s: SqlStatement) -> bool {
    &&& c.sql == statement_sql(s)
    &&& c.params@.len() == statement_params(s).len()
    &&& forall|i: int| 0 <= i < c.params@.len() ==> #[trigger] c.params@[i]@ == statement_params(s)[i]
}

fn params1<'a>(a: &'a str) -> (v: Vec<&'a str>)
    ensures
        v@.len() == 1,
        v@[0] == a,
{
    let mut v: Vec<&'a str> = Vec::new();
    v.push(a);
    v
}

/// The SQL text and parameters of a statement.
pub fn sql_call<'a>(statement: SqlStatement<'a>) -> (c: SqlCall<'a>)
    ensures
        is_call_of(c, statement),
{
    match statement {
        SqlStatement::InsertUser { username } => SqlCall { sql: INSERT_USER_SQL, params: params1(username) },
        SqlStatement::ActiveUsernames => SqlCall { sql: ACTIVE_USERNAMES_SQL, params: Vec::new() },
        SqlStatement::DeactivateUserKeys { username } => SqlCall {
            sql: DEACTIVATE_USER_KEYS_SQL,
            params: params1(username),
        },
        SqlStatement::DeactivateUser { username } => SqlCall {
            sql: DEACTIVATE_USER_SQL,
            params: params1(username),
        },
        SqlStatement::ActiveUser { username } => SqlCall { sql: ACTIVE_USER_SQL, params: params1(username) },
        SqlStatement::InsertKey { key_hash, username } => {
            let mut params = params1(key_hash);
            params.push(username);
            SqlCall { sql: INSERT_KEY_SQL, params }
        },
        SqlStatement::KeyOwner { key_hash } => SqlCall { sql: KEY_OWNER_SQL, params: params1(key_hash) },
        SqlStatement::UserKeyHashes { username } => SqlCall {
            sql: USER_KEY_HASHES_SQL,
            params: params1(username),
        },
        SqlStatement::DeactivateKey { key_hash } => SqlCall {
            sql: DEACTIVATE_KEY_SQL,
            params: params1(key_hash),
        },
        SqlStatement::UrlOfCode { code } => SqlCall { sql: URL_OF_CODE_SQL, params: params1(code) },
        SqlStatement::CountHit { code } => SqlCall { sql: COUNT_HIT_SQL, params: params1(code) },
        SqlStatement::InsertCode { code, url, created_by } => {
            let mut params = params1(code);
            params.push(url);
            params.push(created_by);
            SqlCall { sql: INSERT_CODE_SQL, params }
        },
        SqlStatement::AllCodes => SqlCall { sql: ALL_CODES_SQL, params: Vec::new() },
        SqlStatement::CodeInfo { code } => SqlCall { sql: CODE_INFO_SQL, params: params1(code) },
        SqlStatement::DeleteCode { code } => SqlCall { sql: DELETE_CODE_SQL, params: params1(code) },
    }
}

/// One step of reading rows: a fetched item is appended and reading goes
/// on (`None`); the end of the rows finishes with `Ok`; a failure finishes
/// with that failure, the items collected so far left as they were.
pub fn collect_row<T>(items: &mut Vec<T>, fetched: Result<Option<T>, rusqlite::Error>) -> (done:
    Option<Result<(), rusqlite::Error>>)
    ensures
        match fetched {
            Ok(Some(item)) => done is None && final(items)@ == old(items)@.push(item),
            Ok(None) => done == Some(Ok::<(), rusqlite::Error>(())) && final(items)@ == old(
                items,
            )@,
            Err(e) => done == Some(Err::<(), rusqlite::Error>(e)) && final(items)@ == old(items)@,
        },
{
    match fetched {
        Ok(Some(item)) => {
            items.push(item);
            None
        },
        Ok(None) => Some(Ok(())),
        Err(e) => Some(Err(e)),
    }
}

/// A `UrlInfo` from the six columns of a `Urls` row, each field taken from
/// the column of the table that holds it.
pub fn url_info_from_cells(
    code: TextCell,
    url: TextCell,
    created_at: IntegerCell,
    created_by: TextCell,
    hits: IntegerCell,
    last_hit: OptionalIntegerCell,
) -> (info: UrlInfo)
    requires
        code.column == 0,
        url.column == 1,
        created_at.column == 2,
        created_by.column == 3,
        hits.column == 4,
        last_hit.column == 5,
    ensures
        info.code == code.value,
        info.url == url.value,
        info.created_at == created_at.value,
        info.created_by == created_by.value,
        info.hits == hits.value,
        info.last_hit == last_hit.value,
{
    UrlInfo {
        code: code.value,
        url: url.value,
        created_at: created_at.value,
        created_by: created_by.value,
        hits: hits.value,
        last_hit: last_hit.value,
    }
}

/// Reads the six columns of a `Urls` row, in table order.
fn read_url_info(row: &rusqlite::Row) -> (res: Result<UrlInfo, rusqlite::Error>) {
    let code = match crate::sqlite::get_text(row, 0) {
        Ok(v) => v,
        Err(e) => return Err(e),
    };
    let url = match crate::sqlite::get_text(row, 1) {
        Ok(v) => v,
        Err(e) => return Err(e),
    };
    let created_at = match crate::sqlite::get_integer(row, 2) {
        Ok(v) => v,
        Err(e) => return Err(e),
    };
    let created_by = match crate::sqlite::get_text(row, 3) {
        Ok(v) => v,
        Err(e) => return Err(e),
    };
    let hits = match crate::sqlite::get_integer(row, 4) {
        Ok(v) => v,
        Err(e) => return Err(e),
    };
    let last_hit = match crate::sqlite::get_optional_integer(row, 5) {
        Ok(v) => v,
        Err(e) => return Err(e),
    };
    Ok(url_info_from_cells(code, url, created_at, created_by, hits, last_hit))
}

/// One attempt of `create_api_key`, given what inserting the key's hash
/// returned: the key itself when it was stored, a retry (`None`) when the
/// hash was taken, the SQLite error otherwise.
pub fn key_attempt(key: String, inserted: Result<usize, SqlFailure>) -> (res: Option<
    Result<String, DatabaseError>,
>)
    ensures
        match inserted {
            Ok(_) => res == Some(Ok::<String, DatabaseError>(key)),
            Err(SqlFailure::ConstraintViolation(_)) => res is None,
            Err(SqlFailure::Other(e)) => res == Some(
                Err::<String, DatabaseError>(DatabaseError::Sqlite(e)),
            ),
        },
{
    match inserted {
        Ok(_) => Some(Ok(key)),
        Err(SqlFailure::ConstraintViolation(_)) => None,
        Err(SqlFailure::Other(e)) => Some(Err(DatabaseError::Sqlite(e))),
    }
}

/// The result of `get_url` once the hit was counted: the URL when the
/// update ran, the SQLite error when it failed.
pub fn hit_counted(url: String, counted: Result<usize, SqlFailure>) -> (res: Result<
    String,
    DatabaseError,
>)
    ensures
        match counted {
            Ok(_) => res == Ok::<String, DatabaseError>(url),
            Err(f) => res == Err::<String, DatabaseError>(DatabaseError::Sqlite(f.error())),
        },
{
    match counted {
        Ok(_) => Ok(url),
        Err(failure) => sql_error(failure),
    }
}

/// Connection to the SQLite database that stores URLs, users and API keys.
pub struct Database {
    connection: rusqlite::Connection,
}

impl Database {
    /// Opens (and, when `create` is true, creates) the database at `path`.
    /// With `create` false a missing file is an error.
    pub fn new(path: &str, create: bool) -> (res: Result<Self, DatabaseError>)
        ensures
            res matches Err(e) ==> e is Sqlite,
    {
        let opened = if create {
            crate::sqlite::open_or_create(path)
        } else {
            crate::sqlite::open_existing(path)
        };
        match opened {
            Ok(connection) => Ok(Database { connection }),
            Err(e) => Err(DatabaseError::Sqlite(e)),
        }
    }

    /// Opens a fresh database that lives in memory only.
    pub fn new_in_memory() -> (res: Result<Self, DatabaseError>)
        ensures
            res matches Err(e) ==> e is Sqlite,
    {
        match crate::sqlite::open_in_memory() {
            Ok(connection) => Ok(Database { connection }),
            Err(e) => Err(DatabaseError::Sqlite(e)),
        }
    }

    /// Creates the required tables if they do not already exist.
    pub fn init(&self) -> (res: Result<(), DatabaseError>)
        ensures
            res matches Err(e) ==> e is Sqlite,
    {
        match crate::sqlite::execute_batch(&self.connection, SCHEMA) {
            Ok(()) => Ok(()),
            Err(e) => Err(DatabaseError::Sqlite(e)),
        }
    }

    /// Runs a statement that changes rows and returns how many it changed.
    fn run(&self, statement: SqlStatement) -> (res: Result<usize, SqlFailure>) {
        let call = sql_call(statement);
        crate::sqlite::execute(&self.connection, call.sql, call.params.as_slice())
    }

    /// Runs a query and returns its first row's first column, or `None`
    /// when it yields no row.
    fn first_text(&self, statement: SqlStatement) -> (res: Result<Option<TextCell>, rusqlite::Error>)
        ensures
            res matches Ok(Some(cell)) ==> cell.column == 0,
    {
        let call = sql_call(statement);
        let mut prepared = match crate::sqlite::prepare(&self.connection, call.sql) {
            Ok(s) => s,
            Err(e) => return Err(e),
        };
        let mut rows = match crate::sqlite::query(&mut prepared, call.params.as_slice()) {
            Ok(r) => r,
            Err(e) => return Err(e),
        };
        match crate::sqlite::next_row(&mut rows) {
            Ok(Some(row)) => match crate::sqlite::get_text(row, 0) {
                Ok(cell) => Ok(Some(cell)),
                Err(e) => Err(e),
            },
            Ok(None) => Ok(None),
            Err(e) => Err(e),
        }
    }

    /// Runs a query and returns the first column of every row as text.
    /// The loop also stops should the vector ever hold `usize::MAX` values,
    /// which no vector can.
    fn all_texts(&self, statement: SqlStatement) -> (res: Result<Vec<String>, rusqlite::Error>) {
        let call = sql_call(statement);
        let mut prepared = match crate::sqlite::prepare(&self.connection, call.sql) {
            Ok(s) => s,
            Err(e) => return Err(e),
        };
        let mut rows = match crate::sqlite::query(&mut prepared, call.params.as_slice()) {
            Ok(r) => r,
            Err(e) => return Err(e),
        };
        let mut values: Vec<String> = Vec::new();
        while values.len() < usize::MAX
            decreases usize::MAX - values.len(),
        {
            let fetched = match crate::sqlite::next_row(&mut rows) {
                Ok(Some(row)) => match crate::sqlite::get_text(row, 0) {
                    Ok(cell) => Ok(Some(cell.value)),
                    Err(e) => Err(e),
                },
                Ok(None) => Ok(None),
                Err(e) => Err(e),
            };
            match collect_row(&mut values, fetched) {
                Some(Ok(())) => return Ok(values),
                Some(Err(e)) => return Err(e),
                None => {},
            }
        }
        Ok(values)
    }

    /// Runs a query over `Urls` rows and reads each row as a `UrlInfo`.
    fn all_url_infos(&self, statement: SqlStatement) -> (res: Result<Vec<UrlInfo>, rusqlite::Error>) {
        let call = sql_call(statement);
        let mut prepared = match crate::sqlite::prepare(&self.connection, call.sql) {
            Ok(s) => s,
            Err(e) => return Err(e),
        };
        let mut rows = match crate::sqlite::query(&mut prepared, call.params.as_slice()) {
            Ok(r) => r,
            Err(e) => return Err(e),
        };
        let mut infos: Vec<UrlInfo> = Vec::new();
        while infos.len() < usize::MAX
            decreases usize::MAX - infos.len(),
        {
            let fetched = match crate::sqlite::next_row(&mut rows) {
                Ok(Some(row)) => match read_url_info(row) {
                    Ok(info) => Ok(Some(info)),
                    Err(e) => Err(e),
                },
                Ok(None) => Ok(None),
                Err(e) => Err(e),
            };
            match collect_row(&mut infos, fetched) {
                Some(Ok(())) => return Ok(infos),
                Some(Err(e)) => return Err(e),
                None => {},
            }
        }
        Ok(infos)
    }

    /// Creates a new active user with the given `username`. A username
    /// already taken gives `UsernameAlreadyInUse`.
    pub fn create_user(&self, username: &str) -> (res: Result<(), DatabaseError>)
        ensures
            res matches Err(e) ==> (e is UsernameAlreadyInUse || e is Sqlite),
    {
        let result = self.run(SqlStatement::InsertUser { username });
        insert_outcome(result, DatabaseError::UsernameAlreadyInUse)
    }

    /// Returns the usernames of all active users.
    pub fn list_users(&self) -> (res: Result<Vec<String>, DatabaseError>)
        ensures
            res matches Err(e) ==> e is Sqlite,
    {
        match self.all_texts(SqlStatement::ActiveUsernames) {
            Ok(users) => Ok(users),
            Err(e) => Err(DatabaseError::Sqlite(e)),
        }
    }

    /// Deactivates the user with the given `username` and all of their API
    /// keys. No active user of that name gives `NotFound`.
    pub fn delete_user(&self, username: &str) -> (res: Result<(), DatabaseError>)
        ensures
            res matches Err(e) ==> e.is_lookup_error(),
    {
        if let Err(failure) = self.run(SqlStatement::DeactivateUserKeys { username }) {
            return sql_error(failure);
        }
        change_outcome(self.run(SqlStatement::DeactivateUser { username }))
    }

    /// Generates and stores a new API key for `username`, returning the
    /// plaintext key. No active user of that name gives `NotFound`; three
    /// keys whose hashes are all taken give `CouldNotGenerateApiKey`.
    pub fn create_api_key(&self, username: &str) -> (res: Result<String, DatabaseError>)
        ensures
            res matches Ok(key) ==> api_key_hash(key@) is Some,
            res matches Ok(key) ==> key@.len() == 44,
            res matches Err(e) ==> (e.is_lookup_error() || e is CouldNotGenerateApiKey),
    {
        match lookup_outcome(self.first_text(SqlStatement::ActiveUser { username })) {
            Ok(_) => {},
            Err(e) => return Err(e),
        }
        let mut attempt: usize = 0;
        while attempt < API_KEY_ATTEMPTS
            decreases API_KEY_ATTEMPTS - attempt,
        {
            let key = generate_api_key();
            let key_hash = match hash_api_key(key.as_str()) {
                Ok(hash) => hash,
                Err(e) => return Err(DatabaseError::ApiKey(e)),
            };
            let inserted = self.run(
                SqlStatement::InsertKey { key_hash: key_hash.as_str(), username },
            );
            match key_attempt(key, inserted) {
                Some(outcome) => return outcome,
                None => {},
            }
            attempt = attempt + 1;
        }
        Err(DatabaseError::CouldNotGenerateApiKey)
    }

    /// Validates a plaintext API key and returns the associated username.
    /// A key that is not valid base64 gives `ApiKey`; an unknown or
    /// inactive key gives `NotFound`.
    pub fn check_api_key(&self, key: &str) -> (res: Result<String, DatabaseError>)
        ensures
            (res matches Err(e) && e is ApiKey) <==> api_key_hash(key@) is None,
            res matches Err(e) ==> (e.is_lookup_error() || e is ApiKey),
    {
        let key_hash = match hash_api_key(key) {
            Ok(hash) => hash,
            Err(e) => return Err(DatabaseError::ApiKey(e)),
        };
        self.check_api_key_by_hash(key_hash.as_str())
    }

    /// Validates an API key by its SHA-256 hex hash and returns the
    /// associated username. An unknown hash, or one of an inactive key or
    /// user, gives `NotFound`.
    pub fn check_api_key_by_hash(&self, key_hash: &str) -> (res: Result<String, DatabaseError>)
        ensures
            res matches Err(e) ==> e.is_lookup_error(),
    {
        match lookup_outcome(self.first_text(SqlStatement::KeyOwner { key_hash })) {
            Ok(cell) => Ok(cell.value),
            Err(e) => Err(e),
        }
    }

    /// Returns the SHA-256 hex hashes of all active API keys of `username`.
    pub fn list_api_keys(&self, username: &str) -> (res: Result<Vec<String>, DatabaseError>)
        ensures
            res matches Err(e) ==> e is Sqlite,
    {
        match self.all_texts(SqlStatement::UserKeyHashes { username }) {
            Ok(keys) => Ok(keys),
            Err(e) => Err(DatabaseError::Sqlite(e)),
        }
    }

    /// Deactivates an API key given as plaintext. A key that is not valid
    /// base64 gives `ApiKey`; an unknown or inactive key gives `NotFound`.
    pub fn delete_api_key(&self, key: &str) -> (res: Result<(), DatabaseError>)
        ensures
            (res matches Err(e) && e is ApiKey) <==> api_key_hash(key@) is None,
            res matches Err(e) ==> (e.is_lookup_error() || e is ApiKey),
    {
        let key_hash = match hash_api_key(key) {
            Ok(hash) => hash,
            Err(e) => return Err(DatabaseError::ApiKey(e)),
        };
        self.delete_api_key_by_hash(key_hash.as_str())
    }

    /// Deactivates an API key given by its SHA-256 hex hash. An unknown or
    /// inactive hash gives `NotFound`.
    pub fn delete_api_key_by_hash(&self, key_hash: &str) -> (res: Result<(), DatabaseError>)
        ensures
            res matches Err(e) ==> e.is_lookup_error(),
    {
        change_outcome(self.run(SqlStatement::DeactivateKey { key_hash }))
    }

    /// Looks up the full URL for a short `code` and counts the access: the
    /// hit counter goes up by one and the last hit becomes now. An unknown
    /// code gives `NotFound`.
    pub fn get_url(&self, code: &str) -> (res: Result<String, DatabaseError>)
        ensures
            res matches Err(e) ==> e.is_lookup_error(),
    {
        let url = match lookup_outcome(self.first_text(SqlStatement::UrlOfCode { code })) {
            Ok(cell) => cell.value,
            Err(e) => return Err(e),
        };
        hit_counted(url, self.run(SqlStatement::CountHit { code }))
    }

    /// Stores a new short `code` for `url`, attributed to `created_by`,
    /// with no hits yet. A code already taken gives `CodeAlreadyInUse`.
    pub fn create_code(&self, url: &str, code: &str, created_by: &str) -> (res: Result<
        (),
        DatabaseError,
    >)
        ensures
            res matches Err(e) ==> (e is CodeAlreadyInUse || e is Sqlite),
    {
        let result = self.run(SqlStatement::InsertCode { code, url, created_by });
        insert_outcome(result, DatabaseError::CodeAlreadyInUse)
    }

    /// Returns information about all shortened URLs, oldest first.
    pub fn list_codes(&self) -> (res: Result<Vec<UrlInfo>, DatabaseError>)
        ensures
            res matches Err(e) ==> e is Sqlite,
    {
        match self.all_url_infos(SqlStatement::AllCodes) {
            Ok(infos) => Ok(infos),
            Err(e) => Err(DatabaseError::Sqlite(e)),
        }
    }

    /// Returns information about a shortened URL without counting a hit.
    /// An unknown code gives `NotFound`.
    pub fn get_url_info(&self, code: &str) -> (res: Result<UrlInfo, DatabaseError>)
        ensures
            res matches Err(e) ==> e.is_lookup_error(),
    {
        let call = sql_call(SqlStatement::CodeInfo { code });
        let mut prepared = match crate::sqlite::prepare(&self.connection, call.sql) {
            Ok(s) => s,
            Err(e) => return Err(DatabaseError::Sqlite(e)),
        };
        let mut rows = match crate::sqlite::query(&mut prepared, call.params.as_slice()) {
            Ok(r) => r,
            Err(e) => return Err(DatabaseError::Sqlite(e)),
        };
        let found = match crate::sqlite::next_row(&mut rows) {
            Ok(Some(row)) => match read_url_info(row) {
                Ok(info) => Ok(Some(info)),
                Err(e) => Err(e),
            },
            Ok(None) => Ok(None),
            Err(e) => Err(e),
        };
        lookup_outcome(found)
    }

    /// Deletes the short code and its URL. An unknown code gives
    /// `NotFound`.
    pub fn delete_code(&self, code: &str) -> (res: Result<(), DatabaseError>)
        ensures
            res matches Err(e) ==> e.is_lookup_error(),
    {
        change_outcome(self.run(SqlStatement::DeleteCode { code }))
    }
}

} // verus!
