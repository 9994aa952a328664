//! Storage access: the SQLite database behind every service, reached
//! through a few calls into `rusqlite`. Rows come back as plain values and
//! are decoded by verified code.

use vstd::prelude::*;

use rusqlite::types::Value;
use rusqlite::Connection;

verus! {

#[verifier::external_type_specification]
#[verifier::external_body]
pub struct ExConnection(Connection);

#[verifier::external_type_specification]
#[verifier::external_body]
pub struct ExValue(Value);

#[verifier::external_type_specification]
#[verifier::external_body]
pub struct ExSqliteError(rusqlite::Error);

/// One SQL value, as stored or bound.
pub enum SqlValue {
    Null,
    Integer(i64),
    Text(String),
    Blob(Vec<u8>),
}

/// A failure reported by the database.
pub struct DbError {
    pub message: String,
}

/// The text in a value, if it is a TEXT value.
pub open spec fn sql_text(v: SqlValue) -> Option<Seq<char>> {
    match v {
        SqlValue::Text(s) => Some(s@),
        _ => None,
    }
}

/// The integer in a value, if it is an INTEGER value.
pub open spec fn sql_int(v: SqlValue) -> Option<i64> {
    match v {
        SqlValue::Integer(i) => Some(i),
        _ => None,
    }
}

/// Converts a bound value to `rusqlite`'s value type, one variant for one.
#[verifier::external_body]
fn value_in(v: &SqlValue) -> Value {
    match v {
        SqlValue::Null => Value::Null,
        SqlValue::Integer(i) => Value::Integer(*i),
        SqlValue::Text(s) => Value::Text(s.clone()),
        SqlValue::Blob(b) => Value::Blob(b.clone()),
    }
}

/// Converts a fetched `rusqlite` value, one variant for one; a REAL value
/// (no column of the schema holds one) is reported as an error.
#[verifier::external_body]
fn value_out(v: Value) -> rusqlite::Result<SqlValue> {
    match v {
        Value::Null => Ok(SqlValue::Null),
        Value::Integer(i) => Ok(SqlValue::Integer(i)),
        Value::Real(_) => Err(rusqlite::Error::InvalidQuery),
        Value::Text(s) => Ok(SqlValue::Text(s)),
        Value::Blob(b) => Ok(SqlValue::Blob(b)),
    }
}

/// `rusqlite::Connection::open`: opens (creating if needed) the database
/// file at `path`. What comes back depends on the file system; nothing is
/// promised of it.
#[verifier::external_body]
pub(crate) fn open_connection(path: &str) -> Result<Connection, DbError> {
    Connection::open(path).map_err(|e| DbError { message: e.to_string() })
}

/// `rusqlite::Connection::execute_batch`: runs a script of statements.
/// The outcome depends on the database's contents; nothing is promised.
#[verifier::external_body]
pub(crate) fn execute_batch(conn: &Connection, sql: &str) -> Result<(), DbError> {
    conn.execute_batch(sql).map_err(|e| DbError { message: e.to_string() })
}

/// `rusqlite::Connection::execute`: runs one statement with positional
/// parameters and returns the number of changed rows. The outcome depends
/// on the database's contents; nothing is promised.
#[verifier::external_body]
pub(crate) fn execute(conn: &Connection, sql: &str, params: &[SqlValue]) -> Result<usize, DbError> {
    let values: Vec<Value> = params.iter().map(value_in).collect();
    conn.execute(sql, rusqlite::params_from_iter(values)).map_err(
        |e| DbError { message: e.to_string() },
    )
}

/// `rusqlite::Statement::query_map` over a prepared statement: runs a
/// query with positional parameters and returns every row as its column
/// values. The rows depend on the database's contents; nothing is promised.
#[verifier::external_body]
pub(crate) fn query(conn: &Connection, sql: &str, params: &[SqlValue]) -> Result<
    Vec<Vec<SqlValue>>,
    DbError,
> {
    let values: Vec<Value> = params.iter().map(value_in).collect();
    let run = || -> rusqlite::Result<Vec<Vec<SqlValue>>> {
        let mut stmt = conn.prepare(sql)?;
        let n = stmt.column_count();
        let rows = stmt.query_map(rusqlite::params_from_iter(values), |row| {
            (0..n).map(|i| value_out(row.get::<_, Value>(i)?)).collect()
        })?;
        rows.collect()
    };
    run().map_err(|e| DbError { message: e.to_string() })
}

/// `rusqlite::Statement::column_names` and `query_map` over a prepared
/// statement: the names of the result columns and every row as its
/// column values. The rows depend on the database; nothing is promised.
#[verifier::external_body]
pub(crate) fn query_with_columns(conn: &Connection, sql: &str) -> Result<(Vec<String>, Vec<Vec<SqlValue>>), DbError> {
    let run = || -> rusqlite::Result<(Vec<String>, Vec<Vec<SqlValue>>)> {
        let mut stmt = conn.prepare(sql)?;
        let names: Vec<String> = stmt.column_names().iter().map(|s| s.to_string()).collect();
        let n = names.len();
        let rows = stmt.query_map([], |row| (0..n).map(|i| value_out(row.get::<_, Value>(i)?)).collect())?;
        Ok((names, rows.collect::<rusqlite::Result<Vec<Vec<SqlValue>>>>()?))
    };
    run().map_err(|e| DbError { message: e.to_string() })
}

/// `rusqlite::Connection::open_with_flags` with
/// `OpenFlags::SQLITE_OPEN_READ_ONLY`: a connection that cannot write.
/// The outcome depends on the file; nothing is promised.
#[verifier::external_body]
pub(crate) fn open_read_only(path: &str) -> Result<Connection, DbError> {
    Connection::open_with_flags(path, rusqlite::OpenFlags::SQLITE_OPEN_READ_ONLY)
        .map_err(|e| DbError { message: e.to_string() })
}

/// `rusqlite::backup::Backup::new` and `run_to_completion` (100 pages per
/// step, 25 ms between steps): copies the main database of `from` over
/// the main database of `to`. The outcome depends on both databases;
/// nothing is promised.
#[verifier::external_body]
pub(crate) fn copy_database(from: &Connection, to: &mut Connection) -> Result<(), DbError> {
    let backup = rusqlite::backup::Backup::new(from, to).map_err(|e| DbError { message: e.to_string() })?;
    backup
        .run_to_completion(100, std::time::Duration::from_millis(25), None)
        .map_err(|e| DbError { message: e.to_string() })
}

/// `std::path::Path::exists`: whether something is at the path now. It
/// depends on the file system; nothing is promised.
#[verifier::external_body]
pub(crate) fn path_exists(path: &str) -> bool {
    std::path::Path::new(path).exists()
}

/// `rusqlite::Connection::last_insert_rowid`; depends on the database.
#[verifier::external_body]
pub(crate) fn last_insert_rowid(conn: &Connection) -> i64 {
    conn.last_insert_rowid()
}

/// The database file a service works on. Every operation opens its own
/// connection to it.
pub struct Database {
    pub path: String,
}

impl Clone for Database {
    fn clone(&self) -> (r: Self)
        ensures
            r.path@ == self.path@,
    {
        Database { path: self.path.clone() }
    }
}

impl Database {
    /// Opens the database file at `path` and brings its schema up to date.
    pub fn open(path: &str) -> (r: Result<Database, DbError>)
        ensures
            r matches Ok(db) ==> db.path@ == path@,
    {
        let conn = open_connection(path)?;
        execute_batch(&conn, crate::schema::SCHEMA)?;
        Ok(Database { path: path.to_string() })
    }

    /// A fresh connection to the database file.
    pub fn connect(&self) -> Result<Connection, DbError> {
        open_connection(self.path.as_str())
    }
}

} // verus!
