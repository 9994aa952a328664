//! Service-level access to the database: failures of the store become
//! internal errors, and statements can be grouped into a transaction.

use vstd::prelude::*;

use rusqlite::Connection;

use crate::db::{execute, execute_batch, query, Database, SqlValue};
use crate::domain::{internal, DomainError};

verus! {

/// A fresh connection to the service's database.
pub fn connect(db: &Database) -> (r: Result<Connection, DomainError>)
    ensures
        r matches Err(e) ==> e is Internal,
{
    match db.connect() {
        Ok(c) => Ok(c),
        Err(e) => Err(internal(e)),
    }
}

/// Runs one statement; returns the number of changed rows.
pub fn run(conn: &Connection, sql: &str, params: &[SqlValue]) -> (r: Result<usize, DomainError>)
    ensures
        r matches Err(e) ==> e is Internal,
{
    match execute(conn, sql, params) {
        Ok(n) => Ok(n),
        Err(e) => Err(internal(e)),
    }
}

/// Runs one query; returns its rows.
pub fn fetch(conn: &Connection, sql: &str, params: &[SqlValue]) -> (r: Result<
    Vec<Vec<SqlValue>>,
    DomainError,
>)
    ensures
        r matches Err(e) ==> e is Internal,
{
    match query(conn, sql, params) {
        Ok(rows) => Ok(rows),
        Err(e) => Err(internal(e)),
    }
}

/// Runs a script of statements.
pub fn run_batch(conn: &Connection, sql: &str) -> (r: Result<(), DomainError>)
    ensures
        r matches Err(e) ==> e is Internal,
{
    match execute_batch(conn, sql) {
        Ok(()) => Ok(()),
        Err(e) => Err(internal(e)),
    }
}

/// Opens a transaction on the connection.
pub fn begin(conn: &Connection) -> (r: Result<(), DomainError>)
    ensures
        r matches Err(e) ==> e is Internal,
{
    run_batch(conn, "BEGIN")
}

/// Ends a transaction: commits when `outcome` is a success, rolls back
/// otherwise, and hands the outcome (or the commit failure) on.
pub fn finish<T>(conn: &Connection, outcome: Result<T, DomainError>) -> (r: Result<
    T,
    DomainError,
>)
    ensures
        outcome is Err ==> r == outcome,
        outcome is Ok ==> (r is Ok ==> r == outcome) && (r matches Err(e) ==> e is Internal),
{
    match outcome {
        Ok(v) => match run_batch(conn, "COMMIT") {
            Ok(()) => Ok(v),
            Err(e) => {
                let _ = run_batch(conn, "ROLLBACK");
                Err(e)
            },
        },
        Err(e) => {
            let _ = run_batch(conn, "ROLLBACK");
            Err(e)
        },
    }
}

} // verus!
