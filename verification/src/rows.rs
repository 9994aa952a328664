//! Decoding of fetched rows: each column read is checked against the type
//! the schema gives it.

use vstd::prelude::*;

use crate::db::{sql_int, sql_text, SqlValue};
use crate::domain::{internal_msg, DomainError};
use crate::ids::{id_of_text, parse_id, EntityId};

verus! {

/// Column `i` of a row (NULL when the row is shorter).
pub open spec fn cell(row: Seq<SqlValue>, i: int) -> SqlValue {
    if 0 <= i < row.len() {
        row[i]
    } else {
        SqlValue::Null
    }
}

pub open spec fn text_cell(row: Seq<SqlValue>, i: int) -> Option<Seq<char>> {
    sql_text(cell(row, i))
}

/// A nullable TEXT column: `Some(None)` for NULL, `None` when mistyped.
pub open spec fn opt_text_cell(row: Seq<SqlValue>, i: int) -> Option<Option<Seq<char>>> {
    match cell(row, i) {
        SqlValue::Null => Some(None),
        SqlValue::Text(s) => Some(Some(s@)),
        _ => None,
    }
}

pub open spec fn int_cell(row: Seq<SqlValue>, i: int) -> Option<i64> {
    sql_int(cell(row, i))
}

pub open spec fn opt_int_cell(row: Seq<SqlValue>, i: int) -> Option<Option<i64>> {
    match cell(row, i) {
        SqlValue::Null => Some(None),
        SqlValue::Integer(v) => Some(Some(v)),
        _ => None,
    }
}

/// An id column: TEXT holding an id's text form.
pub open spec fn id_cell(row: Seq<SqlValue>, i: int) -> Option<EntityId> {
    match text_cell(row, i) {
        Some(t) => id_of_text(t),
        None => None,
    }
}

pub open spec fn opt_id_cell(row: Seq<SqlValue>, i: int) -> Option<Option<EntityId>> {
    match cell(row, i) {
        SqlValue::Null => Some(None),
        SqlValue::Text(s) => match id_of_text(s@) {
            Some(x) => Some(Some(x)),
            None => None,
        },
        _ => None,
    }
}

/// A 0/1 flag column (anything but 1 reads as false).
pub open spec fn flag_cell(row: Seq<SqlValue>, i: int) -> Option<bool> {
    match int_cell(row, i) {
        Some(v) => Some(v == 1),
        None => None,
    }
}

fn bad_column() -> (r: DomainError)
    ensures
        r is Internal,
{
    internal_msg("unexpected column value")
}

pub fn text_at(row: &Vec<SqlValue>, i: usize) -> (r: Result<String, DomainError>)
    ensures
        r is Ok <==> text_cell(row@, i as int) is Some,
        r matches Ok(s) ==> s@ == text_cell(row@, i as int).unwrap(),
        r matches Err(e) ==> e is Internal,
{
    if i < row.len() {
        match &row[i] {
            SqlValue::Text(s) => Ok(s.clone()),
            _ => Err(bad_column()),
        }
    } else {
        Err(bad_column())
    }
}

pub fn opt_text_at(row: &Vec<SqlValue>, i: usize) -> (r: Result<Option<String>, DomainError>)
    ensures
        r is Ok <==> opt_text_cell(row@, i as int) is Some,
        r matches Ok(o) ==> match o {
            Some(s) => opt_text_cell(row@, i as int) == Some(Some(s@)),
            None => opt_text_cell(row@, i as int) == Some(None::<Seq<char>>),
        },
        r matches Err(e) ==> e is Internal,
{
    if i < row.len() {
        match &row[i] {
            SqlValue::Null => Ok(None),
            SqlValue::Text(s) => Ok(Some(s.clone())),
            _ => Err(bad_column()),
        }
    } else {
        Ok(None)
    }
}

pub fn int_at(row: &Vec<SqlValue>, i: usize) -> (r: Result<i64, DomainError>)
    ensures
        r is Ok <==> int_cell(row@, i as int) is Some,
        r matches Ok(v) ==> v == int_cell(row@, i as int).unwrap(),
        r matches Err(e) ==> e is Internal,
{
    if i < row.len() {
        match &row[i] {
            SqlValue::Integer(v) => Ok(*v),
            _ => Err(bad_column()),
        }
    } else {
        Err(bad_column())
    }
}

pub fn opt_int_at(row: &Vec<SqlValue>, i: usize) -> (r: Result<Option<i64>, DomainError>)
    ensures
        r is Ok <==> opt_int_cell(row@, i as int) is Some,
        r matches Ok(o) ==> opt_int_cell(row@, i as int) == Some(o),
        r matches Err(e) ==> e is Internal,
{
    if i < row.len() {
        match &row[i] {
            SqlValue::Null => Ok(None),
            SqlValue::Integer(v) => Ok(Some(*v)),
            _ => Err(bad_column()),
        }
    } else {
        Ok(None)
    }
}

pub fn flag_at(row: &Vec<SqlValue>, i: usize) -> (r: Result<bool, DomainError>)
    ensures
        r is Ok <==> flag_cell(row@, i as int) is Some,
        r matches Ok(b) ==> b == flag_cell(row@, i as int).unwrap(),
        r matches Err(e) ==> e is Internal,
{
    let v = int_at(row, i)?;
    Ok(v == 1)
}

pub fn id_at(row: &Vec<SqlValue>, i: usize) -> (r: Result<EntityId, DomainError>)
    ensures
        r is Ok <==> id_cell(row@, i as int) is Some,
        r matches Ok(x) ==> x == id_cell(row@, i as int).unwrap(),
        r matches Err(e) ==> e is Internal,
{
    let t = text_at(row, i)?;
    match parse_id(t.as_str()) {
        Some(x) => Ok(x),
        None => Err(bad_column()),
    }
}

pub fn opt_id_at(row: &Vec<SqlValue>, i: usize) -> (r: Result<Option<EntityId>, DomainError>)
    ensures
        r is Ok <==> opt_id_cell(row@, i as int) is Some,
        r matches Ok(o) ==> opt_id_cell(row@, i as int) == Some(o),
        r matches Err(e) ==> e is Internal,
{
    match opt_text_at(row, i)? {
        None => Ok(None),
        Some(t) => match parse_id(t.as_str()) {
            Some(x) => Ok(Some(x)),
            None => Err(bad_column()),
        },
    }
}

/// Text form of an id, as a bound parameter.
pub fn id_param(x: EntityId) -> (r: SqlValue)
    ensures
        sql_text(r) == Some(crate::ids::id_text(x)),
{
    SqlValue::Text(crate::ids::format_id(x))
}

/// A text parameter.
pub fn text_param(s: &str) -> (r: SqlValue)
    ensures
        sql_text(r) == Some(s@),
{
    SqlValue::Text(s.to_string())
}

/// A nullable text parameter.
pub fn opt_text_param(s: &Option<String>) -> (r: SqlValue)
    ensures
        match s {
            Some(t) => sql_text(r) == Some(t@),
            None => r is Null,
        },
{
    match s {
        Some(t) => SqlValue::Text(t.clone()),
        None => SqlValue::Null,
    }
}

/// The single integer of a one-row, one-column result (a `COUNT(*)`).
pub fn single_int(rows: &Vec<Vec<SqlValue>>) -> (r: Result<i64, DomainError>)
    ensures
        r is Ok <==> rows@.len() > 0 && int_cell(rows@[0]@, 0) is Some,
        r matches Ok(v) ==> v == int_cell(rows@[0]@, 0).unwrap(),
        r matches Err(e) ==> e is Internal,
{
    if rows.len() == 0 {
        return Err(bad_column());
    }
    int_at(&rows[0], 0)
}

} // verus!
