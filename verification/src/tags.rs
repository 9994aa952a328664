//! Tags shared by tasks and memories: found by name (case-insensitive),
//! created on first use.

use vstd::prelude::*;

use rusqlite::Connection;

use crate::clock::new_id;
use crate::domain::DomainError;
use crate::ids::EntityId;
use crate::rows::{id_at, id_param, text_param};
use crate::store::{fetch, run};

verus! {

/// The id of the live tag named `name` (ignoring case), creating it when
/// there is none.
pub fn find_or_create_tag(conn: &Connection, name: &str, now: &str) -> (r: Result<
    EntityId,
    DomainError,
>)
    ensures
        r matches Err(e) ==> e is Internal,
{
    let params = vec![text_param(name)];
    let rows = fetch(
        conn,
        "SELECT id FROM tags WHERE name = ?1 COLLATE NOCASE AND deleted_at IS NULL",
        params.as_slice(),
    )?;
    if rows.len() > 0 {
        return id_at(&rows[0], 0);
    }
    let id = new_id();
    let params = vec![id_param(id), text_param(name), text_param(now)];
    run(
        conn,
        "INSERT INTO tags (id, name, created_at, updated_at, revision)
         VALUES (?1, ?2, ?3, ?3, 1)",
        params.as_slice(),
    )?;
    Ok(id)
}

} // verus!
