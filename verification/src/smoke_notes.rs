//! Minimal notes used to check the storage end to end.

use vstd::prelude::*;

use crate::chars::trim;
use crate::clock::{new_id, now_stamp};
use crate::db::{Database, SqlValue};
use crate::domain::{not_found, validation, DomainError};
use crate::ids::EntityId;
use crate::rows::{id_at, id_param, int_at, text_at};
use crate::store::{connect, fetch, run};
use crate::tasks::trimmed;

verus! {

pub struct SmokeNote {
    pub id: EntityId,
    pub body: String,
    pub created_at: String,
    pub updated_at: String,
    pub revision: i64,
}

pub struct SmokeNoteService {
    pub db: Database,
}

impl SmokeNoteService {
    pub fn new(db: Database) -> (r: Self)
        ensures
            r.db.path@ == db.path@,
    {
        SmokeNoteService { db }
    }

    /// Stores a note; the body is trimmed and must not be blank. The note
    /// returned is the one written, at revision 1.
    pub fn create(&self, body: String) -> (r: Result<SmokeNote, DomainError>)
        ensures
            r matches Err(DomainError::Validation(_)) <==> trim(body@).len() == 0,
            r matches Ok(n) ==> n.body@ == trim(body@) && n.revision == 1 && n.created_at@
                == n.updated_at@,
    {
        let body = trimmed(body.as_str());
        if body.as_str().is_empty() {
            return Err(validation("body is required"));
        }
        let id = new_id();
        let now = now_stamp();
        let conn = connect(&self.db)?;
        let params = vec![id_param(id), SqlValue::Text(body.clone()), SqlValue::Text(now.clone())];
        run(
            &conn,
            "INSERT INTO smoke_notes (id, body, created_at, updated_at, revision, deleted_at)
             VALUES (?1, ?2, ?3, ?3, 1, NULL)",
            params.as_slice(),
        )?;
        Ok(SmokeNote { id, body, created_at: now.clone(), updated_at: now, revision: 1 })
    }

    /// Live notes, most recently updated first.
    pub fn list_active(&self) -> (r: Result<Vec<SmokeNote>, DomainError>)
        ensures
            r matches Err(e) ==> e is Internal,
    {
        let conn = connect(&self.db)?;
        let rows = fetch(
            &conn,
            "SELECT id, body, created_at, updated_at, revision
             FROM smoke_notes WHERE deleted_at IS NULL ORDER BY updated_at DESC",
            &[],
        )?;
        let mut out: Vec<SmokeNote> = Vec::new();
        let mut i: usize = 0;
        while i < rows.len()
            invariant
                i <= rows@.len(),
            decreases rows@.len() - i,
        {
            let row = &rows[i];
            out.push(
                SmokeNote {
                    id: id_at(row, 0)?,
                    body: text_at(row, 1)?,
                    created_at: text_at(row, 2)?,
                    updated_at: text_at(row, 3)?,
                    revision: int_at(row, 4)?,
                },
            );
            i = i + 1;
        }
        Ok(out)
    }

    /// Deletes a note (softly); deleting an already deleted note succeeds,
    /// an unknown one is not found.
    pub fn soft_delete(&self, id: EntityId) -> (r: Result<(), DomainError>)
        ensures
            r matches Err(e) ==> e is Internal || e is NotFound,
    {
        let conn = connect(&self.db)?;
        let now = now_stamp();
        let params = vec![SqlValue::Text(now), id_param(id)];
        let updated = run(
            &conn,
            "UPDATE smoke_notes SET deleted_at = ?1, updated_at = ?1, revision = revision + 1
             WHERE id = ?2 AND deleted_at IS NULL",
            params.as_slice(),
        )?;
        if updated == 0 {
            let params = vec![id_param(id)];
            let rows = fetch(&conn, "SELECT 1 FROM smoke_notes WHERE id = ?1", params.as_slice())?;
            if rows.len() == 0 {
                return Err(not_found("smoke note not found"));
            }
        }
        Ok(())
    }
}

} // verus!
