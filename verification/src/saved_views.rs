//! Named task filters. The filter is a JSON document, stored as its
//! text; an unreadable stored filter reads back as `{}`.

use vstd::prelude::*;

use crate::chars::trim;
use crate::clock::{new_id, now_stamp};
use crate::db::{Database, SqlValue};
use crate::domain::{not_found, validation, DomainError};
use crate::ids::EntityId;
use crate::json::{is_json_or_empty, json_or_empty_object, json_render, render_json, JsonValue};
use crate::rows::{id_at, id_param, int_at, text_at};
use crate::store::{connect, fetch, run};
use crate::tasks::trimmed;

verus! {

pub struct SavedView {
    pub id: EntityId,
    pub name: String,
    pub filter: JsonValue,
    pub created_at: String,
    pub updated_at: String,
    pub revision: i64,
}

pub struct CreateSavedViewInput {
    pub name: String,
    pub filter: JsonValue,
}

pub struct SavedViewService {
    pub db: Database,
}

fn view_from_row(row: &Vec<SqlValue>) -> (r: Result<SavedView, DomainError>)
    ensures
        r matches Ok(v) ==> v.id == crate::rows::id_cell(row@, 0).unwrap()
            && v.name@ == crate::rows::text_cell(row@, 1).unwrap()
            && is_json_or_empty(v.filter, crate::rows::text_cell(row@, 2).unwrap()),
        r matches Err(e) ==> e is Internal,
{
    let id = id_at(row, 0)?;
    let name = text_at(row, 1)?;
    let raw = text_at(row, 2)?;
    let filter = json_or_empty_object(raw.as_str());
    Ok(
        SavedView {
            id,
            name,
            filter,
            created_at: text_at(row, 3)?,
            updated_at: text_at(row, 4)?,
            revision: int_at(row, 5)?,
        },
    )
}

impl SavedViewService {
    pub fn new(db: Database) -> (r: Self)
        ensures
            r.db.path@ == db.path@,
    {
        SavedViewService { db }
    }

    /// Saves a named filter; the name is trimmed and must not be blank.
    /// The filter is stored as its JSON text.
    pub fn create(&self, input: CreateSavedViewInput) -> (r: Result<SavedView, DomainError>)
        ensures
            r matches Err(DomainError::Validation(_)) <==> trim(input.name@).len() == 0,
            r matches Ok(v) ==> v.name@ == trim(input.name@),
    {
        let name = trimmed(input.name.as_str());
        if name.as_str().is_empty() {
            return Err(validation("视图名称不能为空"));
        }
        let filter = render_json(&input.filter);
        let id = new_id();
        let now = now_stamp();
        let conn = connect(&self.db)?;
        let params = vec![
            id_param(id),
            SqlValue::Text(name.clone()),
            SqlValue::Text(filter),
            SqlValue::Text(now.clone()),
            SqlValue::Text(now.clone()),
        ];
        run(
            &conn,
            "INSERT INTO saved_views (id, name, filter_json, created_at, updated_at, revision, deleted_at)
             VALUES (?1, ?2, ?3, ?4, ?5, 1, NULL)",
            params.as_slice(),
        )?;
        Ok(
            SavedView {
                id,
                name,
                filter: input.filter,
                created_at: now.clone(),
                updated_at: now,
                revision: 1,
            },
        )
    }

    /// Live views, most recently updated first.
    pub fn list(&self) -> (r: Result<Vec<SavedView>, DomainError>)
        ensures
            r matches Err(e) ==> e is Internal,
    {
        let conn = connect(&self.db)?;
        let rows = fetch(
            &conn,
            "SELECT id, name, filter_json, created_at, updated_at, revision
             FROM saved_views WHERE deleted_at IS NULL ORDER BY updated_at DESC",
            &[],
        )?;
        let mut out: Vec<SavedView> = Vec::new();
        let mut i: usize = 0;
        while i < rows.len()
            invariant
                i <= rows@.len(),
            decreases rows@.len() - i,
        {
            out.push(view_from_row(&rows[i])?);
            i = i + 1;
        }
        Ok(out)
    }

    /// A live view by id.
    pub fn get(&self, id: EntityId) -> (r: Result<SavedView, DomainError>)
        ensures
            r matches Ok(v) ==> v.id == id,
            r matches Err(e) ==> e is Internal || e is NotFound,
    {
        let conn = connect(&self.db)?;
        let params = vec![id_param(id)];
        let rows = fetch(
            &conn,
            "SELECT id, name, filter_json, created_at, updated_at, revision
             FROM saved_views WHERE id = ?1 AND deleted_at IS NULL",
            params.as_slice(),
        )?;
        let mut i: usize = 0;
        while i < rows.len()
            invariant
                i <= rows@.len(),
            decreases rows@.len() - i,
        {
            let v = view_from_row(&rows[i])?;
            if v.id == id {
                return Ok(v);
            }
            i = i + 1;
        }
        Err(not_found("视图不存在"))
    }

    /// Deletes a live view (softly).
    pub fn delete(&self, id: EntityId) -> (r: Result<(), DomainError>)
        ensures
            r matches Err(e) ==> e is Internal || e is NotFound,
    {
        let _ = self.get(id)?;
        let now = now_stamp();
        let conn = connect(&self.db)?;
        let params = vec![SqlValue::Text(now), id_param(id)];
        run(
            &conn,
            "UPDATE saved_views SET deleted_at = ?1, updated_at = ?1, revision = revision + 1 WHERE id = ?2",
            params.as_slice(),
        )?;
        Ok(())
    }
}

} // verus!
