//! Typed links between entities (attachments, conversions, mentions,
//! related items).

use vstd::prelude::*;

use crate::clock::{new_id, now_stamp};
use crate::db::{execute, query, Database, SqlValue};
use crate::domain::{internal, internal_msg, str_eq, validation, DomainError};
use crate::ids::EntityId;
use crate::rows::{id_at, id_cell, id_param, single_int, text_at, text_cell, text_param};

verus! {

pub const LINK_KIND_MENTION: &'static str = "mention";

pub const LINK_KIND_RELATED: &'static str = "related";

/// Entity types a link may join.
pub open spec fn is_link_entity_type(s: Seq<char>) -> bool {
    s == "task"@ || s == "memory"@ || s == "reminder"@ || s == "asset"@ || s == "clipboard"@ || s
        == "file_ref"@
}

/// Kinds a link may have.
pub open spec fn is_link_kind(s: Seq<char>) -> bool {
    s == "attachment"@ || s == "converted_to"@ || s == "mention"@ || s == "related"@ || s
        == "ai_extract"@
}

pub fn parse_link_entity_type(value: &str) -> (r: Result<(), DomainError>)
    ensures
        r is Ok <==> is_link_entity_type(value@),
        r matches Err(e) ==> e is Validation,
{
    if str_eq(value, "task") || str_eq(value, "memory") || str_eq(value, "reminder") || str_eq(
        value,
        "asset",
    ) || str_eq(value, "clipboard") || str_eq(value, "file_ref") {
        Ok(())
    } else {
        Err(validation("无效的关联实体类型"))
    }
}

pub fn validate_link_kind(value: &str) -> (r: Result<(), DomainError>)
    ensures
        r is Ok <==> is_link_kind(value@),
        r matches Err(e) ==> e is Validation,
{
    if str_eq(value, "attachment") || str_eq(value, "converted_to") || str_eq(value, "mention")
        || str_eq(value, "related") || str_eq(value, "ai_extract") {
        Ok(())
    } else {
        Err(validation("无效的关联类型"))
    }
}

pub struct EntityLink {
    pub id: EntityId,
    pub source_type: String,
    pub source_id: EntityId,
    pub target_type: String,
    pub target_id: EntityId,
    pub link_kind: String,
    pub created_at: String,
}

/// Whether a fetched row decodes to a link.
pub open spec fn link_row_ok(row: Seq<SqlValue>) -> bool {
    &&& id_cell(row, 0) is Some
    &&& text_cell(row, 1) is Some
    &&& id_cell(row, 2) is Some
    &&& text_cell(row, 3) is Some
    &&& id_cell(row, 4) is Some
    &&& text_cell(row, 5) is Some
    &&& text_cell(row, 6) is Some
}

/// `l` is the decoding of `row`.
pub open spec fn link_decodes(l: EntityLink, row: Seq<SqlValue>) -> bool {
    &&& l.id == id_cell(row, 0).unwrap()
    &&& l.source_type@ == text_cell(row, 1).unwrap()
    &&& l.source_id == id_cell(row, 2).unwrap()
    &&& l.target_type@ == text_cell(row, 3).unwrap()
    &&& l.target_id == id_cell(row, 4).unwrap()
    &&& l.link_kind@ == text_cell(row, 5).unwrap()
    &&& l.created_at@ == text_cell(row, 6).unwrap()
}

fn link_from_row(row: &Vec<SqlValue>) -> (r: Result<EntityLink, DomainError>)
    ensures
        r is Ok <==> link_row_ok(row@),
        r matches Ok(l) ==> link_decodes(l, row@),
        r matches Err(e) ==> e is Internal,
{
    Ok(
        EntityLink {
            id: id_at(row, 0)?,
            source_type: text_at(row, 1)?,
            source_id: id_at(row, 2)?,
            target_type: text_at(row, 3)?,
            target_id: id_at(row, 4)?,
            link_kind: text_at(row, 5)?,
            created_at: text_at(row, 6)?,
        },
    )
}

/// Which side of a link a listing matches on.
pub enum LinkSide {
    Source,
    Target,
    Either,
}

pub open spec fn link_matches(l: EntityLink, side: LinkSide, t: Seq<char>, id: EntityId) -> bool {
    match side {
        LinkSide::Source => l.source_type@ == t && l.source_id == id,
        LinkSide::Target => l.target_type@ == t && l.target_id == id,
        LinkSide::Either => (l.source_type@ == t && l.source_id == id) || (l.target_type@ == t
            && l.target_id == id),
    }
}

fn link_matches_exec(l: &EntityLink, side: &LinkSide, t: &str, id: EntityId) -> (r: bool)
    ensures
        r == link_matches(*l, *side, t@, id),
{
    match side {
        LinkSide::Source => str_eq(l.source_type.as_str(), t) && l.source_id == id,
        LinkSide::Target => str_eq(l.target_type.as_str(), t) && l.target_id == id,
        LinkSide::Either => (str_eq(l.source_type.as_str(), t) && l.source_id == id) || (str_eq(
            l.target_type.as_str(),
            t,
        ) && l.target_id == id),
    }
}

const LINK_COLUMNS: &'static str =
    "SELECT id, source_type, source_id, target_type, target_id, link_kind, created_at FROM entity_links";

pub struct EntityLinkService {
    pub db: Database,
}

impl EntityLinkService {
    pub fn new(db: Database) -> (r: Self)
        ensures
            r.db.path@ == db.path@,
    {
        EntityLinkService { db }
    }

    fn connect(&self) -> (r: Result<rusqlite::Connection, DomainError>)
        ensures
            r matches Err(e) ==> e is Internal,
    {
        match self.db.connect() {
            Ok(c) => Ok(c),
            Err(e) => Err(internal(e)),
        }
    }

    /// Links two entities. Idempotent: linking the same pair with the same
    /// kind again returns the existing link.
    pub fn link(
        &self,
        source_type: &str,
        source_id: EntityId,
        target_type: &str,
        target_id: EntityId,
        link_kind: &str,
    ) -> (r: Result<EntityLink, DomainError>)
        ensures
            r matches Err(DomainError::Validation(_)) <==> !(is_link_entity_type(source_type@)
                && is_link_entity_type(target_type@) && is_link_kind(link_kind@)),
            r matches Ok(l) ==> l.source_type@ == source_type@ && l.source_id == source_id
                && l.target_type@ == target_type@ && l.target_id == target_id && l.link_kind@
                == link_kind@,
    {
        parse_link_entity_type(source_type)?;
        parse_link_entity_type(target_type)?;
        validate_link_kind(link_kind)?;
        let conn = self.connect()?;
        let now = now_stamp();
        let params = vec![
            id_param(new_id()),
            text_param(source_type),
            id_param(source_id),
            text_param(target_type),
            id_param(target_id),
            text_param(link_kind),
            SqlValue::Text(now),
        ];
        match execute(
            &conn,
            "INSERT OR IGNORE INTO entity_links
                (id, source_type, source_id, target_type, target_id, link_kind, created_at)
             VALUES (?1, ?2, ?3, ?4, ?5, ?6, ?7)",
            params.as_slice(),
        ) {
            Ok(_) => {},
            Err(e) => return Err(internal(e)),
        }
        match self.find_pair(&conn, source_type, source_id, target_type, target_id, link_kind)? {
            Some(l) => Ok(l),
            None => Err(internal_msg("关联写入后未能读取")),
        }
    }

    fn find_pair(
        &self,
        conn: &rusqlite::Connection,
        source_type: &str,
        source_id: EntityId,
        target_type: &str,
        target_id: EntityId,
        link_kind: &str,
    ) -> (r: Result<Option<EntityLink>, DomainError>)
        ensures
            r matches Err(e) ==> e is Internal,
            r matches Ok(Some(l)) ==> l.source_type@ == source_type@ && l.source_id == source_id
                && l.target_type@ == target_type@ && l.target_id == target_id && l.link_kind@
                == link_kind@,
    {
        let params = vec![
            text_param(source_type),
            id_param(source_id),
            text_param(target_type),
            id_param(target_id),
            text_param(link_kind),
        ];
        let rows = match query(
            conn,
            "SELECT id, source_type, source_id, target_type, target_id, link_kind, created_at
             FROM entity_links
             WHERE source_type = ?1 AND source_id = ?2
               AND target_type = ?3 AND target_id = ?4 AND link_kind = ?5
             LIMIT 1",
            params.as_slice(),
        ) {
            Ok(rows) => rows,
            Err(e) => return Err(internal(e)),
        };
        let mut i: usize = 0;
        while i < rows.len()
            invariant
                i <= rows@.len(),
            decreases rows@.len() - i,
        {
            let l = link_from_row(&rows[i])?;
            if str_eq(l.source_type.as_str(), source_type) && l.source_id == source_id && str_eq(
                l.target_type.as_str(),
                target_type,
            ) && l.target_id == target_id && str_eq(l.link_kind.as_str(), link_kind) {
                return Ok(Some(l));
            }
            i = i + 1;
        }
        Ok(None)
    }

    /// Removes one link.
    pub fn unlink(&self, id: EntityId) -> (r: Result<(), DomainError>)
        ensures
            r matches Err(e) ==> e is Internal,
    {
        let conn = self.connect()?;
        let params = vec![id_param(id)];
        match execute(&conn, "DELETE FROM entity_links WHERE id = ?1", params.as_slice()) {
            Ok(_) => Ok(()),
            Err(e) => Err(internal(e)),
        }
    }

    /// Removes every link leaving the given entity; returns how many.
    pub fn purge_for_source(&self, source_type: &str, source_id: EntityId) -> (r: Result<
        usize,
        DomainError,
    >)
        ensures
            r matches Err(e) ==> e is Internal,
    {
        let conn = self.connect()?;
        let params = vec![text_param(source_type), id_param(source_id)];
        match execute(
            &conn,
            "DELETE FROM entity_links WHERE source_type = ?1 AND source_id = ?2",
            params.as_slice(),
        ) {
            Ok(n) => Ok(n),
            Err(e) => Err(internal(e)),
        }
    }

    /// Removes every link arriving at the given entity; returns how many.
    pub fn purge_incoming_for_target(&self, target_type: &str, target_id: EntityId) -> (r: Result<
        usize,
        DomainError,
    >)
        ensures
            r matches Err(e) ==> e is Internal,
    {
        let conn = self.connect()?;
        let params = vec![text_param(target_type), id_param(target_id)];
        match execute(
            &conn,
            "DELETE FROM entity_links WHERE target_type = ?1 AND target_id = ?2",
            params.as_slice(),
        ) {
            Ok(n) => Ok(n),
            Err(e) => Err(internal(e)),
        }
    }

    fn list(&self, side: LinkSide, t: &str, id: EntityId) -> (r: Result<
        Vec<EntityLink>,
        DomainError,
    >)
        ensures
            r matches Err(e) ==> e is Internal,
            r matches Ok(v) ==> forall|i: int| 0 <= i < v@.len() ==> link_matches(#[trigger] v@[i], side, t@, id),
    {
        let conn = self.connect()?;
        let params = vec![text_param(t), id_param(id)];
        let sql = match side {
            LinkSide::Source =>
                "SELECT id, source_type, source_id, target_type, target_id, link_kind, created_at
                 FROM entity_links WHERE source_type = ?1 AND source_id = ?2",
            LinkSide::Target =>
                "SELECT id, source_type, source_id, target_type, target_id, link_kind, created_at
                 FROM entity_links WHERE target_type = ?1 AND target_id = ?2",
            LinkSide::Either =>
                "SELECT id, source_type, source_id, target_type, target_id, link_kind, created_at
                 FROM entity_links
                 WHERE (source_type = ?1 AND source_id = ?2) OR (target_type = ?1 AND target_id = ?2)",
        };
        let rows = match query(&conn, sql, params.as_slice()) {
            Ok(rows) => rows,
            Err(e) => return Err(internal(e)),
        };
        let mut out: Vec<EntityLink> = Vec::new();
        let mut i: usize = 0;
        while i < rows.len()
            invariant
                i <= rows@.len(),
                forall|j: int| 0 <= j < out@.len() ==> link_matches(#[trigger] out@[j], side, t@, id),
            decreases rows@.len() - i,
        {
            let l = link_from_row(&rows[i])?;
            if link_matches_exec(&l, &side, t, id) {
                out.push(l);
            }
            i = i + 1;
        }
        Ok(out)
    }

    /// Links leaving the given entity.
    pub fn list_outgoing(&self, source_type: &str, source_id: EntityId) -> (r: Result<
        Vec<EntityLink>,
        DomainError,
    >)
        ensures
            r matches Err(e) ==> e is Internal,
            r matches Ok(v) ==> forall|i: int|
                0 <= i < v@.len() ==> (#[trigger] v@[i]).source_type@ == source_type@
                    && v@[i].source_id == source_id,
    {
        let r = self.list(LinkSide::Source, source_type, source_id);
        proof {
            if r is Ok {
                let v = r->Ok_0;
                assert forall|i: int| 0 <= i < v@.len() implies (#[trigger] v@[i]).source_type@
                    == source_type@ && v@[i].source_id == source_id by {
                    assert(link_matches(v@[i], LinkSide::Source, source_type@, source_id));
                }
            }
        }
        r
    }

    /// Links arriving at the given entity.
    pub fn list_incoming(&self, target_type: &str, target_id: EntityId) -> (r: Result<
        Vec<EntityLink>,
        DomainError,
    >)
        ensures
            r matches Err(e) ==> e is Internal,
            r matches Ok(v) ==> forall|i: int|
                0 <= i < v@.len() ==> (#[trigger] v@[i]).target_type@ == target_type@
                    && v@[i].target_id == target_id,
    {
        let r = self.list(LinkSide::Target, target_type, target_id);
        proof {
            if r is Ok {
                let v = r->Ok_0;
                assert forall|i: int| 0 <= i < v@.len() implies (#[trigger] v@[i]).target_type@
                    == target_type@ && v@[i].target_id == target_id by {
                    assert(link_matches(v@[i], LinkSide::Target, target_type@, target_id));
                }
            }
        }
        r
    }

    /// Links touching the given entity on either side.
    pub fn list_for_entity(&self, entity_type: &str, entity_id: EntityId) -> (r: Result<
        Vec<EntityLink>,
        DomainError,
    >)
        ensures
            r matches Err(e) ==> e is Internal,
            r matches Ok(v) ==> forall|i: int|
                0 <= i < v@.len() ==> link_matches(#[trigger] v@[i], LinkSide::Either, entity_type@, entity_id),
    {
        self.list(LinkSide::Either, entity_type, entity_id)
    }

    /// Number of links arriving at the given entity.
    pub fn reference_count(&self, target_type: &str, target_id: EntityId) -> (r: Result<
        i64,
        DomainError,
    >)
        ensures
            r matches Err(e) ==> e is Internal,
    {
        let conn = self.connect()?;
        let params = vec![text_param(target_type), id_param(target_id)];
        let rows = match query(
            &conn,
            "SELECT COUNT(*) FROM entity_links WHERE target_type = ?1 AND target_id = ?2",
            params.as_slice(),
        ) {
            Ok(rows) => rows,
            Err(e) => return Err(internal(e)),
        };
        single_int(&rows)
    }

    /// Whether any link arrives at the given entity.
    pub fn is_referenced(&self, target_type: &str, target_id: EntityId) -> (r: Result<
        bool,
        DomainError,
    >)
        ensures
            r matches Err(e) ==> e is Internal,
    {
        let n = self.reference_count(target_type, target_id)?;
        Ok(n > 0)
    }
}

} // verus!
