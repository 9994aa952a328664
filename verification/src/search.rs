//! Full-text search over tasks, reminders and memories: one document per
//! entity, indexed by SQLite's trigram FTS, with a LIKE scan for short
//! queries (and when the FTS query fails).

use vstd::prelude::*;

use rusqlite::Connection;

use crate::chars::{chars_of, collapse_ws, squeeze_range, string_of, trim, trim_bounds};
use crate::clock::now_stamp;
use crate::db::{last_insert_rowid, Database, SqlValue};
use crate::domain::{internal_msg, str_eq, validation, DomainError};
use crate::ids::EntityId;
use crate::rows::{id_at, id_cell, id_param, int_at, text_at, text_cell, text_param};
use crate::store::{connect, fetch, run, run_batch};
use crate::task_query::contains_pattern;
use crate::tasks::trimmed;

verus! {

#[derive(PartialEq, Eq, Structural, Clone, Copy, Debug)]
pub enum SearchEntityType {
    Task,
    Reminder,
    Memory,
}

pub open spec fn search_type_text(t: SearchEntityType) -> Seq<char> {
    match t {
        SearchEntityType::Task => "task"@,
        SearchEntityType::Reminder => "reminder"@,
        SearchEntityType::Memory => "memory"@,
    }
}

impl SearchEntityType {
    pub fn as_str(&self) -> (r: &'static str)
        ensures
            r@ == search_type_text(*self),
    {
        match self {
            SearchEntityType::Task => "task",
            SearchEntityType::Reminder => "reminder",
            SearchEntityType::Memory => "memory",
        }
    }

    pub fn parse(value: &str) -> (r: Result<SearchEntityType, DomainError>)
        ensures
            r matches Ok(t) ==> search_type_text(t) == value@,
            r is Err ==> forall|t: SearchEntityType| search_type_text(t) != value@,
            r matches Err(e) ==> e is Validation,
    {
        if str_eq(value, "task") {
            Ok(SearchEntityType::Task)
        } else if str_eq(value, "reminder") {
            Ok(SearchEntityType::Reminder)
        } else if str_eq(value, "memory") {
            Ok(SearchEntityType::Memory)
        } else {
            proof {
                assert forall|t: SearchEntityType| search_type_text(t) != value@ by {
                    match t {
                        SearchEntityType::Task => {},
                        SearchEntityType::Reminder => {},
                        SearchEntityType::Memory => {},
                    }
                }
            }
            Err(validation("无效的搜索类型"))
        }
    }
}

pub struct SearchHit {
    pub entity_type: SearchEntityType,
    pub entity_id: EntityId,
    pub title: String,
    pub snippet: String,
    pub updated_at: String,
}

pub struct SearchQuery {
    pub query: String,
    pub types: Option<Vec<SearchEntityType>>,
    pub limit: Option<i64>,
}

pub struct SearchResults {
    pub tasks: Vec<SearchHit>,
    pub reminders: Vec<SearchHit>,
    pub memories: Vec<SearchHit>,
}

/// ASCII letters lowered; whitespace becomes a space.
pub open spec fn fold_char(c: char) -> char {
    if crate::chars::is_ws(c) {
        ' '
    } else if 'A' <= c && c <= 'Z' {
        (((c as u8) + 32) as u8) as char
    } else {
        c
    }
}

/// The normalized text of a document: ASCII lowered, whitespace runs
/// collapsed to one space, no leading or trailing whitespace.
pub open spec fn normalized(s: Seq<char>) -> Seq<char> {
    collapse_ws(s.map_values(|c: char| fold_char(c)))
}

pub fn normalize_text(value: &str) -> (r: String)
    ensures
        r@ == normalized(value@),
{
    let v = chars_of(value);
    let mut folded: Vec<char> = Vec::new();
    let mut i: usize = 0;
    while i < v.len()
        invariant
            i <= v@.len(),
            v@ == value@,
            folded@ =~= v@.take(i as int).map_values(|c: char| fold_char(c)),
        decreases v@.len() - i,
    {
        let c = v[i];
        let f = if crate::chars::is_whitespace_char(c) {
            ' '
        } else if 'A' <= c && c <= 'Z' {
            let b: u8 = (c as u8) + 32;
            b as char
        } else {
            c
        };
        proof {
            if !crate::chars::is_ws(c) && 'A' <= c && c <= 'Z' {
                assert(f == fold_char(c));
            }
        }
        folded.push(f);
        i = i + 1;
    }
    assert(v@.take(i as int) =~= v@);
    let (a, b) = trim_bounds(&folded, 0, folded.len());
    assert(folded@.subrange(0, folded@.len() as int) =~= folded@);
    let out = squeeze_range(&folded, a, b);
    string_of(out.as_slice())
}

/// The first `max` characters, followed by an ellipsis when the text is
/// longer.
pub open spec fn clipped(s: Seq<char>, max: nat) -> Seq<char> {
    if s.len() > max {
        s.take(max as int).push('…')
    } else {
        s
    }
}

pub fn clip(value: &str, max: usize) -> (r: String)
    ensures
        r@ == clipped(value@, max as nat),
{
    let v = chars_of(value);
    if v.len() <= max {
        return value.to_string();
    }
    let mut out: Vec<char> = Vec::new();
    let mut i: usize = 0;
    while i < max
        invariant
            i <= max < v@.len(),
            out@ =~= v@.take(i as int),
        decreases max - i,
    {
        out.push(v[i]);
        i = i + 1;
    }
    out.push('…');
    string_of(out.as_slice())
}

/// An FTS phrase: double quotes become spaces, the text is trimmed and
/// put in double quotes.
pub open spec fn fts_phrase(s: Seq<char>) -> Seq<char> {
    seq!['"'] + trim(s.map_values(|c: char| if c == '"' { ' ' } else { c })) + seq!['"']
}

pub fn escape_fts(value: &str) -> (r: String)
    ensures
        r@ == fts_phrase(value@),
{
    let v = chars_of(value);
    let mut cleaned: Vec<char> = Vec::new();
    let mut i: usize = 0;
    while i < v.len()
        invariant
            i <= v@.len(),
            v@ == value@,
            cleaned@ =~= v@.take(i as int).map_values(|c: char| if c == '"' { ' ' } else { c }),
        decreases v@.len() - i,
    {
        let c = v[i];
        cleaned.push(if c == '"' { ' ' } else { c });
        i = i + 1;
    }
    assert(v@.take(i as int) =~= v@);
    let (a, b) = trim_bounds(&cleaned, 0, cleaned.len());
    assert(cleaned@.subrange(0, cleaned@.len() as int) =~= cleaned@);
    let mut out: Vec<char> = Vec::new();
    out.push('"');
    let mut j = a;
    while j < b
        invariant
            a <= j <= b <= cleaned@.len(),
            out@ =~= seq!['"'] + cleaned@.subrange(a as int, j as int),
        decreases b - j,
    {
        out.push(cleaned[j]);
        j = j + 1;
    }
    out.push('"');
    string_of(out.as_slice())
}

/// How many hits a query returns: 40 by default, kept within 1..=100.
pub open spec fn search_limit_spec(limit: Option<i64>) -> i64 {
    match limit {
        Some(l) => if l < 1 {
            1
        } else if l > 100 {
            100
        } else {
            l
        },
        None => 40,
    }
}

pub fn search_limit(limit: Option<i64>) -> (r: i64)
    ensures
        r == search_limit_spec(limit),
{
    match limit {
        Some(l) => if l < 1 {
            1
        } else if l > 100 {
            100
        } else {
            l
        },
        None => 40,
    }
}

/// Whether hits of type `t` are wanted (all types when none are named).
pub open spec fn type_allowed(types: Option<Vec<SearchEntityType>>, t: SearchEntityType) -> bool {
    match types {
        Some(v) => v@.contains(t),
        None => true,
    }
}

fn allowed(types: &Option<Vec<SearchEntityType>>, t: SearchEntityType) -> (r: bool)
    ensures
        r == type_allowed(*types, t),
{
    match types {
        None => true,
        Some(v) => {
            let mut i: usize = 0;
            while i < v.len()
                invariant
                    i <= v@.len(),
                    *types == Some(*v),
                    forall|j: int| 0 <= j < i ==> v@[j] != t,
                decreases v@.len() - i,
            {
                if v[i] == t {
                    assert(v@[i as int] == t);
                    return true;
                }
                i = i + 1;
            }
            false
        },
    }
}

/// The hits of type `t`, in their order.
pub open spec fn hits_of_type(hits: Seq<SearchHit>, t: SearchEntityType) -> Seq<SearchHit>
    decreases hits.len(),
{
    if hits.len() == 0 {
        Seq::empty()
    } else {
        let prev = hits_of_type(hits.drop_last(), t);
        if hits.last().entity_type == t {
            prev.push(hits.last())
        } else {
            prev
        }
    }
}

pub proof fn lemma_hits_of_type(hits: Seq<SearchHit>, t: SearchEntityType)
    ensures
        forall|i: int| 0 <= i < hits_of_type(hits, t).len() ==> (#[trigger] hits_of_type(hits, t)[i]).entity_type == t,
    decreases hits.len(),
{
    if hits.len() > 0 {
        lemma_hits_of_type(hits.drop_last(), t);
    }
}

/// A hit is of at most one type, so the three lists together hold no
/// more hits than were found.
pub proof fn lemma_hits_split(hits: Seq<SearchHit>)
    ensures
        hits_of_type(hits, SearchEntityType::Task).len() + hits_of_type(hits, SearchEntityType::Reminder).len()
            + hits_of_type(hits, SearchEntityType::Memory).len() <= hits.len(),
    decreases hits.len(),
{
    if hits.len() > 0 {
        lemma_hits_split(hits.drop_last());
    }
}

/// The hits of type `t` that are kept: all of them when the type is
/// wanted, none otherwise.
pub open spec fn kept_of_type(
    hits: Seq<SearchHit>,
    types: Option<Vec<SearchEntityType>>,
    t: SearchEntityType,
) -> Seq<SearchHit> {
    if type_allowed(types, t) {
        hits_of_type(hits, t)
    } else {
        Seq::empty()
    }
}

/// A type filter is obeyed: when types are named, no hit of another type
/// is kept, and every kept hit is of a named type; when none are named,
/// every hit of each type is kept.
pub proof fn law_type_filter_is_obeyed(hits: Seq<SearchHit>, types: Option<Vec<SearchEntityType>>, t: SearchEntityType)
    ensures
        types matches Some(v) && !v@.contains(t) ==> kept_of_type(hits, types, t).len() == 0,
        types matches Some(v) ==> forall|i: int| 0 <= i < kept_of_type(hits, types, t).len() ==> v@.contains(
            #[trigger] kept_of_type(hits, types, t)[i].entity_type,
        ),
        types is None ==> kept_of_type(hits, types, t) == hits_of_type(hits, t),
{
    lemma_hits_of_type(hits, t);
}

/// Sorts hits by type, keeping their order and dropping unwanted types.
pub fn partition_hits(hits: Vec<SearchHit>, types: &Option<Vec<SearchEntityType>>) -> (r:
    SearchResults)
    ensures
        r.tasks@ == kept_of_type(hits@, *types, SearchEntityType::Task),
        r.reminders@ == kept_of_type(hits@, *types, SearchEntityType::Reminder),
        r.memories@ == kept_of_type(hits@, *types, SearchEntityType::Memory),
{
    let ghost all = hits@;
    let mut tasks: Vec<SearchHit> = Vec::new();
    let mut reminders: Vec<SearchHit> = Vec::new();
    let mut memories: Vec<SearchHit> = Vec::new();
    let mut rest = hits;
    while rest.len() > 0
        invariant
            rest@.len() <= all.len(),
            rest@ == all.skip(all.len() - rest@.len()),
            tasks@ == kept_of_type(all.take(all.len() - rest@.len()), *types, SearchEntityType::Task),
            reminders@ == kept_of_type(all.take(all.len() - rest@.len()), *types, SearchEntityType::Reminder),
            memories@ == kept_of_type(all.take(all.len() - rest@.len()), *types, SearchEntityType::Memory),
        decreases rest@.len(),
    {
        let ghost k = all.len() - rest@.len();
        assert(rest@[0] == all[k]);
        let hit = rest.remove(0);
        proof {
            assert(all.take(k + 1).drop_last() =~= all.take(k));
            assert(all.take(k + 1).last() == hit);
            assert(rest@ =~= all.skip(k + 1));
        }
        if allowed(types, hit.entity_type) {
            match hit.entity_type {
                SearchEntityType::Task => tasks.push(hit),
                SearchEntityType::Reminder => reminders.push(hit),
                SearchEntityType::Memory => memories.push(hit),
            }
        }
    }
    assert(all.take(all.len() as int) =~= all);
    SearchResults { tasks, reminders, memories }
}

/// Whether a fetched hit row is well typed: a known type, an id, and
/// the title, body and time as text.
pub open spec fn hit_row_ok(row: Seq<SqlValue>) -> bool {
    &&& text_cell(row, 0) matches Some(t) && exists|k: SearchEntityType| search_type_text(k) == t
    &&& id_cell(row, 1) is Some
    &&& text_cell(row, 2) is Some
    &&& text_cell(row, 3) is Some
    &&& text_cell(row, 4) is Some
}

/// The hit a well-typed row reads as: its type, id, title, the body
/// clipped to 160 characters, and its time.
pub open spec fn hit_of_row(h: SearchHit, row: Seq<SqlValue>) -> bool {
    &&& search_type_text(h.entity_type) == text_cell(row, 0).unwrap()
    &&& h.entity_id == id_cell(row, 1).unwrap()
    &&& h.title@ == text_cell(row, 2).unwrap()
    &&& h.snippet@ == clipped(text_cell(row, 3).unwrap(), 160)
    &&& h.updated_at@ == text_cell(row, 4).unwrap()
}

fn hit_from_row(row: &Vec<SqlValue>) -> (r: Result<SearchHit, DomainError>)
    ensures
        r is Ok <==> hit_row_ok(row@),
        r matches Ok(h) ==> hit_of_row(h, row@),
        r matches Err(e) ==> e is Internal,
{
    let type_text = text_at(row, 0)?;
    let entity_type = match SearchEntityType::parse(type_text.as_str()) {
        Ok(t) => t,
        Err(_) => {
            assert(!hit_row_ok(row@));
            return Err(internal_msg("unexpected search entity type"));
        },
    };
    let entity_id = id_at(row, 1)?;
    let title = text_at(row, 2)?;
    let body = text_at(row, 3)?;
    Ok(
        SearchHit {
            entity_type,
            entity_id,
            title,
            snippet: clip(body.as_str(), 160),
            updated_at: text_at(row, 4)?,
        },
    )
}

fn hits_from_rows(rows: &Vec<Vec<SqlValue>>) -> (r: Result<Vec<SearchHit>, DomainError>)
    ensures
        r is Ok <==> forall|i: int| 0 <= i < rows@.len() ==> hit_row_ok(#[trigger] rows@[i]@),
        r matches Ok(v) ==> v@.len() == rows@.len() && forall|i: int|
            0 <= i < v@.len() ==> hit_of_row(#[trigger] v@[i], rows@[i]@),
        r matches Err(e) ==> e is Internal,
{
    let mut out: Vec<SearchHit> = Vec::new();
    let mut i: usize = 0;
    while i < rows.len()
        invariant
            i <= rows@.len(),
            out@.len() == i,
            forall|k: int| 0 <= k < i ==> hit_row_ok(#[trigger] rows@[k]@),
            forall|k: int| 0 <= k < i ==> hit_of_row(#[trigger] out@[k], rows@[k]@),
        decreases rows@.len() - i,
    {
        out.push(hit_from_row(&rows[i])?);
        i = i + 1;
    }
    Ok(out)
}

/// The text of a document: the title and body on two lines.
pub fn document_text(title: &str, body: &str) -> (r: String)
    ensures
        r@ == title@ + seq!['\n'] + body@,
{
    let mut s = title.to_string();
    s.append("\n");
    proof {
        reveal_strlit("\n");
    }
    s.append(body);
    s
}

pub struct SearchService {
    pub db: Database,
}

impl SearchService {
    pub fn new(db: Database) -> (r: Self)
        ensures
            r.db.path@ == db.path@,
    {
        SearchService { db }
    }

    /// Indexes (or re-indexes) an entity's title and body.
    pub fn upsert(&self, entity_type: SearchEntityType, entity_id: EntityId, title: &str, body: &str) -> (r:
        Result<(), DomainError>)
        ensures
            r matches Err(e) ==> e is Internal,
    {
        let conn = connect(&self.db)?;
        self.upsert_conn(&conn, entity_type, entity_id, title, body)
    }

    /// Indexes an entity on an open connection: the document keeps the
    /// title, the body clipped to 4000 characters, and the normalized text
    /// of both.
    pub fn upsert_conn(
        &self,
        conn: &Connection,
        entity_type: SearchEntityType,
        entity_id: EntityId,
        title: &str,
        body: &str,
    ) -> (r: Result<(), DomainError>)
        ensures
            r matches Err(e) ==> e is Internal,
    {
        let now = now_stamp();
        let text = document_text(title, body);
        let normalized = normalize_text(text.as_str());
        let clipped_body = clip(body, 4000);
        let params = vec![text_param(entity_type.as_str()), id_param(entity_id)];
        let rows = fetch(
            conn,
            "SELECT id FROM search_documents WHERE entity_type = ?1 AND entity_id = ?2",
            params.as_slice(),
        )?;
        if rows.len() > 0 {
            let rowid = int_at(&rows[0], 0)?;
            let params = vec![
                text_param(title),
                SqlValue::Text(clipped_body.clone()),
                SqlValue::Text(normalized.clone()),
                SqlValue::Text(now),
                SqlValue::Integer(rowid),
            ];
            run(
                conn,
                "UPDATE search_documents SET title = ?1, body = ?2, normalized = ?3, updated_at = ?4
                 WHERE id = ?5",
                params.as_slice(),
            )?;
            let params = vec![SqlValue::Integer(rowid)];
            let _ = run(
                conn,
                "INSERT INTO search_index(search_index, rowid) VALUES('delete', ?1)",
                params.as_slice(),
            );
            let params = vec![
                SqlValue::Integer(rowid),
                text_param(title),
                SqlValue::Text(clipped_body),
                SqlValue::Text(normalized),
            ];
            run(
                conn,
                "INSERT INTO search_index(rowid, title, body, normalized) VALUES(?1, ?2, ?3, ?4)",
                params.as_slice(),
            )?;
        } else {
            let params = vec![
                text_param(entity_type.as_str()),
                id_param(entity_id),
                text_param(title),
                SqlValue::Text(clipped_body.clone()),
                SqlValue::Text(normalized.clone()),
                SqlValue::Text(now),
            ];
            run(
                conn,
                "INSERT INTO search_documents (entity_type, entity_id, title, body, normalized, updated_at)
                 VALUES (?1, ?2, ?3, ?4, ?5, ?6)",
                params.as_slice(),
            )?;
            let rowid = last_insert_rowid(conn);
            let params = vec![
                SqlValue::Integer(rowid),
                text_param(title),
                SqlValue::Text(clipped_body),
                SqlValue::Text(normalized),
            ];
            run(
                conn,
                "INSERT INTO search_index(rowid, title, body, normalized) VALUES(?1, ?2, ?3, ?4)",
                params.as_slice(),
            )?;
        }
        Ok(())
    }

    /// Drops an entity's document, if it has one.
    pub fn remove(&self, entity_type: SearchEntityType, entity_id: EntityId) -> (r: Result<
        (),
        DomainError,
    >)
        ensures
            r matches Err(e) ==> e is Internal,
    {
        let conn = connect(&self.db)?;
        let params = vec![text_param(entity_type.as_str()), id_param(entity_id)];
        let rows = fetch(
            &conn,
            "SELECT id FROM search_documents WHERE entity_type = ?1 AND entity_id = ?2",
            params.as_slice(),
        )?;
        if rows.len() > 0 {
            let rowid = int_at(&rows[0], 0)?;
            let params = vec![SqlValue::Integer(rowid)];
            let _ = run(
                &conn,
                "INSERT INTO search_index(search_index, rowid) VALUES('delete', ?1)",
                params.as_slice(),
            );
            run(&conn, "DELETE FROM search_documents WHERE id = ?1", params.as_slice())?;
        }
        Ok(())
    }

    /// Searches the documents. A blank query finds nothing; a query longer
    /// than 200 characters (after trimming) is refused. Queries of one or
    /// two characters, and queries the FTS index refuses, are matched with
    /// LIKE on the title, body and normalized text.
    pub fn query(&self, input: SearchQuery) -> (r: Result<SearchResults, DomainError>)
        ensures
            r matches Err(DomainError::Validation(_)) <==> trim(input.query@).len() > 200,
            trim(input.query@).len() == 0 ==> (r matches Ok(res) && res.tasks@.len() == 0
                && res.reminders@.len() == 0 && res.memories@.len() == 0),
            r matches Ok(res) ==> (res.tasks@.len() > 0 ==> type_allowed(
                input.types,
                SearchEntityType::Task,
            )) && (res.reminders@.len() > 0 ==> type_allowed(
                input.types,
                SearchEntityType::Reminder,
            )) && (res.memories@.len() > 0 ==> type_allowed(
                input.types,
                SearchEntityType::Memory,
            )) && (forall|i: int|
                0 <= i < res.tasks@.len() ==> (#[trigger] res.tasks@[i]).entity_type
                    == SearchEntityType::Task) && (forall|i: int|
                0 <= i < res.reminders@.len() ==> (#[trigger] res.reminders@[i]).entity_type
                    == SearchEntityType::Reminder) && (forall|i: int|
                0 <= i < res.memories@.len() ==> (#[trigger] res.memories@[i]).entity_type
                    == SearchEntityType::Memory),
            r matches Ok(res) ==> res.tasks@.len() + res.reminders@.len() + res.memories@.len() <= search_limit_spec(
                input.limit,
            ),
    {
        let q = trimmed(input.query.as_str());
        let n = chars_of(q.as_str()).len();
        if n == 0 {
            return Ok(SearchResults { tasks: Vec::new(), reminders: Vec::new(), memories: Vec::new() });
        }
        if n > 200 {
            return Err(validation("搜索词过长"));
        }
        let limit = search_limit(input.limit);
        let conn = connect(&self.db)?;
        let hits = if n <= 2 {
            self.like_search(&conn, q.as_str(), limit)?
        } else {
            match self.fts_search(&conn, q.as_str(), limit) {
                Ok(h) => h,
                Err(_) => self.like_search(&conn, q.as_str(), limit)?,
            }
        };
        let mut hits = hits;
        if hits.len() > limit as usize {
            hits.truncate(limit as usize);
        }
        let ghost old_hits = hits@;
        let res = partition_hits(hits, &input.types);
        proof {
            lemma_hits_split(old_hits);
            lemma_hits_of_type(old_hits, SearchEntityType::Task);
            lemma_hits_of_type(old_hits, SearchEntityType::Reminder);
            lemma_hits_of_type(old_hits, SearchEntityType::Memory);
        }
        Ok(res)
    }

    /// Rebuilds every document from the live tasks (not archived), the
    /// enabled reminders and the live memories (not archived); returns the
    /// number of documents written.
    pub fn rebuild_all(&self) -> (r: Result<usize, DomainError>)
        ensures
            r matches Err(e) ==> e is Internal,
    {
        let conn = connect(&self.db)?;
        run_batch(&conn, "DELETE FROM search_index; DELETE FROM search_documents;")?;
        let mut count: usize = 0;
        let sources: [(&str, SearchEntityType); 3] = [
            ("SELECT id, title, notes FROM tasks WHERE deleted_at IS NULL AND status != 'archived'", SearchEntityType::Task),
            ("SELECT id, title, notes FROM reminders WHERE deleted_at IS NULL AND enabled = 1", SearchEntityType::Reminder),
            ("SELECT id, title, body FROM memories WHERE deleted_at IS NULL AND archived = 0", SearchEntityType::Memory),
        ];
        let mut k: usize = 0;
        while k < 3
            invariant
                k <= 3,
            decreases 3 - k,
        {
            let (sql, entity_type) = sources[k];
            let rows = fetch(&conn, sql, &[])?;
            let mut i: usize = 0;
            while i < rows.len()
                invariant
                    i <= rows@.len(),
                decreases rows@.len() - i,
            {
                let row = &rows[i];
                let id = id_at(row, 0)?;
                let title = text_at(row, 1)?;
                let body = text_at(row, 2)?;
                self.upsert_conn(&conn, entity_type, id, title.as_str(), body.as_str())?;
                if count < usize::MAX {
                    count = count + 1;
                }
                i = i + 1;
            }
            k = k + 1;
        }
        Ok(count)
    }

    fn fts_search(&self, conn: &Connection, q: &str, limit: i64) -> (r: Result<
        Vec<SearchHit>,
        DomainError,
    >)
        ensures
            r matches Err(e) ==> e is Internal,
    {
        let escaped = escape_fts(q);
        let params = vec![SqlValue::Text(escaped), SqlValue::Integer(limit)];
        let rows = fetch(
            conn,
            "SELECT d.entity_type, d.entity_id, d.title, d.body, d.updated_at
             FROM search_index i
             JOIN search_documents d ON d.id = i.rowid
             WHERE search_index MATCH ?1
             ORDER BY rank
             LIMIT ?2",
            params.as_slice(),
        )?;
        hits_from_rows(&rows)
    }

    fn like_search(&self, conn: &Connection, q: &str, limit: i64) -> (r: Result<
        Vec<SearchHit>,
        DomainError,
    >)
        ensures
            r matches Err(e) ==> e is Internal,
    {
        let pattern = contains_pattern(q);
        let params = vec![SqlValue::Text(pattern), SqlValue::Integer(limit)];
        let rows = fetch(
            conn,
            "SELECT entity_type, entity_id, title, body, updated_at
             FROM search_documents
             WHERE title LIKE ?1 ESCAPE '\\' OR body LIKE ?1 ESCAPE '\\' OR normalized LIKE ?1 ESCAPE '\\'
             ORDER BY updated_at DESC
             LIMIT ?2",
            params.as_slice(),
        )?;
        hits_from_rows(&rows)
    }
}

} // verus!
