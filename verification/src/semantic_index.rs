//! The semantic index: embedding vectors of the search corpus. It is derived
//! data, left out of exports and safe to clear or rebuild at any time.
//! A rebuild applies the user's exclusions and a hard cap on rows; keyword
//! search never depends on it, and a semantic search degrades to nothing
//! when the index cannot serve the configured model.

use vstd::prelude::*;

use crate::ai_model::{texts_of, AIMode};
use crate::chars::trim;
use crate::clock::now_stamp;
use crate::db::{Database, SqlValue};
use crate::domain::{internal_msg, validation, DomainError};
use crate::rows::{cell, int_at, opt_text_at, text_at, text_cell};
use crate::store::{connect, fetch, run};
use crate::tasks::trimmed;

verus! {

/// The most rows a rebuild indexes.
pub const SEMANTIC_INDEX_MAX_ROWS: i64 = 20000;

/// What the user keeps out of the index.
pub struct SemanticExclusions {
    /// Tasks of these lists.
    pub list_ids: Vec<String>,
    /// Memories with these tags.
    pub tag_ids: Vec<String>,
    /// Clipboard items of these kinds.
    pub clipboard_types: Vec<String>,
}

/// The settings the semantic index reads.
pub struct SemanticConfig {
    pub mode: AIMode,
    pub embedding_model: String,
    pub semantic_search: bool,
    pub exclusions: SemanticExclusions,
}

pub struct SemanticIndexStatus {
    pub rows: i64,
    pub model: Option<String>,
    pub last_indexed_at: Option<String>,
    pub eligible: i64,
    pub capped: bool,
    pub configured_model: Option<String>,
    pub model_mismatch: bool,
}

/// An embedding model. For each text it hands back one vector, written as
/// the little-endian bytes of its `f32` components; `None` when it cannot
/// answer. Nothing is assumed of the vectors.
pub trait EmbeddingProvider {
    fn embed(&self, texts: &Vec<String>) -> Option<Vec<Vec<u8>>>;
}

/// One entry of the search corpus, as a model reads it.
pub struct CorpusRow {
    pub entity_type: String,
    pub entity_id: String,
    pub text: String,
}

/// One indexed vector with the title it is shown under.
pub struct IndexedVector {
    pub entity_type: String,
    pub entity_id: String,
    pub embedding: Vec<u8>,
    pub title: String,
}

/// `?, ?, …, ?` with `n` marks.
pub open spec fn placeholder_text(n: nat) -> Seq<char>
    decreases n,
{
    if n == 0 {
        Seq::empty()
    } else if n == 1 {
        "?"@
    } else {
        placeholder_text((n - 1) as nat) + ", ?"@
    }
}

pub fn placeholders(n: usize) -> (r: String)
    ensures
        r@ == placeholder_text(n as nat),
{
    let mut s = String::new();
    let mut i: usize = 0;
    while i < n
        invariant
            i <= n,
            s@ == placeholder_text(i as nat),
        decreases n - i,
    {
        if i == 0 {
            s.append("?");
        } else {
            s.append(", ?");
        }
        i = i + 1;
    }
    s
}

pub open spec fn corpus_base() -> Seq<char> {
    "SELECT entity_type, entity_id, title, body FROM search_documents WHERE entity_type IN ('task','memory','clipboard')"@
}

pub open spec fn list_clause(n: nat) -> Seq<char> {
    if n == 0 {
        Seq::empty()
    } else {
        " AND NOT (entity_type = 'task' AND entity_id IN (SELECT t.id FROM tasks t WHERE t.list_id IN ("@
            + placeholder_text(n) + ")))"@
    }
}

pub open spec fn tag_clause(n: nat) -> Seq<char> {
    if n == 0 {
        Seq::empty()
    } else {
        " AND NOT (entity_type = 'memory' AND entity_id IN (SELECT mt.memory_id FROM memory_tags mt WHERE mt.tag_id IN ("@
            + placeholder_text(n) + ")))"@
    }
}

pub open spec fn kind_clause(n: nat) -> Seq<char> {
    if n == 0 {
        Seq::empty()
    } else {
        " AND NOT (entity_type = 'clipboard' AND entity_id IN (SELECT c.id FROM clipboard_items c WHERE c.kind IN ("@
            + placeholder_text(n) + ")))"@
    }
}

/// The corpus query: the task, memory and clipboard documents, less the
/// excluded ones, newest first, at most as many as the bound last parameter.
pub open spec fn corpus_sql(ex: SemanticExclusions) -> Seq<char> {
    corpus_base() + list_clause(ex.list_ids@.len()) + tag_clause(ex.tag_ids@.len()) + kind_clause(
        ex.clipboard_types@.len(),
    ) + " ORDER BY updated_at DESC LIMIT ?"@
}

/// The texts bound to the corpus query, in order (the cap comes last).
pub open spec fn corpus_text_params(ex: SemanticExclusions) -> Seq<Seq<char>> {
    texts_of(ex.list_ids@) + texts_of(ex.tag_ids@) + texts_of(ex.clipboard_types@)
}

fn push_texts(params: &mut Vec<SqlValue>, ids: &Vec<String>)
    ensures
        final(params)@.len() == old(params)@.len() + ids@.len(),
        forall|i: int| 0 <= i < old(params)@.len() ==> final(params)@[i] == old(params)@[i],
        forall|i: int|
            0 <= i < ids@.len() ==> crate::db::sql_text(#[trigger] final(params)@[old(params)@.len() + i])
                == Some(ids@[i]@),
{
    let mut i: usize = 0;
    while i < ids.len()
        invariant
            i <= ids@.len(),
            params@.len() == old(params)@.len() + i,
            forall|k: int| 0 <= k < old(params)@.len() ==> params@[k] == old(params)@[k],
            forall|k: int|
                0 <= k < i ==> crate::db::sql_text(#[trigger] params@[old(params)@.len() + k]) == Some(
                    ids@[k]@,
                ),
        decreases ids@.len() - i,
    {
        params.push(SqlValue::Text(ids[i].clone()));
        i = i + 1;
    }
}

fn append_clause(sql: &mut String, head: &str, n: usize)
    ensures
        final(sql)@ == old(sql)@ + (if n == 0 {
            Seq::<char>::empty()
        } else {
            head@ + placeholder_text(n as nat) + ")))"@
        }),
{
    if n > 0 {
        sql.append(head);
        let p = placeholders(n);
        sql.append(p.as_str());
        sql.append(")))");
    } else {
        assert(sql@ =~= sql@ + Seq::<char>::empty());
    }
}

/// The corpus query and what is bound to it.
pub fn corpus_query(ex: &SemanticExclusions, cap: i64) -> (r: (String, Vec<SqlValue>))
    ensures
        r.0@ == corpus_sql(*ex),
        r.1@.len() == corpus_text_params(*ex).len() + 1,
        forall|i: int|
            0 <= i < corpus_text_params(*ex).len() ==> crate::db::sql_text(#[trigger] r.1@[i])
                == Some(corpus_text_params(*ex)[i]),
        r.1@[r.1@.len() - 1] == SqlValue::Integer(cap),
{
    let mut sql = String::new();
    sql.append(
        "SELECT entity_type, entity_id, title, body FROM search_documents WHERE entity_type IN ('task','memory','clipboard')",
    );
    append_clause(
        &mut sql,
        " AND NOT (entity_type = 'task' AND entity_id IN (SELECT t.id FROM tasks t WHERE t.list_id IN (",
        ex.list_ids.len(),
    );
    append_clause(
        &mut sql,
        " AND NOT (entity_type = 'memory' AND entity_id IN (SELECT mt.memory_id FROM memory_tags mt WHERE mt.tag_id IN (",
        ex.tag_ids.len(),
    );
    append_clause(
        &mut sql,
        " AND NOT (entity_type = 'clipboard' AND entity_id IN (SELECT c.id FROM clipboard_items c WHERE c.kind IN (",
        ex.clipboard_types.len(),
    );
    sql.append(" ORDER BY updated_at DESC LIMIT ?");
    assert(sql@ =~= corpus_sql(*ex));
    let mut params: Vec<SqlValue> = Vec::new();
    push_texts(&mut params, &ex.list_ids);
    let ghost p1 = params@;
    push_texts(&mut params, &ex.tag_ids);
    let ghost p2 = params@;
    push_texts(&mut params, &ex.clipboard_types);
    let ghost p3 = params@;
    params.push(SqlValue::Integer(cap));
    proof {
        let t = corpus_text_params(*ex);
        let a = ex.list_ids@.len() as int;
        let b = ex.tag_ids@.len() as int;
        assert forall|i: int| 0 <= i < t.len() implies crate::db::sql_text(#[trigger] params@[i]) == Some(t[i]) by {
            if i < a {
                assert(params@[i] == p3[i]);
                assert(p3[i] == p2[i]);
                assert(p2[i] == p1[i]);
                assert(p1[0 + i] == p1[i]);
            } else if i < a + b {
                assert(params@[i] == p3[i]);
                assert(p3[i] == p2[i]);
                assert(p2[a + (i - a)] == p2[i]);
            } else {
                assert(params@[i] == p3[i]);
                assert(p3[(a + b) + (i - a - b)] == p3[i]);
            }
        }
    }
    (sql, params)
}

/// `title`, a line break, then `body`.
pub open spec fn corpus_text(title: Seq<char>, body: Seq<char>) -> Seq<char> {
    title + seq!['\n'] + body
}

/// Whether a fetched corpus row is well typed.
pub open spec fn corpus_row_ok(row: Seq<SqlValue>) -> bool {
    &&& text_cell(row, 0) is Some
    &&& text_cell(row, 1) is Some
    &&& text_cell(row, 2) is Some
    &&& text_cell(row, 3) is Some
}

/// Reads fetched corpus rows: type, id and the title and body as one text.
pub fn corpus_from_rows(rows: &Vec<Vec<SqlValue>>) -> (r: Result<Vec<CorpusRow>, DomainError>)
    ensures
        r is Ok <==> forall|i: int| 0 <= i < rows@.len() ==> corpus_row_ok(#[trigger] rows@[i]@),
        r matches Ok(v) ==> v@.len() == rows@.len() && forall|i: int|
            0 <= i < v@.len() ==> {
                &&& (#[trigger] v@[i]).entity_type@ == text_cell(rows@[i]@, 0).unwrap()
                &&& v@[i].entity_id@ == text_cell(rows@[i]@, 1).unwrap()
                &&& v@[i].text@ == corpus_text(
                    text_cell(rows@[i]@, 2).unwrap(),
                    text_cell(rows@[i]@, 3).unwrap(),
                )
            },
        r matches Err(e) ==> e is Internal,
{
    let mut out: Vec<CorpusRow> = Vec::new();
    let mut i: usize = 0;
    while i < rows.len()
        invariant
            i <= rows@.len(),
            out@.len() == i,
            forall|k: int| 0 <= k < i ==> corpus_row_ok(#[trigger] rows@[k]@),
            forall|k: int|
                0 <= k < i ==> {
                    &&& (#[trigger] out@[k]).entity_type@ == text_cell(rows@[k]@, 0).unwrap()
                    &&& out@[k].entity_id@ == text_cell(rows@[k]@, 1).unwrap()
                    &&& out@[k].text@ == corpus_text(
                        text_cell(rows@[k]@, 2).unwrap(),
                        text_cell(rows@[k]@, 3).unwrap(),
                    )
                },
        decreases rows@.len() - i,
    {
        let row = &rows[i];
        let entity_type = text_at(row, 0)?;
        let entity_id = text_at(row, 1)?;
        let mut text = text_at(row, 2)?;
        let body = text_at(row, 3)?;
        text.append("\n");
        proof {
            reveal_strlit("\n");
        }
        text.append(body.as_str());
        out.push(CorpusRow { entity_type, entity_id, text });
        i = i + 1;
    }
    Ok(out)
}

/// The model an index is built with: the configured name, trimmed.
pub open spec fn configured_model_name(config: SemanticConfig) -> Seq<char> {
    trim(config.embedding_model@)
}

/// Whether a rebuild can run: the assistant is on and a model is named.
pub open spec fn rebuild_allowed(config: SemanticConfig) -> bool {
    config.mode != AIMode::Off && configured_model_name(config).len() > 0
}

/// The status of an index from its row count, the model and time of its
/// rows, the size of the corpus and the configured model.
pub open spec fn status_fields(
    s: SemanticIndexStatus,
    rows: i64,
    model: Option<Seq<char>>,
    last: Option<Seq<char>>,
    eligible: i64,
    configured: Seq<char>,
) -> bool {
    let configured_opt = if configured.len() == 0 {
        None
    } else {
        Some(configured)
    };
    &&& s.rows == rows
    &&& crate::templates::opt_text(s.model) == model
    &&& crate::templates::opt_text(s.last_indexed_at) == last
    &&& s.eligible == eligible
    &&& s.capped == (eligible > SEMANTIC_INDEX_MAX_ROWS)
    &&& crate::templates::opt_text(s.configured_model) == configured_opt
    &&& s.model_mismatch == (model is Some && configured_opt is Some && model != configured_opt)
}

fn opt_eq(a: &Option<String>, b: &Option<String>) -> (r: bool)
    ensures
        r == (crate::templates::opt_text(*a) == crate::templates::opt_text(*b)),
{
    match (a, b) {
        (Some(x), Some(y)) => crate::domain::str_eq(x.as_str(), y.as_str()),
        (None, None) => true,
        _ => false,
    }
}

/// Assembles a status from what the index and the corpus hold.
pub fn status_from(
    rows: i64,
    model: Option<String>,
    last: Option<String>,
    eligible: i64,
    configured: String,
) -> (r: SemanticIndexStatus)
    ensures
        status_fields(
            r,
            rows,
            crate::templates::opt_text(model),
            crate::templates::opt_text(last),
            eligible,
            configured@,
        ),
{
    let configured_opt = if configured.as_str().is_empty() {
        None
    } else {
        Some(configured)
    };
    let mismatch = model.is_some() && configured_opt.is_some() && !opt_eq(&model, &configured_opt);
    SemanticIndexStatus {
        rows,
        model,
        last_indexed_at: last,
        eligible,
        capped: eligible > SEMANTIC_INDEX_MAX_ROWS,
        configured_model: configured_opt,
        model_mismatch: mismatch,
    }
}

pub open spec fn blob_cell(row: Seq<SqlValue>, i: int) -> Option<Seq<u8>> {
    match cell(row, i) {
        SqlValue::Blob(b) => Some(b@),
        _ => None,
    }
}

fn blob_at(row: &Vec<SqlValue>, i: usize) -> (r: Result<Vec<u8>, DomainError>)
    ensures
        r is Ok <==> blob_cell(row@, i as int) is Some,
        r matches Ok(b) ==> b@ == blob_cell(row@, i as int).unwrap(),
        r matches Err(e) ==> e is Internal,
{
    if i < row.len() {
        match &row[i] {
            SqlValue::Blob(b) => return Ok(b.clone()),
            _ => {},
        }
    }
    Err(internal_msg("数据列类型不符"))
}

pub struct SemanticIndexService {
    pub db: Database,
}

impl SemanticIndexService {
    pub fn new(db: Database) -> (r: Self)
        ensures
            r.db.path@ == db.path@,
    {
        SemanticIndexService { db }
    }

    /// The database the index lives in.
    pub fn db_for_test(&self) -> (r: Database)
        ensures
            r.path@ == self.db.path@,
    {
        self.db.clone()
    }

    /// The corpus to index: documents of tasks, memories and clipboard
    /// items not excluded, newest first, at most `cap` of them.
    pub fn load_corpus(&self, ex: &SemanticExclusions, cap: i64) -> (r: Result<Vec<CorpusRow>, DomainError>)
        ensures
            r matches Err(e) ==> e is Internal,
    {
        let conn = connect(&self.db)?;
        let (sql, params) = corpus_query(ex, cap);
        let rows = fetch(&conn, sql.as_str(), params.as_slice())?;
        corpus_from_rows(&rows)
    }

    /// Replaces the index with vectors of the current corpus. Refused
    /// unless the assistant is on and an embedding model is named; an
    /// empty corpus leaves an empty index.
    pub fn rebuild<P: EmbeddingProvider>(&self, config: &SemanticConfig, provider: &P) -> (r: Result<
        SemanticIndexStatus,
        DomainError,
    >)
        ensures
            !rebuild_allowed(*config) ==> r matches Err(DomainError::Validation(_)),
            r matches Ok(s) ==> s.configured_model matches Some(m) && m@ == configured_model_name(*config),
            r matches Err(DomainError::Validation(m)) ==> (!rebuild_allowed(*config)
                && m@ == "请先在设置中选择 AI 模式与 embedding 模型"@) || (rebuild_allowed(*config)
                && m@ == "embedding 服务不可用，请检查模型与连接"@),
    {
        let model = trimmed(config.embedding_model.as_str());
        if config.mode == AIMode::Off || model.as_str().is_empty() {
            return Err(validation("请先在设置中选择 AI 模式与 embedding 模型"));
        }
        let corpus = self.load_corpus(&config.exclusions, SEMANTIC_INDEX_MAX_ROWS)?;
        let conn = connect(&self.db)?;
        let none: Vec<SqlValue> = Vec::new();
        if corpus.len() == 0 {
            run(&conn, "DELETE FROM semantic_index", none.as_slice())?;
            return self.status(config);
        }
        let mut texts: Vec<String> = Vec::new();
        let mut i: usize = 0;
        while i < corpus.len()
            invariant
                i <= corpus@.len(),
                texts@.len() == i,
                forall|k: int| 0 <= k < i ==> (#[trigger] texts@[k])@ == corpus@[k].text@,
            decreases corpus@.len() - i,
        {
            texts.push(corpus[i].text.clone());
            i = i + 1;
        }
        let embeddings = match provider.embed(&texts) {
            Some(e) => e,
            None => return Err(validation("embedding 服务不可用，请检查模型与连接")),
        };
        if embeddings.len() != corpus.len() {
            return Err(internal_msg("embedding 数量不匹配"));
        }
        let now = now_stamp();
        run(&conn, "DELETE FROM semantic_index", none.as_slice())?;
        let mut j: usize = 0;
        while j < corpus.len()
            invariant
                j <= corpus@.len(),
                embeddings@.len() == corpus@.len(),
                rebuild_allowed(*config),
            decreases corpus@.len() - j,
        {
            let embedding = &embeddings[j];
            if embedding.len() > 0 {
                let dims: i64 = (embedding.len() / 4) as i64;
                let params = vec![
                    SqlValue::Text(corpus[j].entity_type.clone()),
                    SqlValue::Text(corpus[j].entity_id.clone()),
                    SqlValue::Blob(embedding.clone()),
                    SqlValue::Text(model.clone()),
                    SqlValue::Integer(dims),
                    SqlValue::Text(now.clone()),
                ];
                run(
                    &conn,
                    "INSERT INTO semantic_index (entity_type, entity_id, embedding, model, dims, indexed_at)
                     VALUES (?1, ?2, ?3, ?4, ?5, ?6)",
                    params.as_slice(),
                )?;
            }
            j = j + 1;
        }
        self.status(config)
    }

    /// The vectors a semantic search compares a query with, with the titles
    /// of their documents. Empty (the search degrades to nothing) when the
    /// query is blank, the assistant or semantic search is off, no model is
    /// named, or the index was built with another model.
    pub fn search_candidates(&self, config: &SemanticConfig, query: &str) -> (r: Result<Vec<IndexedVector>, DomainError>)
        ensures
            (r matches Ok(v) && v@.len() > 0) ==> trim(query@).len() > 0 && config.mode != AIMode::Off
                && config.semantic_search && configured_model_name(*config).len() > 0,
            (trim(query@).len() == 0 || config.mode == AIMode::Off || !config.semantic_search
                || configured_model_name(*config).len() == 0) ==> (r matches Ok(v) && v@.len() == 0),
            r is Ok,
    {
        let q = trimmed(query);
        let model = trimmed(config.embedding_model.as_str());
        if q.as_str().is_empty() || config.mode == AIMode::Off || !config.semantic_search || model.as_str().is_empty() {
            return Ok(Vec::new());
        }
        let conn = match connect(&self.db) {
            Ok(c) => c,
            Err(_) => return Ok(Vec::new()),
        };
        let none: Vec<SqlValue> = Vec::new();
        let indexed: Option<String> = match fetch(&conn, "SELECT model FROM semantic_index LIMIT 1", none.as_slice()) {
            Ok(first) => if first.len() > 0 {
                match text_at(&first[0], 0) {
                    Ok(m) => Some(m),
                    Err(_) => None,
                }
            } else {
                None
            },
            Err(_) => None,
        };
        if !opt_eq(&indexed, &Some(model)) {
            return Ok(Vec::new());
        }
        let rows = fetch(
            &conn,
            "SELECT s.entity_type, s.entity_id, s.embedding, COALESCE(d.title, s.entity_id)
             FROM semantic_index s
             LEFT JOIN search_documents d
               ON d.entity_type = s.entity_type AND d.entity_id = s.entity_id",
            none.as_slice(),
        );
        let rows = match rows {
            Ok(rows) => rows,
            Err(_) => return Ok(Vec::new()),
        };
        let mut out: Vec<IndexedVector> = Vec::new();
        let mut i: usize = 0;
        while i < rows.len()
            invariant
                i <= rows@.len(),
                trim(query@).len() > 0 && config.mode != AIMode::Off && config.semantic_search
                    && configured_model_name(*config).len() > 0,
            decreases rows@.len() - i,
        {
            let row = &rows[i];
            let v = match (text_at(row, 0), text_at(row, 1), blob_at(row, 2), text_at(row, 3)) {
                (Ok(entity_type), Ok(entity_id), Ok(embedding), Ok(title)) => IndexedVector {
                    entity_type,
                    entity_id,
                    embedding,
                    title,
                },
                _ => return Ok(Vec::new()),
            };
            out.push(v);
            i = i + 1;
        }
        Ok(out)
    }

    /// The index's row count, model and last build time, the corpus size,
    /// and whether the index was built with a model other than the
    /// configured one.
    pub fn status(&self, config: &SemanticConfig) -> (r: Result<SemanticIndexStatus, DomainError>)
        ensures
            r matches Ok(s) ==> s.configured_model matches Some(m) ==> m@ == configured_model_name(*config),
            r matches Ok(s) ==> (s.configured_model is None <==> configured_model_name(*config).len() == 0),
            r matches Ok(s) ==> s.capped == (s.eligible > SEMANTIC_INDEX_MAX_ROWS),
            r matches Err(e) ==> e is Internal,
    {
        let conn = connect(&self.db)?;
        let none: Vec<SqlValue> = Vec::new();
        let stats = fetch(&conn, "SELECT COUNT(*), MIN(model), MAX(indexed_at) FROM semantic_index", none.as_slice())?;
        if stats.len() == 0 {
            return Err(internal_msg("索引统计缺失"));
        }
        let rows = int_at(&stats[0], 0)?;
        let model = opt_text_at(&stats[0], 1)?;
        let last = opt_text_at(&stats[0], 2)?;
        let counted = fetch(
            &conn,
            "SELECT COUNT(*) FROM search_documents WHERE entity_type IN ('task','memory','clipboard')",
            none.as_slice(),
        )?;
        if counted.len() == 0 {
            return Err(internal_msg("索引统计缺失"));
        }
        let eligible = int_at(&counted[0], 0)?;
        let configured = trimmed(config.embedding_model.as_str());
        Ok(status_from(rows, model, last, eligible, configured))
    }

    /// Empties the index; no business data is touched.
    pub fn clear(&self) -> (r: Result<(), DomainError>)
        ensures
            r matches Err(e) ==> e is Internal,
    {
        let conn = connect(&self.db)?;
        let none: Vec<SqlValue> = Vec::new();
        run(&conn, "DELETE FROM semantic_index", none.as_slice())?;
        Ok(())
    }
}

} // verus!
