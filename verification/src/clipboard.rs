//! Clipboard history: captured texts and images, favorites, and the
//! conversions of an item into a task or a memory.

use vstd::prelude::*;

use crate::assets::{digest_hex, sha256_hex, AssetStore};
use crate::clock::{new_id, now_millis, now_stamp};
use crate::db::{Database, SqlValue};
use crate::domain::{internal_msg, not_found, str_eq, validation, DomainError};
use crate::ids::EntityId;
use crate::links::EntityLinkService;
use crate::chars::trim;
use crate::memories::{CreateMemoryInput, Memory, MemoryService};
use crate::rows::{
    flag_at, id_at, id_cell, id_param, int_at, opt_id_at, opt_id_cell, opt_int_at, opt_text_at, text_at, text_param,
};
use crate::search::{SearchEntityType, SearchService};
use crate::store::{connect, fetch, run};
use crate::task_model::{page_limit, page_offset, CreateTaskInput, PagedResult, Task};
use crate::tasks::TaskService;
use crate::task_rules::{nonblank, opt_str_view, trim_nonblank};

verus! {

#[derive(PartialEq, Eq, Structural, Clone, Copy, Debug)]
pub enum ClipboardKind {
    Text,
    Image,
}

pub open spec fn clipboard_kind_text(k: ClipboardKind) -> Seq<char> {
    match k {
        ClipboardKind::Text => "text"@,
        ClipboardKind::Image => "image"@,
    }
}

impl ClipboardKind {
    pub fn as_str(&self) -> (r: &'static str)
        ensures
            r@ == clipboard_kind_text(*self),
    {
        match self {
            ClipboardKind::Text => "text",
            ClipboardKind::Image => "image",
        }
    }

    pub fn parse(value: &str) -> (r: Result<ClipboardKind, DomainError>)
        ensures
            r matches Ok(k) ==> clipboard_kind_text(k) == value@,
            r is Err ==> forall|k: ClipboardKind| clipboard_kind_text(k) != value@,
            r matches Err(e) ==> e is Validation,
    {
        if str_eq(value, "text") {
            Ok(ClipboardKind::Text)
        } else if str_eq(value, "image") {
            Ok(ClipboardKind::Image)
        } else {
            proof {
                assert forall|k: ClipboardKind| clipboard_kind_text(k) != value@ by {
                    match k {
                        ClipboardKind::Text => {},
                        ClipboardKind::Image => {},
                    }
                }
            }
            Err(validation("无效的剪贴板类型"))
        }
    }
}

pub struct ClipboardItem {
    pub id: EntityId,
    pub content: String,
    pub content_hash: String,
    pub source_app: Option<String>,
    pub favorite: bool,
    pub use_count: i64,
    pub last_used_at: Option<String>,
    pub created_at: String,
    pub updated_at: String,
    pub revision: i64,
    pub kind: ClipboardKind,
    pub asset_id: Option<EntityId>,
    pub width: Option<i64>,
    pub height: Option<i64>,
    pub thumb_base64: Option<String>,
    pub ocr_text: Option<String>,
}

/// The clipboard settings the service reads.
pub struct ClipboardSettings {
    pub capture_enabled: bool,
    pub excluded_apps: Vec<String>,
    pub retention_days: u32,
    pub max_items: u32,
}

/// An image to copy back to the system clipboard.
pub struct ImageCopyPayload {
    pub width: u32,
    pub height: u32,
    pub rgba: Vec<u8>,
}

/// The UTF-8 encoding of a text.
pub open spec fn utf8(s: Seq<char>) -> Seq<u8> {
    vstd::utf8::encode_utf8(s)
}

/// The UTF-8 bytes of a text.
pub(crate) fn text_bytes(s: &str) -> (r: Vec<u8>)
    ensures
        r@ == utf8(s@),
{
    s.as_bytes_vec()
}

/// Line breaks `\r\n` written as `\n`.
pub open spec fn unix_newlines(s: Seq<char>) -> Seq<char>
    decreases s.len(),
{
    if s.len() == 0 {
        s
    } else if s.len() >= 2 && s[0] == '\r' && s[1] == '\n' {
        seq!['\n'] + unix_newlines(s.skip(2))
    } else {
        seq![s[0]] + unix_newlines(s.skip(1))
    }
}

pub fn normalize_newlines(s: &str) -> (r: String)
    ensures
        r@ == unix_newlines(s@),
{
    let v = crate::chars::chars_of(s);
    let mut out: Vec<char> = Vec::new();
    let mut i: usize = 0;
    assert(v@.skip(0) =~= v@);
    while i < v.len()
        invariant
            i <= v@.len(),
            v@ == s@,
            out@ + unix_newlines(v@.skip(i as int)) == unix_newlines(v@),
        decreases v@.len() - i,
    {
        let ghost rest = v@.skip(i as int);
        if i + 1 < v.len() && v[i] == '\r' && v[i + 1] == '\n' {
            assert(rest.skip(2) =~= v@.skip(i + 2));
            let ghost before = out@;
            out.push('\n');
            assert(before.push('\n') + unix_newlines(v@.skip(i + 2)) =~= before + (seq!['\n'] + unix_newlines(rest.skip(2))));
            i = i + 2;
        } else {
            assert(rest.skip(1) =~= v@.skip(i + 1));
            let ghost before = out@;
            out.push(v[i]);
            assert(before.push(v@[i as int]) + unix_newlines(v@.skip(i + 1)) =~= before + (seq![rest[0]] + unix_newlines(rest.skip(1))));
            i = i + 1;
        }
    }
    assert(v@.skip(i as int) =~= Seq::<char>::empty());
    assert(out@ + Seq::<char>::empty() =~= out@);
    crate::chars::string_of(out.as_slice())
}

/// A `\r\n` line break reads as `\n` (unless the text before it ends in
/// `\r`, which would pair with it instead).
pub proof fn crlf_reads_as_lf(x: Seq<char>, y: Seq<char>)
    requires
        x.len() == 0 || x.last() != '\r',
    ensures
        unix_newlines(x + seq!['\r', '\n'] + y) == unix_newlines(x + seq!['\n'] + y),
    decreases x.len(),
{
    let a = x + seq!['\r', '\n'] + y;
    let b = x + seq!['\n'] + y;
    if x.len() == 0 {
        assert(a.skip(2) =~= y);
        assert(b.skip(1) =~= y);
    } else if x.len() >= 2 && x[0] == '\r' && x[1] == '\n' {
        let x2 = x.skip(2);
        crlf_reads_as_lf(x2, y);
        assert(a.skip(2) =~= x2 + seq!['\r', '\n'] + y);
        assert(b.skip(2) =~= x2 + seq!['\n'] + y);
    } else {
        let x1 = x.skip(1);
        assert(x.len() == 1 ==> x[0] != '\r');
        crlf_reads_as_lf(x1, y);
        assert(a.skip(1) =~= x1 + seq!['\r', '\n'] + y);
        assert(b.skip(1) =~= x1 + seq!['\n'] + y);
        assert(a[0] == x[0] && b[0] == x[0]);
        if x.len() == 1 {
            assert(a[1] == '\r');
        } else {
            assert(a[1] == x[1] && b[1] == x[1]);
        }
    }
}

/// Copies that differ in a `\r\n` against a `\n` line break hash alike.
pub proof fn crlf_and_lf_hash_alike(x: Seq<char>, y: Seq<char>)
    requires
        x.len() == 0 || x.last() != '\r',
    ensures
        sha256_hex(utf8(unix_newlines(x + seq!['\r', '\n'] + y))) == sha256_hex(
            utf8(unix_newlines(x + seq!['\n'] + y)),
        ),
{
    crlf_reads_as_lf(x, y);
}

/// Whether a copied text is left alone: capture is off, the text (line
/// breaks made `\n`) is blank or over 200,000 bytes, or the source app is
/// excluded.
pub open spec fn capture_refused(settings: ClipboardSettings, content: Seq<char>, source_app: Option<String>) -> bool {
    let text = unix_newlines(content);
    ||| !settings.capture_enabled
    ||| crate::chars::trim(text).len() == 0
    ||| utf8(text).len() > 200000
    ||| (source_app matches Some(app) && exists|i: int|
        0 <= i < settings.excluded_apps@.len() && crate::ai_model::app_matches(app@, #[trigger] settings.excluded_apps@[i]@))
}

/// Where the line that begins at `i` ends: the first `\n` at or after
/// `i`, or the end of the text.
pub open spec fn line_end(s: Seq<char>, i: int) -> int
    decreases s.len() - i,
{
    if i >= s.len() {
        s.len() as int
    } else if s[i] == '\n' {
        i
    } else {
        line_end(s, i + 1)
    }
}

pub proof fn lemma_line_end_bounds(s: Seq<char>, i: int)
    requires
        0 <= i <= s.len(),
    ensures
        i <= line_end(s, i) <= s.len(),
    decreases s.len() - i,
{
    if i < s.len() && s[i] != '\n' {
        lemma_line_end_bounds(s, i + 1);
    }
}

/// The line that begins at `start`, as `str::lines` yields it: a `\r`
/// just before the `\n` is dropped; a `\r` that ends the text stays.
pub open spec fn line_at(s: Seq<char>, start: int) -> Seq<char> {
    let end = line_end(s, start);
    let raw = s.subrange(start, end);
    if end < s.len() && raw.len() > 0 && raw.last() == '\r' {
        raw.drop_last()
    } else {
        raw
    }
}

/// The first line of a text; none for an empty text.
pub open spec fn first_line(s: Seq<char>) -> Option<Seq<char>> {
    if s.len() == 0 {
        None
    } else {
        Some(line_at(s, 0))
    }
}

/// The first line, from the one that begins at `start` on, that does not
/// begin with `[`.
pub open spec fn first_plain_line(s: Seq<char>, start: int) -> Option<Seq<char>>
    decreases s.len() - start,
{
    if start < 0 || start >= s.len() {
        None
    } else {
        let line = line_at(s, start);
        if line.len() == 0 || line[0] != '[' {
            Some(line)
        } else if line_end(s, start) >= s.len() {
            None
        } else {
            proof {
                lemma_line_end_bounds(s, start);
            }
            first_plain_line(s, line_end(s, start) + 1)
        }
    }
}

/// At most the first 80 characters.
pub open spec fn cut80(s: Seq<char>) -> Seq<char> {
    if s.len() <= 80 {
        s
    } else {
        s.take(80)
    }
}

/// The end of the line that begins at `start`, and where its text stops.
fn line_bounds(v: &Vec<char>, start: usize) -> (r: (usize, usize))
    requires
        start <= v@.len(),
    ensures
        r.0 == line_end(v@, start as int),
        start <= r.1 <= r.0 <= v@.len(),
        v@.subrange(start as int, r.1 as int) == line_at(v@, start as int),
{
    let mut end = start;
    while end < v.len() && v[end] != '\n'
        invariant
            start <= end <= v@.len(),
            line_end(v@, start as int) == line_end(v@, end as int),
        decreases v@.len() - end,
    {
        end = end + 1;
    }
    let mut stop = end;
    if end < v.len() && stop > start && v[stop - 1] == '\r' {
        stop = stop - 1;
        assert(v@.subrange(start as int, stop as int) =~= v@.subrange(start as int, end as int).drop_last());
    }
    (end, stop)
}

/// At most the first 80 characters of `v[a..b]`.
fn cut_range(v: &Vec<char>, a: usize, b: usize) -> (r: String)
    requires
        a <= b <= v@.len(),
    ensures
        r@ == cut80(v@.subrange(a as int, b as int)),
{
    let mut line: Vec<char> = Vec::new();
    let mut i = a;
    while i < b && i - a < 80
        invariant
            a <= i <= b <= v@.len(),
            i - a <= 80,
            line@ =~= v@.subrange(a as int, i as int),
        decreases b - i,
    {
        line.push(v[i]);
        i = i + 1;
    }
    assert(v@.subrange(a as int, b as int).take(80) =~= v@.subrange(a as int, a + 80) || b - a <= 80);
    crate::chars::string_of(line.as_slice())
}

/// The title of a task made from a text: its first line, or `fallback`
/// for an empty text, cut to 80 characters.
pub fn title_from(text: &str, fallback: &str) -> (r: String)
    ensures
        r@ == (match first_line(text@) {
            Some(l) => cut80(l),
            None => cut80(fallback@),
        }),
{
    let v = crate::chars::chars_of(text);
    if v.len() == 0 {
        return crate::fragments::first_chars(fallback, 80);
    }
    let (_end, stop) = line_bounds(&v, 0);
    cut_range(&v, 0, stop)
}

/// The bound values of a new text item's row, in the order of its INSERT:
/// id, content, content hash, source app, stamp.
pub fn new_text_item_params(id: EntityId, content: &str, hash: &str, source_app: &Option<String>, now: &str) -> (r: Vec<
    SqlValue,
>)
    ensures
        r@.len() == 5,
        crate::db::sql_text(r@[0]) == Some(crate::ids::id_text(id)),
        crate::db::sql_text(r@[1]) == Some(content@),
        crate::db::sql_text(r@[2]) == Some(hash@),
        crate::tasks::binds_opt(r@[3], *source_app),
        crate::db::sql_text(r@[4]) == Some(now@),
{
    vec![
        id_param(id),
        crate::rows::text_param(content),
        crate::rows::text_param(hash),
        crate::rows::opt_text_param(source_app),
        crate::rows::text_param(now),
    ]
}

/// The title a task made from a clipboard text gets.
pub open spec fn clip_task_title(text: Seq<char>) -> Seq<char> {
    match first_line(text) {
        Some(l) => cut80(l),
        None => cut80("剪切板任务"@),
    }
}

/// What a task is made from a clipboard text with: titled by its first
/// line, the text as notes, nothing else.
pub fn clip_task_input(text: String) -> (r: CreateTaskInput)
    ensures
        r.title@ == clip_task_title(text@),
        r.notes matches Some(n) && n@ == text@,
        r.priority is None && r.list_id is None && r.due_date is None && r.due_time is None && r.tag_names is None,
{
    let title = title_from(text.as_str(), "剪切板任务");
    CreateTaskInput {
        title,
        notes: Some(text),
        priority: None,
        list_id: None,
        due_date: None,
        due_time: None,
        tag_names: None,
    }
}

/// A task made from clipboard text `text`.
pub open spec fn clip_task_made(t: Task, text: Seq<char>) -> bool {
    &&& t.title@ == trim(clip_task_title(text))
    &&& t.notes@ == text
    &&& t.status == crate::task_model::TaskStatus::Todo
}

/// The body of a memory made from a clipboard text: text recognised in an
/// image is marked as such.
pub open spec fn clip_memory_body(text: Seq<char>, from_image: bool) -> Seq<char> {
    if from_image {
        "[来自图片识别]\n"@ + text
    } else {
        text
    }
}

pub open spec fn clip_memory_title(body: Seq<char>) -> Seq<char> {
    match first_plain_line(body, 0) {
        Some(l) => cut80(l),
        None => cut80("剪切板记忆"@),
    }
}

/// What a memory is made from a clipboard text with: the body, titled by
/// its first plain line, nothing else.
pub fn clip_memory_input(text: String, from_image: bool) -> (r: CreateMemoryInput)
    ensures
        r.body matches Some(b) && b@ == clip_memory_body(text@, from_image),
        r.title@ == clip_memory_title(clip_memory_body(text@, from_image)),
        r.pinned is None && r.quick_insert is None && r.trigger_word is None && r.tag_names is None,
{
    let body = if from_image {
        let mut b = "[来自图片识别]\n".to_string();
        b.append(text.as_str());
        b
    } else {
        text
    };
    let title = memory_title_from(body.as_str(), "剪切板记忆");
    CreateMemoryInput { title, body: Some(body), pinned: None, quick_insert: None, trigger_word: None, tag_names: None }
}

/// A memory made from clipboard text `text`.
pub open spec fn clip_memory_made(m: Memory, text: Seq<char>, from_image: bool) -> bool {
    &&& m.title@ == trim(clip_memory_title(clip_memory_body(text, from_image)))
    &&& m.body@ == clip_memory_body(text, from_image)
    &&& !m.pinned && !m.quick_insert && !m.archived
    &&& m.trigger_word is None
}

/// What an item reads as when converted: its recognised text (when it is
/// an image with some), else its content.
pub open spec fn item_read_as(item: ClipboardItem, text: Seq<char>, from_image: bool) -> bool {
    if from_image {
        item.kind == ClipboardKind::Image && item.asset_id is Some && text.len() > 0
    } else {
        text == item.content@
    }
}

/// The title of a memory made from a text: its first line that does not
/// begin with `[`, or `fallback`, cut to 80 characters.
pub fn memory_title_from(text: &str, fallback: &str) -> (r: String)
    ensures
        r@ == (match first_plain_line(text@, 0) {
            Some(l) => cut80(l),
            None => cut80(fallback@),
        }),
{
    let v = crate::chars::chars_of(text);
    let mut start: usize = 0;
    while start < v.len()
        invariant
            start <= v@.len(),
            v@ == text@,
            first_plain_line(v@, 0) == first_plain_line(v@, start as int),
        decreases v@.len() - start,
    {
        let (end, stop) = line_bounds(&v, start);
        if stop == start || v[start] != '[' {
            assert(v@.subrange(start as int, stop as int).len() == 0 || v@.subrange(start as int, stop as int)[0] == v@[start as int]);
            return cut_range(&v, start, stop);
        }
        assert(v@.subrange(start as int, stop as int)[0] == v@[start as int]);
        if end >= v.len() {
            return crate::fragments::first_chars(fallback, 80);
        }
        start = end + 1;
    }
    crate::fragments::first_chars(fallback, 80)
}

fn item_from_row(row: &Vec<SqlValue>) -> (r: Result<ClipboardItem, DomainError>)
    ensures
        r matches Ok(it) ==> it.id == crate::rows::id_cell(row@, 0).unwrap(),
        r matches Err(e) ==> e is Internal,
{
    let kind_text = text_at(row, 10)?;
    let kind = match ClipboardKind::parse(kind_text.as_str()) {
        Ok(k) => k,
        Err(_) => return Err(internal_msg("unexpected clipboard kind")),
    };
    Ok(
        ClipboardItem {
            id: id_at(row, 0)?,
            content: text_at(row, 1)?,
            content_hash: text_at(row, 2)?,
            source_app: opt_text_at(row, 3)?,
            favorite: flag_at(row, 4)?,
            use_count: int_at(row, 5)?,
            last_used_at: opt_text_at(row, 6)?,
            created_at: text_at(row, 7)?,
            updated_at: text_at(row, 8)?,
            revision: int_at(row, 9)?,
            kind,
            asset_id: opt_id_at(row, 11)?,
            width: opt_int_at(row, 12)?,
            height: opt_int_at(row, 13)?,
            thumb_base64: None,
            ocr_text: None,
        },
    )
}

const ITEM_COLUMNS: &'static str = "SELECT c.id, c.content, c.content_hash, c.source_app, c.favorite, c.use_count, c.last_used_at, c.created_at, c.updated_at, c.revision, c.kind, c.asset_id, a.width, a.height FROM clipboard_items c LEFT JOIN assets a ON a.id = c.asset_id AND a.deleted_at IS NULL";

/// A history query: favorites only, one kind, a text (matched in the
/// content or in an image's recognised text), a source app, a range of
/// days, and a page.
pub struct ClipboardQuery {
    pub favorites_only: Option<bool>,
    pub kind: Option<ClipboardKind>,
    pub search: Option<String>,
    pub source_app: Option<String>,
    pub date_from: Option<String>,
    pub date_to: Option<String>,
    pub limit: Option<i64>,
    pub offset: Option<i64>,
}

/// The SQL conditions of a history query, in order: favorites, kind,
/// text, source app, first day, last day.
pub open spec fn clipboard_filter_sql(q: ClipboardQuery) -> Seq<char> {
    crate::task_query::piece(q.favorites_only == Some(true), " AND c.favorite = 1"@) + crate::task_query::piece(
        q.kind is Some,
        " AND c.kind = ?"@,
    ) + crate::task_query::piece(
        nonblank(opt_str_view(q.search)) is Some,
        " AND (c.content LIKE ? ESCAPE '\\' OR EXISTS (SELECT 1 FROM derived_texts d WHERE d.asset_id = c.asset_id AND d.kind = 'ocr' AND d.text LIKE ? ESCAPE '\\'))"@,
    ) + crate::task_query::piece(nonblank(opt_str_view(q.source_app)) is Some, " AND c.source_app = ?"@)
        + crate::task_query::piece(q.date_from is Some, " AND date(c.created_at) >= date(?)"@)
        + crate::task_query::piece(q.date_to is Some, " AND date(c.created_at) <= date(?)"@)
}

/// The texts bound to the `?`s of `clipboard_filter_sql(q)`, in order: a
/// text search binds its `LIKE` pattern (wildcards escaped) twice, the
/// source app is trimmed.
pub open spec fn clipboard_filter_params(q: ClipboardQuery) -> Seq<Seq<char>> {
    (match q.kind {
        Some(k) => seq![clipboard_kind_text(k)],
        None => Seq::empty(),
    }) + (match nonblank(opt_str_view(q.search)) {
        Some(t) => seq![crate::task_query::search_pattern(t), crate::task_query::search_pattern(t)],
        None => Seq::empty(),
    }) + (match nonblank(opt_str_view(q.source_app)) {
        Some(a) => seq![a],
        None => Seq::empty(),
    }) + (match q.date_from {
        Some(d) => seq![d@],
        None => Seq::empty(),
    }) + (match q.date_to {
        Some(d) => seq![d@],
        None => Seq::empty(),
    })
}

/// The SQL conditions and bound parameters of a history query.
pub fn clipboard_filters(q: &ClipboardQuery) -> (r: (String, Vec<SqlValue>))
    ensures
        r.0@ == clipboard_filter_sql(*q),
        crate::task_query::binds_texts(r.1@, clipboard_filter_params(*q)),
{
    let ghost qq = *q;
    let mut filters = String::new();
    let mut values: Vec<SqlValue> = Vec::new();
    let ghost mut texts: Seq<Seq<char>> = Seq::empty();
    if q.favorites_only == Some(true) {
        filters.append(" AND c.favorite = 1");
    }
    assert(filters@ =~= crate::task_query::piece(qq.favorites_only == Some(true), " AND c.favorite = 1"@));
    let ghost f1 = filters@;
    if let Some(kind) = &q.kind {
        filters.append(" AND c.kind = ?");
        let v = SqlValue::Text(kind.as_str().to_string());
        proof {
            crate::task_query::lemma_bind_push(values@, texts, v, clipboard_kind_text(*kind));
            texts = texts + seq![clipboard_kind_text(*kind)];
        }
        values.push(v);
    }
    assert(filters@ =~= f1 + crate::task_query::piece(qq.kind is Some, " AND c.kind = ?"@));
    let ghost f2 = filters@;
    let ghost t2 = texts;
    if let Some(text) = trim_nonblank(&q.search) {
        filters.append(
            " AND (c.content LIKE ? ESCAPE '\\' OR EXISTS (SELECT 1 FROM derived_texts d WHERE d.asset_id = c.asset_id AND d.kind = 'ocr' AND d.text LIKE ? ESCAPE '\\'))",
        );
        let pattern = crate::task_query::contains_pattern(text.as_str());
        let v1 = SqlValue::Text(pattern.clone());
        proof {
            crate::task_query::lemma_bind_push(values@, texts, v1, crate::task_query::search_pattern(text@));
            texts = texts + seq![crate::task_query::search_pattern(text@)];
        }
        values.push(v1);
        let v2 = SqlValue::Text(pattern);
        proof {
            crate::task_query::lemma_bind_push(values@, texts, v2, crate::task_query::search_pattern(text@));
            texts = texts + seq![crate::task_query::search_pattern(text@)];
        }
        values.push(v2);
    }
    assert(filters@ =~= f2 + crate::task_query::piece(
        nonblank(opt_str_view(qq.search)) is Some,
        " AND (c.content LIKE ? ESCAPE '\\' OR EXISTS (SELECT 1 FROM derived_texts d WHERE d.asset_id = c.asset_id AND d.kind = 'ocr' AND d.text LIKE ? ESCAPE '\\'))"@,
    ));
    assert(texts =~= t2 + match nonblank(opt_str_view(qq.search)) {
        Some(t) => seq![crate::task_query::search_pattern(t), crate::task_query::search_pattern(t)],
        None => Seq::<Seq<char>>::empty(),
    });
    let ghost f3 = filters@;
    let ghost t3 = texts;
    if let Some(app) = trim_nonblank(&q.source_app) {
        filters.append(" AND c.source_app = ?");
        let v = SqlValue::Text(app);
        proof {
            crate::task_query::lemma_bind_push(values@, texts, v, app@);
            texts = texts + seq![app@];
        }
        values.push(v);
    }
    assert(filters@ =~= f3 + crate::task_query::piece(nonblank(opt_str_view(qq.source_app)) is Some, " AND c.source_app = ?"@));
    assert(texts =~= t3 + match nonblank(opt_str_view(qq.source_app)) {
        Some(a) => seq![a],
        None => Seq::<Seq<char>>::empty(),
    });
    let ghost f4 = filters@;
    let ghost t4 = texts;
    if let Some(from) = &q.date_from {
        filters.append(" AND date(c.created_at) >= date(?)");
        let v = SqlValue::Text(from.clone());
        proof {
            crate::task_query::lemma_bind_push(values@, texts, v, from@);
            texts = texts + seq![from@];
        }
        values.push(v);
    }
    assert(filters@ =~= f4 + crate::task_query::piece(qq.date_from is Some, " AND date(c.created_at) >= date(?)"@));
    assert(texts =~= t4 + match qq.date_from {
        Some(d) => seq![d@],
        None => Seq::<Seq<char>>::empty(),
    });
    let ghost f5 = filters@;
    let ghost t5 = texts;
    if let Some(to) = &q.date_to {
        filters.append(" AND date(c.created_at) <= date(?)");
        let v = SqlValue::Text(to.clone());
        proof {
            crate::task_query::lemma_bind_push(values@, texts, v, to@);
            texts = texts + seq![to@];
        }
        values.push(v);
    }
    assert(filters@ =~= f5 + crate::task_query::piece(qq.date_to is Some, " AND date(c.created_at) <= date(?)"@));
    assert(texts =~= t5 + match qq.date_to {
        Some(d) => seq![d@],
        None => Seq::<Seq<char>>::empty(),
    });
    assert(filters@ =~= clipboard_filter_sql(qq));
    assert(texts =~= clipboard_filter_params(qq));
    (filters, values)
}

/// What the clipboard watcher remembers between polls: the hashes of the
/// text and image it saw last, and how many polls it made.
pub struct ClipboardWatch {
    pub last_text_hash: Option<String>,
    pub last_image_hash: Option<String>,
    pub ticks: u64,
}

impl ClipboardWatch {
    pub fn new() -> (r: Self)
        ensures
            r.last_text_hash is None,
            r.last_image_hash is None,
            r.ticks == 0,
    {
        ClipboardWatch { last_text_hash: None, last_image_hash: None, ticks: 0 }
    }

    /// Whether text with this hash is new to the watcher (and so to be
    /// captured); the watcher remembers it.
    pub fn see_text(&mut self, hash: String) -> (r: bool)
        ensures
            r == !(old(self).last_text_hash matches Some(h) && h@ == hash@),
            final(self).last_text_hash matches Some(h) && h@ == hash@,
            final(self).last_image_hash == old(self).last_image_hash,
            final(self).ticks == old(self).ticks,
    {
        let same = match &self.last_text_hash {
            Some(h) => str_eq(h.as_str(), hash.as_str()),
            None => false,
        };
        if !same {
            self.last_text_hash = Some(hash);
        }
        !same
    }

    /// Whether an image with this hash is new to the watcher; the watcher
    /// remembers it.
    pub fn see_image(&mut self, hash: String) -> (r: bool)
        ensures
            r == !(old(self).last_image_hash matches Some(h) && h@ == hash@),
            final(self).last_image_hash matches Some(h) && h@ == hash@,
            final(self).last_text_hash == old(self).last_text_hash,
            final(self).ticks == old(self).ticks,
    {
        let same = match &self.last_image_hash {
            Some(h) => str_eq(h.as_str(), hash.as_str()),
            None => false,
        };
        if !same {
            self.last_image_hash = Some(hash);
        }
        !same
    }

    /// Counts a poll; every 150th poll the clipboard limits are applied.
    pub fn tick(&mut self) -> (r: bool)
        ensures
            final(self).ticks == (if old(self).ticks == u64::MAX { 0 } else { (old(self).ticks + 1) as u64 }),
            r == (final(self).ticks % 150 == 0),
            final(self).last_text_hash == old(self).last_text_hash,
            final(self).last_image_hash == old(self).last_image_hash,
    {
        self.ticks = if self.ticks == u64::MAX {
            0
        } else {
            self.ticks + 1
        };
        self.ticks % 150 == 0
    }
}

/// The ids of the candidates whose image nothing links to, in order.
pub open spec fn unlinked(cands: Seq<(EntityId, bool)>) -> Seq<EntityId>
    decreases cands.len(),
{
    if cands.len() == 0 {
        Seq::empty()
    } else {
        let prev = unlinked(cands.drop_last());
        if !cands.last().1 {
            prev.push(cands.last().0)
        } else {
            prev
        }
    }
}

/// The items a clean-up retires: every unlinked candidate, or with a cap
/// the first `cap` of them (none for a cap below one).
pub open spec fn retired(cands: Seq<(EntityId, bool)>, cap: Option<i64>) -> Seq<EntityId> {
    match cap {
        None => unlinked(cands),
        Some(n) => if n <= 0 {
            Seq::empty()
        } else if unlinked(cands).len() <= n {
            unlinked(cands)
        } else {
            unlinked(cands).take(n as int)
        },
    }
}

/// How far a history of `total` live items is over a cap of `max_items`:
/// nothing when within it, else the overflow and how many of the oldest
/// items to look at (twice the overflow, saturating).
pub fn overflow_of(total: i64, max_items: u32) -> (r: Option<(i64, i64)>)
    ensures
        r is None <==> total <= max_items as i64,
        r matches Some(p) ==> p.0 == total - max_items as i64 && p.0 > 0
            && p.1 == (if 2 * p.0 <= i64::MAX { 2 * p.0 } else { i64::MAX as int }),
{
    let max = max_items as i64;
    if total <= max {
        return None;
    }
    let overflow = total - max;
    let probe = if overflow <= i64::MAX / 2 {
        overflow * 2
    } else {
        i64::MAX
    };
    Some((overflow, probe))
}

/// Which candidates a clean-up retires: those whose image is not linked
/// (items older than the retention period), or the oldest of them up to
/// the overflow (items over the cap).
pub fn retire_plan(cands: &Vec<(EntityId, bool)>, cap: Option<i64>) -> (r: Vec<EntityId>)
    ensures
        r@ == retired(cands@, cap),
{
    let mut out: Vec<EntityId> = Vec::new();
    let mut i: usize = 0;
    while i < cands.len()
        invariant
            i <= cands@.len(),
            out@ == unlinked(cands@.take(i as int)),
        decreases cands@.len() - i,
    {
        assert(cands@.take(i + 1).drop_last() =~= cands@.take(i as int));
        assert(cands@.take(i + 1).last() == cands@[i as int]);
        if !cands[i].1 {
            out.push(cands[i].0);
        }
        i = i + 1;
    }
    assert(cands@.take(cands@.len() as int) =~= cands@);
    match cap {
        None => out,
        Some(n) => {
            if n <= 0 {
                Vec::new()
            } else {
                if (out.len() as u64) > (n as u64) {
                    out.truncate(n as usize);
                }
                out
            }
        },
    }
}

pub struct ClipboardService {
    pub db: Database,
    pub tasks: TaskService,
    pub memories: MemoryService,
    pub search: SearchService,
    pub links: EntityLinkService,
    pub assets: AssetStore,
    /// A content hash not to capture, and until when (milliseconds since
    /// the epoch): set when the workbench itself writes the clipboard.
    pub suppressed: Option<(String, i64)>,
}

impl ClipboardService {
    pub fn new(db: Database, assets_root: String) -> (r: Self)
        ensures
            r.db.path@ == db.path@,
            r.assets.root@ == assets_root@,
    {
        ClipboardService {
            tasks: TaskService::new(db.clone()),
            memories: MemoryService::new(db.clone()),
            search: SearchService::new(db.clone()),
            links: EntityLinkService::new(db.clone()),
            assets: AssetStore::new(db.clone(), assets_root),
            db,
            suppressed: None,
        }
    }

    /// Skips capturing content with this hash for the next two seconds.
    pub fn suppress_next(&mut self, hash: &str)
        ensures
            final(self).suppressed matches Some((h, _)) && h@ == hash@,
            final(self).db == old(self).db,
    {
        let now = now_millis();
        let until = if now <= i64::MAX - 2000 {
            now + 2000
        } else {
            i64::MAX
        };
        self.suppressed = Some((hash.to_string(), until));
    }

    /// Skips capturing this text for the next two seconds.
    pub fn suppress_next_text(&mut self, content: &str)
        ensures
            final(self).suppressed matches Some((h, _)) && h@ == sha256_hex(utf8(unix_newlines(content@))),
            final(self).db == old(self).db,
    {
        let hash = Self::hash_content(content);
        self.suppress_next(hash.as_str());
    }

    /// Whether content with this hash is to be skipped now; a suppression
    /// that has run out is dropped.
    fn is_suppressed(&mut self, hash: &str) -> (r: bool)
        ensures
            r ==> (old(self).suppressed matches Some((h, _)) && h@ == hash@),
            r ==> final(self).suppressed == old(self).suppressed,
            (old(self).suppressed matches Some((h, _)) && h@ == hash@) ==> (r || final(self).suppressed is None),
            final(self).suppressed is None || final(self).suppressed == old(self).suppressed,
            final(self).db == old(self).db,
    {
        let now = now_millis();
        let (same, until) = match &self.suppressed {
            Some((h, until)) => (str_eq(h.as_str(), hash), *until),
            None => return false,
        };
        if same && now < until {
            true
        } else {
            if now >= until {
                self.suppressed = None;
            }
            false
        }
    }

    /// The store of the items' images.
    pub fn assets(&self) -> (r: &AssetStore)
        ensures
            r == &self.assets,
    {
        &self.assets
    }

    /// The hash a text item is recognized by: SHA-256 (hex) of its UTF-8
    /// text with `\r\n` line breaks written as `\n`.
    pub fn hash_content(content: &str) -> (r: String)
        ensures
            r@ == sha256_hex(utf8(unix_newlines(content@))),
    {
        let normalized = normalize_newlines(content);
        let bytes = text_bytes(normalized.as_str());
        digest_hex(bytes.as_slice())
    }

    /// The recognized text of an image asset ("" when there is none).
    pub fn ocr_text_for_asset(&self, asset_id: EntityId) -> (r: Result<String, DomainError>)
        ensures
            r matches Err(e) ==> e is Internal,
    {
        let conn = connect(&self.db)?;
        let params = vec![id_param(asset_id)];
        let rows = fetch(&conn, "SELECT text FROM derived_texts WHERE asset_id = ?1 AND kind = 'ocr'", params.as_slice())?;
        if rows.len() == 0 {
            return Ok(String::new());
        }
        text_at(&rows[0], 0)
    }

    /// A live item by id, with its recognized text.
    pub fn get(&self, id: EntityId) -> (r: Result<ClipboardItem, DomainError>)
        ensures
            r matches Ok(it) ==> it.id == id,
            r matches Err(e) ==> e is Internal || e is NotFound,
    {
        let conn = connect(&self.db)?;
        let mut sql = ITEM_COLUMNS.to_string();
        sql.append(" WHERE c.id = ?1 AND c.deleted_at IS NULL");
        let params = vec![id_param(id)];
        let rows = fetch(&conn, sql.as_str(), params.as_slice())?;
        let mut i: usize = 0;
        while i < rows.len()
            invariant
                i <= rows@.len(),
            decreases rows@.len() - i,
        {
            let mut it = item_from_row(&rows[i])?;
            if it.id == id {
                if let Some(asset_id) = it.asset_id {
                    let ocr = self.ocr_text_for_asset(asset_id)?;
                    if !ocr.as_str().is_empty() {
                        it.ocr_text = Some(ocr);
                    }
                }
                return Ok(it);
            }
            i = i + 1;
        }
        Err(not_found("剪切板条目不存在"))
    }

    /// A page of the history, favorites first and then newest first, with
    /// the number of items that match; each image item carries its
    /// recognised text where it can be read. (Thumbnails are files: the host
    /// reads them and makes them `data:` URIs with `thumb_data_uri`.)
    pub fn query(&self, query: ClipboardQuery) -> (r: Result<PagedResult<ClipboardItem>, DomainError>)
        ensures
            r matches Ok(p) ==> p.offset == match query.offset {
                Some(o) => if o < 0 {
                    0
                } else {
                    o
                },
                None => 0,
            } && p.has_more == (p.offset + p.items@.len() < p.total),
            r matches Err(e) ==> e is Internal,
    {
        let conn = connect(&self.db)?;
        let limit = page_limit(query.limit);
        let offset = page_offset(query.offset);
        let (filters, mut values) = clipboard_filters(&query);
        let mut count_sql = "SELECT COUNT(*) FROM clipboard_items c LEFT JOIN assets a ON a.id = c.asset_id AND a.deleted_at IS NULL WHERE c.deleted_at IS NULL".to_string();
        count_sql.append(filters.as_str());
        let rows = fetch(&conn, count_sql.as_str(), values.as_slice())?;
        let total = crate::rows::single_int(&rows)?;
        let mut sql = ITEM_COLUMNS.to_string();
        sql.append(" WHERE c.deleted_at IS NULL");
        sql.append(filters.as_str());
        sql.append(" ORDER BY c.favorite DESC, c.created_at DESC LIMIT ? OFFSET ?");
        values.push(SqlValue::Integer(limit));
        values.push(SqlValue::Integer(offset));
        let rows = fetch(&conn, sql.as_str(), values.as_slice())?;
        let mut items: Vec<ClipboardItem> = Vec::new();
        let mut i: usize = 0;
        while i < rows.len()
            invariant
                i <= rows@.len(),
            decreases rows@.len() - i,
        {
            let mut it = item_from_row(&rows[i])?;
            if let Some(asset_id) = it.asset_id {
                if let Ok(ocr) = self.ocr_text_for_asset(asset_id) {
                    if !ocr.as_str().is_empty() {
                        it.ocr_text = Some(ocr);
                    }
                }
            }
            items.push(it);
            i = i + 1;
        }
        Ok(PagedResult::new(items, total, offset))
    }

    /// Favorite text items (containing `search` when given), favorites
    /// and newest first; at most `limit`, with the total.
    pub fn query_snippets(&self, search: Option<String>, limit: i64) -> (r: Result<(Vec<ClipboardItem>, i64), DomainError>)
        ensures
            r matches Err(e) ==> e is Internal,
    {
        let conn = connect(&self.db)?;
        let mut filters = " WHERE c.deleted_at IS NULL AND c.favorite = 1 AND c.kind = 'text'".to_string();
        let mut params: Vec<SqlValue> = Vec::new();
        if let Some(q) = &search {
            let t = crate::tasks::trimmed(q.as_str());
            if !t.as_str().is_empty() {
                filters.append(" AND c.content LIKE ? ESCAPE '\\'");
                params.push(SqlValue::Text(crate::task_query::contains_pattern(t.as_str())));
            }
        }
        let mut count = "SELECT COUNT(*) FROM clipboard_items c".to_string();
        count.append(filters.as_str());
        let rows = fetch(&conn, count.as_str(), params.as_slice())?;
        let total = crate::rows::single_int(&rows)?;
        let mut sql = ITEM_COLUMNS.to_string();
        sql.append(filters.as_str());
        sql.append(" ORDER BY c.favorite DESC, c.created_at DESC LIMIT ?");
        params.push(SqlValue::Integer(limit));
        let rows = fetch(&conn, sql.as_str(), params.as_slice())?;
        let mut out: Vec<ClipboardItem> = Vec::new();
        let mut i: usize = 0;
        while i < rows.len()
            invariant
                i <= rows@.len(),
            decreases rows@.len() - i,
        {
            out.push(item_from_row(&rows[i])?);
            i = i + 1;
        }
        Ok((out, total))
    }

    /// Live items that are not favorites and hold at least `min_bytes`
    /// bytes, largest first: at most `limit` of them, and how many there
    /// are in all.
    pub fn query_large_unfavorited(&self, min_bytes: i64, limit: i64) -> (r: Result<
        (Vec<ClipboardItem>, i64),
        DomainError,
    >)
        ensures
            r matches Err(e) ==> e is Internal,
    {
        let conn = connect(&self.db)?;
        let filters = " WHERE c.deleted_at IS NULL AND c.favorite = 0 AND length(CAST(c.content AS BLOB)) >= ?1";
        let mut count = "SELECT COUNT(*) FROM clipboard_items c".to_string();
        count.append(filters);
        let params = vec![SqlValue::Integer(min_bytes)];
        let rows = fetch(&conn, count.as_str(), params.as_slice())?;
        let total = crate::rows::single_int(&rows)?;
        let mut sql = ITEM_COLUMNS.to_string();
        sql.append(filters);
        sql.append(" ORDER BY length(CAST(c.content AS BLOB)) DESC, c.created_at DESC LIMIT ?2");
        let params = vec![SqlValue::Integer(min_bytes), SqlValue::Integer(limit)];
        let rows = fetch(&conn, sql.as_str(), params.as_slice())?;
        let mut out: Vec<ClipboardItem> = Vec::new();
        let mut i: usize = 0;
        while i < rows.len()
            invariant
                i <= rows@.len(),
            decreases rows@.len() - i,
        {
            out.push(item_from_row(&rows[i])?);
            i = i + 1;
        }
        Ok((out, total))
    }

    /// The source apps of live items, by name.
    pub fn list_source_apps(&self) -> (r: Result<Vec<String>, DomainError>)
        ensures
            r matches Err(e) ==> e is Internal,
    {
        let conn = connect(&self.db)?;
        let rows = fetch(
            &conn,
            "SELECT DISTINCT source_app FROM clipboard_items
             WHERE deleted_at IS NULL AND source_app IS NOT NULL AND source_app != ''
             ORDER BY source_app COLLATE NOCASE",
            &[],
        )?;
        let mut out: Vec<String> = Vec::new();
        let mut i: usize = 0;
        while i < rows.len()
            invariant
                i <= rows@.len(),
            decreases rows@.len() - i,
        {
            out.push(text_at(&rows[i], 0)?);
            i = i + 1;
        }
        Ok(out)
    }

    /// Stores a copied text: nothing when capture is off, the text is blank
    /// or over 200,000 bytes, or the source app is excluded, nor while its
    /// hash is suppressed; copying the same text as the latest item only
    /// refreshes that item.
    pub fn capture_text(&mut self, settings: &ClipboardSettings, content: String, source_app: Option<String>) -> (r:
        Result<Option<ClipboardItem>, DomainError>)
        ensures
            capture_refused(*settings, content@, source_app) ==> r matches Ok(None),
            (r matches Ok(None)) ==> capture_refused(*settings, content@, source_app) || (old(self).suppressed matches Some((h, _))
                && h@ == sha256_hex(utf8(unix_newlines(unix_newlines(content@))))),
            final(self).db == old(self).db,
            r matches Ok(Some(it)) ==> it.content_hash@ == sha256_hex(utf8(unix_newlines(unix_newlines(content@)))),
    {
        if !settings.capture_enabled {
            return Ok(None);
        }
        let content = normalize_newlines(content.as_str());
        if crate::ai_model::trim_is_empty(content.as_str()) {
            return Ok(None);
        }
        if text_bytes(content.as_str()).len() > 200000 {
            return Ok(None);
        }
        if let Some(app) = &source_app {
            if crate::ai_model::app_excluded(app.as_str(), &settings.excluded_apps) {
                return Ok(None);
            }
        }
        let hash = Self::hash_content(content.as_str());
        if self.is_suppressed(hash.as_str()) {
            return Ok(None);
        }
        let now = now_stamp();
        let conn = connect(&self.db)?;
        let rows = fetch(
            &conn,
            "SELECT id, content_hash FROM clipboard_items WHERE deleted_at IS NULL ORDER BY created_at DESC LIMIT 1",
            &[],
        )?;
        if rows.len() > 0 {
            let latest_id = id_at(&rows[0], 0)?;
            let latest_hash = text_at(&rows[0], 1)?;
            if str_eq(latest_hash.as_str(), hash.as_str()) {
                let params = vec![SqlValue::Text(now), id_param(latest_id)];
                run(&conn, "UPDATE clipboard_items SET updated_at = ?1, revision = revision + 1 WHERE id = ?2", params.as_slice())?;
                let it = self.get(latest_id)?;
                if !str_eq(it.content_hash.as_str(), hash.as_str()) {
                    return Err(internal_msg("剪切板条目未按内容记录"));
                }
                return Ok(Some(it));
            }
        }
        let id = new_id();
        let params = new_text_item_params(id, content.as_str(), hash.as_str(), &source_app, now.as_str());
        run(
            &conn,
            "INSERT INTO clipboard_items (
                id, content, content_hash, source_app, favorite, use_count, last_used_at,
                created_at, updated_at, revision, deleted_at, kind, asset_id
             ) VALUES (?1, ?2, ?3, ?4, 0, 0, NULL, ?5, ?5, 1, NULL, 'text', NULL)",
            params.as_slice(),
        )?;
        self.enforce_limits(settings)?;
        let it = self.get(id)?;
        if !str_eq(it.content_hash.as_str(), hash.as_str()) {
            return Err(internal_msg("剪切板条目未按内容记录"));
        }
        Ok(Some(it))
    }

    /// Marks or unmarks an item as a favorite.
    pub fn set_favorite(&self, id: EntityId, favorite: bool) -> (r: Result<ClipboardItem, DomainError>)
        ensures
            r matches Ok(it) ==> it.id == id,
    {
        let _ = self.get(id)?;
        let conn = connect(&self.db)?;
        let params = vec![SqlValue::Integer(if favorite { 1 } else { 0 }), SqlValue::Text(now_stamp()), id_param(id)];
        run(&conn, "UPDATE clipboard_items SET favorite = ?1, updated_at = ?2, revision = revision + 1 WHERE id = ?3", params.as_slice())?;
        self.get(id)
    }

    /// Counts a use of an item.
    pub fn mark_used(&self, id: EntityId) -> (r: Result<ClipboardItem, DomainError>)
        ensures
            r matches Ok(it) ==> it.id == id,
    {
        let _ = self.get(id)?;
        let conn = connect(&self.db)?;
        let params = vec![SqlValue::Text(now_stamp()), id_param(id)];
        run(
            &conn,
            "UPDATE clipboard_items SET use_count = use_count + 1, last_used_at = ?1, updated_at = ?1, revision = revision + 1 WHERE id = ?2",
            params.as_slice(),
        )?;
        self.get(id)
    }

    /// Deletes an item (softly).
    pub fn delete(&self, id: EntityId) -> (r: Result<(), DomainError>)
        ensures
            r matches Err(e) ==> e is Internal || e is NotFound,
    {
        let _ = self.get(id)?;
        let conn = connect(&self.db)?;
        let params = vec![SqlValue::Text(now_stamp()), id_param(id)];
        run(&conn, "UPDATE clipboard_items SET deleted_at = ?1, updated_at = ?1, revision = revision + 1 WHERE id = ?2", params.as_slice())?;
        Ok(())
    }

    /// The text an item stands for: its recognized text for an image that
    /// has one, its content otherwise.
    fn item_text(&self, item: &ClipboardItem) -> (r: Result<(String, bool), DomainError>)
        ensures
            !(item.kind == ClipboardKind::Image && item.asset_id is Some) ==> (r matches Ok((t, from_image))
                && !from_image && t@ == item.content@),
            r matches Ok((t, from_image)) ==> if from_image {
                item.kind == ClipboardKind::Image && item.asset_id is Some && t@.len() > 0
            } else {
                t@ == item.content@
            },
            r matches Err(e) ==> e is Internal,
    {
        if item.kind == ClipboardKind::Image {
            if let Some(asset_id) = item.asset_id {
                let ocr = self.ocr_text_for_asset(asset_id)?;
                if !ocr.as_str().is_empty() {
                    return Ok((ocr, true));
                }
            }
        }
        Ok((item.content.clone(), false))
    }

    /// Makes a task of an item: titled by its first line, with its text as
    /// notes.
    pub fn convert_to_task(&self, id: EntityId) -> (r: Result<EntityId, DomainError>)
        ensures
            r matches Err(e) ==> e is Internal || e is NotFound || e is Validation,
            r matches Ok(tid) ==> exists|item: ClipboardItem, text: Seq<char>, from_image: bool, t: Task|
                item.id == id && #[trigger] item_read_as(item, text, from_image) && t.id == tid && #[trigger] clip_task_made(t, text),
    {
        let item = self.get(id)?;
        let (notes, from_image) = self.item_text(&item)?;
        let ghost text = notes@;
        let input = clip_task_input(notes);
        let task = self.tasks.create_task(input)?;
        self.search.upsert(SearchEntityType::Task, task.id, task.title.as_str(), task.notes.as_str())?;
        assert(item_read_as(item, text, from_image) && clip_task_made(task, text));
        Ok(task.id)
    }

    /// Makes a memory of an item (an image's recognized text marked as
    /// such), linking the memory to the item's image.
    pub fn convert_to_memory(&self, id: EntityId) -> (r: Result<EntityId, DomainError>)
        ensures
            r matches Ok(mid) ==> exists|item: ClipboardItem, text: Seq<char>, from_image: bool, m: Memory|
                item.id == id && #[trigger] item_read_as(item, text, from_image) && m.id == mid && #[trigger] clip_memory_made(m, text, from_image),
    {
        let item = self.get(id)?;
        let (text, from_image) = self.item_text(&item)?;
        let ghost t = text@;
        let input = clip_memory_input(text, from_image);
        let memory = self.memories.create(input)?;
        if let Some(asset_id) = item.asset_id {
            self.links.link("memory", memory.id, "asset", asset_id, "attachment")?;
        }
        assert(item_read_as(item, t, from_image) && clip_memory_made(memory, t, from_image));
        Ok(memory.id)
    }

    /// Deletes every item that is not a favorite; returns how many.
    pub fn clear_non_favorites(&self) -> (r: Result<usize, DomainError>)
        ensures
            r matches Err(e) ==> e is Internal,
    {
        let conn = connect(&self.db)?;
        let params = vec![SqlValue::Text(now_stamp())];
        run(
            &conn,
            "UPDATE clipboard_items SET deleted_at = ?1, updated_at = ?1, revision = revision + 1
             WHERE deleted_at IS NULL AND favorite = 0",
            params.as_slice(),
        )
    }

    /// Whether anything links to the asset.
    fn is_asset_linked(&self, asset_id: EntityId) -> (r: Result<bool, DomainError>)
        ensures
            r matches Err(e) ==> e is Internal,
    {
        self.links.is_referenced("asset", asset_id)
    }

    fn retire(&self, conn: &rusqlite::Connection, id: EntityId, now: &str) -> (r: Result<(), DomainError>)
        ensures
            r matches Err(e) ==> e is Internal,
    {
        let params = vec![text_param(now), id_param(id)];
        run(
            conn,
            "UPDATE clipboard_items SET deleted_at = ?1, updated_at = ?1, revision = revision + 1, asset_id = NULL WHERE id = ?2",
            params.as_slice(),
        )?;
        Ok(())
    }

    /// Keeps the history within its limits: items older than the retention
    /// period go, and then the oldest items beyond the maximum count;
    /// favorites and items whose image something links to are kept.
    /// Orphaned images are then collected.
    pub fn enforce_limits(&self, settings: &ClipboardSettings) -> (r: Result<(), DomainError>)
        ensures
            r matches Err(e) ==> e is Internal,
    {
        let now = now_stamp();
        let conn = connect(&self.db)?;
        if let Some(cutoff) = crate::clock::local_days_ago(settings.retention_days) {
            let params = vec![SqlValue::Text(cutoff)];
            let old = fetch(
                &conn,
                "SELECT id, asset_id FROM clipboard_items WHERE deleted_at IS NULL AND favorite = 0 AND created_at < ?1",
                params.as_slice(),
            )?;
            let candidates = self.retire_candidates(&old)?;
            let victims = retire_plan(&candidates, None);
            self.retire_all(&conn, &victims, now.as_str())?;
        }
        let rows = fetch(&conn, "SELECT COUNT(*) FROM clipboard_items WHERE deleted_at IS NULL", &[])?;
        let total = crate::rows::single_int(&rows)?;
        if let Some((overflow, probe)) = overflow_of(total, settings.max_items) {
            let params = vec![SqlValue::Integer(probe)];
            let oldest = fetch(
                &conn,
                "SELECT id, asset_id FROM clipboard_items WHERE deleted_at IS NULL AND favorite = 0 ORDER BY created_at ASC LIMIT ?1",
                params.as_slice(),
            )?;
            let candidates = self.retire_candidates(&oldest)?;
            let victims = retire_plan(&candidates, Some(overflow));
            self.retire_all(&conn, &victims, now.as_str())?;
        }
        let _ = self.assets.collect_garbage(settings.retention_days);
        Ok(())
    }

    /// Each fetched `(id, asset_id)` row as its id and whether its image is
    /// linked to an entity (and so must be kept).
    fn retire_candidates(&self, rows: &Vec<Vec<SqlValue>>) -> (r: Result<Vec<(EntityId, bool)>, DomainError>)
        ensures
            r matches Ok(v) ==> v@.len() == rows@.len() && forall|i: int| 0 <= i < v@.len() ==> {
                &&& id_cell(rows@[i]@, 0) == Some((#[trigger] v@[i]).0)
                &&& opt_id_cell(rows@[i]@, 1) == Some(None::<EntityId>) ==> !v@[i].1
            },
            r matches Err(e) ==> e is Internal,
    {
        let mut out: Vec<(EntityId, bool)> = Vec::new();
        let mut i: usize = 0;
        while i < rows.len()
            invariant
                i <= rows@.len(),
                out@.len() == i,
                forall|k: int| 0 <= k < i ==> {
                    &&& id_cell(rows@[k]@, 0) == Some((#[trigger] out@[k]).0)
                    &&& opt_id_cell(rows@[k]@, 1) == Some(None::<EntityId>) ==> !out@[k].1
                },
            decreases rows@.len() - i,
        {
            let id = id_at(&rows[i], 0)?;
            let asset = opt_id_at(&rows[i], 1)?;
            let linked = match asset {
                Some(a) => self.is_asset_linked(a)?,
                None => false,
            };
            out.push((id, linked));
            i = i + 1;
        }
        Ok(out)
    }

    fn retire_all(&self, conn: &rusqlite::Connection, ids: &Vec<EntityId>, now: &str) -> (r: Result<(), DomainError>)
        ensures
            r matches Err(e) ==> e is Internal,
    {
        let mut i: usize = 0;
        while i < ids.len()
            invariant
                i <= ids@.len(),
            decreases ids@.len() - i,
        {
            self.retire(conn, ids[i], now)?;
            i = i + 1;
        }
        Ok(())
    }

}

} // verus!
