//! Tasks to and from CSV: export, a preview that checks every row, an
//! import that can be undone as a batch.

use vstd::prelude::*;

use crate::chars::{chars_of, string_of, trim};
use crate::dates::{is_date_text, is_time_text, validate_due_date, validate_due_time};
use crate::db::Database;
use crate::domain::{str_eq, DomainError};
use crate::store::{connect, fetch, run};
use crate::tasks::TaskService;
use crate::fragments::texts_of;
use crate::json::{json_str, JsonValue};
use crate::ids::EntityId;
use crate::memories::ascii_lower;
use crate::task_model::{TaskPriority, TaskStatus};
use crate::tasks::trimmed;

use crate::templates::opt_text;

verus! {

/// Which CSV column feeds each task field.
pub struct CsvFieldMapping {
    pub title: Option<String>,
    pub notes: Option<String>,
    pub status: Option<String>,
    pub priority: Option<String>,
    pub list: Option<String>,
    pub due_date: Option<String>,
    pub due_time: Option<String>,
    pub tags: Option<String>,
}

pub struct CsvRowIssue {
    pub row: i64,
    pub title: Option<String>,
    pub message: String,
}

pub struct CsvSampleRow {
    pub title: String,
    pub list: Option<String>,
    pub due_date: Option<String>,
    pub priority: String,
    pub duplicate: bool,
}

pub struct CsvPreview {
    pub headers: Vec<String>,
    pub mapping: CsvFieldMapping,
    pub row_count: i64,
    pub valid_count: i64,
    pub duplicate_count: i64,
    pub error_count: i64,
    pub errors: Vec<CsvRowIssue>,
    pub duplicates: Vec<CsvRowIssue>,
    pub unmapped_lists: Vec<String>,
    pub sample: Vec<CsvSampleRow>,
}

pub struct CsvImportInput {
    pub csv: String,
    pub skip_duplicates: bool,
    pub mapping: Option<CsvFieldMapping>,
}

pub struct CsvImportResult {
    pub batch_id: EntityId,
    pub created: i64,
    pub skipped: i64,
}

pub struct ImportBatch {
    pub id: EntityId,
    pub source: String,
    pub created: i64,
    pub skipped: i64,
    pub status: String,
    pub created_at: String,
    pub undone_at: Option<String>,
}

pub struct CsvUndoResult {
    pub deleted: i64,
    pub kept: i64,
}

/// A data row made ready for import.
pub struct PreparedRow {
    pub title: String,
    pub notes: Option<String>,
    pub status: TaskStatus,
    pub priority: Option<TaskPriority>,
    pub list_name: Option<String>,
    pub due_date: Option<String>,
    pub due_time: Option<String>,
    pub tags: Option<Vec<String>>,
    pub duplicate: bool,
}

// ---------------------------------------------------------------------
// Text helpers

/// ASCII letters lowered, everything else kept.
pub open spec fn lower_seq(s: Seq<char>) -> Seq<char> {
    s.map_values(|c: char| ascii_lower(c))
}

fn lower_char(c: char) -> (r: char)
    ensures
        r == ascii_lower(c),
{
    if 'A' <= c && c <= 'Z' {
        let u: u8 = (c as u8) + 32;
        u as char
    } else {
        c
    }
}

/// `str::to_ascii_lowercase`.
pub fn ascii_lowercase(s: &str) -> (r: String)
    ensures
        r@ == lower_seq(s@),
{
    let v = chars_of(s);
    let mut out: Vec<char> = Vec::new();
    let mut i: usize = 0;
    while i < v.len()
        invariant
            i <= v@.len(),
            v@ == s@,
            out@ =~= lower_seq(v@.take(i as int)),
        decreases v@.len() - i,
    {
        out.push(lower_char(v[i]));
        i = i + 1;
    }
    assert(v@.take(i as int) =~= v@);
    string_of(out.as_slice())
}

pub open spec fn is_header_filler(c: char) -> bool {
    c == ' ' || c == '-' || c == '_'
}

/// The text without spaces, hyphens and underscores.
pub open spec fn drop_fillers(s: Seq<char>) -> Seq<char>
    decreases s.len(),
{
    if s.len() == 0 {
        s
    } else if is_header_filler(s.last()) {
        drop_fillers(s.drop_last())
    } else {
        drop_fillers(s.drop_last()).push(s.last())
    }
}

/// The key a header is recognized by: trimmed, ASCII-lowered, without
/// spaces, hyphens and underscores.
pub open spec fn header_key(s: Seq<char>) -> Seq<char> {
    drop_fillers(lower_seq(trim(s)))
}

pub fn normalize_header(value: &str) -> (r: String)
    ensures
        r@ == header_key(value@),
{
    let t = trimmed(value);
    let l = ascii_lowercase(t.as_str());
    let v = chars_of(l.as_str());
    let mut out: Vec<char> = Vec::new();
    let mut i: usize = 0;
    while i < v.len()
        invariant
            i <= v@.len(),
            v@ == lower_seq(trim(value@)),
            out@ == drop_fillers(v@.take(i as int)),
        decreases v@.len() - i,
    {
        assert(v@.take(i + 1).drop_last() =~= v@.take(i as int));
        let c = v[i];
        if !(c == ' ' || c == '-' || c == '_') {
            out.push(c);
        }
        i = i + 1;
    }
    assert(v@.take(i as int) =~= v@);
    string_of(out.as_slice())
}

/// Whether a header names a field by one of its aliases.
pub open spec fn matches_alias(h: Seq<char>, aliases: Seq<Seq<char>>) -> bool {
    exists|j: int| 0 <= j < aliases.len() && header_key(h) == header_key(#[trigger] aliases[j])
}

/// The first header, from index `i` on, that one of the aliases names.
pub open spec fn first_matching(headers: Seq<Seq<char>>, aliases: Seq<Seq<char>>, i: int) -> Option<
    Seq<char>,
>
    decreases headers.len() - i,
{
    if i < 0 || i >= headers.len() {
        None
    } else if matches_alias(headers[i], aliases) {
        Some(headers[i])
    } else {
        first_matching(headers, aliases, i + 1)
    }
}

pub open spec fn strs(v: Seq<&str>) -> Seq<Seq<char>> {
    v.map_values(|s: &str| s@)
}

fn alias_matches(key: &str, aliases: &Vec<&str>) -> (r: bool)
    ensures
        r == exists|j: int| 0 <= j < aliases@.len() && key@ == header_key(#[trigger] strs(aliases@)[j]),
{
    let mut j: usize = 0;
    while j < aliases.len()
        invariant
            j <= aliases@.len(),
            forall|q: int| 0 <= q < j ==> key@ != header_key(#[trigger] strs(aliases@)[q]),
        decreases aliases@.len() - j,
    {
        let k = normalize_header(aliases[j]);
        if str_eq(key, k.as_str()) {
            assert(key@ == header_key(strs(aliases@)[j as int]));
            return true;
        }
        j = j + 1;
    }
    false
}

/// The first header that one of the aliases names.
pub fn find_header(headers: &Vec<String>, aliases: &Vec<&str>) -> (r: Option<String>)
    ensures
        opt_text(r) == first_matching(texts_of(headers@), strs(aliases@), 0),
{
    let ghost hs = texts_of(headers@);
    let mut i: usize = 0;
    while i < headers.len()
        invariant
            i <= headers@.len(),
            hs == texts_of(headers@),
            first_matching(hs, strs(aliases@), 0) == first_matching(hs, strs(aliases@), i as int),
        decreases headers@.len() - i,
    {
        let key = normalize_header(headers[i].as_str());
        if alias_matches(key.as_str(), aliases) {
            assert(matches_alias(hs[i as int], strs(aliases@)));
            return Some(headers[i].clone());
        }
        assert(!matches_alias(hs[i as int], strs(aliases@)));
        i = i + 1;
    }
    None
}

pub open spec fn title_aliases() -> Seq<Seq<char>> {
    seq!["title"@, "任务"@, "标题"@, "name"@, "task"@]
}

pub open spec fn notes_aliases() -> Seq<Seq<char>> {
    seq!["notes"@, "备注"@, "说明"@, "description"@, "desc"@]
}

pub open spec fn status_aliases() -> Seq<Seq<char>> {
    seq!["status"@, "状态"@]
}

pub open spec fn priority_aliases() -> Seq<Seq<char>> {
    seq!["priority"@, "优先级"@]
}

pub open spec fn list_aliases() -> Seq<Seq<char>> {
    seq!["list"@, "清单"@, "list_name"@, "listname"@]
}

pub open spec fn due_date_aliases() -> Seq<Seq<char>> {
    seq!["due_date"@, "duedate"@, "due"@, "截止日期"@, "到期"@]
}

pub open spec fn due_time_aliases() -> Seq<Seq<char>> {
    seq!["due_time"@, "duetime"@, "截止时间"@]
}

pub open spec fn tags_aliases() -> Seq<Seq<char>> {
    seq!["tags"@, "标签"@, "tag"@]
}

/// The mapping recognized from the headers: for each field, the first
/// header that one of the field's aliases names.
pub open spec fn detected(headers: Seq<Seq<char>>, m: CsvFieldMapping) -> bool {
    &&& opt_text(m.title) == first_matching(headers, title_aliases(), 0)
    &&& opt_text(m.notes) == first_matching(headers, notes_aliases(), 0)
    &&& opt_text(m.status) == first_matching(headers, status_aliases(), 0)
    &&& opt_text(m.priority) == first_matching(headers, priority_aliases(), 0)
    &&& opt_text(m.list) == first_matching(headers, list_aliases(), 0)
    &&& opt_text(m.due_date) == first_matching(headers, due_date_aliases(), 0)
    &&& opt_text(m.due_time) == first_matching(headers, due_time_aliases(), 0)
    &&& opt_text(m.tags) == first_matching(headers, tags_aliases(), 0)
}

pub fn detect_mapping(headers: &Vec<String>) -> (r: CsvFieldMapping)
    ensures
        detected(texts_of(headers@), r),
{
    let mut a: Vec<&str> = Vec::new();
    a.push("title");
    a.push("任务");
    a.push("标题");
    a.push("name");
    a.push("task");
    assert(strs(a@) =~= title_aliases());
    let title = find_header(headers, &a);
    let mut a: Vec<&str> = Vec::new();
    a.push("notes");
    a.push("备注");
    a.push("说明");
    a.push("description");
    a.push("desc");
    assert(strs(a@) =~= notes_aliases());
    let notes = find_header(headers, &a);
    let mut a: Vec<&str> = Vec::new();
    a.push("status");
    a.push("状态");
    assert(strs(a@) =~= status_aliases());
    let status = find_header(headers, &a);
    let mut a: Vec<&str> = Vec::new();
    a.push("priority");
    a.push("优先级");
    assert(strs(a@) =~= priority_aliases());
    let priority = find_header(headers, &a);
    let mut a: Vec<&str> = Vec::new();
    a.push("list");
    a.push("清单");
    a.push("list_name");
    a.push("listname");
    assert(strs(a@) =~= list_aliases());
    let list = find_header(headers, &a);
    let mut a: Vec<&str> = Vec::new();
    a.push("due_date");
    a.push("duedate");
    a.push("due");
    a.push("截止日期");
    a.push("到期");
    assert(strs(a@) =~= due_date_aliases());
    let due_date = find_header(headers, &a);
    let mut a: Vec<&str> = Vec::new();
    a.push("due_time");
    a.push("duetime");
    a.push("截止时间");
    assert(strs(a@) =~= due_time_aliases());
    let due_time = find_header(headers, &a);
    let mut a: Vec<&str> = Vec::new();
    a.push("tags");
    a.push("标签");
    a.push("tag");
    assert(strs(a@) =~= tags_aliases());
    let tags = find_header(headers, &a);
    CsvFieldMapping { title, notes, status, priority, list, due_date, due_time, tags }
}

// ---------------------------------------------------------------------
// Cell values

/// The status a cell names (ASCII case ignored); an empty cell is `todo`.
pub open spec fn status_of(raw: Seq<char>) -> Option<TaskStatus> {
    let l = lower_seq(raw);
    if raw.len() == 0 {
        Some(TaskStatus::Todo)
    } else if l == "todo"@ || l == "待办"@ || l == "open"@ || l == "incomplete"@ {
        Some(TaskStatus::Todo)
    } else if l == "completed"@ || l == "done"@ || l == "完成"@ || l == "已完成"@ {
        Some(TaskStatus::Completed)
    } else if l == "archived"@ || l == "归档"@ {
        Some(TaskStatus::Archived)
    } else {
        None
    }
}

pub fn parse_status(raw: &str) -> (r: Result<TaskStatus, String>)
    ensures
        match status_of(raw@) {
            Some(s) => r == Ok::<TaskStatus, String>(s),
            None => r matches Err(m) && m@ == "无法识别状态: "@ + lower_seq(raw@),
        },
{
    if raw.is_empty() {
        return Ok(TaskStatus::Todo);
    }
    let l = ascii_lowercase(raw);
    let x = l.as_str();
    if str_eq(x, "todo") || str_eq(x, "待办") || str_eq(x, "open") || str_eq(x, "incomplete") {
        Ok(TaskStatus::Todo)
    } else if str_eq(x, "completed") || str_eq(x, "done") || str_eq(x, "完成") || str_eq(x, "已完成") {
        Ok(TaskStatus::Completed)
    } else if str_eq(x, "archived") || str_eq(x, "归档") {
        Ok(TaskStatus::Archived)
    } else {
        let mut m = "无法识别状态: ".to_string();
        m.append(x);
        Err(m)
    }
}

/// The priority a cell names (ASCII case ignored); an empty cell names
/// none (`Some(None)`), an unknown word is refused (`None`).
pub open spec fn priority_of(raw: Seq<char>) -> Option<Option<TaskPriority>> {
    let l = lower_seq(raw);
    if raw.len() == 0 {
        Some(None)
    } else if l == "none"@ || l == "无"@ || l == "0"@ {
        Some(Some(TaskPriority::Unset))
    } else if l == "low"@ || l == "低"@ || l == "1"@ {
        Some(Some(TaskPriority::Low))
    } else if l == "medium"@ || l == "中"@ || l == "2"@ {
        Some(Some(TaskPriority::Medium))
    } else if l == "high"@ || l == "高"@ || l == "3"@ {
        Some(Some(TaskPriority::High))
    } else {
        None
    }
}

pub fn parse_priority(raw: &str) -> (r: Result<Option<TaskPriority>, String>)
    ensures
        match priority_of(raw@) {
            Some(p) => r == Ok::<Option<TaskPriority>, String>(p),
            None => r matches Err(m) && m@ == "无法识别优先级: "@ + lower_seq(raw@),
        },
{
    if raw.is_empty() {
        return Ok(None);
    }
    let l = ascii_lowercase(raw);
    let x = l.as_str();
    if str_eq(x, "none") || str_eq(x, "无") || str_eq(x, "0") {
        Ok(Some(TaskPriority::Unset))
    } else if str_eq(x, "low") || str_eq(x, "低") || str_eq(x, "1") {
        Ok(Some(TaskPriority::Low))
    } else if str_eq(x, "medium") || str_eq(x, "中") || str_eq(x, "2") {
        Ok(Some(TaskPriority::Medium))
    } else if str_eq(x, "high") || str_eq(x, "高") || str_eq(x, "3") {
        Ok(Some(TaskPriority::High))
    } else {
        let mut m = "无法识别优先级: ".to_string();
        m.append(x);
        Err(m)
    }
}

pub open spec fn is_tag_sep(c: char) -> bool {
    c == ';' || c == ',' || c == '，' || c == '、'
}

/// The pieces of a text split at every tag separator (`str::split`).
pub open spec fn tag_pieces(s: Seq<char>) -> Seq<Seq<char>>
    decreases s.len(),
{
    if s.len() == 0 {
        seq![Seq::<char>::empty()]
    } else {
        let p = tag_pieces(s.drop_last());
        if is_tag_sep(s.last()) {
            p.push(Seq::<char>::empty())
        } else {
            p.update(p.len() - 1, p.last().push(s.last()))
        }
    }
}

pub proof fn lemma_tag_pieces_nonempty(s: Seq<char>)
    ensures
        tag_pieces(s).len() >= 1,
    decreases s.len(),
{
    if s.len() > 0 {
        lemma_tag_pieces_nonempty(s.drop_last());
    }
}

/// The pieces trimmed, empty ones dropped.
pub open spec fn kept_tags(pieces: Seq<Seq<char>>) -> Seq<Seq<char>>
    decreases pieces.len(),
{
    if pieces.len() == 0 {
        Seq::empty()
    } else {
        let k = kept_tags(pieces.drop_last());
        if trim(pieces.last()).len() == 0 {
            k
        } else {
            k.push(trim(pieces.last()))
        }
    }
}

/// The tags of a cell: split at `;`, `,`, `，` or `、`, trimmed, empty
/// ones dropped; none when nothing is left.
pub open spec fn tags_of(raw: Seq<char>) -> Option<Seq<Seq<char>>> {
    let t = kept_tags(tag_pieces(raw));
    if raw.len() == 0 || t.len() == 0 {
        None
    } else {
        Some(t)
    }
}

pub open spec fn opt_texts(v: Option<Vec<String>>) -> Option<Seq<Seq<char>>> {
    match v {
        Some(x) => Some(texts_of(x@)),
        None => None,
    }
}

pub fn parse_tags(raw: &str) -> (r: Option<Vec<String>>)
    ensures
        opt_texts(r) == tags_of(raw@),
{
    let v = chars_of(raw);
    let mut done: Vec<String> = Vec::new();
    let mut cur: Vec<char> = Vec::new();
    let ghost mut completed: Seq<Seq<char>> = Seq::empty();
    let mut i: usize = 0;
    while i < v.len()
        invariant
            i <= v@.len(),
            v@ == raw@,
            tag_pieces(v@.take(i as int)) == completed.push(cur@),
            texts_of(done@) == kept_tags(completed),
        decreases v@.len() - i,
    {
        assert(v@.take(i + 1).drop_last() =~= v@.take(i as int));
        let c = v[i];
        if c == ';' || c == ',' || c == '，' || c == '、' {
            let piece = string_of(cur.as_slice());
            let t = trimmed(piece.as_str());
            proof {
                assert(completed.push(cur@).drop_last() =~= completed);
            }
            if !t.as_str().is_empty() {
                done.push(t);
                assert(texts_of(done@) =~= kept_tags(completed.push(cur@)));
            } else {
                assert(kept_tags(completed.push(cur@)) == kept_tags(completed));
            }
            proof {
                completed = completed.push(cur@);
            }
            cur = Vec::new();
            assert(tag_pieces(v@.take(i + 1)) =~= completed.push(cur@));
        } else {
            let ghost old_cur = cur@;
            cur.push(c);
            assert(tag_pieces(v@.take(i + 1)) =~= completed.push(cur@));
        }
        i = i + 1;
    }
    assert(v@.take(i as int) =~= v@);
    let piece = string_of(cur.as_slice());
    let t = trimmed(piece.as_str());
    proof {
        assert(completed.push(cur@).drop_last() =~= completed);
    }
    if !t.as_str().is_empty() {
        done.push(t);
        assert(texts_of(done@) =~= kept_tags(completed.push(cur@)));
    }
    if raw.is_empty() || done.len() == 0 {
        None
    } else {
        Some(done)
    }
}

/// Where `name` first occurs among the headers, from index `i` on.
pub open spec fn position_in(headers: Seq<Seq<char>>, name: Seq<char>, i: int) -> Option<int>
    decreases headers.len() - i,
{
    if i < 0 || i >= headers.len() {
        None
    } else if headers[i] == name {
        Some(i)
    } else {
        position_in(headers, name, i + 1)
    }
}

pub proof fn lemma_position_in_bounds(headers: Seq<Seq<char>>, name: Seq<char>, i: int)
    ensures
        position_in(headers, name, i) matches Some(k) ==> 0 <= k < headers.len(),
    decreases headers.len() - i,
{
    if 0 <= i < headers.len() && headers[i] != name {
        lemma_position_in_bounds(headers, name, i + 1);
    }
}

/// The trimmed text of the mapped column in a record; empty when the
/// column is not mapped, not among the headers, or missing in the record.
pub open spec fn cell_text(headers: Seq<Seq<char>>, record: Seq<Seq<char>>, header: Option<Seq<char>>) -> Seq<
    char,
> {
    match header {
        None => Seq::empty(),
        Some(name) => match position_in(headers, name, 0) {
            Some(k) => if k < record.len() {
                trim(record[k])
            } else {
                Seq::empty()
            },
            None => Seq::empty(),
        },
    }
}

pub fn cell(headers: &Vec<String>, record: &Vec<String>, header: &Option<String>) -> (r: String)
    ensures
        r@ == cell_text(texts_of(headers@), texts_of(record@), opt_text(*header)),
{
    let name = match header {
        Some(n) => n,
        None => return String::new(),
    };
    let ghost hs = texts_of(headers@);
    let mut i: usize = 0;
    while i < headers.len()
        invariant
            i <= headers@.len(),
            hs == texts_of(headers@),
            opt_text(*header) == Some(name@),
            position_in(hs, name@, 0) == position_in(hs, name@, i as int),
        decreases headers@.len() - i,
    {
        if str_eq(headers[i].as_str(), name.as_str()) {
            assert(hs[i as int] == name@);
            assert(position_in(hs, name@, i as int) == Some(i as int));
            if i < record.len() {
                assert(texts_of(record@)[i as int] == record@[i as int]@);
                return trimmed(record[i].as_str());
            }
            return String::new();
        }
        assert(hs[i as int] != name@);
        i = i + 1;
    }
    String::new()
}

pub open spec fn nonempty_text(s: Seq<char>) -> Option<Seq<char>> {
    if s.len() == 0 {
        None
    } else {
        Some(s)
    }
}

/// The duplicate key of a row: the ASCII-lowered title, `|`, and the due
/// date (empty when there is none).
pub open spec fn dup_key(title: Seq<char>, due: Option<Seq<char>>) -> Seq<char> {
    lower_seq(title) + "|"@ + match due {
        Some(d) => d,
        None => Seq::empty(),
    }
}

/// The due date is part of a row's duplicate key: rows with the same
/// title have the same key only when their due dates are the same (a row
/// without one counts as an empty date), so rows that differ in due date
/// are never duplicates of each other.
pub proof fn law_due_date_tells_rows_apart(title: Seq<char>, d1: Option<Seq<char>>, d2: Option<Seq<char>>)
    ensures
        dup_key(title, d1) == dup_key(title, d2) <==> (match d1 {
            Some(d) => d,
            None => Seq::<char>::empty(),
        }) == (match d2 {
            Some(d) => d,
            None => Seq::<char>::empty(),
        }),
{
    let pre = lower_seq(title) + "|"@;
    let a = match d1 {
        Some(d) => d,
        None => Seq::<char>::empty(),
    };
    let b = match d2 {
        Some(d) => d,
        None => Seq::<char>::empty(),
    };
    assert(dup_key(title, d1) == pre + a);
    assert(dup_key(title, d2) == pre + b);
    if pre + a == pre + b {
        assert((pre + a).skip(pre.len() as int) =~= a);
        assert((pre + b).skip(pre.len() as int) =~= b);
    }
}

/// Rows whose titles differ other than in ASCII case never share a key,
/// and titles that differ only in ASCII case do, for the same due date.
pub proof fn law_title_tells_rows_apart(t1: Seq<char>, t2: Seq<char>, due: Option<Seq<char>>)
    ensures
        dup_key(t1, due) == dup_key(t2, due) <==> lower_seq(t1) == lower_seq(t2),
{
    let d = match due {
        Some(x) => x,
        None => Seq::<char>::empty(),
    };
    let a = lower_seq(t1) + "|"@;
    let b = lower_seq(t2) + "|"@;
    assert(dup_key(t1, due) == a + d);
    assert(dup_key(t2, due) == b + d);
    if a + d == b + d {
        assert(a.len() == b.len());
        assert((a + d).take(a.len() as int) =~= a);
        assert((b + d).take(b.len() as int) =~= b);
        assert(a.take(lower_seq(t1).len() as int) =~= lower_seq(t1));
        assert(b.take(lower_seq(t2).len() as int) =~= lower_seq(t2));
    }
}

pub fn duplicate_key(title: &str, due: &Option<String>) -> (r: String)
    ensures
        r@ == dup_key(title@, opt_text(*due)),
{
    let mut k = ascii_lowercase(title);
    k.append("|");
    match due {
        Some(d) => k.append(d.as_str()),
        None => {},
    }
    k
}

/// The cell of field `f` of a record.
pub open spec fn field_cell(h: Seq<Seq<char>>, rec: Seq<Seq<char>>, f: Option<String>) -> Seq<char> {
    cell_text(h, rec, opt_text(f))
}

/// Why a row cannot be imported, checked in order: a blank title, a bad
/// due date, a bad due time, an unknown status, an unknown priority.
pub open spec fn row_problem(h: Seq<Seq<char>>, rec: Seq<Seq<char>>, m: CsvFieldMapping) -> Option<Seq<char>> {
    let title = field_cell(h, rec, m.title);
    let due = field_cell(h, rec, m.due_date);
    let time = field_cell(h, rec, m.due_time);
    let status = field_cell(h, rec, m.status);
    let priority = field_cell(h, rec, m.priority);
    if title.len() == 0 {
        Some("标题为空"@)
    } else if due.len() > 0 && !is_date_text(due) {
        Some("截止日期格式应为 YYYY-MM-DD"@)
    } else if time.len() > 0 && !is_time_text(time) {
        Some("截止时间格式应为 HH:MM"@)
    } else if status_of(status) is None {
        Some("无法识别状态: "@ + lower_seq(status))
    } else if priority_of(priority) is None {
        Some("无法识别优先级: "@ + lower_seq(priority))
    } else {
        None
    }
}

/// The row made ready: each field from its cell, and whether its
/// duplicate key is among the existing ones.
pub open spec fn prepared_as(p: PreparedRow, h: Seq<Seq<char>>, rec: Seq<Seq<char>>, m: CsvFieldMapping, existing: Seq<
    Seq<char>,
>) -> bool {
    let title = field_cell(h, rec, m.title);
    let due = nonempty_text(field_cell(h, rec, m.due_date));
    &&& p.title@ == title
    &&& opt_text(p.notes) == nonempty_text(field_cell(h, rec, m.notes))
    &&& opt_text(p.due_date) == due
    &&& opt_text(p.due_time) == nonempty_text(field_cell(h, rec, m.due_time))
    &&& status_of(field_cell(h, rec, m.status)) == Some(p.status)
    &&& priority_of(field_cell(h, rec, m.priority)) == Some(p.priority)
    &&& opt_text(p.list_name) == nonempty_text(field_cell(h, rec, m.list))
    &&& opt_texts(p.tags) == tags_of(field_cell(h, rec, m.tags))
    &&& p.duplicate == existing.contains(dup_key(title, due))
}

fn opt_nonempty(s: String) -> (r: Option<String>)
    ensures
        opt_text(r) == nonempty_text(s@),
{
    if s.as_str().is_empty() {
        None
    } else {
        Some(s)
    }
}

fn contains_text_in(v: &Vec<String>, s: &str) -> (r: bool)
    ensures
        r == texts_of(v@).contains(s@),
{
    let mut i: usize = 0;
    while i < v.len()
        invariant
            i <= v@.len(),
            forall|k: int| 0 <= k < i ==> texts_of(v@)[k] != s@,
        decreases v@.len() - i,
    {
        if str_eq(v[i].as_str(), s) {
            assert(texts_of(v@)[i as int] == s@);
            return true;
        }
        i = i + 1;
    }
    false
}

/// Checks one record and makes it ready for import.
pub fn prepare_row(headers: &Vec<String>, record: &Vec<String>, mapping: &CsvFieldMapping, existing: &Vec<String>) -> (r:
    Result<PreparedRow, String>)
    ensures
        match row_problem(texts_of(headers@), texts_of(record@), *mapping) {
            Some(m) => r matches Err(e) && e@ == m,
            None => r matches Ok(p) && prepared_as(p, texts_of(headers@), texts_of(record@), *mapping, texts_of(existing@)),
        },
{
    let title = cell(headers, record, &mapping.title);
    if title.as_str().is_empty() {
        return Err("标题为空".to_string());
    }
    let notes = opt_nonempty(cell(headers, record, &mapping.notes));
    let due_date = opt_nonempty(cell(headers, record, &mapping.due_date));
    if let Some(due) = &due_date {
        if validate_due_date(due.as_str()).is_err() {
            return Err("截止日期格式应为 YYYY-MM-DD".to_string());
        }
    }
    let due_time = opt_nonempty(cell(headers, record, &mapping.due_time));
    if let Some(time) = &due_time {
        if validate_due_time(time.as_str()).is_err() {
            return Err("截止时间格式应为 HH:MM".to_string());
        }
    }
    let status = parse_status(cell(headers, record, &mapping.status).as_str())?;
    let priority = parse_priority(cell(headers, record, &mapping.priority).as_str())?;
    let list_name = opt_nonempty(cell(headers, record, &mapping.list));
    let tags = parse_tags(cell(headers, record, &mapping.tags).as_str());
    let key = duplicate_key(title.as_str(), &due_date);
    let duplicate = contains_text_in(existing, key.as_str());
    Ok(PreparedRow { title, notes, status, priority, list_name, due_date, due_time, tags, duplicate })
}

// ---------------------------------------------------------------------
// CSV text

/// The column headers of an export.
pub const CSV_COLUMNS: [&'static str; 8] = [
    "title",
    "notes",
    "status",
    "priority",
    "list",
    "due_date",
    "due_time",
    "tags",
];

/// A CSV text as read: its header fields and, per data record, its
/// fields or the reason it could not be read.
pub struct CsvTable {
    pub headers: Vec<String>,
    pub rows: Vec<Result<Vec<String>, String>>,
}

pub open spec fn record_view(r: Result<Vec<String>, String>) -> Result<Seq<Seq<char>>, Seq<char>> {
    match r {
        Ok(v) => Ok(texts_of(v@)),
        Err(e) => Err(e@),
    }
}

pub open spec fn table_view(r: Result<CsvTable, String>) -> Result<
    (Seq<Seq<char>>, Seq<Result<Seq<Seq<char>>, Seq<char>>>),
    Seq<char>,
> {
    match r {
        Ok(t) => Ok((texts_of(t.headers@), t.rows@.map_values(|x: Result<Vec<String>, String>| record_view(x)))),
        Err(e) => Err(e@),
    }
}

/// What `csv::Reader` (flexible records, every field trimmed) reads from
/// a text: the headers and the records, or the error met on the headers.
pub uninterp spec fn csv_parse(text: Seq<char>) -> Result<
    (Seq<Seq<char>>, Seq<Result<Seq<Seq<char>>, Seq<char>>>),
    Seq<char>,
>;

/// Reads a CSV text with `csv::ReaderBuilder` (`flexible(true)`,
/// `trim(Trim::All)`): the header record, then every record, each as its
/// fields or the text of its error. The result is named `csv_parse`, a
/// function of the text.
#[verifier::external_body]
fn read_csv(text: &str) -> (r: Result<CsvTable, String>)
    ensures
        table_view(r) == csv_parse(text@),
{
    let mut reader = csv::ReaderBuilder::new().flexible(true).trim(csv::Trim::All).from_reader(text.as_bytes());
    let headers = reader.headers().map_err(|e| e.to_string())?.iter().map(|h| h.to_string()).collect();
    let rows = reader
        .records()
        .map(|r| r.map(|rec| rec.iter().map(|f| f.to_string()).collect()).map_err(|e| e.to_string()))
        .collect();
    Ok(CsvTable { headers, rows })
}

/// The text `csv::Writer` (default settings) writes for one record,
/// line ending included; none when writing fails.
pub uninterp spec fn csv_record_text(fields: Seq<Seq<char>>) -> Option<Seq<char>>;

/// Writes one record with a fresh `csv::Writer` over a byte buffer and
/// returns the text written. The result is named `csv_record_text`.
#[verifier::external_body]
fn csv_record(fields: &Vec<String>) -> (r: Option<String>)
    ensures
        match r {
            Some(s) => csv_record_text(texts_of(fields@)) == Some(s@),
            None => csv_record_text(texts_of(fields@)) is None,
        },
{
    let mut writer = csv::Writer::from_writer(Vec::new());
    writer.write_record(fields.iter()).ok()?;
    String::from_utf8(writer.into_inner().ok()?).ok()
}

/// The records written one after another; none when one fails.
pub open spec fn csv_text(rows: Seq<Seq<Seq<char>>>) -> Option<Seq<char>>
    decreases rows.len(),
{
    if rows.len() == 0 {
        Some(Seq::empty())
    } else {
        match (csv_text(rows.drop_last()), csv_record_text(rows.last())) {
            (Some(a), Some(b)) => Some(a + b),
            _ => None,
        }
    }
}

pub open spec fn rows_view(rows: Seq<Vec<String>>) -> Seq<Seq<Seq<char>>> {
    rows.map_values(|r: Vec<String>| texts_of(r@))
}

/// The CSV text of the rows.
pub fn render_rows(rows: &Vec<Vec<String>>) -> (r: Option<String>)
    ensures
        opt_text(r) == csv_text(rows_view(rows@)),
{
    let mut out = String::new();
    let mut i: usize = 0;
    while i < rows.len()
        invariant
            i <= rows@.len(),
            csv_text(rows_view(rows@).take(i as int)) == Some(out@),
        decreases rows@.len() - i,
    {
        assert(rows_view(rows@).take(i + 1).drop_last() =~= rows_view(rows@).take(i as int));
        assert(rows_view(rows@).take(i + 1).last() == texts_of(rows@[i as int]@));
        match csv_record(&rows[i]) {
            Some(line) => out.append(line.as_str()),
            None => {
                proof {
                    lemma_csv_text_none_extends(rows_view(rows@), i as int + 1);
                }
                return None;
            },
        }
        i = i + 1;
    }
    assert(rows_view(rows@).take(i as int) =~= rows_view(rows@));
    Some(out)
}

pub proof fn lemma_csv_text_none_extends(rows: Seq<Seq<Seq<char>>>, k: int)
    requires
        0 <= k <= rows.len(),
        csv_text(rows.take(k)) is None,
    ensures
        csv_text(rows) is None,
    decreases rows.len() - k,
{
    if k < rows.len() {
        assert(rows.take(k + 1).drop_last() =~= rows.take(k));
        lemma_csv_text_none_extends(rows, k + 1);
    } else {
        assert(rows.take(k) =~= rows);
    }
}

// ---------------------------------------------------------------------
// Checking rows

pub open spec fn record_prepared(
    x: Result<PreparedRow, String>,
    rec: Result<Seq<Seq<char>>, Seq<char>>,
    h: Seq<Seq<char>>,
    m: CsvFieldMapping,
    existing: Seq<Seq<char>>,
) -> bool {
    match rec {
        Err(e) => x matches Err(msg) && msg@ == "无法解析该行: "@ + e,
        Ok(fields) => match row_problem(h, fields, m) {
            Some(p) => x matches Err(msg) && msg@ == p,
            None => x matches Ok(p) && prepared_as(p, h, fields, m, existing),
        },
    }
}

/// At most this many data rows are read.
pub const MAX_IMPORT_ROWS: usize = 5000;

/// Checks every record; more than 5000 records are refused.
pub fn prepare_rows(
    headers: &Vec<String>,
    records: &Vec<Result<Vec<String>, String>>,
    mapping: &CsvFieldMapping,
    existing: &Vec<String>,
) -> (r: Result<Vec<Result<PreparedRow, String>>, DomainError>)
    ensures
        r is Err <==> records@.len() > MAX_IMPORT_ROWS,
        r matches Err(e) ==> e is Validation,
        r matches Ok(v) ==> v@.len() == records@.len() && forall|i: int|
            0 <= i < v@.len() ==> record_prepared(
                #[trigger] v@[i],
                record_view(records@[i]),
                texts_of(headers@),
                *mapping,
                texts_of(existing@),
            ),
{
    if records.len() > MAX_IMPORT_ROWS {
        return Err(crate::domain::validation("超过 5000 行上限"));
    }
    let mut out: Vec<Result<PreparedRow, String>> = Vec::new();
    let mut i: usize = 0;
    while i < records.len()
        invariant
            i <= records@.len(),
            out@.len() == i,
            forall|k: int|
                0 <= k < i ==> record_prepared(
                    #[trigger] out@[k],
                    record_view(records@[k]),
                    texts_of(headers@),
                    *mapping,
                    texts_of(existing@),
                ),
        decreases records@.len() - i,
    {
        match &records[i] {
            Ok(fields) => out.push(prepare_row(headers, fields, mapping, existing)),
            Err(e) => {
                let mut m = "无法解析该行: ".to_string();
                m.append(e.as_str());
                out.push(Err(m));
            },
        }
        i = i + 1;
    }
    Ok(out)
}

// ---------------------------------------------------------------------
// Preview

pub open spec fn n_errors(rows: Seq<Result<PreparedRow, String>>) -> int
    decreases rows.len(),
{
    if rows.len() == 0 {
        0
    } else {
        n_errors(rows.drop_last()) + if rows.last() is Err {
            1int
        } else {
            0int
        }
    }
}

pub open spec fn n_duplicates(rows: Seq<Result<PreparedRow, String>>) -> int
    decreases rows.len(),
{
    if rows.len() == 0 {
        0
    } else {
        n_duplicates(rows.drop_last()) + if rows.last() matches Ok(p) && p.duplicate {
            1int
        } else {
            0int
        }
    }
}

pub open spec fn n_fresh(rows: Seq<Result<PreparedRow, String>>) -> int
    decreases rows.len(),
{
    if rows.len() == 0 {
        0
    } else {
        n_fresh(rows.drop_last()) + if rows.last() matches Ok(p) && !p.duplicate {
            1int
        } else {
            0int
        }
    }
}

pub proof fn lemma_counts(rows: Seq<Result<PreparedRow, String>>)
    ensures
        n_errors(rows) + n_duplicates(rows) + n_fresh(rows) == rows.len(),
        0 <= n_errors(rows),
        0 <= n_duplicates(rows),
        0 <= n_fresh(rows),
    decreases rows.len(),
{
    if rows.len() > 0 {
        lemma_counts(rows.drop_last());
    }
}

/// Whether a lowered list name is among the known lists.
pub open spec fn list_known(keys: Seq<(String, EntityId)>, name: Seq<char>) -> bool {
    exists|i: int| 0 <= i < keys.len() && (#[trigger] keys[i]).0@ == lower_seq(name)
}

/// A list named by a row that no known list matches.
/// Whether a checked row names list `n`.
pub open spec fn names_list(x: Result<PreparedRow, String>, n: Seq<char>) -> bool {
    match x {
        Ok(p) => match p.list_name {
            Some(l) => l@ == n,
            None => false,
        },
        Err(_) => false,
    }
}

pub open spec fn unmapped_name(rows: Seq<Result<PreparedRow, String>>, keys: Seq<(String, EntityId)>, n: Seq<char>) -> bool {
    exists|i: int| 0 <= i < rows.len() && names_list(#[trigger] rows[i], n) && !list_known(keys, n)
}

pub open spec fn sorted_texts(v: Seq<String>) -> bool {
    forall|a: int, b: int| 0 <= a < b < v.len() ==> crate::dates::text_lt(#[trigger] v[a]@, #[trigger] v[b]@)
}

fn is_known(keys: &Vec<(String, EntityId)>, name: &str) -> (r: bool)
    ensures
        r == list_known(keys@, name@),
{
    let l = ascii_lowercase(name);
    let mut i: usize = 0;
    while i < keys.len()
        invariant
            i <= keys@.len(),
            l@ == lower_seq(name@),
            forall|k: int| 0 <= k < i ==> (#[trigger] keys@[k]).0@ != lower_seq(name@),
        decreases keys@.len() - i,
    {
        if str_eq(keys[i].0.as_str(), l.as_str()) {
            return true;
        }
        i = i + 1;
    }
    false
}

/// Adds a text to a sorted list of distinct texts.
pub fn insert_sorted(v: &mut Vec<String>, s: String)
    requires
        sorted_texts(old(v)@),
    ensures
        sorted_texts(final(v)@),
        forall|t: Seq<char>|
            texts_of(final(v)@).contains(t) <==> (texts_of(old(v)@).contains(t) || t == s@),
{
    let ghost before = texts_of(v@);
    let ghost sv = s@;
    let mut p: usize = 0;
    while p < v.len() && crate::dates::str_lt(v[p].as_str(), s.as_str())
        invariant
            p <= v@.len(),
            forall|a: int| 0 <= a < p ==> crate::dates::text_lt(#[trigger] v@[a]@, s@),
        decreases v@.len() - p,
    {
        p = p + 1;
    }
    if p < v.len() && str_eq(v[p].as_str(), s.as_str()) {
        assert(texts_of(v@)[p as int] == s@);
        return;
    }
    proof {
        if p < v@.len() {
            crate::dates::lemma_text_lt_total(v@[p as int]@, s@);
            assert(crate::dates::text_lt(s@, v@[p as int]@));
        }
    }
    let ghost old_v = v@;
    v.insert(p, s);
    assert(v@[p as int]@ == sv);
    proof {
        assert forall|a: int, b: int| 0 <= a < b < v@.len() implies crate::dates::text_lt(
            #[trigger] v@[a]@,
            #[trigger] v@[b]@,
        ) by {
            if b < p {
                assert(v@[a] == old_v[a] && v@[b] == old_v[b]);
            } else if b == p {
                assert(v@[a] == old_v[a]);
            } else if a == p {
                assert(v@[b] == old_v[b - 1]);
                if b - 1 > p {
                    crate::dates::lemma_text_lt_transitive(sv, old_v[p as int]@, old_v[b - 1]@);
                }
            } else if a < p {
                assert(v@[a] == old_v[a] && v@[b] == old_v[b - 1]);
                if b - 1 > p {
                    crate::dates::lemma_text_lt_transitive(sv, old_v[p as int]@, old_v[b - 1]@);
                }
                crate::dates::lemma_text_lt_transitive(old_v[a]@, sv, old_v[b - 1]@);
            } else {
                assert(v@[a] == old_v[a - 1] && v@[b] == old_v[b - 1]);
            }
        }
        assert forall|t: Seq<char>|
            #![trigger texts_of(v@).contains(t)]
            texts_of(v@).contains(t) <==> (before.contains(t) || t == sv) by {
            if texts_of(v@).contains(t) {
                let k = choose|k: int| 0 <= k < texts_of(v@).len() && texts_of(v@)[k] == t;
                if k < p {
                    assert(before[k] == t);
                } else if k > p {
                    assert(before[k - 1] == t);
                }
            }
            if before.contains(t) {
                let k = choose|k: int| 0 <= k < before.len() && before[k] == t;
                if k < p {
                    assert(texts_of(v@)[k] == t);
                } else {
                    assert(texts_of(v@)[k + 1] == t);
                }
            }
            if t == sv {
                assert(texts_of(v@)[p as int] == t);
            }
        }
        assert(before == texts_of(old(v)@));
    }
}

/// The preview of checked rows: counts, the first 20 errors and
/// duplicates, the first 5 importable rows, and the list names that no
/// list matches (sorted, each once).
/// The refusals that come before any row is read: a blank text, a text
/// whose header the reader refuses, no header at all, or a given mapping
/// without a title column.
pub open spec fn csv_front_refused(csv: Seq<char>, mapping: Option<CsvFieldMapping>) -> bool {
    ||| trim(csv).len() == 0
    ||| csv_parse(csv) is Err
    ||| (csv_parse(csv) matches Ok((h, _)) && h.len() == 0)
    ||| (mapping matches Some(g) && g.title is None)
}

/// No title column: none was given and no header names one.
pub open spec fn csv_title_missing(csv: Seq<char>, mapping: Option<CsvFieldMapping>) -> bool {
    &&& mapping is None
    &&& csv_parse(csv) matches Ok((h, _))
    &&& first_matching(h.map_values(|x: Seq<char>| trim(x)), title_aliases(), 0) is None
}

/// More records than one import takes.
pub open spec fn csv_too_long(csv: Seq<char>) -> bool {
    csv_parse(csv) matches Ok((_, recs)) && recs.len() > MAX_IMPORT_ROWS
}

pub open spec fn prepared_with(
    rows: Seq<Result<PreparedRow, String>>,
    recs: Seq<Result<Seq<Seq<char>>, Seq<char>>>,
    h: Seq<Seq<char>>,
    m: CsvFieldMapping,
    existing: Seq<Seq<char>>,
) -> bool {
    rows.len() == recs.len() && forall|i: int| 0 <= i < rows.len() ==> record_prepared(#[trigger] rows[i], recs[i], h, m, existing)
}

/// `rows` are the records of `csv`, each checked against its (trimmed)
/// headers and the mapping, duplicates judged against the tasks there were.
pub open spec fn csv_rows_prepared(csv: Seq<char>, h: Seq<Seq<char>>, rows: Seq<Result<PreparedRow, String>>, m: CsvFieldMapping) -> bool {
    csv_parse(csv) matches Ok((hs, recs)) && h == hs.map_values(|x: Seq<char>| trim(x)) && exists|existing: Seq<Seq<char>>|
        #[trigger] prepared_with(rows, recs, h, m, existing)
}

/// An import of `csv` created one task per fresh row and skipped the
/// duplicates, as its rows were checked.
pub open spec fn imported_from(csv: Seq<char>, created: int, skipped: int) -> bool {
    exists|rows: Seq<Result<PreparedRow, String>>, h: Seq<Seq<char>>, m: CsvFieldMapping|
        #[trigger] csv_rows_prepared(csv, h, rows, m) && created == n_fresh(rows) && skipped == n_duplicates(rows)
}

/// A preview counts the checked rows of `csv` (errors, duplicates, fresh)
/// and shows the first of them.
pub open spec fn preview_counts(csv: Seq<char>, rows: Seq<Result<PreparedRow, String>>, p: CsvPreview) -> bool {
    &&& csv_rows_prepared(csv, texts_of(p.headers@), rows, p.mapping)
    &&& p.row_count == rows.len()
    &&& p.error_count == n_errors(rows)
    &&& p.duplicate_count == n_duplicates(rows)
    &&& p.valid_count == n_fresh(rows)
    &&& p.errors@.map_values(|i: CsvRowIssue| issue_view(i)) == error_issues(rows)
    &&& p.duplicates@.map_values(|i: CsvRowIssue| issue_view(i)) == duplicate_issues(rows)
    &&& p.sample@.map_values(|x: CsvSampleRow| sample_view(x)) == sample_rows(rows)
}

/// How a row issue reads: row number, title, message.
pub open spec fn issue_view(i: CsvRowIssue) -> (i64, Option<Seq<char>>, Seq<char>) {
    (i.row, opt_text(i.title), i.message@)
}

/// How a sample row reads: title, list, due date, priority, duplicate.
pub open spec fn sample_view(s: CsvSampleRow) -> (Seq<char>, Option<Seq<char>>, Option<Seq<char>>, Seq<char>, bool) {
    (s.title@, opt_text(s.list), opt_text(s.due_date), s.priority@, s.duplicate)
}

/// The first twenty rows that could not be read, numbered as in the file
/// (the header is row 1), with their messages.
pub open spec fn error_issues(rows: Seq<Result<PreparedRow, String>>) -> Seq<(i64, Option<Seq<char>>, Seq<char>)>
    decreases rows.len(),
{
    if rows.len() == 0 {
        Seq::empty()
    } else {
        let prev = error_issues(rows.drop_last());
        match rows.last() {
            Err(m) => if prev.len() < 20 {
                prev.push(((rows.len() + 1) as i64, None, m@))
            } else {
                prev
            },
            Ok(_) => prev,
        }
    }
}

/// The first twenty duplicate rows, numbered as in the file, with their
/// titles.
pub open spec fn duplicate_issues(rows: Seq<Result<PreparedRow, String>>) -> Seq<(i64, Option<Seq<char>>, Seq<char>)>
    decreases rows.len(),
{
    if rows.len() == 0 {
        Seq::empty()
    } else {
        let prev = duplicate_issues(rows.drop_last());
        match rows.last() {
            Ok(item) => if item.duplicate && prev.len() < 20 {
                prev.push(((rows.len() + 1) as i64, Some(item.title@), "与现有任务标题和截止日期相同"@))
            } else {
                prev
            },
            Err(_) => prev,
        }
    }
}

/// The first five readable rows as a sample.
pub open spec fn sample_rows(rows: Seq<Result<PreparedRow, String>>) -> Seq<(Seq<char>, Option<Seq<char>>, Option<Seq<char>>, Seq<char>, bool)>
    decreases rows.len(),
{
    if rows.len() == 0 {
        Seq::empty()
    } else {
        let prev = sample_rows(rows.drop_last());
        match rows.last() {
            Ok(item) => if prev.len() < 5 {
                prev.push(
                    (
                        item.title@,
                        opt_text(item.list_name),
                        opt_text(item.due_date),
                        crate::task_model::task_priority_text(
                            match item.priority {
                                Some(p) => p,
                                None => TaskPriority::Unset,
                            },
                        ),
                        item.duplicate,
                    ),
                )
            } else {
                prev
            },
            Err(_) => prev,
        }
    }
}

pub fn summarize(
    headers: Vec<String>,
    mapping: CsvFieldMapping,
    rows: Vec<Result<PreparedRow, String>>,
    keys: &Vec<(String, EntityId)>,
) -> (r: CsvPreview)
    requires
        rows@.len() <= MAX_IMPORT_ROWS,
    ensures
        r.error_count == n_errors(rows@),
        r.duplicate_count == n_duplicates(rows@),
        r.valid_count == n_fresh(rows@),
        r.row_count == rows@.len(),
        r.errors@.len() == if n_errors(rows@) < 20 { n_errors(rows@) } else { 20 },
        r.duplicates@.len() == if n_duplicates(rows@) < 20 { n_duplicates(rows@) } else { 20 },
        r.sample@.len() == if n_duplicates(rows@) + n_fresh(rows@) < 5 {
            n_duplicates(rows@) + n_fresh(rows@)
        } else {
            5
        },
        sorted_texts(r.unmapped_lists@),
        forall|n: Seq<char>| texts_of(r.unmapped_lists@).contains(n) <==> unmapped_name(rows@, keys@, n),
        r.errors@.map_values(|i: CsvRowIssue| issue_view(i)) == error_issues(rows@),
        r.duplicates@.map_values(|i: CsvRowIssue| issue_view(i)) == duplicate_issues(rows@),
        r.sample@.map_values(|x: CsvSampleRow| sample_view(x)) == sample_rows(rows@),
        r.headers == headers,
        r.mapping == mapping,
{
    let mut errors: Vec<CsvRowIssue> = Vec::new();
    let mut duplicates: Vec<CsvRowIssue> = Vec::new();
    let mut sample: Vec<CsvSampleRow> = Vec::new();
    let mut unmapped: Vec<String> = Vec::new();
    let mut valid: i64 = 0;
    let mut dup: i64 = 0;
    let mut err: i64 = 0;
    let mut idx: usize = 0;
    while idx < rows.len()
        invariant
            idx <= rows@.len() <= MAX_IMPORT_ROWS,
            err == n_errors(rows@.take(idx as int)),
            dup == n_duplicates(rows@.take(idx as int)),
            valid == n_fresh(rows@.take(idx as int)),
            err + dup + valid == idx,
            errors@.len() == if err < 20 { err as int } else { 20 },
            duplicates@.len() == if dup < 20 { dup as int } else { 20 },
            sample@.len() == if dup + valid < 5 { (dup + valid) as int } else { 5 },
            sorted_texts(unmapped@),
            forall|n: Seq<char>|
                texts_of(unmapped@).contains(n) <==> unmapped_name(rows@.take(idx as int), keys@, n),
            errors@.map_values(|i: CsvRowIssue| issue_view(i)) == error_issues(rows@.take(idx as int)),
            duplicates@.map_values(|i: CsvRowIssue| issue_view(i)) == duplicate_issues(rows@.take(idx as int)),
            sample@.map_values(|x: CsvSampleRow| sample_view(x)) == sample_rows(rows@.take(idx as int)),
            errors@.len() == error_issues(rows@.take(idx as int)).len(),
            duplicates@.len() == duplicate_issues(rows@.take(idx as int)).len(),
            sample@.len() == sample_rows(rows@.take(idx as int)).len(),
        decreases rows@.len() - idx,
    {
        let ghost e0 = errors@;
        let ghost d0 = duplicates@;
        let ghost s0 = sample@;
        let ghost pre = rows@.take(idx as int);
        let ghost cur = rows@.take(idx + 1);
        assert(cur.drop_last() =~= pre);
        assert(cur.last() == rows@[idx as int]);
        proof {
            lemma_counts(pre);
        }
        let row_no: i64 = (idx as i64) + 2;
        match &rows[idx] {
            Err(message) => {
                err = err + 1;
                if errors.len() < 20 {
                    errors.push(CsvRowIssue { row: row_no, title: None, message: message.clone() });
                }
                proof {
                    assert forall|n: Seq<char>| unmapped_name(cur, keys@, n) <==> unmapped_name(pre, keys@, n) by {
                        if unmapped_name(cur, keys@, n) {
                            let i = choose|i: int| 0 <= i < cur.len() && names_list(#[trigger] cur[i], n) && !list_known(keys@, n);
                            assert(i < pre.len() && pre[i] == cur[i]);
                        }
                        if unmapped_name(pre, keys@, n) {
                            let i = choose|i: int| 0 <= i < pre.len() && names_list(#[trigger] pre[i], n) && !list_known(keys@, n);
                            assert(cur[i] == pre[i]);
                        }
                    }
                }
            },
            Ok(item) => {
                let ghost old_unmapped = texts_of(unmapped@);
                if let Some(name) = &item.list_name {
                    if !is_known(keys, name.as_str()) {
                        insert_sorted(&mut unmapped, name.clone());
                    }
                }
                proof {
                    assert forall|n: Seq<char>|
                        texts_of(unmapped@).contains(n) <==> unmapped_name(cur, keys@, n) by {
                        if unmapped_name(cur, keys@, n) {
                            let i = choose|i: int| 0 <= i < cur.len() && names_list(#[trigger] cur[i], n) && !list_known(keys@, n);
                            if i < pre.len() {
                                assert(pre[i] == cur[i]);
                                assert(unmapped_name(pre, keys@, n));
                            }
                        }
                        if unmapped_name(pre, keys@, n) {
                            let i = choose|i: int| 0 <= i < pre.len() && names_list(#[trigger] pre[i], n) && !list_known(keys@, n);
                            assert(cur[i] == pre[i]);
                        }
                        if texts_of(unmapped@).contains(n) && !old_unmapped.contains(n) {
                            assert(cur[idx as int] == rows@[idx as int]);
                        }
                    }
                }
                if item.duplicate {
                    dup = dup + 1;
                    if duplicates.len() < 20 {
                        duplicates.push(
                            CsvRowIssue {
                                row: row_no,
                                title: Some(item.title.clone()),
                                message: "与现有任务标题和截止日期相同".to_string(),
                            },
                        );
                    }
                } else {
                    valid = valid + 1;
                }
                if sample.len() < 5 {
                    let priority = match item.priority {
                        Some(p) => p,
                        None => TaskPriority::Unset,
                    };
                    sample.push(
                        CsvSampleRow {
                            title: item.title.clone(),
                            list: item.list_name.clone(),
                            due_date: item.due_date.clone(),
                            priority: priority.as_str().to_string(),
                            duplicate: item.duplicate,
                        },
                    );
                }
            },
        }
        proof {
            assert(errors@.map_values(|i: CsvRowIssue| issue_view(i)) =~= error_issues(cur));
            assert(duplicates@.map_values(|i: CsvRowIssue| issue_view(i)) =~= duplicate_issues(cur));
            assert(sample@.map_values(|x: CsvSampleRow| sample_view(x)) =~= sample_rows(cur));
        }
        idx = idx + 1;
    }
    assert(rows@.take(idx as int) =~= rows@);
    CsvPreview {
        headers,
        mapping,
        row_count: valid + dup + err,
        valid_count: valid,
        duplicate_count: dup,
        error_count: err,
        errors,
        duplicates,
        unmapped_lists: unmapped,
        sample,
    }
}

/// Whether an import may go ahead: not with errors, and not with
/// duplicates unless they are to be skipped.
pub fn import_gate(preview: &CsvPreview, skip_duplicates: bool) -> (r: Result<(), DomainError>)
    ensures
        r is Ok <==> !(preview.error_count > 0) && !(preview.duplicate_count > 0 && !skip_duplicates),
        r matches Err(e) ==> e is Validation,
{
    if preview.error_count > 0 {
        let mut m = "CSV 有 ".to_string();
        m.append(crate::json::number_text(preview.error_count).as_str());
        m.append(" 行错误，请修正后再导入");
        return Err(DomainError::Validation(m));
    }
    if preview.duplicate_count > 0 && !skip_duplicates {
        let mut m = "发现 ".to_string();
        m.append(crate::json::number_text(preview.duplicate_count).as_str());
        m.append(" 条重复任务；勾选跳过重复后再导入");
        return Err(DomainError::Validation(m));
    }
    Ok(())
}

// ---------------------------------------------------------------------
// Import

/// The list a row goes to: the last known list whose lowered name equals
/// the row's lowered list name, otherwise the inbox.
pub open spec fn resolved_list(keys: Seq<(String, EntityId)>, name: Option<Seq<char>>, inbox: EntityId) -> EntityId
    decreases keys.len(),
{
    match name {
        None => inbox,
        Some(n) => if keys.len() == 0 {
            inbox
        } else if keys.last().0@ == lower_seq(n) {
            keys.last().1
        } else {
            resolved_list(keys.drop_last(), name, inbox)
        },
    }
}

pub fn resolve_list(keys: &Vec<(String, EntityId)>, name: &Option<String>, inbox: EntityId) -> (r: EntityId)
    ensures
        r == resolved_list(keys@, opt_text(*name), inbox),
{
    let n = match name {
        Some(n) => n,
        None => return inbox,
    };
    let l = ascii_lowercase(n.as_str());
    let mut i = keys.len();
    assert(keys@.take(i as int) =~= keys@);
    while i > 0
        invariant
            i <= keys@.len(),
            l@ == lower_seq(n@),
            opt_text(*name) == Some(n@),
            resolved_list(keys@, opt_text(*name), inbox) == resolved_list(keys@.take(i as int), opt_text(*name), inbox),
        decreases i,
    {
        assert(keys@.take(i as int).drop_last() =~= keys@.take(i - 1));
        assert(keys@.take(i as int).last() == keys@[i - 1]);
        if str_eq(keys[i - 1].0.as_str(), l.as_str()) {
            return keys[i - 1].1;
        }
        i = i - 1;
    }
    assert(keys@.take(0) =~= Seq::<(String, EntityId)>::empty());
    inbox
}

fn copy_text(o: &Option<String>) -> (r: Option<String>)
    ensures
        r == *o,
{
    match o {
        Some(s) => Some(s.clone()),
        None => None,
    }
}

/// An equal mapping.
pub fn copy_mapping(m: &CsvFieldMapping) -> (r: CsvFieldMapping)
    ensures
        r == *m,
{
    CsvFieldMapping {
        title: copy_text(&m.title),
        notes: copy_text(&m.notes),
        status: copy_text(&m.status),
        priority: copy_text(&m.priority),
        list: copy_text(&m.list),
        due_date: copy_text(&m.due_date),
        due_time: copy_text(&m.due_time),
        tags: copy_text(&m.tags),
    }
}

fn text_or_null(o: &Option<String>) -> (r: crate::json::JsonValue) {
    match o {
        Some(s) => crate::json::JsonValue::Str(s.clone()),
        None => crate::json::JsonValue::Null,
    }
}

/// The mapping as a JSON object with camel-case keys.
pub fn mapping_json(m: &CsvFieldMapping) -> (r: crate::json::JsonValue)
    ensures
        r is Object,
{
    crate::json::JsonValue::Object(
        vec![
            ("title".to_string(), text_or_null(&m.title)),
            ("notes".to_string(), text_or_null(&m.notes)),
            ("status".to_string(), text_or_null(&m.status)),
            ("priority".to_string(), text_or_null(&m.priority)),
            ("list".to_string(), text_or_null(&m.list)),
            ("dueDate".to_string(), text_or_null(&m.due_date)),
            ("dueTime".to_string(), text_or_null(&m.due_time)),
            ("tags".to_string(), text_or_null(&m.tags)),
        ],
    )
}

/// The ids of a stored batch: a JSON array of strings; anything else
/// stands for no ids.
pub open spec fn stored_ids(doc: Option<JsonValue>) -> Seq<Seq<char>> {
    match doc {
        Some(JsonValue::Array(a)) => if forall|i: int| 0 <= i < a@.len() ==> #[trigger] json_str(a@[i]) is Some {
            a@.map_values(|x: JsonValue| json_str(x).unwrap())
        } else {
            Seq::empty()
        },
        _ => Seq::empty(),
    }
}

pub fn batch_ids(text: &str) -> (r: Vec<String>)
    ensures
        texts_of(r@) == stored_ids(crate::json::json_parse(text@)),
{
    let parsed = crate::json::parse_json(text);
    let items = match &parsed {
        Some(v) => match v.as_array() {
            Some(items) => items,
            None => {
                let none: Vec<String> = Vec::new();
                assert(texts_of(none@) =~= Seq::<Seq<char>>::empty());
                return none;
            },
        },
        None => {
            let none: Vec<String> = Vec::new();
            assert(texts_of(none@) =~= Seq::<Seq<char>>::empty());
            return none;
        },
    };
    let mut out: Vec<String> = Vec::new();
    let mut i: usize = 0;
    while i < items.len()
        invariant
            i <= items@.len(),
            parsed == crate::json::json_parse(text@),
            parsed == Some(JsonValue::Array(*items)),
            out@.len() == i,
            forall|k: int| 0 <= k < i ==> json_str(#[trigger] items@[k]) == Some(out@[k]@),
        decreases items@.len() - i,
    {
        match items[i].as_str() {
            Some(s) => out.push(s.to_string()),
            None => {
                let none: Vec<String> = Vec::new();
                assert(texts_of(none@) =~= Seq::<Seq<char>>::empty());
                return none;
            },
        }
        i = i + 1;
    }
    assert(texts_of(out@) =~= items@.map_values(|x: JsonValue| json_str(x).unwrap()));
    out
}

fn message_of(e: &DomainError) -> (r: &str) {
    match e {
        DomainError::Validation(m) => m.as_str(),
        DomainError::NotFound(m) => m.as_str(),
        DomainError::Internal(m) => m.as_str(),
    }
}

/// A count kept in a batch's stats document (0 where it is missing or not
/// an integer).
pub open spec fn stats_count(stats: Seq<char>, key: Seq<char>) -> i64 {
    match crate::json::json_parse(stats) {
        Some(d) => match crate::json::json_field(d, key) {
            Some(v) => match crate::json::json_i64(v) {
                Some(n) => n,
                None => 0,
            },
            None => 0,
        },
        None => 0,
    }
}

/// A batch row whose columns all have the schema's types.
pub open spec fn batch_row_ok(row: Seq<crate::db::SqlValue>) -> bool {
    &&& crate::rows::id_cell(row, 0) is Some
    &&& crate::rows::text_cell(row, 1) is Some
    &&& crate::rows::text_cell(row, 2) is Some
    &&& crate::rows::text_cell(row, 3) is Some
    &&& crate::rows::text_cell(row, 4) is Some
    &&& crate::rows::opt_text_cell(row, 5) is Some
}

fn batch_from_row(row: &Vec<crate::db::SqlValue>) -> (r: Result<ImportBatch, DomainError>)
    ensures
        r is Ok <==> batch_row_ok(row@),
        r matches Ok(b) ==> {
            &&& b.id == crate::rows::id_cell(row@, 0).unwrap()
            &&& b.source@ == crate::rows::text_cell(row@, 1).unwrap()
            &&& b.created == stats_count(crate::rows::text_cell(row@, 2).unwrap(), "created"@)
            &&& b.skipped == stats_count(crate::rows::text_cell(row@, 2).unwrap(), "skipped"@)
            &&& b.status@ == crate::rows::text_cell(row@, 3).unwrap()
            &&& b.created_at@ == crate::rows::text_cell(row@, 4).unwrap()
            &&& crate::rows::opt_text_cell(row@, 5) == Some(crate::task_model::opt_view(b.undone_at))
        },
        r matches Err(e) ==> e is Internal,
{
    let id = crate::rows::id_at(row, 0)?;
    let source = crate::rows::text_at(row, 1)?;
    let stats = crate::json::json_or_empty_object(crate::rows::text_at(row, 2)?.as_str());
    let created = match stats.get("created") {
        Some(v) => match v.as_i64() {
            Some(n) => n,
            None => 0,
        },
        None => 0,
    };
    let skipped = match stats.get("skipped") {
        Some(v) => match v.as_i64() {
            Some(n) => n,
            None => 0,
        },
        None => 0,
    };
    let status = crate::rows::text_at(row, 3)?;
    let created_at = crate::rows::text_at(row, 4)?;
    let undone_at = crate::rows::opt_text_at(row, 5)?;
    Ok(ImportBatch { id, source, created, skipped, status, created_at, undone_at })
}

pub struct CsvTaskService {
    pub db: Database,
    pub tasks: TaskService,
}

impl CsvTaskService {
    pub fn new(db: Database) -> (r: Self)
        ensures
            r.db.path@ == db.path@,
    {
        CsvTaskService { tasks: TaskService::new(db.clone()), db }
    }

    /// Every task as CSV: the header record, then per task (oldest
    /// first) its title, notes, status, priority, list, due date, due
    /// time and `;`-joined tags.
    pub fn export_csv(&self) -> (r: Result<String, DomainError>)
        ensures
            r matches Err(e) ==> e is Internal,
            r matches Ok(s) ==> exists|rows: Seq<Seq<Seq<char>>>|
                csv_text(seq![export_header()] + rows) == Some(s@),
    {
        let conn = connect(&self.db)?;
        let rows = fetch(
            &conn,
            "SELECT t.title, COALESCE(t.notes, ''), t.status, t.priority, l.name,
                    COALESCE(t.due_date, ''), COALESCE(t.due_time, ''),
                    COALESCE((SELECT GROUP_CONCAT(tg.name, ';')
                       FROM task_tags tt
                       JOIN tags tg ON tg.id = tt.tag_id
                      WHERE tt.task_id = t.id), '')
             FROM tasks t
             JOIN task_lists l ON l.id = t.list_id
             WHERE t.deleted_at IS NULL
             ORDER BY t.created_at ASC",
            &[],
        )?;
        let mut records: Vec<Vec<String>> = Vec::new();
        let mut header: Vec<String> = Vec::new();
        header.push("title".to_string());
        header.push("notes".to_string());
        header.push("status".to_string());
        header.push("priority".to_string());
        header.push("list".to_string());
        header.push("due_date".to_string());
        header.push("due_time".to_string());
        header.push("tags".to_string());
        assert(texts_of(header@) =~= export_header());
        records.push(header);
        let mut i: usize = 0;
        while i < rows.len()
            invariant
                i <= rows@.len(),
                records@.len() >= 1,
                rows_view(records@)[0] == export_header(),
            decreases rows@.len() - i,
        {
            let mut fields: Vec<String> = Vec::new();
            let mut c: usize = 0;
            while c < 8
                invariant
                    c <= 8,
                    i < rows@.len(),
                decreases 8 - c,
            {
                fields.push(crate::rows::text_at(&rows[i], c)?);
                c = c + 1;
            }
            records.push(fields);
            i = i + 1;
        }
        match render_rows(&records) {
            Some(s) => {
                proof {
                    assert(rows_view(records@) =~= seq![export_header()] + rows_view(records@).skip(1));
                }
                Ok(s)
            },
            None => Err(crate::domain::internal_msg("CSV 写入失败")),
        }
    }

    /// The lists by ASCII-lowered name.
    fn list_name_map(&self) -> (r: Result<Vec<(String, EntityId)>, DomainError>)
        ensures
            r matches Err(e) ==> e is Internal,
    {
        let lists = self.tasks.list_lists()?;
        let mut out: Vec<(String, EntityId)> = Vec::new();
        let mut i: usize = 0;
        while i < lists.len()
            invariant
                i <= lists@.len(),
            decreases lists@.len() - i,
        {
            out.push((ascii_lowercase(lists[i].name.as_str()), lists[i].id));
            i = i + 1;
        }
        Ok(out)
    }

    /// The duplicate keys of the existing tasks.
    fn existing_keys(&self) -> (r: Result<Vec<String>, DomainError>)
        ensures
            r matches Err(e) ==> e is Internal,
    {
        let conn = connect(&self.db)?;
        let rows = fetch(&conn, "SELECT title, due_date FROM tasks WHERE deleted_at IS NULL", &[])?;
        let mut out: Vec<String> = Vec::new();
        let mut i: usize = 0;
        while i < rows.len()
            invariant
                i <= rows@.len(),
            decreases rows@.len() - i,
        {
            let title = crate::rows::text_at(&rows[i], 0)?;
            let due = crate::rows::opt_text_at(&rows[i], 1)?;
            out.push(duplicate_key(title.as_str(), &due));
            i = i + 1;
        }
        Ok(out)
    }

    /// Reads and checks a CSV text: a blank text, unreadable headers, no
    /// headers or no title column are refused; so are more than 5000 rows.
    fn parse_csv(&self, csv: &str, mapping: Option<CsvFieldMapping>) -> (r: Result<
        (Vec<String>, Vec<Result<PreparedRow, String>>, CsvFieldMapping),
        DomainError,
    >)
        ensures
            trim(csv@).len() == 0 ==> r matches Err(DomainError::Validation(_)),
            csv_front_refused(csv@, mapping) ==> r matches Err(DomainError::Validation(_)),
            csv_title_missing(csv@, mapping) ==> r matches Err(DomainError::Validation(_)),
            csv_too_long(csv@) ==> (r matches Err(e) && (e is Validation || e is Internal)),
            r matches Err(DomainError::Validation(_)) ==> csv_front_refused(csv@, mapping) || csv_title_missing(csv@, mapping)
                || csv_too_long(csv@),
            r matches Err(e) ==> e is Validation || e is Internal,
            r matches Ok((h, rows, m)) ==> rows@.len() <= MAX_IMPORT_ROWS && m.title is Some && h@.len() > 0
                && (mapping matches Some(given) ==> m == given)
                && (mapping is None ==> detected(texts_of(h@), m))
                && csv_rows_prepared(csv@, texts_of(h@), rows@, m),
    {
        if crate::ai_model::trim_is_empty(csv) {
            return Err(crate::domain::validation("CSV 为空"));
        }
        let table = match read_csv(csv) {
            Ok(t) => t,
            Err(e) => {
                let mut m = "无法读取表头: ".to_string();
                m.append(e.as_str());
                return Err(DomainError::Validation(m));
            },
        };
        let mut headers: Vec<String> = Vec::new();
        let mut i: usize = 0;
        while i < table.headers.len()
            invariant
                i <= table.headers@.len(),
                headers@.len() == i,
                forall|k: int| 0 <= k < i ==> (#[trigger] headers@[k])@ == trim(table.headers@[k]@),
            decreases table.headers@.len() - i,
        {
            headers.push(trimmed(table.headers[i].as_str()));
            i = i + 1;
        }
        if headers.len() == 0 {
            return Err(crate::domain::validation("CSV 没有表头"));
        }
        proof {
            assert(texts_of(headers@) =~= texts_of(table.headers@).map_values(|x: Seq<char>| trim(x)));
        }
        let mapping = match mapping {
            Some(m) => m,
            None => detect_mapping(&headers),
        };
        if mapping.title.is_none() {
            return Err(crate::domain::validation("未识别标题列（title / 标题 / 任务）"));
        }
        let existing = self.existing_keys()?;
        let prepared = match prepare_rows(&headers, &table.rows, &mapping, &existing) {
            Ok(v) => v,
            Err(e) => {
                assert(table.rows@.map_values(|x: Result<Vec<String>, String>| record_view(x)).len() == table.rows@.len());
                return Err(e);
            },
        };
        proof {
            let recs = table.rows@.map_values(|x: Result<Vec<String>, String>| record_view(x));
            assert forall|k: int| 0 <= k < prepared@.len() implies record_prepared(
                #[trigger] prepared@[k],
                recs[k],
                texts_of(headers@),
                mapping,
                texts_of(existing@),
            ) by {
                assert(recs[k] == record_view(table.rows@[k]));
            }
            assert(prepared_with(prepared@, recs, texts_of(headers@), mapping, texts_of(existing@)));
            assert(csv_parse(csv@) == table_view(Ok(table)));
            assert(csv_parse(csv@) == Ok::<_, Seq<char>>((texts_of(table.headers@), recs)));
            assert(texts_of(headers@) == texts_of(table.headers@).map_values(|x: Seq<char>| trim(x)));
            let hs = csv_parse(csv@)->Ok_0.0;
            let rs = csv_parse(csv@)->Ok_0.1;
            assert(rs == recs);
            assert(texts_of(headers@) == hs.map_values(|x: Seq<char>| trim(x)));
            assert(prepared_with(prepared@, rs, texts_of(headers@), mapping, texts_of(existing@)));
            assert(csv_rows_prepared(csv@, texts_of(headers@), prepared@, mapping));
        }
        Ok((headers, prepared, mapping))
    }

    /// Checks a CSV text without importing anything.
    pub fn preview(&self, csv: &str, mapping: Option<CsvFieldMapping>) -> (r: Result<CsvPreview, DomainError>)
        ensures
            trim(csv@).len() == 0 ==> r matches Err(DomainError::Validation(_)),
            csv_front_refused(csv@, mapping) ==> r matches Err(DomainError::Validation(_)),
            csv_title_missing(csv@, mapping) ==> r matches Err(DomainError::Validation(_)),
            csv_too_long(csv@) ==> (r matches Err(e) && (e is Validation || e is Internal)),
            r matches Err(DomainError::Validation(_)) ==> csv_front_refused(csv@, mapping) || csv_title_missing(csv@, mapping)
                || csv_too_long(csv@),
            r matches Err(e) ==> e is Validation || e is Internal,
            r matches Ok(p) ==> (mapping matches Some(g) ==> p.mapping == g) && (mapping is None ==> detected(
                texts_of(p.headers@),
                p.mapping,
            )) && p.mapping.title is Some,
            r matches Ok(p) ==> exists|rows: Seq<Result<PreparedRow, String>>| #[trigger] preview_counts(csv@, rows, p),
            r matches Ok(p) ==> p.row_count == p.valid_count + p.duplicate_count + p.error_count
                && 0 <= p.error_count && 0 <= p.duplicate_count && 0 <= p.valid_count
                && p.row_count <= MAX_IMPORT_ROWS && p.errors@.len() <= 20 && p.sample@.len() <= 5
                && sorted_texts(p.unmapped_lists@),
    {
        let (headers, prepared, mapping) = self.parse_csv(csv, mapping)?;
        let lists = self.list_name_map()?;
        proof {
            lemma_counts(prepared@);
        }
        let ghost rows = prepared@;
        let p = summarize(headers, mapping, prepared, &lists);
        assert(preview_counts(csv@, rows, p));
        Ok(p)
    }

    /// Imports a CSV text as one batch: refused while the preview shows
    /// errors, or duplicates that are not to be skipped. Each importable
    /// row becomes a task in its list (or the inbox), completed or
    /// archived as its status says; a failed creation rolls back the
    /// tasks created so far.
    pub fn import(&self, input: CsvImportInput) -> (r: Result<CsvImportResult, DomainError>)
        ensures
            trim(input.csv@).len() == 0 ==> r matches Err(DomainError::Validation(_)),
            r matches Ok(res) ==> 0 <= res.created && 0 <= res.skipped && res.created + res.skipped <= MAX_IMPORT_ROWS,
            r matches Ok(res) ==> imported_from(input.csv@, res.created as int, res.skipped as int),
            csv_front_refused(input.csv@, input.mapping) ==> r matches Err(DomainError::Validation(_)),
            csv_title_missing(input.csv@, input.mapping) ==> r matches Err(DomainError::Validation(_)),
            csv_too_long(input.csv@) ==> r is Err,
    {
        let preview = match self.preview(
            input.csv.as_str(),
            match &input.mapping {
                Some(m) => Some(copy_mapping(m)),
                None => None,
            },
        ) {
            Ok(p) => p,
            Err(e) => return Err(e),
        };
        import_gate(&preview, input.skip_duplicates)?;
        let (_, prepared, mapping) = self.parse_csv(input.csv.as_str(), input.mapping)?;
        let lists = self.list_name_map()?;
        let inbox = self.tasks.inbox_list_id()?;
        let mut created_ids: Vec<EntityId> = Vec::new();
        let mut skipped: i64 = 0;
        let mut i: usize = 0;
        while i < prepared.len()
            invariant
                i <= prepared@.len() <= MAX_IMPORT_ROWS,
                trim(input.csv@).len() > 0,
                created_ids@.len() + skipped <= i,
                0 <= skipped,
                !csv_front_refused(input.csv@, input.mapping),
                !csv_title_missing(input.csv@, input.mapping),
                !csv_too_long(input.csv@),
                created_ids@.len() == n_fresh(prepared@.take(i as int)),
                skipped == n_duplicates(prepared@.take(i as int)),
            decreases prepared@.len() - i,
        {
            proof {
                assert(prepared@.take(i + 1).drop_last() =~= prepared@.take(i as int));
                assert(prepared@.take(i + 1).last() == prepared@[i as int]);
            }
            if let Ok(item) = &prepared[i] {
                if item.duplicate {
                    skipped = skipped + 1;
                } else {
                    let list_id = resolve_list(&lists, &item.list_name, inbox);
                    let input = crate::task_model::CreateTaskInput {
                        title: item.title.clone(),
                        notes: copy_text(&item.notes),
                        priority: item.priority,
                        list_id: Some(list_id),
                        due_date: copy_text(&item.due_date),
                        due_time: copy_text(&item.due_time),
                        tag_names: match &item.tags {
                            Some(t) => Some(t.clone()),
                            None => None,
                        },
                    };
                    match self.tasks.create_task(input) {
                        Ok(task) => {
                            if item.status == TaskStatus::Completed {
                                let _ = self.tasks.complete_task(task.id);
                            } else if item.status == TaskStatus::Archived {
                                let _ = self.tasks.archive_task(task.id);
                            }
                            created_ids.push(task.id);
                        },
                        Err(err) => {
                            let mut j: usize = 0;
                            while j < created_ids.len()
                                invariant
                                    j <= created_ids@.len(),
                                decreases created_ids@.len() - j,
                            {
                                let _ = self.tasks.delete_task(created_ids[j]);
                                j = j + 1;
                            }
                            let mut m = "导入中断，已回滚：".to_string();
                            m.append(crate::fragments::first_chars(message_of(&err), 240).as_str());
                            return Err(DomainError::Internal(m));
                        },
                    }
                }
            }
            i = i + 1;
        }
        let created = created_ids.len() as i64;
        proof {
            assert(prepared@.take(prepared@.len() as int) =~= prepared@);
        }
        let batch_id = self.record_batch(&mapping, created, skipped, &created_ids)?;
        Ok(CsvImportResult { batch_id, created, skipped })
    }

    fn record_batch(&self, mapping: &CsvFieldMapping, created: i64, skipped: i64, ids: &Vec<EntityId>) -> (r:
        Result<EntityId, DomainError>)
        ensures
            r matches Err(e) ==> e is Internal,
    {
        let id = crate::clock::new_id();
        let now = crate::clock::now_stamp();
        let mapping_text = crate::json::render_json(&mapping_json(mapping));
        let stats = crate::json::JsonValue::Object(
            vec![
                ("created".to_string(), crate::json::JsonValue::Number(crate::json::number_text(created))),
                ("skipped".to_string(), crate::json::JsonValue::Number(crate::json::number_text(skipped))),
            ],
        );
        let stats_text = crate::json::render_json(&stats);
        let mut items: Vec<crate::json::JsonValue> = Vec::new();
        let mut i: usize = 0;
        while i < ids.len()
            invariant
                i <= ids@.len(),
            decreases ids@.len() - i,
        {
            items.push(crate::json::JsonValue::Str(crate::ids::format_id(ids[i])));
            i = i + 1;
        }
        let ids_text = crate::json::render_json(&crate::json::JsonValue::Array(items));
        let conn = connect(&self.db)?;
        let params = vec![
            crate::rows::id_param(id),
            crate::db::SqlValue::Text(mapping_text),
            crate::db::SqlValue::Text(stats_text),
            crate::db::SqlValue::Text(ids_text),
            crate::db::SqlValue::Text(now),
        ];
        run(
            &conn,
            "INSERT INTO import_batches
             (id, source, mapping_json, stats_json, task_ids_json, status, created_at, undone_at)
             VALUES (?1, 'csv', ?2, ?3, ?4, 'applied', ?5, NULL)",
            params.as_slice(),
        )?;
        Ok(id)
    }

    /// The 20 latest import batches, newest first.
    pub fn list_batches(&self) -> (r: Result<Vec<ImportBatch>, DomainError>)
        ensures
            r matches Err(e) ==> e is Internal,
            r matches Ok(v) ==> v@.len() <= 20,
    {
        let conn = connect(&self.db)?;
        let rows = fetch(
            &conn,
            "SELECT id, source, stats_json, status, created_at, undone_at
             FROM import_batches ORDER BY created_at DESC LIMIT 20",
            &[],
        )?;
        let mut out: Vec<ImportBatch> = Vec::new();
        let mut i: usize = 0;
        while i < rows.len() && i < 20
            invariant
                i <= rows@.len(),
                out@.len() == i,
                i <= 20,
            decreases rows@.len() - i,
        {
            out.push(batch_from_row(&rows[i])?);
            i = i + 1;
        }
        Ok(out)
    }

    /// Undoes an applied batch: each of its tasks still unchanged since
    /// the import (revision at most 2) is deleted, the others are kept;
    /// the batch is marked undone.
    pub fn undo_batch(&self, id: EntityId) -> (r: Result<CsvUndoResult, DomainError>)
        ensures
            r matches Ok(u) ==> 0 <= u.deleted && 0 <= u.kept,
    {
        let conn = connect(&self.db)?;
        let params = vec![crate::rows::id_param(id)];
        let rows = fetch(
            &conn,
            "SELECT status, task_ids_json FROM import_batches WHERE id = ?1",
            params.as_slice(),
        )?;
        if rows.len() == 0 {
            return Err(crate::domain::not_found("导入批次不存在"));
        }
        let status = crate::rows::text_at(&rows[0], 0)?;
        let ids_text = crate::rows::text_at(&rows[0], 1)?;
        if !str_eq(status.as_str(), "applied") {
            return Err(crate::domain::validation("该批次已撤销或不可撤销"));
        }
        let ids = batch_ids(ids_text.as_str());
        let mut deleted: i64 = 0;
        let mut kept: i64 = 0;
        let mut i: usize = 0;
        while i < ids.len() && deleted < i64::MAX && kept < i64::MAX
            invariant
                i <= ids@.len(),
                0 <= deleted,
                0 <= kept,
            decreases ids@.len() - i,
        {
            match crate::ids::parse_id(ids[i].as_str()) {
                Some(task_id) => match self.tasks.get_task(task_id) {
                    Ok(task) => {
                        if task.revision <= 2 {
                            self.tasks.delete_task(task_id)?;
                            deleted = deleted + 1;
                        } else {
                            kept = kept + 1;
                        }
                    },
                    Err(_) => {
                        kept = kept + 1;
                    },
                },
                None => {
                    kept = kept + 1;
                },
            }
            i = i + 1;
        }
        let params = vec![crate::db::SqlValue::Text(crate::clock::now_stamp()), crate::rows::id_param(id)];
        run(&conn, "UPDATE import_batches SET status = 'undone', undone_at = ?1 WHERE id = ?2", params.as_slice())?;
        Ok(CsvUndoResult { deleted, kept })
    }
}

/// The header record of an export.
pub open spec fn export_header() -> Seq<Seq<char>> {
    seq!["title"@, "notes"@, "status"@, "priority"@, "list"@, "due_date"@, "due_time"@, "tags"@]
}

} // verus!
