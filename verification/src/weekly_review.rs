//! The weekly review: a snapshot of what needs attention, and review
//! sessions that record when a review was done.

use vstd::prelude::*;

use crate::ai_model::{app_is_excluded, display_title, excluded_source, texts_of};
use crate::json::decimal;
use crate::text::joined;
use crate::search::clipped;
use crate::clipboard::{ClipboardItem, ClipboardService};
use crate::clock::{local_today, new_id, now_stamp};
use crate::daily_wrap::{inbox_tasks, keep_inbox};
use crate::db::{Database, SqlValue};
use crate::domain::{not_found, str_eq, validation, DomainError};
use crate::ids::EntityId;
use crate::json::JsonValue;
use crate::reminders::{Reminder, ReminderService};
use crate::rows::{id_at, id_cell, id_param, opt_text_at, opt_text_cell, text_at, text_cell, text_param};
use crate::json::stored_doc;
use crate::store::{connect, fetch, run};
use crate::task_model::{opt_view, ListKind, Task, TaskStatus};
use crate::task_query::{SmartListKind, TaskQuery};
use crate::tasks::TaskService;

verus! {

/// What the weekly review shows.
pub struct WeeklyReviewSnapshot {
    pub inbox_unprocessed: Vec<Task>,
    pub inbox_count: i64,
    pub overdue: Vec<Task>,
    pub overdue_count: i64,
    pub waiting_follow_up: Vec<Task>,
    pub waiting_follow_up_count: i64,
    pub stale_active: Vec<Task>,
    pub stale_active_count: i64,
    pub completed_last_7_days: Vec<Task>,
    pub completed_last_7_days_count: i64,
    pub upcoming_recurring_reminders: Vec<Reminder>,
    pub upcoming_recurring_count: i64,
    pub large_clipboard_items: Vec<ClipboardItem>,
    pub large_clipboard_count: i64,
}

/// How many titles of each kind a summary request shows.
pub const SUMMARY_TITLES: usize = 8;

/// The titles of the first (up to) eight tasks.
pub open spec fn task_titles(tasks: Seq<Task>) -> Seq<Seq<char>> {
    let n = if tasks.len() < 8 {
        tasks.len() as int
    } else {
        8
    };
    tasks.take(n).map_values(|t: Task| t.title@)
}

/// A line `\nname：a、b、c`, or nothing when there is nothing to list.
pub open spec fn section_text(name: Seq<char>, parts: Seq<Seq<char>>) -> Seq<char> {
    if parts.len() == 0 {
        Seq::empty()
    } else {
        "\n"@ + name + "："@ + joined(parts, "、"@)
    }
}

/// Whether a clipboard item may be shown to a model.
pub open spec fn clipboard_shown(item: ClipboardItem, excluded_apps: Seq<String>) -> bool {
    match item.source_app {
        Some(app) => !app_is_excluded(app@, excluded_apps),
        None => true,
    }
}

/// The short label of a clipboard item.
pub open spec fn clipboard_label(item: ClipboardItem) -> Seq<char> {
    match item.ocr_text {
        Some(t) => clipped(t@, 20),
        None => clipped(item.content@, 20),
    }
}

/// The labels of the first (up to) eight clipboard items that may be shown.
pub open spec fn clipboard_labels(items: Seq<ClipboardItem>, excluded_apps: Seq<String>) -> Seq<Seq<char>>
    decreases items.len(),
{
    if items.len() == 0 {
        Seq::empty()
    } else {
        let prev = clipboard_labels(items.drop_last(), excluded_apps);
        if prev.len() < 8 && clipboard_shown(items.last(), excluded_apps) {
            prev.push(clipboard_label(items.last()))
        } else {
            prev
        }
    }
}

proof fn lemma_labels_full(items: Seq<ClipboardItem>, excluded_apps: Seq<String>, i: int, j: int)
    requires
        0 <= i <= j <= items.len(),
        clipboard_labels(items.take(i), excluded_apps).len() >= 8,
    ensures
        clipboard_labels(items.take(j), excluded_apps) == clipboard_labels(items.take(i), excluded_apps),
    decreases j - i,
{
    if j > i {
        lemma_labels_full(items, excluded_apps, i, j - 1);
        assert(items.take(j).drop_last() =~= items.take(j - 1));
    }
}

/// The text a weekly summary request shows the model.
pub open spec fn summary_text(snap: WeeklyReviewSnapshot, excluded_apps: Seq<String>) -> Seq<char> {
    "本周统计：收件箱未处理 "@ + decimal(snap.inbox_count as int) + "；逾期 "@ + decimal(snap.overdue_count as int)
        + "；等待/跟进 "@ + decimal(snap.waiting_follow_up_count as int) + "；长期未动 "@ + decimal(
        snap.stale_active_count as int,
    ) + "；近7天完成 "@ + decimal(snap.completed_last_7_days_count as int) + "；周期提醒 "@ + decimal(
        snap.upcoming_recurring_count as int,
    ) + "；大体积剪贴板 "@ + decimal(snap.large_clipboard_count as int) + "。"@ + section_text(
        "收件箱示例"@,
        task_titles(snap.inbox_unprocessed@),
    ) + section_text("逾期示例"@, task_titles(snap.overdue@)) + section_text(
        "等待示例"@,
        task_titles(snap.waiting_follow_up@),
    ) + section_text("近7天完成示例"@, task_titles(snap.completed_last_7_days@)) + section_text(
        "大剪贴板示例"@,
        clipboard_labels(snap.large_clipboard_items@, excluded_apps),
    )
}

fn append_count(out: &mut String, label: &str, n: i64)
    ensures
        final(out)@ == old(out)@ + label@ + decimal(n as int),
{
    out.append(label);
    let t = crate::json::number_text(n);
    out.append(t.as_str());
}

/// Appends the line `\nname：a、b、c` of the parts, or nothing.
fn append_section(out: &mut String, name: &str, parts: &Vec<String>)
    ensures
        final(out)@ == old(out)@ + section_text(name@, texts_of(parts@)),
{
    if parts.len() == 0 {
        assert(texts_of(parts@).len() == 0);
        assert(old(out)@ + Seq::<char>::empty() =~= old(out)@);
        return;
    }
    let ghost base = out@;
    out.append("\n");
    out.append(name);
    out.append("：");
    let ghost head = out@;
    let mut i: usize = 0;
    while i < parts.len()
        invariant
            1 <= parts@.len(),
            i <= parts@.len(),
            out@ == head + joined(texts_of(parts@).take(i as int), "、"@),
        decreases parts@.len() - i,
    {
        let ghost t = texts_of(parts@);
        assert(t.take(i + 1).drop_last() =~= t.take(i as int));
        if i > 0 {
            out.append("、");
        } else {
            assert(joined(t.take(0), "、"@) =~= Seq::<char>::empty());
        }
        out.append(parts[i].as_str());
        proof {
            assert(t.take(i + 1).last() == parts@[i as int]@);
            if i == 0 {
                assert(joined(t.take(1), "、"@) == t.take(1)[0]);
            }
            assert(out@ =~= head + joined(t.take(i + 1), "、"@));
        }
        i = i + 1;
    }
    assert(texts_of(parts@).take(parts@.len() as int) =~= texts_of(parts@));
    assert(out@ =~= base + section_text(name@, texts_of(parts@)));
}

/// The titles of the first (up to) eight tasks.
fn first_titles(tasks: &Vec<Task>) -> (r: Vec<String>)
    ensures
        texts_of(r@) == task_titles(tasks@),
{
    let mut out: Vec<String> = Vec::new();
    let mut i: usize = 0;
    while i < tasks.len() && i < SUMMARY_TITLES
        invariant
            i <= tasks@.len(),
            i <= 8,
            texts_of(out@) =~= tasks@.take(i as int).map_values(|t: Task| t.title@),
        decreases tasks@.len() - i,
    {
        let ghost prev = out@;
        out.push(tasks[i].title.clone());
        proof {
            assert(texts_of(out@) =~= texts_of(prev).push(tasks@[i as int].title@));
            assert(tasks@.take(i + 1).map_values(|t: Task| t.title@) =~= tasks@.take(i as int).map_values(
                |t: Task| t.title@,
            ).push(tasks@[i as int].title@));
        }
        i = i + 1;
    }
    out
}

/// The text a weekly summary request shows the model: the counts, then up
/// to eight titles per section; clipboard items from excluded apps are
/// left out and the others show only a short label.
pub fn summary_context(snap: &WeeklyReviewSnapshot, excluded_apps: &Vec<String>) -> (r: String)
    ensures
        r@ == summary_text(*snap, excluded_apps@),
{
    let mut out = String::new();
    append_count(&mut out, "本周统计：收件箱未处理 ", snap.inbox_count);
    append_count(&mut out, "；逾期 ", snap.overdue_count);
    append_count(&mut out, "；等待/跟进 ", snap.waiting_follow_up_count);
    append_count(&mut out, "；长期未动 ", snap.stale_active_count);
    append_count(&mut out, "；近7天完成 ", snap.completed_last_7_days_count);
    append_count(&mut out, "；周期提醒 ", snap.upcoming_recurring_count);
    append_count(&mut out, "；大体积剪贴板 ", snap.large_clipboard_count);
    out.append("。");
    append_section(&mut out, "收件箱示例", &first_titles(&snap.inbox_unprocessed));
    append_section(&mut out, "逾期示例", &first_titles(&snap.overdue));
    append_section(&mut out, "等待示例", &first_titles(&snap.waiting_follow_up));
    append_section(&mut out, "近7天完成示例", &first_titles(&snap.completed_last_7_days));
    let items = &snap.large_clipboard_items;
    let mut labels: Vec<String> = Vec::new();
    let mut i: usize = 0;
    while i < items.len() && labels.len() < SUMMARY_TITLES
        invariant
            i <= items@.len(),
            texts_of(labels@) == clipboard_labels(items@.take(i as int), excluded_apps@),
        decreases items@.len() - i,
    {
        assert(items@.take(i + 1).drop_last() =~= items@.take(i as int));
        let item = &items[i];
        let keep = match &item.source_app {
            Some(app) => {
                let names = clone_names(excluded_apps);
                assert(texts_of(names@) =~= texts_of(excluded_apps@));
                assert(crate::ai_model::every_exclusion(names@) =~= crate::ai_model::every_exclusion(excluded_apps@));
                !excluded_source(app.as_str(), names)
            },
            None => true,
        };
        assert(keep == clipboard_shown(items@[i as int], excluded_apps@));
        assert(items@.take(i + 1).last() == items@[i as int]);
        if keep {
            let ghost prev = labels@;
            let label = display_title(&item.ocr_text, item.content.as_str());
            assert(label@ == clipboard_label(items@[i as int]));
            labels.push(label);
            assert(texts_of(labels@) =~= texts_of(prev).push(label@));
        }
        i = i + 1;
    }
    proof {
        if i < items@.len() {
            lemma_labels_full(items@, excluded_apps@, i as int, items@.len() as int);
        }
        assert(items@.take(items@.len() as int) =~= items@);
    }
    append_section(&mut out, "大剪贴板示例", &labels);
    out
}

fn clone_names(v: &Vec<String>) -> (r: Vec<String>)
    ensures
        r@.len() == v@.len(),
        forall|i: int| 0 <= i < v@.len() ==> (#[trigger] r@[i])@ == v@[i]@,
{
    let mut out: Vec<String> = Vec::new();
    let mut i: usize = 0;
    while i < v.len()
        invariant
            i <= v@.len(),
            out@.len() == i,
            forall|k: int| 0 <= k < i ==> (#[trigger] out@[k])@ == v@[k]@,
        decreases v@.len() - i,
    {
        out.push(v[i].clone());
        i = i + 1;
    }
    out
}

// ---------------------------------------------------------------------
// Review sessions

/// At most this many items of each section are shown.
pub const PREVIEW_LIMIT: i64 = 10;
/// Days without change after which an open task is stale.
pub const STALE_DAYS: i64 = 14;
/// Days back that count as recently completed.
pub const COMPLETED_LOOKBACK_DAYS: i64 = 7;
/// Days ahead that count as upcoming for recurring reminders.
pub const RECURRING_LOOKAHEAD_DAYS: i64 = 7;
/// Bytes from which a clipboard item counts as large.
pub const LARGE_CLIPBOARD_MIN_BYTES: i64 = 512000;

#[derive(PartialEq, Eq, Structural, Clone, Copy, Debug)]
pub enum ReviewType {
    Weekly,
}

pub open spec fn review_type_text(t: ReviewType) -> Seq<char> {
    match t {
        ReviewType::Weekly => "weekly"@,
    }
}

impl ReviewType {
    pub fn as_str(&self) -> (r: &'static str)
        ensures
            r@ == review_type_text(*self),
    {
        match self {
            ReviewType::Weekly => "weekly",
        }
    }

    pub fn parse(value: &str) -> (r: Result<ReviewType, DomainError>)
        ensures
            r matches Ok(t) ==> review_type_text(t) == value@,
            r is Err ==> forall|t: ReviewType| review_type_text(t) != value@,
            r matches Err(e) ==> e is Validation,
    {
        if str_eq(value, "weekly") {
            Ok(ReviewType::Weekly)
        } else {
            proof {
                assert forall|t: ReviewType| review_type_text(t) != value@ by {
                    match t {
                        ReviewType::Weekly => {},
                    }
                }
            }
            Err(validation("无效的回顾类型"))
        }
    }
}

pub struct ReviewSession {
    pub id: EntityId,
    pub review_type: ReviewType,
    pub started_at: String,
    pub completed_at: Option<String>,
    pub summary: Option<JsonValue>,
    pub created_at: String,
}

pub struct ReviewCompleteInput {
    pub summary: Option<JsonValue>,
}

/// A session row whose columns all have the schema's types, with a known
/// review type and a readable summary.
pub open spec fn session_row_ok(row: Seq<SqlValue>) -> bool {
    &&& id_cell(row, 0) is Some
    &&& exists|t: ReviewType| text_cell(row, 1) == Some(review_type_text(t))
    &&& text_cell(row, 2) is Some
    &&& opt_text_cell(row, 3) is Some
    &&& opt_text_cell(row, 4) is Some
    &&& stored_doc(opt_text_cell(row, 4).unwrap()) is Some
    &&& text_cell(row, 5) is Some
}

fn session_from_row(row: &Vec<SqlValue>) -> (r: Result<ReviewSession, DomainError>)
    ensures
        r is Ok <==> session_row_ok(row@),
        r matches Ok(s) ==> {
            &&& s.id == id_cell(row@, 0).unwrap()
            &&& text_cell(row@, 1) == Some(review_type_text(s.review_type))
            &&& s.started_at@ == text_cell(row@, 2).unwrap()
            &&& opt_text_cell(row@, 3) == Some(opt_view(s.completed_at))
            &&& stored_doc(opt_text_cell(row@, 4).unwrap()) == Some(s.summary)
            &&& s.created_at@ == text_cell(row@, 5).unwrap()
        },
        r matches Err(e) ==> e is Internal,
{
    let id = id_at(row, 0)?;
    let review_type = match ReviewType::parse(text_at(row, 1)?.as_str()) {
        Ok(t) => t,
        Err(_) => return Err(crate::domain::internal_msg("invalid review type")),
    };
    let summary = match opt_text_at(row, 4)? {
        Some(raw) => match crate::json::parse_json(raw.as_str()) {
            Some(v) => Some(v),
            None => return Err(crate::domain::internal_msg("invalid summary json")),
        },
        None => None,
    };
    Ok(
        ReviewSession {
            id,
            review_type,
            started_at: text_at(row, 2)?,
            completed_at: opt_text_at(row, 3)?,
            summary,
            created_at: text_at(row, 5)?,
        },
    )
}

const SESSION_COLUMNS: &'static str = "SELECT id, review_type, started_at, completed_at, summary_json, created_at FROM review_sessions";

/// The first `n` items.
fn first_n<T>(v: Vec<T>, n: usize) -> (r: Vec<T>)
    ensures
        r@ == if v@.len() <= n { v@ } else { v@.take(n as int) },
{
    let ghost all = v@;
    let total = v.len();
    let mut rest = v;
    let mut out: Vec<T> = Vec::new();
    let mut i: usize = 0;
    while rest.len() > 0 && i < n
        invariant
            i + rest@.len() == total,
            all.len() == total,
            rest@ == all.skip(i as int),
            out@ == all.take(i as int),
            i <= n,
        decreases rest@.len(),
    {
        let x = rest.remove(0);
        assert(all.take(i + 1) =~= out@.push(x));
        out.push(x);
        assert(rest@ =~= all.skip(i + 1));
        i = i + 1;
    }
    assert(all.len() <= n ==> all.take(i as int) =~= all);
    out
}

pub struct WeeklyReviewService {
    pub db: Database,
}

impl WeeklyReviewService {
    pub fn new(db: Database) -> (r: Self)
        ensures
            r.db.path@ == db.path@,
    {
        WeeklyReviewService { db }
    }

    /// What the weekly review shows: per section the first 10 items and
    /// the total — the open inbox, overdue tasks, waiting tasks due for
    /// follow-up, open tasks untouched for 14 days, tasks completed in
    /// the last 7 days, recurring reminders of the next 7 days, and large
    /// clipboard items that are not favorites.
    pub fn snapshot(&self, tasks: &TaskService, reminders: &ReminderService, clipboard: &ClipboardService) -> (r:
        Result<WeeklyReviewSnapshot, DomainError>)
        ensures
            r matches Ok(s) ==> s.upcoming_recurring_reminders@.len() <= PREVIEW_LIMIT
                && s.upcoming_recurring_count >= s.upcoming_recurring_reminders@.len()
                && forall|i: int| 0 <= i < s.inbox_unprocessed@.len() ==> (
                #[trigger] s.inbox_unprocessed@[i]).list_kind == ListKind::Inbox,
    {
        let today = local_today();
        let mut q = TaskQuery::default();
        q.status = Some(TaskStatus::Todo);
        q.inbox_only = Some(true);
        q.limit = Some(PREVIEW_LIMIT);
        let inbox_page = tasks.query_tasks(q)?;
        let overdue_page = tasks.smart_list(SmartListKind::Overdue, Some(PREVIEW_LIMIT), None)?;
        let waiting_page = tasks.smart_list(SmartListKind::WaitingFollowUp, Some(PREVIEW_LIMIT), None)?;
        let stale_page = tasks.query_stale_active(STALE_DAYS, Some(PREVIEW_LIMIT), None)?;
        let completed_since = match crate::dates::add_days(today.as_str(), 0 - COMPLETED_LOOKBACK_DAYS) {
            Some(d) => d,
            None => return Err(crate::domain::internal_msg("invalid local today")),
        };
        let mut q = TaskQuery::default();
        q.completed_since = Some(completed_since);
        q.limit = Some(PREVIEW_LIMIT);
        let completed_page = tasks.query_tasks(q)?;
        let upcoming = reminders.upcoming_recurring(RECURRING_LOOKAHEAD_DAYS)?;
        let upcoming_recurring_count: i64 = if upcoming.len() <= 0x7fff_ffff {
            upcoming.len() as i64
        } else {
            0x7fff_ffff
        };
        let upcoming_recurring_reminders = first_n(upcoming, 10);
        let (large_items, large_total) = clipboard.query_large_unfavorited(LARGE_CLIPBOARD_MIN_BYTES, PREVIEW_LIMIT)?;
        Ok(
            WeeklyReviewSnapshot {
                inbox_unprocessed: keep_inbox(inbox_page.items),
                inbox_count: inbox_page.total,
                overdue: overdue_page.items,
                overdue_count: overdue_page.total,
                waiting_follow_up: waiting_page.items,
                waiting_follow_up_count: waiting_page.total,
                stale_active: stale_page.items,
                stale_active_count: stale_page.total,
                completed_last_7_days: completed_page.items,
                completed_last_7_days_count: completed_page.total,
                upcoming_recurring_reminders,
                upcoming_recurring_count,
                large_clipboard_items: large_items,
                large_clipboard_count: large_total,
            },
        )
    }

    /// Starts a review session.
    pub fn start(&self, review_type: ReviewType) -> (r: Result<ReviewSession, DomainError>)
        ensures
            r matches Err(e) ==> e is Internal || e is NotFound,
    {
        let conn = connect(&self.db)?;
        let now = now_stamp();
        let id = new_id();
        let params = vec![id_param(id), text_param(review_type.as_str()), SqlValue::Text(now)];
        run(
            &conn,
            "INSERT INTO review_sessions (id, review_type, started_at, completed_at, summary_json, created_at)
             VALUES (?1, ?2, ?3, NULL, NULL, ?3)",
            params.as_slice(),
        )?;
        self.get(id)
    }

    /// Completes an open session with an optional summary; a session that
    /// is missing or already complete is not found.
    pub fn complete(&self, session_id: EntityId, input: ReviewCompleteInput) -> (r: Result<ReviewSession, DomainError>)
        ensures
            r matches Ok(s) ==> s.id == session_id,
    {
        let conn = connect(&self.db)?;
        let now = now_stamp();
        let summary = match &input.summary {
            Some(v) => SqlValue::Text(crate::json::render_json(v)),
            None => SqlValue::Null,
        };
        let params = vec![SqlValue::Text(now), summary, id_param(session_id)];
        let changed = run(
            &conn,
            "UPDATE review_sessions SET completed_at = ?1, summary_json = ?2
             WHERE id = ?3 AND completed_at IS NULL",
            params.as_slice(),
        )?;
        if changed == 0 {
            return Err(not_found("回顾会话不存在或已完成"));
        }
        self.get(session_id)
    }

    /// The latest completed session of a type, if any.
    pub fn last_completed(&self, review_type: ReviewType) -> (r: Result<Option<ReviewSession>, DomainError>)
        ensures
            r matches Ok(Some(s)) ==> s.review_type == review_type,
            r matches Err(e) ==> e is Internal,
    {
        let conn = connect(&self.db)?;
        let mut sql = SESSION_COLUMNS.to_string();
        sql.append(" WHERE review_type = ?1 AND completed_at IS NOT NULL ORDER BY completed_at DESC LIMIT 1");
        let params = vec![text_param(review_type.as_str())];
        let rows = fetch(&conn, sql.as_str(), params.as_slice())?;
        if rows.len() == 0 {
            return Ok(None);
        }
        let s = session_from_row(&rows[0])?;
        if s.review_type != review_type {
            return Ok(None);
        }
        Ok(Some(s))
    }

    /// A session by id.
    pub fn get(&self, id: EntityId) -> (r: Result<ReviewSession, DomainError>)
        ensures
            r matches Ok(s) ==> s.id == id,
            r matches Err(e) ==> e is Internal || e is NotFound,
    {
        let conn = connect(&self.db)?;
        let mut sql = SESSION_COLUMNS.to_string();
        sql.append(" WHERE id = ?1");
        let params = vec![id_param(id)];
        let rows = fetch(&conn, sql.as_str(), params.as_slice())?;
        let mut i: usize = 0;
        while i < rows.len()
            invariant
                i <= rows@.len(),
            decreases rows@.len() - i,
        {
            match session_from_row(&rows[i]) {
                Ok(s) => {
                    if s.id == id {
                        return Ok(s);
                    }
                },
                Err(_) => return Err(crate::domain::internal_msg("invalid review session row")),
            }
            i = i + 1;
        }
        Err(not_found("回顾会话不存在"))
    }
}

} // verus!
