//! The daily wrap-up: a snapshot of how the day ends, and the record of
//! each wrap-up run.

use vstd::prelude::*;

use crate::clock::{local_today, new_id, now_stamp};
use crate::dates::is_date_text;
use crate::db::{Database, SqlValue};
use crate::domain::{not_found, validation, DomainError};
use crate::ids::EntityId;
use crate::json::JsonValue;
use crate::reminders::ReminderService;
use crate::rows::{
    id_at, id_cell, id_param, int_at, int_cell, opt_text_at, opt_text_cell, text_at, text_cell, text_param,
};
use crate::json::stored_doc;
use crate::store::{connect, fetch, run};
use crate::task_model::{opt_view, ListKind, Task, TaskStatus};
use crate::task_query::TaskQuery;
use crate::task_rules::{nonblank, opt_str_view, trim_nonblank};
use crate::tasks::TaskService;

verus! {

pub struct DailyWrapSnapshot {
    pub wrap_date: String,
    pub unfinished_focus: Vec<Task>,
    pub tomorrow_due: Vec<Task>,
    pub inbox_unprocessed: Vec<Task>,
    pub completed_today_count: i64,
    pub reminders_today_count: i64,
}

pub struct DailyWrapRun {
    pub id: EntityId,
    pub wrap_date: String,
    pub started_at: String,
    pub completed_at: Option<String>,
    pub steps_completed: i64,
    pub summary: Option<JsonValue>,
    pub created_at: String,
}

pub struct DailyWrapCompleteInput {
    pub steps_completed: i64,
    pub summary: Option<JsonValue>,
}

/// The open tasks, in order.
pub open spec fn open_tasks(s: Seq<Task>) -> Seq<Task>
    decreases s.len(),
{
    if s.len() == 0 {
        s
    } else if s.last().status == TaskStatus::Todo {
        open_tasks(s.drop_last()).push(s.last())
    } else {
        open_tasks(s.drop_last())
    }
}

/// The tasks in the inbox, in order.
pub open spec fn inbox_tasks(s: Seq<Task>) -> Seq<Task>
    decreases s.len(),
{
    if s.len() == 0 {
        s
    } else if s.last().list_kind == ListKind::Inbox {
        inbox_tasks(s.drop_last()).push(s.last())
    } else {
        inbox_tasks(s.drop_last())
    }
}

pub fn keep_open(v: Vec<Task>) -> (r: Vec<Task>)
    ensures
        r@ == open_tasks(v@),
        forall|i: int| 0 <= i < r@.len() ==> (#[trigger] r@[i]).status == TaskStatus::Todo,
{
    proof {
        lemma_open_tasks_open(v@);
    }
    let ghost all = v@;
    let total = v.len();
    let mut rest = v;
    let mut out: Vec<Task> = Vec::new();
    let mut i: usize = 0;
    while rest.len() > 0
        invariant
            i + rest@.len() == all.len(),
            all.len() == total,
            rest@ == all.skip(i as int),
            out@ == open_tasks(all.take(i as int)),
        decreases rest@.len(),
    {
        let t = rest.remove(0);
        assert(all.take(i + 1).drop_last() =~= all.take(i as int));
        assert(all.take(i + 1).last() == t);
        if t.status == TaskStatus::Todo {
            out.push(t);
        }
        assert(rest@ =~= all.skip(i + 1));
        i = i + 1;
    }
    assert(all.take(i as int) =~= all);
    out
}

pub fn keep_inbox(v: Vec<Task>) -> (r: Vec<Task>)
    ensures
        r@ == inbox_tasks(v@),
        forall|i: int| 0 <= i < r@.len() ==> (#[trigger] r@[i]).list_kind == ListKind::Inbox,
{
    proof {
        lemma_inbox_tasks_inbox(v@);
    }
    let ghost all = v@;
    let total = v.len();
    let mut rest = v;
    let mut out: Vec<Task> = Vec::new();
    let mut i: usize = 0;
    while rest.len() > 0
        invariant
            i + rest@.len() == all.len(),
            all.len() == total,
            rest@ == all.skip(i as int),
            out@ == inbox_tasks(all.take(i as int)),
        decreases rest@.len(),
    {
        let t = rest.remove(0);
        assert(all.take(i + 1).drop_last() =~= all.take(i as int));
        assert(all.take(i + 1).last() == t);
        if t.list_kind == ListKind::Inbox {
            out.push(t);
        }
        assert(rest@ =~= all.skip(i + 1));
        i = i + 1;
    }
    assert(all.take(i as int) =~= all);
    out
}

/// The date a wrap-up is for: today when none (or a blank one) is given,
/// otherwise the given date, trimmed, which must be a valid date.
pub fn normalize_wrap_date(wrap_date: &Option<String>, today: &str) -> (r: Result<String, DomainError>)
    ensures
        match nonblank(opt_str_view(*wrap_date)) {
            None => r matches Ok(d) && d@ == today@,
            Some(d) => (r is Ok <==> is_date_text(d)) && (r matches Ok(x) ==> x@ == d) && (
            r matches Err(e) ==> e is Validation),
        },
{
    match trim_nonblank(wrap_date) {
        None => Ok(today.to_string()),
        Some(d) => {
            if !crate::dates::is_date(d.as_str()) {
                return Err(validation("wrapDate must be YYYY-MM-DD"));
            }
            Ok(d)
        },
    }
}

fn summary_text(summary: &Option<JsonValue>) -> (r: SqlValue) {
    match summary {
        Some(v) => SqlValue::Text(crate::json::render_json(v)),
        None => SqlValue::Null,
    }
}

/// A wrap-up row whose columns all have the schema's types, with a
/// readable summary.
pub open spec fn wrap_row_ok(row: Seq<SqlValue>) -> bool {
    &&& id_cell(row, 0) is Some
    &&& text_cell(row, 1) is Some
    &&& text_cell(row, 2) is Some
    &&& opt_text_cell(row, 3) is Some
    &&& int_cell(row, 4) is Some
    &&& opt_text_cell(row, 5) is Some
    &&& stored_doc(opt_text_cell(row, 5).unwrap()) is Some
    &&& text_cell(row, 6) is Some
}

fn run_from_row(row: &Vec<SqlValue>) -> (r: Result<DailyWrapRun, DomainError>)
    ensures
        r is Ok <==> wrap_row_ok(row@),
        r matches Ok(w) ==> {
            &&& w.id == id_cell(row@, 0).unwrap()
            &&& w.wrap_date@ == text_cell(row@, 1).unwrap()
            &&& w.started_at@ == text_cell(row@, 2).unwrap()
            &&& opt_text_cell(row@, 3) == Some(opt_view(w.completed_at))
            &&& w.steps_completed == int_cell(row@, 4).unwrap()
            &&& stored_doc(opt_text_cell(row@, 5).unwrap()) == Some(w.summary)
            &&& w.created_at@ == text_cell(row@, 6).unwrap()
        },
        r matches Err(e) ==> e is Internal,
{
    let id = id_at(row, 0)?;
    let summary = match opt_text_at(row, 5)? {
        Some(raw) => match crate::json::parse_json(raw.as_str()) {
            Some(v) => Some(v),
            None => return Err(crate::domain::internal_msg("invalid summary json")),
        },
        None => None,
    };
    Ok(
        DailyWrapRun {
            id,
            wrap_date: text_at(row, 1)?,
            started_at: text_at(row, 2)?,
            completed_at: opt_text_at(row, 3)?,
            steps_completed: int_at(row, 4)?,
            summary,
            created_at: text_at(row, 6)?,
        },
    )
}

const RUN_COLUMNS: &'static str = "SELECT id, wrap_date, started_at, completed_at, steps_completed, summary_json, created_at FROM daily_wrap_runs";

pub struct DailyWrapService {
    pub db: Database,
}

impl DailyWrapService {
    pub fn new(db: Database) -> (r: Self)
        ensures
            r.db.path@ == db.path@,
    {
        DailyWrapService { db }
    }

    /// How a day ends: its unfinished focus tasks, tomorrow's open tasks,
    /// the open inbox, and how many tasks were completed and reminders
    /// are due today (as the task service's day view lists them).
    pub fn snapshot(&self, tasks: &TaskService, reminders: &ReminderService, wrap_date: Option<String>) -> (r:
        Result<DailyWrapSnapshot, DomainError>)
        ensures
            r matches Ok(s) ==> (forall|i: int| 0 <= i < s.unfinished_focus@.len() ==> (#[trigger] s.unfinished_focus@[i]).status
                == TaskStatus::Todo) && (forall|i: int| 0 <= i < s.inbox_unprocessed@.len() ==> (
            #[trigger] s.inbox_unprocessed@[i]).list_kind == ListKind::Inbox) && s.completed_today_count >= 0
                && s.reminders_today_count == 0,
            nonblank(opt_str_view(wrap_date)) matches Some(d) && !is_date_text(d) ==> r is Err,
    {
        let today = local_today();
        let wrap_date = normalize_wrap_date(&wrap_date, today.as_str())?;
        let tomorrow = match crate::dates::add_days(today.as_str(), 1) {
            Some(t) => t,
            None => return Err(crate::domain::internal_msg("invalid local today")),
        };
        let _ = reminders;
        let view = tasks.today_tasks()?;
        let completed_today_count: i64 = if view.completed_today.len() <= 0x7fff_ffff {
            view.completed_today.len() as i64
        } else {
            0x7fff_ffff
        };
        let unfinished_focus = keep_open(view.focus);
        let mut q = TaskQuery::default();
        q.status = Some(TaskStatus::Todo);
        q.due_from = Some(tomorrow.clone());
        q.due_to = Some(tomorrow);
        q.limit = Some(100);
        let tomorrow_due = tasks.query_tasks(q)?.items;
        let mut q = TaskQuery::default();
        q.status = Some(TaskStatus::Todo);
        q.inbox_only = Some(true);
        q.limit = Some(50);
        let inbox_unprocessed = keep_inbox(tasks.query_tasks(q)?.items);
        let reminders_today_count: i64 = if view.reminders_today.len() <= 0x7fff_ffff {
            view.reminders_today.len() as i64
        } else {
            0x7fff_ffff
        };
        Ok(
            DailyWrapSnapshot {
                wrap_date,
                unfinished_focus,
                tomorrow_due,
                inbox_unprocessed,
                completed_today_count,
                reminders_today_count,
            },
        )
    }

    /// Starts a wrap-up run for a date (today by default).
    pub fn start(&self, wrap_date: Option<String>) -> (r: Result<DailyWrapRun, DomainError>)
        ensures
            nonblank(opt_str_view(wrap_date)) matches Some(d) && !is_date_text(d) ==> r is Err,
    {
        let today = local_today();
        let date = normalize_wrap_date(&wrap_date, today.as_str())?;
        let conn = connect(&self.db)?;
        let now = now_stamp();
        let id = new_id();
        let params = vec![id_param(id), SqlValue::Text(date), SqlValue::Text(now)];
        run(
            &conn,
            "INSERT INTO daily_wrap_runs (id, wrap_date, started_at, completed_at, steps_completed, summary_json, created_at)
             VALUES (?1, ?2, ?3, NULL, 0, NULL, ?3)",
            params.as_slice(),
        )?;
        self.get(id)
    }

    /// Completes an open run with how many steps were done and an optional
    /// summary; a run that is missing or already complete is not found.
    pub fn complete(&self, run_id: EntityId, input: DailyWrapCompleteInput) -> (r: Result<DailyWrapRun, DomainError>)
        ensures
            r matches Ok(w) ==> w.id == run_id,
    {
        let conn = connect(&self.db)?;
        let now = now_stamp();
        let params = vec![
            SqlValue::Text(now),
            SqlValue::Integer(input.steps_completed),
            summary_text(&input.summary),
            id_param(run_id),
        ];
        let changed = run(
            &conn,
            "UPDATE daily_wrap_runs SET completed_at = ?1, steps_completed = ?2, summary_json = ?3
             WHERE id = ?4 AND completed_at IS NULL",
            params.as_slice(),
        )?;
        if changed == 0 {
            return Err(not_found("收尾记录不存在或已完成"));
        }
        self.get(run_id)
    }

    /// The latest completed run for a date (today by default), if any.
    pub fn completed_for_date(&self, wrap_date: Option<String>) -> (r: Result<Option<DailyWrapRun>, DomainError>)
        ensures
            nonblank(opt_str_view(wrap_date)) matches Some(d) && !is_date_text(d) ==> r is Err,
    {
        let today = local_today();
        let date = normalize_wrap_date(&wrap_date, today.as_str())?;
        let conn = connect(&self.db)?;
        let mut sql = RUN_COLUMNS.to_string();
        sql.append(" WHERE wrap_date = ?1 AND completed_at IS NOT NULL ORDER BY completed_at DESC LIMIT 1");
        let params = vec![SqlValue::Text(date)];
        let rows = fetch(&conn, sql.as_str(), params.as_slice())?;
        if rows.len() == 0 {
            return Ok(None);
        }
        Ok(Some(run_from_row(&rows[0])?))
    }

    /// A run by id.
    pub fn get(&self, id: EntityId) -> (r: Result<DailyWrapRun, DomainError>)
        ensures
            r matches Ok(w) ==> w.id == id,
    {
        let conn = connect(&self.db)?;
        let mut sql = RUN_COLUMNS.to_string();
        sql.append(" WHERE id = ?1");
        let params = vec![id_param(id)];
        let rows = fetch(&conn, sql.as_str(), params.as_slice())?;
        let mut i: usize = 0;
        while i < rows.len()
            invariant
                i <= rows@.len(),
            decreases rows@.len() - i,
        {
            let w = run_from_row(&rows[i])?;
            if w.id == id {
                return Ok(w);
            }
            i = i + 1;
        }
        Err(not_found("收尾记录不存在"))
    }
}

pub proof fn lemma_open_tasks_open(s: Seq<Task>)
    ensures
        forall|i: int| 0 <= i < open_tasks(s).len() ==> (#[trigger] open_tasks(s)[i]).status == TaskStatus::Todo,
    decreases s.len(),
{
    if s.len() > 0 {
        lemma_open_tasks_open(s.drop_last());
    }
}

pub proof fn lemma_inbox_tasks_inbox(s: Seq<Task>)
    ensures
        forall|i: int| 0 <= i < inbox_tasks(s).len() ==> (#[trigger] inbox_tasks(s)[i]).list_kind == ListKind::Inbox,
    decreases s.len(),
{
    if s.len() > 0 {
        lemma_inbox_tasks_inbox(s.drop_last());
    }
}

} // verus!
