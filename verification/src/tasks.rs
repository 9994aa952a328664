//! The task service: lists, tasks, tags, deferral, waiting and the daily
//! focus list, stored in SQLite.

use vstd::prelude::*;

use rusqlite::Connection;

use crate::chars::trim;
use crate::clock::{local_today, new_id, now_stamp};
use crate::dates::{is_date_text, is_time_text, text_lt, validate_due_date, validate_due_time};
use crate::db::{sql_text, Database, SqlValue};
use crate::domain::{internal_msg, not_found, str_eq, validation, DomainError};
use crate::ids::{id_text, EntityId};
use crate::json::JsonValue;
use crate::rows::{id_at, id_param, int_at, opt_text_param, single_int, text_at, text_param};
use crate::store::{begin, connect, fetch, finish, run};
use crate::task_model::{
    decoded_page, opt_view, task_priority_text, rows_decoded, list_from_row, page_limit, same_but_tags, task_decodes, page_offset, task_from_row, CreateTaskInput, ListKind,
    PagedResult, Tag, Task, TaskCounts, TaskList, TaskPriority, TaskStatus, TaskWorkflowState,
    UpdateTaskInput, TASK_ROW_SELECT,
};
use crate::task_query::{smart_list_query, task_filters, SmartListKind, TaskQuery};
use crate::task_rules::{
    check_defer, check_waiting, nonblank, normalize_focus_date, opt_str_view, plan_reorder,
    trim_nonblank, validate_focus_eligible,
};

verus! {

/// What happens to the tasks of a deleted list.
#[derive(PartialEq, Eq, Structural, Clone, Copy, Debug)]
pub enum ListDeleteDisposition {
    MoveToInbox,
    ArchiveTasks,
    ForceDelete,
}

/// Enough of a list deletion to undo it.
pub struct DeleteListResult {
    pub list_id: EntityId,
    pub list_name: String,
    pub disposition: ListDeleteDisposition,
    pub task_ids: Vec<EntityId>,
    pub archived_task_ids: Vec<EntityId>,
}

/// The "today" view.
pub struct TodayTasks {
    pub overdue: Vec<Task>,
    pub due_today: Vec<Task>,
    pub completed_today: Vec<Task>,
    pub focus: Vec<Task>,
    pub waiting_follow_up: Vec<Task>,
    pub focus_carry_suggestions: Vec<Task>,
    /// Left empty here; reminders are listed by the reminder service.
    pub reminders_today: Vec<crate::reminders::TodayReminderItem>,
    pub today: String,
}

/// The due date of the instance that follows one due on `due`: one step
/// of the rule later.
pub open spec fn next_instance_date(rule: JsonValue, due: Seq<char>) -> Option<Seq<char>> {
    match crate::reminders::step_days(rule) {
        Some(days) => crate::dates::date_plus_days(due, days),
        None => None,
    }
}

pub fn next_instance_due(rule: &JsonValue, due: &str) -> (r: Option<String>)
    ensures
        crate::templates::opt_text(r) == next_instance_date(*rule, due@),
{
    match crate::reminders::recurrence_step(rule) {
        Some(days) => crate::dates::add_days(due, days),
        None => None,
    }
}

/// The time of day a series instance is due: the current instance's, or
/// 09:00.
pub open spec fn series_time(current: Task) -> Seq<char> {
    match current.due_time {
        Some(t) => t@,
        None => "09:00"@,
    }
}

/// The step from a series instance to the next one: refused unless the
/// instance has a valid due date (and a valid time, or none); the next due
/// date is `next_instance_date` of the rule from that date (none when the
/// series ends), at the instance's time.
pub fn series_step(rule: &JsonValue, current: &Task) -> (r: Result<(Option<String>, String), DomainError>)
    ensures
        r is Err <==> (current.due_date matches Some(d) ==> !is_date_text(d@) || !is_time_text(series_time(*current)))
            || current.due_date is None,
        r matches Err(e) ==> e is Validation,
        r matches Ok((next, time)) ==> current.due_date matches Some(d) && crate::templates::opt_text(next)
            == next_instance_date(*rule, d@) && time@ == series_time(*current),
{
    let due_date = match &current.due_date {
        Some(d) => d,
        None => return Err(validation("周期任务实例缺少截止日期")),
    };
    let due_time = match &current.due_time {
        Some(t) => t.clone(),
        None => {
            let t = "09:00";
            t.to_string()
        },
    };
    validate_due_date(due_date.as_str())?;
    validate_due_time(due_time.as_str())?;
    Ok((next_instance_due(rule, due_date.as_str()), due_time))
}

/// How many days without change make a task stale: the asked number
/// held within 1..=365.
pub open spec fn stale_window_spec(days: i64) -> i64 {
    if days < 1 {
        1
    } else if days > 365 {
        365
    } else {
        days
    }
}

pub fn stale_window(days: i64) -> (r: i64)
    ensures
        r == stale_window_spec(days),
{
    if days < 1 {
        1
    } else if days > 365 {
        365
    } else {
        days
    }
}

/// A value bound for an optional text: the text, or NULL.
pub open spec fn binds_opt(v: SqlValue, s: Option<String>) -> bool {
    match s {
        Some(t) => sql_text(v) == Some(t@),
        None => v is Null,
    }
}

/// The notes a new task gets: the given ones, or none.
pub open spec fn notes_of(n: Option<String>) -> Seq<char> {
    match n {
        Some(t) => t@,
        None => Seq::empty(),
    }
}

/// A task as `input` creates it: trimmed title, notes, priority (unset by
/// default), the given list, due date and time, open.
pub open spec fn created_as(t: Task, input: CreateTaskInput) -> bool {
    &&& t.title@ == trim(input.title@)
    &&& t.notes@ == notes_of(input.notes)
    &&& t.priority == match input.priority {
        Some(p) => p,
        None => TaskPriority::Unset,
    }
    &&& (input.list_id matches Some(l) ==> t.list_id == l)
    &&& opt_view(t.due_date) == opt_view(input.due_date)
    &&& opt_view(t.due_time) == opt_view(input.due_time)
    &&& t.status == TaskStatus::Todo
}

/// A task as `input` leaves it: its id, trimmed title, notes, priority,
/// list, due date and time.
pub open spec fn updated_as(t: Task, input: UpdateTaskInput) -> bool {
    &&& t.id == input.id
    &&& t.title@ == trim(input.title@)
    &&& t.notes@ == input.notes@
    &&& t.priority == input.priority
    &&& t.list_id == input.list_id
    &&& opt_view(t.due_date) == opt_view(input.due_date)
    &&& opt_view(t.due_time) == opt_view(input.due_time)
}

/// The bound values of a task's UPDATE, in order: title, notes, priority,
/// list, due date, due time, stamp, id.
pub fn task_update_params(input: &UpdateTaskInput, title: &str, now: &str) -> (r: Vec<SqlValue>)
    ensures
        r@.len() == 8,
        sql_text(r@[0]) == Some(title@),
        sql_text(r@[1]) == Some(input.notes@),
        sql_text(r@[2]) == Some(task_priority_text(input.priority)),
        sql_text(r@[3]) == Some(id_text(input.list_id)),
        binds_opt(r@[4], input.due_date),
        binds_opt(r@[5], input.due_time),
        sql_text(r@[6]) == Some(now@),
        sql_text(r@[7]) == Some(id_text(input.id)),
{
    vec![
        text_param(title),
        text_param(input.notes.as_str()),
        text_param(input.priority.as_str()),
        id_param(input.list_id),
        opt_text_param(&input.due_date),
        opt_text_param(&input.due_time),
        text_param(now),
        id_param(input.id),
    ]
}

/// The bound values of a new list's row, in order: id, name, sort order,
/// stamp.
pub fn new_list_params(id: EntityId, name: &str, sort_order: i64, now: &str) -> (r: Vec<SqlValue>)
    ensures
        r@.len() == 4,
        sql_text(r@[0]) == Some(id_text(id)),
        sql_text(r@[1]) == Some(name@),
        r@[2] == SqlValue::Integer(sort_order),
        sql_text(r@[3]) == Some(now@),
{
    vec![id_param(id), text_param(name), SqlValue::Integer(sort_order), text_param(now)]
}

/// The bound values of a new task's row, in the order of its INSERT: id,
/// title, notes, priority, list, due date, due time, sort order, stamp.
pub fn new_task_params(
    id: EntityId,
    title: &str,
    notes: &str,
    priority: TaskPriority,
    list_id: EntityId,
    due_date: &Option<String>,
    due_time: &Option<String>,
    sort_order: i64,
    now: &str,
) -> (r: Vec<SqlValue>)
    ensures
        r@.len() == 9,
        sql_text(r@[0]) == Some(id_text(id)),
        sql_text(r@[1]) == Some(title@),
        sql_text(r@[2]) == Some(notes@),
        sql_text(r@[3]) == Some(task_priority_text(priority)),
        sql_text(r@[4]) == Some(id_text(list_id)),
        binds_opt(r@[5], *due_date),
        binds_opt(r@[6], *due_time),
        r@[7] == SqlValue::Integer(sort_order),
        sql_text(r@[8]) == Some(now@),
{
    vec![
        id_param(id),
        text_param(title),
        text_param(notes),
        text_param(priority.as_str()),
        id_param(list_id),
        opt_text_param(due_date),
        opt_text_param(due_time),
        SqlValue::Integer(sort_order),
        text_param(now),
    ]
}

/// The bound values of a series' next instance, in the order of its
/// INSERT: id, title, notes, priority text, list, due date, due time, sort
/// order, series, stamp.
pub fn series_instance_params(
    id: EntityId,
    title: &str,
    notes: &str,
    priority: &str,
    list_id: EntityId,
    due_date: &str,
    due_time: &str,
    sort_order: i64,
    series_id: EntityId,
    now: &str,
) -> (r: Vec<SqlValue>)
    ensures
        r@.len() == 10,
        sql_text(r@[0]) == Some(id_text(id)),
        sql_text(r@[1]) == Some(title@),
        sql_text(r@[2]) == Some(notes@),
        sql_text(r@[3]) == Some(priority@),
        sql_text(r@[4]) == Some(id_text(list_id)),
        sql_text(r@[5]) == Some(due_date@),
        sql_text(r@[6]) == Some(due_time@),
        r@[7] == SqlValue::Integer(sort_order),
        sql_text(r@[8]) == Some(id_text(series_id)),
        sql_text(r@[9]) == Some(now@),
{
    vec![
        id_param(id),
        text_param(title),
        text_param(notes),
        text_param(priority),
        id_param(list_id),
        text_param(due_date),
        text_param(due_time),
        SqlValue::Integer(sort_order),
        id_param(series_id),
        text_param(now),
    ]
}

/// The row of the instance that follows `current` in series `series_id`
/// (as `series_instance_params` binds it): due `next_instance_date` of the
/// rule from the current due date, at the current time (09:00 when none),
/// with the series' title, notes, priority and list; and the values that
/// move the series' next due date (date, stamp, series). Nothing when the
/// rule gives no next date; refused as `series_step` refuses.
pub fn next_instance_rows(
    rule: &JsonValue,
    current: &Task,
    id: EntityId,
    title: &str,
    notes: &str,
    priority: &str,
    list_id: EntityId,
    sort_order: i64,
    series_id: EntityId,
    now: &str,
) -> (r: Result<Option<(Vec<SqlValue>, Vec<SqlValue>)>, DomainError>)
    ensures
        r is Err <==> (current.due_date matches Some(d) ==> !is_date_text(d@) || !is_time_text(series_time(*current)))
            || current.due_date is None,
        r matches Err(e) ==> e is Validation,
        r matches Ok(o) ==> current.due_date matches Some(d) && (o is None <==> next_instance_date(*rule, d@) is None),
        r matches Ok(Some((ins, upd))) ==> current.due_date matches Some(d) && next_instance_date(*rule, d@) matches Some(n) && {
            &&& ins@.len() == 10
            &&& sql_text(ins@[0]) == Some(id_text(id))
            &&& sql_text(ins@[1]) == Some(title@)
            &&& sql_text(ins@[2]) == Some(notes@)
            &&& sql_text(ins@[3]) == Some(priority@)
            &&& sql_text(ins@[4]) == Some(id_text(list_id))
            &&& sql_text(ins@[5]) == Some(n)
            &&& sql_text(ins@[6]) == Some(series_time(*current))
            &&& ins@[7] == SqlValue::Integer(sort_order)
            &&& sql_text(ins@[8]) == Some(id_text(series_id))
            &&& sql_text(ins@[9]) == Some(now@)
            &&& upd@.len() == 3
            &&& sql_text(upd@[0]) == Some(n)
            &&& sql_text(upd@[1]) == Some(now@)
            &&& sql_text(upd@[2]) == Some(id_text(series_id))
        },
{
    let (next, due_time) = series_step(rule, current)?;
    match next {
        Some(next_date) => {
            let ins = series_instance_params(
                id,
                title,
                notes,
                priority,
                list_id,
                next_date.as_str(),
                due_time.as_str(),
                sort_order,
                series_id,
                now,
            );
            let upd = vec![text_param(next_date.as_str()), text_param(now), id_param(series_id)];
            Ok(Some((ins, upd)))
        },
        None => Ok(None),
    }
}

/// The tables a task query reads: live tasks with their lists.
pub const TASK_FROM: &'static str = " FROM tasks t JOIN task_lists l ON l.id = t.list_id WHERE t.deleted_at IS NULL";

/// The order of a task query: latest completed first when it asks for
/// completed tasks, else by position and then newest first.
pub open spec fn task_order_sql(q: TaskQuery) -> Seq<char> {
    if q.completed_since is Some {
        " ORDER BY t.completed_at DESC, t.updated_at DESC"@
    } else {
        " ORDER BY t.sort_order ASC, t.created_at DESC"@
    }
}

/// The statements of a task query with conditions `filters`: the count,
/// and the page (ordered, then limited and offset by two more bound values).
pub fn task_page_sql(query: &TaskQuery, filters: &str) -> (r: (String, String))
    ensures
        r.0@ == "SELECT COUNT(*)"@ + TASK_FROM@ + filters@,
        r.1@ == "SELECT "@ + TASK_ROW_SELECT@ + TASK_FROM@ + filters@ + task_order_sql(*query) + " LIMIT ? OFFSET ?"@,
{
    let order_by = if query.completed_since.is_some() {
        " ORDER BY t.completed_at DESC, t.updated_at DESC"
    } else {
        " ORDER BY t.sort_order ASC, t.created_at DESC"
    };
    let mut count_sql = "SELECT COUNT(*)".to_string();
    count_sql.append(TASK_FROM);
    count_sql.append(filters);
    let mut sql = "SELECT ".to_string();
    sql.append(TASK_ROW_SELECT);
    sql.append(TASK_FROM);
    sql.append(filters);
    sql.append(order_by);
    sql.append(" LIMIT ? OFFSET ?");
    (count_sql, sql)
}

/// Whether two optional texts are the same.
pub fn same_opt_text(a: &Option<String>, b: &Option<String>) -> (r: bool)
    ensures
        r == (opt_view(*a) == opt_view(*b)),
{
    match (a, b) {
        (Some(x), Some(y)) => str_eq(x.as_str(), y.as_str()),
        (None, None) => true,
        _ => false,
    }
}

/// The trimmed input title is empty.
pub open spec fn blank(s: Seq<char>) -> bool {
    trim(s).len() == 0
}

pub open spec fn bad_opt_date(d: Option<String>) -> bool {
    d matches Some(s) && !is_date_text(s@)
}

pub open spec fn bad_opt_time(t: Option<String>) -> bool {
    t matches Some(s) && !is_time_text(s@)
}

/// The trimmed text of `s`.
pub fn trimmed(s: &str) -> (r: String)
    ensures
        r@ == trim(s@),
{
    let v = crate::chars::chars_of(s);
    let (a, b) = crate::chars::trim_bounds(&v, 0, v.len());
    proof {
        assert(v@.subrange(0, v@.len() as int) =~= v@);
    }
    let mut w: Vec<char> = Vec::new();
    let mut i = a;
    while i < b
        invariant
            a <= i <= b <= v@.len(),
            w@ =~= v@.subrange(a as int, i as int),
        decreases b - i,
    {
        w.push(v[i]);
        i = i + 1;
    }
    crate::chars::string_of(w.as_slice())
}

fn decode_tasks(rows: &Vec<Vec<SqlValue>>) -> (r: Result<Vec<Task>, DomainError>)
    ensures
        r matches Ok(v) ==> v@.len() == rows@.len(),
        r matches Ok(v) ==> decoded_page(rows@.map_values(|x: Vec<SqlValue>| x@), v@),
        r matches Err(e) ==> e is Internal,
{
    let mut out: Vec<Task> = Vec::new();
    let mut i: usize = 0;
    while i < rows.len()
        invariant
            i <= rows@.len(),
            out@.len() == i,
            forall|k: int| 0 <= k < i ==> task_decodes(#[trigger] out@[k], rows@[k]@),
        decreases rows@.len() - i,
    {
        out.push(task_from_row(&rows[i])?);
        i = i + 1;
    }
    Ok(out)
}

fn decode_ids(rows: &Vec<Vec<SqlValue>>) -> (r: Result<Vec<EntityId>, DomainError>)
    ensures
        r matches Ok(v) ==> v@.len() == rows@.len(),
        r matches Err(e) ==> e is Internal,
{
    let mut out: Vec<EntityId> = Vec::new();
    let mut i: usize = 0;
    while i < rows.len()
        invariant
            i <= rows@.len(),
            out@.len() == i,
        decreases rows@.len() - i,
    {
        out.push(id_at(&rows[i], 0)?);
        i = i + 1;
    }
    Ok(out)
}

pub struct TaskService {
    pub db: Database,
}

impl TaskService {
    pub fn new(db: Database) -> (r: Self)
        ensures
            r.db.path@ == db.path@,
    {
        TaskService { db }
    }

    /// Creates the inbox list when there is none.
    pub fn ensure_seed_data(&self) -> (r: Result<(), DomainError>)
        ensures
            r matches Err(e) ==> e is Internal,
    {
        let conn = connect(&self.db)?;
        let rows = fetch(
            &conn,
            "SELECT 1 FROM task_lists WHERE kind = 'inbox' AND deleted_at IS NULL LIMIT 1",
            &[],
        )?;
        if rows.len() == 0 {
            let now = now_stamp();
            let params = vec![id_param(new_id()), SqlValue::Text(now)];
            run(
                &conn,
                "INSERT INTO task_lists (id, name, kind, sort_order, created_at, updated_at, revision)
                 VALUES (?1, '收件箱', 'inbox', 0, ?2, ?2, 1)",
                params.as_slice(),
            )?;
        }
        Ok(())
    }

    /// Live lists: the inbox first, then by position and name.
    pub fn list_lists(&self) -> (r: Result<Vec<TaskList>, DomainError>)
        ensures
            r matches Err(e) ==> e is Internal,
    {
        let conn = connect(&self.db)?;
        let rows = fetch(
            &conn,
            "SELECT id, name, kind, sort_order, created_at, updated_at, revision
             FROM task_lists
             WHERE deleted_at IS NULL
             ORDER BY CASE kind WHEN 'inbox' THEN 0 ELSE 1 END, sort_order, name",
            &[],
        )?;
        let mut out: Vec<TaskList> = Vec::new();
        let mut i: usize = 0;
        while i < rows.len()
            invariant
                i <= rows@.len(),
            decreases rows@.len() - i,
        {
            out.push(list_from_row(&rows[i])?);
            i = i + 1;
        }
        Ok(out)
    }

    /// Creates a custom list at the end; the name is trimmed and must not
    /// be blank.
    pub fn create_list(&self, name: String) -> (r: Result<TaskList, DomainError>)
        ensures
            r matches Err(DomainError::Validation(_)) <==> blank(name@),
            r matches Ok(l) ==> l.name@ == trim(name@) && l.kind == ListKind::Custom,
    {
        let name = trimmed(name.as_str());
        if name.as_str().is_empty() {
            return Err(validation("清单名称不能为空"));
        }
        let conn = connect(&self.db)?;
        let id = new_id();
        let now = now_stamp();
        let rows = fetch(
            &conn,
            "SELECT COALESCE(MAX(sort_order), 0) + 1 FROM task_lists WHERE deleted_at IS NULL",
            &[],
        )?;
        let sort_order = match single_int(&rows) {
            Ok(v) => v,
            Err(_) => 1,
        };
        let params = new_list_params(id, name.as_str(), sort_order, now.as_str());
        run(
            &conn,
            "INSERT INTO task_lists (id, name, kind, sort_order, created_at, updated_at, revision)
             VALUES (?1, ?2, 'custom', ?3, ?4, ?4, 1)",
            params.as_slice(),
        )?;
        let l = self.get_list_not_validation(id)?;
        if !str_eq(l.name.as_str(), name.as_str()) || l.kind != ListKind::Custom {
            return Err(internal_msg("新清单未按输入写入"));
        }
        Ok(l)
    }

    fn get_list_not_validation(&self, id: EntityId) -> (r: Result<TaskList, DomainError>)
        ensures
            r matches Ok(l) ==> l.id == id,
            r matches Err(e) ==> e is Internal || e is NotFound,
    {
        self.get_list(id)
    }

    /// A live list by id.
    pub fn get_list(&self, id: EntityId) -> (r: Result<TaskList, DomainError>)
        ensures
            r matches Ok(l) ==> l.id == id,
            r matches Err(e) ==> e is Internal || e is NotFound,
    {
        let conn = connect(&self.db)?;
        let params = vec![id_param(id)];
        let rows = fetch(
            &conn,
            "SELECT id, name, kind, sort_order, created_at, updated_at, revision
             FROM task_lists WHERE id = ?1 AND deleted_at IS NULL",
            params.as_slice(),
        )?;
        let mut i: usize = 0;
        while i < rows.len()
            invariant
                i <= rows@.len(),
            decreases rows@.len() - i,
        {
            let l = list_from_row(&rows[i])?;
            if l.id == id {
                return Ok(l);
            }
            i = i + 1;
        }
        Err(not_found("清单不存在"))
    }

    /// Renames a custom list; the inbox keeps its name.
    pub fn update_list(&self, id: EntityId, name: String) -> (r: Result<TaskList, DomainError>)
        ensures
            r matches Ok(l) ==> l.id == id,
            blank(name@) ==> r is Err,
    {
        let list = self.get_list(id)?;
        if list.kind == ListKind::Inbox {
            return Err(validation("收件箱名称不可修改"));
        }
        let name = trimmed(name.as_str());
        if name.as_str().is_empty() {
            return Err(validation("清单名称不能为空"));
        }
        let now = now_stamp();
        let conn = connect(&self.db)?;
        let params = vec![SqlValue::Text(name), SqlValue::Text(now), id_param(id)];
        run(
            &conn,
            "UPDATE task_lists SET name = ?1, updated_at = ?2, revision = revision + 1
             WHERE id = ?3 AND deleted_at IS NULL",
            params.as_slice(),
        )?;
        self.get_list(id)
    }

    /// Number of open tasks in a live list.
    pub fn count_list_todo_tasks(&self, list_id: EntityId) -> (r: Result<i64, DomainError>)
        ensures
            r matches Err(e) ==> e is Internal || e is NotFound,
    {
        let _ = self.get_list(list_id)?;
        let conn = connect(&self.db)?;
        let params = vec![id_param(list_id)];
        let rows = fetch(
            &conn,
            "SELECT COUNT(*) FROM tasks
             WHERE list_id = ?1 AND status = 'todo' AND deleted_at IS NULL",
            params.as_slice(),
        )?;
        single_int(&rows)
    }

    fn task_ids_in_list(&self, conn: &Connection, list_id: EntityId) -> (r: Result<
        Vec<EntityId>,
        DomainError,
    >)
        ensures
            r matches Err(e) ==> e is Internal,
    {
        let params = vec![id_param(list_id)];
        let rows = fetch(
            conn,
            "SELECT id FROM tasks WHERE list_id = ?1 AND deleted_at IS NULL",
            params.as_slice(),
        )?;
        decode_ids(&rows)
    }

    /// Deletes a custom list. Its tasks move to the inbox, or its open
    /// tasks are archived (the others moving to the inbox), or all its tasks
    /// are deleted with it. The inbox cannot be deleted.
    pub fn delete_list(&self, id: EntityId, disposition: ListDeleteDisposition) -> (r: Result<
        DeleteListResult,
        DomainError,
    >)
        ensures
            r matches Ok(d) ==> d.list_id == id && d.disposition == disposition && (
            disposition != ListDeleteDisposition::ArchiveTasks ==> d.archived_task_ids@.len()
                == 0),
    {
        let list = self.get_list(id)?;
        if list.kind == ListKind::Inbox {
            return Err(validation("收件箱不可删除"));
        }
        let conn = connect(&self.db)?;
        let now = now_stamp();
        let task_ids = self.task_ids_in_list(&conn, id)?;
        let mut archived_task_ids: Vec<EntityId> = Vec::new();
        match disposition {
            ListDeleteDisposition::MoveToInbox => {
                let inbox_id = self.inbox_list_id()?;
                let params = vec![id_param(inbox_id), text_param(now.as_str()), id_param(id)];
                run(
                    &conn,
                    "UPDATE tasks SET list_id = ?1, updated_at = ?2, revision = revision + 1
                     WHERE list_id = ?3 AND deleted_at IS NULL",
                    params.as_slice(),
                )?;
            },
            ListDeleteDisposition::ArchiveTasks => {
                let params = vec![id_param(id)];
                let rows = fetch(
                    &conn,
                    "SELECT id FROM tasks
                     WHERE list_id = ?1 AND status = 'todo' AND deleted_at IS NULL",
                    params.as_slice(),
                )?;
                archived_task_ids = decode_ids(&rows)?;
                let params = vec![text_param(now.as_str()), id_param(id)];
                run(
                    &conn,
                    "UPDATE tasks SET status = 'archived', updated_at = ?1, revision = revision + 1
                     WHERE list_id = ?2 AND status = 'todo' AND deleted_at IS NULL",
                    params.as_slice(),
                )?;
                let inbox_id = self.inbox_list_id()?;
                let params = vec![id_param(inbox_id), text_param(now.as_str()), id_param(id)];
                run(
                    &conn,
                    "UPDATE tasks SET list_id = ?1, updated_at = ?2, revision = revision + 1
                     WHERE list_id = ?3 AND status != 'todo' AND deleted_at IS NULL",
                    params.as_slice(),
                )?;
            },
            ListDeleteDisposition::ForceDelete => {
                let params = vec![text_param(now.as_str()), id_param(id)];
                run(
                    &conn,
                    "UPDATE tasks SET deleted_at = ?1, updated_at = ?1, revision = revision + 1
                     WHERE list_id = ?2 AND deleted_at IS NULL",
                    params.as_slice(),
                )?;
            },
        }
        let params = vec![text_param(now.as_str()), id_param(id)];
        run(
            &conn,
            "UPDATE task_lists SET deleted_at = ?1, updated_at = ?1, revision = revision + 1
             WHERE id = ?2 AND deleted_at IS NULL",
            params.as_slice(),
        )?;
        Ok(
            DeleteListResult {
                list_id: id,
                list_name: list.name,
                disposition,
                task_ids,
                archived_task_ids,
            },
        )
    }

    /// Restores a deleted list and puts its tasks back as they were.
    pub fn undo_delete_list(&self, result: DeleteListResult) -> (r: Result<TaskList, DomainError>)
        ensures
            r matches Ok(l) ==> l.id == result.list_id,
    {
        let conn = connect(&self.db)?;
        let now = now_stamp();
        let params = vec![text_param(now.as_str()), id_param(result.list_id)];
        run(
            &conn,
            "UPDATE task_lists SET deleted_at = NULL, updated_at = ?1, revision = revision + 1
             WHERE id = ?2",
            params.as_slice(),
        )?;
        match result.disposition {
            ListDeleteDisposition::MoveToInbox | ListDeleteDisposition::ArchiveTasks => {
                let mut i: usize = 0;
                while i < result.task_ids.len()
                    invariant
                        i <= result.task_ids@.len(),
                    decreases result.task_ids@.len() - i,
                {
                    let params = vec![
                        id_param(result.list_id),
                        text_param(now.as_str()),
                        id_param(result.task_ids[i]),
                    ];
                    run(
                        &conn,
                        "UPDATE tasks SET list_id = ?1, updated_at = ?2, revision = revision + 1
                         WHERE id = ?3 AND deleted_at IS NULL",
                        params.as_slice(),
                    )?;
                    i = i + 1;
                }
                let mut j: usize = 0;
                while j < result.archived_task_ids.len()
                    invariant
                        j <= result.archived_task_ids@.len(),
                    decreases result.archived_task_ids@.len() - j,
                {
                    let params = vec![
                        text_param(now.as_str()),
                        id_param(result.archived_task_ids[j]),
                    ];
                    run(
                        &conn,
                        "UPDATE tasks SET status = 'todo', updated_at = ?1, revision = revision + 1
                         WHERE id = ?2 AND deleted_at IS NULL",
                        params.as_slice(),
                    )?;
                    j = j + 1;
                }
            },
            ListDeleteDisposition::ForceDelete => {
                let mut i: usize = 0;
                while i < result.task_ids.len()
                    invariant
                        i <= result.task_ids@.len(),
                    decreases result.task_ids@.len() - i,
                {
                    let params = vec![text_param(now.as_str()), id_param(result.task_ids[i])];
                    run(
                        &conn,
                        "UPDATE tasks SET deleted_at = NULL, updated_at = ?1, revision = revision + 1
                         WHERE id = ?2",
                        params.as_slice(),
                    )?;
                    i = i + 1;
                }
            },
        }
        self.get_list(result.list_id)
    }

    /// The inbox list's id.
    pub fn inbox_list_id(&self) -> (r: Result<EntityId, DomainError>)
        ensures
            r matches Err(e) ==> e is Internal,
    {
        let conn = connect(&self.db)?;
        let rows = fetch(
            &conn,
            "SELECT id FROM task_lists WHERE kind = 'inbox' AND deleted_at IS NULL LIMIT 1",
            &[],
        )?;
        if rows.len() == 0 {
            return Err(internal_msg("收件箱清单缺失"));
        }
        id_at(&rows[0], 0)
    }

    /// Creates an open task (in the inbox unless a list is given). The
    /// title is trimmed and must not be blank; a due date must be
    /// `YYYY-MM-DD` and a due time `HH:MM`.
    pub fn create_task(&self, input: CreateTaskInput) -> (r: Result<Task, DomainError>)
        ensures
            r matches Err(DomainError::Validation(_)) <==> blank(input.title@) || bad_opt_date(
                input.due_date,
            ) || bad_opt_time(input.due_time),
            r matches Ok(t) ==> created_as(t, input),
    {
        let title = trimmed(input.title.as_str());
        if title.as_str().is_empty() {
            return Err(validation("标题不能为空"));
        }
        if let Some(due) = &input.due_date {
            validate_due_date(due.as_str())?;
        }
        if let Some(time) = &input.due_time {
            validate_due_time(time.as_str())?;
        }
        let list_id = match input.list_id {
            Some(id) => {
                let _ = self.get_list(id)?;
                id
            },
            None => self.inbox_list_id()?,
        };
        let conn = connect(&self.db)?;
        let id = new_id();
        let now = now_stamp();
        let priority = match input.priority {
            Some(p) => p,
            None => TaskPriority::Unset,
        };
        let notes = match input.notes {
            Some(n) => n,
            None => String::new(),
        };
        let params = vec![id_param(list_id)];
        let rows = fetch(
            &conn,
            "SELECT COALESCE(MAX(sort_order), 0) + 1 FROM tasks WHERE list_id = ?1 AND deleted_at IS NULL",
            params.as_slice(),
        )?;
        let sort_order = match single_int(&rows) {
            Ok(v) => v,
            Err(_) => 1,
        };
        begin(&conn)?;
        let params = new_task_params(
            id,
            title.as_str(),
            notes.as_str(),
            priority,
            list_id,
            &input.due_date,
            &input.due_time,
            sort_order,
            now.as_str(),
        );
        let outcome = match run(
            &conn,
            "INSERT INTO tasks (
                id, title, notes, status, priority, list_id, due_date, due_time,
                completed_at, sort_order, created_at, updated_at, revision, deleted_at
             ) VALUES (?1, ?2, ?3, 'todo', ?4, ?5, ?6, ?7, NULL, ?8, ?9, ?9, 1, NULL)",
            params.as_slice(),
        ) {
            Ok(_) => match &input.tag_names {
                Some(names) => self.replace_tags(&conn, id, names),
                None => Ok(()),
            },
            Err(e) => Err(e),
        };
        finish(&conn, outcome)?;
        let t = self.get_task_internal(id)?;
        if !str_eq(t.title.as_str(), title.as_str()) || !str_eq(t.notes.as_str(), notes.as_str()) || t.priority != priority
            || t.list_id != list_id || t.status != TaskStatus::Todo || !same_opt_text(&t.due_date, &input.due_date)
            || !same_opt_text(&t.due_time, &input.due_time) {
            return Err(internal_msg("新任务未按输入写入"));
        }
        Ok(t)
    }

    fn get_task_internal(&self, id: EntityId) -> (r: Result<Task, DomainError>)
        ensures
            r matches Ok(t) ==> t.id == id,
            r matches Err(e) ==> e is Internal || e is NotFound,
    {
        self.get_task(id)
    }

    /// Rewrites a task's editable fields and its tags.
    pub fn update_task(&self, input: UpdateTaskInput) -> (r: Result<Task, DomainError>)
        ensures
            r matches Ok(t) ==> updated_as(t, input),
            blank(input.title@) || bad_opt_date(input.due_date) || bad_opt_time(input.due_time)
                ==> r is Err,
            r matches Err(DomainError::Validation(_)) ==> blank(input.title@) || bad_opt_date(input.due_date)
                || bad_opt_time(input.due_time),
    {
        let _existing = self.get_task(input.id)?;
        let title = trimmed(input.title.as_str());
        if title.as_str().is_empty() {
            return Err(validation("标题不能为空"));
        }
        let _ = self.get_list(input.list_id)?;
        if let Some(due) = &input.due_date {
            validate_due_date(due.as_str())?;
        }
        if let Some(time) = &input.due_time {
            validate_due_time(time.as_str())?;
        }
        let conn = connect(&self.db)?;
        let now = now_stamp();
        begin(&conn)?;
        let params = task_update_params(&input, title.as_str(), now.as_str());
        let outcome = match run(
            &conn,
            "UPDATE tasks SET
                title = ?1, notes = ?2, priority = ?3, list_id = ?4, due_date = ?5,
                due_time = ?6, updated_at = ?7, revision = revision + 1
             WHERE id = ?8 AND deleted_at IS NULL",
            params.as_slice(),
        ) {
            Ok(_) => self.replace_tags(&conn, input.id, &input.tag_names),
            Err(e) => Err(e),
        };
        finish(&conn, outcome)?;
        let t = self.get_task_internal(input.id)?;
        if !str_eq(t.title.as_str(), title.as_str()) || !str_eq(t.notes.as_str(), input.notes.as_str()) || t.priority
            != input.priority || t.list_id != input.list_id || !same_opt_text(&t.due_date, &input.due_date)
            || !same_opt_text(&t.due_time, &input.due_time) {
            return Err(internal_msg("任务未按输入写入"));
        }
        Ok(t)
    }

    /// Marks a task completed (a completed task is returned unchanged) and
    /// takes it off every focus day.
    pub fn complete_task(&self, id: EntityId) -> (r: Result<Task, DomainError>)
        ensures
            r matches Ok(t) ==> t.id == id,
    {
        let task = self.get_task(id)?;
        if task.status == TaskStatus::Completed {
            return Ok(task);
        }
        let conn = connect(&self.db)?;
        let now = now_stamp();
        begin(&conn)?;
        let params = vec![text_param(now.as_str()), id_param(id)];
        let outcome = match run(
            &conn,
            "UPDATE tasks SET status = 'completed', completed_at = ?1, updated_at = ?1, revision = revision + 1
             WHERE id = ?2 AND deleted_at IS NULL",
            params.as_slice(),
        ) {
            Ok(_) => {
                let params = vec![id_param(id)];
                match run(&conn, "DELETE FROM daily_focus WHERE task_id = ?1", params.as_slice()) {
                    Ok(_) => match task.series_id {
                        Some(series_id) => self.spawn_next_series_instance(&conn, &task, series_id, now.as_str()),
                        None => Ok(()),
                    },
                    Err(e) => Err(e),
                }
            },
            Err(e) => Err(e),
        };
        finish(&conn, outcome)?;
        self.get_task(id)
    }

    /// Skips an open instance of a recurring task: it is archived and the
    /// next instance is created.
    pub fn skip_task_instance(&self, id: EntityId) -> (r: Result<Task, DomainError>)
        ensures
            r matches Ok(t) ==> t.id == id,
    {
        let task = self.get_task(id)?;
        let series_id = match task.series_id {
            Some(s) => s,
            None => return Err(validation("不是周期任务实例")),
        };
        if task.status != TaskStatus::Todo {
            return Err(validation("只能跳过待办实例"));
        }
        let conn = connect(&self.db)?;
        let now = now_stamp();
        begin(&conn)?;
        let params = vec![text_param(now.as_str()), id_param(id)];
        let outcome = match run(
            &conn,
            "UPDATE tasks SET status = 'archived', updated_at = ?1, revision = revision + 1
             WHERE id = ?2 AND deleted_at IS NULL",
            params.as_slice(),
        ) {
            Ok(_) => self.spawn_next_series_instance(&conn, &task, series_id, now.as_str()),
            Err(e) => Err(e),
        };
        finish(&conn, outcome)?;
        self.get_task(id)
    }

    /// Creates the instance that follows `current` in its series: due one
    /// step of the series' rule after it, at the same time (09:00 when it
    /// had none). When the rule gives no next date, the series is turned
    /// off instead.
    fn spawn_next_series_instance(&self, conn: &Connection, current: &Task, series_id: EntityId, now: &str) -> (r:
        Result<(), DomainError>)
        ensures
            current.due_date is None ==> r is Err,
            current.due_date matches Some(d) && !is_date_text(d@) ==> r is Err,
    {
        let params = vec![id_param(series_id)];
        let rows = fetch(
            conn,
            "SELECT recurrence_json, list_id, title, notes, priority
             FROM task_series WHERE id = ?1 AND deleted_at IS NULL AND enabled = 1",
            params.as_slice(),
        )?;
        if rows.len() == 0 {
            return Err(not_found("周期任务模板不存在或已停用"));
        }
        let rule = match crate::json::parse_json(text_at(&rows[0], 0)?.as_str()) {
            Some(v) => v,
            None => return Err(validation("周期规则无效")),
        };
        let list_id = id_at(&rows[0], 1)?;
        let title = text_at(&rows[0], 2)?;
        let notes = text_at(&rows[0], 3)?;
        let priority = text_at(&rows[0], 4)?;
        let (next, _) = series_step(&rule, current)?;
        match next {
            Some(_) => {},
            None => {
                let params = vec![text_param(now), id_param(series_id)];
                run(
                    conn,
                    "UPDATE task_series SET enabled = 0, updated_at = ?1, revision = revision + 1 WHERE id = ?2",
                    params.as_slice(),
                )?;
                return Ok(());
            },
        };
        let params = vec![id_param(list_id)];
        let rows = fetch(
            conn,
            "SELECT COALESCE(MAX(sort_order), 0) + 1 FROM tasks WHERE list_id = ?1 AND deleted_at IS NULL",
            params.as_slice(),
        )?;
        let sort_order = match single_int(&rows) {
            Ok(v) => v,
            Err(_) => 1,
        };
        let (params, series_params) = match next_instance_rows(
            &rule,
            current,
            new_id(),
            title.as_str(),
            notes.as_str(),
            priority.as_str(),
            list_id,
            sort_order,
            series_id,
            now,
        )? {
            Some(rows) => rows,
            None => return Err(internal_msg("周期规则无下一次日期")),
        };
        run(
            conn,
            "INSERT INTO tasks (
                id, title, notes, status, priority, list_id, due_date, due_time,
                completed_at, sort_order, series_id, created_at, updated_at, revision, deleted_at
             ) VALUES (?1, ?2, ?3, 'todo', ?4, ?5, ?6, ?7, NULL, ?8, ?9, ?10, ?10, 1, NULL)",
            params.as_slice(),
        )?;
        run(
            conn,
            "UPDATE task_series SET next_due_date = ?1, updated_at = ?2, revision = revision + 1 WHERE id = ?3",
            series_params.as_slice(),
        )?;
        Ok(())
    }

    /// Creates a recurring task: its series (the rule and the task's
    /// fields) and its first instance, due on the given date at the given
    /// time (09:00 when none is given). The rule must give a step; the
    /// title must not be blank; a due date is required.
    pub fn create_recurring_task(&self, input: CreateTaskInput, recurrence: JsonValue) -> (r: Result<
        Task,
        DomainError,
    >)
        ensures
            crate::reminders::step_days(recurrence) is None ==> r matches Err(DomainError::Validation(_)),
            blank(input.title@) ==> r matches Err(DomainError::Validation(_)),
            input.due_date is None ==> r matches Err(DomainError::Validation(_)),
            bad_opt_date(input.due_date) || bad_opt_time(input.due_time) ==> r matches Err(
                DomainError::Validation(_),
            ),
            r matches Ok(t) ==> t.series_id is Some,
    {
        if crate::reminders::recurrence_step(&recurrence).is_none() {
            return Err(validation("周期规则无效"));
        }
        let title = trimmed(input.title.as_str());
        if title.as_str().is_empty() {
            return Err(validation("标题不能为空"));
        }
        let due_date = match &input.due_date {
            Some(d) => d.clone(),
            None => return Err(validation("周期任务需要截止日期")),
        };
        match validate_due_date(due_date.as_str()) {
            Ok(()) => {},
            Err(e) => return Err(e),
        }
        let due_time = match &input.due_time {
            Some(t) => t.clone(),
            None => "09:00".to_string(),
        };
        match validate_due_time(due_time.as_str()) {
            Ok(()) => {},
            Err(e) => return Err(e),
        }
        let list_id = match input.list_id {
            Some(id) => {
                let _ = self.get_list(id)?;
                id
            },
            None => self.inbox_list_id()?,
        };
        let priority = match input.priority {
            Some(p) => p,
            None => TaskPriority::Unset,
        };
        let notes = match input.notes {
            Some(n) => n,
            None => String::new(),
        };
        let end_at = match recurrence.get("endAt") {
            Some(v) => match v.as_str() {
                Some(s) => SqlValue::Text(s.to_string()),
                None => SqlValue::Null,
            },
            None => SqlValue::Null,
        };
        let series_id = new_id();
        let task_id = new_id();
        let now = now_stamp();
        let conn = connect(&self.db)?;
        let params = vec![id_param(list_id)];
        let rows = fetch(
            &conn,
            "SELECT COALESCE(MAX(sort_order), 0) + 1 FROM tasks WHERE list_id = ?1 AND deleted_at IS NULL",
            params.as_slice(),
        )?;
        let sort_order = match single_int(&rows) {
            Ok(v) => v,
            Err(_) => 1,
        };
        begin(&conn)?;
        let params = vec![
            id_param(series_id),
            text_param(title.as_str()),
            text_param(notes.as_str()),
            text_param(priority.as_str()),
            id_param(list_id),
            SqlValue::Text(crate::json::render_json(&recurrence)),
            SqlValue::Text(crate::clock::local_offset()),
            text_param(due_date.as_str()),
            end_at,
            text_param(now.as_str()),
        ];
        let outcome = match run(
            &conn,
            "INSERT INTO task_series (
                id, title, notes, priority, list_id, recurrence_json, timezone,
                next_due_date, enabled, end_at, created_at, updated_at, revision, deleted_at
             ) VALUES (?1, ?2, ?3, ?4, ?5, ?6, ?7, ?8, 1, ?9, ?10, ?10, 1, NULL)",
            params.as_slice(),
        ) {
            Ok(_) => {
                let params = vec![
                    id_param(task_id),
                    SqlValue::Text(title),
                    SqlValue::Text(notes),
                    text_param(priority.as_str()),
                    id_param(list_id),
                    SqlValue::Text(due_date),
                    SqlValue::Text(due_time),
                    SqlValue::Integer(sort_order),
                    id_param(series_id),
                    SqlValue::Text(now),
                ];
                match run(
                    &conn,
                    "INSERT INTO tasks (
                        id, title, notes, status, priority, list_id, due_date, due_time,
                        completed_at, sort_order, series_id, created_at, updated_at, revision, deleted_at
                     ) VALUES (?1, ?2, ?3, 'todo', ?4, ?5, ?6, ?7, NULL, ?8, ?9, ?10, ?10, 1, NULL)",
                    params.as_slice(),
                ) {
                    Ok(_) => match &input.tag_names {
                        Some(names) => self.replace_tags(&conn, task_id, names),
                        None => Ok(()),
                    },
                    Err(e) => Err(e),
                }
            },
            Err(e) => Err(e),
        };
        finish(&conn, outcome)?;
        let task = self.get_task(task_id)?;
        if task.series_id.is_none() {
            return Err(internal_msg("周期任务实例缺少系列"));
        }
        Ok(task)
    }

    fn set_status(&self, id: EntityId, sql: &str) -> (r: Result<Task, DomainError>)
        ensures
            r matches Ok(t) ==> t.id == id,
    {
        let conn = connect(&self.db)?;
        let now = now_stamp();
        let params = vec![SqlValue::Text(now), id_param(id)];
        run(&conn, sql, params.as_slice())?;
        self.get_task(id)
    }

    /// Reopens a completed task (any other task is returned unchanged).
    pub fn uncomplete_task(&self, id: EntityId) -> (r: Result<Task, DomainError>)
        ensures
            r matches Ok(t) ==> t.id == id,
    {
        let task = self.get_task(id)?;
        if task.status != TaskStatus::Completed {
            return Ok(task);
        }
        self.set_status(
            id,
            "UPDATE tasks SET status = 'todo', completed_at = NULL, updated_at = ?1, revision = revision + 1
             WHERE id = ?2 AND deleted_at IS NULL",
        )
    }

    /// Reopens an archived task (any other task is returned unchanged).
    pub fn unarchive_task(&self, id: EntityId) -> (r: Result<Task, DomainError>)
        ensures
            r matches Ok(t) ==> t.id == id,
    {
        let task = self.get_task(id)?;
        if task.status != TaskStatus::Archived {
            return Ok(task);
        }
        self.set_status(
            id,
            "UPDATE tasks SET status = 'todo', updated_at = ?1, revision = revision + 1
             WHERE id = ?2 AND deleted_at IS NULL",
        )
    }

    /// Archives a task.
    pub fn archive_task(&self, id: EntityId) -> (r: Result<Task, DomainError>)
        ensures
            r matches Ok(t) ==> t.id == id,
    {
        let _ = self.get_task(id)?;
        self.set_status(
            id,
            "UPDATE tasks SET status = 'archived', updated_at = ?1, revision = revision + 1
             WHERE id = ?2 AND deleted_at IS NULL",
        )
    }

    /// Deletes a task (softly).
    pub fn delete_task(&self, id: EntityId) -> (r: Result<(), DomainError>)
        ensures
            r matches Err(e) ==> e is Internal || e is NotFound,
    {
        let _ = self.get_task(id)?;
        let conn = connect(&self.db)?;
        let now = now_stamp();
        let params = vec![SqlValue::Text(now), id_param(id)];
        run(
            &conn,
            "UPDATE tasks SET deleted_at = ?1, updated_at = ?1, revision = revision + 1
             WHERE id = ?2 AND deleted_at IS NULL",
            params.as_slice(),
        )?;
        Ok(())
    }

    /// Rewrites positions after a drag: each dragged task gets its rank
    /// among the dragged tasks of its own list (see `plan_reorder`); tasks
    /// not dragged keep their positions.
    pub fn reorder_tasks(&self, ordered_ids: Vec<EntityId>) -> (r: Result<(), DomainError>)
        ensures
            ordered_ids@.len() == 0 ==> r is Ok,
            r matches Err(e) ==> e is Internal,
    {
        if ordered_ids.len() == 0 {
            return Ok(());
        }
        if ordered_ids.len() >= i64::MAX as usize {
            return Err(internal_msg("too many tasks"));
        }
        let conn = connect(&self.db)?;
        let now = now_stamp();
        let mut known: Vec<(EntityId, EntityId)> = Vec::new();
        let mut i: usize = 0;
        while i < ordered_ids.len()
            invariant
                i <= ordered_ids@.len(),
                ordered_ids@.len() > 0,
            decreases ordered_ids@.len() - i,
        {
            let params = vec![id_param(ordered_ids[i])];
            let rows = fetch(
                &conn,
                "SELECT id, list_id FROM tasks WHERE id = ?1 AND deleted_at IS NULL",
                params.as_slice(),
            )?;
            let mut k: usize = 0;
            while k < rows.len()
                invariant
                    k <= rows@.len(),
                    ordered_ids@.len() > 0,
                decreases rows@.len() - k,
            {
                let tid = id_at(&rows[k], 0)?;
                let lid = id_at(&rows[k], 1)?;
                known.push((tid, lid));
                k = k + 1;
            }
            i = i + 1;
        }
        let slots = plan_reorder(&ordered_ids, &known);
        begin(&conn)?;
        let mut outcome: Result<(), DomainError> = Ok(());
        let mut j: usize = 0;
        while j < ordered_ids.len()
            invariant
                j <= ordered_ids@.len() == slots@.len(),
                outcome matches Err(e) ==> e is Internal,
            decreases ordered_ids@.len() - j,
        {
            if let Some(slot) = slots[j] {
                let params = vec![
                    SqlValue::Integer(slot),
                    text_param(now.as_str()),
                    id_param(ordered_ids[j]),
                ];
                match run(
                    &conn,
                    "UPDATE tasks SET sort_order = ?1, updated_at = ?2, revision = revision + 1
                     WHERE id = ?3 AND deleted_at IS NULL",
                    params.as_slice(),
                ) {
                    Ok(_) => {},
                    Err(e) => {
                        outcome = Err(e);
                        break ;
                    },
                }
            }
            j = j + 1;
        }
        finish(&conn, outcome)
    }

    /// A live task by id, with its tags.
    pub fn get_task(&self, id: EntityId) -> (r: Result<Task, DomainError>)
        ensures
            r matches Ok(t) ==> t.id == id,
            r matches Err(e) ==> e is Internal || e is NotFound,
    {
        let conn = connect(&self.db)?;
        let mut sql = "SELECT ".to_string();
        sql.append(TASK_ROW_SELECT);
        sql.append(" FROM tasks t JOIN task_lists l ON l.id = t.list_id WHERE t.id = ?1 AND t.deleted_at IS NULL");
        let params = vec![id_param(id)];
        let rows = fetch(&conn, sql.as_str(), params.as_slice())?;
        let mut i: usize = 0;
        while i < rows.len()
            invariant
                i <= rows@.len(),
            decreases rows@.len() - i,
        {
            let mut t = task_from_row(&rows[i])?;
            if t.id == id {
                self.attach_tags(&conn, &mut t)?;
                return Ok(t);
            }
            i = i + 1;
        }
        Err(not_found("任务不存在"))
    }

    /// A page of tasks matching the query, ordered by position (or by
    /// completion time for completed-since queries).
    pub fn query_tasks(&self, query: TaskQuery) -> (r: Result<PagedResult<Task>, DomainError>)
        ensures
            r matches Err(e) ==> e is Internal,
            r matches Ok(p) ==> p.offset == match query.offset {
                Some(o) => if o < 0 {
                    0
                } else {
                    o
                },
                None => 0,
            } && p.has_more == (p.offset + p.items@.len() < p.total),
            r matches Ok(p) ==> rows_decoded(p.items@),
    {
        let conn = connect(&self.db)?;
        let limit = page_limit(query.limit);
        let offset = page_offset(query.offset);
        let today = local_today();
        let (filters, mut values) = task_filters(&query, today.as_str());
        let (count_sql, sql) = task_page_sql(&query, filters.as_str());
        let count_rows = fetch(&conn, count_sql.as_str(), values.as_slice())?;
        let total = single_int(&count_rows)?;
        values.push(SqlValue::Integer(limit));
        values.push(SqlValue::Integer(offset));
        let rows = fetch(&conn, sql.as_str(), values.as_slice())?;
        let mut tasks = decode_tasks(&rows)?;
        let ghost decoded = tasks@;
        self.attach_all_tags(&conn, &mut tasks)?;
        let ghost rs = rows@.map_values(|x: Vec<SqlValue>| x@);
        assert forall|i: int| 0 <= i < tasks@.len() implies task_decodes(#[trigger] tasks@[i], rs[i]) by {
            assert(same_but_tags(decoded[i], tasks@[i]));
            assert(task_decodes(decoded[i], rs[i]));
        }
        assert(decoded_page(rs, tasks@));
        let page = PagedResult::new(tasks, total, offset);
        assert(decoded_page(rs, page.items@));
        assert(rows_decoded(page.items@));
        Ok(page)
    }

    fn attach_all_tags(&self, conn: &Connection, tasks: &mut Vec<Task>) -> (r: Result<
        (),
        DomainError,
    >)
        ensures
            r matches Err(e) ==> e is Internal,
            r is Ok ==> final(tasks)@.len() == old(tasks)@.len() && forall|i: int|
                0 <= i < old(tasks)@.len() ==> same_but_tags(old(tasks)@[i], #[trigger] final(tasks)@[i]),
    {
        let ghost t0 = tasks@;
        let mut out: Vec<Task> = Vec::new();
        while tasks.len() > 0
            invariant
                out@.len() + tasks@.len() == t0.len(),
                tasks@ == t0.skip(out@.len() as int),
                forall|k: int| 0 <= k < out@.len() ==> same_but_tags(t0[k], #[trigger] out@[k]),
            decreases tasks@.len(),
        {
            let ghost before = tasks@;
            let mut t = tasks.remove(0);
            assert(t == t0[out@.len() as int]);
            self.attach_tags(conn, &mut t)?;
            out.push(t);
            assert(tasks@ =~= t0.skip(out@.len() as int));
        }
        *tasks = out;
        Ok(())
    }

    /// Open, active, available tasks not touched for `stale_days` days
    /// (held within 1..=365), least recently updated first.
    pub fn query_stale_active(&self, stale_days: i64, limit: Option<i64>, offset: Option<i64>) -> (r: Result<
        PagedResult<Task>,
        DomainError,
    >)
        ensures
            r matches Ok(p) ==> p.offset == match offset {
                Some(o) => if o < 0 {
                    0
                } else {
                    o
                },
                None => 0,
            },
    {
        let days = stale_window(stale_days);
        let today = local_today();
        let cutoff = match crate::dates::add_days(today.as_str(), 0 - days) {
            Some(c) => c,
            None => return Err(internal_msg("invalid local today")),
        };
        let conn = connect(&self.db)?;
        let limit = page_limit(limit);
        let offset = page_offset(offset);
        let filters = " AND t.status = 'todo' AND t.workflow_state = 'active'
             AND (t.available_at IS NULL OR t.available_at <= ?1)
             AND date(t.updated_at, 'localtime') <= date(?2, 'localtime')";
        let from_clause = " FROM tasks t JOIN task_lists l ON l.id = t.list_id WHERE t.deleted_at IS NULL";
        let mut count_sql = "SELECT COUNT(*)".to_string();
        count_sql.append(from_clause);
        count_sql.append(filters);
        let params = vec![text_param(today.as_str()), text_param(cutoff.as_str())];
        let count_rows = fetch(&conn, count_sql.as_str(), params.as_slice())?;
        let total = single_int(&count_rows)?;
        let mut sql = "SELECT ".to_string();
        sql.append(TASK_ROW_SELECT);
        sql.append(from_clause);
        sql.append(filters);
        sql.append(" ORDER BY t.updated_at ASC, t.sort_order ASC LIMIT ?3 OFFSET ?4");
        let params = vec![
            text_param(today.as_str()),
            text_param(cutoff.as_str()),
            SqlValue::Integer(limit),
            SqlValue::Integer(offset),
        ];
        let rows = fetch(&conn, sql.as_str(), params.as_slice())?;
        let mut tasks = decode_tasks(&rows)?;
        self.attach_all_tags(&conn, &mut tasks)?;
        Ok(PagedResult::new(tasks, total, offset))
    }

    /// A built-in smart list (see `smart_list_query`).
    pub fn smart_list(&self, kind: SmartListKind, limit: Option<i64>, offset: Option<i64>) -> (r:
        Result<PagedResult<Task>, DomainError>)
        ensures
            r matches Err(e) ==> e is Internal,
    {
        let today = local_today();
        let query = smart_list_query(kind, today.as_str(), limit, offset)?;
        self.query_tasks(query)
    }

    fn record_defer_event(&self, task_id: EntityId, kind: &str) -> (r: Result<(), DomainError>)
        ensures
            r matches Err(e) ==> e is Internal,
    {
        let conn = connect(&self.db)?;
        let now = now_stamp();
        let params = vec![id_param(task_id), text_param(kind), SqlValue::Text(now)];
        run(
            &conn,
            "INSERT INTO task_defer_events (task_id, kind, recorded_at) VALUES (?1, ?2, ?3)",
            params.as_slice(),
        )?;
        Ok(())
    }

    /// Moves an open task's due date `days` days (held within 1..=365)
    /// past its due date, or past today when it has none; the move is
    /// recorded as a deferral.
    pub fn postpone_task(&self, id: EntityId, days: i64) -> (r: Result<Task, DomainError>)
        ensures
            r matches Ok(t) ==> t.id == id,
    {
        let days = if days < 1 {
            1
        } else if days > 365 {
            365
        } else {
            days
        };
        let task = self.get_task(id)?;
        if task.status != TaskStatus::Todo {
            return Err(validation("只能延期未完成任务"));
        }
        let base = match &task.due_date {
            Some(d) if crate::dates::is_date(d.as_str()) => d.clone(),
            _ => local_today(),
        };
        let new_due = match crate::dates::add_days(base.as_str(), days) {
            Some(d) => d,
            None => return Err(internal_msg("日期计算失败")),
        };
        self.record_defer_event(id, "postpone")?;
        self.update_task(
            UpdateTaskInput {
                id,
                title: task.title,
                notes: task.notes,
                priority: task.priority,
                list_id: task.list_id,
                due_date: Some(new_due),
                due_time: task.due_time,
                tag_names: task.tag_names,
            },
        )
    }

    /// Hides an open, non-waiting task until `available_at` (blank clears
    /// it); the date may not come after the due date. Deferring past today
    /// is recorded and takes the task off the focus list.
    pub fn set_task_defer(&self, id: EntityId, available_at: Option<String>) -> (r: Result<
        Task,
        DomainError,
    >)
        ensures
            r matches Ok(t) ==> t.id == id,
    {
        let task = self.get_task(id)?;
        let normalized = check_defer(
            task.status,
            task.workflow_state,
            &task.due_date,
            &available_at,
        )?;
        let conn = connect(&self.db)?;
        let now = now_stamp();
        let params = vec![opt_text_param(&normalized), SqlValue::Text(now), id_param(id)];
        let changed = run(
            &conn,
            "UPDATE tasks SET available_at = ?1, updated_at = ?2, revision = revision + 1
             WHERE id = ?3 AND deleted_at IS NULL",
            params.as_slice(),
        )?;
        if changed == 0 {
            return Err(not_found("任务不存在"));
        }
        if let Some(date) = &normalized {
            let today = local_today();
            if crate::dates::str_lt(today.as_str(), date.as_str()) {
                self.record_defer_event(id, "defer")?;
                let params = vec![id_param(id)];
                run(&conn, "DELETE FROM daily_focus WHERE task_id = ?1", params.as_slice())?;
            }
        }
        self.get_task(id)
    }

    /// Marks an open task as waiting (on someone, until a follow-up date);
    /// it leaves the focus list.
    pub fn set_task_waiting(
        &self,
        id: EntityId,
        waiting_for: Option<String>,
        follow_up_date: Option<String>,
    ) -> (r: Result<Task, DomainError>)
        ensures
            r matches Ok(t) ==> t.id == id,
    {
        let task = self.get_task(id)?;
        let (waiting, follow_up) = check_waiting(task.status, &waiting_for, &follow_up_date)?;
        let conn = connect(&self.db)?;
        let now = now_stamp();
        let params = vec![
            opt_text_param(&waiting),
            opt_text_param(&follow_up),
            SqlValue::Text(now),
            id_param(id),
        ];
        let changed = run(
            &conn,
            "UPDATE tasks SET workflow_state = 'waiting', waiting_for = ?1,
             follow_up_date = ?2, updated_at = ?3, revision = revision + 1
             WHERE id = ?4 AND deleted_at IS NULL",
            params.as_slice(),
        )?;
        if changed == 0 {
            return Err(not_found("任务不存在"));
        }
        let params = vec![id_param(id)];
        run(&conn, "DELETE FROM daily_focus WHERE task_id = ?1", params.as_slice())?;
        self.get_task(id)
    }

    /// Ends the waiting state of an open, waiting task.
    pub fn clear_task_waiting(&self, id: EntityId) -> (r: Result<Task, DomainError>)
        ensures
            r matches Ok(t) ==> t.id == id,
    {
        let task = self.get_task(id)?;
        if task.status != TaskStatus::Todo {
            return Err(validation("只能结束待办任务的等待"));
        }
        if task.workflow_state != TaskWorkflowState::Waiting {
            return Err(validation("任务不在等待中"));
        }
        let conn = connect(&self.db)?;
        let now = now_stamp();
        let params = vec![SqlValue::Text(now), id_param(id)];
        let changed = run(
            &conn,
            "UPDATE tasks SET workflow_state = 'active', waiting_for = NULL,
             follow_up_date = NULL, updated_at = ?1, revision = revision + 1
             WHERE id = ?2 AND deleted_at IS NULL",
            params.as_slice(),
        )?;
        if changed == 0 {
            return Err(not_found("任务不存在"));
        }
        self.get_task(id)
    }

    /// Adds an eligible task to a day's focus list (today by default), at
    /// the end; adding it twice changes nothing.
    pub fn daily_focus_add(&self, task_id: EntityId, focus_date: Option<String>) -> (r: Result<
        Task,
        DomainError,
    >)
        ensures
            r matches Ok(t) ==> t.id == task_id,
    {
        let today = local_today();
        let date = normalize_focus_date(&focus_date, today.as_str())?;
        let task = self.get_task(task_id)?;
        validate_focus_eligible(
            task.status,
            task.workflow_state,
            &task.available_at,
            date.as_str(),
        )?;
        let conn = connect(&self.db)?;
        let params = vec![text_param(date.as_str()), id_param(task_id)];
        let rows = fetch(
            &conn,
            "SELECT 1 FROM daily_focus WHERE focus_date = ?1 AND task_id = ?2",
            params.as_slice(),
        )?;
        if rows.len() > 0 {
            return Ok(task);
        }
        let params = vec![text_param(date.as_str())];
        let rows = fetch(
            &conn,
            "SELECT COALESCE(MAX(sort_order), -1) + 1 FROM daily_focus WHERE focus_date = ?1",
            params.as_slice(),
        )?;
        let next = single_int(&rows)?;
        let now = now_stamp();
        let params = vec![
            SqlValue::Text(date),
            id_param(task_id),
            SqlValue::Integer(next),
            SqlValue::Text(now),
        ];
        run(
            &conn,
            "INSERT INTO daily_focus (focus_date, task_id, sort_order, added_at, carried_from_date)
             VALUES (?1, ?2, ?3, ?4, NULL)",
            params.as_slice(),
        )?;
        self.get_task(task_id)
    }

    /// Takes a task off a day's focus list (today by default).
    pub fn daily_focus_remove(&self, task_id: EntityId, focus_date: Option<String>) -> (r: Result<
        Task,
        DomainError,
    >)
        ensures
            r matches Ok(t) ==> t.id == task_id,
    {
        let today = local_today();
        let date = normalize_focus_date(&focus_date, today.as_str())?;
        let conn = connect(&self.db)?;
        let params = vec![SqlValue::Text(date), id_param(task_id)];
        run(
            &conn,
            "DELETE FROM daily_focus WHERE focus_date = ?1 AND task_id = ?2",
            params.as_slice(),
        )?;
        self.get_task(task_id)
    }

    /// Renumbers a day's focus list in the given order (0, 1, 2, …); a
    /// focus date that is given must be a valid date.
    pub fn daily_focus_reorder(&self, task_ids: Vec<EntityId>, focus_date: Option<String>) -> (r:
        Result<(), DomainError>)
        ensures
            task_ids@.len() == 0 ==> r is Ok,
            task_ids@.len() > 0 && (nonblank(opt_str_view(focus_date)) matches Some(d) && !is_date_text(d))
                ==> r matches Err(DomainError::Validation(_)),
            r matches Err(e) ==> e is Validation || e is Internal,
    {
        if task_ids.len() == 0 {
            return Ok(());
        }
        let today = local_today();
        let date = normalize_focus_date(&focus_date, today.as_str())?;
        let conn = connect(&self.db)?;
        begin(&conn)?;
        let mut outcome: Result<(), DomainError> = Ok(());
        let mut i: usize = 0;
        while i < task_ids.len()
            invariant
                i <= task_ids@.len(),
                outcome matches Err(e) ==> e is Internal,
            decreases task_ids@.len() - i,
        {
            if i >= i64::MAX as usize {
                break ;
            }
            let params = vec![
                SqlValue::Integer(i as i64),
                text_param(date.as_str()),
                id_param(task_ids[i]),
            ];
            match run(
                &conn,
                "UPDATE daily_focus SET sort_order = ?1 WHERE focus_date = ?2 AND task_id = ?3",
                params.as_slice(),
            ) {
                Ok(_) => {},
                Err(e) => {
                    outcome = Err(e);
                    break ;
                },
            }
            i = i + 1;
        }
        finish(&conn, outcome)
    }

    /// Carries the still-eligible focus tasks of one day to another,
    /// appending them after the target day's own focus tasks.
    pub fn daily_focus_carry(&self, from_date: String, to_date: String) -> (r: Result<
        Vec<Task>,
        DomainError,
    >)
        ensures
            !is_date_text(trim(from_date@)) || !is_date_text(trim(to_date@)) ==> r is Err,
    {
        let from_date = trimmed(from_date.as_str());
        let to_date = trimmed(to_date.as_str());
        validate_due_date(from_date.as_str())?;
        validate_due_date(to_date.as_str())?;
        let conn = connect(&self.db)?;
        let now = now_stamp();
        let params = vec![text_param(from_date.as_str()), text_param(to_date.as_str())];
        let rows = fetch(
            &conn,
            "SELECT t.id FROM tasks t
             JOIN daily_focus df ON df.task_id = t.id AND df.focus_date = ?1
             WHERE t.deleted_at IS NULL AND t.status = 'todo'
               AND t.workflow_state = 'active'
               AND (t.available_at IS NULL OR t.available_at <= ?2)
               AND t.id NOT IN (SELECT task_id FROM daily_focus WHERE focus_date = ?2)
             ORDER BY df.sort_order ASC",
            params.as_slice(),
        )?;
        let task_ids = decode_ids(&rows)?;
        let params = vec![text_param(to_date.as_str())];
        let rows = fetch(
            &conn,
            "SELECT COALESCE(MAX(sort_order), -1) FROM daily_focus WHERE focus_date = ?1",
            params.as_slice(),
        )?;
        let mut max_order = single_int(&rows)?;
        begin(&conn)?;
        let mut outcome: Result<(), DomainError> = Ok(());
        let mut i: usize = 0;
        while i < task_ids.len()
            invariant
                i <= task_ids@.len(),
            decreases task_ids@.len() - i,
        {
            if max_order == i64::MAX {
                outcome = Err(internal_msg("focus order overflow"));
                break ;
            }
            max_order = max_order + 1;
            let params = vec![
                text_param(to_date.as_str()),
                id_param(task_ids[i]),
                SqlValue::Integer(max_order),
                text_param(now.as_str()),
                text_param(from_date.as_str()),
            ];
            match run(
                &conn,
                "INSERT INTO daily_focus (focus_date, task_id, sort_order, added_at, carried_from_date)
                 VALUES (?1, ?2, ?3, ?4, ?5)",
                params.as_slice(),
            ) {
                Ok(_) => {},
                Err(e) => {
                    outcome = Err(e);
                    break ;
                },
            }
            i = i + 1;
        }
        finish(&conn, outcome)?;
        let mut carried: Vec<Task> = Vec::new();
        let mut j: usize = 0;
        while j < task_ids.len()
            invariant
                j <= task_ids@.len(),
            decreases task_ids@.len() - j,
        {
            carried.push(self.get_task(task_ids[j])?);
            j = j + 1;
        }
        Ok(carried)
    }

    fn query_bucket(&self, conn: &Connection, tail: &str, params: &[SqlValue]) -> (r: Result<
        Vec<Task>,
        DomainError,
    >)
        ensures
            r matches Err(e) ==> e is Internal,
    {
        let mut sql = "SELECT ".to_string();
        sql.append(TASK_ROW_SELECT);
        sql.append(" FROM tasks t JOIN task_lists l ON l.id = t.list_id ");
        sql.append(tail);
        let rows = fetch(conn, sql.as_str(), params)?;
        let mut tasks = decode_tasks(&rows)?;
        self.attach_all_tags(conn, &mut tasks)?;
        Ok(tasks)
    }

    /// The today view: overdue, due today, completed today, focus, waiting
    /// follow-ups due and yesterday's focus tasks that could be carried.
    pub fn today_tasks(&self) -> (r: Result<TodayTasks, DomainError>)
        ensures
            r matches Err(e) ==> e is Internal,
            r matches Ok(t) ==> t.reminders_today@.len() == 0,
    {
        let today = local_today();
        let conn = connect(&self.db)?;
        let p1 = vec![text_param(today.as_str())];
        let overdue = self.query_bucket(
            &conn,
            "WHERE t.deleted_at IS NULL AND t.status = 'todo' AND t.due_date IS NOT NULL AND t.due_date < ?1
             AND t.workflow_state = 'active' AND (t.available_at IS NULL OR t.available_at <= ?1)
             ORDER BY t.due_date ASC, t.sort_order ASC",
            p1.as_slice(),
        )?;
        let due_today = self.query_bucket(
            &conn,
            "WHERE t.deleted_at IS NULL AND t.status = 'todo' AND t.due_date = ?1
             AND t.workflow_state = 'active' AND (t.available_at IS NULL OR t.available_at <= ?1)
             ORDER BY t.sort_order ASC, t.created_at DESC",
            p1.as_slice(),
        )?;
        let completed_today = self.query_bucket(
            &conn,
            "WHERE t.deleted_at IS NULL
               AND t.status = 'completed' AND t.completed_at IS NOT NULL
               AND date(t.completed_at, 'localtime') = date('now', 'localtime')
             ORDER BY t.completed_at DESC",
            &[],
        )?;
        let waiting_follow_up = self.query_bucket(
            &conn,
            "WHERE t.deleted_at IS NULL AND t.status = 'todo' AND t.workflow_state = 'waiting'
             AND t.follow_up_date IS NOT NULL AND t.follow_up_date <= ?1
             AND (t.available_at IS NULL OR t.available_at <= ?1)
             ORDER BY t.follow_up_date ASC, t.sort_order ASC",
            p1.as_slice(),
        )?;
        let focus = self.query_bucket(
            &conn,
            "JOIN daily_focus df ON df.task_id = t.id AND df.focus_date = ?1
             WHERE t.deleted_at IS NULL AND t.status = 'todo'
             ORDER BY df.sort_order ASC, df.added_at ASC",
            p1.as_slice(),
        )?;
        let yesterday = match crate::dates::add_days(today.as_str(), -1) {
            Some(d) => d,
            None => return Err(internal_msg("invalid local today")),
        };
        let p2 = vec![SqlValue::Text(yesterday), text_param(today.as_str())];
        let focus_carry_suggestions = self.query_bucket(
            &conn,
            "JOIN daily_focus df ON df.task_id = t.id AND df.focus_date = ?1
             WHERE t.deleted_at IS NULL AND t.status = 'todo'
               AND t.workflow_state = 'active'
               AND (t.available_at IS NULL OR t.available_at <= ?2)
               AND t.id NOT IN (SELECT task_id FROM daily_focus WHERE focus_date = ?2)
             ORDER BY df.sort_order ASC, df.added_at ASC",
            p2.as_slice(),
        )?;
        Ok(
            TodayTasks {
                overdue,
                due_today,
                completed_today,
                focus,
                waiting_follow_up,
                focus_carry_suggestions,
                reminders_today: Vec::new(),
                today,
            },
        )
    }

    /// How often each of the given tasks was deferred or postponed, as
    /// `(task, count)` pairs for the tasks that were.
    pub fn defer_counts_for_tasks(&self, task_ids: &[EntityId]) -> (r: Result<
        Vec<(EntityId, i64)>,
        DomainError,
    >)
        ensures
            r matches Ok(v) ==> v@.len() <= task_ids@.len(),
            r matches Err(e) ==> e is Internal,
    {
        let conn = connect(&self.db)?;
        let mut out: Vec<(EntityId, i64)> = Vec::new();
        let mut i: usize = 0;
        while i < task_ids.len()
            invariant
                i <= task_ids@.len(),
                out@.len() <= i,
            decreases task_ids@.len() - i,
        {
            let params = vec![id_param(task_ids[i])];
            let rows = fetch(
                &conn,
                "SELECT COUNT(*) FROM task_defer_events WHERE task_id = ?1",
                params.as_slice(),
            )?;
            let n = single_int(&rows)?;
            if n > 0 {
                out.push((task_ids[i], n));
            }
            i = i + 1;
        }
        Ok(out)
    }

    /// Live tags by name.
    pub fn list_tags(&self) -> (r: Result<Vec<Tag>, DomainError>)
        ensures
            r matches Err(e) ==> e is Internal,
    {
        let conn = connect(&self.db)?;
        let rows = fetch(
            &conn,
            "SELECT id, name, created_at, updated_at, revision
             FROM tags WHERE deleted_at IS NULL ORDER BY name COLLATE NOCASE",
            &[],
        )?;
        let mut out: Vec<Tag> = Vec::new();
        let mut i: usize = 0;
        while i < rows.len()
            invariant
                i <= rows@.len(),
            decreases rows@.len() - i,
        {
            let row = &rows[i];
            out.push(
                Tag {
                    id: id_at(row, 0)?,
                    name: text_at(row, 1)?,
                    created_at: text_at(row, 2)?,
                    updated_at: text_at(row, 3)?,
                    revision: int_at(row, 4)?,
                },
            );
            i = i + 1;
        }
        Ok(out)
    }

    /// Open active tasks in the inbox, and open active overdue tasks.
    pub fn counts(&self) -> (r: Result<TaskCounts, DomainError>)
        ensures
            r matches Err(e) ==> e is Internal,
    {
        let today = local_today();
        let conn = connect(&self.db)?;
        let params = vec![text_param(today.as_str())];
        let rows = fetch(
            &conn,
            "SELECT COUNT(*) FROM tasks t
             JOIN task_lists l ON l.id = t.list_id
             WHERE t.deleted_at IS NULL AND t.status = 'todo' AND l.kind = 'inbox'
               AND t.workflow_state = 'active'
               AND (t.available_at IS NULL OR t.available_at <= ?1)",
            params.as_slice(),
        )?;
        let inbox = single_int(&rows)?;
        let rows = fetch(
            &conn,
            "SELECT COUNT(*) FROM tasks
             WHERE deleted_at IS NULL AND status = 'todo'
               AND workflow_state = 'active'
               AND (available_at IS NULL OR available_at <= ?1)
               AND due_date IS NOT NULL AND due_date < ?1",
            params.as_slice(),
        )?;
        let overdue = single_int(&rows)?;
        Ok(TaskCounts { inbox, overdue })
    }

    fn attach_tags(&self, conn: &Connection, task: &mut Task) -> (r: Result<(), DomainError>)
        ensures
            final(task).id == old(task).id,
            same_but_tags(*old(task), *final(task)),
            r matches Err(e) ==> e is Internal,
    {
        let params = vec![id_param(task.id)];
        let rows = fetch(
            conn,
            "SELECT tg.id, tg.name FROM tags tg
             JOIN task_tags tt ON tt.tag_id = tg.id
             WHERE tt.task_id = ?1 AND tg.deleted_at IS NULL
             ORDER BY tg.name COLLATE NOCASE",
            params.as_slice(),
        )?;
        let mut ids: Vec<EntityId> = Vec::new();
        let mut names: Vec<String> = Vec::new();
        let mut i: usize = 0;
        while i < rows.len()
            invariant
                i <= rows@.len(),
            decreases rows@.len() - i,
        {
            ids.push(id_at(&rows[i], 0)?);
            names.push(text_at(&rows[i], 1)?);
            i = i + 1;
        }
        task.tag_ids = ids;
        task.tag_names = names;
        Ok(())
    }

    fn replace_tags(&self, conn: &Connection, task_id: EntityId, tag_names: &Vec<String>) -> (r:
        Result<(), DomainError>)
        ensures
            r matches Err(e) ==> e is Internal,
    {
        let params = vec![id_param(task_id)];
        run(conn, "DELETE FROM task_tags WHERE task_id = ?1", params.as_slice())?;
        let now = now_stamp();
        let mut i: usize = 0;
        while i < tag_names.len()
            invariant
                i <= tag_names@.len(),
            decreases tag_names@.len() - i,
        {
            let name = trimmed(tag_names[i].as_str());
            if !name.as_str().is_empty() {
                let tag_id = crate::tags::find_or_create_tag(conn, name.as_str(), now.as_str())?;
                let params = vec![id_param(task_id), id_param(tag_id)];
                run(
                    conn,
                    "INSERT OR IGNORE INTO task_tags (task_id, tag_id) VALUES (?1, ?2)",
                    params.as_slice(),
                )?;
            }
            i = i + 1;
        }
        Ok(())
    }
}

} // verus!
