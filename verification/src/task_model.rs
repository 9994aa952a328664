//! Tasks, lists and tags: their vocabularies and stored shape.

use vstd::prelude::*;

use crate::db::SqlValue;
use crate::domain::{internal_msg, str_eq, validation, DomainError};
use crate::ids::EntityId;
use crate::rows::{
    id_at, id_cell, int_at, int_cell, opt_id_at, opt_id_cell, opt_text_at, opt_text_cell, text_at,
    text_cell,
};

verus! {

#[derive(PartialEq, Eq, Structural, Clone, Copy, Debug)]
pub enum TaskStatus {
    Todo,
    Completed,
    Archived,
}

pub open spec fn task_status_text(s: TaskStatus) -> Seq<char> {
    match s {
        TaskStatus::Todo => "todo"@,
        TaskStatus::Completed => "completed"@,
        TaskStatus::Archived => "archived"@,
    }
}

impl TaskStatus {
    pub fn as_str(&self) -> (r: &'static str)
        ensures
            r@ == task_status_text(*self),
    {
        match self {
            TaskStatus::Todo => "todo",
            TaskStatus::Completed => "completed",
            TaskStatus::Archived => "archived",
        }
    }

    pub fn parse(value: &str) -> (r: Result<TaskStatus, DomainError>)
        ensures
            r matches Ok(s) ==> task_status_text(s) == value@,
            r is Err ==> forall|s: TaskStatus| task_status_text(s) != value@,
            r matches Err(e) ==> e is Validation,
    {
        if str_eq(value, "todo") {
            Ok(TaskStatus::Todo)
        } else if str_eq(value, "completed") {
            Ok(TaskStatus::Completed)
        } else if str_eq(value, "archived") {
            Ok(TaskStatus::Archived)
        } else {
            proof {
                assert forall|s: TaskStatus| task_status_text(s) != value@ by {
                    match s {
                        TaskStatus::Todo => {},
                        TaskStatus::Completed => {},
                        TaskStatus::Archived => {},
                    }
                }
            }
            Err(validation("无效的任务状态"))
        }
    }
}

#[derive(PartialEq, Eq, Structural, Clone, Copy, Debug)]
pub enum TaskPriority {
    /// No priority (stored as `none`).
    Unset,
    Low,
    Medium,
    High,
}

pub open spec fn task_priority_text(p: TaskPriority) -> Seq<char> {
    match p {
        TaskPriority::Unset => "none"@,
        TaskPriority::Low => "low"@,
        TaskPriority::Medium => "medium"@,
        TaskPriority::High => "high"@,
    }
}

/// Distinct priorities have distinct texts.
pub proof fn lemma_priority_text_injective(a: TaskPriority, b: TaskPriority)
    ensures
        task_priority_text(a) == task_priority_text(b) ==> a == b,
{
    reveal_strlit("none");
    reveal_strlit("low");
    reveal_strlit("medium");
    reveal_strlit("high");
    if task_priority_text(a) == task_priority_text(b) {
        assert(task_priority_text(a)[0] == task_priority_text(b)[0]);
        assert(task_priority_text(a).len() == task_priority_text(b).len());
    }
}

impl TaskPriority {
    pub fn as_str(&self) -> (r: &'static str)
        ensures
            r@ == task_priority_text(*self),
    {
        match self {
            TaskPriority::Unset => "none",
            TaskPriority::Low => "low",
            TaskPriority::Medium => "medium",
            TaskPriority::High => "high",
        }
    }

    pub fn parse(value: &str) -> (r: Result<TaskPriority, DomainError>)
        ensures
            r matches Ok(p) ==> task_priority_text(p) == value@,
            r is Err ==> forall|p: TaskPriority| task_priority_text(p) != value@,
            r matches Err(e) ==> e is Validation,
    {
        if str_eq(value, "none") {
            Ok(TaskPriority::Unset)
        } else if str_eq(value, "low") {
            Ok(TaskPriority::Low)
        } else if str_eq(value, "medium") {
            Ok(TaskPriority::Medium)
        } else if str_eq(value, "high") {
            Ok(TaskPriority::High)
        } else {
            proof {
                assert forall|p: TaskPriority| task_priority_text(p) != value@ by {
                    match p {
                        TaskPriority::Unset => {},
                        TaskPriority::Low => {},
                        TaskPriority::Medium => {},
                        TaskPriority::High => {},
                    }
                }
            }
            Err(validation("无效的优先级"))
        }
    }
}

#[derive(PartialEq, Eq, Structural, Clone, Copy, Debug)]
pub enum ListKind {
    Inbox,
    Custom,
}

pub open spec fn list_kind_text(k: ListKind) -> Seq<char> {
    match k {
        ListKind::Inbox => "inbox"@,
        ListKind::Custom => "custom"@,
    }
}

impl ListKind {
    pub fn as_str(&self) -> (r: &'static str)
        ensures
            r@ == list_kind_text(*self),
    {
        match self {
            ListKind::Inbox => "inbox",
            ListKind::Custom => "custom",
        }
    }

    pub fn parse(value: &str) -> (r: Result<ListKind, DomainError>)
        ensures
            r matches Ok(k) ==> list_kind_text(k) == value@,
            r is Err ==> forall|k: ListKind| list_kind_text(k) != value@,
            r matches Err(e) ==> e is Validation,
    {
        if str_eq(value, "inbox") {
            Ok(ListKind::Inbox)
        } else if str_eq(value, "custom") {
            Ok(ListKind::Custom)
        } else {
            proof {
                assert forall|k: ListKind| list_kind_text(k) != value@ by {
                    match k {
                        ListKind::Inbox => {},
                        ListKind::Custom => {},
                    }
                }
            }
            Err(validation("无效的清单类型"))
        }
    }
}

#[derive(PartialEq, Eq, Structural, Clone, Copy, Debug)]
pub enum TaskWorkflowState {
    Active,
    Waiting,
}

pub open spec fn workflow_text(w: TaskWorkflowState) -> Seq<char> {
    match w {
        TaskWorkflowState::Active => "active"@,
        TaskWorkflowState::Waiting => "waiting"@,
    }
}

impl TaskWorkflowState {
    pub fn as_str(&self) -> (r: &'static str)
        ensures
            r@ == workflow_text(*self),
    {
        match self {
            TaskWorkflowState::Active => "active",
            TaskWorkflowState::Waiting => "waiting",
        }
    }

    pub fn parse(value: &str) -> (r: Result<TaskWorkflowState, DomainError>)
        ensures
            r matches Ok(w) ==> workflow_text(w) == value@,
            r is Err ==> forall|w: TaskWorkflowState| workflow_text(w) != value@,
            r matches Err(e) ==> e is Validation,
    {
        if str_eq(value, "active") {
            Ok(TaskWorkflowState::Active)
        } else if str_eq(value, "waiting") {
            Ok(TaskWorkflowState::Waiting)
        } else {
            proof {
                assert forall|w: TaskWorkflowState| workflow_text(w) != value@ by {
                    match w {
                        TaskWorkflowState::Active => {},
                        TaskWorkflowState::Waiting => {},
                    }
                }
            }
            Err(validation("无效的任务流转状态"))
        }
    }
}

pub struct TaskList {
    pub id: EntityId,
    pub name: String,
    pub kind: ListKind,
    pub sort_order: i64,
    pub created_at: String,
    pub updated_at: String,
    pub revision: i64,
}

pub struct Tag {
    pub id: EntityId,
    pub name: String,
    pub created_at: String,
    pub updated_at: String,
    pub revision: i64,
}

pub struct Task {
    pub id: EntityId,
    pub title: String,
    pub notes: String,
    pub status: TaskStatus,
    pub priority: TaskPriority,
    pub list_id: EntityId,
    pub list_name: String,
    pub list_kind: ListKind,
    pub due_date: Option<String>,
    pub due_time: Option<String>,
    pub completed_at: Option<String>,
    pub sort_order: i64,
    pub series_id: Option<EntityId>,
    pub tag_ids: Vec<EntityId>,
    pub tag_names: Vec<String>,
    pub workflow_state: TaskWorkflowState,
    pub available_at: Option<String>,
    pub waiting_for: Option<String>,
    pub follow_up_date: Option<String>,
    pub created_at: String,
    pub updated_at: String,
    pub revision: i64,
}

pub struct CreateTaskInput {
    pub title: String,
    pub notes: Option<String>,
    pub priority: Option<TaskPriority>,
    pub list_id: Option<EntityId>,
    pub due_date: Option<String>,
    pub due_time: Option<String>,
    pub tag_names: Option<Vec<String>>,
}

pub struct UpdateTaskInput {
    pub id: EntityId,
    pub title: String,
    pub notes: String,
    pub priority: TaskPriority,
    pub list_id: EntityId,
    pub due_date: Option<String>,
    pub due_time: Option<String>,
    pub tag_names: Vec<String>,
}

pub struct TaskCounts {
    pub inbox: i64,
    pub overdue: i64,
}

/// A page of query results.
pub struct PagedResult<T> {
    pub items: Vec<T>,
    pub total: i64,
    pub offset: i64,
    pub has_more: bool,
}

/// Page size asked for, defaulting to 50 and held within 1..=200.
pub open spec fn page_limit_spec(limit: Option<i64>) -> i64 {
    match limit {
        Some(l) => if l < 1 {
            1
        } else if l > 200 {
            200
        } else {
            l
        },
        None => 50,
    }
}

pub fn page_limit(limit: Option<i64>) -> (r: i64)
    ensures
        r == page_limit_spec(limit),
{
    match limit {
        Some(l) => if l < 1 {
            1
        } else if l > 200 {
            200
        } else {
            l
        },
        None => 50,
    }
}

/// Page start, never negative.
pub fn page_offset(offset: Option<i64>) -> (r: i64)
    ensures
        r == match offset {
            Some(o) => if o < 0 {
                0
            } else {
                o
            },
            None => 0,
        },
{
    match offset {
        Some(o) => if o < 0 {
            0
        } else {
            o
        },
        None => 0,
    }
}

impl<T> PagedResult<T> {
    /// A page starting at `offset` out of `total` items; more items follow
    /// when the page ends before `total`.
    pub fn new(items: Vec<T>, total: i64, offset: i64) -> (r: PagedResult<T>)
        ensures
            r.items@ == items@,
            r.total == total,
            r.offset == offset,
            r.has_more == (offset + items@.len() < total),
    {
        let n = items.len();
        let has_more = (offset as i128) + (n as i128) < (total as i128);
        PagedResult { items, total, offset, has_more }
    }
}

/// The row shape of a list: id, name, kind, sort_order, created_at,
/// updated_at, revision.
pub open spec fn list_row_ok(row: Seq<SqlValue>) -> bool {
    &&& id_cell(row, 0) is Some
    &&& text_cell(row, 1) is Some
    &&& text_cell(row, 2) is Some
    &&& exists|k: ListKind| list_kind_text(k) == text_cell(row, 2).unwrap()
    &&& int_cell(row, 3) is Some
    &&& text_cell(row, 4) is Some
    &&& text_cell(row, 5) is Some
    &&& int_cell(row, 6) is Some
}

pub fn list_from_row(row: &Vec<SqlValue>) -> (r: Result<TaskList, DomainError>)
    ensures
        r is Ok <==> list_row_ok(row@),
        r matches Ok(l) ==> l.id == id_cell(row@, 0).unwrap() && l.name@ == text_cell(
            row@,
            1,
        ).unwrap() && list_kind_text(l.kind) == text_cell(row@, 2).unwrap() && l.sort_order
            == int_cell(row@, 3).unwrap() && l.revision == int_cell(row@, 6).unwrap(),
        r matches Err(e) ==> e is Internal,
{
    let id = id_at(row, 0)?;
    let name = text_at(row, 1)?;
    let kind_text = text_at(row, 2)?;
    let kind = match ListKind::parse(kind_text.as_str()) {
        Ok(v) => v,
        Err(_) => return Err(internal_msg("unexpected column value")),
    };
    let sort_order = int_at(row, 3)?;
    let created_at = text_at(row, 4)?;
    let updated_at = text_at(row, 5)?;
    let revision = int_at(row, 6)?;
    Ok(TaskList { id, name, kind, sort_order, created_at, updated_at, revision })
}

/// Columns of a task row, in order.
pub const TASK_ROW_SELECT: &'static str = "t.id, t.title, t.notes, t.status, t.priority, t.list_id,
                    l.name, l.kind, t.due_date, t.due_time, t.completed_at, t.sort_order, t.series_id,
                    t.workflow_state, t.available_at, t.waiting_for, t.follow_up_date,
                    t.created_at, t.updated_at, t.revision";

/// The row shape of a task (see `TASK_ROW_SELECT`).
pub open spec fn task_row_ok(row: Seq<SqlValue>) -> bool {
    &&& id_cell(row, 0) is Some
    &&& text_cell(row, 1) is Some
    &&& text_cell(row, 2) is Some
    &&& text_cell(row, 3) is Some && exists|s: TaskStatus| task_status_text(s) == text_cell(row, 3).unwrap()
    &&& text_cell(row, 4) is Some && exists|p: TaskPriority| task_priority_text(p) == text_cell(row, 4).unwrap()
    &&& id_cell(row, 5) is Some
    &&& text_cell(row, 6) is Some
    &&& text_cell(row, 7) is Some && exists|k: ListKind| list_kind_text(k) == text_cell(row, 7).unwrap()
    &&& opt_text_cell(row, 8) is Some
    &&& opt_text_cell(row, 9) is Some
    &&& opt_text_cell(row, 10) is Some
    &&& int_cell(row, 11) is Some
    &&& opt_id_cell(row, 12) is Some
    &&& text_cell(row, 13) is Some && exists|w: TaskWorkflowState| workflow_text(w) == text_cell(row, 13).unwrap()
    &&& opt_text_cell(row, 14) is Some
    &&& opt_text_cell(row, 15) is Some
    &&& opt_text_cell(row, 16) is Some
    &&& text_cell(row, 17) is Some
    &&& text_cell(row, 18) is Some
    &&& int_cell(row, 19) is Some
}

pub open spec fn opt_view(o: Option<String>) -> Option<Seq<char>> {
    match o {
        Some(s) => Some(s@),
        None => None,
    }
}

/// `t` is the decoding of `row`; its tags are not part of the row.
pub open spec fn task_decodes(t: Task, row: Seq<SqlValue>) -> bool {
    &&& t.id == id_cell(row, 0).unwrap()
    &&& t.title@ == text_cell(row, 1).unwrap()
    &&& t.notes@ == text_cell(row, 2).unwrap()
    &&& task_status_text(t.status) == text_cell(row, 3).unwrap()
    &&& task_priority_text(t.priority) == text_cell(row, 4).unwrap()
    &&& t.list_id == id_cell(row, 5).unwrap()
    &&& t.list_name@ == text_cell(row, 6).unwrap()
    &&& list_kind_text(t.list_kind) == text_cell(row, 7).unwrap()
    &&& opt_view(t.due_date) == opt_text_cell(row, 8).unwrap()
    &&& opt_view(t.due_time) == opt_text_cell(row, 9).unwrap()
    &&& opt_view(t.completed_at) == opt_text_cell(row, 10).unwrap()
    &&& t.sort_order == int_cell(row, 11).unwrap()
    &&& t.series_id == opt_id_cell(row, 12).unwrap()
    &&& workflow_text(t.workflow_state) == text_cell(row, 13).unwrap()
    &&& opt_view(t.available_at) == opt_text_cell(row, 14).unwrap()
    &&& opt_view(t.waiting_for) == opt_text_cell(row, 15).unwrap()
    &&& opt_view(t.follow_up_date) == opt_text_cell(row, 16).unwrap()
    &&& t.revision == int_cell(row, 19).unwrap()
}

/// `b` is `a` with (possibly) other tags.
pub open spec fn same_but_tags(a: Task, b: Task) -> bool {
    &&& a.id == b.id && a.title == b.title && a.notes == b.notes && a.status == b.status
    &&& a.priority == b.priority && a.list_id == b.list_id && a.list_name == b.list_name
    &&& a.list_kind == b.list_kind && a.due_date == b.due_date && a.due_time == b.due_time
    &&& a.completed_at == b.completed_at && a.sort_order == b.sort_order && a.series_id == b.series_id
    &&& a.workflow_state == b.workflow_state && a.available_at == b.available_at
    &&& a.waiting_for == b.waiting_for && a.follow_up_date == b.follow_up_date
    &&& a.created_at == b.created_at && a.updated_at == b.updated_at && a.revision == b.revision
}

/// The tasks are the rows, decoded one for one (tags aside).
pub open spec fn decoded_page(rows: Seq<Seq<SqlValue>>, items: Seq<Task>) -> bool {
    rows.len() == items.len() && forall|i: int| 0 <= i < items.len() ==> task_decodes(#[trigger] items[i], rows[i])
}

/// The tasks are some fetched rows, decoded one for one (tags aside).
pub open spec fn rows_decoded(items: Seq<Task>) -> bool {
    exists|rows: Seq<Seq<SqlValue>>| #[trigger] decoded_page(rows, items)
}

pub fn task_from_row(row: &Vec<SqlValue>) -> (r: Result<Task, DomainError>)
    ensures
        r is Ok <==> task_row_ok(row@),
        r matches Ok(t) ==> task_decodes(t, row@) && t.tag_ids@.len() == 0 && t.tag_names@.len()
            == 0,
        r matches Err(e) ==> e is Internal,
{
    let id = id_at(row, 0)?;
    let title = text_at(row, 1)?;
    let notes = text_at(row, 2)?;
    let status_text = text_at(row, 3)?;
    let status = match TaskStatus::parse(status_text.as_str()) {
        Ok(v) => v,
        Err(_) => return Err(internal_msg("unexpected column value")),
    };
    let priority_text = text_at(row, 4)?;
    let priority = match TaskPriority::parse(priority_text.as_str()) {
        Ok(v) => v,
        Err(_) => return Err(internal_msg("unexpected column value")),
    };
    let list_id = id_at(row, 5)?;
    let list_name = text_at(row, 6)?;
    let kind_text = text_at(row, 7)?;
    let list_kind = match ListKind::parse(kind_text.as_str()) {
        Ok(v) => v,
        Err(_) => return Err(internal_msg("unexpected column value")),
    };
    let due_date = opt_text_at(row, 8)?;
    let due_time = opt_text_at(row, 9)?;
    let completed_at = opt_text_at(row, 10)?;
    let sort_order = int_at(row, 11)?;
    let series_id = opt_id_at(row, 12)?;
    let wf_text = text_at(row, 13)?;
    let workflow_state = match TaskWorkflowState::parse(wf_text.as_str()) {
        Ok(v) => v,
        Err(_) => return Err(internal_msg("unexpected column value")),
    };
    let available_at = opt_text_at(row, 14)?;
    let waiting_for = opt_text_at(row, 15)?;
    let follow_up_date = opt_text_at(row, 16)?;
    let created_at = text_at(row, 17)?;
    let updated_at = text_at(row, 18)?;
    let revision = int_at(row, 19)?;
    Ok(
        Task {
            id,
            title,
            notes,
            status,
            priority,
            list_id,
            list_name,
            list_kind,
            due_date,
            due_time,
            completed_at,
            sort_order,
            series_id,
            tag_ids: Vec::new(),
            tag_names: Vec::new(),
            workflow_state,
            available_at,
            waiting_for,
            follow_up_date,
            created_at,
            updated_at,
            revision,
        },
    )
}

} // verus!
