//! Task queries: the filter set a caller asks for, its translation into
//! SQL conditions, and the built-in smart lists.

use vstd::prelude::*;

use crate::chars::trim;
use crate::dates::{add_days, date_plus_days};
use crate::db::{sql_text, SqlValue};
use crate::domain::{internal_msg, DomainError};
use crate::ids::{id_text, EntityId};
use crate::rows::{id_param, text_param};
use crate::task_model::{
    task_priority_text, task_status_text, workflow_text, TaskPriority, TaskStatus, TaskWorkflowState,
};
use crate::task_rules::{nonblank, opt_str_view, trim_nonblank};

verus! {

pub struct TaskQuery {
    pub list_id: Option<EntityId>,
    pub status: Option<TaskStatus>,
    pub include_archived: Option<bool>,
    pub priority: Option<TaskPriority>,
    pub tag_id: Option<EntityId>,
    pub search: Option<String>,
    pub inbox_only: Option<bool>,
    pub due_null: Option<bool>,
    pub due_from: Option<String>,
    pub due_to: Option<String>,
    pub completed_since: Option<String>,
    pub deferred_only: Option<bool>,
    pub waiting_follow_up_due: Option<bool>,
    pub workflow_state: Option<TaskWorkflowState>,
    pub limit: Option<i64>,
    pub offset: Option<i64>,
}

pub open spec fn is_empty_query(q: TaskQuery) -> bool {
    &&& q.list_id is None
    &&& q.status is None
    &&& q.include_archived is None
    &&& q.priority is None
    &&& q.tag_id is None
    &&& q.search is None
    &&& q.inbox_only is None
    &&& q.due_null is None
    &&& q.due_from is None
    &&& q.due_to is None
    &&& q.completed_since is None
    &&& q.deferred_only is None
    &&& q.waiting_follow_up_due is None
    &&& q.workflow_state is None
    &&& q.limit is None
    &&& q.offset is None
}

impl Default for TaskQuery {
    fn default() -> (r: TaskQuery)
        ensures
            is_empty_query(r),
    {
        TaskQuery {
            list_id: None,
            status: None,
            include_archived: None,
            priority: None,
            tag_id: None,
            search: None,
            inbox_only: None,
            due_null: None,
            due_from: None,
            due_to: None,
            completed_since: None,
            deferred_only: None,
            waiting_follow_up_due: None,
            workflow_state: None,
            limit: None,
            offset: None,
        }
    }
}

/// Whether the active-workflow filter applies: it does unless a text search
/// is given (a search spans deferred and waiting tasks as well).
pub open spec fn applies_active_filter(search: Option<Seq<char>>) -> bool {
    match search {
        None => true,
        Some(s) => trim(s).len() == 0,
    }
}

pub fn should_apply_active_list_filter(search: &Option<String>) -> (r: bool)
    ensures
        r == applies_active_filter(opt_str_view(*search)),
{
    trim_nonblank(search).is_none()
}

/// Which workflow filter a query gets.
pub enum WorkflowFilter {
    /// Only open, active tasks deferred past today (`deferred_only`).
    Deferred,
    /// Only waiting tasks whose follow-up date has come.
    FollowUpDue,
    /// Only tasks in the given workflow state (active ones also not
    /// deferred past today).
    State(TaskWorkflowState),
    /// Only active tasks not deferred past today.
    ActiveOnly,
    /// No workflow filter.
    Unfiltered,
}

pub open spec fn workflow_filter_of(q: TaskQuery) -> WorkflowFilter {
    if q.deferred_only == Some(true) {
        WorkflowFilter::Deferred
    } else if q.waiting_follow_up_due == Some(true) {
        WorkflowFilter::FollowUpDue
    } else if applies_active_filter(opt_str_view(q.search)) {
        match q.workflow_state {
            Some(w) => WorkflowFilter::State(w),
            None => if q.status is None || q.status == Some(TaskStatus::Todo) {
                WorkflowFilter::ActiveOnly
            } else {
                WorkflowFilter::Unfiltered
            },
        }
    } else {
        WorkflowFilter::Unfiltered
    }
}

pub fn workflow_filter(q: &TaskQuery) -> (r: WorkflowFilter)
    ensures
        r == workflow_filter_of(*q),
{
    if q.deferred_only == Some(true) {
        WorkflowFilter::Deferred
    } else if q.waiting_follow_up_due == Some(true) {
        WorkflowFilter::FollowUpDue
    } else if should_apply_active_list_filter(&q.search) {
        match q.workflow_state {
            Some(w) => WorkflowFilter::State(w),
            None => if q.status.is_none() || q.status == Some(TaskStatus::Todo) {
                WorkflowFilter::ActiveOnly
            } else {
                WorkflowFilter::Unfiltered
            },
        }
    } else {
        WorkflowFilter::Unfiltered
    }
}

/// SQL `LIKE` escaping: `\`, `%` and `_` are prefixed with `\`.
pub open spec fn like_escaped(s: Seq<char>) -> Seq<char>
    decreases s.len(),
{
    if s.len() == 0 {
        Seq::empty()
    } else {
        let c = s.last();
        let prev = like_escaped(s.drop_last());
        if c == '\\' || c == '%' || c == '_' {
            prev.push('\\').push(c)
        } else {
            prev.push(c)
        }
    }
}

pub fn escape_like(value: &str) -> (r: String)
    ensures
        r@ == like_escaped(value@),
{
    let v = crate::chars::chars_of(value);
    let mut out: Vec<char> = Vec::new();
    let mut i: usize = 0;
    proof {
        assert(v@.subrange(0, 0) =~= Seq::<char>::empty());
    }
    while i < v.len()
        invariant
            i <= v@.len(),
            v@ == value@,
            out@ == like_escaped(v@.subrange(0, i as int)),
        decreases v@.len() - i,
    {
        let c = v[i];
        proof {
            assert(v@.subrange(0, i + 1).drop_last() =~= v@.subrange(0, i as int));
        }
        if c == '\\' || c == '%' || c == '_' {
            out.push('\\');
        }
        out.push(c);
        i = i + 1;
    }
    proof {
        assert(v@.subrange(0, v@.len() as int) =~= v@);
    }
    crate::chars::string_of(out.as_slice())
}

/// `%<escaped text>%`: a `LIKE` pattern matching any text containing `s`.
pub fn contains_pattern(s: &str) -> (r: String)
    ensures
        r@ == seq!['%'] + like_escaped(s@) + seq!['%'],
{
    let mut out = "%".to_string();
    let esc = escape_like(s);
    out.append(esc.as_str());
    out.append("%");
    proof {
        reveal_strlit("%");
    }
    out
}

/// `s` where `b` holds, else nothing.
pub open spec fn piece(b: bool, s: Seq<char>) -> Seq<char> {
    if b {
        s
    } else {
        Seq::empty()
    }
}

/// The `LIKE` pattern a text search binds.
pub open spec fn search_pattern(t: Seq<char>) -> Seq<char> {
    seq!['%'] + like_escaped(t) + seq!['%']
}

/// The SQL of a workflow filter.
pub open spec fn workflow_sql(w: WorkflowFilter) -> Seq<char> {
    match w {
        WorkflowFilter::Deferred => " AND t.status = 'todo' AND t.workflow_state = 'active' AND t.available_at IS NOT NULL AND t.available_at > ?"@,
        WorkflowFilter::FollowUpDue => " AND t.status = 'todo' AND t.workflow_state = 'waiting' AND t.follow_up_date IS NOT NULL AND t.follow_up_date <= ?"@,
        WorkflowFilter::State(s) => " AND t.workflow_state = ?"@ + piece(
            s == TaskWorkflowState::Active,
            " AND (t.available_at IS NULL OR t.available_at <= ?)"@,
        ),
        WorkflowFilter::ActiveOnly => " AND t.workflow_state = 'active' AND (t.available_at IS NULL OR t.available_at <= ?)"@,
        WorkflowFilter::Unfiltered => Seq::empty(),
    }
}

/// The parameters a workflow filter binds.
pub open spec fn workflow_params(w: WorkflowFilter, today: Seq<char>) -> Seq<Seq<char>> {
    match w {
        WorkflowFilter::Deferred => seq![today],
        WorkflowFilter::FollowUpDue => seq![today],
        WorkflowFilter::State(s) => if s == TaskWorkflowState::Active {
            seq![workflow_text(s), today]
        } else {
            seq![workflow_text(s)]
        },
        WorkflowFilter::ActiveOnly => seq![today],
        WorkflowFilter::Unfiltered => Seq::empty(),
    }
}

/// The conditions on the task's own fields: inbox, list, status (or
/// hiding archived tasks), priority and tag.
pub open spec fn field_sql(q: TaskQuery) -> Seq<char> {
    piece(q.inbox_only == Some(true), " AND l.kind = 'inbox'"@) + piece(q.list_id is Some, " AND t.list_id = ?"@)
        + (if q.status is Some {
        " AND t.status = ?"@
    } else {
        piece(q.include_archived != Some(true), " AND t.status != 'archived'"@)
    }) + piece(q.priority is Some, " AND t.priority = ?"@) + piece(
        q.tag_id is Some,
        " AND EXISTS (SELECT 1 FROM task_tags tt WHERE tt.task_id = t.id AND tt.tag_id = ?)"@,
    )
}

pub open spec fn field_params(q: TaskQuery) -> Seq<Seq<char>> {
    (match q.list_id {
        Some(x) => seq![id_text(x)],
        None => Seq::empty(),
    }) + (match q.status {
        Some(st) => seq![task_status_text(st)],
        None => Seq::empty(),
    }) + (match q.priority {
        Some(pr) => seq![task_priority_text(pr)],
        None => Seq::empty(),
    }) + (match q.tag_id {
        Some(x) => seq![id_text(x)],
        None => Seq::empty(),
    })
}

/// The conditions on text and dates: text search, no due date, due range
/// and completed since.
pub open spec fn text_sql(q: TaskQuery) -> Seq<char> {
    piece(
        nonblank(opt_str_view(q.search)) is Some,
        " AND (t.title LIKE ? ESCAPE '\\' OR t.notes LIKE ? ESCAPE '\\')"@,
    ) + piece(q.due_null == Some(true), " AND t.due_date IS NULL"@) + piece(
        q.due_from is Some,
        " AND t.due_date IS NOT NULL AND t.due_date >= ?"@,
    ) + piece(q.due_to is Some, " AND t.due_date IS NOT NULL AND t.due_date <= ?"@) + piece(
        q.completed_since is Some,
        " AND t.status = 'completed' AND t.completed_at IS NOT NULL AND date(t.completed_at, 'localtime') >= ?"@,
    )
}

pub open spec fn text_params(q: TaskQuery) -> Seq<Seq<char>> {
    (match nonblank(opt_str_view(q.search)) {
        Some(t) => seq![search_pattern(t), search_pattern(t)],
        None => Seq::empty(),
    }) + (match opt_str_view(q.due_from) {
        Some(d) => seq![d],
        None => Seq::empty(),
    }) + (match opt_str_view(q.due_to) {
        Some(d) => seq![d],
        None => Seq::empty(),
    }) + (match opt_str_view(q.completed_since) {
        Some(d) => seq![d],
        None => Seq::empty(),
    })
}

/// The SQL conditions of `q`, in order: its fields, text and dates, then
/// the workflow filter.
pub open spec fn filter_sql(q: TaskQuery) -> Seq<char> {
    field_sql(q) + text_sql(q) + workflow_sql(workflow_filter_of(q))
}

/// The texts bound to the `?`s of `filter_sql(q)`, in order.
pub open spec fn filter_params(q: TaskQuery, today: Seq<char>) -> Seq<Seq<char>> {
    field_params(q) + text_params(q) + workflow_params(workflow_filter_of(q), today)
}

/// Each bound value is the text `texts` gives at its place.
pub open spec fn binds_texts(values: Seq<SqlValue>, texts: Seq<Seq<char>>) -> bool {
    values.len() == texts.len() && forall|i: int| 0 <= i < values.len() ==> #[trigger] sql_text(values[i]) == Some(texts[i])
}

pub proof fn lemma_bind_push(values: Seq<SqlValue>, texts: Seq<Seq<char>>, v: SqlValue, t: Seq<char>)
    requires
        binds_texts(values, texts),
        sql_text(v) == Some(t),
    ensures
        binds_texts(values.push(v), texts + seq![t]),
{
    assert forall|i: int| 0 <= i < values.len() + 1 implies #[trigger] sql_text(values.push(v)[i]) == Some((texts + seq![t])[i]) by {
        if i < values.len() {
            assert(values.push(v)[i] == values[i]);
        }
    }
}

proof fn lemma_bind_concat(a: Seq<SqlValue>, ta: Seq<Seq<char>>, b: Seq<SqlValue>, tb: Seq<Seq<char>>)
    requires
        binds_texts(a, ta),
        binds_texts(b, tb),
    ensures
        binds_texts(a + b, ta + tb),
{
    assert forall|i: int| 0 <= i < a.len() + b.len() implies #[trigger] sql_text((a + b)[i]) == Some((ta + tb)[i]) by {
        if i < a.len() {
            assert((a + b)[i] == a[i]);
        } else {
            assert((a + b)[i] == b[i - a.len()]);
        }
    }
}

fn field_filters(q: &TaskQuery) -> (r: (String, Vec<SqlValue>))
    ensures
        r.0@ == field_sql(*q),
        binds_texts(r.1@, field_params(*q)),
{
    let mut filters = String::new();
    let mut values: Vec<SqlValue> = Vec::new();
    let ghost mut texts: Seq<Seq<char>> = Seq::empty();
    let ghost qq = *q;
    if q.inbox_only == Some(true) {
        filters.append(" AND l.kind = 'inbox'");
    }
    assert(filters@ =~= piece(qq.inbox_only == Some(true), " AND l.kind = 'inbox'"@));
    let ghost f1 = filters@;
    if let Some(list_id) = q.list_id {
        filters.append(" AND t.list_id = ?");
        let v = id_param(list_id);
        proof { lemma_bind_push(values@, texts, v, id_text(list_id)); texts = texts + seq![id_text(list_id)]; }
        values.push(v);
    }
    assert(filters@ =~= f1 + piece(qq.list_id is Some, " AND t.list_id = ?"@));
    assert(texts =~= Seq::<Seq<char>>::empty() + match qq.list_id { Some(x) => seq![id_text(x)], None => Seq::<Seq<char>>::empty() });
    let ghost f2 = filters@;
    let ghost t2 = texts;
    if let Some(status) = q.status {
        filters.append(" AND t.status = ?");
        let v = text_param(status.as_str());
        proof { lemma_bind_push(values@, texts, v, task_status_text(status)); texts = texts + seq![task_status_text(status)]; }
        values.push(v);
    } else if q.include_archived != Some(true) {
        filters.append(" AND t.status != 'archived'");
    }
    assert(filters@ =~= f2 + (if qq.status is Some {
        " AND t.status = ?"@
    } else {
        piece(qq.include_archived != Some(true), " AND t.status != 'archived'"@)
    }));
    assert(texts =~= t2 + match qq.status { Some(st) => seq![task_status_text(st)], None => Seq::<Seq<char>>::empty() });
    let ghost f3 = filters@;
    let ghost t3 = texts;
    if let Some(priority) = q.priority {
        filters.append(" AND t.priority = ?");
        let v = text_param(priority.as_str());
        proof { lemma_bind_push(values@, texts, v, task_priority_text(priority)); texts = texts + seq![task_priority_text(priority)]; }
        values.push(v);
    }
    assert(filters@ =~= f3 + piece(qq.priority is Some, " AND t.priority = ?"@));
    assert(texts =~= t3 + match qq.priority { Some(pr) => seq![task_priority_text(pr)], None => Seq::<Seq<char>>::empty() });
    let ghost f4 = filters@;
    let ghost t4 = texts;
    if let Some(tag_id) = q.tag_id {
        filters.append(
            " AND EXISTS (SELECT 1 FROM task_tags tt WHERE tt.task_id = t.id AND tt.tag_id = ?)",
        );
        let v = id_param(tag_id);
        proof { lemma_bind_push(values@, texts, v, id_text(tag_id)); texts = texts + seq![id_text(tag_id)]; }
        values.push(v);
    }
    assert(filters@ =~= f4 + piece(
        qq.tag_id is Some,
        " AND EXISTS (SELECT 1 FROM task_tags tt WHERE tt.task_id = t.id AND tt.tag_id = ?)"@,
    ));
    assert(texts =~= t4 + match qq.tag_id { Some(x) => seq![id_text(x)], None => Seq::<Seq<char>>::empty() });
    assert(filters@ =~= field_sql(qq));
    assert(texts =~= field_params(qq));
    (filters, values)
}

fn text_filters(q: &TaskQuery) -> (r: (String, Vec<SqlValue>))
    ensures
        r.0@ == text_sql(*q),
        binds_texts(r.1@, text_params(*q)),
{
    let mut filters = String::new();
    let mut values: Vec<SqlValue> = Vec::new();
    let ghost mut texts: Seq<Seq<char>> = Seq::empty();
    let ghost qq = *q;
    if let Some(text) = trim_nonblank(&q.search) {
        filters.append(" AND (t.title LIKE ? ESCAPE '\\' OR t.notes LIKE ? ESCAPE '\\')");
        let pattern = contains_pattern(text.as_str());
        let v1 = SqlValue::Text(pattern.clone());
        proof { lemma_bind_push(values@, texts, v1, search_pattern(text@)); texts = texts + seq![search_pattern(text@)]; }
        values.push(v1);
        let v2 = SqlValue::Text(pattern);
        proof { lemma_bind_push(values@, texts, v2, search_pattern(text@)); texts = texts + seq![search_pattern(text@)]; }
        values.push(v2);
    }
    assert(filters@ =~= piece(
        nonblank(opt_str_view(qq.search)) is Some,
        " AND (t.title LIKE ? ESCAPE '\\' OR t.notes LIKE ? ESCAPE '\\')"@,
    ));
    assert(texts =~= Seq::<Seq<char>>::empty() + match nonblank(opt_str_view(qq.search)) {
        Some(t) => seq![search_pattern(t), search_pattern(t)],
        None => Seq::<Seq<char>>::empty(),
    });
    let ghost f6 = filters@;
    let ghost t6 = texts;
    if q.due_null == Some(true) {
        filters.append(" AND t.due_date IS NULL");
    }
    assert(filters@ =~= f6 + piece(qq.due_null == Some(true), " AND t.due_date IS NULL"@));
    let ghost f7 = filters@;
    if let Some(from) = &q.due_from {
        filters.append(" AND t.due_date IS NOT NULL AND t.due_date >= ?");
        let v = SqlValue::Text(from.clone());
        proof { lemma_bind_push(values@, texts, v, from@); texts = texts + seq![from@]; }
        values.push(v);
    }
    assert(filters@ =~= f7 + piece(qq.due_from is Some, " AND t.due_date IS NOT NULL AND t.due_date >= ?"@));
    assert(texts =~= t6 + match opt_str_view(qq.due_from) { Some(d) => seq![d], None => Seq::<Seq<char>>::empty() });
    let ghost f8 = filters@;
    let ghost t8 = texts;
    if let Some(to) = &q.due_to {
        filters.append(" AND t.due_date IS NOT NULL AND t.due_date <= ?");
        let v = SqlValue::Text(to.clone());
        proof { lemma_bind_push(values@, texts, v, to@); texts = texts + seq![to@]; }
        values.push(v);
    }
    assert(filters@ =~= f8 + piece(qq.due_to is Some, " AND t.due_date IS NOT NULL AND t.due_date <= ?"@));
    assert(texts =~= t8 + match opt_str_view(qq.due_to) { Some(d) => seq![d], None => Seq::<Seq<char>>::empty() });
    let ghost f9 = filters@;
    let ghost t9 = texts;
    if let Some(since) = &q.completed_since {
        filters.append(
            " AND t.status = 'completed' AND t.completed_at IS NOT NULL AND date(t.completed_at, 'localtime') >= ?",
        );
        let v = SqlValue::Text(since.clone());
        proof { lemma_bind_push(values@, texts, v, since@); texts = texts + seq![since@]; }
        values.push(v);
    }
    assert(filters@ =~= f9 + piece(
        qq.completed_since is Some,
        " AND t.status = 'completed' AND t.completed_at IS NOT NULL AND date(t.completed_at, 'localtime') >= ?"@,
    ));
    assert(texts =~= t9 + match opt_str_view(qq.completed_since) { Some(d) => seq![d], None => Seq::<Seq<char>>::empty() });
    assert(filters@ =~= text_sql(qq));
    assert(texts =~= text_params(qq));
    (filters, values)
}

fn workflow_filters(q: &TaskQuery, today: &str) -> (r: (String, Vec<SqlValue>))
    ensures
        r.0@ == workflow_sql(workflow_filter_of(*q)),
        binds_texts(r.1@, workflow_params(workflow_filter_of(*q), today@)),
{
    let mut filters = String::new();
    let mut values: Vec<SqlValue> = Vec::new();
    let ghost mut texts: Seq<Seq<char>> = Seq::empty();
    match workflow_filter(q) {
        WorkflowFilter::Deferred => {
            filters.append(
                " AND t.status = 'todo' AND t.workflow_state = 'active' AND t.available_at IS NOT NULL AND t.available_at > ?",
            );
            let v = text_param(today);
            proof { lemma_bind_push(values@, texts, v, today@); texts = texts + seq![today@]; }
            values.push(v);
        },
        WorkflowFilter::FollowUpDue => {
            filters.append(
                " AND t.status = 'todo' AND t.workflow_state = 'waiting' AND t.follow_up_date IS NOT NULL AND t.follow_up_date <= ?",
            );
            let v = text_param(today);
            proof { lemma_bind_push(values@, texts, v, today@); texts = texts + seq![today@]; }
            values.push(v);
        },
        WorkflowFilter::State(w) => {
            filters.append(" AND t.workflow_state = ?");
            let v = text_param(w.as_str());
            proof { lemma_bind_push(values@, texts, v, workflow_text(w)); texts = texts + seq![workflow_text(w)]; }
            values.push(v);
            if w == TaskWorkflowState::Active {
                filters.append(" AND (t.available_at IS NULL OR t.available_at <= ?)");
                let v2 = text_param(today);
                proof { lemma_bind_push(values@, texts, v2, today@); texts = texts + seq![today@]; }
                values.push(v2);
            }
        },
        WorkflowFilter::ActiveOnly => {
            filters.append(
                " AND t.workflow_state = 'active' AND (t.available_at IS NULL OR t.available_at <= ?)",
            );
            let v = text_param(today);
            proof { lemma_bind_push(values@, texts, v, today@); texts = texts + seq![today@]; }
            values.push(v);
        },
        WorkflowFilter::Unfiltered => {},
    }
    assert(filters@ =~= workflow_sql(workflow_filter_of(*q)));
    assert(texts =~= workflow_params(workflow_filter_of(*q), today@));
    (filters, values)
}

/// The SQL conditions (each starting with ` AND`) and bound parameters for
/// the filters of `q`, with `today` deciding what is deferred or due.
pub fn task_filters(q: &TaskQuery, today: &str) -> (r: (String, Vec<SqlValue>))
    ensures
        r.0@ == filter_sql(*q),
        binds_texts(r.1@, filter_params(*q, today@)),
{
    let (mut filters, mut values) = field_filters(q);
    let (more, mut more_values) = text_filters(q);
    let (last, mut last_values) = workflow_filters(q, today);
    proof {
        lemma_bind_concat(values@, field_params(*q), more_values@, text_params(*q));
        lemma_bind_concat(values@ + more_values@, field_params(*q) + text_params(*q), last_values@, workflow_params(workflow_filter_of(*q), today@));
    }
    filters.append(more.as_str());
    filters.append(last.as_str());
    values.append(&mut more_values);
    values.append(&mut last_values);
    (filters, values)
}

/// The built-in task views.
#[derive(PartialEq, Eq, Structural, Clone, Copy, Debug)]
pub enum SmartListKind {
    Tomorrow,
    Next7Days,
    Overdue,
    HighPriority,
    NoDue,
    RecentCompleted,
    Deferred,
    WaitingFollowUp,
}

/// The query behind a smart list, given today's date (`None` when the
/// date arithmetic fails).
pub open spec fn smart_list_spec(kind: SmartListKind, today: Seq<char>, q: TaskQuery) -> bool {
    match kind {
        SmartListKind::Tomorrow => {
            &&& q.status == Some(TaskStatus::Todo)
            &&& opt_str_view(q.due_from) == date_plus_days(today, 1)
            &&& opt_str_view(q.due_to) == date_plus_days(today, 1)
        },
        SmartListKind::Next7Days => {
            &&& q.status == Some(TaskStatus::Todo)
            &&& opt_str_view(q.due_from) == Some(today)
            &&& opt_str_view(q.due_to) == date_plus_days(today, 7)
        },
        SmartListKind::Overdue => {
            &&& q.status == Some(TaskStatus::Todo)
            &&& opt_str_view(q.due_to) == date_plus_days(today, -1i64)
        },
        SmartListKind::HighPriority => {
            &&& q.status == Some(TaskStatus::Todo)
            &&& q.priority == Some(TaskPriority::High)
        },
        SmartListKind::NoDue => {
            &&& q.status == Some(TaskStatus::Todo)
            &&& q.due_null == Some(true)
        },
        SmartListKind::RecentCompleted => {
            &&& q.status is None
            &&& opt_str_view(q.completed_since) == date_plus_days(today, -14i64)
            &&& q.include_archived == Some(false)
        },
        SmartListKind::Deferred => {
            &&& q.status == Some(TaskStatus::Todo)
            &&& q.deferred_only == Some(true)
        },
        SmartListKind::WaitingFollowUp => {
            &&& q.status == Some(TaskStatus::Todo)
            &&& q.waiting_follow_up_due == Some(true)
        },
    }
}

/// The fields a smart list leaves unset.
pub open spec fn smart_list_rest(kind: SmartListKind, q: TaskQuery) -> bool {
    &&& q.list_id is None
    &&& q.tag_id is None
    &&& q.search is None
    &&& q.inbox_only is None
    &&& q.workflow_state is None
    &&& (kind != SmartListKind::HighPriority ==> q.priority is None)
    &&& (kind != SmartListKind::NoDue ==> q.due_null is None)
    &&& (kind != SmartListKind::Deferred ==> q.deferred_only is None)
    &&& (kind != SmartListKind::WaitingFollowUp ==> q.waiting_follow_up_due is None)
    &&& (kind != SmartListKind::RecentCompleted ==> q.completed_since is None
        && q.include_archived is None)
    &&& (kind != SmartListKind::Tomorrow && kind != SmartListKind::Next7Days ==> q.due_from is None)
    &&& (kind != SmartListKind::Tomorrow && kind != SmartListKind::Next7Days && kind
        != SmartListKind::Overdue ==> q.due_to is None)
}

fn shifted(today: &str, days: i64) -> (r: Result<String, DomainError>)
    ensures
        r matches Ok(s) ==> date_plus_days(today@, days) == Some(s@),
        r is Err ==> date_plus_days(today@, days) is None,
        r matches Err(e) ==> e is Internal,
{
    match add_days(today, days) {
        Some(s) => Ok(s),
        None => Err(internal_msg("日期计算失败")),
    }
}

/// The query of a smart list, with the given paging.
pub fn smart_list_query(
    kind: SmartListKind,
    today: &str,
    limit: Option<i64>,
    offset: Option<i64>,
) -> (r: Result<TaskQuery, DomainError>)
    ensures
        r matches Ok(q) ==> smart_list_spec(kind, today@, q) && smart_list_rest(kind, q)
            && q.limit == limit && q.offset == offset,
        r matches Err(e) ==> e is Internal,
{
    let mut q = TaskQuery::default();
    match kind {
        SmartListKind::Tomorrow => {
            let tomorrow = shifted(today, 1)?;
            q.status = Some(TaskStatus::Todo);
            q.due_from = Some(tomorrow.clone());
            q.due_to = Some(tomorrow);
        },
        SmartListKind::Next7Days => {
            let end = shifted(today, 7)?;
            q.status = Some(TaskStatus::Todo);
            q.due_from = Some(today.to_string());
            q.due_to = Some(end);
        },
        SmartListKind::Overdue => {
            let yesterday = shifted(today, -1)?;
            q.status = Some(TaskStatus::Todo);
            q.due_to = Some(yesterday);
        },
        SmartListKind::HighPriority => {
            q.status = Some(TaskStatus::Todo);
            q.priority = Some(TaskPriority::High);
        },
        SmartListKind::NoDue => {
            q.status = Some(TaskStatus::Todo);
            q.due_null = Some(true);
        },
        SmartListKind::RecentCompleted => {
            let since = shifted(today, -14)?;
            q.completed_since = Some(since);
            q.include_archived = Some(false);
        },
        SmartListKind::Deferred => {
            q.status = Some(TaskStatus::Todo);
            q.deferred_only = Some(true);
        },
        SmartListKind::WaitingFollowUp => {
            q.status = Some(TaskStatus::Todo);
            q.waiting_follow_up_due = Some(true);
        },
    }
    q.limit = limit;
    q.offset = offset;
    Ok(q)
}

} // verus!
