//! Carrying out workbench actions. The decisions are here; showing
//! windows and announcing changes are left to the caller as effects.

use vstd::prelude::*;

use crate::actions::{
    confirmed, query_limit, task_hit, task_hits, writes, workbench_action_description,
    ActionDispatchOptions, ActionMemoryHit, ActionOutcome, ActionReminderHit, ActionSnippetHit,
    ActionSource, ActionTodayHit, UiEffect, UrlCreateKind, WorkbenchAction, description_text,
};
use crate::app_state::AppState;
use crate::domain::{validation, DomainError};
use crate::memories::MemoryQuery;
use crate::search::SearchEntityType;
use crate::task_model::TaskStatus;
use crate::task_query::{is_empty_query, SmartListKind, TaskQuery};
use crate::chars::trim;

verus! {

/// The refusal of an action that needs the workbench before it is open.
pub const NOT_READY: &'static str = "应用未就绪";

/// `f`, when there is one, is 09:00 on the day after some day.
pub open spec fn next_day_at_nine(f: Option<String>) -> bool {
    f matches Some(s) ==> exists|today: Seq<char>| #[trigger] crate::dates::date_plus_days(today, 1) matches Some(d)
        && s@ == d + "T09:00:00"@
}

/// Tomorrow at 09:00 local time, the default time of a reminder preview.
pub fn default_reminder_fire_at() -> (r: Option<String>)
    ensures
        next_day_at_nine(r),
{
    let today = crate::clock::local_today();
    match crate::dates::add_days(today.as_str(), 1) {
        Some(d) => {
            let mut s = d;
            s.append("T09:00:00");
            Some(s)
        },
        None => None,
    }
}

/// The open tasks of the inbox, first page of the clamped size.
pub fn inbox_query(limit: Option<i64>) -> (r: TaskQuery)
    ensures
        r.inbox_only == Some(true),
        r.status == Some(TaskStatus::Todo),
        r.limit == Some(crate::actions::query_limit_spec(limit)),
        is_empty_query(TaskQuery { inbox_only: None, status: None, limit: None, ..r }),
{
    let mut q = TaskQuery::default();
    q.inbox_only = Some(true);
    q.status = Some(TaskStatus::Todo);
    q.limit = Some(query_limit(limit));
    q
}

/// The open tasks of one list, first page of the clamped size.
pub fn list_query(list_id: crate::ids::EntityId, limit: Option<i64>) -> (r: TaskQuery)
    ensures
        r.list_id == Some(list_id),
        r.status == Some(TaskStatus::Todo),
        r.limit == Some(crate::actions::query_limit_spec(limit)),
        is_empty_query(TaskQuery { list_id: None, status: None, limit: None, ..r }),
{
    let mut q = TaskQuery::default();
    q.list_id = Some(list_id);
    q.status = Some(TaskStatus::Todo);
    q.limit = Some(query_limit(limit));
    q
}

/// A memory search for the given text, first page of the clamped size,
/// with every other filter left at its default.
pub fn memory_search_query(query: String, limit: Option<i64>) -> (r: MemoryQuery)
    ensures
        r.search == Some(query),
        r.limit == Some(crate::actions::query_limit_spec(limit)),
        r.tag_id is None && r.pinned_only is None && r.quick_insert_only is None && r.include_archived is None
            && r.offset is None,
{
    MemoryQuery {
        search: Some(query),
        tag_id: None,
        pinned_only: None,
        quick_insert_only: None,
        include_archived: None,
        limit: Some(query_limit(limit)),
        offset: None,
    }
}

/// The text a snippet lookup searches for: none for a missing or blank
/// query.
pub fn snippet_search(query: Option<String>) -> (r: Option<String>)
    ensures
        match query {
            Some(q) => if trim(q@).len() == 0 { r is None } else { r == Some(q) },
            None => r is None,
        },
{
    match query {
        Some(q) => if crate::ai_model::trim_is_empty(q.as_str()) {
            None
        } else {
            Some(q)
        },
        None => None,
    }
}

fn not_ready() -> (r: DomainError)
    ensures
        r matches DomainError::Validation(m) && m@ == NOT_READY@,
{
    validation(NOT_READY)
}

/// The effect announcing that an entity changed.
pub open spec fn is_change(e: UiEffect, entity_type: Seq<char>, id: crate::ids::EntityId, change: Seq<char>, revision: i64) -> bool {
    e matches UiEffect::Changed { entity_type: t, entity_id: x, change: c, revision: v } && t@ == entity_type
        && x == id && c@ == change && v == revision
}

/// A successful, non-dry-run dispatch of `a` answers `o` with effects `e`:
/// each action has its own outcome, and a write announces the change.
pub open spec fn outcome_fits(a: WorkbenchAction, o: ActionOutcome, e: Seq<UiEffect>) -> bool {
    match a {
        WorkbenchAction::Navigate { path } => o == ActionOutcome::Navigated { path } && e == seq![
            UiEffect::Navigate { path },
        ],
        WorkbenchAction::OpenSearch { query } => o == ActionOutcome::SearchOpened { query } && e == seq![
            UiEffect::OpenSearch { query },
        ],
        WorkbenchAction::CreatePreview { kind, title, notes, due_date, fire_at } => match o {
            ActionOutcome::CreatePreviewPending { kind: k, title: t, notes: n, due_date: d, fire_at: f } => {
                &&& k == kind && t == title && n == notes && d == due_date
                &&& (kind != UrlCreateKind::Reminder || fire_at is Some) ==> f == fire_at
                &&& (kind == UrlCreateKind::Reminder && fire_at is None) ==> next_day_at_nine(f)
                &&& e == seq![UiEffect::PendingCreate { kind, title, notes, due_date, fire_at: f }]
            },
            _ => false,
        },
        WorkbenchAction::CreateTask { input, .. } => o matches ActionOutcome::TaskCreated { task } && e.len() == 1
            && is_change(e[0], "task"@, task.id, "created"@, task.revision) && crate::tasks::created_as(task, input),
        WorkbenchAction::CreateReminder { input, .. } => o matches ActionOutcome::ReminderCreated { reminder }
            && reminder.next_fire_at@ == input.fire_at@ && e.len() == 1
            && is_change(e[0], "reminder"@, reminder.id, "created"@, reminder.revision),
        WorkbenchAction::CreateMemory { input, .. } => o matches ActionOutcome::MemoryCreated { memory } && e.len() == 1
            && is_change(e[0], "memory"@, memory.id, "created"@, memory.revision) && crate::memories::memory_created_as(
            memory,
            input,
        ),
        WorkbenchAction::CompleteTask { task_id, .. } => o matches ActionOutcome::TaskCompleted { task }
            && task.id == task_id && e.len() == 1 && is_change(e[0], "task"@, task.id, "completed"@, task.revision),
        WorkbenchAction::QueryToday => o matches ActionOutcome::TodayQueried { data } && data.reminders_today@.len() == 0
            && e.len() == 0,
        WorkbenchAction::QueryOverdue { .. } => o is TasksQueried && e.len() == 0,
        WorkbenchAction::QueryInbox { .. } => o is TasksQueried && e.len() == 0,
        WorkbenchAction::QueryList { .. } => o is TasksQueried && e.len() == 0,
        WorkbenchAction::SearchMemories { .. } => o is MemoriesQueried && e.len() == 0,
        WorkbenchAction::GetSnippets { .. } => o is SnippetsQueried && e.len() == 0,
    }
}

/// Actions that need no open workbench: navigation, search and previews.
pub open spec fn stateless(a: WorkbenchAction) -> bool {
    a is Navigate || a is OpenSearch || a is CreatePreview
}

fn changed(entity_type: &str, id: crate::ids::EntityId, change: &str, revision: i64) -> (r: UiEffect)
    ensures
        is_change(r, entity_type@, id, change@, revision),
{
    UiEffect::Changed {
        entity_type: entity_type.to_string(),
        entity_id: id,
        change: change.to_string(),
        revision,
    }
}

/// Carries out an action. A dry run only describes it. A write must be
/// confirmed, and the URL scheme may not write at all (it previews
/// instead). Queries read; navigation and search hand the interface an
/// effect.
pub fn dispatch(state: Option<&AppState>, action: WorkbenchAction, options: ActionDispatchOptions) -> (r:
    Result<(ActionOutcome, Vec<UiEffect>), DomainError>)
    ensures
        options.dry_run ==> (r matches Ok((o, e)) && e@.len() == 0 && (o matches ActionOutcome::DryRun { description }
            && description@ == description_text(action))),
        !options.dry_run && stateless(action) ==> r is Ok,
        !options.dry_run && !stateless(action) && state is None ==> r matches Err(DomainError::Validation(_)),
        !options.dry_run && !stateless(action) && state is None && (!writes(action) || (confirmed(action)
            && options.source != ActionSource::UrlScheme)) ==> (r matches Err(DomainError::Validation(m)) && m@ == NOT_READY@),
        !options.dry_run ==> (r matches Ok((o, e)) ==> outcome_fits(action, o, e@)),
        !options.dry_run && writes(action) && !confirmed(action) ==> r matches Err(DomainError::Validation(_)),
        !options.dry_run && writes(action) && options.source == ActionSource::UrlScheme ==> r matches Err(DomainError::Validation(_)),
        !options.dry_run && writes(action) && state is None ==> r matches Err(DomainError::Validation(_)),
        !options.dry_run && options.source != ActionSource::UrlScheme ==> match action {
            WorkbenchAction::CreateTask { input, confirmed } => confirmed && (crate::tasks::blank(input.title@)
                || crate::tasks::bad_opt_date(input.due_date) || crate::tasks::bad_opt_time(input.due_time))
                ==> r matches Err(DomainError::Validation(_)),
            WorkbenchAction::CreateMemory { input, confirmed } => confirmed && crate::chars::trim(input.title@).len() == 0
                ==> r matches Err(DomainError::Validation(_)),
            _ => true,
        },
{
    if options.dry_run {
        let description = workbench_action_description(&action);
        return Ok((ActionOutcome::DryRun { description }, Vec::new()));
    }
    let is_write = match &action {
        WorkbenchAction::CreateTask { .. } => true,
        WorkbenchAction::CreateReminder { .. } => true,
        WorkbenchAction::CreateMemory { .. } => true,
        WorkbenchAction::CompleteTask { .. } => true,
        _ => false,
    };
    let is_confirmed = match &action {
        WorkbenchAction::CreateTask { confirmed, .. } => *confirmed,
        WorkbenchAction::CreateReminder { confirmed, .. } => *confirmed,
        WorkbenchAction::CreateMemory { confirmed, .. } => *confirmed,
        WorkbenchAction::CompleteTask { confirmed, .. } => *confirmed,
        _ => true,
    };
    if is_write && !is_confirmed {
        return Err(validation("该动作需要 confirmed=true 才能执行"));
    }
    if is_write && options.source == ActionSource::UrlScheme {
        return Err(validation("URL Scheme 不支持直接写入，请使用 create 预览流程"));
    }
    match action {
        WorkbenchAction::Navigate { path } => {
            let effects = vec![UiEffect::Navigate { path: path.clone() }];
            assert(effects@ =~= seq![UiEffect::Navigate { path }]);
            Ok((ActionOutcome::Navigated { path }, effects))
        },
        WorkbenchAction::OpenSearch { query } => {
            let effects = vec![UiEffect::OpenSearch { query: query.clone() }];
            assert(effects@ =~= seq![UiEffect::OpenSearch { query }]);
            Ok((ActionOutcome::SearchOpened { query }, effects))
        },
        WorkbenchAction::CreatePreview { kind, title, notes, due_date, fire_at } => {
            let fire_at = if kind == UrlCreateKind::Reminder {
                match fire_at {
                    Some(f) => Some(f),
                    None => default_reminder_fire_at(),
                }
            } else {
                fire_at
            };
            let effects = vec![
                UiEffect::PendingCreate {
                    kind,
                    title: title.clone(),
                    notes: copy_opt(&notes),
                    due_date: copy_opt(&due_date),
                    fire_at: copy_opt(&fire_at),
                },
            ];
            assert(effects@ =~= seq![UiEffect::PendingCreate { kind, title, notes, due_date, fire_at }]);
            Ok((ActionOutcome::CreatePreviewPending { kind, title, notes, due_date, fire_at }, effects))
        },
        WorkbenchAction::CreateTask { input, .. } => {
            let state = match state {
                Some(s) => s,
                None => return Err(not_ready()),
            };
            let task = state.tasks.create_task(input)?;
            let _ = state.search.upsert(SearchEntityType::Task, task.id, task.title.as_str(), task.notes.as_str());
            let effects = vec![changed("task", task.id, "created", task.revision)];
            Ok((ActionOutcome::TaskCreated { task }, effects))
        },
        WorkbenchAction::CreateReminder { input, .. } => {
            let state = match state {
                Some(s) => s,
                None => return Err(not_ready()),
            };
            let reminder = state.reminders.create(input)?;
            let _ = state.search.upsert(
                SearchEntityType::Reminder,
                reminder.id,
                reminder.title.as_str(),
                reminder.notes.as_str(),
            );
            let effects = vec![changed("reminder", reminder.id, "created", reminder.revision)];
            Ok((ActionOutcome::ReminderCreated { reminder }, effects))
        },
        WorkbenchAction::CreateMemory { input, .. } => {
            let state = match state {
                Some(s) => s,
                None => return Err(not_ready()),
            };
            let memory = state.memories.create(input)?;
            let _ = state.search.upsert(SearchEntityType::Memory, memory.id, memory.title.as_str(), memory.body.as_str());
            let effects = vec![changed("memory", memory.id, "created", memory.revision)];
            Ok((ActionOutcome::MemoryCreated { memory }, effects))
        },
        WorkbenchAction::CompleteTask { task_id, .. } => {
            let state = match state {
                Some(s) => s,
                None => return Err(not_ready()),
            };
            let task = state.tasks.complete_task(task_id)?;
            let _ = state.search.upsert(SearchEntityType::Task, task.id, task.title.as_str(), task.notes.as_str());
            let effects = vec![changed("task", task.id, "completed", task.revision)];
            Ok((ActionOutcome::TaskCompleted { task }, effects))
        },
        WorkbenchAction::QueryToday => {
            let state = match state {
                Some(s) => s,
                None => return Err(not_ready()),
            };
            let today = state.tasks.today_tasks()?;
            let items = &today.reminders_today;
            let mut reminders_today: Vec<ActionReminderHit> = Vec::new();
            let mut i: usize = 0;
            while i < items.len()
                invariant
                    i <= items@.len(),
                    reminders_today@.len() == i,
                decreases items@.len() - i,
            {
                let rem = &items[i].reminder;
                reminders_today.push(
                    ActionReminderHit { id: rem.id, title: rem.title.clone(), fire_at: rem.next_fire_at.clone() },
                );
                i = i + 1;
            }
            let data = ActionTodayHit {
                today: today.today.clone(),
                overdue: task_hits(&today.overdue),
                due_today: task_hits(&today.due_today),
                focus: task_hits(&today.focus),
                reminders_today,
            };
            Ok((ActionOutcome::TodayQueried { data }, Vec::new()))
        },
        WorkbenchAction::QueryOverdue { limit } => {
            let state = match state {
                Some(s) => s,
                None => return Err(not_ready()),
            };
            let page = state.tasks.smart_list(SmartListKind::Overdue, Some(query_limit(limit)), Some(0))?;
            Ok((ActionOutcome::TasksQueried { items: task_hits(&page.items), total: page.total }, Vec::new()))
        },
        WorkbenchAction::QueryInbox { limit } => {
            let state = match state {
                Some(s) => s,
                None => return Err(not_ready()),
            };
            let page = state.tasks.query_tasks(inbox_query(limit))?;
            Ok((ActionOutcome::TasksQueried { items: task_hits(&page.items), total: page.total }, Vec::new()))
        },
        WorkbenchAction::QueryList { list_id, limit } => {
            let state = match state {
                Some(s) => s,
                None => return Err(not_ready()),
            };
            let page = state.tasks.query_tasks(list_query(list_id, limit))?;
            Ok((ActionOutcome::TasksQueried { items: task_hits(&page.items), total: page.total }, Vec::new()))
        },
        WorkbenchAction::SearchMemories { query, limit } => {
            let state = match state {
                Some(s) => s,
                None => return Err(not_ready()),
            };
            let page = state.memories.query(memory_search_query(query, limit))?;
            let mut items: Vec<ActionMemoryHit> = Vec::new();
            let mut i: usize = 0;
            while i < page.items.len()
                invariant
                    i <= page.items@.len(),
                decreases page.items@.len() - i,
            {
                items.push(ActionMemoryHit { id: page.items[i].id, title: page.items[i].title.clone() });
                i = i + 1;
            }
            Ok((ActionOutcome::MemoriesQueried { items, total: page.total }, Vec::new()))
        },
        WorkbenchAction::GetSnippets { query, limit } => {
            let state = match state {
                Some(s) => s,
                None => return Err(not_ready()),
            };
            let search = snippet_search(query);
            let (found, total) = state.clipboard.query_snippets(search, query_limit(limit))?;
            let mut items: Vec<ActionSnippetHit> = Vec::new();
            let mut i: usize = 0;
            while i < found.len()
                invariant
                    i <= found@.len(),
                decreases found@.len() - i,
            {
                let it = &found[i];
                items.push(
                    ActionSnippetHit {
                        id: it.id,
                        content: it.content.clone(),
                        source_app: copy_opt(&it.source_app),
                        favorite: it.favorite,
                    },
                );
                i = i + 1;
            }
            Ok((ActionOutcome::SnippetsQueried { items, total }, Vec::new()))
        },
    }
}

fn copy_opt(s: &Option<String>) -> (r: Option<String>)
    ensures
        r == *s,
{
    match s {
        Some(t) => Some(t.clone()),
        None => None,
    }
}

} // verus!
