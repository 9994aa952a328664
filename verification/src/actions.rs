//! Workbench actions: what the command line and the URL scheme can ask
//! the workbench to do, and what comes back.

use vstd::prelude::*;

use crate::ids::EntityId;
use crate::memories::{CreateMemoryInput, Memory};
use crate::reminders::{CreateReminderInput, Reminder};
use crate::task_model::{CreateTaskInput, Task, TaskPriority, TaskStatus};

verus! {

#[derive(PartialEq, Eq, Structural, Clone, Copy, Debug)]
pub enum ActionSource {
    Cli,
    UrlScheme,
    App,
}

pub struct ActionDispatchOptions {
    pub source: ActionSource,
    pub dry_run: bool,
}

#[derive(PartialEq, Eq, Structural, Clone, Copy, Debug)]
pub enum UrlCreateKind {
    Task,
    Reminder,
    Memory,
}

pub open spec fn create_kind_text(k: UrlCreateKind) -> Seq<char> {
    match k {
        UrlCreateKind::Task => "task"@,
        UrlCreateKind::Reminder => "reminder"@,
        UrlCreateKind::Memory => "memory"@,
    }
}

impl UrlCreateKind {
    pub fn url_type(&self) -> (r: &'static str)
        ensures
            r@ == create_kind_text(*self),
    {
        match self {
            UrlCreateKind::Task => "task",
            UrlCreateKind::Reminder => "reminder",
            UrlCreateKind::Memory => "memory",
        }
    }
}

pub enum WorkbenchAction {
    Navigate { path: String },
    OpenSearch { query: String },
    CreatePreview {
        kind: UrlCreateKind,
        title: String,
        notes: Option<String>,
        due_date: Option<String>,
        fire_at: Option<String>,
    },
    CreateTask { input: CreateTaskInput, confirmed: bool },
    CreateReminder { input: CreateReminderInput, confirmed: bool },
    CreateMemory { input: CreateMemoryInput, confirmed: bool },
    CompleteTask { task_id: EntityId, confirmed: bool },
    QueryToday,
    QueryOverdue { limit: Option<i64> },
    QueryInbox { limit: Option<i64> },
    QueryList { list_id: EntityId, limit: Option<i64> },
    SearchMemories { query: String, limit: Option<i64> },
    GetSnippets { query: Option<String>, limit: Option<i64> },
}

/// Whether an action writes to the workbench (and so must be confirmed).
pub open spec fn writes(a: WorkbenchAction) -> bool {
    ||| a is CreateTask
    ||| a is CreateReminder
    ||| a is CreateMemory
    ||| a is CompleteTask
}

pub open spec fn confirmed(a: WorkbenchAction) -> bool {
    match a {
        WorkbenchAction::CreateTask { confirmed, .. } => confirmed,
        WorkbenchAction::CreateReminder { confirmed, .. } => confirmed,
        WorkbenchAction::CreateMemory { confirmed, .. } => confirmed,
        WorkbenchAction::CompleteTask { confirmed, .. } => confirmed,
        _ => true,
    }
}

pub struct ActionTaskHit {
    pub id: EntityId,
    pub title: String,
    pub status: TaskStatus,
    pub priority: TaskPriority,
    pub due_date: Option<String>,
    pub due_time: Option<String>,
}

pub struct ActionMemoryHit {
    pub id: EntityId,
    pub title: String,
}

pub struct ActionReminderHit {
    pub id: EntityId,
    pub title: String,
    pub fire_at: String,
}

pub struct ActionSnippetHit {
    pub id: EntityId,
    pub content: String,
    pub source_app: Option<String>,
    pub favorite: bool,
}

pub struct ActionTodayHit {
    pub today: String,
    pub overdue: Vec<ActionTaskHit>,
    pub due_today: Vec<ActionTaskHit>,
    pub focus: Vec<ActionTaskHit>,
    pub reminders_today: Vec<ActionReminderHit>,
}

pub enum ActionOutcome {
    DryRun { description: String },
    Navigated { path: String },
    SearchOpened { query: String },
    CreatePreviewPending {
        kind: UrlCreateKind,
        title: String,
        notes: Option<String>,
        due_date: Option<String>,
        fire_at: Option<String>,
    },
    TaskCreated { task: Task },
    ReminderCreated { reminder: Reminder },
    MemoryCreated { memory: Memory },
    TaskCompleted { task: Task },
    TodayQueried { data: ActionTodayHit },
    TasksQueried { items: Vec<ActionTaskHit>, total: i64 },
    MemoriesQueried { items: Vec<ActionMemoryHit>, total: i64 },
    SnippetsQueried { items: Vec<ActionSnippetHit>, total: i64 },
    Rejected { reason: String },
}

/// What the interface has to do after an action: show a window and hand
/// it a value, or announce that an entity changed.
pub enum UiEffect {
    Navigate { path: String },
    OpenSearch { query: String },
    PendingCreate {
        kind: UrlCreateKind,
        title: String,
        notes: Option<String>,
        due_date: Option<String>,
        fire_at: Option<String>,
    },
    Changed { entity_type: String, entity_id: EntityId, change: String, revision: i64 },
}

/// The event the interface is told of when an entity changed.
pub struct DomainChangeEvent {
    pub entity_type: String,
    pub entity_id: String,
    pub change: String,
    pub revision: i64,
}

/// An asset linked to an entity, as the interface lists it.
pub struct LinkedAsset {
    pub link_id: EntityId,
    pub asset_id: EntityId,
    pub content_hash: String,
    pub byte_size: i64,
    pub width: Option<i64>,
    pub height: Option<i64>,
    pub thumb_base64: Option<String>,
    pub created_at: String,
}

/// How many results a query action returns: 20 by default, kept within
/// 1..=100.
pub open spec fn query_limit_spec(limit: Option<i64>) -> i64 {
    match limit {
        Some(l) => if l < 1 {
            1
        } else if l > 100 {
            100
        } else {
            l
        },
        None => 20,
    }
}

pub fn query_limit(limit: Option<i64>) -> (r: i64)
    ensures
        r == query_limit_spec(limit),
{
    match limit {
        Some(l) => if l < 1 {
            1
        } else if l > 100 {
            100
        } else {
            l
        },
        None => 20,
    }
}

pub fn task_hit(t: &Task) -> (r: ActionTaskHit)
    ensures
        r.id == t.id && r.title@ == t.title@ && r.status == t.status && r.priority == t.priority,
{
    ActionTaskHit {
        id: t.id,
        title: t.title.clone(),
        status: t.status,
        priority: t.priority,
        due_date: match &t.due_date {
            Some(d) => Some(d.clone()),
            None => None,
        },
        due_time: match &t.due_time {
            Some(d) => Some(d.clone()),
            None => None,
        },
    }
}

pub fn task_hits(v: &Vec<Task>) -> (r: Vec<ActionTaskHit>)
    ensures
        r@.len() == v@.len(),
        forall|i: int| 0 <= i < r@.len() ==> (#[trigger] r@[i]).id == v@[i].id,
{
    let mut out: Vec<ActionTaskHit> = Vec::new();
    let mut i: usize = 0;
    while i < v.len()
        invariant
            i <= v@.len(),
            out@.len() == i,
            forall|k: int| 0 <= k < i ==> (#[trigger] out@[k]).id == v@[k].id,
        decreases v@.len() - i,
    {
        out.push(task_hit(&v[i]));
        i = i + 1;
    }
    out
}

/// The one-line description of what an action would do.
pub open spec fn description_text(a: WorkbenchAction) -> Seq<char> {
    match a {
        WorkbenchAction::Navigate { path } => "打开页面："@ + path@,
        WorkbenchAction::OpenSearch { query } => "打开搜索："@ + query@,
        WorkbenchAction::CreatePreview { kind, title, .. } => "预览创建 "@ + create_kind_text(kind)
            + "："@ + title@,
        WorkbenchAction::CreateTask { input, .. } => "创建任务："@ + input.title@,
        WorkbenchAction::CreateReminder { input, .. } => "创建提醒："@ + input.title@,
        WorkbenchAction::CreateMemory { input, .. } => "创建记忆："@ + input.title@,
        WorkbenchAction::CompleteTask { task_id, .. } => "完成任务："@ + crate::ids::id_text(
            task_id,
        ),
        WorkbenchAction::QueryToday => "查询今日"@,
        WorkbenchAction::QueryOverdue { .. } => "查询逾期任务"@,
        WorkbenchAction::QueryInbox { .. } => "查询收件箱"@,
        WorkbenchAction::QueryList { list_id, .. } => "查询清单："@ + crate::ids::id_text(list_id),
        WorkbenchAction::SearchMemories { query, .. } => "搜索记忆："@ + query@,
        WorkbenchAction::GetSnippets { .. } => "获取片段"@,
    }
}

/// A one-line description of what an action would do.
pub fn workbench_action_description(action: &WorkbenchAction) -> (r: String)
    ensures
        r@ == description_text(*action),
{
    let mut out = String::new();
    match action {
        WorkbenchAction::Navigate { path } => {
            out.append("打开页面：");
            out.append(path.as_str());
        },
        WorkbenchAction::OpenSearch { query } => {
            out.append("打开搜索：");
            out.append(query.as_str());
        },
        WorkbenchAction::CreatePreview { kind, title, .. } => {
            out.append("预览创建 ");
            out.append(kind.url_type());
            out.append("：");
            out.append(title.as_str());
        },
        WorkbenchAction::CreateTask { input, .. } => {
            out.append("创建任务：");
            out.append(input.title.as_str());
        },
        WorkbenchAction::CreateReminder { input, .. } => {
            out.append("创建提醒：");
            out.append(input.title.as_str());
        },
        WorkbenchAction::CreateMemory { input, .. } => {
            out.append("创建记忆：");
            out.append(input.title.as_str());
        },
        WorkbenchAction::CompleteTask { task_id, .. } => {
            out.append("完成任务：");
            out.append(crate::ids::format_id(*task_id).as_str());
        },
        WorkbenchAction::QueryToday => {
            out.append("查询今日");
        },
        WorkbenchAction::QueryOverdue { .. } => {
            out.append("查询逾期任务");
        },
        WorkbenchAction::QueryInbox { .. } => {
            out.append("查询收件箱");
        },
        WorkbenchAction::QueryList { list_id, .. } => {
            out.append("查询清单：");
            out.append(crate::ids::format_id(*list_id).as_str());
        },
        WorkbenchAction::SearchMemories { query, .. } => {
            out.append("搜索记忆：");
            out.append(query.as_str());
        },
        WorkbenchAction::GetSnippets { .. } => {
            out.append("获取片段");
        },
    }
    out
}

} // verus!
