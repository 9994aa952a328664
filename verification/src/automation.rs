//! Automation rules: when an event matches a rule's trigger and all its
//! conditions, the rule's actions are applied to the entity (or, in a dry
//! run, only recorded). Every evaluation is logged as a run.

use vstd::prelude::*;

use crate::chars::trim;
use crate::clipboard::ClipboardItem;
use crate::clock::{new_id, now_stamp};
use crate::db::{Database, SqlValue};
use crate::domain::{internal_msg, not_found, str_eq, validation, DomainError};
use crate::ids::{id_of_text, lemma_id_text_roundtrip, EntityId};
use crate::json::{json_field, json_or_empty_object, lemma_member_at, render_json, JsonValue};
use crate::memories::{Memory, MemoryService, UpdateMemoryInput};
use crate::memory_text::{lower_text, to_lower};
use crate::reminders::{Reminder, ReminderOccurrence};
use crate::rows::{
    flag_at, id_at, id_cell, id_param, int_at, int_cell, opt_text_at, opt_text_cell, text_at, text_cell,
    text_param,
};
use crate::task_model::opt_view;
use crate::search::clipped;
use crate::store::{connect, fetch, run};
use crate::task_model::{lemma_priority_text_injective, task_priority_text, Task, TaskPriority, UpdateTaskInput};
use crate::tasks::{trimmed, TaskService};

verus! {

#[derive(PartialEq, Eq, Structural, Clone, Copy, Debug)]
pub enum AutomationEntityType {
    Task,
    Reminder,
    Memory,
    Clipboard,
}

pub open spec fn entity_type_text(t: AutomationEntityType) -> Seq<char> {
    match t {
        AutomationEntityType::Task => "task"@,
        AutomationEntityType::Reminder => "reminder"@,
        AutomationEntityType::Memory => "memory"@,
        AutomationEntityType::Clipboard => "clipboard"@,
    }
}

impl AutomationEntityType {
    pub fn as_str(&self) -> (r: &'static str)
        ensures
            r@ == entity_type_text(*self),
    {
        match self {
            AutomationEntityType::Task => "task",
            AutomationEntityType::Reminder => "reminder",
            AutomationEntityType::Memory => "memory",
            AutomationEntityType::Clipboard => "clipboard",
        }
    }

    pub fn parse(value: &str) -> (r: Option<AutomationEntityType>)
        ensures
            r matches Some(t) ==> entity_type_text(t) == value@,
            r is None ==> forall|t: AutomationEntityType| entity_type_text(t) != value@,
    {
        if str_eq(value, "task") {
            Some(AutomationEntityType::Task)
        } else if str_eq(value, "reminder") {
            Some(AutomationEntityType::Reminder)
        } else if str_eq(value, "memory") {
            Some(AutomationEntityType::Memory)
        } else if str_eq(value, "clipboard") {
            Some(AutomationEntityType::Clipboard)
        } else {
            proof {
                assert forall|t: AutomationEntityType| entity_type_text(t) != value@ by {
                    match t {
                        AutomationEntityType::Task => {},
                        AutomationEntityType::Reminder => {},
                        AutomationEntityType::Memory => {},
                        AutomationEntityType::Clipboard => {},
                    }
                }
            }
            None
        }
    }
}

/// What happened: the kind of event, which is also what a trigger names.
#[derive(PartialEq, Eq, Structural, Clone, Copy, Debug)]
pub enum AutomationEventKind {
    TaskCreated,
    TaskMovedToList,
    TaskTagAdded,
    ReminderCreated,
    ReminderFired,
    MemoryCreated,
    ClipboardFavorited,
}

pub open spec fn event_kind_text(k: AutomationEventKind) -> Seq<char> {
    match k {
        AutomationEventKind::TaskCreated => "task_created"@,
        AutomationEventKind::TaskMovedToList => "task_moved_to_list"@,
        AutomationEventKind::TaskTagAdded => "task_tag_added"@,
        AutomationEventKind::ReminderCreated => "reminder_created"@,
        AutomationEventKind::ReminderFired => "reminder_fired"@,
        AutomationEventKind::MemoryCreated => "memory_created"@,
        AutomationEventKind::ClipboardFavorited => "clipboard_favorited"@,
    }
}

/// Distinct event kinds have distinct texts.
pub proof fn lemma_event_kind_text_injective(a: AutomationEventKind, b: AutomationEventKind)
    ensures
        event_kind_text(a) == event_kind_text(b) ==> a == b,
{
    reveal_strlit("task_created");
    reveal_strlit("task_moved_to_list");
    reveal_strlit("task_tag_added");
    reveal_strlit("reminder_created");
    reveal_strlit("reminder_fired");
    reveal_strlit("memory_created");
    reveal_strlit("clipboard_favorited");
    if event_kind_text(a) == event_kind_text(b) {
        assert(event_kind_text(a).len() == event_kind_text(b).len());
        assert(event_kind_text(a)[0] == event_kind_text(b)[0]);
        assert(event_kind_text(a)[5] == event_kind_text(b)[5]);
    }
}

impl AutomationEventKind {
    pub fn as_str(&self) -> (r: &'static str)
        ensures
            r@ == event_kind_text(*self),
    {
        match self {
            AutomationEventKind::TaskCreated => "task_created",
            AutomationEventKind::TaskMovedToList => "task_moved_to_list",
            AutomationEventKind::TaskTagAdded => "task_tag_added",
            AutomationEventKind::ReminderCreated => "reminder_created",
            AutomationEventKind::ReminderFired => "reminder_fired",
            AutomationEventKind::MemoryCreated => "memory_created",
            AutomationEventKind::ClipboardFavorited => "clipboard_favorited",
        }
    }

    pub fn parse(value: &str) -> (r: Option<AutomationEventKind>)
        ensures
            r matches Some(k) ==> event_kind_text(k) == value@,
            r is None ==> forall|k: AutomationEventKind| event_kind_text(k) != value@,
    {
        if str_eq(value, "task_created") {
            Some(AutomationEventKind::TaskCreated)
        } else if str_eq(value, "task_moved_to_list") {
            Some(AutomationEventKind::TaskMovedToList)
        } else if str_eq(value, "task_tag_added") {
            Some(AutomationEventKind::TaskTagAdded)
        } else if str_eq(value, "reminder_created") {
            Some(AutomationEventKind::ReminderCreated)
        } else if str_eq(value, "reminder_fired") {
            Some(AutomationEventKind::ReminderFired)
        } else if str_eq(value, "memory_created") {
            Some(AutomationEventKind::MemoryCreated)
        } else if str_eq(value, "clipboard_favorited") {
            Some(AutomationEventKind::ClipboardFavorited)
        } else {
            proof {
                assert forall|k: AutomationEventKind| event_kind_text(k) != value@ by {
                    match k {
                        AutomationEventKind::TaskCreated => {},
                        AutomationEventKind::TaskMovedToList => {},
                        AutomationEventKind::TaskTagAdded => {},
                        AutomationEventKind::ReminderCreated => {},
                        AutomationEventKind::ReminderFired => {},
                        AutomationEventKind::MemoryCreated => {},
                        AutomationEventKind::ClipboardFavorited => {},
                    }
                }
            }
            None
        }
    }
}

/// An event offered to the rules.
pub struct AutomationEvent {
    pub kind: AutomationEventKind,
    pub entity_type: AutomationEntityType,
    pub entity_id: EntityId,
    pub title: String,
    pub body: String,
    pub list_id: Option<EntityId>,
    pub tag_names: Vec<String>,
    pub priority: Option<TaskPriority>,
    pub source_app: Option<String>,
    pub added_tag: Option<String>,
    pub target_list_id: Option<EntityId>,
}

/// A condition on an event.
pub enum AutomationCondition {
    TitleContains { text: String, case_insensitive: bool },
    BodyContains { text: String, case_insensitive: bool },
    ListIs { list_id: EntityId },
    HasTag { tag_name: String },
    PriorityIs { priority: TaskPriority },
    SourceAppIs { app: String },
}

/// What a rule does.
pub enum AutomationAction {
    SetPriority { priority: TaskPriority },
    MoveToList { list_id: EntityId },
    AddTag { tag_name: String },
    PinMemory,
    Notify { title: String, body: String },
}

pub struct AutomationRuleDefinition {
    pub trigger: AutomationEventKind,
    pub conditions: Vec<AutomationCondition>,
    pub actions: Vec<AutomationAction>,
}

pub struct AutomationRule {
    pub id: EntityId,
    pub name: String,
    pub enabled: bool,
    pub definition: AutomationRuleDefinition,
    pub created_at: String,
    pub updated_at: String,
    pub revision: i64,
}

pub struct CreateAutomationRuleInput {
    pub name: String,
    pub definition: AutomationRuleDefinition,
}

pub struct UpdateAutomationRuleInput {
    pub id: EntityId,
    pub name: String,
    pub enabled: bool,
    pub definition: AutomationRuleDefinition,
}

#[derive(PartialEq, Eq, Structural, Clone, Copy, Debug)]
pub enum AutomationRunStatus {
    Success,
    Failed,
    Skipped,
    DryRun,
}

pub open spec fn run_status_text(s: AutomationRunStatus) -> Seq<char> {
    match s {
        AutomationRunStatus::Success => "success"@,
        AutomationRunStatus::Failed => "failed"@,
        AutomationRunStatus::Skipped => "skipped"@,
        AutomationRunStatus::DryRun => "dry_run"@,
    }
}

impl AutomationRunStatus {
    pub fn as_str(&self) -> (r: &'static str)
        ensures
            r@ == run_status_text(*self),
    {
        match self {
            AutomationRunStatus::Success => "success",
            AutomationRunStatus::Failed => "failed",
            AutomationRunStatus::Skipped => "skipped",
            AutomationRunStatus::DryRun => "dry_run",
        }
    }
}

/// What evaluating a rule against an event came to.
pub struct AutomationDryRunResult {
    pub rule_id: EntityId,
    pub rule_name: String,
    pub matched: bool,
    pub actions: Vec<AutomationAction>,
    pub skip_reason: Option<String>,
}

pub struct AutomationRunOutcome {
    pub rule_id: EntityId,
    pub rule_name: String,
    pub status: AutomationRunStatus,
    pub actions_applied: Vec<AutomationAction>,
    pub error_summary: Option<String>,
}

/// What a run leaves for the caller to do: show notifications and tell
/// the interface which entities changed (type, id, revision).
pub struct AutomationRunReport {
    pub outcomes: Vec<AutomationRunOutcome>,
    pub notifications: Vec<(String, String)>,
    pub updated: Vec<(String, EntityId, i64)>,
}

// ---------------------------------------------------------------------
// Rules

/// `needle` occurs in `hay`.
pub open spec fn occurs(hay: Seq<char>, needle: Seq<char>) -> bool {
    crate::ai_model::occurs_in(hay, needle)
}

pub open spec fn text_contains(hay: Seq<char>, needle: Seq<char>, fold: bool) -> bool {
    if fold {
        occurs(lower_text(hay), lower_text(needle))
    } else {
        occurs(hay, needle)
    }
}

pub open spec fn condition_holds(c: AutomationCondition, e: AutomationEvent) -> bool {
    match c {
        AutomationCondition::TitleContains { text, case_insensitive } => text_contains(
            e.title@,
            text@,
            case_insensitive,
        ),
        AutomationCondition::BodyContains { text, case_insensitive } => text_contains(
            e.body@,
            text@,
            case_insensitive,
        ),
        AutomationCondition::ListIs { list_id } => e.list_id == Some(list_id),
        AutomationCondition::HasTag { tag_name } => exists|i: int|
            0 <= i < e.tag_names@.len() && crate::memories::same_title(
                #[trigger] e.tag_names@[i]@,
                tag_name@,
            ),
        AutomationCondition::PriorityIs { priority } => e.priority == Some(priority),
        AutomationCondition::SourceAppIs { app } => e.source_app matches Some(a) && a@ == app@,
    }
}

pub open spec fn conditions_hold(cs: Seq<AutomationCondition>, e: AutomationEvent) -> bool {
    forall|i: int| 0 <= i < cs.len() ==> condition_holds(#[trigger] cs[i], e)
}

/// A rule's conditions hold of an event only when each one does: a single
/// condition that fails is enough for them not to hold, and when every
/// one holds (or there are none) they hold.
pub proof fn law_every_condition_must_hold(cs: Seq<AutomationCondition>, e: AutomationEvent)
    ensures
        forall|i: int| 0 <= i < cs.len() && !condition_holds(#[trigger] cs[i], e) ==> !conditions_hold(cs, e),
        (forall|i: int| 0 <= i < cs.len() ==> condition_holds(#[trigger] cs[i], e)) ==> conditions_hold(cs, e),
        cs.len() == 0 ==> conditions_hold(cs, e),
{
}

/// A list condition holds only of events in that very list: an event in
/// another list, or in none, fails it.
pub proof fn law_list_condition_needs_that_list(list_id: EntityId, e: AutomationEvent)
    ensures
        condition_holds(AutomationCondition::ListIs { list_id }, e) <==> e.list_id == Some(list_id),
{
}

/// A rule whose conditions include one that fails for an event does not
/// fire on it, whatever its trigger and whatever its other conditions.
pub proof fn law_failing_condition_stops_rule(rule: AutomationRule, e: AutomationEvent, i: int)
    requires
        0 <= i < rule.definition.conditions@.len(),
        !condition_holds(rule.definition.conditions@[i], e),
    ensures
        !rule_fires(rule, e),
{
}

fn contains_folded(hay: &str, needle: &str, fold: bool) -> (r: bool)
    ensures
        r == text_contains(hay@, needle@, fold),
{
    if fold {
        let h = to_lower(hay);
        let n = to_lower(needle);
        crate::ai_model::contains_text(h.as_str(), n.as_str())
    } else {
        crate::ai_model::contains_text(hay, needle)
    }
}

fn has_tag(tags: &Vec<String>, name: &str) -> (r: bool)
    ensures
        r == exists|i: int| 0 <= i < tags@.len() && crate::memories::same_title(#[trigger] tags@[i]@, name@),
{
    let mut i: usize = 0;
    while i < tags.len()
        invariant
            i <= tags@.len(),
            forall|k: int| 0 <= k < i ==> !crate::memories::same_title(#[trigger] tags@[k]@, name@),
        decreases tags@.len() - i,
    {
        if crate::memories::titles_match(tags[i].as_str(), name) {
            return true;
        }
        i = i + 1;
    }
    false
}

pub fn condition_matches(c: &AutomationCondition, e: &AutomationEvent) -> (r: bool)
    ensures
        r == condition_holds(*c, *e),
{
    match c {
        AutomationCondition::TitleContains { text, case_insensitive } => contains_folded(
            e.title.as_str(),
            text.as_str(),
            *case_insensitive,
        ),
        AutomationCondition::BodyContains { text, case_insensitive } => contains_folded(
            e.body.as_str(),
            text.as_str(),
            *case_insensitive,
        ),
        AutomationCondition::ListIs { list_id } => match e.list_id {
            Some(l) => l == *list_id,
            None => false,
        },
        AutomationCondition::HasTag { tag_name } => has_tag(&e.tag_names, tag_name.as_str()),
        AutomationCondition::PriorityIs { priority } => match e.priority {
            Some(p) => p == *priority,
            None => false,
        },
        AutomationCondition::SourceAppIs { app } => match &e.source_app {
            Some(a) => str_eq(a.as_str(), app.as_str()),
            None => false,
        },
    }
}

/// Whether every condition holds of the event.
pub fn evaluate_conditions(cs: &Vec<AutomationCondition>, e: &AutomationEvent) -> (r: bool)
    ensures
        r == conditions_hold(cs@, *e),
{
    let mut i: usize = 0;
    while i < cs.len()
        invariant
            i <= cs@.len(),
            forall|k: int| 0 <= k < i ==> condition_holds(#[trigger] cs@[k], *e),
        decreases cs@.len() - i,
    {
        if !condition_matches(&cs[i], e) {
            return false;
        }
        i = i + 1;
    }
    true
}

/// A trigger fires on events of its kind.
pub fn trigger_matches(trigger: AutomationEventKind, e: &AutomationEvent) -> (r: bool)
    ensures
        r == (trigger == e.kind),
{
    trigger == e.kind
}

pub open spec fn action_ok(a: AutomationAction) -> bool {
    match a {
        AutomationAction::AddTag { tag_name } => trim(tag_name@).len() > 0,
        AutomationAction::Notify { title, body } => trim(title@).len() > 0,
        _ => true,
    }
}

pub open spec fn condition_ok(c: AutomationCondition) -> bool {
    match c {
        AutomationCondition::TitleContains { text, case_insensitive } => trim(text@).len() > 0,
        AutomationCondition::BodyContains { text, case_insensitive } => trim(text@).len() > 0,
        AutomationCondition::HasTag { tag_name } => trim(tag_name@).len() > 0,
        AutomationCondition::SourceAppIs { app } => trim(app@).len() > 0,
        _ => true,
    }
}

/// A usable definition: at least one action, and no blank text in a
/// condition, a tag action or a notification title.
pub open spec fn definition_ok(d: AutomationRuleDefinition) -> bool {
    &&& d.actions@.len() > 0
    &&& forall|i: int| 0 <= i < d.actions@.len() ==> action_ok(#[trigger] d.actions@[i])
    &&& forall|i: int| 0 <= i < d.conditions@.len() ==> condition_ok(#[trigger] d.conditions@[i])
}

pub fn validate_rule_definition(d: &AutomationRuleDefinition) -> (r: Result<(), DomainError>)
    ensures
        r is Ok <==> definition_ok(*d),
        r matches Err(e) ==> e is Validation,
{
    if d.actions.len() == 0 {
        return Err(validation("规则至少需要一个动作"));
    }
    let mut i: usize = 0;
    while i < d.actions.len()
        invariant
            i <= d.actions@.len(),
            forall|k: int| 0 <= k < i ==> action_ok(#[trigger] d.actions@[k]),
        decreases d.actions@.len() - i,
    {
        let ok = match &d.actions[i] {
            AutomationAction::AddTag { tag_name } => !crate::ai_model::trim_is_empty(tag_name.as_str()),
            AutomationAction::Notify { title, body } => !crate::ai_model::trim_is_empty(title.as_str()),
            _ => true,
        };
        if !ok {
            return Err(validation("动作参数不能为空"));
        }
        i = i + 1;
    }
    let mut j: usize = 0;
    while j < d.conditions.len()
        invariant
            j <= d.conditions@.len(),
            forall|k: int| 0 <= k < d.actions@.len() ==> action_ok(#[trigger] d.actions@[k]),
            forall|k: int| 0 <= k < j ==> condition_ok(#[trigger] d.conditions@[k]),
        decreases d.conditions@.len() - j,
    {
        let ok = match &d.conditions[j] {
            AutomationCondition::TitleContains { text, case_insensitive } => !crate::ai_model::trim_is_empty(text.as_str()),
            AutomationCondition::BodyContains { text, case_insensitive } => !crate::ai_model::trim_is_empty(text.as_str()),
            AutomationCondition::HasTag { tag_name } => !crate::ai_model::trim_is_empty(tag_name.as_str()),
            AutomationCondition::SourceAppIs { app } => !crate::ai_model::trim_is_empty(app.as_str()),
            _ => true,
        };
        if !ok {
            return Err(validation("条件参数不能为空"));
        }
        j = j + 1;
    }
    Ok(())
}

/// Whether a rule fires on an event: it is enabled, its trigger names the
/// event's kind and all its conditions hold.
pub open spec fn rule_fires(rule: AutomationRule, e: AutomationEvent) -> bool {
    rule.enabled && rule.definition.trigger == e.kind && conditions_hold(rule.definition.conditions@, e)
}

pub fn copy_action(a: &AutomationAction) -> (r: AutomationAction)
    ensures
        r == *a,
{
    match a {
        AutomationAction::SetPriority { priority } => AutomationAction::SetPriority { priority: *priority },
        AutomationAction::MoveToList { list_id } => AutomationAction::MoveToList { list_id: *list_id },
        AutomationAction::AddTag { tag_name } => AutomationAction::AddTag { tag_name: tag_name.clone() },
        AutomationAction::PinMemory => AutomationAction::PinMemory,
        AutomationAction::Notify { title, body } => AutomationAction::Notify {
            title: title.clone(),
            body: body.clone(),
        },
    }
}

/// A copy of a list of actions.
pub fn copy_actions(v: &Vec<AutomationAction>) -> (r: Vec<AutomationAction>)
    ensures
        r@ == v@,
{
    let mut out: Vec<AutomationAction> = Vec::new();
    let mut i: usize = 0;
    while i < v.len()
        invariant
            i <= v@.len(),
            out@ == v@.take(i as int),
        decreases v@.len() - i,
    {
        out.push(copy_action(&v[i]));
        assert(v@.take(i + 1) =~= v@.take(i as int).push(v@[i as int]));
        i = i + 1;
    }
    assert(v@.take(i as int) =~= v@);
    out
}

/// Evaluates a rule: a paused rule, a trigger of another kind, or a
/// condition that fails each give their skip reason; a rule that fires
/// gives its actions.
pub fn evaluate_rule(rule: &AutomationRule, event: &AutomationEvent) -> (r: AutomationDryRunResult)
    ensures
        r.rule_id == rule.id,
        r.rule_name@ == rule.name@,
        r.matched == rule_fires(*rule, *event),
        r.matched ==> r.actions@ == rule.definition.actions@ && r.skip_reason is None,
        !r.matched ==> r.actions@.len() == 0 && r.skip_reason is Some,
{
    if !rule.enabled {
        return AutomationDryRunResult {
            rule_id: rule.id,
            rule_name: rule.name.clone(),
            matched: false,
            actions: Vec::new(),
            skip_reason: Some("规则已暂停".to_string()),
        };
    }
    if !trigger_matches(rule.definition.trigger, event) {
        return AutomationDryRunResult {
            rule_id: rule.id,
            rule_name: rule.name.clone(),
            matched: false,
            actions: Vec::new(),
            skip_reason: Some("触发器不匹配".to_string()),
        };
    }
    if !evaluate_conditions(&rule.definition.conditions, event) {
        return AutomationDryRunResult {
            rule_id: rule.id,
            rule_name: rule.name.clone(),
            matched: false,
            actions: Vec::new(),
            skip_reason: Some("条件不满足".to_string()),
        };
    }
    AutomationDryRunResult {
        rule_id: rule.id,
        rule_name: rule.name.clone(),
        matched: true,
        actions: copy_actions(&rule.definition.actions),
        skip_reason: None,
    }
}

/// An error message as stored with a failed run: trimmed, and cut to 240
/// characters with an ellipsis.
pub fn sanitize_error(message: &str) -> (r: String)
    ensures
        r@ == clipped(trim(message@), 240),
{
    let t = trimmed(message);
    crate::search::clip(t.as_str(), 240)
}

/// Refuses an action on an entity of another type.
pub fn ensure_entity(event: &AutomationEvent, expected: AutomationEntityType) -> (r: Result<(), DomainError>)
    ensures
        r is Ok <==> event.entity_type == expected,
        r matches Err(e) ==> e is Validation,
{
    if event.entity_type != expected {
        let mut m = "动作不适用于 ".to_string();
        m.append(event.entity_type.as_str());
        m.append(" 类型");
        return Err(DomainError::Validation(m));
    }
    Ok(())
}

fn copy_names(v: &Vec<String>) -> (r: Vec<String>)
    ensures
        r@ == v@,
{
    let mut out: Vec<String> = Vec::new();
    let mut i: usize = 0;
    while i < v.len()
        invariant
            i <= v@.len(),
            out@ == v@.take(i as int),
        decreases v@.len() - i,
    {
        out.push(v[i].clone());
        assert(v@.take(i + 1) =~= v@.take(i as int).push(v@[i as int]));
        i = i + 1;
    }
    assert(v@.take(i as int) =~= v@);
    out
}

fn copy_opt(s: &Option<String>) -> (r: Option<String>)
    ensures
        r == *s,
{
    match s {
        Some(t) => Some(t.clone()),
        None => None,
    }
}

/// The update that keeps a task as it is.
pub fn build_task_update(task: &Task) -> (r: UpdateTaskInput)
    ensures
        r.id == task.id && r.title@ == task.title@ && r.notes@ == task.notes@ && r.priority
            == task.priority && r.list_id == task.list_id && r.due_date == task.due_date
            && r.due_time == task.due_time && r.tag_names@ == task.tag_names@,
{
    UpdateTaskInput {
        id: task.id,
        title: task.title.clone(),
        notes: task.notes.clone(),
        priority: task.priority,
        list_id: task.list_id,
        due_date: copy_opt(&task.due_date),
        due_time: copy_opt(&task.due_time),
        tag_names: copy_names(&task.tag_names),
    }
}

/// The update that keeps a memory as it is but for its pin.
pub fn build_memory_update(memory: &Memory, pinned: bool) -> (r: UpdateMemoryInput)
    ensures
        r.id == memory.id && r.title@ == memory.title@ && r.body@ == memory.body@ && r.pinned
            == pinned && r.archived == memory.archived && r.quick_insert == memory.quick_insert
            && r.trigger_word == memory.trigger_word && r.sensitive == memory.sensitive
            && r.tag_names@ == memory.tag_names@,
{
    UpdateMemoryInput {
        id: memory.id,
        title: memory.title.clone(),
        body: memory.body.clone(),
        pinned,
        archived: memory.archived,
        quick_insert: memory.quick_insert,
        trigger_word: copy_opt(&memory.trigger_word),
        sensitive: memory.sensitive,
        tag_names: copy_names(&memory.tag_names),
    }
}

/// A task's tags with `tag` added (trimmed) unless one equals it
/// ignoring ASCII case.
pub fn tags_with(tags: &Vec<String>, tag: &str) -> (r: Vec<String>)
    ensures
        (exists|i: int| 0 <= i < tags@.len() && crate::memories::same_title(#[trigger] tags@[i]@, tag@)) ==> r@ == tags@,
        !(exists|i: int| 0 <= i < tags@.len() && crate::memories::same_title(#[trigger] tags@[i]@, tag@))
            ==> r@.len() == tags@.len() + 1 && r@.take(tags@.len() as int) == tags@ && r@.last()@ == trim(tag@),
{
    let mut out = copy_names(tags);
    if !has_tag(tags, tag) {
        out.push(trimmed(tag));
        assert(out@.take(tags@.len() as int) =~= tags@);
    }
    out
}

// ---------------------------------------------------------------------
// Events

pub fn event_from_task_created(task: &Task) -> (r: AutomationEvent)
    ensures
        r.kind == AutomationEventKind::TaskCreated && r.entity_type == AutomationEntityType::Task
            && r.entity_id == task.id && r.title@ == task.title@ && r.body@ == task.notes@
            && r.list_id == Some(task.list_id) && r.tag_names@ == task.tag_names@ && r.priority
            == Some(task.priority) && r.source_app is None && r.added_tag is None
            && r.target_list_id is None,
{
    AutomationEvent {
        kind: AutomationEventKind::TaskCreated,
        entity_type: AutomationEntityType::Task,
        entity_id: task.id,
        title: task.title.clone(),
        body: task.notes.clone(),
        list_id: Some(task.list_id),
        tag_names: copy_names(&task.tag_names),
        priority: Some(task.priority),
        source_app: None,
        added_tag: None,
        target_list_id: None,
    }
}

pub fn event_from_task_moved(task: &Task, previous_list_id: EntityId) -> (r: AutomationEvent)
    ensures
        r.kind == AutomationEventKind::TaskMovedToList && r.entity_type
            == AutomationEntityType::Task && r.entity_id == task.id && r.title@ == task.title@
            && r.body@ == task.notes@ && r.list_id == Some(task.list_id) && r.tag_names@
            == task.tag_names@ && r.priority == Some(task.priority) && r.target_list_id == Some(
            task.list_id,
        ) && r.added_tag is None && r.source_app is None,
{
    let _ = previous_list_id;
    AutomationEvent {
        kind: AutomationEventKind::TaskMovedToList,
        entity_type: AutomationEntityType::Task,
        entity_id: task.id,
        title: task.title.clone(),
        body: task.notes.clone(),
        list_id: Some(task.list_id),
        tag_names: copy_names(&task.tag_names),
        priority: Some(task.priority),
        source_app: None,
        added_tag: None,
        target_list_id: Some(task.list_id),
    }
}

pub fn event_from_task_tag_added(task: &Task, tag: &str) -> (r: AutomationEvent)
    ensures
        r.kind == AutomationEventKind::TaskTagAdded && r.entity_type == AutomationEntityType::Task
            && r.entity_id == task.id && r.title@ == task.title@ && r.body@ == task.notes@
            && r.list_id == Some(task.list_id) && r.tag_names@ == task.tag_names@ && r.priority
            == Some(task.priority) && (r.added_tag matches Some(t) && t@ == tag@)
            && r.target_list_id is None && r.source_app is None,
{
    AutomationEvent {
        kind: AutomationEventKind::TaskTagAdded,
        entity_type: AutomationEntityType::Task,
        entity_id: task.id,
        title: task.title.clone(),
        body: task.notes.clone(),
        list_id: Some(task.list_id),
        tag_names: copy_names(&task.tag_names),
        priority: Some(task.priority),
        source_app: None,
        added_tag: Some(tag.to_string()),
        target_list_id: None,
    }
}

pub fn event_from_reminder_created(reminder: &Reminder) -> (r: AutomationEvent)
    ensures
        r.kind == AutomationEventKind::ReminderCreated && r.entity_type
            == AutomationEntityType::Reminder && r.entity_id == reminder.id && r.title@
            == reminder.title@ && r.body@ == reminder.notes@ && r.list_id is None
            && r.tag_names@.len() == 0 && r.priority is None && r.source_app is None,
{
    AutomationEvent {
        kind: AutomationEventKind::ReminderCreated,
        entity_type: AutomationEntityType::Reminder,
        entity_id: reminder.id,
        title: reminder.title.clone(),
        body: reminder.notes.clone(),
        list_id: None,
        tag_names: Vec::new(),
        priority: None,
        source_app: None,
        added_tag: None,
        target_list_id: None,
    }
}

pub fn event_from_reminder_fired(occ: &ReminderOccurrence) -> (r: AutomationEvent)
    ensures
        r.kind == AutomationEventKind::ReminderFired && r.entity_type
            == AutomationEntityType::Reminder && r.entity_id == occ.reminder_id && r.title@
            == occ.title@ && r.body@.len() == 0 && r.list_id is None && r.tag_names@.len() == 0
            && r.priority is None && r.source_app is None,
{
    AutomationEvent {
        kind: AutomationEventKind::ReminderFired,
        entity_type: AutomationEntityType::Reminder,
        entity_id: occ.reminder_id,
        title: occ.title.clone(),
        body: String::new(),
        list_id: None,
        tag_names: Vec::new(),
        priority: None,
        source_app: None,
        added_tag: None,
        target_list_id: None,
    }
}

pub fn event_from_memory_created(memory: &Memory) -> (r: AutomationEvent)
    ensures
        r.kind == AutomationEventKind::MemoryCreated && r.entity_type
            == AutomationEntityType::Memory && r.entity_id == memory.id && r.title@
            == memory.title@ && r.body@ == memory.body@ && r.tag_names@ == memory.tag_names@
            && r.list_id is None && r.priority is None && r.source_app is None,
{
    AutomationEvent {
        kind: AutomationEventKind::MemoryCreated,
        entity_type: AutomationEntityType::Memory,
        entity_id: memory.id,
        title: memory.title.clone(),
        body: memory.body.clone(),
        list_id: None,
        tag_names: copy_names(&memory.tag_names),
        priority: None,
        source_app: None,
        added_tag: None,
        target_list_id: None,
    }
}

pub fn event_from_clipboard_favorited(item: &ClipboardItem) -> (r: AutomationEvent)
    ensures
        r.kind == AutomationEventKind::ClipboardFavorited && r.entity_type
            == AutomationEntityType::Clipboard && r.entity_id == item.id && r.title@ == (if item.content@.len() <= 120 { item.content@ } else { item.content@.take(120) })
            && r.body@ == item.content@ && r.source_app == item.source_app && r.list_id is None
            && r.tag_names@.len() == 0 && r.priority is None,
{
    AutomationEvent {
        kind: AutomationEventKind::ClipboardFavorited,
        entity_type: AutomationEntityType::Clipboard,
        entity_id: item.id,
        title: crate::fragments::first_chars(item.content.as_str(), 120),
        body: item.content.clone(),
        list_id: None,
        tag_names: Vec::new(),
        priority: None,
        source_app: copy_opt(&item.source_app),
        added_tag: None,
        target_list_id: None,
    }
}

// ---------------------------------------------------------------------
// Stored definitions

/// The text of member `key`, when it is a string.
pub open spec fn field_text(v: JsonValue, key: Seq<char>) -> Option<Seq<char>> {
    match json_field(v, key) {
        Some(JsonValue::Str(s)) => Some(s@),
        _ => None,
    }
}

/// The value of member `key`, when it is a boolean.
pub open spec fn field_bool(v: JsonValue, key: Seq<char>) -> Option<bool> {
    match json_field(v, key) {
        Some(JsonValue::Bool(b)) => Some(b),
        _ => None,
    }
}

/// The items of an array.
pub open spec fn array_items(v: JsonValue) -> Option<Seq<JsonValue>> {
    match v {
        JsonValue::Array(a) => Some(a@),
        _ => None,
    }
}

/// The `type` a condition is stored under.
pub open spec fn condition_kind_text(c: AutomationCondition) -> Seq<char> {
    match c {
        AutomationCondition::TitleContains { .. } => "title_contains"@,
        AutomationCondition::BodyContains { .. } => "body_contains"@,
        AutomationCondition::ListIs { .. } => "list_is"@,
        AutomationCondition::HasTag { .. } => "has_tag"@,
        AutomationCondition::PriorityIs { .. } => "priority_is"@,
        AutomationCondition::SourceAppIs { .. } => "source_app_is"@,
    }
}

/// The `type` an action is stored under.
pub open spec fn action_kind_text(a: AutomationAction) -> Seq<char> {
    match a {
        AutomationAction::SetPriority { .. } => "set_priority"@,
        AutomationAction::MoveToList { .. } => "move_to_list"@,
        AutomationAction::AddTag { .. } => "add_tag"@,
        AutomationAction::PinMemory => "pin_memory"@,
        AutomationAction::Notify { .. } => "notify"@,
    }
}

/// `j` is the stored form of condition `c`: its `type` names the kind and
/// its other members hold the condition's values.
pub open spec fn condition_stored(c: AutomationCondition, j: JsonValue) -> bool {
    &&& field_text(j, "type"@) == Some(condition_kind_text(c))
    &&& match c {
        AutomationCondition::TitleContains { text, case_insensitive } => {
            &&& field_text(j, "text"@) == Some(text@)
            &&& field_bool(j, "caseInsensitive"@) == Some(case_insensitive)
        },
        AutomationCondition::BodyContains { text, case_insensitive } => {
            &&& field_text(j, "text"@) == Some(text@)
            &&& field_bool(j, "caseInsensitive"@) == Some(case_insensitive)
        },
        AutomationCondition::ListIs { list_id } => field_text(j, "listId"@) matches Some(t) && id_of_text(t)
            == Some(list_id),
        AutomationCondition::HasTag { tag_name } => field_text(j, "tagName"@) == Some(tag_name@),
        AutomationCondition::PriorityIs { priority } => field_text(j, "priority"@) == Some(
            task_priority_text(priority),
        ),
        AutomationCondition::SourceAppIs { app } => field_text(j, "app"@) == Some(app@),
    }
}

/// `j` is the stored form of action `a`.
pub open spec fn action_stored(a: AutomationAction, j: JsonValue) -> bool {
    &&& field_text(j, "type"@) == Some(action_kind_text(a))
    &&& match a {
        AutomationAction::SetPriority { priority } => field_text(j, "priority"@) == Some(
            task_priority_text(priority),
        ),
        AutomationAction::MoveToList { list_id } => field_text(j, "listId"@) matches Some(t) && id_of_text(t)
            == Some(list_id),
        AutomationAction::AddTag { tag_name } => field_text(j, "tagName"@) == Some(tag_name@),
        AutomationAction::PinMemory => true,
        AutomationAction::Notify { title, body } => {
            &&& field_text(j, "title"@) == Some(title@)
            &&& field_text(j, "body"@) == Some(body@)
        },
    }
}

/// `j` is an array of the stored forms of `actions`, in order.
pub open spec fn actions_stored(actions: Seq<AutomationAction>, j: JsonValue) -> bool {
    match array_items(j) {
        Some(items) => items.len() == actions.len() && forall|i: int|
            0 <= i < items.len() ==> action_stored(actions[i], #[trigger] items[i]),
        None => false,
    }
}

/// `j` is the stored form of a rule definition: its trigger, its
/// conditions and its actions.
pub open spec fn definition_stored(d: AutomationRuleDefinition, j: JsonValue) -> bool {
    &&& field_text(j, "trigger"@) == Some(event_kind_text(d.trigger))
    &&& match json_field(j, "conditions"@) {
        Some(c) => match array_items(c) {
            Some(items) => items.len() == d.conditions@.len() && forall|i: int|
                0 <= i < items.len() ==> condition_stored(d.conditions@[i], #[trigger] items[i]),
            None => false,
        },
        None => false,
    }
    &&& match json_field(j, "actions"@) {
        Some(a) => actions_stored(d.actions@, a),
        None => false,
    }
}

/// Two conditions with the same values.
pub open spec fn same_condition(a: AutomationCondition, b: AutomationCondition) -> bool {
    match (a, b) {
        (
            AutomationCondition::TitleContains { text: x, case_insensitive: p },
            AutomationCondition::TitleContains { text: y, case_insensitive: q },
        ) => x@ == y@ && p == q,
        (
            AutomationCondition::BodyContains { text: x, case_insensitive: p },
            AutomationCondition::BodyContains { text: y, case_insensitive: q },
        ) => x@ == y@ && p == q,
        (AutomationCondition::ListIs { list_id: x }, AutomationCondition::ListIs { list_id: y }) => x == y,
        (AutomationCondition::HasTag { tag_name: x }, AutomationCondition::HasTag { tag_name: y }) => x@ == y@,
        (AutomationCondition::PriorityIs { priority: x }, AutomationCondition::PriorityIs { priority: y }) => x == y,
        (AutomationCondition::SourceAppIs { app: x }, AutomationCondition::SourceAppIs { app: y }) => x@ == y@,
        _ => false,
    }
}

/// Two actions with the same values.
pub open spec fn same_action(a: AutomationAction, b: AutomationAction) -> bool {
    match (a, b) {
        (AutomationAction::SetPriority { priority: x }, AutomationAction::SetPriority { priority: y }) => x == y,
        (AutomationAction::MoveToList { list_id: x }, AutomationAction::MoveToList { list_id: y }) => x == y,
        (AutomationAction::AddTag { tag_name: x }, AutomationAction::AddTag { tag_name: y }) => x@ == y@,
        (AutomationAction::PinMemory, AutomationAction::PinMemory) => true,
        (AutomationAction::Notify { title: t1, body: b1 }, AutomationAction::Notify { title: t2, body: b2 }) => t1@
            == t2@ && b1@ == b2@,
        _ => false,
    }
}

/// Two definitions with the same trigger, conditions and actions.
pub open spec fn same_definition(a: AutomationRuleDefinition, b: AutomationRuleDefinition) -> bool {
    &&& a.trigger == b.trigger
    &&& a.conditions@.len() == b.conditions@.len()
    &&& forall|i: int| 0 <= i < a.conditions@.len() ==> same_condition(#[trigger] a.conditions@[i], b.conditions@[i])
    &&& a.actions@.len() == b.actions@.len()
    &&& forall|i: int| 0 <= i < a.actions@.len() ==> same_action(#[trigger] a.actions@[i], b.actions@[i])
}

/// Which variant a condition is.
pub open spec fn condition_variant(c: AutomationCondition) -> int {
    match c {
        AutomationCondition::TitleContains { .. } => 0,
        AutomationCondition::BodyContains { .. } => 1,
        AutomationCondition::ListIs { .. } => 2,
        AutomationCondition::HasTag { .. } => 3,
        AutomationCondition::PriorityIs { .. } => 4,
        AutomationCondition::SourceAppIs { .. } => 5,
    }
}

/// Which variant an action is.
pub open spec fn action_variant(a: AutomationAction) -> int {
    match a {
        AutomationAction::SetPriority { .. } => 0,
        AutomationAction::MoveToList { .. } => 1,
        AutomationAction::AddTag { .. } => 2,
        AutomationAction::PinMemory => 3,
        AutomationAction::Notify { .. } => 4,
    }
}

/// Which condition variant a stored `type` names.
pub open spec fn condition_variant_of_text(t: Seq<char>) -> int {
    if t == "title_contains"@ {
        0
    } else if t == "body_contains"@ {
        1
    } else if t == "list_is"@ {
        2
    } else if t == "has_tag"@ {
        3
    } else if t == "priority_is"@ {
        4
    } else if t == "source_app_is"@ {
        5
    } else {
        -1
    }
}

/// Which action variant a stored `type` names.
pub open spec fn action_variant_of_text(t: Seq<char>) -> int {
    if t == "set_priority"@ {
        0
    } else if t == "move_to_list"@ {
        1
    } else if t == "add_tag"@ {
        2
    } else if t == "pin_memory"@ {
        3
    } else if t == "notify"@ {
        4
    } else {
        -1
    }
}

/// The member names a stored object uses are distinct, and so are the
/// kind names.
proof fn lemma_codec_texts()
    ensures
        "type"@ != "text"@,
        "type"@ != "caseInsensitive"@,
        "text"@ != "caseInsensitive"@,
        "type"@ != "listId"@,
        "type"@ != "tagName"@,
        "type"@ != "priority"@,
        "type"@ != "app"@,
        "type"@ != "title"@,
        "type"@ != "body"@,
        "title"@ != "body"@,
        "actions"@ != "conditions"@,
        "actions"@ != "trigger"@,
        "conditions"@ != "trigger"@,
        forall|c: AutomationCondition| condition_variant_of_text(#[trigger] condition_kind_text(c)) == condition_variant(c),
        forall|a: AutomationAction| action_variant_of_text(#[trigger] action_kind_text(a)) == action_variant(a),
{
    reveal_strlit("actions");
    reveal_strlit("conditions");
    reveal_strlit("trigger");
    assert("actions"@[0] != "trigger"@[0]);
    reveal_strlit("type");
    reveal_strlit("text");
    reveal_strlit("caseInsensitive");
    reveal_strlit("listId");
    reveal_strlit("tagName");
    reveal_strlit("priority");
    reveal_strlit("app");
    reveal_strlit("title");
    reveal_strlit("body");
    reveal_strlit("title_contains");
    reveal_strlit("body_contains");
    reveal_strlit("list_is");
    reveal_strlit("has_tag");
    reveal_strlit("priority_is");
    reveal_strlit("source_app_is");
    reveal_strlit("set_priority");
    reveal_strlit("move_to_list");
    reveal_strlit("add_tag");
    reveal_strlit("pin_memory");
    reveal_strlit("notify");
    assert("type"@[1] != "text"@[1]);
    assert("type"@[0] != "body"@[0]);
    assert("text"@[0] != "body"@[0]);
    assert("list_is"@[0] != "has_tag"@[0]);
    assert("body_contains"@[0] != "source_app_is"@[0]);
    assert("set_priority"@[0] != "move_to_list"@[0]);
    let cs = seq!["title_contains"@, "body_contains"@, "list_is"@, "has_tag"@, "priority_is"@, "source_app_is"@];
    assert forall|i: int, j: int| 0 <= i < j < 6 implies cs[i] != cs[j] by {
        if cs[i].len() == cs[j].len() {
            assert(cs[i][0] != cs[j][0]);
        }
    }
    assert forall|c: AutomationCondition| condition_variant_of_text(#[trigger] condition_kind_text(c)) == condition_variant(c) by {
        assert(cs[0] != cs[1] && cs[0] != cs[2] && cs[0] != cs[3] && cs[0] != cs[4] && cs[0] != cs[5]);
        assert(cs[1] != cs[2] && cs[1] != cs[3] && cs[1] != cs[4] && cs[1] != cs[5]);
        assert(cs[2] != cs[3] && cs[2] != cs[4] && cs[2] != cs[5]);
        assert(cs[3] != cs[4] && cs[3] != cs[5]);
        assert(cs[4] != cs[5]);
    }
    let acts = seq!["set_priority"@, "move_to_list"@, "add_tag"@, "pin_memory"@, "notify"@];
    assert forall|i: int, j: int| 0 <= i < j < 5 implies acts[i] != acts[j] by {
        if acts[i].len() == acts[j].len() {
            assert(acts[i][0] != acts[j][0]);
        }
    }
    assert forall|a: AutomationAction| action_variant_of_text(#[trigger] action_kind_text(a)) == action_variant(a) by {
        assert(acts[0] != acts[1] && acts[0] != acts[2] && acts[0] != acts[3] && acts[0] != acts[4]);
        assert(acts[1] != acts[2] && acts[1] != acts[3] && acts[1] != acts[4]);
        assert(acts[2] != acts[3] && acts[2] != acts[4]);
        assert(acts[3] != acts[4]);
    }
}

/// A stored condition determines the condition.
pub proof fn condition_stored_determines(a: AutomationCondition, b: AutomationCondition, j: JsonValue)
    requires
        condition_stored(a, j),
        condition_stored(b, j),
    ensures
        same_condition(a, b),
{
    lemma_codec_texts();
    match (a, b) {
        (AutomationCondition::PriorityIs { priority: x }, AutomationCondition::PriorityIs { priority: y }) => {
            lemma_priority_text_injective(x, y);
        },
        _ => {},
    }
}

/// A stored action determines the action.
pub proof fn action_stored_determines(a: AutomationAction, b: AutomationAction, j: JsonValue)
    requires
        action_stored(a, j),
        action_stored(b, j),
    ensures
        same_action(a, b),
{
    lemma_codec_texts();
    match (a, b) {
        (AutomationAction::SetPriority { priority: x }, AutomationAction::SetPriority { priority: y }) => {
            lemma_priority_text_injective(x, y);
        },
        _ => {},
    }
}

/// A stored definition determines the definition: what is written is what
/// is read back.
pub proof fn definition_stored_determines(a: AutomationRuleDefinition, b: AutomationRuleDefinition, j: JsonValue)
    requires
        definition_stored(a, j),
        definition_stored(b, j),
    ensures
        same_definition(a, b),
{
    lemma_event_kind_text_injective(a.trigger, b.trigger);
    let conds = array_items(json_field(j, "conditions"@).unwrap()).unwrap();
    assert forall|i: int| 0 <= i < a.conditions@.len() implies same_condition(#[trigger] a.conditions@[i], b.conditions@[i]) by {
        condition_stored_determines(a.conditions@[i], b.conditions@[i], conds[i]);
    }
    let acts = array_items(json_field(j, "actions"@).unwrap()).unwrap();
    assert forall|i: int| 0 <= i < a.actions@.len() implies same_action(#[trigger] a.actions@[i], b.actions@[i]) by {
        action_stored_determines(a.actions@[i], b.actions@[i], acts[i]);
    }
}

fn member(key: &str, v: JsonValue) -> (r: (String, JsonValue))
    ensures
        r.0@ == key@,
        r.1 == v,
{
    (key.to_string(), v)
}

fn typed(kind: &str) -> (r: Vec<(String, JsonValue)>)
    ensures
        r@.len() == 1,
        r@[0].0@ == "type"@,
        r@[0].1 matches JsonValue::Str(s) && s@ == kind@,
{
    let mut m: Vec<(String, JsonValue)> = Vec::new();
    m.push(member("type", JsonValue::Str(kind.to_string())));
    m
}

/// The stored JSON of a condition.
pub fn condition_to_json(c: &AutomationCondition) -> (r: JsonValue)
    ensures
        condition_stored(*c, r),
{
    proof {
        lemma_codec_texts();
    }
    let m = match c {
        AutomationCondition::TitleContains { text, case_insensitive } => {
            let mut m = typed("title_contains");
            m.push(member("text", JsonValue::Str(text.clone())));
            m.push(member("caseInsensitive", JsonValue::Bool(*case_insensitive)));
            m
        },
        AutomationCondition::BodyContains { text, case_insensitive } => {
            let mut m = typed("body_contains");
            m.push(member("text", JsonValue::Str(text.clone())));
            m.push(member("caseInsensitive", JsonValue::Bool(*case_insensitive)));
            m
        },
        AutomationCondition::ListIs { list_id } => {
            proof {
                lemma_id_text_roundtrip(*list_id);
            }
            let mut m = typed("list_is");
            m.push(member("listId", JsonValue::Str(crate::ids::format_id(*list_id))));
            m
        },
        AutomationCondition::HasTag { tag_name } => {
            let mut m = typed("has_tag");
            m.push(member("tagName", JsonValue::Str(tag_name.clone())));
            m
        },
        AutomationCondition::PriorityIs { priority } => {
            let mut m = typed("priority_is");
            m.push(member("priority", JsonValue::Str(priority.as_str().to_string())));
            m
        },
        AutomationCondition::SourceAppIs { app } => {
            let mut m = typed("source_app_is");
            m.push(member("app", JsonValue::Str(app.clone())));
            m
        },
    };
    proof {
        lemma_member_at(m@, "type"@, 0);
        if m@.len() >= 2 {
            lemma_member_at(m@, m@[1].0@, 1);
        }
        if m@.len() >= 3 {
            lemma_member_at(m@, m@[2].0@, 2);
        }
    }
    JsonValue::Object(m)
}

/// The stored JSON of an action.
pub fn action_to_json(a: &AutomationAction) -> (r: JsonValue)
    ensures
        action_stored(*a, r),
{
    proof {
        lemma_codec_texts();
    }
    let m = match a {
        AutomationAction::SetPriority { priority } => {
            let mut m = typed("set_priority");
            m.push(member("priority", JsonValue::Str(priority.as_str().to_string())));
            m
        },
        AutomationAction::MoveToList { list_id } => {
            proof {
                lemma_id_text_roundtrip(*list_id);
            }
            let mut m = typed("move_to_list");
            m.push(member("listId", JsonValue::Str(crate::ids::format_id(*list_id))));
            m
        },
        AutomationAction::AddTag { tag_name } => {
            let mut m = typed("add_tag");
            m.push(member("tagName", JsonValue::Str(tag_name.clone())));
            m
        },
        AutomationAction::PinMemory => typed("pin_memory"),
        AutomationAction::Notify { title, body } => {
            let mut m = typed("notify");
            m.push(member("title", JsonValue::Str(title.clone())));
            m.push(member("body", JsonValue::Str(body.clone())));
            m
        },
    };
    proof {
        lemma_member_at(m@, "type"@, 0);
        if m@.len() >= 2 {
            lemma_member_at(m@, m@[1].0@, 1);
        }
        if m@.len() >= 3 {
            lemma_member_at(m@, m@[2].0@, 2);
        }
    }
    JsonValue::Object(m)
}

/// The stored JSON of a list of actions.
pub fn actions_to_json(actions: &Vec<AutomationAction>) -> (r: JsonValue)
    ensures
        actions_stored(actions@, r),
{
    let mut out: Vec<JsonValue> = Vec::new();
    let mut i: usize = 0;
    while i < actions.len()
        invariant
            i <= actions@.len(),
            out@.len() == i,
            forall|k: int| 0 <= k < i ==> action_stored(actions@[k], #[trigger] out@[k]),
        decreases actions@.len() - i,
    {
        out.push(action_to_json(&actions[i]));
        i = i + 1;
    }
    JsonValue::Array(out)
}

/// The stored JSON of a rule definition.
pub fn definition_to_json(d: &AutomationRuleDefinition) -> (r: JsonValue)
    ensures
        definition_stored(*d, r),
{
    let mut conds: Vec<JsonValue> = Vec::new();
    let mut i: usize = 0;
    while i < d.conditions.len()
        invariant
            i <= d.conditions@.len(),
            conds@.len() == i,
            forall|k: int| 0 <= k < i ==> condition_stored(d.conditions@[k], #[trigger] conds@[k]),
        decreases d.conditions@.len() - i,
    {
        conds.push(condition_to_json(&d.conditions[i]));
        i = i + 1;
    }
    let acts = actions_to_json(&d.actions);
    let mut root: Vec<(String, JsonValue)> = Vec::new();
    root.push(member("actions", acts));
    root.push(member("conditions", JsonValue::Array(conds)));
    root.push(member("trigger", JsonValue::Str(d.trigger.as_str().to_string())));
    proof {
        lemma_codec_texts();
        lemma_member_at(root@, "actions"@, 0);
        lemma_member_at(root@, "conditions"@, 1);
        lemma_member_at(root@, "trigger"@, 2);
    }
    JsonValue::Object(root)
}

fn str_member(v: &JsonValue, key: &str) -> (r: Option<String>)
    ensures
        match r {
            Some(s) => field_text(*v, key@) == Some(s@),
            None => field_text(*v, key@) is None,
        },
{
    match v.get(key) {
        Some(JsonValue::Str(s)) => Some(s.clone()),
        _ => None,
    }
}

fn bool_member(v: &JsonValue, key: &str) -> (r: Option<bool>)
    ensures
        r == field_bool(*v, key@),
{
    match v.get(key) {
        Some(JsonValue::Bool(b)) => Some(*b),
        _ => None,
    }
}

fn id_member(v: &JsonValue, key: &str) -> (r: Option<EntityId>)
    ensures
        match field_text(*v, key@) {
            Some(t) => r == id_of_text(t),
            None => r is None,
        },
{
    match str_member(v, key) {
        Some(s) => crate::ids::parse_id(s.as_str()),
        None => None,
    }
}

fn priority_member(v: &JsonValue, key: &str) -> (r: Option<TaskPriority>)
    ensures
        r matches Some(p) ==> field_text(*v, key@) == Some(task_priority_text(p)),
        (exists|p: TaskPriority| field_text(*v, key@) == Some(task_priority_text(p))) ==> r is Some,
{
    match str_member(v, key) {
        Some(s) => match TaskPriority::parse(s.as_str()) {
            Ok(p) => Some(p),
            Err(_) => None,
        },
        None => None,
    }
}

/// Reads a stored action: the action whose stored form the value is, if
/// there is one.
pub fn action_from_json(v: &JsonValue) -> (r: Option<AutomationAction>)
    ensures
        r matches Some(a) ==> action_stored(a, *v),
        (exists|a: AutomationAction| action_stored(a, *v)) ==> r is Some,
{
    proof {
        lemma_codec_texts();
    }
    let ghost w = choose|a: AutomationAction| action_stored(a, *v);
    let kind = str_member(v, "type")?;
    if str_eq(kind.as_str(), "set_priority") {
        Some(AutomationAction::SetPriority { priority: priority_member(v, "priority")? })
    } else if str_eq(kind.as_str(), "move_to_list") {
        Some(AutomationAction::MoveToList { list_id: id_member(v, "listId")? })
    } else if str_eq(kind.as_str(), "add_tag") {
        Some(AutomationAction::AddTag { tag_name: str_member(v, "tagName")? })
    } else if str_eq(kind.as_str(), "pin_memory") {
        Some(AutomationAction::PinMemory)
    } else if str_eq(kind.as_str(), "notify") {
        Some(AutomationAction::Notify { title: str_member(v, "title")?, body: str_member(v, "body")? })
    } else {
        None
    }
}

/// Reads a stored condition: the condition whose stored form the value
/// is, if there is one.
pub fn condition_from_json(v: &JsonValue) -> (r: Option<AutomationCondition>)
    ensures
        r matches Some(c) ==> condition_stored(c, *v),
        (exists|c: AutomationCondition| condition_stored(c, *v)) ==> r is Some,
{
    proof {
        lemma_codec_texts();
    }
    let ghost w = choose|c: AutomationCondition| condition_stored(c, *v);
    let kind = str_member(v, "type")?;
    if str_eq(kind.as_str(), "title_contains") {
        Some(
            AutomationCondition::TitleContains {
                text: str_member(v, "text")?,
                case_insensitive: bool_member(v, "caseInsensitive")?,
            },
        )
    } else if str_eq(kind.as_str(), "body_contains") {
        Some(
            AutomationCondition::BodyContains {
                text: str_member(v, "text")?,
                case_insensitive: bool_member(v, "caseInsensitive")?,
            },
        )
    } else if str_eq(kind.as_str(), "list_is") {
        Some(AutomationCondition::ListIs { list_id: id_member(v, "listId")? })
    } else if str_eq(kind.as_str(), "has_tag") {
        Some(AutomationCondition::HasTag { tag_name: str_member(v, "tagName")? })
    } else if str_eq(kind.as_str(), "priority_is") {
        Some(AutomationCondition::PriorityIs { priority: priority_member(v, "priority")? })
    } else if str_eq(kind.as_str(), "source_app_is") {
        Some(AutomationCondition::SourceAppIs { app: str_member(v, "app")? })
    } else {
        None
    }
}

/// Reads stored actions: the actions whose stored form the value is, if
/// every item is one.
pub fn actions_from_json(v: &JsonValue) -> (r: Option<Vec<AutomationAction>>)
    ensures
        r matches Some(a) ==> actions_stored(a@, *v),
        (exists|a: Seq<AutomationAction>| actions_stored(a, *v)) ==> r is Some,
{
    let arr = match v {
        JsonValue::Array(a) => a,
        _ => return None,
    };
    let mut out: Vec<AutomationAction> = Vec::new();
    let mut i: usize = 0;
    while i < arr.len()
        invariant
            i <= arr@.len(),
            *v == JsonValue::Array(*arr),
            out@.len() == i,
            forall|k: int| 0 <= k < i ==> action_stored(out@[k], #[trigger] arr@[k]),
        decreases arr@.len() - i,
    {
        proof {
            if exists|a: Seq<AutomationAction>| actions_stored(a, *v) {
                let a = choose|a: Seq<AutomationAction>| actions_stored(a, *v);
                assert(action_stored(a[i as int], arr@[i as int]));
            }
        }
        out.push(action_from_json(&arr[i])?);
        i = i + 1;
    }
    Some(out)
}

fn parse_definition(v: &JsonValue) -> (r: Option<AutomationRuleDefinition>)
    ensures
        r matches Some(d) ==> definition_stored(d, *v),
        (exists|d: AutomationRuleDefinition| definition_stored(d, *v)) ==> r is Some,
{
    let ghost some_d = exists|d: AutomationRuleDefinition| definition_stored(d, *v);
    let ghost w = choose|d: AutomationRuleDefinition| definition_stored(d, *v);
    let t = str_member(v, "trigger")?;
    let trigger = AutomationEventKind::parse(t.as_str());
    let trigger = match trigger {
        Some(k) => k,
        None => {
            assert(!some_d);
            return None;
        },
    };
    let conds = match v.get("conditions") {
        Some(JsonValue::Array(a)) => a,
        _ => return None,
    };
    let mut conditions: Vec<AutomationCondition> = Vec::new();
    let mut i: usize = 0;
    while i < conds.len()
        invariant
            i <= conds@.len(),
            json_field(*v, "conditions"@) == Some(JsonValue::Array(*conds)),
            some_d ==> definition_stored(w, *v),
            conditions@.len() == i,
            forall|k: int| 0 <= k < i ==> condition_stored(conditions@[k], #[trigger] conds@[k]),
        decreases conds@.len() - i,
    {
        proof {
            if some_d {
                assert(condition_stored(w.conditions@[i as int], conds@[i as int]));
            }
        }
        conditions.push(condition_from_json(&conds[i])?);
        i = i + 1;
    }
    let actions = match v.get("actions") {
        Some(a) => {
            proof {
                if some_d {
                    assert(actions_stored(w.actions@, *a));
                }
            }
            actions_from_json(a)?
        },
        None => return None,
    };
    let d = AutomationRuleDefinition { trigger, conditions, actions };
    Some(d)
}

/// Reads a stored definition; an unreadable one reads as a rule on task
/// creation with no conditions and no actions.
pub fn definition_from_json(v: &JsonValue) -> (r: AutomationRuleDefinition)
    ensures
        (exists|d: AutomationRuleDefinition| definition_stored(d, *v)) ==> definition_stored(r, *v),
        !(exists|d: AutomationRuleDefinition| definition_stored(d, *v)) ==> (r.trigger
            == AutomationEventKind::TaskCreated && r.conditions@.len() == 0 && r.actions@.len() == 0),
{
    match parse_definition(v) {
        Some(d) => d,
        None => AutomationRuleDefinition {
            trigger: AutomationEventKind::TaskCreated,
            conditions: Vec::new(),
            actions: Vec::new(),
        },
    }
}

fn rule_from_row(row: &Vec<SqlValue>) -> (r: Result<AutomationRule, DomainError>)
    ensures
        r matches Ok(rule) ==> rule.id == crate::rows::id_cell(row@, 0).unwrap(),
        r matches Err(e) ==> e is Internal,
{
    let id = id_at(row, 0)?;
    let name = text_at(row, 1)?;
    let enabled = int_at(row, 2)? != 0;
    let raw = text_at(row, 3)?;
    let doc = json_or_empty_object(raw.as_str());
    Ok(
        AutomationRule {
            id,
            name,
            enabled,
            definition: definition_from_json(&doc),
            created_at: text_at(row, 4)?,
            updated_at: text_at(row, 5)?,
            revision: int_at(row, 6)?,
        },
    )
}

pub struct AutomationRun {
    pub id: EntityId,
    pub rule_id: EntityId,
    pub rule_name: String,
    pub entity_type: AutomationEntityType,
    pub entity_id: EntityId,
    pub status: AutomationRunStatus,
    pub actions_applied: Vec<AutomationAction>,
    pub error_summary: Option<String>,
    pub dry_run: bool,
    pub created_at: String,
}

/// The status a stored run's status text stands for; unknown text reads
/// as a failure.
pub open spec fn run_status_of(s: Seq<char>) -> AutomationRunStatus {
    if s == "success"@ {
        AutomationRunStatus::Success
    } else if s == "skipped"@ {
        AutomationRunStatus::Skipped
    } else if s == "dry_run"@ {
        AutomationRunStatus::DryRun
    } else {
        AutomationRunStatus::Failed
    }
}

/// The actions a run row lists: its stored actions where the column holds
/// a readable list, else none.
pub open spec fn applied_actions_read(acts: Seq<AutomationAction>, col: Option<Seq<char>>) -> bool {
    match col {
        Some(raw) => match crate::json::json_parse(raw) {
            Some(doc) => if exists|a: Seq<AutomationAction>| actions_stored(a, doc) {
                actions_stored(acts, doc)
            } else {
                acts.len() == 0
            },
            None => acts.len() == 0,
        },
        None => acts.len() == 0,
    }
}

/// A run row whose columns all have the schema's types.
pub open spec fn run_row_ok(row: Seq<SqlValue>) -> bool {
    &&& id_cell(row, 0) is Some
    &&& id_cell(row, 1) is Some
    &&& text_cell(row, 2) is Some
    &&& text_cell(row, 3) is Some
    &&& id_cell(row, 4) is Some
    &&& text_cell(row, 5) is Some
    &&& opt_text_cell(row, 6) is Some
    &&& opt_text_cell(row, 7) is Some
    &&& int_cell(row, 8) is Some
    &&& text_cell(row, 9) is Some
}

/// The rules of `rules` that fire on `e`, in order.
pub open spec fn fired(rules: Seq<AutomationRule>, e: AutomationEvent) -> Seq<AutomationRule>
    decreases rules.len(),
{
    if rules.len() == 0 {
        Seq::empty()
    } else {
        let prev = fired(rules.drop_last(), e);
        if rule_fires(rules.last(), e) {
            prev.push(rules.last())
        } else {
            prev
        }
    }
}

/// The outcome of a rule in a dry run: a preview of its actions where it
/// fires, else a skip.
pub open spec fn dry_outcome_fits(rule: AutomationRule, e: AutomationEvent, o: AutomationRunOutcome) -> bool {
    &&& o.rule_id == rule.id
    &&& o.rule_name@ == rule.name@
    &&& if rule_fires(rule, e) {
        o.status == AutomationRunStatus::DryRun && o.actions_applied@ == rule.definition.actions@ && o.error_summary is None
    } else {
        o.status == AutomationRunStatus::Skipped && o.actions_applied@.len() == 0
    }
}

/// The outcome of a firing rule in a live run: its actions applied, or a
/// failure with its reason and nothing applied.
pub open spec fn live_outcome_fits(rule: AutomationRule, o: AutomationRunOutcome) -> bool {
    &&& o.rule_id == rule.id
    &&& o.rule_name@ == rule.name@
    &&& (o.status == AutomationRunStatus::Success && o.actions_applied@ == rule.definition.actions@
        && o.error_summary is None) || (o.status == AutomationRunStatus::Failed && o.actions_applied@.len() == 0
        && o.error_summary is Some)
}

/// The outcomes of running `rules` on `e`: a dry run answers for every
/// rule in order; a live run for every rule that fires, in order.
pub open spec fn run_fits(rules: Seq<AutomationRule>, e: AutomationEvent, dry_run: bool, outcomes: Seq<AutomationRunOutcome>) -> bool {
    if dry_run {
        outcomes.len() == rules.len() && forall|k: int| 0 <= k < outcomes.len() ==> dry_outcome_fits(rules[k], e, #[trigger] outcomes[k])
    } else {
        outcomes.len() == fired(rules, e).len() && forall|k: int| 0 <= k < outcomes.len() ==> live_outcome_fits(fired(rules, e)[k], #[trigger] outcomes[k])
    }
}

/// A list of (title, body) notes, as text.
pub open spec fn note_pairs(s: Seq<(String, String)>) -> Seq<(Seq<char>, Seq<char>)> {
    s.map_values(|p: (String, String)| (p.0@, p.1@))
}

/// The notes that running these actions in order raises: one per
/// `Notify`, with its title and body.
pub open spec fn notify_notes(acts: Seq<AutomationAction>) -> Seq<(Seq<char>, Seq<char>)>
    decreases acts.len(),
{
    if acts.len() == 0 {
        Seq::empty()
    } else {
        let rest = notify_notes(acts.drop_last());
        match acts.last() {
            AutomationAction::Notify { title, body } => rest.push((title@, body@)),
            _ => rest,
        }
    }
}

/// How many of these actions change an entity (all but the notes).
pub open spec fn edit_count(acts: Seq<AutomationAction>) -> nat
    decreases acts.len(),
{
    if acts.len() == 0 {
        0
    } else {
        edit_count(acts.drop_last()) + if acts.last() is Notify {
            0nat
        } else {
            1nat
        }
    }
}

fn parse_status(s: &str) -> (r: AutomationRunStatus)
    ensures
        r == run_status_of(s@),
{
    if str_eq(s, "success") {
        AutomationRunStatus::Success
    } else if str_eq(s, "skipped") {
        AutomationRunStatus::Skipped
    } else if str_eq(s, "dry_run") {
        AutomationRunStatus::DryRun
    } else {
        AutomationRunStatus::Failed
    }
}

fn run_from_row(row: &Vec<SqlValue>) -> (r: Result<AutomationRun, DomainError>)
    ensures
        r is Ok <==> run_row_ok(row@),
        r matches Ok(run) ==> {
            &&& run.id == id_cell(row@, 0).unwrap()
            &&& run.rule_id == id_cell(row@, 1).unwrap()
            &&& run.rule_name@ == text_cell(row@, 2).unwrap()
            &&& ((exists|t: AutomationEntityType| entity_type_text(t) == text_cell(row@, 3).unwrap())
                ==> entity_type_text(run.entity_type) == text_cell(row@, 3).unwrap())
            &&& run.entity_id == id_cell(row@, 4).unwrap()
            &&& run.status == run_status_of(text_cell(row@, 5).unwrap())
            &&& applied_actions_read(run.actions_applied@, opt_text_cell(row@, 6).unwrap())
            &&& opt_text_cell(row@, 7) == Some(opt_view(run.error_summary))
            &&& run.dry_run == (int_cell(row@, 8).unwrap() != 0)
            &&& run.created_at@ == text_cell(row@, 9).unwrap()
        },
        r matches Err(e) ==> e is Internal,
{
    let id = id_at(row, 0)?;
    let rule_id = id_at(row, 1)?;
    let rule_name = text_at(row, 2)?;
    let type_text = text_at(row, 3)?;
    let entity_type = match AutomationEntityType::parse(type_text.as_str()) {
        Some(t) => t,
        None => AutomationEntityType::Task,
    };
    let entity_id = id_at(row, 4)?;
    let status_text = text_at(row, 5)?;
    let actions = match opt_text_at(row, 6)? {
        Some(raw) => match crate::json::parse_json(raw.as_str()) {
            Some(doc) => match actions_from_json(&doc) {
                Some(a) => a,
                None => Vec::new(),
            },
            None => Vec::new(),
        },
        None => Vec::new(),
    };
    Ok(
        AutomationRun {
            id,
            rule_id,
            rule_name,
            entity_type,
            entity_id,
            status: parse_status(status_text.as_str()),
            actions_applied: actions,
            error_summary: opt_text_at(row, 7)?,
            dry_run: int_at(row, 8)? != 0,
            created_at: text_at(row, 9)?,
        },
    )
}

pub struct AutomationService {
    pub db: Database,
}

const RULE_COLUMNS: &'static str = "SELECT id, name, enabled, definition_json, created_at, updated_at, revision FROM automation_rules";

impl AutomationService {
    pub fn new(db: Database) -> (r: Self)
        ensures
            r.db.path@ == db.path@,
    {
        AutomationService { db }
    }

    /// Creates an enabled rule; the name is trimmed and must not be blank,
    /// and the definition must be usable.
    pub fn create(&self, input: CreateAutomationRuleInput) -> (r: Result<AutomationRule, DomainError>)
        ensures
            trim(input.name@).len() == 0 || !definition_ok(input.definition) ==> r matches Err(DomainError::Validation(_)),
            r matches Ok(rule) ==> rule.enabled && rule.name@ == trim(input.name@) && rule.revision == 1,
    {
        let name = trimmed(input.name.as_str());
        if name.as_str().is_empty() {
            return Err(validation("规则名称不能为空"));
        }
        validate_rule_definition(&input.definition)?;
        let id = new_id();
        let now = now_stamp();
        let definition_json = render_json(&definition_to_json(&input.definition));
        let conn = connect(&self.db)?;
        let params = vec![
            id_param(id),
            SqlValue::Text(name.clone()),
            SqlValue::Text(definition_json),
            SqlValue::Text(now.clone()),
        ];
        run(
            &conn,
            "INSERT INTO automation_rules (id, name, enabled, definition_json, created_at, updated_at, revision, deleted_at)
             VALUES (?1, ?2, 1, ?3, ?4, ?4, 1, NULL)",
            params.as_slice(),
        )?;
        Ok(
            AutomationRule {
                id,
                name,
                enabled: true,
                definition: input.definition,
                created_at: now.clone(),
                updated_at: now,
                revision: 1,
            },
        )
    }

    /// Live rules, most recently updated first.
    pub fn list(&self) -> (r: Result<Vec<AutomationRule>, DomainError>)
        ensures
            r matches Err(e) ==> e is Internal,
    {
        let conn = connect(&self.db)?;
        let mut sql = RULE_COLUMNS.to_string();
        sql.append(" WHERE deleted_at IS NULL ORDER BY updated_at DESC");
        let rows = fetch(&conn, sql.as_str(), &[])?;
        let mut out: Vec<AutomationRule> = Vec::new();
        let mut i: usize = 0;
        while i < rows.len()
            invariant
                i <= rows@.len(),
            decreases rows@.len() - i,
        {
            out.push(rule_from_row(&rows[i])?);
            i = i + 1;
        }
        Ok(out)
    }

    /// A live rule by id.
    pub fn get(&self, id: EntityId) -> (r: Result<AutomationRule, DomainError>)
        ensures
            r matches Ok(rule) ==> rule.id == id,
            r matches Err(e) ==> e is Internal || e is NotFound,
    {
        let conn = connect(&self.db)?;
        let mut sql = RULE_COLUMNS.to_string();
        sql.append(" WHERE id = ?1 AND deleted_at IS NULL");
        let params = vec![id_param(id)];
        let rows = fetch(&conn, sql.as_str(), params.as_slice())?;
        let mut i: usize = 0;
        while i < rows.len()
            invariant
                i <= rows@.len(),
            decreases rows@.len() - i,
        {
            let rule = rule_from_row(&rows[i])?;
            if rule.id == id {
                return Ok(rule);
            }
            i = i + 1;
        }
        Err(not_found("规则不存在"))
    }

    /// Updates a live rule; the same checks as for creating it.
    pub fn update(&self, input: UpdateAutomationRuleInput) -> (r: Result<AutomationRule, DomainError>)
        ensures
            r matches Ok(rule) ==> rule.id == input.id && rule.enabled == input.enabled && rule.name@ == trim(input.name@),
    {
        let current = self.get(input.id)?;
        let name = trimmed(input.name.as_str());
        if name.as_str().is_empty() {
            return Err(validation("规则名称不能为空"));
        }
        validate_rule_definition(&input.definition)?;
        let now = now_stamp();
        let definition_json = render_json(&definition_to_json(&input.definition));
        let conn = connect(&self.db)?;
        let params = vec![
            SqlValue::Text(name.clone()),
            SqlValue::Integer(if input.enabled { 1 } else { 0 }),
            SqlValue::Text(definition_json),
            SqlValue::Text(now.clone()),
            id_param(input.id),
        ];
        run(
            &conn,
            "UPDATE automation_rules SET name = ?1, enabled = ?2, definition_json = ?3, updated_at = ?4, revision = revision + 1
             WHERE id = ?5 AND deleted_at IS NULL",
            params.as_slice(),
        )?;
        let revision = if current.revision < i64::MAX {
            current.revision + 1
        } else {
            current.revision
        };
        Ok(
            AutomationRule {
                id: input.id,
                name,
                enabled: input.enabled,
                definition: input.definition,
                created_at: current.created_at,
                updated_at: now,
                revision,
            },
        )
    }

    /// Pauses or resumes a rule.
    pub fn set_enabled(&self, id: EntityId, enabled: bool) -> (r: Result<AutomationRule, DomainError>)
        ensures
            r matches Ok(rule) ==> rule.id == id && rule.enabled == enabled,
    {
        let rule = self.get(id)?;
        self.update(UpdateAutomationRuleInput { id, name: rule.name, enabled, definition: rule.definition })
    }

    /// Deletes a live rule (softly).
    pub fn delete(&self, id: EntityId) -> (r: Result<(), DomainError>)
        ensures
            r matches Err(e) ==> e is Internal || e is NotFound,
    {
        let _ = self.get(id)?;
        let conn = connect(&self.db)?;
        let params = vec![SqlValue::Text(now_stamp()), id_param(id)];
        run(
            &conn,
            "UPDATE automation_rules SET deleted_at = ?1, updated_at = ?1, revision = revision + 1 WHERE id = ?2",
            params.as_slice(),
        )?;
        Ok(())
    }

    /// Recent runs (of one rule or all), latest first; at most `limit`,
    /// kept within 1..=200.
    pub fn list_runs(&self, rule_id: Option<EntityId>, limit: i64) -> (r: Result<
        Vec<AutomationRun>,
        DomainError,
    >)
        ensures
            r matches Err(e) ==> e is Internal,
    {
        let limit = if limit < 1 {
            1
        } else if limit > 200 {
            200
        } else {
            limit
        };
        let conn = connect(&self.db)?;
        let rows = match rule_id {
            Some(id) => {
                let params = vec![id_param(id), SqlValue::Integer(limit)];
                fetch(
                    &conn,
                    "SELECT id, rule_id, rule_name, entity_type, entity_id, status, actions_applied_json, error_summary, dry_run, created_at
                     FROM automation_runs WHERE rule_id = ?1 ORDER BY created_at DESC LIMIT ?2",
                    params.as_slice(),
                )?
            },
            None => {
                let params = vec![SqlValue::Integer(limit)];
                fetch(
                    &conn,
                    "SELECT id, rule_id, rule_name, entity_type, entity_id, status, actions_applied_json, error_summary, dry_run, created_at
                     FROM automation_runs ORDER BY created_at DESC LIMIT ?1",
                    params.as_slice(),
                )?
            },
        };
        let mut out: Vec<AutomationRun> = Vec::new();
        let mut i: usize = 0;
        while i < rows.len()
            invariant
                i <= rows@.len(),
            decreases rows@.len() - i,
        {
            out.push(run_from_row(&rows[i])?);
            i = i + 1;
        }
        Ok(out)
    }

    /// What a rule would do with an event (whether or not automation is on).
    pub fn dry_run(&self, rule_id: EntityId, event: AutomationEvent) -> (r: Result<
        AutomationDryRunResult,
        DomainError,
    >)
        ensures
            r matches Ok(res) ==> res.rule_id == rule_id,
    {
        let rule = self.get(rule_id)?;
        Ok(evaluate_rule(&rule, &event))
    }

    /// Runs every rule on an event. Nothing happens when automation is
    /// off or the event was caused by automation itself (`nested`), unless
    /// this is a dry run. In a dry run, a rule that fires is only recorded
    /// and one that does not is reported as skipped; otherwise the actions
    /// of each rule that fires are applied in order, and the run succeeds
    /// or fails as a whole (the error kept, cut short). Notifications and
    /// changed entities are handed back for the caller.
    pub fn run_for_event(
        &self,
        automation_enabled: bool,
        nested: bool,
        tasks: &TaskService,
        memories: &MemoryService,
        event: AutomationEvent,
        dry_run: bool,
    ) -> (r: Result<AutomationRunReport, DomainError>)
        ensures
            !dry_run && (!automation_enabled || nested) ==> (r matches Ok(rep) && rep.outcomes@.len() == 0
                && rep.notifications@.len() == 0),
            dry_run ==> (r matches Ok(rep) ==> rep.notifications@.len() == 0 && rep.updated@.len() == 0
                && forall|i: int| 0 <= i < rep.outcomes@.len() ==> ((#[trigger] rep.outcomes@[i]).status == AutomationRunStatus::Skipped
                    || rep.outcomes@[i].status == AutomationRunStatus::DryRun)),
            !dry_run ==> (r matches Ok(rep) ==> forall|i: int| 0 <= i < rep.outcomes@.len() ==> ((#[trigger] rep.outcomes@[i]).status == AutomationRunStatus::Success
                || rep.outcomes@[i].status == AutomationRunStatus::Failed)),
            r matches Ok(rep) ==> exists|rules: Seq<AutomationRule>| #[trigger] run_fits(rules, event, dry_run, rep.outcomes@),
    {
        let mut report = AutomationRunReport { outcomes: Vec::new(), notifications: Vec::new(), updated: Vec::new() };
        if !dry_run && (!automation_enabled || nested) {
            assert(run_fits(Seq::empty(), event, dry_run, report.outcomes@));
            return Ok(report);
        }
        let rules = self.list()?;
        assert(rules@.take(0) =~= Seq::<AutomationRule>::empty());
        let mut i: usize = 0;
        while i < rules.len()
            invariant
                i <= rules@.len(),
                dry_run || (automation_enabled && !nested),
                dry_run ==> report.notifications@.len() == 0 && report.updated@.len() == 0,
                dry_run ==> forall|k: int| 0 <= k < report.outcomes@.len() ==> ((#[trigger] report.outcomes@[k]).status == AutomationRunStatus::Skipped
                    || report.outcomes@[k].status == AutomationRunStatus::DryRun),
                !dry_run ==> forall|k: int| 0 <= k < report.outcomes@.len() ==> ((#[trigger] report.outcomes@[k]).status == AutomationRunStatus::Success
                    || report.outcomes@[k].status == AutomationRunStatus::Failed),
                run_fits(rules@.take(i as int), event, dry_run, report.outcomes@),
            decreases rules@.len() - i,
        {
            let rule = &rules[i];
            let evaluation = evaluate_rule(rule, &event);
            let ghost before = report.outcomes@;
            proof {
                assert(rules@.take(i + 1).drop_last() =~= rules@.take(i as int));
                assert(rules@.take(i + 1).last() == *rule);
            }
            if !evaluation.matched {
                if dry_run {
                    report.outcomes.push(
                        AutomationRunOutcome {
                            rule_id: evaluation.rule_id,
                            rule_name: evaluation.rule_name,
                            status: AutomationRunStatus::Skipped,
                            actions_applied: Vec::new(),
                            error_summary: evaluation.skip_reason,
                        },
                    );
                }
            } else if dry_run {
                self.record_run(rule, &event, AutomationRunStatus::DryRun, &evaluation.actions, None, true)?;
                report.outcomes.push(
                    AutomationRunOutcome {
                        rule_id: rule.id,
                        rule_name: rule.name.clone(),
                        status: AutomationRunStatus::DryRun,
                        actions_applied: evaluation.actions,
                        error_summary: None,
                    },
                );
            } else {
                let mut notes: Vec<(String, String)> = Vec::new();
                let mut changed: Vec<(String, EntityId, i64)> = Vec::new();
                match self.execute_actions(tasks, memories, &event, &evaluation.actions, &mut notes, &mut changed) {
                    Ok(()) => {
                        self.record_run(rule, &event, AutomationRunStatus::Success, &evaluation.actions, None, false)?;
                        report.outcomes.push(
                            AutomationRunOutcome {
                                rule_id: rule.id,
                                rule_name: rule.name.clone(),
                                status: AutomationRunStatus::Success,
                                actions_applied: evaluation.actions,
                                error_summary: None,
                            },
                        );
                        report.notifications.append(&mut notes);
                    },
                    Err(err) => {
                        let message = match err {
                            DomainError::Validation(m) => m,
                            DomainError::NotFound(m) => m,
                            DomainError::Internal(m) => m,
                        };
                        let summary = sanitize_error(message.as_str());
                        self.record_run(rule, &event, AutomationRunStatus::Failed, &Vec::new(), Some(summary.clone()), false)?;
                        report.outcomes.push(
                            AutomationRunOutcome {
                                rule_id: rule.id,
                                rule_name: rule.name.clone(),
                                status: AutomationRunStatus::Failed,
                                actions_applied: Vec::new(),
                                error_summary: Some(summary),
                            },
                        );
                    },
                }
                report.updated.append(&mut changed);
            }
            proof {
                let rs = rules@.take(i + 1);
                if dry_run {
                    assert forall|k: int| 0 <= k < report.outcomes@.len() implies dry_outcome_fits(rs[k], event, #[trigger] report.outcomes@[k]) by {
                        if k < before.len() {
                            assert(report.outcomes@[k] == before[k]);
                            assert(rs[k] == rules@.take(i as int)[k]);
                        }
                    }
                } else {
                    assert forall|k: int| 0 <= k < report.outcomes@.len() implies live_outcome_fits(fired(rs, event)[k], #[trigger] report.outcomes@[k]) by {
                        if k < before.len() {
                            assert(report.outcomes@[k] == before[k]);
                        }
                    }
                }
            }
            i = i + 1;
        }
        assert(rules@.take(rules@.len() as int) =~= rules@);
        Ok(report)
    }

    fn execute_actions(
        &self,
        tasks: &TaskService,
        memories: &MemoryService,
        event: &AutomationEvent,
        actions: &Vec<AutomationAction>,
        notes: &mut Vec<(String, String)>,
        changed: &mut Vec<(String, EntityId, i64)>,
    ) -> (r: Result<(), DomainError>)
        ensures
            r is Ok ==> note_pairs(final(notes)@) == note_pairs(old(notes)@) + notify_notes(actions@),
            r is Ok ==> final(changed)@.len() == old(changed)@.len() + edit_count(actions@),
            (forall|i: int| 0 <= i < actions@.len() ==> #[trigger] actions@[i] is Notify) ==> r is Ok,
    {
        let ghost notes0 = notes@;
        let ghost changed0 = changed@;
        let mut i: usize = 0;
        while i < actions.len()
            invariant
                i <= actions@.len(),
                note_pairs(notes@) == note_pairs(notes0) + notify_notes(actions@.take(i as int)),
                changed@.len() == changed0.len() + edit_count(actions@.take(i as int)),
                (forall|j: int| 0 <= j < actions@.len() ==> #[trigger] actions@[j] is Notify) ==> edit_count(
                    actions@.take(i as int),
                ) == 0,
            decreases actions@.len() - i,
        {
            assert(actions@.take(i + 1).drop_last() =~= actions@.take(i as int));
            assert(actions@.take(i + 1).last() == actions@[i as int]);
            let ghost notes_before = notes@;
            self.execute_action(tasks, memories, event, &actions[i], notes, changed)?;
            proof {
                if actions@[i as int] is Notify {
                    assert(note_pairs(notes@) =~= note_pairs(notes0) + notify_notes(actions@.take(i + 1)));
                } else {
                    assert(note_pairs(notes0) + notify_notes(actions@.take(i + 1)) =~= note_pairs(notes_before));
                }
            }
            i = i + 1;
        }
        assert(actions@.take(actions@.len() as int) =~= actions@);
        Ok(())
    }

    fn execute_action(
        &self,
        tasks: &TaskService,
        memories: &MemoryService,
        event: &AutomationEvent,
        action: &AutomationAction,
        notes: &mut Vec<(String, String)>,
        changed: &mut Vec<(String, EntityId, i64)>,
    ) -> (r: Result<(), DomainError>)
        ensures
            action matches AutomationAction::SetPriority { .. } && event.entity_type != AutomationEntityType::Task ==> r is Err,
            action matches AutomationAction::PinMemory && event.entity_type != AutomationEntityType::Memory ==> r is Err,
            !(action is Notify) ==> final(notes)@ == old(notes)@,
            action matches AutomationAction::Notify { title, body } ==> note_pairs(final(notes)@) == note_pairs(
                old(notes)@,
            ).push((title@, body@)),
            action is Notify ==> r is Ok && final(changed)@ == old(changed)@,
            !(action is Notify) ==> if r is Ok {
                &&& final(changed)@.len() == old(changed)@.len() + 1
                &&& final(changed)@.drop_last() == old(changed)@
                &&& final(changed)@.last().1 == event.entity_id
                &&& final(changed)@.last().0@ == (if action is PinMemory { "memory"@ } else { "task"@ })
            } else {
                final(changed)@ == old(changed)@
            },
    {
        match action {
            AutomationAction::SetPriority { priority } => {
                ensure_entity(event, AutomationEntityType::Task)?;
                let task = tasks.get_task(event.entity_id)?;
                let mut input = build_task_update(&task);
                input.priority = *priority;
                let updated = tasks.update_task(input)?;
                changed.push(("task".to_string(), updated.id, updated.revision));
            },
            AutomationAction::MoveToList { list_id } => {
                ensure_entity(event, AutomationEntityType::Task)?;
                let task = tasks.get_task(event.entity_id)?;
                let mut input = build_task_update(&task);
                input.list_id = *list_id;
                let updated = tasks.update_task(input)?;
                changed.push(("task".to_string(), updated.id, updated.revision));
            },
            AutomationAction::AddTag { tag_name } => {
                ensure_entity(event, AutomationEntityType::Task)?;
                let task = tasks.get_task(event.entity_id)?;
                let mut input = build_task_update(&task);
                input.tag_names = tags_with(&task.tag_names, tag_name.as_str());
                let updated = tasks.update_task(input)?;
                changed.push(("task".to_string(), updated.id, updated.revision));
            },
            AutomationAction::PinMemory => {
                ensure_entity(event, AutomationEntityType::Memory)?;
                let memory = memories.get(event.entity_id)?;
                let updated = memories.update(build_memory_update(&memory, true))?;
                changed.push(("memory".to_string(), updated.id, updated.revision));
            },
            AutomationAction::Notify { title, body } => {
                let ghost before = notes@;
                notes.push((title.clone(), body.clone()));
                assert(note_pairs(notes@) =~= note_pairs(before).push((title@, body@)));
            },
        }
        Ok(())
    }

    fn record_run(
        &self,
        rule: &AutomationRule,
        event: &AutomationEvent,
        status: AutomationRunStatus,
        actions: &Vec<AutomationAction>,
        error_summary: Option<String>,
        dry_run: bool,
    ) -> (r: Result<(), DomainError>)
        ensures
            r matches Err(e) ==> e is Internal,
    {
        let actions_json = render_json(&actions_to_json(actions));
        let conn = connect(&self.db)?;
        let summary = match error_summary {
            Some(s) => SqlValue::Text(s),
            None => SqlValue::Null,
        };
        let params = vec![
            id_param(new_id()),
            id_param(rule.id),
            text_param(rule.name.as_str()),
            text_param(event.entity_type.as_str()),
            id_param(event.entity_id),
            text_param(status.as_str()),
            SqlValue::Text(actions_json),
            summary,
            SqlValue::Integer(if dry_run { 1 } else { 0 }),
            SqlValue::Text(now_stamp()),
        ];
        run(
            &conn,
            "INSERT INTO automation_runs (
                id, rule_id, rule_name, entity_type, entity_id, status,
                actions_applied_json, error_summary, dry_run, created_at
             ) VALUES (?1, ?2, ?3, ?4, ?5, ?6, ?7, ?8, ?9, ?10)",
            params.as_slice(),
        )?;
        Ok(())
    }
}

} // verus!
