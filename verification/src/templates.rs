//! Item templates: a named JSON payload from which a task, a reminder or a
//! memory can be prefilled. Relative dates in the payload are resolved
//! against the day (and time) of the preview.

use vstd::prelude::*;

use crate::chars::trim;
use crate::clock::{local_now, local_today, new_id, now_stamp};
use crate::dates::{add_days, add_hours, date_plus_days, stamp_plus_hours};
use crate::db::{Database, SqlValue};
use crate::domain::{internal_msg, not_found, str_eq, validation, DomainError};
use crate::ids::EntityId;
use crate::json::{
    is_json_or_empty, json_field, json_i64, json_or_empty_object, json_str, render_json, JsonValue,
};
use crate::memories::CreateMemoryInput;
use crate::reminders::CreateReminderInput;
use crate::rows::{id_at, id_param, int_at, text_at};
use crate::store::{connect, fetch, run};
use crate::task_model::{task_priority_text, CreateTaskInput, TaskPriority};
use crate::tasks::trimmed;

verus! {

#[derive(PartialEq, Eq, Structural, Clone, Copy, Debug)]
pub enum TemplateKind {
    Task,
    Reminder,
    Memory,
}

pub open spec fn template_kind_text(k: TemplateKind) -> Seq<char> {
    match k {
        TemplateKind::Task => "task"@,
        TemplateKind::Reminder => "reminder"@,
        TemplateKind::Memory => "memory"@,
    }
}

impl TemplateKind {
    pub fn as_str(self) -> (r: &'static str)
        ensures
            r@ == template_kind_text(self),
    {
        match self {
            TemplateKind::Task => "task",
            TemplateKind::Reminder => "reminder",
            TemplateKind::Memory => "memory",
        }
    }

    pub fn parse(value: &str) -> (r: Result<TemplateKind, DomainError>)
        ensures
            r matches Ok(k) ==> template_kind_text(k) == value@,
            r is Err ==> forall|k: TemplateKind| template_kind_text(k) != value@,
            r matches Err(e) ==> e is Validation,
    {
        if str_eq(value, "task") {
            Ok(TemplateKind::Task)
        } else if str_eq(value, "reminder") {
            Ok(TemplateKind::Reminder)
        } else if str_eq(value, "memory") {
            Ok(TemplateKind::Memory)
        } else {
            proof {
                assert forall|k: TemplateKind| template_kind_text(k) != value@ by {
                    match k {
                        TemplateKind::Task => {},
                        TemplateKind::Reminder => {},
                        TemplateKind::Memory => {},
                    }
                }
            }
            Err(validation("无效模板类型"))
        }
    }
}

pub struct ItemTemplate {
    pub id: EntityId,
    pub kind: TemplateKind,
    pub name: String,
    pub payload: JsonValue,
    pub created_at: String,
    pub updated_at: String,
    pub revision: i64,
}

pub struct CreateTemplateInput {
    pub kind: TemplateKind,
    pub name: String,
    pub payload: JsonValue,
}

pub struct TemplatePreview {
    pub kind: TemplateKind,
    pub title: String,
    pub body: String,
    pub due_date: Option<String>,
    pub due_time: Option<String>,
    pub fire_at: Option<String>,
    pub priority: Option<TaskPriority>,
    /// The payload's recurrence rule, as given (an object).
    pub recurrence: Option<JsonValue>,
    pub tag_names: Vec<String>,
}

/// The text of member `key`, when it is a string.
pub open spec fn field_str(p: JsonValue, key: Seq<char>) -> Option<Seq<char>> {
    match json_field(p, key) {
        Some(v) => json_str(v),
        None => None,
    }
}

/// The integer in member `key`, when it is one.
pub open spec fn field_i64(p: JsonValue, key: Seq<char>) -> Option<i64> {
    match json_field(p, key) {
        Some(v) => json_i64(v),
        None => None,
    }
}

/// The string items of an array, in order; other items are skipped.
pub open spec fn str_items(items: Seq<JsonValue>) -> Seq<Seq<char>>
    decreases items.len(),
{
    if items.len() == 0 {
        Seq::empty()
    } else {
        let rest = str_items(items.drop_last());
        match json_str(items.last()) {
            Some(s) => rest.push(s),
            None => rest,
        }
    }
}

pub open spec fn preview_title(t: ItemTemplate) -> Seq<char> {
    match field_str(t.payload, "title"@) {
        Some(s) => s,
        None => t.name@,
    }
}

/// `body`, or `notes` when there is no `body`, when it is a string.
pub open spec fn preview_body(p: JsonValue) -> Seq<char> {
    let chosen = match json_field(p, "body"@) {
        Some(v) => Some(v),
        None => json_field(p, "notes"@),
    };
    match chosen {
        Some(v) => match json_str(v) {
            Some(s) => s,
            None => Seq::empty(),
        },
        None => Seq::empty(),
    }
}

pub open spec fn preview_priority(p: JsonValue) -> Option<TaskPriority> {
    match field_str(p, "priority"@) {
        Some(s) => if exists|q: TaskPriority| task_priority_text(q) == s {
            Some(choose|q: TaskPriority| task_priority_text(q) == s)
        } else {
            None
        },
        None => None,
    }
}

pub open spec fn preview_tags(p: JsonValue) -> Seq<Seq<char>> {
    match json_field(p, "tagNames"@) {
        Some(JsonValue::Array(items)) => str_items(items@),
        _ => Seq::empty(),
    }
}

/// `relativeDueDays` days after `today` when it is an integer, otherwise
/// `dueDate` when it is a string.
pub open spec fn preview_due_date(p: JsonValue, today: Seq<char>) -> Option<Seq<char>> {
    match field_i64(p, "relativeDueDays"@) {
        Some(days) => date_plus_days(today, days),
        None => field_str(p, "dueDate"@),
    }
}

/// A template that gives no relative due days keeps its own due date: a
/// string `dueDate` in the payload is the preview's due date, whatever
/// today is; with relative days it is that many days after today.
pub proof fn law_fixed_due_date_is_kept(p: JsonValue, today: Seq<char>)
    ensures
        field_i64(p, "relativeDueDays"@) is None ==> preview_due_date(p, today) == field_str(p, "dueDate"@),
        field_i64(p, "relativeDueDays"@) is None && field_str(p, "dueDate"@) is Some ==> preview_due_date(p, today) is Some,
        field_i64(p, "relativeDueDays"@) matches Some(n) ==> preview_due_date(p, today) == date_plus_days(today, n),
{
}

/// `relativeFireHours` hours after `now` when it is an integer, otherwise
/// `fireAt` when it is a string.
pub open spec fn preview_fire_at(p: JsonValue, now: Seq<char>) -> Option<Seq<char>> {
    match field_i64(p, "relativeFireHours"@) {
        Some(hours) => stamp_plus_hours(now, hours),
        None => field_str(p, "fireAt"@),
    }
}

pub open spec fn opt_text(o: Option<String>) -> Option<Seq<char>> {
    match o {
        Some(s) => Some(s@),
        None => None,
    }
}

pub open spec fn texts(v: Seq<String>) -> Seq<Seq<char>> {
    v.map_values(|s: String| s@)
}

fn opt_string(s: Option<&str>) -> (r: Option<String>)
    ensures
        match s {
            Some(t) => r matches Some(u) && u@ == t@,
            None => r is None,
        },
{
    match s {
        Some(t) => Some(t.to_string()),
        None => None,
    }
}

fn field_text(p: &JsonValue, key: &str) -> (r: Option<String>)
    ensures
        opt_text(r) == field_str(*p, key@),
{
    match p.get(key) {
        Some(v) => opt_string(v.as_str()),
        None => None,
    }
}

fn string_items(items: &Vec<JsonValue>) -> (r: Vec<String>)
    ensures
        texts(r@) == str_items(items@),
{
    let mut out: Vec<String> = Vec::new();
    let mut i: usize = 0;
    while i < items.len()
        invariant
            i <= items@.len(),
            texts(out@) == str_items(items@.take(i as int)),
        decreases items@.len() - i,
    {
        assert(items@.take(i + 1).drop_last() =~= items@.take(i as int));
        match items[i].as_str() {
            Some(s) => {
                out.push(s.to_string());
                assert(texts(out@) =~= str_items(items@.take(i as int)).push(s@));
            },
            None => {},
        }
        i = i + 1;
    }
    assert(items@.take(i as int) =~= items@);
    out
}

/// Fills a template's preview: the payload's fields, with relative due
/// days resolved against `today` (`%Y-%m-%d`) and relative fire hours
/// against `now` (`%Y-%m-%dT%H:%M:%S`, local time).
pub fn resolve_preview(template: ItemTemplate, today: &str, now: &str) -> (r: TemplatePreview)
    ensures
        r.kind == template.kind,
        r.title@ == preview_title(template),
        r.body@ == preview_body(template.payload),
        r.priority == preview_priority(template.payload),
        texts(r.tag_names@) == preview_tags(template.payload),
        opt_text(r.due_date) == preview_due_date(template.payload, today@),
        opt_text(r.due_time) == field_str(template.payload, "dueTime"@),
        opt_text(r.fire_at) == preview_fire_at(template.payload, now@),
        r.recurrence == json_field(template.payload, "recurrence"@),
{
    let p = &template.payload;
    let title = match field_text(p, "title") {
        Some(t) => t,
        None => template.name.clone(),
    };
    let chosen = match p.get("body") {
        Some(v) => Some(v),
        None => p.get("notes"),
    };
    let body = match chosen {
        Some(v) => match v.as_str() {
            Some(s) => s.to_string(),
            None => String::new(),
        },
        None => String::new(),
    };
    let priority = match field_text(p, "priority") {
        Some(s) => match TaskPriority::parse(s.as_str()) {
            Ok(q) => Some(q),
            Err(_) => None,
        },
        None => None,
    };
    proof {
        if let Some(s) = field_str(*p, "priority"@) {
            if priority is Some {
                let q = priority.unwrap();
                assert(task_priority_text(q) == s);
                crate::task_model::lemma_priority_text_injective(q, choose|x: TaskPriority| task_priority_text(x) == s);
            }
        }
    }
    let tag_names = match p.get("tagNames") {
        Some(v) => match v.as_array() {
            Some(items) => string_items(items),
            None => Vec::new(),
        },
        None => Vec::new(),
    };
    let due_days = match p.get("relativeDueDays") {
        Some(v) => v.as_i64(),
        None => None,
    };
    let due_date = match due_days {
        Some(days) => add_days(today, days),
        None => field_text(p, "dueDate"),
    };
    let fire_hours = match p.get("relativeFireHours") {
        Some(v) => v.as_i64(),
        None => None,
    };
    let fire_at = match fire_hours {
        Some(hours) => add_hours(now, hours),
        None => field_text(p, "fireAt"),
    };
    let due_time = field_text(p, "dueTime");
    let kind = template.kind;
    let recurrence = template.payload.take_member("recurrence");
    TemplatePreview { kind, title, body, due_date, due_time, fire_at, priority, recurrence, tag_names }
}

/// `Some(s)` unless `s` is empty.
pub fn nonempty(s: String) -> (r: Option<String>)
    ensures
        s@.len() == 0 ==> r is None,
        s@.len() > 0 ==> (r matches Some(t) && t@ == s@),
{
    if s.as_str().is_empty() {
        None
    } else {
        Some(s)
    }
}

fn template_from_row(row: &Vec<SqlValue>) -> (r: Result<ItemTemplate, DomainError>)
    ensures
        r matches Ok(t) ==> t.id == crate::rows::id_cell(row@, 0).unwrap()
            && is_json_or_empty(t.payload, crate::rows::text_cell(row@, 3).unwrap()),
        r matches Err(e) ==> e is Internal,
{
    let id = id_at(row, 0)?;
    let kind_text = text_at(row, 1)?;
    let kind = match TemplateKind::parse(kind_text.as_str()) {
        Ok(k) => k,
        Err(_) => return Err(internal_msg("unexpected template kind")),
    };
    let name = text_at(row, 2)?;
    let raw = text_at(row, 3)?;
    Ok(
        ItemTemplate {
            id,
            kind,
            name,
            payload: json_or_empty_object(raw.as_str()),
            created_at: text_at(row, 4)?,
            updated_at: text_at(row, 5)?,
            revision: int_at(row, 6)?,
        },
    )
}

pub struct TemplateService {
    pub db: Database,
}

impl TemplateService {
    pub fn new(db: Database) -> (r: Self)
        ensures
            r.db.path@ == db.path@,
    {
        TemplateService { db }
    }

    /// Saves a template; the name is trimmed and must not be blank.
    pub fn create(&self, input: CreateTemplateInput) -> (r: Result<ItemTemplate, DomainError>)
        ensures
            r matches Err(DomainError::Validation(_)) <==> trim(input.name@).len() == 0,
            r matches Ok(t) ==> t.name@ == trim(input.name@) && t.kind == input.kind
                && t.revision == 1,
    {
        let name = trimmed(input.name.as_str());
        if name.as_str().is_empty() {
            return Err(validation("模板名称不能为空"));
        }
        let id = new_id();
        let now = now_stamp();
        let payload = render_json(&input.payload);
        let conn = connect(&self.db)?;
        let params = vec![
            id_param(id),
            SqlValue::Text(input.kind.as_str().to_string()),
            SqlValue::Text(name.clone()),
            SqlValue::Text(payload),
            SqlValue::Text(now.clone()),
        ];
        run(
            &conn,
            "INSERT INTO item_templates (id, kind, name, payload_json, created_at, updated_at, revision, deleted_at)
             VALUES (?1, ?2, ?3, ?4, ?5, ?5, 1, NULL)",
            params.as_slice(),
        )?;
        Ok(
            ItemTemplate {
                id,
                kind: input.kind,
                name,
                payload: input.payload,
                created_at: now.clone(),
                updated_at: now,
                revision: 1,
            },
        )
    }

    /// Live templates, most recently updated first.
    pub fn list(&self) -> (r: Result<Vec<ItemTemplate>, DomainError>)
        ensures
            r matches Err(e) ==> e is Internal,
    {
        let conn = connect(&self.db)?;
        let rows = fetch(
            &conn,
            "SELECT id, kind, name, payload_json, created_at, updated_at, revision
             FROM item_templates WHERE deleted_at IS NULL ORDER BY updated_at DESC",
            &[],
        )?;
        let mut out: Vec<ItemTemplate> = Vec::new();
        let mut i: usize = 0;
        while i < rows.len()
            invariant
                i <= rows@.len(),
            decreases rows@.len() - i,
        {
            out.push(template_from_row(&rows[i])?);
            i = i + 1;
        }
        Ok(out)
    }

    /// A live template by id.
    pub fn get(&self, id: EntityId) -> (r: Result<ItemTemplate, DomainError>)
        ensures
            r matches Ok(t) ==> t.id == id,
            r matches Err(e) ==> e is Internal || e is NotFound,
    {
        let conn = connect(&self.db)?;
        let params = vec![id_param(id)];
        let rows = fetch(
            &conn,
            "SELECT id, kind, name, payload_json, created_at, updated_at, revision
             FROM item_templates WHERE id = ?1 AND deleted_at IS NULL",
            params.as_slice(),
        )?;
        let mut i: usize = 0;
        while i < rows.len()
            invariant
                i <= rows@.len(),
            decreases rows@.len() - i,
        {
            let t = template_from_row(&rows[i])?;
            if t.id == id {
                return Ok(t);
            }
            i = i + 1;
        }
        Err(not_found("模板不存在"))
    }

    /// Deletes a live template (softly).
    pub fn delete(&self, id: EntityId) -> (r: Result<(), DomainError>)
        ensures
            r matches Err(e) ==> e is Internal || e is NotFound,
    {
        let _ = self.get(id)?;
        let now = now_stamp();
        let conn = connect(&self.db)?;
        let params = vec![SqlValue::Text(now), id_param(id)];
        run(
            &conn,
            "UPDATE item_templates SET deleted_at = ?1, updated_at = ?1, revision = revision + 1 WHERE id = ?2",
            params.as_slice(),
        )?;
        Ok(())
    }

    /// The template's preview, resolved against the local date and time.
    pub fn preview(&self, id: EntityId) -> (r: Result<TemplatePreview, DomainError>)
        ensures
            r matches Err(e) ==> e is Internal || e is NotFound,
    {
        let template = self.get(id)?;
        let today = local_today();
        let now = local_now();
        Ok(resolve_preview(template, today.as_str(), now.as_str()))
    }

    /// A task input prefilled from a task template.
    pub fn to_task_input(&self, id: EntityId) -> (r: Result<CreateTaskInput, DomainError>)
        ensures
            r matches Ok(i) ==> i.list_id is None,
            r matches Ok(i) ==> exists|p: TemplatePreview| p.kind == TemplateKind::Task && #[trigger] task_input_of(p, i),
            r matches Err(DomainError::Validation(m)) ==> m@ == "不是任务模板"@,
    {
        let preview = self.preview(id)?;
        let ghost p = preview;
        let r = task_input_from_preview(preview);
        if let Ok(i) = &r {
            assert(task_input_of(p, *i));
        }
        r
    }

    /// A reminder input prefilled from a reminder template; the template
    /// must give a time.
    pub fn to_reminder_input(&self, id: EntityId) -> (r: Result<CreateReminderInput, DomainError>)
        ensures
            r matches Ok(i) ==> i.task_id is None && i.end_at is None,
    {
        let preview = self.preview(id)?;
        reminder_input_from_preview(preview)
    }

    /// A memory input prefilled from a memory template.
    pub fn to_memory_input(&self, id: EntityId) -> (r: Result<CreateMemoryInput, DomainError>)
        ensures
            r matches Ok(i) ==> i.pinned is None && i.quick_insert is None && i.trigger_word is None,
    {
        let preview = self.preview(id)?;
        memory_input_from_preview(preview)
    }
}

/// The task input a task template's preview gives: its title, priority,
/// due date and time, its body as notes and its tags (each only when not
/// empty), no list.
pub open spec fn task_input_of(preview: TemplatePreview, i: CreateTaskInput) -> bool {
    &&& i.title@ == preview.title@
    &&& i.priority == preview.priority
    &&& i.list_id is None
    &&& opt_text(i.due_date) == opt_text(preview.due_date)
    &&& opt_text(i.due_time) == opt_text(preview.due_time)
    &&& (preview.body@.len() == 0 <==> i.notes is None)
    &&& (i.notes matches Some(n) ==> n@ == preview.body@)
    &&& (preview.tag_names@.len() == 0 <==> i.tag_names is None)
    &&& (i.tag_names matches Some(t) ==> t@ == preview.tag_names@)
}

/// A task input from a preview: only a task template gives one. An empty
/// body gives no notes and no tags give no tag list.
pub fn task_input_from_preview(preview: TemplatePreview) -> (r: Result<CreateTaskInput, DomainError>)
    ensures
        r is Err <==> preview.kind != TemplateKind::Task,
        r matches Err(e) ==> e is Validation,
        r matches Err(DomainError::Validation(m)) ==> m@ == "不是任务模板"@,
        r matches Ok(i) ==> task_input_of(preview, i),
{
    if preview.kind != TemplateKind::Task {
        return Err(validation("不是任务模板"));
    }
    let tag_names = if preview.tag_names.len() == 0 {
        None
    } else {
        Some(preview.tag_names)
    };
    Ok(
        CreateTaskInput {
            title: preview.title,
            notes: nonempty(preview.body),
            priority: preview.priority,
            list_id: None,
            due_date: preview.due_date,
            due_time: preview.due_time,
            tag_names,
        },
    )
}

/// A reminder input from a preview: only a reminder template that gives a
/// time does. The time zone is Asia/Shanghai.
pub fn reminder_input_from_preview(preview: TemplatePreview) -> (r: Result<
    CreateReminderInput,
    DomainError,
>)
    ensures
        r is Err <==> preview.kind != TemplateKind::Reminder || preview.fire_at is None,
        r matches Err(e) ==> e is Validation,
        r matches Ok(i) ==> i.title@ == preview.title@ && opt_text(Some(i.fire_at)) == opt_text(
            preview.fire_at,
        ) && i.task_id is None && i.end_at is None && i.recurrence == preview.recurrence
            && (i.timezone matches Some(z) && z@ == "Asia/Shanghai"@) && (preview.body@.len() == 0
            <==> i.notes is None),
{
    if preview.kind != TemplateKind::Reminder {
        return Err(validation("不是提醒模板"));
    }
    let fire_at = match preview.fire_at {
        Some(f) => f,
        None => return Err(validation("提醒模板缺少时间")),
    };
    let zone = "Asia/Shanghai";
    proof {
        reveal_strlit("Asia/Shanghai");
    }
    Ok(
        CreateReminderInput {
            title: preview.title,
            notes: nonempty(preview.body),
            task_id: None,
            fire_at,
            timezone: Some(zone.to_string()),
            recurrence: preview.recurrence,
            end_at: None,
        },
    )
}

/// A memory input from a preview: only a memory template gives one.
pub fn memory_input_from_preview(preview: TemplatePreview) -> (r: Result<
    CreateMemoryInput,
    DomainError,
>)
    ensures
        r is Err <==> preview.kind != TemplateKind::Memory,
        r matches Err(e) ==> e is Validation,
        r matches Ok(i) ==> i.title@ == preview.title@ && i.pinned is None && i.quick_insert is None
            && i.trigger_word is None && (preview.body@.len() == 0 <==> i.body is None) && (
        preview.tag_names@.len() == 0 <==> i.tag_names is None),
{
    if preview.kind != TemplateKind::Memory {
        return Err(validation("不是记忆模板"));
    }
    let tag_names = if preview.tag_names.len() == 0 {
        None
    } else {
        Some(preview.tag_names)
    };
    Ok(
        CreateMemoryInput {
            title: preview.title,
            body: nonempty(preview.body),
            pinned: None,
            quick_insert: None,
            trigger_word: None,
            tag_names,
        },
    )
}

} // verus!
