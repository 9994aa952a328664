//! Reminders: one-shot or recurring alerts, each firing as occurrences
//! that are notified, completed, snoozed or missed.

use vstd::prelude::*;

use rusqlite::Connection;

use crate::chars::trim;
use crate::clock::{local_now, local_today, new_id, now_stamp};
use crate::dates::{add_days, date_plus_days, is_date_text, text_lt};
use crate::db::{Database, SqlValue};
use crate::domain::{internal_msg, not_found, str_eq, validation, DomainError};
use crate::ids::EntityId;
use crate::json::{json_field, json_i64, json_str, parse_json, render_json, JsonValue};
use crate::rows::{flag_at, id_at, id_param, int_at, opt_id_at, opt_int_at, opt_text_at, text_at, text_param};
use crate::store::{begin, connect, fetch, finish, run};
use crate::tasks::trimmed;
use crate::ai_model::texts_of;

verus! {

pub struct CreateReminderInput {
    pub title: String,
    pub notes: Option<String>,
    pub task_id: Option<EntityId>,
    pub fire_at: String,
    pub timezone: Option<String>,
    /// The recurrence rule, as a JSON document.
    pub recurrence: Option<JsonValue>,
    pub end_at: Option<String>,
}

pub struct UpdateReminderInput {
    pub id: EntityId,
    pub title: String,
    pub notes: String,
    pub fire_at: String,
    pub recurrence: Option<JsonValue>,
    pub end_at: Option<String>,
    pub enabled: bool,
}

pub struct Reminder {
    pub id: EntityId,
    pub title: String,
    pub notes: String,
    pub task_id: Option<EntityId>,
    pub recurrence: Option<JsonValue>,
    pub timezone: String,
    pub next_fire_at: String,
    pub end_at: Option<String>,
    pub enabled: bool,
    pub created_at: String,
    pub updated_at: String,
    pub revision: i64,
}

#[derive(PartialEq, Eq, Structural, Clone, Copy, Debug)]
pub enum OccurrenceStatus {
    Pending,
    Scheduled,
    Snoozed,
    Actioned,
    Cancelled,
    InferredMissed,
}

pub open spec fn occurrence_status_text(s: OccurrenceStatus) -> Seq<char> {
    match s {
        OccurrenceStatus::Pending => "pending"@,
        OccurrenceStatus::Scheduled => "scheduled"@,
        OccurrenceStatus::Snoozed => "snoozed"@,
        OccurrenceStatus::Actioned => "actioned"@,
        OccurrenceStatus::Cancelled => "cancelled"@,
        OccurrenceStatus::InferredMissed => "inferred_missed"@,
    }
}

impl OccurrenceStatus {
    pub fn as_str(&self) -> (r: &'static str)
        ensures
            r@ == occurrence_status_text(*self),
    {
        match self {
            OccurrenceStatus::Pending => "pending",
            OccurrenceStatus::Scheduled => "scheduled",
            OccurrenceStatus::Snoozed => "snoozed",
            OccurrenceStatus::Actioned => "actioned",
            OccurrenceStatus::Cancelled => "cancelled",
            OccurrenceStatus::InferredMissed => "inferred_missed",
        }
    }

    pub fn parse(value: &str) -> (r: Result<OccurrenceStatus, DomainError>)
        ensures
            r matches Ok(s) ==> occurrence_status_text(s) == value@,
            r matches Err(e) ==> e is Validation,
    {
        if str_eq(value, "pending") {
            Ok(OccurrenceStatus::Pending)
        } else if str_eq(value, "scheduled") {
            Ok(OccurrenceStatus::Scheduled)
        } else if str_eq(value, "snoozed") {
            Ok(OccurrenceStatus::Snoozed)
        } else if str_eq(value, "actioned") {
            Ok(OccurrenceStatus::Actioned)
        } else if str_eq(value, "cancelled") {
            Ok(OccurrenceStatus::Cancelled)
        } else if str_eq(value, "inferred_missed") {
            Ok(OccurrenceStatus::InferredMissed)
        } else {
            Err(validation("无效的提醒状态"))
        }
    }
}

pub struct ReminderOccurrence {
    pub id: EntityId,
    pub reminder_id: EntityId,
    pub scheduled_at: String,
    pub status: OccurrenceStatus,
    pub needs_schedule: bool,
    pub system_notification_id: Option<i64>,
    pub actioned_at: Option<String>,
    pub snooze_until: Option<String>,
    pub title: String,
    pub task_id: Option<EntityId>,
    pub created_at: String,
    pub updated_at: String,
    pub revision: i64,
}

pub struct TodayReminderItem {
    pub occurrence: ReminderOccurrence,
    pub reminder: Reminder,
}

pub open spec fn digit(c: char) -> bool {
    '0' <= c && c <= '9'
}

pub open spec fn two(s: Seq<char>, i: int) -> int {
    (s[i] as int - '0' as int) * 10 + (s[i + 1] as int - '0' as int)
}

/// A local date and time written `YYYY-MM-DDTHH:MM:SS`.
pub open spec fn is_local_datetime(s: Seq<char>) -> bool {
    &&& s.len() == 19
    &&& is_date_text(s.take(10))
    &&& s[10] == 'T'
    &&& s[13] == ':'
    &&& s[16] == ':'
    &&& digit(s[11]) && digit(s[12]) && digit(s[14]) && digit(s[15]) && digit(s[17]) && digit(s[18])
    &&& two(s, 11) < 24 && two(s, 14) < 60 && two(s, 17) < 60
}

fn take_chars(v: &Vec<char>, n: usize) -> (r: String)
    requires
        n <= v@.len(),
    ensures
        r@ == v@.take(n as int),
{
    let mut out: Vec<char> = Vec::new();
    let mut i: usize = 0;
    while i < n
        invariant
            i <= n <= v@.len(),
            out@ =~= v@.take(i as int),
        decreases n - i,
    {
        out.push(v[i]);
        i = i + 1;
    }
    crate::chars::string_of(out.as_slice())
}

/// Checks a local date and time.
pub fn check_local_datetime(s: &str) -> (r: Result<(), DomainError>)
    ensures
        r is Ok <==> is_local_datetime(s@),
        r matches Err(e) ==> e is Validation,
{
    let v = crate::chars::chars_of(s);
    if v.len() != 19 {
        return Err(validation("时间格式应为 YYYY-MM-DDTHH:MM:SS"));
    }
    let date = take_chars(&v, 10);
    if !crate::dates::is_date(date.as_str()) {
        return Err(validation("时间格式应为 YYYY-MM-DDTHH:MM:SS"));
    }
    let ok = v[10] == 'T' && v[13] == ':' && v[16] == ':' && '0' <= v[11] && v[11] <= '9' && '0' <= v[12]
        && v[12] <= '9' && '0' <= v[14] && v[14] <= '9' && '0' <= v[15] && v[15] <= '9' && '0' <= v[17]
        && v[17] <= '9' && '0' <= v[18] && v[18] <= '9';
    if !ok {
        return Err(validation("时间格式应为 YYYY-MM-DDTHH:MM:SS"));
    }
    let h = (v[11] as u32 - '0' as u32) * 10 + (v[12] as u32 - '0' as u32);
    let m = (v[14] as u32 - '0' as u32) * 10 + (v[15] as u32 - '0' as u32);
    let sec = (v[17] as u32 - '0' as u32) * 10 + (v[18] as u32 - '0' as u32);
    if h >= 24 || m >= 60 || sec >= 60 {
        return Err(validation("时间格式应为 YYYY-MM-DDTHH:MM:SS"));
    }
    Ok(())
}

/// How many days one step of a recurrence rule moves: `interval` days for
/// a daily rule, `interval` weeks for a weekly one (interval 1 by default).
pub open spec fn step_days(rule: JsonValue) -> Option<i64> {
    let interval = match json_field(rule, "interval"@) {
        Some(v) => json_i64(v),
        None => Some(1),
    };
    match (json_field(rule, "frequency"@), interval) {
        (Some(JsonValue::Str(f)), Some(n)) => if 1 <= n <= 1000 {
            if f@ == "daily"@ {
                Some(n)
            } else if f@ == "weekly"@ {
                Some((7 * n) as i64)
            } else {
                None
            }
        } else {
            None
        },
        _ => None,
    }
}

pub fn recurrence_step(rule: &JsonValue) -> (r: Option<i64>)
    ensures
        r == step_days(*rule),
{
    let interval = match rule.get("interval") {
        Some(v) => v.as_i64(),
        None => Some(1),
    };
    match (rule.get("frequency"), interval) {
        (Some(JsonValue::Str(f)), Some(n)) => {
            if 1 <= n && n <= 1000 {
                if str_eq(f.as_str(), "daily") {
                    Some(n)
                } else if str_eq(f.as_str(), "weekly") {
                    Some(7 * n)
                } else {
                    None
                }
            } else {
                None
            }
        },
        _ => None,
    }
}

/// The next time of a recurring reminder after `current`: the same time
/// of day, one step of days later.
pub open spec fn next_fire(rule: JsonValue, current: Seq<char>) -> Option<Seq<char>> {
    match step_days(rule) {
        Some(days) => if current.len() == 19 {
            match date_plus_days(current.take(10), days) {
                Some(d) => Some(d + current.skip(10)),
                None => None,
            }
        } else {
            None
        },
        None => None,
    }
}

pub fn next_after(rule: &JsonValue, current: &str) -> (r: Option<String>)
    ensures
        match r {
            Some(s) => next_fire(*rule, current@) == Some(s@),
            None => next_fire(*rule, current@) is None,
        },
{
    let days = match recurrence_step(rule) {
        Some(d) => d,
        None => return None,
    };
    let v = crate::chars::chars_of(current);
    if v.len() != 19 {
        return None;
    }
    let date = take_chars(&v, 10);
    let next = match add_days(date.as_str(), days) {
        Some(d) => d,
        None => return None,
    };
    let mut out = next;
    let mut i: usize = 10;
    let ghost base = out@;
    while i < 19
        invariant
            10 <= i <= 19,
            v@.len() == 19,
            out@ =~= base + v@.subrange(10, i as int),
        decreases 19 - i,
    {
        let mut one: Vec<char> = Vec::new();
        one.push(v[i]);
        let piece = crate::chars::string_of(one.as_slice());
        out.append(piece.as_str());
        i = i + 1;
    }
    assert(v@.skip(10) =~= v@.subrange(10, 19));
    Some(out)
}

fn reminder_from_row(row: &Vec<SqlValue>) -> (r: Result<Reminder, DomainError>)
    ensures
        r matches Ok(rem) ==> rem.id == crate::rows::id_cell(row@, 0).unwrap(),
        r matches Err(e) ==> e is Internal,
{
    let id = id_at(row, 0)?;
    let recurrence = match opt_text_at(row, 4)? {
        Some(raw) => match parse_json(raw.as_str()) {
            Some(doc) => Some(doc),
            None => return Err(internal_msg("invalid recurrence json")),
        },
        None => None,
    };
    Ok(
        Reminder {
            id,
            title: text_at(row, 1)?,
            notes: text_at(row, 2)?,
            task_id: opt_id_at(row, 3)?,
            recurrence,
            timezone: text_at(row, 5)?,
            next_fire_at: text_at(row, 6)?,
            end_at: opt_text_at(row, 7)?,
            enabled: flag_at(row, 8)?,
            created_at: text_at(row, 9)?,
            updated_at: text_at(row, 10)?,
            revision: int_at(row, 11)?,
        },
    )
}

/// Decodes an occurrence from columns starting at `k`: id, reminder id,
/// scheduled time, status, needs-schedule flag, notification id, actioned
/// time, snooze time, created, updated, revision, title, task id.
fn occurrence_from_row(row: &Vec<SqlValue>) -> (r: Result<ReminderOccurrence, DomainError>)
    ensures
        r matches Ok(o) ==> o.id == crate::rows::id_cell(row@, 0).unwrap(),
        r matches Err(e) ==> e is Internal,
{
    let id = id_at(row, 0)?;
    let status_text = text_at(row, 3)?;
    let status = match OccurrenceStatus::parse(status_text.as_str()) {
        Ok(s) => s,
        Err(_) => return Err(internal_msg("unexpected occurrence status")),
    };
    Ok(
        ReminderOccurrence {
            id,
            reminder_id: id_at(row, 1)?,
            scheduled_at: text_at(row, 2)?,
            status,
            needs_schedule: flag_at(row, 4)?,
            system_notification_id: opt_int_at(row, 5)?,
            actioned_at: opt_text_at(row, 6)?,
            snooze_until: opt_text_at(row, 7)?,
            created_at: text_at(row, 8)?,
            updated_at: text_at(row, 9)?,
            revision: int_at(row, 10)?,
            title: text_at(row, 11)?,
            task_id: opt_id_at(row, 12)?,
        },
    )
}

const REMINDER_COLUMNS: &'static str = "SELECT id, title, notes, task_id, recurrence_json, timezone, next_fire_at, end_at, enabled, created_at, updated_at, revision FROM reminders";

const OCCURRENCE_COLUMNS: &'static str = "SELECT o.id, o.reminder_id, o.scheduled_at, o.status, o.needs_schedule, o.system_notification_id, o.actioned_at, o.snooze_until, o.created_at, o.updated_at, o.revision, r.title, r.task_id FROM reminder_occurrences o JOIN reminders r ON r.id = o.reminder_id";

/// Whether an earlier entry has the same owner.
pub open spec fn owner_seen_before(owners: Seq<Seq<char>>, i: int) -> bool {
    exists|j: int| 0 <= j < i && owners[j] == owners[i]
}

/// How many entries are the first of their owner.
pub open spec fn first_count(owners: Seq<Seq<char>>, n: int) -> nat
    decreases n,
{
    if n <= 0 {
        0
    } else {
        first_count(owners, n - 1) + if owner_seen_before(owners, n - 1) {
            0nat
        } else {
            1nat
        }
    }
}

/// Overdue occurrences of recurring reminders, each with the reminder it
/// belongs to, latest first per reminder: all but the first of each
/// reminder are superseded. Returns which ones are, and how many are not.
pub fn superseded(owners: &Vec<String>) -> (r: (Vec<bool>, usize))
    ensures
        r.0@.len() == owners@.len(),
        forall|i: int| 0 <= i < owners@.len() ==> r.0@[i] == owner_seen_before(texts_of(owners@), i),
        r.1 == first_count(texts_of(owners@), owners@.len() as int),
{
    let ghost t = texts_of(owners@);
    let mut marks: Vec<bool> = Vec::new();
    let mut kept: usize = 0;
    let mut i: usize = 0;
    while i < owners.len()
        invariant
            i <= owners@.len(),
            t == texts_of(owners@),
            marks@.len() == i,
            forall|k: int| 0 <= k < i ==> marks@[k] == owner_seen_before(t, k),
            kept == first_count(t, i as int),
            kept <= i,
        decreases owners@.len() - i,
    {
        let mut seen = false;
        let mut j: usize = 0;
        while j < i
            invariant
                j <= i < owners@.len(),
                t == texts_of(owners@),
                seen == exists|q: int| 0 <= q < j && t[q] == t[i as int],
            decreases i - j,
        {
            if str_eq(owners[j].as_str(), owners[i].as_str()) {
                assert(t[j as int] == t[i as int]);
                seen = true;
            }
            j = j + 1;
        }
        marks.push(seen);
        if !seen {
            kept = kept + 1;
        }
        i = i + 1;
    }
    (marks, kept)
}

/// The time shown in a notification: `T` written as a space, at most
/// sixteen characters (`YYYY-MM-DD HH:MM`).
pub open spec fn shown_time(scheduled_at: Seq<char>) -> Seq<char> {
    let n = if scheduled_at.len() < 16 {
        scheduled_at.len() as int
    } else {
        16
    };
    scheduled_at.take(n).map_values(|c: char| if c == 'T' { ' ' } else { c })
}

/// The body of the notification of an occurrence: `计划时间 ` and its time.
pub fn notification_body(scheduled_at: &str) -> (r: String)
    ensures
        r@ == "计划时间 "@ + shown_time(scheduled_at@),
{
    let v = crate::chars::chars_of(scheduled_at);
    let mut out: Vec<char> = Vec::new();
    let mut i: usize = 0;
    while i < v.len() && i < 16
        invariant
            i <= v@.len(),
            i <= 16,
            v@ == scheduled_at@,
            out@ =~= v@.take(i as int).map_values(|c: char| if c == 'T' { ' ' } else { c }),
        decreases v@.len() - i,
    {
        out.push(if v[i] == 'T' { ' ' } else { v[i] });
        i = i + 1;
    }
    let mut r = "计划时间 ".to_string();
    let t = crate::chars::string_of(out.as_slice());
    r.append(t.as_str());
    r
}

/// The stored form of a repeat rule: its JSON text, or NULL.
pub open spec fn binds_rule(v: SqlValue, rule: Option<JsonValue>) -> bool {
    match rule {
        Some(j) => crate::db::sql_text(v) == Some(crate::json::json_render(j)),
        None => v is Null,
    }
}

pub fn rule_param(rule: &Option<JsonValue>) -> (r: SqlValue)
    ensures
        binds_rule(r, *rule),
{
    match rule {
        Some(j) => SqlValue::Text(render_json(j)),
        None => SqlValue::Null,
    }
}

/// A reminder as `input` leaves it: its id, trimmed title, notes, next
/// time, end and whether it is on.
pub open spec fn reminder_updated_as(rem: Reminder, input: UpdateReminderInput) -> bool {
    &&& rem.id == input.id
    &&& rem.title@ == trim(input.title@)
    &&& rem.notes@ == input.notes@
    &&& rem.next_fire_at@ == input.fire_at@
    &&& crate::task_model::opt_view(rem.end_at) == crate::task_model::opt_view(input.end_at)
    &&& rem.enabled == input.enabled
}

/// The bound values of a reminder's UPDATE, in order: title, notes, rule,
/// next time, end, enabled, stamp, id.
pub fn reminder_update_params(input: &UpdateReminderInput, title: &str, now: &str) -> (r: Vec<SqlValue>)
    ensures
        r@.len() == 8,
        crate::db::sql_text(r@[0]) == Some(title@),
        crate::db::sql_text(r@[1]) == Some(input.notes@),
        binds_rule(r@[2], input.recurrence),
        crate::db::sql_text(r@[3]) == Some(input.fire_at@),
        crate::tasks::binds_opt(r@[4], input.end_at),
        r@[5] == crate::memories::flag_value(input.enabled),
        crate::db::sql_text(r@[6]) == Some(now@),
        crate::db::sql_text(r@[7]) == Some(crate::ids::id_text(input.id)),
{
    vec![
        text_param(title),
        text_param(input.notes.as_str()),
        rule_param(&input.recurrence),
        text_param(input.fire_at.as_str()),
        crate::rows::opt_text_param(&input.end_at),
        crate::memories::flag_param(input.enabled),
        text_param(now),
        id_param(input.id),
    ]
}

/// The bound values of a new reminder's row, in the order of its INSERT:
/// id, title, notes, task, rule, time zone, next time, end, stamp.
pub fn new_reminder_params(
    id: EntityId,
    title: &str,
    notes: &str,
    task_id: Option<EntityId>,
    rule: &Option<JsonValue>,
    timezone: &str,
    fire_at: &str,
    end_at: &Option<String>,
    now: &str,
) -> (r: Vec<SqlValue>)
    ensures
        r@.len() == 9,
        crate::db::sql_text(r@[0]) == Some(crate::ids::id_text(id)),
        crate::db::sql_text(r@[1]) == Some(title@),
        crate::db::sql_text(r@[2]) == Some(notes@),
        match task_id {
            Some(t) => crate::db::sql_text(r@[3]) == Some(crate::ids::id_text(t)),
            None => r@[3] is Null,
        },
        binds_rule(r@[4], *rule),
        crate::db::sql_text(r@[5]) == Some(timezone@),
        crate::db::sql_text(r@[6]) == Some(fire_at@),
        crate::tasks::binds_opt(r@[7], *end_at),
        crate::db::sql_text(r@[8]) == Some(now@),
{
    let task_param = match task_id {
        Some(t) => id_param(t),
        None => SqlValue::Null,
    };
    vec![
        id_param(id),
        text_param(title),
        text_param(notes),
        task_param,
        rule_param(rule),
        text_param(timezone),
        text_param(fire_at),
        crate::rows::opt_text_param(end_at),
        text_param(now),
    ]
}

pub struct ReminderService {
    pub db: Database,
}

impl ReminderService {
    pub fn new(db: Database) -> (r: Self)
        ensures
            r.db.path@ == db.path@,
    {
        ReminderService { db }
    }

    /// Creates a reminder and its first occurrence. The title is trimmed
    /// and must not be blank, and the time must be a local date and time.
    /// The time zone defaults to the machine's offset ("local" when empty).
    pub fn create(&self, input: CreateReminderInput) -> (r: Result<Reminder, DomainError>)
        ensures
            trim(input.title@).len() == 0 || !is_local_datetime(input.fire_at@) ==> r matches Err(DomainError::Validation(_)),
            r matches Ok(rem) ==> rem.title@ == trim(input.title@) && rem.next_fire_at@ == input.fire_at@ && rem.enabled && rem.task_id == input.task_id,
    {
        let title = trimmed(input.title.as_str());
        if title.as_str().is_empty() {
            return Err(validation("标题不能为空"));
        }
        check_local_datetime(input.fire_at.as_str())?;
        let zone = match input.timezone {
            Some(z) => z,
            None => crate::clock::local_offset(),
        };
        let timezone = if zone.as_str().is_empty() {
            "local".to_string()
        } else {
            zone
        };
        let id = new_id();
        let now = now_stamp();
        let notes = match input.notes {
            Some(n) => n,
            None => String::new(),
        };
        let conn = connect(&self.db)?;
        begin(&conn)?;
        let params = new_reminder_params(
            id,
            title.as_str(),
            notes.as_str(),
            input.task_id,
            &input.recurrence,
            timezone.as_str(),
            input.fire_at.as_str(),
            &input.end_at,
            now.as_str(),
        );
        let outcome = match run(
            &conn,
            "INSERT INTO reminders (
                id, title, notes, task_id, recurrence_json, timezone, next_fire_at, end_at,
                enabled, created_at, updated_at, revision, deleted_at
             ) VALUES (?1, ?2, ?3, ?4, ?5, ?6, ?7, ?8, 1, ?9, ?9, 1, NULL)",
            params.as_slice(),
        ) {
            Ok(_) => self.ensure_occurrence(&conn, id, input.fire_at.as_str()),
            Err(e) => Err(e),
        };
        finish(&conn, outcome)?;
        Ok(
            Reminder {
                id,
                title,
                notes,
                task_id: input.task_id,
                recurrence: input.recurrence,
                timezone,
                next_fire_at: input.fire_at,
                end_at: input.end_at,
                enabled: true,
                created_at: now.clone(),
                updated_at: now,
                revision: 1,
            },
        )
    }

    /// Updates a live reminder: open occurrences are cancelled and, when
    /// enabled, one is scheduled at the new time.
    pub fn update(&self, input: UpdateReminderInput) -> (r: Result<Reminder, DomainError>)
        ensures
            r matches Ok(rem) ==> reminder_updated_as(rem, input),
            trim(input.title@).len() == 0 || !is_local_datetime(input.fire_at@) ==> r is Err,
            r matches Err(DomainError::Validation(_)) ==> trim(input.title@).len() == 0 || !is_local_datetime(
                input.fire_at@,
            ),
    {
        let _ = self.get(input.id)?;
        let title = trimmed(input.title.as_str());
        if title.as_str().is_empty() {
            return Err(validation("标题不能为空"));
        }
        check_local_datetime(input.fire_at.as_str())?;
        let now = now_stamp();
        let conn = connect(&self.db)?;
        begin(&conn)?;
        let params = reminder_update_params(&input, title.as_str(), now.as_str());
        let outcome = match run(
            &conn,
            "UPDATE reminders SET title = ?1, notes = ?2, recurrence_json = ?3, next_fire_at = ?4,
                end_at = ?5, enabled = ?6, updated_at = ?7, revision = revision + 1
             WHERE id = ?8 AND deleted_at IS NULL",
            params.as_slice(),
        ) {
            Ok(_) => {
                let params = vec![SqlValue::Text(now.clone()), id_param(input.id)];
                match run(
                    &conn,
                    "UPDATE reminder_occurrences SET status = 'cancelled', updated_at = ?1, revision = revision + 1
                     WHERE reminder_id = ?2 AND status IN ('pending', 'scheduled', 'snoozed')",
                    params.as_slice(),
                ) {
                    Ok(_) => if input.enabled {
                        self.ensure_occurrence(&conn, input.id, input.fire_at.as_str())
                    } else {
                        Ok(())
                    },
                    Err(e) => Err(e),
                }
            },
            Err(e) => Err(e),
        };
        finish(&conn, outcome)?;
        let rem = self.get(input.id)?;
        if !str_eq(rem.title.as_str(), title.as_str()) || !str_eq(rem.notes.as_str(), input.notes.as_str())
            || !str_eq(rem.next_fire_at.as_str(), input.fire_at.as_str()) || !crate::tasks::same_opt_text(
            &rem.end_at,
            &input.end_at,
        ) || rem.enabled != input.enabled {
            return Err(internal_msg("提醒未按输入写入"));
        }
        Ok(rem)
    }

    /// A live reminder by id.
    pub fn get(&self, id: EntityId) -> (r: Result<Reminder, DomainError>)
        ensures
            r matches Ok(rem) ==> rem.id == id,
            r matches Err(e) ==> e is Internal || e is NotFound,
    {
        let conn = connect(&self.db)?;
        self.get_on(&conn, id)
    }

    fn get_on(&self, conn: &Connection, id: EntityId) -> (r: Result<Reminder, DomainError>)
        ensures
            r matches Ok(rem) ==> rem.id == id,
            r matches Err(e) ==> e is Internal || e is NotFound,
    {
        let mut sql = REMINDER_COLUMNS.to_string();
        sql.append(" WHERE id = ?1 AND deleted_at IS NULL");
        let params = vec![id_param(id)];
        let rows = fetch(conn, sql.as_str(), params.as_slice())?;
        let mut i: usize = 0;
        while i < rows.len()
            invariant
                i <= rows@.len(),
            decreases rows@.len() - i,
        {
            let rem = reminder_from_row(&rows[i])?;
            if rem.id == id {
                return Ok(rem);
            }
            i = i + 1;
        }
        Err(not_found("提醒不存在"))
    }

    fn reminders_where(&self, clause: &str, params: &[SqlValue]) -> (r: Result<Vec<Reminder>, DomainError>)
        ensures
            r matches Err(e) ==> e is Internal,
    {
        let conn = connect(&self.db)?;
        let mut sql = REMINDER_COLUMNS.to_string();
        sql.append(clause);
        let rows = fetch(&conn, sql.as_str(), params)?;
        let mut out: Vec<Reminder> = Vec::new();
        let mut i: usize = 0;
        while i < rows.len()
            invariant
                i <= rows@.len(),
            decreases rows@.len() - i,
        {
            out.push(reminder_from_row(&rows[i])?);
            i = i + 1;
        }
        Ok(out)
    }

    /// The enabled recurring reminders that fire within the next `days`
    /// days (held within 1..=366), soonest first.
    pub fn upcoming_recurring(&self, days: i64) -> (r: Result<Vec<Reminder>, DomainError>)
        ensures
            r matches Ok(v) ==> forall|i: int| 0 <= i < v@.len() ==> (#[trigger] v@[i]).recurrence is Some,
    {
        let d = if days < 1 {
            1
        } else if days > 366 {
            366
        } else {
            days
        };
        let now = crate::clock::local_now();
        let until = match crate::dates::add_hours(now.as_str(), 24 * d) {
            Some(u) => u,
            None => return Err(internal_msg("invalid local time")),
        };
        let params = vec![SqlValue::Text(now), SqlValue::Text(until)];
        let all = self.reminders_where(
            " WHERE deleted_at IS NULL AND enabled = 1 AND recurrence_json IS NOT NULL
               AND next_fire_at >= ?1 AND next_fire_at <= ?2 ORDER BY next_fire_at ASC",
            params.as_slice(),
        )?;
        let mut out: Vec<Reminder> = Vec::new();
        let mut rest = all;
        while rest.len() > 0
            invariant
                forall|i: int| 0 <= i < out@.len() ==> (#[trigger] out@[i]).recurrence is Some,
            decreases rest@.len(),
        {
            let r = rest.remove(0);
            if r.recurrence.is_some() {
                out.push(r);
            }
        }
        Ok(out)
    }

    /// The live reminders of a task, soonest first.
    pub fn list_for_task(&self, task_id: EntityId) -> (r: Result<Vec<Reminder>, DomainError>)
        ensures
            r matches Err(e) ==> e is Internal,
    {
        let params = vec![id_param(task_id)];
        self.reminders_where(" WHERE task_id = ?1 AND deleted_at IS NULL ORDER BY next_fire_at ASC", params.as_slice())
    }

    /// Every live reminder (enabled or not), soonest first.
    pub fn list_all(&self) -> (r: Result<Vec<Reminder>, DomainError>)
        ensures
            r matches Err(e) ==> e is Internal,
    {
        self.reminders_where(" WHERE deleted_at IS NULL ORDER BY next_fire_at ASC", &[])
    }

    /// Deletes a reminder (softly) and cancels its open occurrences.
    pub fn delete(&self, id: EntityId) -> (r: Result<(), DomainError>)
        ensures
            r matches Err(e) ==> e is Internal || e is NotFound,
    {
        let _ = self.get(id)?;
        let now = now_stamp();
        let conn = connect(&self.db)?;
        let params = vec![SqlValue::Text(now), id_param(id)];
        run(
            &conn,
            "UPDATE reminders SET deleted_at = ?1, updated_at = ?1, enabled = 0, revision = revision + 1 WHERE id = ?2",
            params.as_slice(),
        )?;
        run(
            &conn,
            "UPDATE reminder_occurrences SET status = 'cancelled', updated_at = ?1, revision = revision + 1
             WHERE reminder_id = ?2 AND status IN ('pending', 'scheduled', 'snoozed')",
            params.as_slice(),
        )?;
        Ok(())
    }

    /// Today's open occurrences with their reminders, earliest first.
    pub fn today_items(&self) -> (r: Result<Vec<TodayReminderItem>, DomainError>)
        ensures
            r matches Ok(v) ==> forall|i: int| 0 <= i < v@.len() ==> (#[trigger] v@[i]).occurrence.reminder_id == v@[i].reminder.id,
            r matches Err(e) ==> e is Internal || e is NotFound,
    {
        let today = local_today();
        let conn = connect(&self.db)?;
        let mut sql = OCCURRENCE_COLUMNS.to_string();
        sql.append(
            " WHERE r.deleted_at IS NULL AND o.status IN ('pending', 'scheduled', 'snoozed')
              AND substr(o.scheduled_at, 1, 10) = ?1 ORDER BY o.scheduled_at ASC",
        );
        let params = vec![SqlValue::Text(today)];
        let rows = fetch(&conn, sql.as_str(), params.as_slice())?;
        let mut out: Vec<TodayReminderItem> = Vec::new();
        let mut i: usize = 0;
        while i < rows.len()
            invariant
                i <= rows@.len(),
                forall|k: int| 0 <= k < out@.len() ==> (#[trigger] out@[k]).occurrence.reminder_id == out@[k].reminder.id,
            decreases rows@.len() - i,
        {
            let occurrence = occurrence_from_row(&rows[i])?;
            let reminder = self.get_on(&conn, occurrence.reminder_id)?;
            out.push(TodayReminderItem { occurrence, reminder });
            i = i + 1;
        }
        Ok(out)
    }

    /// Occurrences due at `now` (local `YYYY-MM-DDTHH:MM:SS`) of enabled
    /// reminders: pending or scheduled ones whose time has come, snoozed
    /// ones whose snooze has ended; at most 50, earliest first.
    pub fn due_occurrences(&self, now: &str) -> (r: Result<Vec<ReminderOccurrence>, DomainError>)
        ensures
            r matches Err(e) ==> e is Internal,
    {
        let conn = connect(&self.db)?;
        let mut sql = OCCURRENCE_COLUMNS.to_string();
        sql.append(
            " WHERE r.deleted_at IS NULL AND r.enabled = 1
               AND o.status IN ('pending', 'scheduled', 'snoozed')
               AND ((o.status = 'snoozed' AND o.snooze_until IS NOT NULL AND o.snooze_until <= ?1)
                    OR (o.status IN ('pending', 'scheduled') AND o.scheduled_at <= ?1))
             ORDER BY o.scheduled_at ASC LIMIT 50",
        );
        let params = vec![text_param(now)];
        let rows = fetch(&conn, sql.as_str(), params.as_slice())?;
        let mut out: Vec<ReminderOccurrence> = Vec::new();
        let mut i: usize = 0;
        while i < rows.len()
            invariant
                i <= rows@.len(),
            decreases rows@.len() - i,
        {
            out.push(occurrence_from_row(&rows[i])?);
            i = i + 1;
        }
        Ok(out)
    }

    /// On startup: of the overdue occurrences of each recurring reminder
    /// only the latest stays due (the older ones are recorded as missed);
    /// overdue one-shot occurrences all stay due, for one catch-up each.
    /// Returns how many catch-up notifications are due.
    pub fn reconcile_on_startup(&self) -> (r: Result<usize, DomainError>)
        ensures
            r matches Err(e) ==> e is Internal,
    {
        let now = local_now();
        let stamp_now = now_stamp();
        let conn = connect(&self.db)?;
        begin(&conn)?;
        let outcome = self.reconcile_on(&conn, now.as_str(), stamp_now.as_str());
        finish(&conn, outcome)
    }

    fn reconcile_on(&self, conn: &Connection, now: &str, stamp_now: &str) -> (r: Result<usize, DomainError>)
        ensures
            r matches Err(e) ==> e is Internal,
    {
        let params = vec![text_param(now)];
        let rows = fetch(
            conn,
            "SELECT o.id, o.reminder_id, o.scheduled_at
             FROM reminder_occurrences o
             JOIN reminders r ON r.id = o.reminder_id
             WHERE r.deleted_at IS NULL AND r.recurrence_json IS NOT NULL
               AND o.status IN ('pending', 'scheduled')
               AND o.scheduled_at < ?1
             ORDER BY o.reminder_id, o.scheduled_at DESC",
            params.as_slice(),
        )?;
        let mut ids: Vec<String> = Vec::new();
        let mut owners: Vec<String> = Vec::new();
        let mut i: usize = 0;
        while i < rows.len()
            invariant
                i <= rows@.len(),
                ids@.len() == owners@.len(),
            decreases rows@.len() - i,
        {
            ids.push(text_at(&rows[i], 0)?);
            owners.push(text_at(&rows[i], 1)?);
            i = i + 1;
        }
        let (missed, kept) = superseded(&owners);
        let mut k: usize = 0;
        while k < ids.len()
            invariant
                k <= ids@.len(),
                missed@.len() == ids@.len(),
            decreases ids@.len() - k,
        {
            if missed[k] {
                let params = vec![text_param(stamp_now), SqlValue::Text(ids[k].clone())];
                run(
                    conn,
                    "UPDATE reminder_occurrences SET status = 'inferred_missed', updated_at = ?1, revision = revision + 1
                     WHERE id = ?2",
                    params.as_slice(),
                )?;
            }
            k = k + 1;
        }
        let params = vec![text_param(now)];
        let counted = fetch(
            conn,
            "SELECT COUNT(*) FROM reminder_occurrences o
             JOIN reminders r ON r.id = o.reminder_id
             WHERE r.deleted_at IS NULL AND r.recurrence_json IS NULL
               AND o.status IN ('pending', 'scheduled')
               AND o.scheduled_at < ?1",
            params.as_slice(),
        )?;
        if counted.len() == 0 {
            return Err(internal_msg("统计结果缺失"));
        }
        let oneshot = int_at(&counted[0], 0)?;
        if oneshot < 0 || oneshot as u64 > (usize::MAX - kept) as u64 {
            return Err(internal_msg("统计结果无效"));
        }
        Ok(kept + oneshot as usize)
    }

    /// Records that an occurrence was handed to the system notifier.
    pub fn mark_notified(&self, occurrence_id: EntityId, system_id: Option<i64>) -> (r: Result<(), DomainError>)
        ensures
            r matches Err(e) ==> e is Internal,
    {
        let conn = connect(&self.db)?;
        let sys = match system_id {
            Some(s) => SqlValue::Integer(s),
            None => SqlValue::Null,
        };
        let params = vec![sys, SqlValue::Text(now_stamp()), id_param(occurrence_id)];
        run(
            &conn,
            "UPDATE reminder_occurrences SET status = 'scheduled', needs_schedule = 0,
                system_notification_id = ?1, updated_at = ?2, revision = revision + 1
             WHERE id = ?3",
            params.as_slice(),
        )?;
        Ok(())
    }

    /// Completes an occurrence. A recurring reminder moves on to its next
    /// time (and gets an occurrence there); one whose rule gives no next
    /// time is disabled.
    pub fn complete_occurrence(&self, occurrence_id: EntityId) -> (r: Result<ReminderOccurrence, DomainError>)
        ensures
            r matches Ok(o) ==> o.id == occurrence_id,
    {
        let occ = self.get_occurrence(occurrence_id)?;
        let now = now_stamp();
        let conn = connect(&self.db)?;
        begin(&conn)?;
        let params = vec![SqlValue::Text(now.clone()), id_param(occurrence_id)];
        let outcome = match run(
            &conn,
            "UPDATE reminder_occurrences SET status = 'actioned', actioned_at = ?1, updated_at = ?1, revision = revision + 1
             WHERE id = ?2",
            params.as_slice(),
        ) {
            Ok(_) => self.advance(&conn, occ.reminder_id, occ.scheduled_at.as_str(), now.as_str()),
            Err(e) => Err(e),
        };
        finish(&conn, outcome)?;
        self.get_occurrence(occurrence_id)
    }

    fn advance(&self, conn: &Connection, reminder_id: EntityId, scheduled_at: &str, now: &str) -> (r: Result<(), DomainError>)
        ensures
            r matches Err(e) ==> e is Internal || e is NotFound,
    {
        let reminder = self.get_on(conn, reminder_id)?;
        if let Some(rule) = &reminder.recurrence {
            match next_after(rule, scheduled_at) {
                Some(next) => {
                    let params = vec![SqlValue::Text(next.clone()), text_param(now), id_param(reminder.id)];
                    run(
                        conn,
                        "UPDATE reminders SET next_fire_at = ?1, updated_at = ?2, revision = revision + 1 WHERE id = ?3",
                        params.as_slice(),
                    )?;
                    self.ensure_occurrence(conn, reminder.id, next.as_str())?;
                },
                None => {
                    let params = vec![text_param(now), id_param(reminder.id)];
                    run(
                        conn,
                        "UPDATE reminders SET enabled = 0, updated_at = ?1, revision = revision + 1 WHERE id = ?2",
                        params.as_slice(),
                    )?;
                },
            }
        }
        Ok(())
    }

    /// Snoozes an occurrence until the given local time.
    pub fn snooze_occurrence(&self, occurrence_id: EntityId, until: &str) -> (r: Result<ReminderOccurrence, DomainError>)
        ensures
            !is_local_datetime(until@) ==> r is Err,
            r matches Ok(o) ==> o.id == occurrence_id,
    {
        check_local_datetime(until)?;
        let _ = self.get_occurrence(occurrence_id)?;
        let conn = connect(&self.db)?;
        let params = vec![text_param(until), SqlValue::Text(now_stamp()), id_param(occurrence_id)];
        run(
            &conn,
            "UPDATE reminder_occurrences SET status = 'snoozed', snooze_until = ?1, updated_at = ?2, revision = revision + 1
             WHERE id = ?3",
            params.as_slice(),
        )?;
        self.get_occurrence(occurrence_id)
    }

    /// An occurrence by id.
    pub fn get_occurrence(&self, id: EntityId) -> (r: Result<ReminderOccurrence, DomainError>)
        ensures
            r matches Ok(o) ==> o.id == id,
            r matches Err(e) ==> e is Internal || e is NotFound,
    {
        let conn = connect(&self.db)?;
        let mut sql = OCCURRENCE_COLUMNS.to_string();
        sql.append(" WHERE o.id = ?1");
        let params = vec![id_param(id)];
        let rows = fetch(&conn, sql.as_str(), params.as_slice())?;
        let mut i: usize = 0;
        while i < rows.len()
            invariant
                i <= rows@.len(),
            decreases rows@.len() - i,
        {
            let o = occurrence_from_row(&rows[i])?;
            if o.id == id {
                return Ok(o);
            }
            i = i + 1;
        }
        Err(not_found("提醒实例不存在"))
    }

    fn ensure_occurrence(&self, conn: &Connection, reminder_id: EntityId, at: &str) -> (r: Result<(), DomainError>)
        ensures
            r matches Err(e) ==> e is Internal,
    {
        let params = vec![id_param(new_id()), id_param(reminder_id), text_param(at), SqlValue::Text(now_stamp())];
        run(
            conn,
            "INSERT OR IGNORE INTO reminder_occurrences (
                id, reminder_id, scheduled_at, status, needs_schedule,
                system_notification_id, actioned_at, snooze_until,
                created_at, updated_at, revision
             ) VALUES (?1, ?2, ?3, 'pending', 1, NULL, NULL, NULL, ?4, ?4, 1)",
            params.as_slice(),
        )?;
        Ok(())
    }
}

} // verus!
