//! Focus sessions: timed work on one open task. At most one session is in
//! progress; starting a new one abandons the previous one.

use vstd::prelude::*;

use crate::chars::trim;
use crate::clock::{new_id, now_stamp};
use crate::db::{Database, SqlValue};
use crate::domain::{internal_msg, not_found, str_eq, validation, DomainError};
use crate::ids::EntityId;
use crate::rows::{id_at, id_param, opt_int_at, opt_text_at, text_at};
use crate::store::{begin, connect, fetch, finish, run};
use crate::task_model::TaskStatus;
use crate::task_rules::{nonblank, opt_str_view, trim_nonblank};
use crate::tasks::TaskService;

verus! {

#[derive(PartialEq, Eq, Structural, Clone, Copy, Debug)]
pub enum FocusOutcome {
    InProgress,
    Completed,
    KeptTodo,
    Abandoned,
}

pub open spec fn focus_outcome_text(o: FocusOutcome) -> Seq<char> {
    match o {
        FocusOutcome::InProgress => "in_progress"@,
        FocusOutcome::Completed => "completed"@,
        FocusOutcome::KeptTodo => "kept_todo"@,
        FocusOutcome::Abandoned => "abandoned"@,
    }
}

impl FocusOutcome {
    pub fn as_str(&self) -> (r: &'static str)
        ensures
            r@ == focus_outcome_text(*self),
    {
        match self {
            FocusOutcome::InProgress => "in_progress",
            FocusOutcome::Completed => "completed",
            FocusOutcome::KeptTodo => "kept_todo",
            FocusOutcome::Abandoned => "abandoned",
        }
    }

    pub fn parse(value: &str) -> (r: Result<FocusOutcome, DomainError>)
        ensures
            r matches Ok(o) ==> focus_outcome_text(o) == value@,
            r is Err ==> forall|o: FocusOutcome| focus_outcome_text(o) != value@,
            r matches Err(e) ==> e is Validation,
    {
        if str_eq(value, "in_progress") {
            Ok(FocusOutcome::InProgress)
        } else if str_eq(value, "completed") {
            Ok(FocusOutcome::Completed)
        } else if str_eq(value, "kept_todo") {
            Ok(FocusOutcome::KeptTodo)
        } else if str_eq(value, "abandoned") {
            Ok(FocusOutcome::Abandoned)
        } else {
            proof {
                assert forall|o: FocusOutcome| focus_outcome_text(o) != value@ by {
                    match o {
                        FocusOutcome::InProgress => {},
                        FocusOutcome::Completed => {},
                        FocusOutcome::KeptTodo => {},
                        FocusOutcome::Abandoned => {},
                    }
                }
            }
            Err(validation("无效的专注结果"))
        }
    }
}

pub struct FocusSession {
    pub id: EntityId,
    pub task_id: EntityId,
    pub started_at: String,
    pub ended_at: Option<String>,
    pub planned_minutes: Option<i64>,
    pub outcome: FocusOutcome,
    pub progress_note: Option<String>,
    pub created_at: String,
    pub updated_at: String,
}

/// A planned length is acceptable when absent or between 1 and 480 minutes.
pub open spec fn planned_ok(planned: Option<i64>) -> bool {
    match planned {
        Some(m) => 1 <= m <= 480,
        None => true,
    }
}

/// The rule for starting a session on a task with status `status`.
pub fn check_focus_start(status: TaskStatus, planned_minutes: Option<i64>) -> (r: Result<
    (),
    DomainError,
>)
    ensures
        r is Ok <==> status == TaskStatus::Todo && planned_ok(planned_minutes),
        r matches Err(e) ==> e is Validation,
{
    if status != TaskStatus::Todo {
        return Err(validation("只能专注待办任务"));
    }
    if let Some(minutes) = planned_minutes {
        if minutes < 1 || minutes > 480 {
            return Err(validation("专注时长需在 1–480 分钟之间"));
        }
    }
    Ok(())
}

/// `s` is session `prior`, read as `id` while still in progress, with
/// its task, start, plan and creation kept.
pub open spec fn ended_from(prior: FocusSession, s: FocusSession, id: EntityId) -> bool {
    &&& prior.id == id
    &&& prior.outcome == FocusOutcome::InProgress
    &&& s.task_id == prior.task_id
    &&& s.started_at == prior.started_at
    &&& s.planned_minutes == prior.planned_minutes
    &&& s.created_at == prior.created_at
}

/// The rule for ending session `current` with `outcome`.
pub fn check_focus_end(current: FocusOutcome, outcome: FocusOutcome) -> (r: Result<(), DomainError>)
    ensures
        r is Ok <==> outcome != FocusOutcome::InProgress && current == FocusOutcome::InProgress,
        r matches Err(e) ==> e is Validation,
{
    if outcome == FocusOutcome::InProgress {
        return Err(validation("结束专注时必须指定结果（completed / kept_todo / abandoned）"));
    }
    if current != FocusOutcome::InProgress {
        return Err(validation("专注会话已结束"));
    }
    Ok(())
}

/// How many sessions a listing returns: 50 by default, kept within 1..=200.
pub open spec fn focus_list_limit_spec(limit: Option<i64>) -> i64 {
    match limit {
        Some(l) => if l < 1 {
            1
        } else if l > 200 {
            200
        } else {
            l
        },
        None => 50,
    }
}

pub fn focus_list_limit(limit: Option<i64>) -> (r: i64)
    ensures
        r == focus_list_limit_spec(limit),
{
    match limit {
        Some(l) => if l < 1 {
            1
        } else if l > 200 {
            200
        } else {
            l
        },
        None => 50,
    }
}

fn session_from_row(row: &Vec<SqlValue>) -> (r: Result<FocusSession, DomainError>)
    ensures
        r matches Ok(s) ==> s.id == crate::rows::id_cell(row@, 0).unwrap(),
        r matches Err(e) ==> e is Internal,
{
    let id = id_at(row, 0)?;
    let task_id = id_at(row, 1)?;
    let started_at = text_at(row, 2)?;
    let ended_at = opt_text_at(row, 3)?;
    let planned_minutes = opt_int_at(row, 4)?;
    let outcome_text = text_at(row, 5)?;
    let outcome = match FocusOutcome::parse(outcome_text.as_str()) {
        Ok(o) => o,
        Err(_) => return Err(internal_msg("unexpected focus outcome")),
    };
    Ok(
        FocusSession {
            id,
            task_id,
            started_at,
            ended_at,
            planned_minutes,
            outcome,
            progress_note: opt_text_at(row, 6)?,
            created_at: text_at(row, 7)?,
            updated_at: text_at(row, 8)?,
        },
    )
}

const SESSION_COLUMNS: &'static str = "SELECT id, task_id, started_at, ended_at, planned_minutes, outcome, progress_note, created_at, updated_at FROM focus_sessions";

fn sessions_from_rows(rows: &Vec<Vec<SqlValue>>) -> (r: Result<Vec<FocusSession>, DomainError>)
    ensures
        r matches Ok(v) ==> v@.len() == rows@.len(),
        r matches Err(e) ==> e is Internal,
{
    let mut out: Vec<FocusSession> = Vec::new();
    let mut i: usize = 0;
    while i < rows.len()
        invariant
            i <= rows@.len(),
            out@.len() == i,
        decreases rows@.len() - i,
    {
        out.push(session_from_row(&rows[i])?);
        i = i + 1;
    }
    Ok(out)
}

pub struct FocusService {
    pub db: Database,
}

impl FocusService {
    pub fn new(db: Database) -> (r: Self)
        ensures
            r.db.path@ == db.path@,
    {
        FocusService { db }
    }

    /// Starts a session on an open task, abandoning any session in
    /// progress. The planned length, when given, is 1 to 480 minutes.
    pub fn start(&self, tasks: &TaskService, task_id: EntityId, planned_minutes: Option<i64>) -> (r:
        Result<FocusSession, DomainError>)
        ensures
            !planned_ok(planned_minutes) ==> r is Err,
            r matches Ok(s) ==> s.task_id == task_id && s.outcome == FocusOutcome::InProgress
                && s.planned_minutes == planned_minutes && s.ended_at is None
                && s.progress_note is None,
    {
        let task = tasks.get_task(task_id)?;
        check_focus_start(task.status, planned_minutes)?;
        let conn = connect(&self.db)?;
        let now = now_stamp();
        begin(&conn)?;
        let id = new_id();
        let params = vec![SqlValue::Text(now.clone())];
        let outcome = match run(
            &conn,
            "UPDATE focus_sessions SET outcome = 'abandoned', ended_at = ?1, updated_at = ?1
             WHERE outcome = 'in_progress'",
            params.as_slice(),
        ) {
            Ok(_) => {
                let planned = match planned_minutes {
                    Some(m) => SqlValue::Integer(m),
                    None => SqlValue::Null,
                };
                let params = vec![id_param(id), id_param(task_id), SqlValue::Text(now.clone()), planned];
                match run(
                    &conn,
                    "INSERT INTO focus_sessions
                     (id, task_id, started_at, ended_at, planned_minutes, outcome, progress_note, created_at, updated_at)
                     VALUES (?1, ?2, ?3, NULL, ?4, 'in_progress', NULL, ?3, ?3)",
                    params.as_slice(),
                ) {
                    Ok(_) => Ok(()),
                    Err(e) => Err(e),
                }
            },
            Err(e) => Err(e),
        };
        finish(&conn, outcome)?;
        Ok(
            FocusSession {
                id,
                task_id,
                started_at: now.clone(),
                ended_at: None,
                planned_minutes,
                outcome: FocusOutcome::InProgress,
                progress_note: None,
                created_at: now.clone(),
                updated_at: now,
            },
        )
    }

    /// Ends a session in progress with a final outcome; a completed
    /// session completes its task. The note is trimmed, and a blank note
    /// is dropped.
    pub fn end(
        &self,
        tasks: &TaskService,
        session_id: EntityId,
        outcome: FocusOutcome,
        progress_note: Option<String>,
    ) -> (r: Result<FocusSession, DomainError>)
        ensures
            outcome == FocusOutcome::InProgress ==> r matches Err(DomainError::Validation(_)),
            r matches Ok(s) ==> s.id == session_id && s.outcome == outcome && s.ended_at is Some
                && opt_str_view(s.progress_note) == nonblank(opt_str_view(progress_note)),
            r matches Ok(s) ==> exists|prior: FocusSession| #[trigger] ended_from(prior, s, session_id),
            r matches Err(DomainError::Validation(_)) ==> outcome == FocusOutcome::InProgress
                || outcome == FocusOutcome::Completed || exists|prior: FocusSession|
                prior.id == session_id && #[trigger] prior.outcome != FocusOutcome::InProgress,
    {
        if outcome == FocusOutcome::InProgress {
            return Err(validation("结束专注时必须指定结果（completed / kept_todo / abandoned）"));
        }
        let session = self.get(session_id)?;
        if let Err(e) = check_focus_end(session.outcome, outcome) {
            assert(session.id == session_id && session.outcome != FocusOutcome::InProgress);
            return Err(e);
        }
        let ghost prior = session;
        let note = trim_nonblank(&progress_note);
        let conn = connect(&self.db)?;
        let now = now_stamp();
        let note_param = match &note {
            Some(n) => SqlValue::Text(n.clone()),
            None => SqlValue::Null,
        };
        let params = vec![
            SqlValue::Text(outcome.as_str().to_string()),
            SqlValue::Text(now.clone()),
            note_param,
            id_param(session_id),
        ];
        run(
            &conn,
            "UPDATE focus_sessions SET outcome = ?1, ended_at = ?2, progress_note = ?3, updated_at = ?2
             WHERE id = ?4 AND outcome = 'in_progress'",
            params.as_slice(),
        )?;
        if outcome == FocusOutcome::Completed {
            tasks.complete_task(session.task_id)?;
        }
        let ended = FocusSession {
                id: session.id,
                task_id: session.task_id,
                started_at: session.started_at,
                ended_at: Some(now.clone()),
                planned_minutes: session.planned_minutes,
                outcome,
                progress_note: note,
                created_at: session.created_at,
                updated_at: now,
            };
        assert(ended_from(prior, ended, session_id));
        Ok(ended)
    }

    /// Abandons the session in progress, if there is one, and returns it.
    pub fn abandon_active(&self) -> (r: Result<Option<FocusSession>, DomainError>)
        ensures
            r matches Ok(Some(s)) ==> s.outcome == FocusOutcome::Abandoned,
    {
        match self.active()? {
            None => Ok(None),
            Some(active) => {
                let tasks = TaskService::new(self.db.clone());
                let s = self.end(&tasks, active.id, FocusOutcome::Abandoned, None)?;
                Ok(Some(s))
            },
        }
    }

    /// The session in progress (the latest started), if any.
    pub fn active(&self) -> (r: Result<Option<FocusSession>, DomainError>)
        ensures
            r matches Ok(Some(s)) ==> s.outcome == FocusOutcome::InProgress,
            r matches Err(e) ==> e is Internal,
    {
        let conn = connect(&self.db)?;
        let mut sql = SESSION_COLUMNS.to_string();
        sql.append(" WHERE outcome = 'in_progress' ORDER BY started_at DESC LIMIT 1");
        let rows = fetch(&conn, sql.as_str(), &[])?;
        let sessions = sessions_from_rows(&rows)?;
        let mut i: usize = 0;
        while i < sessions.len()
            invariant
                i <= sessions@.len(),
            decreases sessions@.len() - i,
        {
            if sessions[i].outcome == FocusOutcome::InProgress {
                let mut sessions = sessions;
                return Ok(Some(sessions.remove(i)));
            }
            i = i + 1;
        }
        Ok(None)
    }

    /// A session by id.
    pub fn get(&self, id: EntityId) -> (r: Result<FocusSession, DomainError>)
        ensures
            r matches Ok(s) ==> s.id == id,
            r matches Err(e) ==> e is Internal || e is NotFound,
    {
        let conn = connect(&self.db)?;
        let mut sql = SESSION_COLUMNS.to_string();
        sql.append(" WHERE id = ?1");
        let params = vec![id_param(id)];
        let rows = fetch(&conn, sql.as_str(), params.as_slice())?;
        let mut i: usize = 0;
        while i < rows.len()
            invariant
                i <= rows@.len(),
            decreases rows@.len() - i,
        {
            let s = session_from_row(&rows[i])?;
            if s.id == id {
                return Ok(s);
            }
            i = i + 1;
        }
        Err(not_found("专注会话不存在"))
    }

    /// Sessions, latest started first, of one task or of all; at most
    /// `focus_list_limit_spec(limit)` of them.
    pub fn list(&self, task_id: Option<EntityId>, limit: Option<i64>) -> (r: Result<
        Vec<FocusSession>,
        DomainError,
    >)
        ensures
            r matches Ok(v) ==> forall|i: int|
                0 <= i < v@.len() ==> (task_id matches Some(t) ==> (#[trigger] v@[i]).task_id == t),
            r matches Err(e) ==> e is Internal,
    {
        let limit = focus_list_limit(limit);
        let conn = connect(&self.db)?;
        let mut sql = SESSION_COLUMNS.to_string();
        let rows = match task_id {
            Some(t) => {
                sql.append(" WHERE task_id = ?1 ORDER BY started_at DESC LIMIT ?2");
                let params = vec![id_param(t), SqlValue::Integer(limit)];
                fetch(&conn, sql.as_str(), params.as_slice())?
            },
            None => {
                sql.append(" ORDER BY started_at DESC LIMIT ?1");
                let params = vec![SqlValue::Integer(limit)];
                fetch(&conn, sql.as_str(), params.as_slice())?
            },
        };
        let all = sessions_from_rows(&rows)?;
        let mut out: Vec<FocusSession> = Vec::new();
        let mut all = all;
        while all.len() > 0
            invariant
                forall|i: int|
                    0 <= i < out@.len() ==> (task_id matches Some(t) ==> (#[trigger] out@[i]).task_id
                        == t),
            decreases all@.len(),
        {
            let s = all.remove(0);
            let keep = match task_id {
                Some(t) => s.task_id == t,
                None => true,
            };
            if keep {
                out.push(s);
            }
        }
        Ok(out)
    }
}

} // verus!
