//! The health dashboard: backups, storage, reminder outcomes, task
//! backlog and clipboard capacity at a glance.

use vstd::prelude::*;

use rusqlite::Connection;

use crate::assets::AssetStore;
use crate::backup::{BackupInfo, BackupService};
use crate::clipboard::ClipboardSettings;
use crate::clock::{local_now, local_today, now_stamp};
use crate::dates::{add_days, date_diff_days, date_plus_days, days_between};
use crate::db::{Database, SqlValue};
use crate::domain::{internal_msg, str_eq, DomainError};
use crate::rows::{int_at, opt_text_at, text_at, text_param};
use crate::store::{connect, fetch};
use crate::tasks::TaskService;
use crate::templates::opt_text;

verus! {

/// Days without change after which an open task counts as stale.
pub const STALE_DAYS: i64 = 14;
/// Days in the completion trend.
pub const COMPLETION_TREND_DAYS: i64 = 7;

pub struct HealthBackupSummary {
    pub directory: String,
    pub count: usize,
    pub latest_created_at: Option<String>,
    pub last_error: Option<String>,
}

pub struct StorageBreakdown {
    pub database_bytes: u64,
    pub wal_bytes: u64,
    pub assets_bytes: i64,
    pub thumb_bytes: u64,
    pub assets_root: String,
    pub note: String,
}

pub struct StorageGcPreview {
    pub candidate_count: usize,
    pub candidate_bytes: i64,
    pub retention_days: u32,
    pub note: String,
}

pub struct ReminderOutcomeStats {
    pub on_time: i64,
    pub snoozed: i64,
    pub missed: i64,
    pub pending_overdue: i64,
}

pub struct DailyCompletionCount {
    pub date: String,
    pub count: i64,
}

pub struct TaskHealthStats {
    pub inbox_count: i64,
    pub inbox_oldest_days: Option<i64>,
    pub stale_active_count: i64,
    pub completion_trend: Vec<DailyCompletionCount>,
}

pub struct ClipboardHealthStats {
    pub total_count: i64,
    pub favorite_count: i64,
    pub max_items: u32,
    pub retention_days: u32,
    pub remaining_slots: i64,
}

pub struct HealthDashboardSnapshot {
    pub backup: HealthBackupSummary,
    pub backup_total_bytes: u64,
    pub storage: StorageBreakdown,
    pub storage_gc: StorageGcPreview,
    pub reminders_7d: ReminderOutcomeStats,
    pub reminders_30d: ReminderOutcomeStats,
    pub tasks: TaskHealthStats,
    pub clipboard: ClipboardHealthStats,
    pub generated_at: String,
}

/// What the file system says of the database and the thumbnails, read
/// by the caller.
pub struct DiskUsage {
    pub database_bytes: u64,
    pub wal_bytes: u64,
    pub thumb_bytes: u64,
}

/// The sum of the backups' sizes.
pub open spec fn total_size(v: Seq<BackupInfo>) -> int
    decreases v.len(),
{
    if v.len() == 0 {
        0
    } else {
        total_size(v.drop_last()) + v.last().size_bytes
    }
}

/// The backups' total size, capped at `u64::MAX`.
pub fn backup_bytes(v: &Vec<BackupInfo>) -> (r: u64)
    ensures
        r == if total_size(v@) < u64::MAX { total_size(v@) } else { u64::MAX as int },
{
    let mut sum: u64 = 0;
    let mut i: usize = 0;
    while i < v.len()
        invariant
            i <= v@.len(),
            sum == if total_size(v@.take(i as int)) < u64::MAX { total_size(v@.take(i as int)) } else { u64::MAX as int },
        decreases v@.len() - i,
    {
        assert(v@.take(i + 1).drop_last() =~= v@.take(i as int));
        proof {
            lemma_total_size_nonneg(v@.take(i as int));
        }
        sum = sum.saturating_add(v[i].size_bytes);
        i = i + 1;
    }
    assert(v@.take(i as int) =~= v@);
    sum
}

pub proof fn lemma_total_size_nonneg(v: Seq<BackupInfo>)
    ensures
        total_size(v) >= 0,
    decreases v.len(),
{
    if v.len() > 0 {
        lemma_total_size_nonneg(v.drop_last());
    }
}

/// Slots left before the clipboard reaches its cap (never below zero).
pub fn remaining_slots(max_items: u32, total: i64) -> (r: i64)
    ensures
        total >= 0 ==> r == if max_items - total > 0 { max_items - total } else { 0 },
        total < 0 ==> r == max_items,
{
    if total < 0 {
        return max_items as i64;
    }
    let m = max_items as i64;
    if m > total {
        m - total
    } else {
        0
    }
}

/// The first ten characters of a time stamp (all of it when shorter).
pub open spec fn date_part(s: Seq<char>) -> Seq<char> {
    if s.len() >= 10 {
        s.take(10)
    } else {
        s
    }
}

/// Days from the date of a time stamp to today, never below zero; zero
/// when the date cannot be read.
pub open spec fn days_since(stamp: Seq<char>, today: Seq<char>) -> i64 {
    match days_between(date_part(stamp), today) {
        Some(d) => if d > 0 {
            d
        } else {
            0
        },
        None => 0,
    }
}

pub fn days_since_iso(stamp: &str, today: &str) -> (r: i64)
    ensures
        r == days_since(stamp@, today@),
{
    let v = crate::chars::chars_of(stamp);
    let prefix = if v.len() >= 10 {
        let mut w: Vec<char> = Vec::new();
        let mut i: usize = 0;
        while i < 10
            invariant
                i <= 10 <= v@.len(),
                w@ =~= v@.take(i as int),
            decreases 10 - i,
        {
            w.push(v[i]);
            i = i + 1;
        }
        crate::chars::string_of(w.as_slice())
    } else {
        stamp.to_string()
    };
    match date_diff_days(prefix.as_str(), today) {
        Some(d) => if d > 0 {
            d
        } else {
            0
        },
        None => 0,
    }
}

/// The count recorded for a date among `(date, count)` rows: the last
/// row of that date, zero when there is none.
pub open spec fn count_for(rows: Seq<(String, i64)>, date: Seq<char>) -> i64
    decreases rows.len(),
{
    if rows.len() == 0 {
        0
    } else if rows.last().0@ == date {
        rows.last().1
    } else {
        count_for(rows.drop_last(), date)
    }
}

pub fn lookup_count(rows: &Vec<(String, i64)>, date: &str) -> (r: i64)
    ensures
        r == count_for(rows@, date@),
{
    let mut i = rows.len();
    assert(rows@.take(i as int) =~= rows@);
    while i > 0
        invariant
            i <= rows@.len(),
            count_for(rows@, date@) == count_for(rows@.take(i as int), date@),
        decreases i,
    {
        assert(rows@.take(i as int).drop_last() =~= rows@.take(i - 1));
        if str_eq(rows[i - 1].0.as_str(), date) {
            return rows[i - 1].1;
        }
        i = i - 1;
    }
    0
}

/// The trend of the seven days ending today: per day, oldest first, the
/// number of tasks completed that day.
pub fn completion_trend(rows: &Vec<(String, i64)>, today: &str) -> (r: Option<Vec<DailyCompletionCount>>)
    ensures
        r matches Some(v) ==> v@.len() == COMPLETION_TREND_DAYS && forall|k: int|
            0 <= k < v@.len() ==> date_plus_days(today@, (k - 6) as i64) == Some((#[trigger] v@[k]).date@)
                && v@[k].count == count_for(rows@, v@[k].date@),
        r is None <==> exists|k: int| 0 <= k < 7 && #[trigger] date_plus_days(today@, (k - 6) as i64) is None,
{
    let mut out: Vec<DailyCompletionCount> = Vec::new();
    let mut offset: i64 = 0;
    while offset < COMPLETION_TREND_DAYS
        invariant
            0 <= offset <= COMPLETION_TREND_DAYS,
            out@.len() == offset,
            forall|k: int|
                0 <= k < out@.len() ==> date_plus_days(today@, (k - 6) as i64) == Some((#[trigger] out@[k]).date@)
                    && out@[k].count == count_for(rows@, out@[k].date@),
        decreases COMPLETION_TREND_DAYS - offset,
    {
        let day = match add_days(today, offset - (COMPLETION_TREND_DAYS - 1)) {
            Some(d) => d,
            None => {
                assert(date_plus_days(today@, (offset - 6) as i64) is None);
                return None;
            },
        };
        let count = lookup_count(rows, day.as_str());
        out.push(DailyCompletionCount { date: day, count });
        offset = offset + 1;
    }
    proof {
        assert forall|k: int| 0 <= k < 7 implies !(#[trigger] date_plus_days(today@, (k - 6) as i64) is None) by {
            assert(date_plus_days(today@, (k - 6) as i64) == Some(out@[k].date@));
        }
    }
    Some(out)
}

pub struct HealthDashboardService {
    pub db: Database,
    pub assets_root: String,
}

impl HealthDashboardService {
    pub fn new(db: Database, assets_root: String) -> (r: Self)
        ensures
            r.db.path@ == db.path@,
            r.assets_root@ == assets_root@,
    {
        HealthDashboardService { db, assets_root }
    }

    /// The dashboard: the backups (given as the directory lists them),
    /// storage (with the sizes the caller read from disk), reminder
    /// outcomes of the last 7 and 30 days, the task backlog, and the
    /// clipboard against its settings.
    pub fn snapshot(
        &self,
        backups: &BackupService,
        listed_backups: Vec<BackupInfo>,
        tasks: &TaskService,
        clipboard_settings: &ClipboardSettings,
        disk: DiskUsage,
    ) -> (r: Result<HealthDashboardSnapshot, DomainError>)
        ensures
            r matches Ok(s) ==> s.backup.count == listed_backups@.len() && s.backup_total_bytes == (if total_size(
                listed_backups@,
            ) < u64::MAX {
                total_size(listed_backups@)
            } else {
                u64::MAX as int
            }) && s.storage.database_bytes == disk.database_bytes && s.storage.wal_bytes == disk.wal_bytes
                && s.storage.thumb_bytes == disk.thumb_bytes && s.clipboard.max_items == clipboard_settings.max_items
                && s.clipboard.retention_days == clipboard_settings.retention_days
                && s.storage_gc.retention_days == clipboard_settings.retention_days,
    {
        let conn = connect(&self.db)?;
        let today = local_today();
        let now = local_now();
        let since_7 = match add_days(today.as_str(), -6) {
            Some(d) => d,
            None => return Err(internal_msg("invalid local today")),
        };
        let since_30 = match add_days(today.as_str(), -29) {
            Some(d) => d,
            None => return Err(internal_msg("invalid local today")),
        };
        let backup_total_bytes = backup_bytes(&listed_backups);
        let status = backups.status(listed_backups);
        let backup = HealthBackupSummary {
            directory: status.directory,
            count: status.count,
            latest_created_at: match status.latest {
                Some(b) => Some(b.created_at),
                None => None,
            },
            last_error: status.last_error,
        };
        let rows = fetch(&conn, "SELECT COALESCE(SUM(byte_size), 0) FROM assets WHERE deleted_at IS NULL", &[])?;
        let assets_bytes = crate::rows::single_int(&rows)?;
        let storage = StorageBreakdown {
            database_bytes: disk.database_bytes,
            wal_bytes: disk.wal_bytes,
            assets_bytes,
            thumb_bytes: disk.thumb_bytes,
            assets_root: self.assets_root.clone(),
            note: "数据库为主文件与 WAL 字节；资源为 assets 表 byte_size 合计；缩略图为磁盘 thumbs 目录文件合计；备份占用为备份目录内 .db 文件合计。".to_string(),
        };
        let reminders_7d = reminder_outcome_stats(&conn, since_7.as_str(), now.as_str())?;
        let reminders_30d = reminder_outcome_stats(&conn, since_30.as_str(), now.as_str())?;
        let task_stats = task_stats(&conn, tasks, today.as_str())?;
        let clipboard = clipboard_stats(&conn, clipboard_settings.max_items, clipboard_settings.retention_days)?;
        let store = AssetStore::new(self.db.clone(), self.assets_root.clone());
        let gc = store.gc_preview(clipboard_settings.retention_days)?;
        let storage_gc = StorageGcPreview {
            candidate_count: gc.candidate_count,
            candidate_bytes: gc.candidate_bytes,
            retention_days: gc.retention_days,
            note: "仅清理无剪切板/实体链接引用且超过保留期的孤儿图片资源；收藏与被引用的图片不受影响。".to_string(),
        };
        Ok(
            HealthDashboardSnapshot {
                backup,
                backup_total_bytes,
                storage,
                storage_gc,
                reminders_7d,
                reminders_30d,
                tasks: task_stats,
                clipboard,
                generated_at: now_stamp(),
            },
        )
    }
}

/// Reminder outcomes since a date: actioned without snoozing, snoozed,
/// missed, and still pending though due before `now`.
pub fn reminder_outcome_stats(conn: &Connection, since_date: &str, now: &str) -> (r: Result<
    ReminderOutcomeStats,
    DomainError,
>)
    ensures
        r matches Err(e) ==> e is Internal,
{
    let params = vec![text_param(since_date), text_param(now)];
    let rows = fetch(
        conn,
        "SELECT
            COALESCE(SUM(CASE
                WHEN o.status = 'actioned' AND o.snooze_until IS NULL THEN 1
                ELSE 0 END), 0),
            COALESCE(SUM(CASE
                WHEN o.status = 'snoozed'
                  OR (o.status = 'actioned' AND o.snooze_until IS NOT NULL) THEN 1
                ELSE 0 END), 0),
            COALESCE(SUM(CASE
                WHEN o.status = 'inferred_missed' THEN 1
                ELSE 0 END), 0),
            COALESCE(SUM(CASE
                WHEN o.status IN ('pending', 'scheduled') AND o.scheduled_at < ?2 THEN 1
                ELSE 0 END), 0)
         FROM reminder_occurrences o
         JOIN reminders r ON r.id = o.reminder_id AND r.deleted_at IS NULL
         WHERE date(o.scheduled_at, 'localtime') >= date(?1, 'localtime')
           AND o.status != 'cancelled'",
        params.as_slice(),
    )?;
    if rows.len() == 0 {
        return Err(internal_msg("reminder stats returned no row"));
    }
    Ok(
        ReminderOutcomeStats {
            on_time: int_at(&rows[0], 0)?,
            snoozed: int_at(&rows[0], 1)?,
            missed: int_at(&rows[0], 2)?,
            pending_overdue: int_at(&rows[0], 3)?,
        },
    )
}

fn task_stats(conn: &Connection, tasks: &TaskService, today: &str) -> (r: Result<
    TaskHealthStats,
    DomainError,
>)
    ensures
        r matches Ok(s) ==> s.completion_trend@.len() == COMPLETION_TREND_DAYS && forall|k: int|
            0 <= k < s.completion_trend@.len() ==> date_plus_days(today@, (k - 6) as i64) == Some(
                (#[trigger] s.completion_trend@[k]).date@,
            ),
        (exists|k: int| 0 <= k < 7 && #[trigger] date_plus_days(today@, (k - 6) as i64) is None) ==> r is Err,
{
    let rows = fetch(
        conn,
        "SELECT COUNT(*)
         FROM tasks t
         JOIN task_lists l ON l.id = t.list_id AND l.deleted_at IS NULL
         WHERE t.deleted_at IS NULL AND t.status = 'todo' AND l.kind = 'inbox'",
        &[],
    )?;
    let inbox_count = crate::rows::single_int(&rows)?;
    let rows = fetch(
        conn,
        "SELECT MIN(t.created_at)
         FROM tasks t
         JOIN task_lists l ON l.id = t.list_id AND l.deleted_at IS NULL
         WHERE t.deleted_at IS NULL AND t.status = 'todo' AND l.kind = 'inbox'",
        &[],
    )?;
    let inbox_oldest_days = if rows.len() > 0 {
        match opt_text_at(&rows[0], 0)? {
            Some(iso) => Some(days_since_iso(iso.as_str(), today)),
            None => None,
        }
    } else {
        None
    };
    let stale_active_count = tasks.query_stale_active(STALE_DAYS, Some(1), None)?.total;
    let trend_start = match add_days(today, 1 - COMPLETION_TREND_DAYS) {
        Some(d) => d,
        None => return Err(internal_msg("invalid local today")),
    };
    let params = vec![text_param(trend_start.as_str())];
    let rows = fetch(
        conn,
        "SELECT date(completed_at, 'localtime') AS d, COUNT(*)
         FROM tasks
         WHERE deleted_at IS NULL
           AND status = 'completed'
           AND completed_at IS NOT NULL
           AND date(completed_at, 'localtime') >= date(?1, 'localtime')
         GROUP BY d
         ORDER BY d",
        params.as_slice(),
    )?;
    let mut counts: Vec<(String, i64)> = Vec::new();
    let mut i: usize = 0;
    while i < rows.len()
        invariant
            i <= rows@.len(),
        decreases rows@.len() - i,
    {
        counts.push((text_at(&rows[i], 0)?, int_at(&rows[i], 1)?));
        i = i + 1;
    }
    let completion_trend = match completion_trend(&counts, today) {
        Some(t) => t,
        None => return Err(internal_msg("invalid local today")),
    };
    Ok(TaskHealthStats { inbox_count, inbox_oldest_days, stale_active_count, completion_trend })
}

fn clipboard_stats(conn: &Connection, max_items: u32, retention_days: u32) -> (r: Result<
    ClipboardHealthStats,
    DomainError,
>)
    ensures
        r matches Ok(s) ==> s.max_items == max_items && s.retention_days == retention_days
            && s.remaining_slots == (if s.total_count < 0 {
                max_items as int
            } else if max_items - s.total_count > 0 {
                max_items - s.total_count
            } else {
                0
            }),
{
    let rows = fetch(conn, "SELECT COUNT(*) FROM clipboard_items WHERE deleted_at IS NULL", &[])?;
    let total_count = crate::rows::single_int(&rows)?;
    let rows = fetch(conn, "SELECT COUNT(*) FROM clipboard_items WHERE deleted_at IS NULL AND favorite = 1", &[])?;
    let favorite_count = crate::rows::single_int(&rows)?;
    Ok(
        ClipboardHealthStats {
            total_count,
            favorite_count,
            max_items,
            retention_days,
            remaining_slots: remaining_slots(max_items, total_count),
        },
    )
}

} // verus!
