use trove::backup::{BackupInfo, BackupService};
use trove::clipboard::ClipboardSettings;
use trove::db::Database;
use trove::health_dashboard::{
    backup_bytes, completion_trend, days_since_iso, remaining_slots, DiskUsage, HealthDashboardService,
};
use trove::task_model::CreateTaskInput;
use trove::tasks::TaskService;

fn settings() -> ClipboardSettings {
    ClipboardSettings { capture_enabled: true, excluded_apps: vec![], retention_days: 30, max_items: 500 }
}

fn disk() -> DiskUsage {
    DiskUsage { database_bytes: 4096, wal_bytes: 0, thumb_bytes: 0 }
}

fn open(dir: &std::path::Path) -> (Database, TaskService, BackupService, HealthDashboardService) {
    let db = Database::open(dir.join("workbench.db").to_str().unwrap()).ok().unwrap();
    let tasks = TaskService::new(db.clone());
    tasks.ensure_seed_data().ok().unwrap();
    let backups = BackupService::new(db.clone(), dir.to_str().unwrap().to_string());
    let health = HealthDashboardService::new(db.clone(), dir.join("assets").to_str().unwrap().to_string());
    (db, tasks, backups, health)
}

#[test]
fn health_dashboard_snapshot_basic() {
    let dir = tempfile::tempdir().unwrap();
    let (_db, tasks, backups, health) = open(dir.path());
    tasks
        .create_task(CreateTaskInput {
            title: "inbox backlog".to_string(),
            notes: None,
            priority: None,
            list_id: None,
            due_date: None,
            due_time: None,
            tag_names: None,
        })
        .ok()
        .unwrap();
    let snap = health.snapshot(&backups, vec![], &tasks, &settings(), disk()).ok().unwrap();
    assert!(snap.tasks.inbox_count >= 1);
    assert_eq!(snap.reminders_7d.on_time, 0);
    assert!(snap.storage.note.contains("WAL"));
    assert_eq!(snap.tasks.completion_trend.len(), 7);
    assert_eq!(snap.clipboard.remaining_slots, 500);
    assert_eq!(snap.storage.database_bytes, 4096);
}

#[test]
fn reminder_stats_respect_local_date_window() {
    let dir = tempfile::tempdir().unwrap();
    let (db, tasks, backups, health) = open(dir.path());
    let conn = rusqlite::Connection::open(&db.path).unwrap();
    let reminder_id = trove::ids::format_id(uuid::Uuid::new_v4().as_u128());
    conn.execute(
        "INSERT INTO reminders (
            id, title, notes, task_id, recurrence_json, timezone, next_fire_at, end_at,
            enabled, created_at, updated_at, revision, deleted_at
         ) VALUES (?1, 't', '', NULL, NULL, 'Asia/Shanghai', '2026-08-10T09:00:00', NULL,
                   1, '2026-08-10T09:00:00', '2026-08-10T09:00:00', 1, NULL)",
        [&reminder_id],
    )
    .unwrap();
    let day = |offset: i64| {
        let d = (chrono::Local::now().date_naive() - chrono::Duration::days(offset)).format("%Y-%m-%d");
        format!("{d}T09:00:00")
    };
    for (offset, status) in [(1, "actioned"), (3, "inferred_missed"), (12, "actioned")] {
        conn.execute(
            "INSERT INTO reminder_occurrences (
                id, reminder_id, scheduled_at, status, needs_schedule,
                system_notification_id, actioned_at, snooze_until,
                created_at, updated_at, revision
             ) VALUES (?1, ?2, ?3, ?4, 0, NULL, NULL, NULL, 't', 't', 1)",
            (trove::ids::format_id(uuid::Uuid::new_v4().as_u128()), &reminder_id, day(offset), status),
        )
        .unwrap();
    }
    let snap = health.snapshot(&backups, vec![], &tasks, &settings(), disk()).ok().unwrap();
    assert_eq!(snap.reminders_7d.on_time, 1);
    assert_eq!(snap.reminders_7d.missed, 1);
    assert_eq!(snap.reminders_30d.on_time, 2);
}

#[test]
fn dashboard_arithmetic() {
    assert_eq!(remaining_slots(500, 120), 380);
    assert_eq!(remaining_slots(10, 25), 0);
    assert_eq!(days_since_iso("2026-04-28T10:00:00.000Z", "2026-05-01"), 3);
    assert_eq!(days_since_iso("2026-05-03T10:00:00Z", "2026-05-01"), 0);
    assert_eq!(days_since_iso("garbage", "2026-05-01"), 0);
    let b = |n: u64| BackupInfo {
        file_name: "x.db".to_string(),
        path: "x.db".to_string(),
        size_bytes: n,
        created_at: "t".to_string(),
        reason: "r".to_string(),
    };
    assert_eq!(backup_bytes(&vec![b(10), b(32)]), 42);
    assert_eq!(backup_bytes(&vec![b(u64::MAX), b(1)]), u64::MAX);
    let rows = vec![("2026-04-30".to_string(), 2i64), ("2026-05-01".to_string(), 5i64)];
    let trend = completion_trend(&rows, "2026-05-01").unwrap();
    assert_eq!(trend.len(), 7);
    assert_eq!(trend[0].date, "2026-04-25");
    assert_eq!(trend[5].count, 2);
    assert_eq!(trend[6].count, 5);
    assert_eq!(trend[1].count, 0);
}

#[test]
fn completion_trend_needs_a_readable_today() {
    let rows: Vec<(String, i64)> = Vec::new();
    assert!(completion_trend(&rows, "not a date").is_none());
    let trend = completion_trend(&rows, "2026-03-02").unwrap();
    assert_eq!(trend[0].date, "2026-02-24");
    assert!(trend.iter().all(|d| d.count == 0));
}
