use trove::clipboard::ClipboardService;
use trove::daily_wrap::{normalize_wrap_date, DailyWrapCompleteInput, DailyWrapService};
use trove::db::Database;
use trove::json::JsonValue;
use trove::reminders::ReminderService;
use trove::task_model::CreateTaskInput;
use trove::tasks::TaskService;
use trove::weekly_review::{ReviewCompleteInput, ReviewType, WeeklyReviewService};

fn open(dir: &std::path::Path) -> (Database, TaskService) {
    let db = Database::open(dir.join("workbench.db").to_str().unwrap()).ok().unwrap();
    let tasks = TaskService::new(db.clone());
    tasks.ensure_seed_data().ok().unwrap();
    (db, tasks)
}

fn input(title: &str, due: Option<String>) -> CreateTaskInput {
    CreateTaskInput {
        title: title.to_string(),
        notes: None,
        priority: None,
        list_id: None,
        due_date: due,
        due_time: None,
        tag_names: None,
    }
}

#[test]
fn daily_wrap_snapshot_and_complete() {
    let dir = tempfile::tempdir().unwrap();
    let (db, tasks) = open(dir.path());
    let reminders = ReminderService::new(db.clone());
    let wrap = DailyWrapService::new(db);
    let today = local_today();
    let task = tasks.create_task(input("focus item", Some(today.clone()))).ok().unwrap();
    tasks.daily_focus_add(task.id, Some(today.clone())).ok().unwrap();

    let snap = wrap.snapshot(&tasks, &reminders, Some(today.clone())).ok().unwrap();
    assert_eq!(snap.unfinished_focus.len(), 1);
    assert_eq!(snap.wrap_date, today);

    let run = wrap.start(Some(today.clone())).ok().unwrap();
    let done = wrap
        .complete(
            run.id,
            DailyWrapCompleteInput {
                steps_completed: 5,
                summary: Some(JsonValue::Object(vec![(
                    "completedFocus".to_string(),
                    JsonValue::Number("0".to_string()),
                )])),
            },
        )
        .ok()
        .unwrap();
    assert!(done.completed_at.is_some());
    assert_eq!(done.steps_completed, 5);
    assert!(wrap.completed_for_date(Some(today)).ok().unwrap().is_some());
    assert!(wrap.complete(run.id, DailyWrapCompleteInput { steps_completed: 1, summary: None }).is_err());
}

#[test]
fn wrap_date_defaults_to_today_and_must_be_a_date() {
    assert_eq!(normalize_wrap_date(&None, "2026-05-01").ok().unwrap(), "2026-05-01");
    assert_eq!(normalize_wrap_date(&Some("  ".to_string()), "2026-05-01").ok().unwrap(), "2026-05-01");
    assert_eq!(normalize_wrap_date(&Some(" 2026-04-30 ".to_string()), "2026-05-01").ok().unwrap(), "2026-04-30");
    assert!(normalize_wrap_date(&Some("2026-02-30".to_string()), "2026-05-01").is_err());
}

#[test]
fn weekly_review_snapshot_and_complete() {
    let dir = tempfile::tempdir().unwrap();
    let (db, tasks) = open(dir.path());
    let reminders = ReminderService::new(db.clone());
    let clipboard = ClipboardService::new(db.clone(), dir.path().join("assets").to_str().unwrap().to_string());
    let review = WeeklyReviewService::new(db);
    tasks.create_task(input("inbox item", None)).ok().unwrap();
    let snap = review.snapshot(&tasks, &reminders, &clipboard).ok().unwrap();
    assert!(snap.inbox_count >= 1);

    let session = review.start(ReviewType::Weekly).ok().unwrap();
    let done = review
        .complete(
            session.id,
            ReviewCompleteInput {
                summary: Some(JsonValue::Object(vec![(
                    "inboxCount".to_string(),
                    JsonValue::Number(snap.inbox_count.to_string()),
                )])),
            },
        )
        .ok()
        .unwrap();
    assert!(done.completed_at.is_some());
    assert!(review.last_completed(ReviewType::Weekly).ok().unwrap().is_some());
}

#[test]
fn recurring_task_spawns_next_instance_on_complete_and_skip() {
    let dir = tempfile::tempdir().unwrap();
    let (_db, tasks) = open(dir.path());
    let rule = JsonValue::Object(vec![
        ("frequency".to_string(), JsonValue::Str("weekly".to_string())),
        ("interval".to_string(), JsonValue::Number("1".to_string())),
    ]);
    let first = tasks
        .create_recurring_task(input("water plants", Some("2026-07-27".to_string())), rule)
        .ok()
        .unwrap();
    assert!(first.series_id.is_some());
    assert_eq!(first.due_time.as_deref(), Some("09:00"));
    tasks.complete_task(first.id).ok().unwrap();
    let mut q = trove::task_query::TaskQuery::default();
    q.search = Some("water plants".to_string());
    q.status = Some(trove::task_model::TaskStatus::Todo);
    let open_now = tasks.query_tasks(q).ok().unwrap().items;
    assert_eq!(open_now.len(), 1);
    assert_eq!(open_now[0].due_date.as_deref(), Some("2026-08-03"));
    assert_eq!(open_now[0].series_id, first.series_id);

    let skipped = tasks.skip_task_instance(open_now[0].id).ok().unwrap();
    assert_eq!(skipped.status, trove::task_model::TaskStatus::Archived);
    let mut q = trove::task_query::TaskQuery::default();
    q.search = Some("water plants".to_string());
    q.status = Some(trove::task_model::TaskStatus::Todo);
    let next = tasks.query_tasks(q).ok().unwrap().items;
    assert_eq!(next.len(), 1);
    assert_eq!(next[0].due_date.as_deref(), Some("2026-08-10"));
}

#[test]
fn recurring_task_needs_a_rule_and_a_due_date() {
    let dir = tempfile::tempdir().unwrap();
    let (_db, tasks) = open(dir.path());
    let bad_rule = JsonValue::Object(vec![("frequency".to_string(), JsonValue::Str("yearly".to_string()))]);
    assert!(tasks.create_recurring_task(input("x", Some("2026-07-27".to_string())), bad_rule).is_err());
    let rule = JsonValue::Object(vec![("frequency".to_string(), JsonValue::Str("daily".to_string()))]);
    assert!(tasks.create_recurring_task(input("x", None), rule).is_err());
    let plain = tasks.create_task(input("plain", None)).ok().unwrap();
    assert!(tasks.skip_task_instance(plain.id).is_err());
}

fn clip_item(content: &str, app: Option<&str>) -> trove::clipboard::ClipboardItem {
    trove::clipboard::ClipboardItem {
        id: 1,
        content: content.to_string(),
        content_hash: String::new(),
        source_app: app.map(|a| a.to_string()),
        favorite: false,
        use_count: 0,
        last_used_at: None,
        created_at: String::new(),
        updated_at: String::new(),
        revision: 1,
        kind: trove::clipboard::ClipboardKind::Text,
        asset_id: None,
        width: None,
        height: None,
        thumb_base64: None,
        ocr_text: None,
    }
}

#[test]
fn weekly_summary_context_lists_counts_and_safe_labels() {
    let snap = trove::weekly_review::WeeklyReviewSnapshot {
        inbox_unprocessed: vec![],
        inbox_count: 1,
        overdue: vec![],
        overdue_count: 2,
        waiting_follow_up: vec![],
        waiting_follow_up_count: 3,
        stale_active: vec![],
        stale_active_count: 4,
        completed_last_7_days: vec![],
        completed_last_7_days_count: 5,
        upcoming_recurring_reminders: vec![],
        upcoming_recurring_count: 6,
        large_clipboard_items: vec![
            clip_item("a very long clipboard text that goes on and on", None),
            clip_item("from the vault", Some("1Password 8")),
            clip_item("from my app", Some("Private")),
            clip_item("short", Some("Safari")),
        ],
        large_clipboard_count: 4,
    };
    let text = trove::weekly_review::summary_context(&snap, &vec!["Private".to_string()]);
    assert_eq!(
        text,
        "本周统计：收件箱未处理 1；逾期 2；等待/跟进 3；长期未动 4；近7天完成 5；周期提醒 6；大体积剪贴板 4。\n大剪贴板示例：a very long clipboar…、short"
    );
}

fn local_today() -> String {
    chrono::Local::now().format("%Y-%m-%d").to_string()
}
