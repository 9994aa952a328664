use trove::clipboard::{clip_memory_input, clip_task_input, ClipboardService, ClipboardSettings};
use trove::db::{Database, SqlValue};
use trove::memories::{new_memory_params, CreateMemoryInput, MemoryService, UpdateMemoryInput};
use trove::reminders::{CreateReminderInput, ReminderService, UpdateReminderInput};
use trove::task_model::{CreateTaskInput, ListKind, TaskPriority, UpdateTaskInput};
use trove::tasks::{next_instance_rows, task_update_params, TaskService};

fn open(dir: &std::path::Path) -> Database {
    let db = Database::open(dir.join("w.db").to_str().unwrap()).ok().unwrap();
    TaskService::new(db.clone()).ensure_seed_data().ok().unwrap();
    db
}

fn text(v: &SqlValue) -> String {
    match v {
        SqlValue::Text(s) => s.clone(),
        _ => panic!("expected text"),
    }
}

#[test]
fn memory_rows_keep_each_flag_in_its_place() {
    let p = new_memory_params(1, "t", "b", true, false, &Some("kw".to_string()), "now");
    assert!(matches!(p[3], SqlValue::Integer(1)));
    assert!(matches!(p[4], SqlValue::Integer(0)));
    assert_eq!(text(&p[5]), "kw");
    let p = new_memory_params(1, "t", "b", false, true, &None, "now");
    assert!(matches!(p[3], SqlValue::Integer(0)));
    assert!(matches!(p[4], SqlValue::Integer(1)));
    assert!(matches!(p[5], SqlValue::Null));
}

#[test]
fn created_and_updated_memories_read_back_as_asked() {
    let dir = tempfile::tempdir().unwrap();
    let svc = MemoryService::new(open(dir.path()));
    let m = svc
        .create(CreateMemoryInput {
            title: "  咖啡笔记 ".to_string(),
            body: None,
            pinned: Some(true),
            quick_insert: None,
            trigger_word: Some("  ".to_string()),
            tag_names: None,
        })
        .ok()
        .unwrap();
    assert_eq!(m.title, "咖啡笔记");
    assert_eq!(m.body, "");
    assert!(m.pinned && !m.quick_insert && !m.archived);
    assert_eq!(m.trigger_word, None);
    let u = svc
        .update(UpdateMemoryInput {
            id: m.id,
            title: " 新标题".to_string(),
            body: "正文".to_string(),
            pinned: false,
            archived: true,
            quick_insert: true,
            trigger_word: Some(" kf ".to_string()),
            sensitive: true,
            tag_names: Vec::new(),
        })
        .ok()
        .unwrap();
    assert_eq!((u.title.as_str(), u.body.as_str()), ("新标题", "正文"));
    assert!(!u.pinned && u.archived && u.quick_insert && u.sensitive);
    assert_eq!(u.trigger_word.as_deref(), Some("kf"));
    let blank = svc.update(UpdateMemoryInput {
        id: m.id,
        title: "  ".to_string(),
        body: String::new(),
        pinned: false,
        archived: false,
        quick_insert: false,
        trigger_word: None,
        sensitive: false,
        tag_names: Vec::new(),
    });
    assert!(matches!(blank, Err(trove::domain::DomainError::Validation(_))));
}

#[test]
fn task_updates_and_lists_read_back_as_asked() {
    let dir = tempfile::tempdir().unwrap();
    let tasks = TaskService::new(open(dir.path()));
    let list = tasks.create_list("  工作 ".to_string()).ok().unwrap();
    assert_eq!(list.name, "工作");
    assert_eq!(list.kind, ListKind::Custom);
    let t = tasks
        .create_task(CreateTaskInput {
            title: "写周报".to_string(),
            notes: Some("旧备注".to_string()),
            priority: None,
            list_id: None,
            due_date: None,
            due_time: None,
            tag_names: None,
        })
        .ok()
        .unwrap();
    let input = UpdateTaskInput {
        id: t.id,
        title: " 写月报 ".to_string(),
        notes: "新备注".to_string(),
        priority: TaskPriority::High,
        list_id: list.id,
        due_date: Some("2026-06-01".to_string()),
        due_time: Some("10:30".to_string()),
        tag_names: Vec::new(),
    };
    let p = task_update_params(&input, "写月报", "now");
    assert_eq!((text(&p[0]), text(&p[1])), ("写月报".to_string(), "新备注".to_string()));
    let u = tasks.update_task(input).ok().unwrap();
    assert_eq!((u.title.as_str(), u.notes.as_str()), ("写月报", "新备注"));
    assert_eq!(u.priority, TaskPriority::High);
    assert_eq!(u.list_id, list.id);
    assert_eq!(u.due_date.as_deref(), Some("2026-06-01"));
    assert_eq!(u.due_time.as_deref(), Some("10:30"));
}

#[test]
fn reminder_updates_read_back_as_asked() {
    let dir = tempfile::tempdir().unwrap();
    let svc = ReminderService::new(open(dir.path()));
    let r = svc
        .create(CreateReminderInput {
            title: "喝水".to_string(),
            notes: None,
            task_id: None,
            fire_at: "2030-01-01T09:00:00".to_string(),
            timezone: None,
            recurrence: None,
            end_at: None,
        })
        .ok()
        .unwrap();
    let u = svc
        .update(UpdateReminderInput {
            id: r.id,
            title: " 喝茶 ".to_string(),
            notes: "下午".to_string(),
            fire_at: "2030-01-02T15:00:00".to_string(),
            recurrence: None,
            end_at: Some("2030-02-01T00:00:00".to_string()),
            enabled: false,
        })
        .ok()
        .unwrap();
    assert_eq!((u.title.as_str(), u.notes.as_str()), ("喝茶", "下午"));
    assert_eq!(u.next_fire_at, "2030-01-02T15:00:00");
    assert_eq!(u.end_at.as_deref(), Some("2030-02-01T00:00:00"));
    assert!(!u.enabled);
    let bad = svc.update(UpdateReminderInput {
        id: r.id,
        title: "喝茶".to_string(),
        notes: String::new(),
        fire_at: "明天".to_string(),
        recurrence: None,
        end_at: None,
        enabled: true,
    });
    assert!(matches!(bad, Err(trove::domain::DomainError::Validation(_))));
}

#[test]
fn clipboard_conversions_carry_the_text() {
    let t = clip_task_input("第一行\n第二行".to_string());
    assert_eq!(t.title, "第一行");
    assert_eq!(t.notes.as_deref(), Some("第一行\n第二行"));
    assert!(t.priority.is_none() && t.list_id.is_none() && t.due_date.is_none());
    let m = clip_memory_input("发票金额 128".to_string(), true);
    assert_eq!(m.body.as_deref(), Some("[来自图片识别]\n发票金额 128"));
    assert_eq!(m.title, "发票金额 128");
    let m = clip_memory_input("".to_string(), false);
    assert_eq!(m.title, "剪切板记忆");

    let dir = tempfile::tempdir().unwrap();
    let db = open(dir.path());
    let mut svc = ClipboardService::new(db.clone(), dir.path().join("assets").to_str().unwrap().to_string());
    let settings = ClipboardSettings {
        capture_enabled: true,
        excluded_apps: Vec::new(),
        retention_days: 30,
        max_items: 500,
    };
    let item = svc.capture_text(&settings, "买牛奶\n两盒".to_string(), None).ok().unwrap().unwrap();
    let task_id = svc.convert_to_task(item.id).ok().unwrap();
    let task = TaskService::new(db.clone()).get_task(task_id).ok().unwrap();
    assert_eq!((task.title.as_str(), task.notes.as_str()), ("买牛奶", "买牛奶\n两盒"));
    let memory_id = svc.convert_to_memory(item.id).ok().unwrap();
    let memory = MemoryService::new(db).get(memory_id).ok().unwrap();
    assert_eq!((memory.title.as_str(), memory.body.as_str()), ("买牛奶", "买牛奶\n两盒"));
}

#[test]
fn the_next_instance_is_due_one_step_later() {
    let rule = trove::json::JsonValue::Object(vec![
        ("frequency".to_string(), trove::json::JsonValue::Str("daily".to_string())),
        ("interval".to_string(), trove::json::JsonValue::Number("2".to_string())),
    ]);
    let task = trove::task_model::Task {
        id: 5,
        title: "浇花".to_string(),
        notes: String::new(),
        status: trove::task_model::TaskStatus::Todo,
        priority: TaskPriority::Unset,
        list_id: 1,
        list_name: "收件箱".to_string(),
        list_kind: ListKind::Inbox,
        due_date: Some("2026-03-01".to_string()),
        due_time: None,
        completed_at: None,
        sort_order: 1,
        series_id: Some(9),
        tag_ids: Vec::new(),
        tag_names: Vec::new(),
        workflow_state: trove::task_model::TaskWorkflowState::Active,
        available_at: None,
        waiting_for: None,
        follow_up_date: None,
        created_at: "2026-01-01T00:00:00Z".to_string(),
        updated_at: "2026-01-01T00:00:00Z".to_string(),
        revision: 1,
    };
    let rows = match next_instance_rows(&rule, &task, 6, "浇花", "", "none", 1, 3, 9, "now") {
        Ok(r) => r,
        Err(_) => panic!("a dated instance steps"),
    };
    let (ins, upd) = rows.unwrap();
    assert_eq!(text(&ins[5]), "2026-03-03");
    assert_eq!(text(&ins[6]), "09:00");
    assert_eq!(text(&upd[0]), "2026-03-03");
}
