use trove::db::Database;
use trove::task_model::{CreateTaskInput, ListKind, TaskPriority, TaskStatus, TaskWorkflowState};
use trove::task_query::TaskQuery;
use trove::tasks::{ListDeleteDisposition, TaskService};

fn open_service() -> (tempfile::TempDir, TaskService) {
    let dir = tempfile::tempdir().unwrap();
    let path = dir.path().join("t.db");
    let db = Database::open(path.to_str().unwrap()).ok().unwrap();
    let svc = TaskService::new(db);
    svc.ensure_seed_data().ok().unwrap();
    (dir, svc)
}

fn input(title: &str) -> CreateTaskInput {
    CreateTaskInput {
        title: title.to_string(),
        notes: None,
        priority: None,
        list_id: None,
        due_date: None,
        due_time: None,
        tag_names: None,
    }
}

fn shift_day(day: &str, delta: i64) -> String {
    (chrono::NaiveDate::parse_from_str(day, "%Y-%m-%d").unwrap() + chrono::Duration::days(delta))
        .format("%Y-%m-%d")
        .to_string()
}

fn list_order_ids(svc: &TaskService, list_id: u128) -> Vec<u128> {
    let mut q = TaskQuery::default();
    q.list_id = Some(list_id);
    q.limit = Some(100);
    svc.query_tasks(q).ok().unwrap().items.into_iter().map(|t| t.id).collect()
}

#[test]
fn create_defaults_to_inbox_and_today_groups() {
    let (_dir, svc) = open_service();
    let today = local_today();

    let mut i = input("inbox task");
    i.tag_names = Some(vec!["work".to_string()]);
    let inbox = svc.create_task(i).ok().unwrap();
    assert_eq!(inbox.list_kind, ListKind::Inbox);
    assert_eq!(inbox.tag_names, vec!["work".to_string()]);

    let mut d = input("today task");
    d.priority = Some(TaskPriority::High);
    d.due_date = Some(today.clone());
    d.due_time = Some("09:30".to_string());
    let due = svc.create_task(d).ok().unwrap();

    let mut o = input("overdue");
    o.due_date = Some("2000-01-01".to_string());
    let overdue = svc.create_task(o).ok().unwrap();

    let view = svc.today_tasks().ok().unwrap();
    assert_eq!(view.today, today);
    assert!(view.overdue.iter().any(|t| t.id == overdue.id));
    assert!(view.due_today.iter().any(|t| t.id == due.id));

    svc.complete_task(due.id).ok().unwrap();
    let view = svc.today_tasks().ok().unwrap();
    assert!(view.completed_today.iter().any(|t| t.id == due.id));
    assert!(!view.due_today.iter().any(|t| t.id == due.id));
}

#[test]
fn archive_and_unarchive_roundtrip() {
    let (_dir, svc) = open_service();
    let task = svc.create_task(input("roundtrip")).ok().unwrap();
    assert_eq!(task.status, TaskStatus::Todo);
    let archived = svc.archive_task(task.id).ok().unwrap();
    assert_eq!(archived.status, TaskStatus::Archived);
    let restored = svc.unarchive_task(task.id).ok().unwrap();
    assert_eq!(restored.status, TaskStatus::Todo);
    let again = svc.unarchive_task(task.id).ok().unwrap();
    assert_eq!(again.status, TaskStatus::Todo);
}

#[test]
fn query_tasks_pagination() {
    let (_dir, svc) = open_service();
    for i in 0..5 {
        svc.create_task(input(&format!("task {i}"))).ok().unwrap();
    }
    let mut q = TaskQuery::default();
    q.limit = Some(2);
    q.offset = Some(0);
    let page = svc.query_tasks(q).ok().unwrap();
    assert_eq!(page.items.len(), 2);
    assert!(page.total >= 5);
    assert!(page.has_more);

    let mut q = TaskQuery::default();
    q.limit = Some(100);
    q.offset = Some(page.total - 1);
    let last = svc.query_tasks(q).ok().unwrap();
    assert_eq!(last.items.len(), 1);
    assert!(!last.has_more);
}

#[test]
fn update_list_rename_and_query_search() {
    let (_dir, svc) = open_service();
    let list = svc.create_list("Projects".to_string()).ok().unwrap();
    let updated = svc.update_list(list.id, "Work".to_string()).ok().unwrap();
    assert_eq!(updated.name, "Work");

    let mut i = input("alpha task");
    i.notes = Some("contains beta keyword".to_string());
    i.list_id = Some(list.id);
    let task = svc.create_task(i).ok().unwrap();

    let mut q = TaskQuery::default();
    q.search = Some("alpha".to_string());
    assert!(svc.query_tasks(q).ok().unwrap().items.iter().any(|t| t.id == task.id));
    let mut q = TaskQuery::default();
    q.search = Some("beta".to_string());
    assert!(svc.query_tasks(q).ok().unwrap().items.iter().any(|t| t.id == task.id));
}

#[test]
fn delete_list_moves_tasks_and_undo_restores() {
    let (_dir, svc) = open_service();
    let list = svc.create_list("Temp".to_string()).ok().unwrap();
    let mut i = input("move me");
    i.list_id = Some(list.id);
    let task = svc.create_task(i).ok().unwrap();

    let result = svc.delete_list(list.id, ListDeleteDisposition::MoveToInbox).ok().unwrap();
    assert_eq!(result.task_ids, vec![task.id]);
    assert!(svc.get_list(list.id).is_err());
    let moved = svc.get_task(task.id).ok().unwrap();
    assert_eq!(moved.list_kind, ListKind::Inbox);

    let restored = svc.undo_delete_list(result).ok().unwrap();
    assert_eq!(restored.name, "Temp");
    let back = svc.get_task(task.id).ok().unwrap();
    assert_eq!(back.list_id, list.id);
}

#[test]
fn reorder_tasks_rewrites_sort_order_per_list() {
    let (_dir, svc) = open_service();
    let list = svc.create_list("Projects".to_string()).ok().unwrap();
    let mk = |title: &str| {
        let mut i = input(title);
        i.list_id = Some(list.id);
        svc.create_task(i).ok().unwrap()
    };
    let t1 = mk("one");
    let t2 = mk("two");
    let t3 = mk("three");
    assert_eq!(list_order_ids(&svc, list.id), vec![t1.id, t2.id, t3.id]);
    svc.reorder_tasks(vec![t3.id, t1.id, t2.id]).ok().unwrap();
    assert_eq!(list_order_ids(&svc, list.id), vec![t3.id, t1.id, t2.id]);
    assert_eq!(svc.get_task(t3.id).ok().unwrap().sort_order, 0);
    assert_eq!(svc.get_task(t1.id).ok().unwrap().sort_order, 1);
    assert_eq!(svc.get_task(t2.id).ok().unwrap().sort_order, 2);
}

#[test]
fn reorder_tasks_cross_list_keeps_lists_independent() {
    let (_dir, svc) = open_service();
    let list_a = svc.create_list("A".to_string()).ok().unwrap();
    let list_b = svc.create_list("B".to_string()).ok().unwrap();
    let create_in = |title: &str, list: u128| {
        let mut i = input(title);
        i.list_id = Some(list);
        svc.create_task(i).ok().unwrap()
    };
    let a1 = create_in("a1", list_a.id);
    let a2 = create_in("a2", list_a.id);
    let a3 = create_in("a3", list_a.id);
    let b1 = create_in("b1", list_b.id);
    let b2 = create_in("b2", list_b.id);
    assert_eq!(list_order_ids(&svc, list_a.id), vec![a1.id, a2.id, a3.id]);
    assert_eq!(list_order_ids(&svc, list_b.id), vec![b1.id, b2.id]);

    svc.reorder_tasks(vec![a2.id, b2.id, a3.id, a1.id, b1.id]).ok().unwrap();
    assert_eq!(list_order_ids(&svc, list_a.id), vec![a2.id, a3.id, a1.id]);
    assert_eq!(list_order_ids(&svc, list_b.id), vec![b2.id, b1.id]);
    for (t, expected) in [(a2.id, 0), (a3.id, 1), (a1.id, 2), (b2.id, 0), (b1.id, 1)] {
        assert_eq!(svc.get_task(t).ok().unwrap().sort_order, expected);
    }
}

#[test]
fn reorder_tasks_leaves_untouched_tasks_alone() {
    let (_dir, svc) = open_service();
    let list = svc.create_list("Projects".to_string()).ok().unwrap();
    let mut i = input("one");
    i.list_id = Some(list.id);
    let t1 = svc.create_task(i).ok().unwrap();
    let mut i = input("two");
    i.list_id = Some(list.id);
    let t2 = svc.create_task(i).ok().unwrap();
    let before = svc.get_task(t1.id).ok().unwrap().sort_order;
    svc.reorder_tasks(vec![t2.id]).ok().unwrap();
    assert_eq!(svc.get_task(t1.id).ok().unwrap().sort_order, before);
    assert_eq!(svc.get_task(t2.id).ok().unwrap().sort_order, 0);
}

#[test]
fn set_task_defer_hides_from_active_query() {
    let (_dir, svc) = open_service();
    let tomorrow = shift_day(&local_today(), 1);
    let task = svc.create_task(input("defer me")).ok().unwrap();
    svc.set_task_defer(task.id, Some(tomorrow.clone())).ok().unwrap();

    let mut q = TaskQuery::default();
    q.status = Some(TaskStatus::Todo);
    assert!(!svc.query_tasks(q).ok().unwrap().items.iter().any(|t| t.id == task.id));
    let mut q = TaskQuery::default();
    q.deferred_only = Some(true);
    assert!(svc.query_tasks(q).ok().unwrap().items.iter().any(|t| t.id == task.id));

    svc.set_task_defer(task.id, None).ok().unwrap();
    let mut q = TaskQuery::default();
    q.status = Some(TaskStatus::Todo);
    assert!(svc.query_tasks(q).ok().unwrap().items.iter().any(|t| t.id == task.id));
}

#[test]
fn set_task_defer_rejects_due_before_available() {
    let (_dir, svc) = open_service();
    let mut i = input("conflict");
    i.due_date = Some("2026-08-10".to_string());
    let task = svc.create_task(i).ok().unwrap();
    assert!(svc.set_task_defer(task.id, Some("2026-08-20".to_string())).is_err());
}

#[test]
fn set_task_waiting_hides_from_active_and_today_due() {
    let (_dir, svc) = open_service();
    let today = local_today();
    let mut i = input("waiting task");
    i.due_date = Some(today.clone());
    let task = svc.create_task(i).ok().unwrap();

    svc.set_task_waiting(task.id, Some("Alice".to_string()), Some(today.clone())).ok().unwrap();
    let updated = svc.get_task(task.id).ok().unwrap();
    assert_eq!(updated.workflow_state, TaskWorkflowState::Waiting);
    assert_eq!(updated.waiting_for.as_deref(), Some("Alice"));

    let mut q = TaskQuery::default();
    q.status = Some(TaskStatus::Todo);
    assert!(!svc.query_tasks(q).ok().unwrap().items.iter().any(|t| t.id == task.id));

    let view = svc.today_tasks().ok().unwrap();
    assert!(!view.due_today.iter().any(|t| t.id == task.id));
    assert!(view.waiting_follow_up.iter().any(|t| t.id == task.id));

    svc.clear_task_waiting(task.id).ok().unwrap();
    let mut q = TaskQuery::default();
    q.status = Some(TaskStatus::Todo);
    assert!(svc.query_tasks(q).ok().unwrap().items.iter().any(|t| t.id == task.id));
}

#[test]
fn waiting_without_follow_up_not_in_today() {
    let (_dir, svc) = open_service();
    let task = svc.create_task(input("no follow up")).ok().unwrap();
    svc.set_task_waiting(task.id, Some("Bob".to_string()), None).ok().unwrap();
    let view = svc.today_tasks().ok().unwrap();
    assert!(!view.waiting_follow_up.iter().any(|t| t.id == task.id));
}

#[test]
fn daily_focus_add_remove_and_carry() {
    let (_dir, svc) = open_service();
    let today = local_today();
    let yesterday = shift_day(&today, -1);
    let mut i = input("focus me");
    i.due_date = Some(today.clone());
    let task = svc.create_task(i).ok().unwrap();

    svc.daily_focus_add(task.id, Some(today.clone())).ok().unwrap();
    assert!(svc.today_tasks().ok().unwrap().focus.iter().any(|t| t.id == task.id));

    svc.daily_focus_remove(task.id, Some(today.clone())).ok().unwrap();
    assert!(!svc.today_tasks().ok().unwrap().focus.iter().any(|t| t.id == task.id));

    svc.daily_focus_add(task.id, Some(yesterday.clone())).ok().unwrap();
    let carried = svc.daily_focus_carry(yesterday.clone(), today.clone()).ok().unwrap();
    assert_eq!(carried.len(), 1);
    assert_eq!(carried[0].id, task.id);
    let view = svc.today_tasks().ok().unwrap();
    assert!(view.focus.iter().any(|t| t.id == task.id));
    assert!(view.focus_carry_suggestions.is_empty());
}

#[test]
fn defer_to_future_removes_daily_focus() {
    let (_dir, svc) = open_service();
    let tomorrow = shift_day(&local_today(), 1);
    let task = svc.create_task(input("defer focus")).ok().unwrap();
    svc.daily_focus_add(task.id, None).ok().unwrap();
    svc.set_task_defer(task.id, Some(tomorrow)).ok().unwrap();
    assert!(!svc.today_tasks().ok().unwrap().focus.iter().any(|t| t.id == task.id));
}

#[test]
fn defer_event_count_increments_on_postpone() {
    let (_dir, svc) = open_service();
    let yesterday = shift_day(&local_today(), -1);
    let mut i = input("postpone");
    i.due_date = Some(yesterday);
    let task = svc.create_task(i).ok().unwrap();
    svc.postpone_task(task.id, 1).ok().unwrap();
    let counts = svc.defer_counts_for_tasks(&[task.id]).ok().unwrap();
    let n = counts.iter().find(|(id, _)| *id == task.id).map(|(_, c)| *c).unwrap_or(0);
    assert_eq!(n, 1);
}

#[test]
fn blank_title_is_a_validation_error() {
    let (_dir, svc) = open_service();
    assert!(matches!(
        svc.create_task(input("   ")),
        Err(trove::domain::DomainError::Validation(_))
    ));
}

#[test]
fn missing_task_is_not_found() {
    let (_dir, svc) = open_service();
    assert!(matches!(
        svc.get_task(uuid::Uuid::new_v4().as_u128()),
        Err(trove::domain::DomainError::NotFound(_))
    ));
}

fn local_today() -> String {
    chrono::Local::now().format("%Y-%m-%d").to_string()
}
