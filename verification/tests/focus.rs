use trove::db::Database;
use trove::focus::{check_focus_end, check_focus_start, focus_list_limit, FocusOutcome, FocusService};
use trove::task_model::{CreateTaskInput, TaskStatus};
use trove::tasks::TaskService;

fn open_services() -> (tempfile::TempDir, TaskService, FocusService) {
    let dir = tempfile::tempdir().unwrap();
    let db = Database::open(dir.path().join("workbench.db").to_str().unwrap()).ok().unwrap();
    let tasks = TaskService::new(db.clone());
    tasks.ensure_seed_data().ok().unwrap();
    (dir, tasks, FocusService::new(db))
}

fn input(title: &str) -> CreateTaskInput {
    CreateTaskInput {
        title: title.to_string(),
        notes: None,
        priority: None,
        list_id: None,
        due_date: None,
        due_time: None,
        tag_names: None,
    }
}

#[test]
fn focus_start_end_completed_marks_task_done() {
    let (_dir, tasks, focus) = open_services();
    let task = tasks.create_task(input("focus target")).ok().unwrap();
    let session = focus.start(&tasks, task.id, Some(25)).ok().unwrap();
    assert_eq!(session.outcome, FocusOutcome::InProgress);
    focus.end(&tasks, session.id, FocusOutcome::Completed, None).ok().unwrap();
    assert_eq!(tasks.get_task(task.id).ok().unwrap().status, TaskStatus::Completed);
}

#[test]
fn focus_start_abandons_previous_in_progress() {
    let (_dir, tasks, focus) = open_services();
    let t1 = tasks.create_task(input("one")).ok().unwrap();
    let t2 = tasks.create_task(input("two")).ok().unwrap();
    let s1 = focus.start(&tasks, t1.id, None).ok().unwrap();
    let _s2 = focus.start(&tasks, t2.id, None).ok().unwrap();
    let ended = focus.get(s1.id).ok().unwrap();
    assert_eq!(ended.outcome, FocusOutcome::Abandoned);
    assert!(focus.active().ok().unwrap().is_some());
}

#[test]
fn focus_end_kept_todo_leaves_task_open() {
    let (_dir, tasks, focus) = open_services();
    let task = tasks.create_task(input("keep")).ok().unwrap();
    let session = focus.start(&tasks, task.id, None).ok().unwrap();
    focus
        .end(&tasks, session.id, FocusOutcome::KeptTodo, Some("made progress".to_string()))
        .ok()
        .unwrap();
    assert_eq!(tasks.get_task(task.id).ok().unwrap().status, TaskStatus::Todo);
    let ended = focus.get(session.id).ok().unwrap();
    assert_eq!(ended.progress_note.as_deref(), Some("made progress"));
}

#[test]
fn focus_rules_on_plain_values() {
    assert!(check_focus_start(TaskStatus::Todo, Some(25)).is_ok());
    assert!(check_focus_start(TaskStatus::Todo, None).is_ok());
    assert!(check_focus_start(TaskStatus::Completed, None).is_err());
    assert!(check_focus_start(TaskStatus::Todo, Some(0)).is_err());
    assert!(check_focus_end(FocusOutcome::InProgress, FocusOutcome::Completed).is_ok());
    assert!(check_focus_end(FocusOutcome::InProgress, FocusOutcome::InProgress).is_err());
    assert!(check_focus_end(FocusOutcome::Completed, FocusOutcome::Abandoned).is_err());
    assert_eq!(FocusOutcome::KeptTodo.as_str(), "kept_todo");
    assert!(FocusOutcome::parse("bogus").is_err());
    assert_eq!(focus_list_limit(None), 50);
    assert_eq!(focus_list_limit(Some(0)), 1);
    assert_eq!(focus_list_limit(Some(500)), 200);
    assert_eq!(focus_list_limit(Some(30)), 30);
    assert!(check_focus_start(TaskStatus::Todo, Some(481)).is_err());
    assert!(check_focus_start(TaskStatus::Todo, Some(480)).is_ok());
}

#[test]
fn ending_twice_is_refused() {
    let (_dir, tasks, focus) = open_services();
    let task = tasks.create_task(input("twice")).ok().unwrap();
    let session = focus.start(&tasks, task.id, None).ok().unwrap();
    focus.end(&tasks, session.id, FocusOutcome::Abandoned, None).ok().unwrap();
    assert!(focus.end(&tasks, session.id, FocusOutcome::Completed, None).is_err());
    assert!(focus.active().ok().unwrap().is_none());
}
