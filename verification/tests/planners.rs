use trove::actions::{ActionDispatchOptions, ActionOutcome, ActionSource, UiEffect, WorkbenchAction};
use trove::ai_suggestions::{daily_candidates, rank_related};
use trove::clipboard::retire_plan;
use trove::db::SqlValue;
use trove::domain::DomainError;
use trove::json::JsonValue;
use trove::search::{SearchEntityType, SearchHit};
use trove::task_model::{ListKind, Task, TaskPriority, TaskStatus, TaskWorkflowState};
use trove::task_query::{task_filters, TaskQuery};
use trove::tasks::{series_step, TodayTasks};
use trove::workbench_actions::dispatch;

fn text(v: &SqlValue) -> String {
    match v {
        SqlValue::Text(s) => s.clone(),
        _ => panic!("expected text"),
    }
}

fn task(id: u128, title: &str, due: Option<&str>) -> Task {
    Task {
        id,
        title: title.to_string(),
        notes: String::new(),
        status: TaskStatus::Todo,
        priority: TaskPriority::Unset,
        list_id: 1,
        list_name: "收件箱".to_string(),
        list_kind: ListKind::Inbox,
        due_date: due.map(|d| d.to_string()),
        due_time: None,
        completed_at: None,
        sort_order: 1,
        series_id: None,
        tag_ids: Vec::new(),
        tag_names: Vec::new(),
        workflow_state: TaskWorkflowState::Active,
        available_at: None,
        waiting_for: None,
        follow_up_date: None,
        created_at: "2026-01-01T00:00:00Z".to_string(),
        updated_at: "2026-01-01T00:00:00Z".to_string(),
        revision: 1,
    }
}

fn hit(id: u128, title: &str) -> SearchHit {
    SearchHit {
        entity_type: SearchEntityType::Memory,
        entity_id: id,
        title: title.to_string(),
        snippet: String::new(),
        updated_at: "2026-01-01".to_string(),
    }
}

#[test]
fn inbox_filter_and_search_reach_the_sql() {
    let mut q = TaskQuery::default();
    q.inbox_only = Some(true);
    q.search = Some("  50%_off ".to_string());
    let (sql, params) = task_filters(&q, "2026-05-01");
    assert_eq!(
        sql,
        " AND l.kind = 'inbox' AND t.status != 'archived' AND (t.title LIKE ? ESCAPE '\\' OR t.notes LIKE ? ESCAPE '\\')"
    );
    assert_eq!(params.len(), 2);
    assert_eq!(text(&params[0]), "%50\\%\\_off%");
    assert_eq!(text(&params[1]), "%50\\%\\_off%");
}

#[test]
fn plain_query_keeps_to_active_tasks_not_deferred() {
    let q = TaskQuery::default();
    let (sql, params) = task_filters(&q, "2026-05-01");
    assert_eq!(
        sql,
        " AND t.status != 'archived' AND t.workflow_state = 'active' AND (t.available_at IS NULL OR t.available_at <= ?)"
    );
    assert_eq!(params.len(), 1);
    assert_eq!(text(&params[0]), "2026-05-01");
}

#[test]
fn clean_up_retires_only_unlinked_items_up_to_the_cap() {
    let cands = vec![(1u128, false), (2u128, true), (3u128, false), (4u128, false)];
    assert_eq!(retire_plan(&cands, None), vec![1, 3, 4]);
    assert_eq!(retire_plan(&cands, Some(2)), vec![1, 3]);
    assert_eq!(retire_plan(&cands, Some(9)), vec![1, 3, 4]);
    assert!(retire_plan(&cands, Some(0)).is_empty());
}

#[test]
fn related_ranking_drops_linked_rejected_and_sensitive() {
    let pool = || vec![hit(1, "a"), hit(2, "b"), hit(3, "c"), hit(4, "d")];
    let counts = vec![1u64, 3, 2, 5];
    let id = |x: u128| trove::ids::format_id(x);
    let linked = vec![id(4)];
    let rejected = vec![id(2)];
    let sensitive: Vec<String> = Vec::new();
    let ranked = rank_related(pool(), counts.clone(), &linked, &rejected, &sensitive);
    let ids: Vec<u128> = ranked.iter().map(|h| h.entity_id).collect();
    assert_eq!(ids, vec![3, 1]);
    let sensitive = vec![id(3)];
    let ranked = rank_related(pool(), counts, &linked, &rejected, &sensitive);
    let ids: Vec<u128> = ranked.iter().map(|h| h.entity_id).collect();
    assert_eq!(ids, vec![1]);
}

#[test]
fn daily_candidates_leave_out_focus_waiting_and_skipped() {
    let today = TodayTasks {
        overdue: vec![task(1, "报税", Some("2026-04-01")), task(2, "续费", Some("2026-04-02"))],
        due_today: vec![task(3, "周会", Some("2026-05-01")), task(4, "买菜", Some("2026-05-01"))],
        completed_today: Vec::new(),
        focus: vec![task(2, "续费", Some("2026-04-02"))],
        waiting_follow_up: vec![task(4, "买菜", Some("2026-05-01"))],
        focus_carry_suggestions: Vec::new(),
        reminders_today: Vec::new(),
        today: "2026-05-01".to_string(),
    };
    let skipped = vec![trove::ids::format_id(3)];
    let (titles, ids, listing) = daily_candidates(&today, &skipped);
    assert_eq!(titles, vec!["报税".to_string()]);
    assert_eq!(ids, vec![trove::ids::format_id(1)]);
    assert!(listing.contains("《报税》"));
}

#[test]
fn series_step_follows_the_rule_from_the_due_date() {
    let rule = JsonValue::Object(vec![
        ("frequency".to_string(), JsonValue::Str("weekly".to_string())),
        ("interval".to_string(), JsonValue::Number("2".to_string())),
    ]);
    let t = task(1, "周报", Some("2026-01-30"));
    let (next, time) = series_step(&rule, &t).ok().unwrap();
    assert_eq!(next, Some("2026-02-13".to_string()));
    assert_eq!(time, "09:00");
    let undated = task(2, "x", None);
    assert!(matches!(series_step(&rule, &undated), Err(DomainError::Validation(_))));
    let bad = task(3, "x", Some("2026-13-01"));
    assert!(matches!(series_step(&rule, &bad), Err(DomainError::Validation(_))));
}

#[test]
fn stateless_actions_need_no_workbench() {
    let opts = ActionDispatchOptions { source: ActionSource::Cli, dry_run: false };
    let (outcome, effects) = dispatch(None, WorkbenchAction::Navigate { path: "/today".to_string() }, opts).ok().unwrap();
    assert!(matches!(outcome, ActionOutcome::Navigated { ref path } if path == "/today"));
    assert!(matches!(effects.as_slice(), [UiEffect::Navigate { path }] if path == "/today"));
    let opts = ActionDispatchOptions { source: ActionSource::Cli, dry_run: false };
    assert!(matches!(dispatch(None, WorkbenchAction::QueryToday, opts), Err(DomainError::Validation(_))));
    let opts = ActionDispatchOptions { source: ActionSource::Cli, dry_run: true };
    let (outcome, effects) = dispatch(None, WorkbenchAction::OpenSearch { query: "x".to_string() }, opts).ok().unwrap();
    assert!(matches!(outcome, ActionOutcome::DryRun { ref description } if description == "打开搜索：x"));
    assert!(effects.is_empty());
}
