use trove::automation::{
    condition_matches, sanitize_error, validate_rule_definition, AutomationAction,
    AutomationCondition, AutomationEntityType, AutomationEvent, AutomationEventKind,
    AutomationRuleDefinition, AutomationRunStatus, AutomationService, CreateAutomationRuleInput,
};
use trove::db::Database;
use trove::memories::MemoryService;
use trove::task_model::{CreateTaskInput, TaskPriority};
use trove::tasks::TaskService;

fn sample_definition() -> AutomationRuleDefinition {
    AutomationRuleDefinition {
        trigger: AutomationEventKind::TaskCreated,
        conditions: vec![AutomationCondition::TitleContains {
            text: "urgent".to_string(),
            case_insensitive: true,
        }],
        actions: vec![AutomationAction::SetPriority { priority: TaskPriority::High }],
    }
}

fn event(title: &str, id: u128) -> AutomationEvent {
    AutomationEvent {
        kind: AutomationEventKind::TaskCreated,
        entity_type: AutomationEntityType::Task,
        entity_id: id,
        title: title.to_string(),
        body: String::new(),
        list_id: None,
        tag_names: vec![],
        priority: None,
        source_app: None,
        added_tag: None,
        target_list_id: None,
    }
}

fn open(dir: &std::path::Path) -> (Database, AutomationService) {
    let db = Database::open(dir.join("t.db").to_str().unwrap()).ok().unwrap();
    let svc = AutomationService::new(db.clone());
    (db, svc)
}

#[test]
fn create_list_delete_rule() {
    let dir = tempfile::tempdir().unwrap();
    let (_db, svc) = open(dir.path());
    let created = svc
        .create(CreateAutomationRuleInput { name: "高优先级".to_string(), definition: sample_definition() })
        .ok()
        .unwrap();
    assert!(created.enabled);
    assert_eq!(created.name, "高优先级");
    assert_eq!(svc.list().ok().unwrap().len(), 1);
    svc.set_enabled(created.id, false).ok().unwrap();
    assert!(!svc.get(created.id).ok().unwrap().enabled);
    svc.delete(created.id).ok().unwrap();
    assert!(svc.list().ok().unwrap().is_empty());
}

#[test]
fn dry_run_does_not_require_global_enabled() {
    let dir = tempfile::tempdir().unwrap();
    let (_db, svc) = open(dir.path());
    let rule = svc
        .create(CreateAutomationRuleInput { name: "test".to_string(), definition: sample_definition() })
        .ok()
        .unwrap();
    let result = svc.dry_run(rule.id, event("URGENT fix", uuid::Uuid::new_v4().as_u128())).ok().unwrap();
    assert!(result.matched);
    assert_eq!(result.actions.len(), 1);
}

#[test]
fn rule_without_actions_is_refused() {
    let mut d = sample_definition();
    d.actions = vec![];
    assert!(validate_rule_definition(&d).is_err());
    assert!(validate_rule_definition(&sample_definition()).is_ok());
}

#[test]
fn title_condition_respects_case_flag() {
    let e = event("URGENT fix", 1);
    let ci = AutomationCondition::TitleContains { text: "urgent".to_string(), case_insensitive: true };
    let cs = AutomationCondition::TitleContains { text: "urgent".to_string(), case_insensitive: false };
    assert!(condition_matches(&ci, &e));
    assert!(!condition_matches(&cs, &e));
}

#[test]
fn error_summary_is_trimmed_and_cut() {
    assert_eq!(sanitize_error("  boom  "), "boom");
    let long = "x".repeat(300);
    let cut = sanitize_error(&long);
    assert_eq!(cut.chars().count(), 241);
    assert!(cut.ends_with('…'));
}

#[test]
fn disabled_automation_runs_nothing_but_dry_run_reports() {
    let dir = tempfile::tempdir().unwrap();
    let (db, svc) = open(dir.path());
    let tasks = TaskService::new(db.clone());
    tasks.ensure_seed_data().ok().unwrap();
    let memories = MemoryService::new(db);
    svc.create(CreateAutomationRuleInput { name: "r".to_string(), definition: sample_definition() })
        .ok()
        .unwrap();
    let task = tasks
        .create_task(CreateTaskInput {
            title: "urgent thing".to_string(),
            notes: None,
            priority: None,
            list_id: None,
            due_date: None,
            due_time: None,
            tag_names: None,
        })
        .ok()
        .unwrap();
    let off = svc
        .run_for_event(false, false, &tasks, &memories, event("urgent thing", task.id), false)
        .ok()
        .unwrap();
    assert!(off.outcomes.is_empty());
    let dry = svc
        .run_for_event(false, false, &tasks, &memories, event("urgent thing", task.id), true)
        .ok()
        .unwrap();
    assert_eq!(dry.outcomes.len(), 1);
    assert_eq!(dry.outcomes[0].status, AutomationRunStatus::DryRun);
    assert_eq!(tasks.get_task(task.id).ok().unwrap().priority, TaskPriority::Unset);

    let live = svc
        .run_for_event(true, false, &tasks, &memories, event("urgent thing", task.id), false)
        .ok()
        .unwrap();
    assert_eq!(live.outcomes.len(), 1);
    assert_eq!(live.outcomes[0].status, AutomationRunStatus::Success);
    assert_eq!(tasks.get_task(task.id).ok().unwrap().priority, TaskPriority::High);
}

#[test]
fn stored_definition_reads_back_the_same() {
    let d = AutomationRuleDefinition {
        trigger: AutomationEventKind::ReminderFired,
        conditions: vec![
            AutomationCondition::BodyContains { text: "合同".to_string(), case_insensitive: false },
            AutomationCondition::ListIs { list_id: 42 },
            AutomationCondition::PriorityIs { priority: TaskPriority::Low },
            AutomationCondition::SourceAppIs { app: "Safari".to_string() },
        ],
        actions: vec![
            AutomationAction::MoveToList { list_id: 7 },
            AutomationAction::AddTag { tag_name: "跟进".to_string() },
            AutomationAction::PinMemory,
            AutomationAction::Notify { title: "t".to_string(), body: "b".to_string() },
        ],
    };
    let stored = trove::automation::definition_to_json(&d);
    let back = trove::automation::definition_from_json(&stored);
    assert!(back.trigger == AutomationEventKind::ReminderFired);
    assert_eq!(back.conditions.len(), 4);
    assert!(matches!(&back.conditions[0], AutomationCondition::BodyContains { text, case_insensitive: false } if text == "合同"));
    assert!(matches!(back.conditions[1], AutomationCondition::ListIs { list_id: 42 }));
    assert!(matches!(back.conditions[2], AutomationCondition::PriorityIs { priority: TaskPriority::Low }));
    assert!(matches!(&back.actions[1], AutomationAction::AddTag { tag_name } if tag_name == "跟进"));
    assert!(matches!(back.actions[2], AutomationAction::PinMemory));
    assert!(matches!(back.actions[0], AutomationAction::MoveToList { list_id: 7 }));

    let unreadable = trove::json::JsonValue::Object(vec![(
        "trigger".to_string(),
        trove::json::JsonValue::Str("nope".to_string()),
    )]);
    let fallback = trove::automation::definition_from_json(&unreadable);
    assert!(fallback.trigger == AutomationEventKind::TaskCreated);
    assert!(fallback.conditions.is_empty() && fallback.actions.is_empty());
}

#[test]
fn entity_type_text_reads_back() {
    for t in [
        AutomationEntityType::Task,
        AutomationEntityType::Reminder,
        AutomationEntityType::Memory,
        AutomationEntityType::Clipboard,
    ] {
        assert!(AutomationEntityType::parse(t.as_str()) == Some(t));
    }
    assert!(AutomationEntityType::parse("Task").is_none());
    assert!(AutomationEntityType::parse("").is_none());
}
