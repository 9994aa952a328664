use trove::ai_model::{
    content_from_json, content_to_json, sources_from_json, sources_to_json, SuggestionContent,
    SuggestionItem, SuggestionSource,
};
use std::sync::atomic::{AtomicUsize, Ordering};

use trove::ai_model::{
    AIFeature, AIFeatureToggles, AIMode, AIProvider, AISettings, CompletionOutput,
    CompletionRequest, ContextItem, ExtractApplyInput, SuggestionStatus,
};
use trove::ai_suggestions::AISuggestionService;
use trove::db::Database;
use trove::links::EntityLinkService;
use trove::memories::{CreateMemoryInput, MemoryService, UpdateMemoryInput};
use trove::search::SearchService;
use trove::tasks::TaskService;

struct FakeProvider {
    output: Option<&'static str>,
    calls: AtomicUsize,
}

impl AIProvider for FakeProvider {
    fn complete(&self, _request: &CompletionRequest) -> Option<CompletionOutput> {
        self.calls.fetch_add(1, Ordering::SeqCst);
        self.output.map(|raw| CompletionOutput { raw_json: raw.to_string() })
    }
}

fn fake(output: Option<&'static str>) -> FakeProvider {
    FakeProvider { output, calls: AtomicUsize::new(0) }
}

fn toggles_off() -> AIFeatureToggles {
    AIFeatureToggles { extract: false, summary: false, related: false, suggest: false, split: false }
}

fn settings(extract: bool) -> AISettings {
    let mut features = toggles_off();
    features.extract = extract;
    AISettings {
        mode: AIMode::Ollama,
        ollama_model: "fake".to_string(),
        custom_model: String::new(),
        features,
        excluded_apps: vec![],
    }
}

fn db_at(dir: &std::path::Path) -> Database {
    Database::open(dir.join("workbench.db").to_str().unwrap()).ok().unwrap()
}

fn ctx(entity_type: &str, entity_id: &str, text: &str, source_app: Option<&str>) -> ContextItem {
    ContextItem {
        entity_type: entity_type.to_string(),
        entity_id: entity_id.to_string(),
        text: text.to_string(),
        source_app: source_app.map(|s| s.to_string()),
    }
}

fn insert_memory(db: &Database, id: &str, body: &str, sensitive: bool) {
    let conn = rusqlite::Connection::open(&db.path).unwrap();
    conn.execute(
        "INSERT INTO memories (id, title, body, pinned, archived, quick_insert, trigger_word,
             mention_use_count, sensitive, created_at, updated_at, revision)
         VALUES (?1, 't', ?2, 0, 0, 0, NULL, 0, ?3, 't', 't', 1)",
        (id, body, sensitive as i64),
    )
    .unwrap();
}

const GOOD_OUTPUT: &str = r#"{"items":[
    {"title":"交投放数据","detail":"王琳负责","dueDate":"2026-08-25","dueTime":"10:00","ambiguous":false,"sourceExcerpt":"王琳在 10 号前提交投放数据"},
    {"title":"确认合同","detail":null,"dueDate":null,"dueTime":null,"ambiguous":true,"sourceExcerpt":"找老张确认合同"}
],"summary":null}"#;

#[test]
fn disabled_feature_never_calls_provider() {
    let dir = tempfile::tempdir().unwrap();
    let service = AISuggestionService::with_provider(db_at(dir.path()), settings(false), fake(Some(GOOD_OUTPUT)));
    let result = service
        .request(AIFeature::Extract, "memory", "m1", &vec![ctx("memory", "m1", "开会记录", None)])
        .ok()
        .unwrap();
    assert!(result.is_none());
    assert_eq!(service.provider.calls.load(Ordering::SeqCst), 0);
}

#[test]
fn sensitive_memory_is_sanitized_out() {
    let dir = tempfile::tempdir().unwrap();
    let db = db_at(dir.path());
    insert_memory(&db, "m-s", "密码备份流程", true);
    insert_memory(&db, "m-ok", "周会记录", false);
    let service = AISuggestionService::with_provider(db, settings(true), fake(Some(GOOD_OUTPUT)));
    let kept = service.sanitize_context(&vec![
        ctx("memory", "m-s", "密码备份流程", None),
        ctx("memory", "m-ok", "周会记录", None),
    ]);
    assert_eq!(kept.len(), 1);
    assert_eq!(kept[0].entity_id, "m-ok");
    let result = service
        .request(AIFeature::Extract, "memory", "m-s", &vec![ctx("memory", "m-s", "密码", None)])
        .ok()
        .unwrap();
    assert!(result.is_none());
    assert_eq!(service.provider.calls.load(Ordering::SeqCst), 0);
}

#[test]
fn password_manager_source_is_sanitized_out() {
    let dir = tempfile::tempdir().unwrap();
    let service = AISuggestionService::with_provider(db_at(dir.path()), settings(false), fake(None));
    let kept = service.sanitize_context(&vec![
        ctx("clipboard", "c1", "复制的密码", Some("1Password")),
        ctx("clipboard", "c2", "普通文本", Some("Safari")),
    ]);
    assert_eq!(kept.len(), 1);
    assert_eq!(kept[0].entity_id, "c2");
}

#[test]
fn user_excluded_apps_are_sanitized_out() {
    let dir = tempfile::tempdir().unwrap();
    let mut st = settings(false);
    st.excluded_apps.push("微信".to_string());
    let service = AISuggestionService::with_provider(db_at(dir.path()), st, fake(None));
    let kept = service.sanitize_context(&vec![ctx("clipboard", "c1", "x", Some("微信"))]);
    assert!(kept.is_empty());
}

#[test]
fn valid_output_lands_as_pending_with_sources() {
    let dir = tempfile::tempdir().unwrap();
    let db = db_at(dir.path());
    insert_memory(&db, "m-ok", "找老张确认合同", false);
    let out = r#"{"items":[{"title":"确认合同","detail":null,"dueDate":null,"dueTime":null,"ambiguous":true,"sourceExcerpt":"找老张确认合同"}],"summary":null}"#;
    let service = AISuggestionService::with_provider(db, settings(true), fake(Some(out)));
    let record = service
        .request(AIFeature::Extract, "memory", "m-ok", &vec![ctx("memory", "m-ok", "找老张确认合同", None)])
        .ok()
        .unwrap()
        .unwrap();
    assert_eq!(record.status, SuggestionStatus::Pending);
    assert_eq!(record.payload.items.len(), 1);
    assert_eq!(record.sources.len(), 1);
    assert_eq!(record.sources[0].entity_id, "m-ok");
}

#[test]
fn invalid_output_is_discarded_with_audit_row() {
    let dir = tempfile::tempdir().unwrap();
    let db = db_at(dir.path());
    insert_memory(&db, "m1", "x", false);
    let service = AISuggestionService::with_provider(db, settings(true), fake(Some("this is not json")));
    let result = service
        .request(AIFeature::Extract, "memory", "m1", &vec![ctx("memory", "m1", "x", None)])
        .ok()
        .unwrap();
    assert!(result.is_none());
    let history = service.list(None, None).ok().unwrap();
    assert_eq!(history.len(), 1);
    assert_eq!(history[0].status, SuggestionStatus::Dismissed);
    assert!(history[0].payload.items.is_empty());
}

#[test]
fn decide_transitions_once_and_clear_history() {
    let dir = tempfile::tempdir().unwrap();
    let db = db_at(dir.path());
    insert_memory(&db, "m1", "a", false);
    let out = r#"{"items":[{"title":"a","detail":null,"dueDate":null,"dueTime":null,"ambiguous":false,"sourceExcerpt":"a"}],"summary":null}"#;
    let service = AISuggestionService::with_provider(db, settings(true), fake(Some(out)));
    let record = service
        .request(AIFeature::Extract, "memory", "m1", &vec![ctx("memory", "m1", "a", None)])
        .ok()
        .unwrap()
        .unwrap();
    let accepted = service.decide(&record.id, SuggestionStatus::Accepted).ok().unwrap();
    assert_eq!(accepted.status, SuggestionStatus::Accepted);
    assert!(accepted.decided_at.is_some());
    assert!(service.decide(&record.id, SuggestionStatus::Rejected).is_err());
    assert_eq!(service.clear_history().ok().unwrap(), 1);
    assert!(service.list(None, None).ok().unwrap().is_empty());
}

#[test]
fn off_mode_provider_returns_none_end_to_end() {
    let dir = tempfile::tempdir().unwrap();
    let db = db_at(dir.path());
    insert_memory(&db, "m1", "x", false);
    let mut st = settings(true);
    st.mode = AIMode::Off;
    let service = AISuggestionService::with_provider(db, st, fake(None));
    let result = service
        .request(AIFeature::Extract, "memory", "m1", &vec![ctx("memory", "m1", "x", None)])
        .ok()
        .unwrap();
    assert!(result.is_none());
    assert!(service.list(None, None).ok().unwrap().is_empty());
}

struct Support {
    tasks: TaskService,
    links: EntityLinkService,
    search: SearchService,
    memories: MemoryService,
}

fn support(dir: &std::path::Path) -> Support {
    let db = db_at(dir);
    let tasks = TaskService::new(db.clone());
    tasks.ensure_seed_data().ok().unwrap();
    Support {
        tasks,
        links: EntityLinkService::new(db.clone()),
        search: SearchService::new(db.clone()),
        memories: MemoryService::new(db),
    }
}

fn meeting_memory(memories: &MemoryService) -> u128 {
    memories
        .create(CreateMemoryInput {
            title: "周会记录".to_string(),
            body: Some("王琳在 10 号前提交投放数据；找老张确认合同".to_string()),
            pinned: None,
            quick_insert: None,
            trigger_word: None,
            tag_names: None,
        })
        .ok()
        .unwrap()
        .id
}

#[test]
fn request_extract_is_idempotent_while_pending() {
    let dir = tempfile::tempdir().unwrap();
    let s = support(dir.path());
    let memory_id = trove::ids::format_id(meeting_memory(&s.memories));
    let service = AISuggestionService::with_provider(db_at(dir.path()), settings(true), fake(Some(GOOD_OUTPUT)));
    let first = service.request_extract(&memory_id, &s.memories).ok().unwrap().unwrap();
    assert_eq!(first.payload.items.len(), 2);
    assert_eq!(first.status, SuggestionStatus::Pending);
    let second = service.request_extract(&memory_id, &s.memories).ok().unwrap().unwrap();
    assert_eq!(first.id, second.id);
    assert_eq!(service.provider.calls.load(Ordering::SeqCst), 1);
}

#[test]
fn request_extract_skips_sensitive_memory() {
    let dir = tempfile::tempdir().unwrap();
    let s = support(dir.path());
    let id = s
        .memories
        .create(CreateMemoryInput {
            title: "密码".to_string(),
            body: Some("sk-xxx".to_string()),
            pinned: None,
            quick_insert: None,
            trigger_word: None,
            tag_names: None,
        })
        .ok()
        .unwrap()
        .id;
    s.memories
        .update(UpdateMemoryInput {
            id,
            title: "密码".to_string(),
            body: "sk-xxx".to_string(),
            pinned: false,
            archived: false,
            quick_insert: false,
            trigger_word: None,
            sensitive: true,
            tag_names: vec![],
        })
        .ok()
        .unwrap();
    let service = AISuggestionService::with_provider(db_at(dir.path()), settings(true), fake(Some(GOOD_OUTPUT)));
    let result = service.request_extract(&trove::ids::format_id(id), &s.memories).ok().unwrap();
    assert!(result.is_none());
    assert_eq!(service.provider.calls.load(Ordering::SeqCst), 0);
}

fn seeded(dir: &std::path::Path, s: &Support) -> (AISuggestionService<FakeProvider>, String, u128) {
    let memory = meeting_memory(&s.memories);
    let service = AISuggestionService::with_provider(db_at(dir), settings(true), fake(Some(GOOD_OUTPUT)));
    let record = service
        .request_extract(&trove::ids::format_id(memory), &s.memories)
        .ok()
        .unwrap()
        .unwrap();
    (service, record.id, memory)
}

#[test]
fn apply_extract_creates_tasks_and_marks_accepted() {
    let dir = tempfile::tempdir().unwrap();
    let s = support(dir.path());
    let (service, suggestion_id, memory) = seeded(dir.path(), &s);
    let result = service
        .apply_extract(
            ExtractApplyInput { suggestion_id: suggestion_id.clone(), selected_indices: vec![0, 1] },
            &s.tasks,
            &s.links,
            &s.search,
        )
        .ok()
        .unwrap();
    assert_eq!(result.tasks.len(), 2);
    assert_eq!(result.suggestion.status, SuggestionStatus::Accepted);
    assert_eq!(result.tasks[0].due_date.as_deref(), Some("2026-08-25"));
    assert_eq!(result.tasks[0].due_time.as_deref(), Some("10:00"));
    assert_eq!(result.tasks[1].due_date, None);
    assert!(result.tasks[0].notes.contains("AI 从记忆"));
    let linked = s.links.list_outgoing("memory", memory).ok().unwrap();
    for task in &result.tasks {
        assert!(linked.iter().any(|l| l.target_id == task.id));
    }
    assert!(service
        .apply_extract(
            ExtractApplyInput { suggestion_id, selected_indices: vec![0] },
            &s.tasks,
            &s.links,
            &s.search,
        )
        .is_err());
}

#[test]
fn apply_extract_rejects_bad_indices_and_non_extract() {
    let dir = tempfile::tempdir().unwrap();
    let s = support(dir.path());
    let (service, suggestion_id, _m) = seeded(dir.path(), &s);
    let out_of_range = service.apply_extract(
        ExtractApplyInput { suggestion_id: suggestion_id.clone(), selected_indices: vec![9] },
        &s.tasks,
        &s.links,
        &s.search,
    );
    assert!(out_of_range.is_err());
    assert_eq!(service.get(&suggestion_id).ok().unwrap().status, SuggestionStatus::Pending);
}

#[test]
fn apply_extract_partial_failure_keeps_pending() {
    let dir = tempfile::tempdir().unwrap();
    let s = support(dir.path());
    let (service, suggestion_id, _m) = seeded(dir.path(), &s);
    let result = service.apply_extract(
        ExtractApplyInput { suggestion_id: suggestion_id.clone(), selected_indices: vec![0, 5] },
        &s.tasks,
        &s.links,
        &s.search,
    );
    assert!(result.is_err());
    assert_eq!(service.get(&suggestion_id).ok().unwrap().status, SuggestionStatus::Pending);
}

fn settings_for(set: fn(&mut AIFeatureToggles)) -> AISettings {
    let mut s = settings(false);
    set(&mut s.features);
    s
}

fn task_input(title: &str, notes: Option<&str>) -> trove::task_model::CreateTaskInput {
    trove::task_model::CreateTaskInput {
        title: title.to_string(),
        notes: notes.map(|n| n.to_string()),
        priority: None,
        list_id: None,
        due_date: None,
        due_time: None,
        tag_names: None,
    }
}

fn memory_input(title: &str, body: &str) -> CreateMemoryInput {
    CreateMemoryInput {
        title: title.to_string(),
        body: Some(body.to_string()),
        pinned: None,
        quick_insert: None,
        trigger_word: None,
        tag_names: None,
    }
}

const SUMMARY_OUTPUT: &str = r#"{"items":[],"summary":"本周完成 3 项，逾期 1 项，可先挑 1 项处理。"}"#;

#[test]
fn weekly_summary_regenerations_dismiss_pending() {
    let dir = tempfile::tempdir().unwrap();
    let s = support(dir.path());
    let reminders = trove::reminders::ReminderService::new(db_at(dir.path()));
    let clipboard = trove::clipboard::ClipboardService::new(
        db_at(dir.path()),
        dir.path().join("assets").to_str().unwrap().to_string(),
    );
    let weekly = trove::weekly_review::WeeklyReviewService::new(db_at(dir.path()));
    let service = AISuggestionService::with_provider(
        db_at(dir.path()),
        settings_for(|f| f.summary = true),
        fake(Some(SUMMARY_OUTPUT)),
    );

    let snap = weekly.snapshot(&s.tasks, &reminders, &clipboard).ok().unwrap();
    let first = service.request_weekly_summary(&snap).ok().unwrap().expect("record");
    assert_eq!(first.feature_type, "summary");
    assert_eq!(first.source_entity_id, trove::ai_suggestions::WEEKLY_SOURCE_ID);
    assert!(first.payload.summary.is_some());
    assert!(first.payload.items.is_empty());

    // Regenerate: old pending dismissed, new pending created.
    let snap = weekly.snapshot(&s.tasks, &reminders, &clipboard).ok().unwrap();
    let second = service.request_weekly_summary(&snap).ok().unwrap().expect("record");
    assert_ne!(first.id, second.id);
    assert_eq!(service.get(&first.id).ok().unwrap().status, SuggestionStatus::Dismissed);

    // Completing the review clears the remaining pending summary.
    service.dismiss_pending_weekly_summary().ok().unwrap();
    assert_eq!(service.get(&second.id).ok().unwrap().status, SuggestionStatus::Dismissed);
}

const RELATED_OUTPUT: &str = r#"{"items":[
    {"title":"差旅票据整理","detail":"都涉及报销","dueDate":null,"dueTime":null,"ambiguous":true,"sourceExcerpt":"差旅票据"},
    {"title":"我编造的条目","detail":null,"dueDate":null,"dueTime":null,"ambiguous":true,"sourceExcerpt":"x"}
],"summary":null}"#;

fn related_service(dir: &std::path::Path) -> AISuggestionService<FakeProvider> {
    AISuggestionService::with_provider(db_at(dir), settings_for(|f| f.related = true), fake(Some(RELATED_OUTPUT)))
}

#[test]
fn related_drops_fabricated_titles_and_links_nothing_by_default() {
    let dir = tempfile::tempdir().unwrap();
    let s = support(dir.path());
    s.memories.create(memory_input("差旅票据整理", "报销流程与票据")).ok().unwrap();
    let task = s.tasks.create_task(task_input("整理报销票据", Some("差旅报销"))).ok().unwrap();

    let service = related_service(dir.path());
    let record = service
        .request_related(&trove::ids::format_id(task.id), &s.tasks, &s.search, &s.memories, &s.links)
        .ok()
        .unwrap()
        .expect("record");

    // The fabricated title is gone; only the real candidate survives.
    assert_eq!(record.payload.items.len(), 1);
    assert_eq!(record.payload.items[0].title, "差旅票据整理");
    assert_eq!(record.sources.len(), 1);
    assert_eq!(record.sources[0].entity_type, "memory");

    // Requesting alone must not create any link.
    assert!(s.links.list_for_entity("task", task.id).ok().unwrap().is_empty());
}

#[test]
fn related_confirm_is_idempotent_and_reject_reduces_future() {
    let dir = tempfile::tempdir().unwrap();
    let s = support(dir.path());
    s.memories.create(memory_input("差旅票据整理", "报销流程与票据")).ok().unwrap();
    let task = s.tasks.create_task(task_input("整理报销票据", Some("差旅报销"))).ok().unwrap();
    let task_id = trove::ids::format_id(task.id);

    let service = related_service(dir.path());
    let record = service
        .request_related(&task_id, &s.tasks, &s.search, &s.memories, &s.links)
        .ok()
        .unwrap()
        .expect("record");

    // Confirm the matched item → related link written, suggestion accepted.
    let created = service
        .confirm_related(
            ExtractApplyInput { suggestion_id: record.id.clone(), selected_indices: vec![0] },
            &task_id,
            &s.links,
        )
        .ok()
        .unwrap();
    assert_eq!(created.len(), 1);
    assert_eq!(created[0].link_kind, "related");
    assert_eq!(service.get(&record.id).ok().unwrap().status, SuggestionStatus::Accepted);

    // Reject flow on a fresh task: item rejected → pair filtered later.
    let task2 = s.tasks.create_task(task_input("再整理一次报销", Some("差旅报销"))).ok().unwrap();
    let task2_id = trove::ids::format_id(task2.id);
    let record2 = service
        .request_related(&task2_id, &s.tasks, &s.search, &s.memories, &s.links)
        .ok()
        .unwrap()
        .expect("record");
    let after_reject = service.reject_related_item(&record2.id, 0).ok().unwrap();
    assert!(after_reject.payload.items.is_empty(), "last item closes the record");
    assert_eq!(service.get(&record2.id).ok().unwrap().status, SuggestionStatus::Rejected);

    // Next request for the same task: rejected pair must not reappear.
    let again = related_service(dir.path());
    let result = again.request_related(&task2_id, &s.tasks, &s.search, &s.memories, &s.links).ok().unwrap();
    assert!(result.is_none(), "rejected pair filtered out → no candidates left");
}

#[test]
fn related_skips_sensitive_and_linked_candidates() {
    let dir = tempfile::tempdir().unwrap();
    let s = support(dir.path());
    let sensitive = s.memories.create(memory_input("银行卡信息", "密码相关")).ok().unwrap();
    s.memories
        .update(UpdateMemoryInput {
            id: sensitive.id,
            title: "银行卡信息".to_string(),
            body: "密码相关".to_string(),
            pinned: false,
            archived: false,
            quick_insert: false,
            trigger_word: None,
            sensitive: true,
            tag_names: vec![],
        })
        .ok()
        .unwrap();
    let task = s.tasks.create_task(task_input("银行卡信息处理", Some("密码相关"))).ok().unwrap();
    // Link the sensitive memory manually: it must be excluded twice over.
    s.links.link("task", task.id, "memory", sensitive.id, "related").ok().unwrap();

    let service = related_service(dir.path());
    let result = service
        .request_related(&trove::ids::format_id(task.id), &s.tasks, &s.search, &s.memories, &s.links)
        .ok()
        .unwrap();
    assert!(result.is_none(), "sensitive + already linked → no candidates");
}

const SUGGEST_OUTPUT: &str = r#"{"items":[
    {"title":"整理报销票据","detail":"今天 18:00 截止，建议优先处理","dueDate":null,"dueTime":null,"ambiguous":true,"sourceExcerpt":"截止:2026-08-23 18:00 优先级:高"},
    {"title":"编造的任务","detail":null,"dueDate":null,"dueTime":null,"ambiguous":true,"sourceExcerpt":"x"}
],"summary":null}"#;

fn suggest_service(dir: &std::path::Path, output: Option<&'static str>) -> AISuggestionService<FakeProvider> {
    AISuggestionService::with_provider(db_at(dir), settings_for(|f| f.suggest = true), fake(output))
}

fn create_today_task(tasks: &TaskService, title: &str) -> trove::task_model::Task {
    let mut input = task_input(title, None);
    input.priority = Some(trove::task_model::TaskPriority::High);
    input.due_date = Some(chrono::Local::now().format("%Y-%m-%d").to_string());
    input.due_time = Some("18:00".to_string());
    tasks.create_task(input).ok().unwrap()
}

#[test]
fn daily_suggest_never_touches_focus_and_drops_fabrications() {
    let dir = tempfile::tempdir().unwrap();
    let s = support(dir.path());
    let service = suggest_service(dir.path(), Some(SUGGEST_OUTPUT));
    let task = create_today_task(&s.tasks, "整理报销票据");

    let record = service.request_daily_suggest(&s.tasks).ok().unwrap().expect("record");
    // Fabricated item dropped; only the real candidate survives.
    assert_eq!(record.payload.items.len(), 1);
    assert_eq!(record.payload.items[0].title, "整理报销票据");
    assert_eq!(record.sources[0].entity_type, "task");
    assert_eq!(record.sources[0].entity_id, trove::ids::format_id(task.id));

    // No automatic focus membership — task stays outside focus.
    let today = s.tasks.today_tasks().ok().unwrap();
    assert!(today.focus.iter().all(|t| t.id != task.id));
    // And no task rows were modified (still Todo, untouched).
    let reloaded = s.tasks.get_task(task.id).ok().unwrap();
    assert_eq!(reloaded.status, trove::task_model::TaskStatus::Todo);
}

#[test]
fn daily_suggest_excludes_focus_waiting_and_skipped() {
    let dir = tempfile::tempdir().unwrap();
    let s = support(dir.path());
    let service = suggest_service(dir.path(), Some(SUGGEST_OUTPUT));

    // Focus member: excluded from candidates.
    let focused = create_today_task(&s.tasks, "已在重点");
    s.tasks.daily_focus_add(focused.id, None).ok().unwrap();
    let record = service.request_daily_suggest(&s.tasks).ok().unwrap();
    assert!(record.is_none(), "only candidate was in focus → none");

    // Skipped pair: fresh candidate skipped → filtered from later requests.
    let _task_b = create_today_task(&s.tasks, "整理报销票据");
    let rec = service.request_daily_suggest(&s.tasks).ok().unwrap().expect("record");
    let after = service.remove_daily_suggest_item(&rec.id, 0, false).ok().unwrap();
    assert!(after.payload.items.is_empty());
    // Next request: the skipped pair must not reappear → none.
    assert!(service.request_daily_suggest(&s.tasks).ok().unwrap().is_none());
}

#[test]
fn daily_suggest_closes_stale_pending_across_days() {
    let dir = tempfile::tempdir().unwrap();
    let s = support(dir.path());
    let service = suggest_service(dir.path(), None);
    // Insert a stale pending row dated yesterday.
    let conn = rusqlite::Connection::open(&service.db.path).unwrap();
    conn.execute(
        "INSERT INTO ai_suggestions (id, feature_type, source_entity_type, source_entity_id,
            payload, sources_json, status, provider, model, created_at, decided_at)
         VALUES ('stale', 'suggest', 'review', 'daily', ?1, '[]',
                 'pending', 'ollama', 'fake', '2000-01-01T00:00:00Z', NULL)",
        [r#"{"items":[],"summary":null}"#],
    )
    .unwrap();
    drop(conn);

    // A fresh request closes the stale row first.
    service.request_daily_suggest(&s.tasks).ok().unwrap();
    let stale = service.get("stale").ok().unwrap();
    assert_eq!(stale.status, SuggestionStatus::Dismissed);
}

#[test]
fn split_skips_thin_tasks_and_completed_tasks() {
    let dir = tempfile::tempdir().unwrap();
    let s = support(dir.path());
    let service = AISuggestionService::with_provider(db_at(dir.path()), settings_for(|f| f.split = true), fake(None));

    // Thin task (short title, no notes): no provider call, honest None.
    let thin = s.tasks.create_task(task_input("买", None)).ok().unwrap();
    assert!(service.request_split(&trove::ids::format_id(thin.id), &s.tasks).ok().unwrap().is_none());
    assert_eq!(service.provider.calls.load(Ordering::SeqCst), 0, "thin task must short-circuit before the provider");

    // Completed task: hard freeze error.
    let done = s.tasks.create_task(task_input("已完成的发布任务", Some("更新版本号等等"))).ok().unwrap();
    s.tasks.complete_task(done.id).ok().unwrap();
    assert!(service.request_split(&trove::ids::format_id(done.id), &s.tasks).is_err());
}

#[test]
fn stored_content_and_sources_read_back_the_same() {
    let content = SuggestionContent {
        items: vec![SuggestionItem {
            title: "交投放数据".to_string(),
            detail: Some("王琳负责".to_string()),
            due_date: Some("2026-08-25".to_string()),
            due_time: None,
            ambiguous: false,
            source_excerpt: "王琳在 10 号前提交投放数据".to_string(),
        }],
        summary: Some("小结".to_string()),
    };
    let back = content_from_json(&content_to_json(&content)).ok().unwrap();
    assert_eq!(back.items.len(), 1);
    assert_eq!(back.items[0].title, "交投放数据");
    assert_eq!(back.items[0].detail.as_deref(), Some("王琳负责"));
    assert_eq!(back.items[0].due_date.as_deref(), Some("2026-08-25"));
    assert_eq!(back.items[0].due_time, None);
    assert!(!back.items[0].ambiguous);
    assert_eq!(back.items[0].source_excerpt, "王琳在 10 号前提交投放数据");
    assert_eq!(back.summary.as_deref(), Some("小结"));

    let sources = vec![SuggestionSource {
        entity_type: "memory".to_string(),
        entity_id: "m-1".to_string(),
        text_offset: -3,
        excerpt: "x".to_string(),
    }];
    let back = sources_from_json(&sources_to_json(&sources)).unwrap();
    assert_eq!(back.len(), 1);
    assert_eq!(back[0].entity_id, "m-1");
    assert_eq!(back[0].entity_type, "memory");
    assert_eq!(back[0].text_offset, -3);
    assert_eq!(back[0].excerpt, "x");
}

#[test]
fn picked_items_never_get_guessed_dates() {
    let item = |ambiguous: bool, date: Option<&str>, time: Option<&str>| SuggestionItem {
        title: "确认合同".to_string(),
        detail: Some("找老张".to_string()),
        due_date: date.map(|d| d.to_string()),
        due_time: time.map(|t| t.to_string()),
        ambiguous,
        source_excerpt: "找老张确认合同".to_string(),
    };
    let sure = trove::ai_suggestions::task_input_for_item(&item(false, Some("2026-08-25"), Some("10:00")), "m1");
    assert_eq!(sure.due_date.as_deref(), Some("2026-08-25"));
    assert_eq!(sure.due_time.as_deref(), Some("10:00"));
    assert_eq!(sure.notes.as_deref(), Some("找老张\n来源：AI 从记忆《m1》提取；原文：找老张确认合同"));
    let vague = trove::ai_suggestions::task_input_for_item(&item(true, Some("2026-08-25"), Some("10:00")), "m1");
    assert_eq!(vague.due_date, None);
    assert_eq!(vague.due_time, None);
    let bad = trove::ai_suggestions::task_input_for_item(&item(false, Some("下周"), Some("10:00")), "m1");
    assert_eq!(bad.due_date, None);
    assert_eq!(bad.due_time, None);
}
