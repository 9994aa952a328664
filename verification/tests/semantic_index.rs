use trove::ai_model::AIMode;
use trove::db::Database;
use trove::db::SqlValue;
use trove::search::SearchService;
use trove::semantic_index::{
    corpus_query, placeholders, status_from, EmbeddingProvider, SemanticConfig, SemanticExclusions,
    SemanticIndexService,
};
use trove::task_model::CreateTaskInput;
use trove::tasks::TaskService;

/// Texts that start with the same character get the same unit vector.
struct FixedEmbedProvider;

impl EmbeddingProvider for FixedEmbedProvider {
    fn embed(&self, texts: &Vec<String>) -> Option<Vec<Vec<u8>>> {
        Some(
            texts
                .iter()
                .map(|t| {
                    let mut v = vec![0.0f32; 8];
                    let idx = t.chars().next().map(|c| (c as usize) % 8).unwrap_or(0);
                    v[idx] = 1.0;
                    v.iter().flat_map(|f| f.to_le_bytes()).collect()
                })
                .collect(),
        )
    }
}

fn no_exclusions() -> SemanticExclusions {
    SemanticExclusions { list_ids: vec![], tag_ids: vec![], clipboard_types: vec![] }
}

fn config(model: &str, search: bool, exclusions: SemanticExclusions) -> SemanticConfig {
    SemanticConfig {
        mode: AIMode::Ollama,
        embedding_model: model.to_string(),
        semantic_search: search,
        exclusions,
    }
}

fn setup(dir: &std::path::Path) -> (SemanticIndexService, TaskService) {
    let db = Database::open(dir.join("t.db").to_str().unwrap()).ok().unwrap();
    let tasks = TaskService::new(db.clone());
    tasks.ensure_seed_data().ok().unwrap();
    (SemanticIndexService::new(db), tasks)
}

fn task(title: &str, notes: Option<&str>) -> CreateTaskInput {
    CreateTaskInput {
        title: title.to_string(),
        notes: notes.map(|n| n.to_string()),
        priority: None,
        list_id: None,
        due_date: None,
        due_time: None,
        tag_names: None,
    }
}

#[test]
fn rebuild_is_idempotent_and_clear_empties() {
    let dir = tempfile::tempdir().unwrap();
    let (service, tasks) = setup(dir.path());
    tasks.create_task(task("差旅票据整理", Some("报销流程"))).ok().unwrap();
    SearchService::new(service.db_for_test()).rebuild_all().ok().unwrap();
    let cfg = config("fake-embed", true, no_exclusions());
    let first = service.rebuild(&cfg, &FixedEmbedProvider).ok().unwrap();
    assert!(first.rows > 0);
    let second = service.rebuild(&cfg, &FixedEmbedProvider).ok().unwrap();
    assert_eq!(first.rows, second.rows, "rebuild is replace-all + idempotent");
    assert_eq!(second.model.as_deref(), Some("fake-embed"));

    service.clear().ok().unwrap();
    assert_eq!(service.status(&cfg).ok().unwrap().rows, 0);
}

#[test]
fn search_finds_semantically_equal_text_and_degrades_when_off() {
    let dir = tempfile::tempdir().unwrap();
    let (service, tasks) = setup(dir.path());
    let t = tasks.create_task(task("差旅票据整理", None)).ok().unwrap();
    SearchService::new(service.db_for_test()).rebuild_all().ok().unwrap();
    let cfg = config("fake-embed", true, no_exclusions());
    service.rebuild(&cfg, &FixedEmbedProvider).ok().unwrap();

    let candidates = service.search_candidates(&cfg, "差旅票据整理").ok().unwrap();
    let hit = candidates.iter().find(|c| c.entity_id == trove::ids::format_id(t.id)).unwrap();
    assert_eq!(hit.entity_type, "task");
    assert_eq!(hit.title, "差旅票据整理");
    assert_eq!(hit.embedding.len(), 32);

    let off = config("fake-embed", false, no_exclusions());
    assert!(service.search_candidates(&off, "差旅票据整理").ok().unwrap().is_empty());
    assert!(service.search_candidates(&cfg, "   ").ok().unwrap().is_empty());
}

#[test]
fn exclusions_keep_list_out_of_index() {
    let dir = tempfile::tempdir().unwrap();
    let (service, tasks) = setup(dir.path());
    let t = tasks.create_task(task("排除我", None)).ok().unwrap();
    let list_id = trove::ids::format_id(tasks.get_task(t.id).ok().unwrap().list_id);
    let cfg = config(
        "fake-embed",
        true,
        SemanticExclusions { list_ids: vec![list_id], tag_ids: vec![], clipboard_types: vec![] },
    );
    SearchService::new(service.db_for_test()).rebuild_all().ok().unwrap();
    service.rebuild(&cfg, &FixedEmbedProvider).ok().unwrap();
    let candidates = service.search_candidates(&cfg, "排除我").ok().unwrap();
    assert!(
        candidates.iter().all(|c| c.entity_id != trove::ids::format_id(t.id)),
        "excluded list task must not surface"
    );
}

#[test]
fn model_mismatch_degrades_to_empty() {
    let dir = tempfile::tempdir().unwrap();
    let (service, tasks) = setup(dir.path());
    tasks.create_task(task("任意任务", None)).ok().unwrap();
    SearchService::new(service.db_for_test()).rebuild_all().ok().unwrap();
    service.rebuild(&config("fake-embed", true, no_exclusions()), &FixedEmbedProvider).ok().unwrap();

    let other = config("another-model", true, no_exclusions());
    assert_eq!(service.status(&other).ok().unwrap().model_mismatch, true);
    assert!(service.search_candidates(&other, "任意").ok().unwrap().is_empty());
}

#[test]
fn rebuild_without_model_is_rejected() {
    let dir = tempfile::tempdir().unwrap();
    let (service, _tasks) = setup(dir.path());
    let off = SemanticConfig {
        mode: AIMode::Off,
        embedding_model: String::new(),
        semantic_search: false,
        exclusions: no_exclusions(),
    };
    assert!(service.rebuild(&off, &FixedEmbedProvider).is_err(), "off mode + no model → validation error");
    let blank = config("   ", true, no_exclusions());
    assert!(service.rebuild(&blank, &FixedEmbedProvider).is_err());
}

#[test]
fn placeholders_and_corpus_query_text() {
    assert_eq!(placeholders(0), "");
    assert_eq!(placeholders(1), "?");
    assert_eq!(placeholders(3), "?, ?, ?");
    let ex = SemanticExclusions {
        list_ids: vec!["l1".to_string(), "l2".to_string()],
        tag_ids: vec![],
        clipboard_types: vec!["image".to_string()],
    };
    let (sql, params) = corpus_query(&ex, 20000);
    assert!(sql.contains("t.list_id IN (?, ?)"));
    assert!(!sql.contains("memory_tags"));
    assert!(sql.contains("c.kind IN (?)"));
    assert!(sql.ends_with("ORDER BY updated_at DESC LIMIT ?"));
    assert_eq!(params.len(), 4);
    assert!(matches!(&params[0], SqlValue::Text(s) if s == "l1"));
    assert!(matches!(&params[2], SqlValue::Text(s) if s == "image"));
    assert!(matches!(params[3], SqlValue::Integer(20000)));
}

#[test]
fn status_flags_cap_and_mismatch() {
    let s = status_from(3, Some("a".to_string()), None, 20001, "b".to_string());
    assert!(s.capped);
    assert!(s.model_mismatch);
    assert_eq!(s.configured_model.as_deref(), Some("b"));
    let t = status_from(0, None, None, 5, String::new());
    assert!(!t.capped);
    assert!(!t.model_mismatch);
    assert_eq!(t.configured_model, None);
}
