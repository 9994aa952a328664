use trove::db::Database;
use trove::links::LINK_KIND_MENTION;
use trove::memories::{CreateMemoryInput, MemoryQuery, MemoryService};
use trove::search::{SearchEntityType, SearchQuery};
use trove::tasks::TaskService;

fn open(dir: &std::path::Path) -> (Database, MemoryService) {
    let db = Database::open(dir.join("m.db").to_str().unwrap()).ok().unwrap();
    let svc = MemoryService::new(db.clone());
    (db, svc)
}

fn memory(title: &str, body: Option<&str>) -> CreateMemoryInput {
    CreateMemoryInput {
        title: title.to_string(),
        body: body.map(|b| b.to_string()),
        pinned: None,
        quick_insert: None,
        trigger_word: None,
        tag_names: None,
    }
}

fn query(search: Option<&str>, limit: Option<i64>, offset: Option<i64>) -> MemoryQuery {
    MemoryQuery {
        search: search.map(|s| s.to_string()),
        tag_id: None,
        pinned_only: None,
        quick_insert_only: None,
        include_archived: None,
        limit,
        offset,
    }
}

#[test]
fn create_and_convert_keeps_memory() {
    let dir = tempfile::tempdir().unwrap();
    let (db, svc) = open(dir.path());
    let tasks = TaskService::new(db);
    tasks.ensure_seed_data().ok().unwrap();
    let mut input = memory("API Key 备忘", Some("https://example.com/docs"));
    input.pinned = Some(true);
    input.tag_names = Some(vec!["work".to_string()]);
    let m = svc.create(input).ok().unwrap();
    assert!(m.pinned);
    let converted = svc.convert_to_task(m.id).ok().unwrap();
    assert_eq!(converted.memory.id, m.id);
    let still = svc.get(m.id).ok().unwrap();
    assert_eq!(still.title, "API Key 备忘");
    let task = tasks.get_task(converted.task_id).ok().unwrap();
    assert_eq!(task.title, "API Key 备忘");

    let links = svc.links.list_outgoing("memory", m.id).ok().unwrap();
    assert_eq!(links.len(), 1);
    assert_eq!(links[0].link_kind, "converted_to");
    assert_eq!(links[0].target_type, "task");
    assert_eq!(links[0].target_id, converted.task_id);
}

#[test]
fn query_search_matches_title_and_body() {
    let dir = tempfile::tempdir().unwrap();
    let (_db, svc) = open(dir.path());
    let alpha = svc.create(memory("Alpha 备忘", Some("https://example.com/docs"))).ok().unwrap();
    let beta = svc.create(memory("Beta 备忘", Some("包含 keyword 的正文"))).ok().unwrap();
    svc.create(memory("Gamma", Some("无关内容"))).ok().unwrap();

    let by_title = svc.query(query(Some("Alpha"), None, None)).ok().unwrap();
    assert_eq!(by_title.items.iter().map(|m| m.id).collect::<Vec<_>>(), vec![alpha.id]);
    let by_body = svc.query(query(Some("keyword"), None, None)).ok().unwrap();
    assert_eq!(by_body.items.iter().map(|m| m.id).collect::<Vec<_>>(), vec![beta.id]);
    let blank = svc.query(query(Some("   "), None, None)).ok().unwrap();
    assert_eq!(blank.items.len(), 3);
    assert_eq!(blank.total, 3);
    assert!(!blank.has_more);
    let none = svc.query(query(Some("不存在"), None, None)).ok().unwrap();
    assert!(none.items.is_empty());
}

#[test]
fn search_index_includes_trigger_word() {
    let dir = tempfile::tempdir().unwrap();
    let (db, svc) = open(dir.path());
    let mut input = memory("会议模板", Some("会议纪要模板正文"));
    input.quick_insert = Some(true);
    input.trigger_word = Some("meeting".to_string());
    svc.create(input).ok().unwrap();

    let results = svc
        .search
        .query(SearchQuery {
            query: "meeting".to_string(),
            types: Some(vec![SearchEntityType::Memory]),
            limit: Some(10),
        })
        .ok()
        .unwrap();
    assert!(results.memories.iter().any(|h| h.title == "会议模板"));

    let conn = rusqlite::Connection::open(&db.path).unwrap();
    let stored: String = conn
        .query_row(
            "SELECT body FROM search_documents WHERE entity_type = 'memory'",
            [],
            |row| row.get(0),
        )
        .unwrap();
    assert!(stored.contains("meeting"));
}

#[test]
fn query_search_escapes_wildcards() {
    let dir = tempfile::tempdir().unwrap();
    let (_db, svc) = open(dir.path());
    svc.create(memory("折扣 50% off", Some("下划线 100_200"))).ok().unwrap();
    svc.create(memory("普通标题", Some("不相关内容"))).ok().unwrap();
    let percent = svc.query(query(Some("50%"), None, None)).ok().unwrap();
    assert_eq!(percent.items.len(), 1);
    assert_eq!(percent.items[0].title, "折扣 50% off");
    let underscore = svc.query(query(Some("100_200"), None, None)).ok().unwrap();
    assert_eq!(underscore.items.len(), 1);
    assert_eq!(underscore.items[0].body, "下划线 100_200");
}

#[test]
fn query_pagination_returns_total_and_has_more() {
    let dir = tempfile::tempdir().unwrap();
    let (_db, svc) = open(dir.path());
    for i in 0..5 {
        svc.create(memory(&format!("Item {i}"), None)).ok().unwrap();
    }
    let page1 = svc.query(query(None, Some(2), Some(0))).ok().unwrap();
    assert_eq!(page1.items.len(), 2);
    assert_eq!(page1.total, 5);
    assert!(page1.has_more);
    let page3 = svc.query(query(None, Some(2), Some(4))).ok().unwrap();
    assert_eq!(page3.items.len(), 1);
    assert!(!page3.has_more);
}

#[test]
fn wikilink_creates_mention_and_backlink() {
    let dir = tempfile::tempdir().unwrap();
    let (_db, svc) = open(dir.path());
    let mut t = memory("Alpha", Some("target body"));
    t.quick_insert = Some(true);
    t.trigger_word = Some("alpha".to_string());
    let target = svc.create(t).ok().unwrap();
    let source = svc.create(memory("Source", Some("see [[Alpha]] here"))).ok().unwrap();

    let links = svc.links.list_outgoing("memory", source.id).ok().unwrap();
    assert_eq!(links.len(), 1);
    assert_eq!(links[0].link_kind, LINK_KIND_MENTION);
    assert_eq!(links[0].target_id, target.id);

    let updated = svc.get(target.id).ok().unwrap();
    assert_eq!(updated.mention_use_count, 1);
    let backlinks = svc.backlinks(target.id).ok().unwrap();
    assert_eq!(backlinks.len(), 1);
    assert_eq!(backlinks[0].memory_id, source.id);
}

#[test]
fn blank_memory_title_is_refused() {
    let dir = tempfile::tempdir().unwrap();
    let (_db, svc) = open(dir.path());
    assert!(matches!(
        svc.create(memory("  ", None)),
        Err(trove::domain::DomainError::Validation(_))
    ));
}
