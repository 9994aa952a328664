use trove::db::Database;
use trove::search::{
    clip, document_text, escape_fts, normalize_text, search_limit, SearchEntityType, SearchQuery,
    SearchService,
};

#[test]
fn upsert_and_search() {
    let dir = tempfile::tempdir().unwrap();
    let db = Database::open(dir.path().join("s.db").to_str().unwrap()).ok().unwrap();
    let svc = SearchService::new(db);
    let id = uuid::Uuid::new_v4().as_u128();
    svc.upsert(SearchEntityType::Memory, id, "会议纪要", "讨论搜索与记忆模块").ok().unwrap();
    let results = svc
        .query(SearchQuery { query: "记忆".to_string(), types: None, limit: Some(10) })
        .ok()
        .unwrap();
    let found = results.memories.iter().any(|h| h.entity_id == id)
        || svc
            .query(SearchQuery {
                query: "搜索".to_string(),
                types: Some(vec![SearchEntityType::Memory]),
                limit: Some(10),
            })
            .ok()
            .unwrap()
            .memories
            .iter()
            .any(|h| h.entity_id == id);
    assert!(found);
}

#[test]
fn removed_document_is_no_longer_found() {
    let dir = tempfile::tempdir().unwrap();
    let db = Database::open(dir.path().join("s.db").to_str().unwrap()).ok().unwrap();
    let svc = SearchService::new(db);
    let id = uuid::Uuid::new_v4().as_u128();
    svc.upsert(SearchEntityType::Task, id, "quarterly report", "numbers").ok().unwrap();
    let q = || SearchQuery {
        query: "quarterly".to_string(),
        types: Some(vec![SearchEntityType::Task]),
        limit: None,
    };
    assert!(svc.query(q()).ok().unwrap().tasks.iter().any(|h| h.entity_id == id));
    svc.remove(SearchEntityType::Task, id).ok().unwrap();
    assert!(!svc.query(q()).ok().unwrap().tasks.iter().any(|h| h.entity_id == id));
}

#[test]
fn overlong_query_is_a_validation_error() {
    let dir = tempfile::tempdir().unwrap();
    let db = Database::open(dir.path().join("s.db").to_str().unwrap()).ok().unwrap();
    let svc = SearchService::new(db);
    let r = svc.query(SearchQuery { query: "x".repeat(201), types: None, limit: None });
    assert!(matches!(r, Err(trove::domain::DomainError::Validation(_))));
    let r = svc.query(SearchQuery { query: "x".repeat(200), types: None, limit: None });
    assert!(r.is_ok());
}

#[test]
fn text_helpers_give_exact_values() {
    assert_eq!(normalize_text("  Hello \t  WORLD\n"), "hello world");
    assert_eq!(clip("abcdef", 3), "abc…");
    assert_eq!(clip("abc", 3), "abc");
    assert_eq!(escape_fts(" say \"hi\" "), "\"say  hi\"");
    assert_eq!(document_text("t", "b"), "t\nb");
    assert_eq!(search_limit(None), 40);
    assert_eq!(search_limit(Some(0)), 1);
    assert_eq!(search_limit(Some(1000)), 100);
    assert_eq!(SearchEntityType::Memory.as_str(), "memory");
    assert!(SearchEntityType::parse("note").is_err());
}
