use trove::clipboard::{
    clipboard_filters, memory_title_from, normalize_newlines, title_from, ClipboardKind, ClipboardQuery,
    ClipboardService, ClipboardSettings,
};
use trove::db::SqlValue;
use trove::db::Database;
use trove::tasks::TaskService;

fn svc(dir: &std::path::Path) -> ClipboardService {
    let db = Database::open(dir.join("c.db").to_str().unwrap()).ok().unwrap();
    TaskService::new(db.clone()).ensure_seed_data().ok().unwrap();
    ClipboardService::new(db, dir.join("assets").to_str().unwrap().to_string())
}

fn settings() -> ClipboardSettings {
    ClipboardSettings {
        capture_enabled: true,
        excluded_apps: vec!["1Password".to_string()],
        retention_days: 30,
        max_items: 500,
    }
}

#[test]
fn adjacent_dedupe_and_favorite_survives_clear() {
    let dir = tempfile::tempdir().unwrap();
    let mut svc = svc(dir.path());
    let st = settings();
    let a = svc.capture_text(&st, "hello".to_string(), None).ok().unwrap().unwrap();
    let b = svc.capture_text(&st, "hello".to_string(), None).ok().unwrap().unwrap();
    assert_eq!(a.id, b.id);
    svc.set_favorite(a.id, true).ok().unwrap();
    svc.capture_text(&st, "other".to_string(), None).ok().unwrap();
    let cleared = svc.clear_non_favorites().ok().unwrap();
    assert!(cleared >= 1);
    assert!(svc.get(a.id).is_ok());
}

#[test]
fn refused_captures_store_nothing() {
    let dir = tempfile::tempdir().unwrap();
    let mut svc = svc(dir.path());
    let mut st = settings();
    assert!(svc.capture_text(&st, "   \n".to_string(), None).ok().unwrap().is_none());
    assert!(svc
        .capture_text(&st, "secret".to_string(), Some("1Password 8".to_string()))
        .ok()
        .unwrap()
        .is_none());
    st.capture_enabled = false;
    assert!(svc.capture_text(&st, "kept out".to_string(), None).ok().unwrap().is_none());
}

#[test]
fn crlf_and_lf_copies_hash_alike() {
    assert_eq!(normalize_newlines("a\r\nb\r\n"), "a\nb\n");
    assert_eq!(
        ClipboardService::hash_content("a\r\nb"),
        ClipboardService::hash_content("a\nb")
    );
    assert_eq!(
        ClipboardService::hash_content(""),
        "e3b0c44298fc1c149afbf4c8996fb92427ae41e4649b934ca495991b7852b855"
    );
}

#[test]
fn titles_come_from_the_first_fitting_line() {
    assert_eq!(title_from("first\r\nsecond", "fb"), "first");
    assert_eq!(title_from("", "fallback"), "fallback");
    assert_eq!(title_from("ends with cr\r", "fb"), "ends with cr\r");
    assert_eq!(title_from(&"x".repeat(100), "fb"), "x".repeat(80));
    assert_eq!(memory_title_from("[来自图片识别]\nreal title\nmore", "fb"), "real title");
    assert_eq!(memory_title_from("[a]\n[b]\n", "fb"), "fb");
    assert_eq!(memory_title_from("[a]\n\nafter blank", "fb"), "");
}

#[test]
fn suppressed_text_is_not_captured_once() {
    let dir = tempfile::tempdir().unwrap();
    let mut svc = svc(dir.path());
    let st = settings();
    svc.suppress_next_text("written by the workbench");
    assert!(svc.capture_text(&st, "written by the workbench".to_string(), None).ok().unwrap().is_none());
    assert!(svc.capture_text(&st, "something else".to_string(), None).ok().unwrap().is_some());
    svc.suppress_next(&ClipboardService::hash_content("x\r\ny"));
    assert!(svc.capture_text(&st, "x\ny".to_string(), None).ok().unwrap().is_none());
}

#[test]
fn watcher_captures_only_changes_and_enforces_every_150_polls() {
    let mut w = trove::clipboard::ClipboardWatch::new();
    assert!(w.see_text("h1".to_string()));
    assert!(!w.see_text("h1".to_string()));
    assert!(w.see_text("h2".to_string()));
    assert!(w.see_image("i1".to_string()));
    assert!(!w.see_image("i1".to_string()));
    let mut fired = 0;
    for _ in 0..300 {
        if w.tick() {
            fired += 1;
        }
    }
    assert_eq!(fired, 2);
}

fn history_query() -> ClipboardQuery {
    ClipboardQuery {
        favorites_only: None,
        kind: None,
        search: None,
        source_app: None,
        date_from: None,
        date_to: None,
        limit: None,
        offset: None,
    }
}

#[test]
fn history_query_filters_favorites_and_literal_text() {
    let dir = tempfile::tempdir().unwrap();
    let mut svc = svc(dir.path());
    let st = settings();
    let a = svc.capture_text(&st, "折扣 50% off".to_string(), Some("Safari".to_string())).ok().unwrap().unwrap();
    svc.capture_text(&st, "折扣 500 off".to_string(), None).ok().unwrap();
    svc.capture_text(&st, "third".to_string(), None).ok().unwrap();
    svc.set_favorite(a.id, true).ok().unwrap();
    let all = svc.query(history_query()).ok().unwrap();
    assert_eq!(all.total, 3);
    assert_eq!(all.items[0].id, a.id);
    let mut q = history_query();
    q.search = Some(" 50% ".to_string());
    let found = svc.query(q).ok().unwrap();
    assert_eq!(found.total, 1);
    assert_eq!(found.items[0].id, a.id);
    let mut q = history_query();
    q.favorites_only = Some(true);
    assert_eq!(svc.query(q).ok().unwrap().total, 1);
    let mut q = history_query();
    q.source_app = Some("  Safari ".to_string());
    assert_eq!(svc.query(q).ok().unwrap().total, 1);
    let mut q = history_query();
    q.limit = Some(2);
    q.offset = Some(1);
    let page = svc.query(q).ok().unwrap();
    assert_eq!((page.items.len(), page.offset, page.has_more), (2, 1, false));
}

#[test]
fn history_filters_bind_in_order() {
    let mut q = history_query();
    q.kind = Some(ClipboardKind::Image);
    q.source_app = Some(" Notes ".to_string());
    q.date_to = Some("2026-01-31".to_string());
    let (sql, params) = clipboard_filters(&q);
    assert_eq!(sql, " AND c.kind = ? AND c.source_app = ? AND date(c.created_at) <= date(?)");
    let texts: Vec<String> = params
        .iter()
        .map(|v| match v {
            SqlValue::Text(t) => t.clone(),
            _ => panic!("expected text"),
        })
        .collect();
    assert_eq!(texts, vec!["image".to_string(), "Notes".to_string(), "2026-01-31".to_string()]);
}
