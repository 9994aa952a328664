use trove::assets::{thumb_data_uri, AssetStore};
use trove::db::Database;
use trove::ids::format_id;

fn store(dir: &std::path::Path) -> AssetStore {
    let db = Database::open(dir.join("a.db").to_str().unwrap()).ok().unwrap();
    AssetStore::new(db, dir.join("assets").to_str().unwrap().to_string())
}

fn conn(dir: &std::path::Path) -> rusqlite::Connection {
    rusqlite::Connection::open(dir.join("a.db")).unwrap()
}

/// Seeds an image asset row; returns its id and where its file would be.
fn seed_asset(dir: &std::path::Path, id: u128, created_at: &str) -> (u128, String) {
    let rel = format!("images/{id}.png");
    let abs = format!("{}/{}", dir.join("assets").to_str().unwrap(), rel);
    conn(dir)
        .execute(
            "INSERT INTO assets (id, kind, content_hash, relative_path, thumb_path, mime_type, byte_size,
                width, height, created_at, updated_at, revision, deleted_at)
             VALUES (?1, 'image', ?2, ?3, NULL, 'image/png', 16, 2, 2, ?4, ?4, 1, NULL)",
            (format_id(id), format!("h{id}"), rel, created_at.to_string()),
        )
        .unwrap();
    (id, abs)
}

fn collect(store: &AssetStore) -> (trove::assets::GcSummary, Vec<String>) {
    store.collect_garbage(30).ok().unwrap()
}

#[test]
fn gc_removes_orphan_asset_past_retention() {
    let dir = tempfile::tempdir().unwrap();
    let store = store(dir.path());
    let (id, abs) = seed_asset(dir.path(), 11, "2000-01-01T00:00:00");
    let (summary, files) = collect(&store);
    assert_eq!(summary.removed, 1);
    assert!(summary.freed_bytes > 0);
    assert!(store.get(id).is_err());
    assert_eq!(files, vec![abs]);
}

#[test]
fn gc_keeps_asset_within_retention() {
    let dir = tempfile::tempdir().unwrap();
    let store = store(dir.path());
    let now = chrono::Local::now().format("%Y-%m-%dT%H:%M:%S").to_string();
    let (id, _) = seed_asset(dir.path(), 12, &now);
    let (summary, files) = collect(&store);
    assert!(files.is_empty());
    assert_eq!(summary.removed, 0);
    assert!(store.get(id).is_ok());
}

#[test]
fn gc_keeps_asset_referenced_by_entity_link() {
    let dir = tempfile::tempdir().unwrap();
    let store = store(dir.path());
    let (id, _) = seed_asset(dir.path(), 13, "2000-01-01T00:00:00");
    conn(dir.path())
        .execute(
            "INSERT INTO entity_links
                (id, source_type, source_id, target_type, target_id, link_kind, created_at)
             VALUES ('l1', 'memory', 'm1', 'asset', ?1, 'attachment', '2026-01-01T00:00:00')",
            [format_id(id)],
        )
        .unwrap();
    let (summary, files) = collect(&store);
    assert!(files.is_empty());
    assert_eq!(summary.removed, 0);
    assert!(store.get(id).is_ok());
}

#[test]
fn gc_keeps_asset_referenced_by_active_clipboard_item() {
    let dir = tempfile::tempdir().unwrap();
    let store = store(dir.path());
    let (id, _) = seed_asset(dir.path(), 14, "2000-01-01T00:00:00");
    conn(dir.path())
        .execute(
            "INSERT INTO clipboard_items
                (id, content, content_hash, source_app, favorite, use_count, last_used_at,
                 created_at, updated_at, revision, deleted_at, kind, asset_id)
             VALUES ('c1', '[图片]', 'h', NULL, 0, 0, NULL,
                     '2026-01-01T00:00:00', '2026-01-01T00:00:00', 1, NULL, 'image', ?1)",
            [format_id(id)],
        )
        .unwrap();
    let (summary, files) = collect(&store);
    assert!(files.is_empty());
    assert_eq!(summary.removed, 0);
    assert!(store.get(id).is_ok());
}

#[test]
fn thumbnail_bytes_become_a_png_data_uri() {
    assert_eq!(thumb_data_uri(&[]), None);
    assert_eq!(thumb_data_uri(b"hello"), Some("data:image/png;base64,aGVsbG8=".to_string()));
    assert_eq!(thumb_data_uri(&[0xff, 0xfe]), Some("data:image/png;base64,//4=".to_string()));
}
