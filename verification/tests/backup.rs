use trove::backup::{
    backup_file_name, check_backup_name, quick_check_verdict, reason_from_file_name,
    rotation_victims, sort_newest_first, BackupInfo, BackupService,
};
use trove::db::Database;
use trove::tasks::TaskService;

fn info(name: &str, created_at: &str) -> BackupInfo {
    BackupInfo {
        file_name: name.to_string(),
        path: format!("/b/{name}"),
        size_bytes: 1,
        created_at: created_at.to_string(),
        reason: reason_from_file_name(name),
    }
}

fn setup(dir: &std::path::Path) -> (Database, BackupService) {
    let db = Database::open(dir.join("workbench.db").to_str().unwrap()).ok().unwrap();
    TaskService::new(db.clone()).ensure_seed_data().ok().unwrap();
    let backup_dir = tempfile::Builder::new().prefix("backups").tempdir_in(dir).unwrap().into_path();
    let svc = BackupService::new(db.clone(), backup_dir.to_str().unwrap().to_string());
    (db, svc)
}

#[test]
fn create_list_restore_roundtrip() {
    let dir = tempfile::tempdir().unwrap();
    let (db, mut svc) = setup(dir.path());
    let conn = rusqlite::Connection::open(&db.path).unwrap();
    conn.execute(
        "INSERT INTO smoke_notes (id, body, created_at, updated_at, revision, deleted_at)
         VALUES ('n1', 'hello-backup', 't', 't', 1, NULL)",
        [],
    )
    .unwrap();
    let info = svc.create("manual").ok().unwrap();
    assert!(std::path::Path::new(&info.path).exists());
    assert!(info.size_bytes > 0);
    assert_eq!(info.reason, "manual");
    // The stamp itself holds a `-`: the name reads back with its date.
    assert!(reason_from_file_name(&info.file_name).starts_with("manual-"));

    conn.execute("DELETE FROM smoke_notes", []).unwrap();
    drop(conn);
    svc.restore(&info.file_name).ok().unwrap();
    let body: String = rusqlite::Connection::open(&db.path)
        .unwrap()
        .query_row("SELECT body FROM smoke_notes WHERE id = 'n1'", [], |row| row.get(0))
        .unwrap();
    assert_eq!(body, "hello-backup");
    assert!(svc.last_error.is_none());
}

#[test]
fn restore_rejects_corrupt_backup() {
    let dir = tempfile::tempdir().unwrap();
    let (db, mut svc) = setup(dir.path());
    rusqlite::Connection::open(&db.path)
        .unwrap()
        .execute(
            "INSERT INTO smoke_notes (id, body, created_at, updated_at, revision, deleted_at)
             VALUES ('keep-me', 'intact', 't', 't', 1, NULL)",
            [],
        )
        .unwrap();
    let corrupt = std::path::Path::new(svc.backup_dir()).join("workbench-corrupt-20260101-000000.db");
    let mut f = tempfile::NamedTempFile::new_in(svc.backup_dir()).unwrap();
    std::io::Write::write_all(&mut f, &[0xDE, 0xAD, 0xBE, 0xEF, 0x00, 0x01, 0x02, 0x03]).unwrap();
    f.persist(&corrupt).unwrap();
    let r = svc.restore("workbench-corrupt-20260101-000000.db");
    assert!(matches!(r, Err(trove::domain::DomainError::Validation(_))));
    let conn = rusqlite::Connection::open(&db.path).unwrap();
    let count: i64 = conn.query_row("SELECT COUNT(*) FROM smoke_notes", [], |row| row.get(0)).unwrap();
    assert_eq!(count, 1);
}

#[test]
fn backup_names_are_safe_and_read_back() {
    assert_eq!(backup_file_name("pre restore/x", "20260101-000000"), "workbench-pre-restore-x-20260101-000000.db");
    assert_eq!(reason_from_file_name("workbench-pre-restore-20260101-000000.db"), "pre-restore-20260101");
    assert_eq!(reason_from_file_name("workbench-manual.db"), "backup");
    assert_eq!(reason_from_file_name("other-manual-1.db"), "backup");
    assert!(check_backup_name("workbench-a-1.db").is_ok());
    assert!(check_backup_name("../evil.db").is_err());
    assert!(check_backup_name("dir/x.db").is_err());
    assert!(check_backup_name("x.sqlite").is_err());
    assert!(quick_check_verdict("ok").is_ok());
    assert!(quick_check_verdict("*** in database main ***").is_err());
}

#[test]
fn missing_backup_is_not_found() {
    let dir = tempfile::tempdir().unwrap();
    let (_db, mut svc) = setup(dir.path());
    assert!(matches!(
        svc.restore("workbench-none-20260101-000000.db"),
        Err(trove::domain::DomainError::NotFound(_))
    ));
}

#[test]
fn listing_is_sorted_newest_first_and_rotation_keeps_the_newest() {
    let items = vec![
        info("workbench-a-1.db", "2026-01-01T00:00:00"),
        info("workbench-b-1.db", "2026-03-01T00:00:00"),
        info("workbench-c-1.db", "2026-02-01T00:00:00"),
    ];
    let sorted = sort_newest_first(items);
    let names: Vec<&str> = sorted.iter().map(|b| b.file_name.as_str()).collect();
    assert_eq!(names, vec!["workbench-b-1.db", "workbench-c-1.db", "workbench-a-1.db"]);
    let victims = rotation_victims(sorted, 0);
    let names: Vec<&str> = victims.iter().map(|b| b.file_name.as_str()).collect();
    assert_eq!(names, vec!["workbench-c-1.db", "workbench-a-1.db"]);

    let dir = tempfile::tempdir().unwrap();
    let (_db, svc) = setup(dir.path());
    let status = svc.status(vec![
        info("workbench-a-1.db", "2026-01-01T00:00:00"),
        info("workbench-b-1.db", "2026-03-01T00:00:00"),
    ]);
    assert_eq!(status.count, 2);
    assert_eq!(status.latest.unwrap().file_name, "workbench-b-1.db");
    assert!(svc.status(vec![]).latest.is_none());
}
