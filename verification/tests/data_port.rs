use trove::data_port::{hex_encode, json_to_sql, read_export, DataPortService};
use trove::db::{Database, SqlValue};
use trove::json::JsonValue;
use trove::tasks::TaskService;

fn open(dir: &std::path::Path, name: &str) -> Database {
    let db = Database::open(dir.join(name).to_str().unwrap()).ok().unwrap();
    TaskService::new(db.clone()).ensure_seed_data().ok().unwrap();
    db
}

#[test]
fn export_import_roundtrip() {
    let dir = tempfile::tempdir().unwrap();
    let db = open(dir.path(), "a.db");
    let port = DataPortService::new(db.clone());
    rusqlite::Connection::open(&db.path)
        .unwrap()
        .execute(
            "INSERT INTO smoke_notes (id, body, created_at, updated_at, revision, deleted_at)
             VALUES ('e1', 'export-me', 't', 't', 1, NULL)",
            [],
        )
        .unwrap();
    let json = port.export_json("0.1.0").ok().unwrap();
    assert!(json.contains("workbench-export"));

    let db2 = open(dir.path(), "b.db");
    let port2 = DataPortService::new(db2.clone());
    let result = port2.import_json(&json).ok().unwrap();
    assert!(result.rows > 0);
    let body: String = rusqlite::Connection::open(&db2.path)
        .unwrap()
        .query_row("SELECT body FROM smoke_notes WHERE id = 'e1'", [], |row| row.get(0))
        .unwrap();
    assert_eq!(body, "export-me");
}

#[test]
fn foreign_documents_are_refused() {
    assert!(read_export("not json").is_err());
    assert!(read_export("{\"format\":\"other\",\"version\":1,\"exportedAt\":\"t\",\"schemaVersion\":1,\"appVersion\":\"x\",\"data\":{}}").is_err());
    assert!(read_export("{\"format\":\"workbench-export\",\"version\":2,\"exportedAt\":\"t\",\"schemaVersion\":1,\"appVersion\":\"x\",\"data\":{}}").is_err());
    assert!(read_export("{\"format\":\"workbench-export\",\"version\":1,\"exportedAt\":\"t\",\"schemaVersion\":1,\"appVersion\":\"x\",\"data\":{}}").is_ok());
    let dir = tempfile::tempdir().unwrap();
    let port = DataPortService::new(open(dir.path(), "c.db"));
    let bad_table = "{\"format\":\"workbench-export\",\"version\":1,\"exportedAt\":\"t\",\"schemaVersion\":1,\"appVersion\":\"x\",\"data\":{\"tasks\":{}}}";
    assert!(matches!(port.import_json(bad_table), Err(trove::domain::DomainError::Validation(_))));
}

#[test]
fn values_convert_both_ways() {
    assert_eq!(hex_encode(&vec![0x00, 0xab, 0x10]), "00ab10");
    assert!(matches!(json_to_sql(&JsonValue::Bool(true)), SqlValue::Integer(1)));
    assert!(matches!(json_to_sql(&JsonValue::Number("42".to_string())), SqlValue::Integer(42)));
    match json_to_sql(&JsonValue::Number("1.5".to_string())) {
        SqlValue::Text(t) => assert_eq!(t, "1.5"),
        _ => unreachable!(),
    }
    assert_eq!(trove::json::number_text(-120), "-120");
    assert_eq!(trove::json::number_text(i64::MIN), "-9223372036854775808");
    assert_eq!(trove::json::number_text(0), "0");
}
