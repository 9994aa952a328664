use trove::db::Database;
use trove::domain::DomainError;
use trove::json::JsonValue;
use trove::saved_views::{CreateSavedViewInput, SavedViewService};

fn service(dir: &std::path::Path) -> SavedViewService {
    let db = Database::open(dir.join("t.db").to_str().unwrap()).ok().unwrap();
    SavedViewService::new(db)
}

fn s(v: &str) -> JsonValue {
    JsonValue::Str(v.to_string())
}

#[test]
fn create_list_delete_round_trip() {
    let dir = tempfile::tempdir().unwrap();
    let svc = service(dir.path());
    let filter = JsonValue::Object(vec![
        ("listId".to_string(), s("all")),
        ("status".to_string(), s("active")),
        ("priority".to_string(), s("high")),
        ("tagId".to_string(), JsonValue::Null),
        ("smart".to_string(), s("none")),
    ]);
    let created = svc
        .create(CreateSavedViewInput { name: " 重要任务 ".to_string(), filter })
        .ok()
        .unwrap();
    assert_eq!(created.name, "重要任务");
    assert_eq!(created.filter.get("priority"), Some(&s("high")));

    let listed = svc.list().ok().unwrap();
    assert_eq!(listed.len(), 1);
    assert_eq!(listed[0].id, created.id);

    svc.delete(created.id).ok().unwrap();
    assert!(svc.list().ok().unwrap().is_empty());
    assert!(svc.get(created.id).is_err());
}

#[test]
fn empty_name_rejected() {
    let dir = tempfile::tempdir().unwrap();
    let svc = service(dir.path());
    let r = svc.create(CreateSavedViewInput {
        name: "   ".to_string(),
        filter: JsonValue::Object(vec![]),
    });
    assert!(matches!(r, Err(DomainError::Validation(_))));
}

#[test]
fn saved_filter_survives_storage_unchanged() {
    let dir = tempfile::tempdir().unwrap();
    let svc = service(dir.path());
    let filter = || {
        JsonValue::Object(vec![
            ("limit".to_string(), JsonValue::Number("20".to_string())),
            ("tags".to_string(), JsonValue::Array(vec![s("a"), s("b")])),
            ("done".to_string(), JsonValue::Bool(false)),
        ])
    };
    let created = svc
        .create(CreateSavedViewInput { name: "v".to_string(), filter: filter() })
        .ok()
        .unwrap();
    let got = svc.get(created.id).ok().unwrap();
    // Members come back in key order (serde_json's map is sorted).
    assert_eq!(
        got.filter,
        JsonValue::Object(vec![
            ("done".to_string(), JsonValue::Bool(false)),
            ("limit".to_string(), JsonValue::Number("20".to_string())),
            ("tags".to_string(), JsonValue::Array(vec![s("a"), s("b")])),
        ])
    );
    assert_eq!(got.filter.get("tags"), filter().get("tags"));
    assert_eq!(got.filter.get("limit").and_then(|v| v.as_i64()), Some(20));
}

#[test]
fn deleting_a_missing_view_is_not_found() {
    let dir = tempfile::tempdir().unwrap();
    let svc = service(dir.path());
    assert!(matches!(
        svc.delete(uuid::Uuid::new_v4().as_u128()),
        Err(DomainError::NotFound(_))
    ));
}
