use trove::db::Database;
use trove::json::JsonValue;
use trove::task_model::TaskPriority;
use trove::templates::{
    resolve_preview, task_input_from_preview, CreateTemplateInput, ItemTemplate, TemplateKind,
    TemplateService,
};

fn s(v: &str) -> JsonValue {
    JsonValue::Str(v.to_string())
}

fn n(v: i64) -> JsonValue {
    JsonValue::Number(v.to_string())
}

fn payload() -> JsonValue {
    JsonValue::Object(vec![
        ("title".to_string(), s("写周报")),
        ("relativeDueDays".to_string(), n(1)),
        ("priority".to_string(), s("high")),
    ])
}

#[test]
fn relative_due_days_resolved_on_preview() {
    let dir = tempfile::tempdir().unwrap();
    let db = Database::open(dir.path().join("t.db").to_str().unwrap()).ok().unwrap();
    let svc = TemplateService::new(db);
    let tpl = svc
        .create(CreateTemplateInput { kind: TemplateKind::Task, name: "周报".to_string(), payload: payload() })
        .ok()
        .unwrap();
    let preview = svc.preview(tpl.id).ok().unwrap();
    assert_eq!(preview.title, "写周报");
    assert!(preview.due_date.is_some());
    assert_eq!(preview.priority, Some(TaskPriority::High));
}

fn template(kind: TemplateKind, payload: JsonValue) -> ItemTemplate {
    ItemTemplate {
        id: 7,
        kind,
        name: "name".to_string(),
        payload,
        created_at: String::new(),
        updated_at: String::new(),
        revision: 1,
    }
}

#[test]
fn preview_resolves_against_given_dates() {
    let p = resolve_preview(template(TemplateKind::Task, payload()), "2026-12-31", "2026-12-31T23:00:00");
    assert_eq!(p.due_date.as_deref(), Some("2027-01-01"));
    assert_eq!(p.title, "写周报");

    let reminder_payload = JsonValue::Object(vec![
        ("relativeFireHours".to_string(), n(2)),
        ("notes".to_string(), s("bring laptop")),
        ("tagNames".to_string(), JsonValue::Array(vec![s("a"), n(3), s("b")])),
    ]);
    let p = resolve_preview(template(TemplateKind::Reminder, reminder_payload), "2026-05-01", "2026-05-01T23:30:00");
    assert_eq!(p.title, "name");
    assert_eq!(p.body, "bring laptop");
    assert_eq!(p.fire_at.as_deref(), Some("2026-05-02T01:30:00"));
    assert_eq!(p.tag_names, vec!["a".to_string(), "b".to_string()]);
    assert_eq!(p.priority, None);
}

#[test]
fn preview_of_another_kind_is_not_a_task_input() {
    let p = resolve_preview(template(TemplateKind::Memory, payload()), "2026-05-01", "2026-05-01T08:00:00");
    assert!(task_input_from_preview(p).is_err());
    let p = resolve_preview(template(TemplateKind::Task, payload()), "2026-05-01", "2026-05-01T08:00:00");
    let input = task_input_from_preview(p).ok().unwrap();
    assert_eq!(input.title, "写周报");
    assert_eq!(input.due_date.as_deref(), Some("2026-05-02"));
}

#[test]
fn blank_template_name_is_refused() {
    let dir = tempfile::tempdir().unwrap();
    let db = Database::open(dir.path().join("t.db").to_str().unwrap()).ok().unwrap();
    let svc = TemplateService::new(db);
    let r = svc.create(CreateTemplateInput { kind: TemplateKind::Task, name: " ".to_string(), payload: payload() });
    assert!(matches!(r, Err(trove::domain::DomainError::Validation(_))));
}
