use trove::csv_tasks::{
    batch_ids, detect_mapping, import_gate, normalize_header, parse_priority, parse_status, parse_tags,
    render_rows, resolve_list, CsvImportInput, CsvTaskService,
};
use trove::db::Database;
use trove::task_model::{CreateTaskInput, TaskPriority, TaskStatus};
use trove::tasks::TaskService;

fn setup() -> (tempfile::TempDir, Database, CsvTaskService) {
    let dir = tempfile::tempdir().unwrap();
    let db = Database::open(dir.path().join("t.db").to_str().unwrap()).ok().unwrap();
    TaskService::new(db.clone()).ensure_seed_data().ok().unwrap();
    let svc = CsvTaskService::new(db.clone());
    (dir, db, svc)
}

#[test]
fn export_roundtrip_preview_and_import() {
    let (_dir, db, svc) = setup();
    TaskService::new(db)
        .create_task(CreateTaskInput {
            title: "Buy milk".to_string(),
            notes: Some("2L".to_string()),
            priority: Some(TaskPriority::High),
            list_id: None,
            due_date: Some("2026-08-20".to_string()),
            due_time: None,
            tag_names: Some(vec!["errands".to_string()]),
        })
        .ok()
        .unwrap();
    let csv = svc.export_csv().ok().unwrap();
    assert!(csv.contains("title"));
    assert!(csv.contains("Buy milk"));

    let preview = svc.preview(&csv, None).ok().unwrap();
    assert!(preview.row_count >= 1);
    assert!(preview.duplicate_count >= 1);
    assert_eq!(preview.error_count, 0);
    assert!(preview.mapping.title.is_some());

    let (_fresh_dir, _fresh_db, fresh) = setup();
    let result = fresh
        .import(CsvImportInput { csv, skip_duplicates: false, mapping: None })
        .ok()
        .unwrap();
    assert!(result.created >= 1);
    let batches = fresh.list_batches().ok().unwrap();
    assert_eq!(batches.len(), 1);
    assert_eq!(batches[0].created, result.created);
    let undo = fresh.undo_batch(batches[0].id).ok().unwrap();
    assert!(undo.deleted >= 1);
    assert!(fresh.undo_batch(batches[0].id).is_err());
}

#[test]
fn chinese_headers_and_invalid_status() {
    let (_dir, _db, svc) = setup();
    let preview = svc.preview("标题,状态\n周报,不明\n", None).ok().unwrap();
    assert_eq!(preview.error_count, 1);
    assert!(preview.errors[0].message.contains("状态"));
    assert_eq!(preview.errors[0].row, 2);
}

#[test]
fn empty_title_is_error() {
    let (_dir, _db, svc) = setup();
    let preview = svc.preview("title,notes\n,x\n", None).ok().unwrap();
    assert_eq!(preview.error_count, 1);
}

#[test]
fn blank_csv_and_missing_title_column_are_refused() {
    let (_dir, _db, svc) = setup();
    assert!(matches!(svc.preview("   ", None), Err(trove::domain::DomainError::Validation(_))));
    assert!(matches!(svc.preview("foo,bar\n1,2\n", None), Err(trove::domain::DomainError::Validation(_))));
}

#[test]
fn import_with_errors_is_refused_and_lists_resolve() {
    let (_dir, db, svc) = setup();
    let tasks = TaskService::new(db);
    let errands = tasks.create_list("Errands".to_string()).ok().unwrap();
    assert!(svc
        .import(CsvImportInput { csv: "title,priority\nx,urgent\n".to_string(), skip_duplicates: true, mapping: None })
        .is_err());
    let preview = svc.preview("Title,List,Status\nwalk dog,errands,done\nfeed cat,Nowhere,\n", None).ok().unwrap();
    assert_eq!(preview.valid_count, 2);
    assert_eq!(preview.unmapped_lists, vec!["Nowhere".to_string()]);
    let res = svc
        .import(CsvImportInput {
            csv: "Title,List,Status\nwalk dog,errands,done\n".to_string(),
            skip_duplicates: false,
            mapping: None,
        })
        .ok()
        .unwrap();
    assert_eq!(res.created, 1);
    let all = tasks.query_tasks(trove::task_query::TaskQuery::default()).ok().unwrap();
    let _ = all;
    let mut q = trove::task_query::TaskQuery::default();
    q.list_id = Some(errands.id);
    q.status = Some(TaskStatus::Completed);
    let done = tasks.query_tasks(q).ok().unwrap();
    assert_eq!(done.items.len(), 1);
    assert_eq!(done.items[0].title, "walk dog");
}

#[test]
fn cell_values_are_parsed_exactly() {
    assert_eq!(normalize_header(" Due-Date "), "duedate");
    assert_eq!(normalize_header("LIST_NAME"), "listname");
    assert_eq!(parse_status(""), Ok(TaskStatus::Todo));
    assert_eq!(parse_status("DONE"), Ok(TaskStatus::Completed));
    assert_eq!(parse_status("已完成"), Ok(TaskStatus::Completed));
    assert_eq!(parse_status("Weird"), Err("无法识别状态: weird".to_string()));
    assert_eq!(parse_priority(""), Ok(None));
    assert_eq!(parse_priority("3"), Ok(Some(TaskPriority::High)));
    assert_eq!(parse_priority("无"), Ok(Some(TaskPriority::Unset)));
    assert!(parse_priority("urgent").is_err());
    assert_eq!(
        parse_tags(" a; b ,，c、、 "),
        Some(vec!["a".to_string(), "b".to_string(), "c".to_string()])
    );
    assert_eq!(parse_tags(" ; , "), None);
    assert_eq!(parse_tags(""), None);
}

#[test]
fn headers_are_recognized_by_alias() {
    let headers = vec!["任务".to_string(), "Due Date".to_string(), "labels".to_string(), "Tag".to_string()];
    let m = detect_mapping(&headers);
    assert_eq!(m.title.as_deref(), Some("任务"));
    assert_eq!(m.due_date.as_deref(), Some("Due Date"));
    assert_eq!(m.tags.as_deref(), Some("Tag"));
    assert_eq!(m.notes, None);
}

#[test]
fn list_names_resolve_to_the_last_match_or_inbox() {
    let keys = vec![("work".to_string(), 1u128), ("home".to_string(), 2u128), ("work".to_string(), 3u128)];
    assert_eq!(resolve_list(&keys, &Some("WORK".to_string()), 9), 3);
    assert_eq!(resolve_list(&keys, &Some("Home".to_string()), 9), 2);
    assert_eq!(resolve_list(&keys, &Some("garden".to_string()), 9), 9);
    assert_eq!(resolve_list(&keys, &None, 9), 9);
}

#[test]
fn records_are_quoted_where_needed() {
    let rows = vec![
        vec!["title".to_string(), "notes".to_string()],
        vec!["a, b".to_string(), "say \"hi\"".to_string()],
    ];
    assert_eq!(render_rows(&rows).unwrap(), "title,notes\n\"a, b\",\"say \"\"hi\"\"\"\n");
}

#[test]
fn import_gate_follows_the_preview() {
    let (_dir, _db, svc) = setup();
    let p = svc.preview("title\nx\n", None).ok().unwrap();
    assert!(import_gate(&p, false).is_ok());
    let p = svc.preview("title,status\nx,bogus\n", None).ok().unwrap();
    assert!(import_gate(&p, true).is_err());
}

#[test]
fn stored_batch_ids_read_back_only_from_a_string_array() {
    assert_eq!(batch_ids("[\"a\",\"b\"]"), vec!["a".to_string(), "b".to_string()]);
    assert!(batch_ids("[\"a\",1]").is_empty());
    assert!(batch_ids("{\"a\":1}").is_empty());
    assert!(batch_ids("not json").is_empty());
    assert!(batch_ids("[]").is_empty());
}
