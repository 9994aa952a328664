use trove::ai_model::{SuggestionItem, SuggestionSource};
use trove::ai_suggestions::{ground_split, other_ends, related_link_picks, split_text, tally_hits};
use trove::search::{SearchEntityType, SearchHit};
use trove::clipboard::overflow_of;
use trove::csv_tasks::{summarize, CsvFieldMapping, PreparedRow};
use trove::db::SqlValue;
use trove::domain::DomainError;
use trove::focus::{check_focus_end, FocusOutcome};
use trove::ids::format_id;
use trove::links::EntityLink;
use trove::memories::{memory_filters, rank_related_memories, Memory, MemoryQuery};
use trove::memory_text::{related_score, tokenize};
use trove::task_model::{ListKind, Task, TaskPriority, TaskStatus, TaskWorkflowState};
use trove::tasks::new_task_params;
use trove::workbench_actions::{inbox_query, list_query, memory_search_query, snippet_search};

fn text(v: &SqlValue) -> String {
    match v {
        SqlValue::Text(s) => s.clone(),
        _ => panic!("expected text"),
    }
}

fn task(title: &str, notes: &str, status: TaskStatus) -> Task {
    Task {
        id: 42,
        title: title.to_string(),
        notes: notes.to_string(),
        status,
        priority: TaskPriority::Unset,
        list_id: 1,
        list_name: "收件箱".to_string(),
        list_kind: ListKind::Inbox,
        due_date: None,
        due_time: None,
        completed_at: None,
        sort_order: 1,
        series_id: None,
        tag_ids: Vec::new(),
        tag_names: Vec::new(),
        workflow_state: TaskWorkflowState::Active,
        available_at: None,
        waiting_for: None,
        follow_up_date: None,
        created_at: "2026-01-01T00:00:00Z".to_string(),
        updated_at: "2026-01-01T00:00:00Z".to_string(),
        revision: 1,
    }
}

fn memory(id: u128, tags: &[&str]) -> Memory {
    Memory {
        id,
        title: "alpha".to_string(),
        body: String::new(),
        pinned: false,
        archived: false,
        quick_insert: false,
        trigger_word: None,
        mention_use_count: 0,
        sensitive: false,
        tag_ids: Vec::new(),
        tag_names: tags.iter().map(|t| t.to_string()).collect(),
        created_at: "2026-01-01T00:00:00Z".to_string(),
        updated_at: "2026-01-01T00:00:00Z".to_string(),
        revision: 1,
    }
}

fn row(id: u128, title: &str, tags: Option<&str>) -> Vec<SqlValue> {
    vec![
        SqlValue::Text(format_id(id)),
        SqlValue::Text(title.to_string()),
        SqlValue::Text(String::new()),
        match tags {
            Some(t) => SqlValue::Text(t.to_string()),
            None => SqlValue::Null,
        },
    ]
}

#[test]
fn related_score_clamps_out_of_range_counts() {
    let s = related_score(70_000, false, 0, 0);
    assert_eq!((s.num, s.den), (7 * 0xFFFF, 20));
    let s = related_score(0, false, 10, 5);
    assert_eq!((s.num, s.den), (50, 100));
    let s = related_score(0, false, 0x1000_0000, 0x2000_0000);
    assert_eq!((s.num, s.den), (10 * 53_687_091, 20 * 107_374_182));
    let s = related_score(1, true, 1, 10);
    assert_eq!((s.num, s.den), (12, 20));
}

#[test]
fn related_memories_keep_the_best_five_in_order() {
    let m = memory(1, &["a", "b"]);
    let source = tokenize("alpha ");
    let mut rows = Vec::new();
    for id in 2..=8u128 {
        rows.push(row(id, &format!("zz{id}"), Some("a")));
    }
    rows.push(row(9, "zz9", Some("a,b")));
    rows.push(row(10, "zz10", None));
    rows.push(row(1, "self", Some("a,b")));
    let existing = vec![3u128];
    let around = vec![EntityLink {
        id: 99,
        source_type: "memory".to_string(),
        source_id: 1,
        target_type: "memory".to_string(),
        target_id: 7,
        link_kind: "related".to_string(),
        created_at: "2026-01-01T00:00:00Z".to_string(),
    }];
    let hits = match rank_related_memories(&m, &source, &rows, &existing, &around) {
        Ok(h) => h,
        Err(_) => panic!("rows decode"),
    };
    let ids: Vec<u128> = hits.iter().map(|h| h.memory_id).collect();
    assert_eq!(ids, vec![9, 7, 2, 4, 5]);
    assert_eq!((hits[0].score.num, hits[0].score.den), (14, 20));
    assert_eq!((hits[1].score.num, hits[1].score.den), (12, 20));
    assert_eq!(hits[0].title, "zz9");
}

#[test]
fn related_memories_refuse_an_undecodable_row() {
    let m = memory(1, &["a"]);
    let rows = vec![vec![SqlValue::Integer(5), SqlValue::Text("t".to_string())]];
    let r = rank_related_memories(&m, &Vec::new(), &rows, &Vec::new(), &Vec::new());
    assert!(matches!(r, Err(DomainError::Internal(_))));
}

#[test]
fn overflow_is_counted_over_the_cap() {
    assert_eq!(overflow_of(10, 8), Some((2, 4)));
    assert_eq!(overflow_of(8, 8), None);
    assert_eq!(overflow_of(3, 8), None);
    assert_eq!(overflow_of(i64::MAX, 0), Some((i64::MAX, i64::MAX)));
}

#[test]
fn action_queries_ask_for_open_tasks() {
    let q = inbox_query(None);
    assert_eq!(q.inbox_only, Some(true));
    assert!(matches!(q.status, Some(TaskStatus::Todo)));
    assert!(q.list_id.is_none());
    let q = list_query(7, Some(500));
    assert_eq!(q.list_id, Some(7));
    assert_eq!(q.limit, Some(100));
    assert!(matches!(q.status, Some(TaskStatus::Todo)));
    let m = memory_search_query("咖啡".to_string(), Some(0));
    assert_eq!(m.search.as_deref(), Some("咖啡"));
    assert_eq!(m.limit, Some(1));
    assert_eq!(snippet_search(Some("  ".to_string())), None);
    assert_eq!(snippet_search(Some("sig".to_string())), Some("sig".to_string()));
}

#[test]
fn memory_search_escapes_like_wildcards() {
    let q = MemoryQuery {
        search: Some(" 50% ".to_string()),
        tag_id: None,
        pinned_only: None,
        quick_insert_only: None,
        include_archived: None,
        limit: None,
        offset: None,
    };
    let (sql, params) = memory_filters(&q);
    assert_eq!(sql, " AND archived = 0 AND (title LIKE ? ESCAPE '\\' OR body LIKE ? ESCAPE '\\')");
    assert_eq!(params.len(), 2);
    assert_eq!(text(&params[0]), "%50\\%%");
    assert_eq!(text(&params[1]), "%50\\%%");
}

#[test]
fn new_task_row_binds_title_before_notes() {
    let p = new_task_params(5, "标题", "备注", TaskPriority::High, 1, &None, &Some("09:00".to_string()), 3, "now");
    assert_eq!(p.len(), 9);
    assert_eq!(text(&p[1]), "标题");
    assert_eq!(text(&p[2]), "备注");
    assert!(matches!(p[5], SqlValue::Null));
    assert_eq!(text(&p[6]), "09:00");
    assert!(matches!(p[7], SqlValue::Integer(3)));
}

#[test]
fn split_text_refuses_completed_and_thin_tasks() {
    assert!(matches!(split_text(&task("写报告", "", TaskStatus::Completed)), Err(DomainError::Validation(_))));
    assert!(matches!(split_text(&task("ab", "", TaskStatus::Todo)), Ok(None)));
    match split_text(&task("写周报", "先列提纲", TaskStatus::Todo)) {
        Ok(t) => assert_eq!(t, Some("写周报\n先列提纲".to_string())),
        Err(_) => panic!("an open task is split"),
    }
}

fn item(title: &str, excerpt: &str) -> SuggestionItem {
    SuggestionItem {
        title: title.to_string(),
        detail: None,
        due_date: None,
        due_time: None,
        ambiguous: false,
        source_excerpt: excerpt.to_string(),
    }
}

#[test]
fn split_items_are_grounded_in_the_task_text() {
    let items = vec![item("买牛奶", "  buy milk "), item("编造", "nope"), item("空", "   ")];
    let (kept, sources) = ground_split(items, "buy milk and eggs", "task-1");
    assert_eq!(kept.len(), 1);
    assert_eq!(kept[0].title, "买牛奶");
    assert_eq!(sources.len(), 1);
    assert_eq!(sources[0].entity_type, "task");
    assert_eq!(sources[0].entity_id, "task-1");
    assert_eq!(sources[0].text_offset, 0);
    assert_eq!(sources[0].excerpt, "buy milk");
}

#[test]
fn related_links_skip_what_is_linked_already() {
    let src = |id: &str| SuggestionSource {
        entity_type: "memory".to_string(),
        entity_id: id.to_string(),
        text_offset: 0,
        excerpt: String::new(),
    };
    let sources = vec![src("m1"), src("m2"), src("m3")];
    let picks = related_link_picks(&sources, &vec![0, 1, 5, 2], &vec!["m2".to_string()]);
    assert_eq!(picks, vec![0, 2]);
}

#[test]
fn focus_end_needs_a_session_in_progress() {
    assert!(check_focus_end(FocusOutcome::InProgress, FocusOutcome::Completed).is_ok());
    assert!(matches!(
        check_focus_end(FocusOutcome::Abandoned, FocusOutcome::Completed),
        Err(DomainError::Validation(_))
    ));
    assert!(matches!(
        check_focus_end(FocusOutcome::InProgress, FocusOutcome::InProgress),
        Err(DomainError::Validation(_))
    ));
}

fn search_hit(id: u128) -> SearchHit {
    SearchHit {
        entity_type: SearchEntityType::Memory,
        entity_id: id,
        title: format!("m{id}"),
        snippet: String::new(),
        updated_at: "2026-01-01".to_string(),
    }
}

#[test]
fn tally_counts_each_entity_once_in_the_pool() {
    let mut pool = Vec::new();
    let mut counts = Vec::new();
    tally_hits(&mut pool, &mut counts, vec![search_hit(1), search_hit(2), search_hit(1)]);
    tally_hits(&mut pool, &mut counts, vec![search_hit(3), search_hit(2)]);
    let ids: Vec<u128> = pool.iter().map(|h| h.entity_id).collect();
    assert_eq!(ids, vec![1, 2, 3]);
    assert_eq!(counts, vec![2, 2, 1]);
    let mut pool = vec![search_hit(9)];
    let mut counts = vec![u64::MAX];
    tally_hits(&mut pool, &mut counts, vec![search_hit(9)]);
    assert_eq!(counts, vec![u64::MAX]);
}

#[test]
fn other_ends_name_the_far_side_of_each_link() {
    let link = |s: u128, t: u128| EntityLink {
        id: 1,
        source_type: "task".to_string(),
        source_id: s,
        target_type: "memory".to_string(),
        target_id: t,
        link_kind: "related".to_string(),
        created_at: "2026-01-01T00:00:00Z".to_string(),
    };
    let ends = other_ends(&vec![link(1, 2), link(3, 1)], 1);
    assert_eq!(ends, vec![format_id(2), format_id(3)]);
}

fn prepared(title: &str, list: Option<&str>, duplicate: bool) -> PreparedRow {
    PreparedRow {
        title: title.to_string(),
        notes: None,
        status: TaskStatus::Todo,
        priority: Some(TaskPriority::High),
        list_name: list.map(|l| l.to_string()),
        due_date: Some("2026-03-01".to_string()),
        due_time: None,
        tags: None,
        duplicate,
    }
}

#[test]
fn summary_shows_issues_with_file_row_numbers() {
    let mapping = CsvFieldMapping {
        title: Some("title".to_string()),
        notes: None,
        status: None,
        priority: None,
        list: None,
        due_date: None,
        due_time: None,
        tags: None,
    };
    let rows = vec![
        Err("无法解析该行".to_string()),
        Ok(prepared("旧任务", None, true)),
        Ok(prepared("新任务", Some("Work"), false)),
    ];
    let p = summarize(vec!["title".to_string()], mapping, rows, &vec![("inbox".to_string(), 1u128)]);
    assert_eq!((p.row_count, p.error_count, p.duplicate_count, p.valid_count), (3, 1, 1, 1));
    assert_eq!(p.errors.len(), 1);
    assert_eq!((p.errors[0].row, p.errors[0].title.clone(), p.errors[0].message.clone()), (2, None, "无法解析该行".to_string()));
    assert_eq!(p.duplicates.len(), 1);
    assert_eq!(p.duplicates[0].row, 3);
    assert_eq!(p.duplicates[0].title.as_deref(), Some("旧任务"));
    assert_eq!(p.duplicates[0].message, "与现有任务标题和截止日期相同");
    assert_eq!(p.sample.len(), 2);
    assert_eq!(p.sample[1].title, "新任务");
    assert_eq!(p.sample[1].list.as_deref(), Some("Work"));
    assert_eq!(p.sample[1].priority, TaskPriority::High.as_str());
    assert!(p.sample[0].duplicate);
    assert_eq!(p.unmapped_lists, vec!["Work".to_string()]);
}
