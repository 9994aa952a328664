use chrono::{Duration, Local, NaiveDateTime};
use trove::db::Database;
use trove::json::JsonValue;
use trove::reminders::{
    check_local_datetime, next_after, recurrence_step, CreateReminderInput, OccurrenceStatus,
    ReminderService, UpdateReminderInput,
};

const FMT: &str = "%Y-%m-%dT%H:%M:%S";

fn service() -> (tempfile::TempDir, ReminderService) {
    let dir = tempfile::tempdir().unwrap();
    let db = Database::open(dir.path().join("r.db").to_str().unwrap()).ok().unwrap();
    (dir, ReminderService::new(db))
}

fn now_naive() -> NaiveDateTime {
    Local::now().naive_local()
}

fn fmt(t: NaiveDateTime) -> String {
    t.format(FMT).to_string()
}

fn daily_rule() -> JsonValue {
    JsonValue::Object(vec![
        ("version".to_string(), JsonValue::Number("1".to_string())),
        ("frequency".to_string(), JsonValue::Str("daily".to_string())),
        ("interval".to_string(), JsonValue::Number("1".to_string())),
        ("timezone".to_string(), JsonValue::Str("Asia/Shanghai".to_string())),
    ])
}

fn input(title: &str, fire_at: String, recurrence: Option<JsonValue>) -> CreateReminderInput {
    CreateReminderInput {
        title: title.to_string(),
        notes: None,
        task_id: None,
        fire_at,
        timezone: Some("Asia/Shanghai".to_string()),
        recurrence,
        end_at: None,
    }
}

#[test]
fn create_oneshot_and_complete() {
    let (_dir, svc) = service();
    let fire = fmt(now_naive() + Duration::minutes(5));
    let reminder = svc.create(input("standup", fire, None)).ok().unwrap();
    let items = svc.today_items().ok().unwrap();
    assert!(items.iter().any(|i| i.reminder.id == reminder.id));
    let occ_id = items.iter().find(|i| i.reminder.id == reminder.id).unwrap().occurrence.id;
    svc.complete_occurrence(occ_id).ok().unwrap();
    let occ = svc.get_occurrence(occ_id).ok().unwrap();
    assert_eq!(occ.status, OccurrenceStatus::Actioned);
}

#[test]
fn recurring_advances_on_complete() {
    let (_dir, svc) = service();
    let fire = NaiveDateTime::parse_from_str("2026-07-29T09:00:00", FMT).unwrap();
    let reminder = svc.create(input("daily", fmt(fire), Some(daily_rule()))).ok().unwrap();
    let occ = svc
        .due_occurrences(&fmt(fire + Duration::minutes(1)))
        .ok()
        .unwrap()
        .into_iter()
        .find(|o| o.reminder_id == reminder.id)
        .unwrap();
    svc.complete_occurrence(occ.id).ok().unwrap();
    let updated = svc.get(reminder.id).ok().unwrap();
    assert_eq!(&updated.next_fire_at[..10], "2026-07-30");
}

#[test]
fn list_all_returns_every_reminder_sorted_including_disabled() {
    let (_dir, svc) = service();
    let fire_later = fmt(now_naive() + Duration::days(2));
    let fire_sooner = fmt(now_naive() + Duration::days(1));
    let later = svc.create(input("later", fire_later, None)).ok().unwrap();
    let sooner = svc.create(input("sooner", fire_sooner.clone(), None)).ok().unwrap();
    svc.update(UpdateReminderInput {
        id: sooner.id,
        title: sooner.title.clone(),
        notes: sooner.notes.clone(),
        fire_at: fire_sooner,
        recurrence: None,
        end_at: sooner.end_at.clone(),
        enabled: false,
    })
    .ok()
    .unwrap();
    let all = svc.list_all().ok().unwrap();
    assert_eq!(all.len(), 2);
    assert_eq!(all[0].id, sooner.id);
    assert_eq!(all[1].id, later.id);
    assert!(!all[0].enabled);
    assert!(all[1].enabled);
}

#[test]
fn snoozed_occurrence_not_due_until_snooze_until() {
    let (_dir, svc) = service();
    let fire = fmt(now_naive() - Duration::minutes(5));
    let reminder = svc.create(input("snooze me", fire, None)).ok().unwrap();
    let occ_id = svc
        .due_occurrences(&fmt(now_naive()))
        .ok()
        .unwrap()
        .into_iter()
        .find(|o| o.reminder_id == reminder.id)
        .unwrap()
        .id;
    let until = now_naive() + Duration::minutes(10);
    let snoozed = svc.snooze_occurrence(occ_id, &fmt(until)).ok().unwrap();
    assert_eq!(snoozed.status, OccurrenceStatus::Snoozed);
    let until = NaiveDateTime::parse_from_str(snoozed.snooze_until.as_ref().unwrap(), FMT).unwrap();
    assert!(svc
        .due_occurrences(&fmt(until - Duration::minutes(1)))
        .ok()
        .unwrap()
        .iter()
        .all(|o| o.id != occ_id));
    assert!(svc
        .due_occurrences(&fmt(until + Duration::seconds(1)))
        .ok()
        .unwrap()
        .iter()
        .any(|o| o.id == occ_id));
}

#[test]
fn local_datetime_and_recurrence_rules() {
    assert!(check_local_datetime("2026-07-29T09:00:00").is_ok());
    assert!(check_local_datetime("2026-07-29 09:00:00").is_err());
    assert!(check_local_datetime("2026-07-29T24:00:00").is_err());
    assert!(check_local_datetime("2026-02-30T09:00:00").is_err());
    assert_eq!(recurrence_step(&daily_rule()), Some(1));
    let weekly = JsonValue::Object(vec![
        ("frequency".to_string(), JsonValue::Str("weekly".to_string())),
        ("interval".to_string(), JsonValue::Number("2".to_string())),
    ]);
    assert_eq!(recurrence_step(&weekly), Some(14));
    assert_eq!(next_after(&daily_rule(), "2026-12-31T09:00:00"), Some("2027-01-01T09:00:00".to_string()));
    assert_eq!(next_after(&weekly, "2026-07-29T09:00:00"), Some("2026-08-12T09:00:00".to_string()));
}

#[test]
fn bad_fire_time_is_a_validation_error() {
    let (_dir, svc) = service();
    assert!(matches!(
        svc.create(input("x", "tomorrow".to_string(), None)),
        Err(trove::domain::DomainError::Validation(_))
    ));
}

#[test]
fn reconcile_counts_oneshot_overdue_and_dedupes_recurring() {
    let dir = tempfile::tempdir().unwrap();
    let db_path = dir.path().join("r.db");
    let db = Database::open(db_path.to_str().unwrap()).ok().unwrap();
    let svc = ReminderService::new(db);
    let now = now_naive();

    // One-shot overdue — stays pending for catch-up.
    let oneshot = svc.create(input("past", fmt(now - Duration::hours(2)), None)).ok().unwrap();

    // Recurring with two overdue occurrences; only latest should count.
    let recurring = svc
        .create(input("daily", "2026-07-28T09:00:00".to_string(), Some(daily_rule())))
        .ok()
        .unwrap();
    let conn = rusqlite::Connection::open(&db_path).unwrap();
    conn.execute(
        "INSERT INTO reminder_occurrences (
            id, reminder_id, scheduled_at, status, needs_schedule,
            system_notification_id, actioned_at, snooze_until,
            created_at, updated_at, revision
         ) VALUES (?1, ?2, ?3, 'pending', 1, NULL, NULL, NULL, ?4, ?4, 1)",
        (
            trove::ids::format_id(uuid::Uuid::new_v4().as_u128()),
            trove::ids::format_id(recurring.id),
            "2026-07-29T09:00:00",
            "2026-07-29T00:00:00.000Z",
        ),
    )
    .unwrap();
    drop(conn);

    let catch_up = svc.reconcile_on_startup().ok().unwrap();
    assert_eq!(catch_up, 2);

    let oneshot_occ = svc
        .due_occurrences(&fmt(now))
        .ok()
        .unwrap()
        .into_iter()
        .find(|o| o.reminder_id == oneshot.id)
        .expect("oneshot occurrence");
    assert_eq!(oneshot_occ.status, OccurrenceStatus::Pending);

    let recurring_occs: Vec<_> = svc
        .due_occurrences("2026-07-29T09:00:00")
        .ok()
        .unwrap()
        .into_iter()
        .filter(|o| o.reminder_id == recurring.id)
        .collect();
    assert_eq!(recurring_occs.len(), 1);
    assert_eq!(recurring_occs[0].scheduled_at, "2026-07-29T09:00:00");

    let missed: i64 = rusqlite::Connection::open(&db_path)
        .unwrap()
        .query_row(
            "SELECT COUNT(*) FROM reminder_occurrences
             WHERE reminder_id = ?1 AND status = 'inferred_missed'",
            [trove::ids::format_id(recurring.id)],
            |row| row.get(0),
        )
        .unwrap();
    assert_eq!(missed, 1);
}

#[test]
fn superseded_keeps_first_per_reminder() {
    let owners = vec!["a".to_string(), "a".to_string(), "b".to_string(), "a".to_string()];
    let (marks, kept) = trove::reminders::superseded(&owners);
    assert_eq!(marks, vec![false, true, false, true]);
    assert_eq!(kept, 2);
}

#[test]
fn notification_body_shows_minutes_with_a_space() {
    assert_eq!(trove::reminders::notification_body("2026-07-29T09:00:00"), "计划时间 2026-07-29 09:00");
    assert_eq!(trove::reminders::notification_body("2026"), "计划时间 2026");
}
