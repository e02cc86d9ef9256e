use reflections::filters::{MeetingFilter, NoteFilter, SummaryFilter};
use reflections::model::{CalendarEvent, Meeting, Reflection};
use reflections::services::{
    checkpoint_exhausted_message, classify_db_error, decide_after_failure, entity_relative_path,
    is_lock_contention, join_path, open_exhausted_message, reflection_label, DbError, EmptyContent,
    LockContentionError, NoteService, ReflectionService, RetryDecision, SummaryService, MAX_RETRIES,
};
use reflections::sync::{plan_sync, SyncStep};
use reflections::time::UtcTime;

fn at(secs: i64) -> UtcTime {
    UtcTime { secs, nanos: 0 }
}

fn meeting(id: u128, name: &str, secs: i64) -> Meeting {
    Meeting { id, name: name.to_string(), scheduled_at: at(secs), created_at: at(0), updated_at: at(0) }
}

fn event(name: &str, secs: i64) -> CalendarEvent {
    CalendarEvent { name: name.to_string(), scheduled_at: at(secs) }
}

#[test]
fn classify_db_error_maps_busy_to_lock_contention() {
    let e = classify_db_error(true, "database is locked");
    assert_eq!(e, DbError::LockContention(LockContentionError("database is locked".to_string())));
}

#[test]
fn classify_db_error_maps_lock_string_to_lock_contention() {
    assert!(matches!(classify_db_error(false, "file is lock"), DbError::LockContention(_)));
    assert!(matches!(classify_db_error(false, "Database LOCKED"), DbError::LockContention(_)));
}

#[test]
fn classify_db_error_passes_through_other_errors() {
    assert_eq!(
        classify_db_error(false, "UNIQUE constraint"),
        DbError::Other("UNIQUE constraint".to_string())
    );
    assert!(!is_lock_contention(false, "UNIQUE constraint"));
    assert_eq!(
        LockContentionError("busy".to_string()).message(),
        "lock contention: busy"
    );
}

#[test]
fn lock_contention_is_retried_until_the_limit() {
    assert_eq!(decide_after_failure(1, true, "busy"), RetryDecision::Retry);
    assert_eq!(decide_after_failure(MAX_RETRIES - 1, false, "table is locked"), RetryDecision::Retry);
    assert_eq!(decide_after_failure(MAX_RETRIES, true, "busy"), RetryDecision::Exhausted);
    assert_eq!(
        decide_after_failure(1, false, "no such table"),
        RetryDecision::Fail(DbError::Other("no such table".to_string()))
    );
    assert_eq!(
        open_exhausted_message(Some("database is locked")),
        "failed to open database after 200 retries: database is locked"
    );
    assert_eq!(open_exhausted_message(None), "failed to open database after 200 retries: unknown error");
    assert_eq!(
        checkpoint_exhausted_message(),
        "checkpoint failed after 200 retries: lock contention persisted"
    );
}

#[test]
fn join_path_follows_path_join() {
    assert_eq!(join_path("/root", "2026/01/01/x.md"), "/root/2026/01/01/x.md");
    assert_eq!(join_path("/root/", "x.md"), "/root/x.md");
    assert_eq!(join_path("/root", "/abs/x.md"), "/abs/x.md");
    assert_eq!(join_path("", "x.md"), "x.md");
    let svc = ReflectionService::new("reflections.db", "/home/me/journal");
    assert_eq!(svc.full_path("a.md"), "/home/me/journal/a.md");
    assert_eq!(NoteService::new("db", "/n").full_path("b.md"), "/n/b.md");
    assert_eq!(SummaryService::new("db", "/s").full_path("c.md"), "/s/c.md");
}

#[test]
fn new_entity_files_go_under_the_utc_date() {
    let id: u128 = 0x0190_0000_0000_7000_8000_0000_0000_0001;
    let p = entity_relative_path(at(1_767_268_800), id).expect("representable");
    assert_eq!(p, "2026/01/01/01900000-0000-7000-8000-000000000001.md");
    assert_eq!(entity_relative_path(UtcTime { secs: i64::MAX, nanos: 0 }, id), None);
}

#[test]
fn summaries_need_text() {
    assert_eq!(SummaryService::check_content(""), Err(EmptyContent));
    assert_eq!(SummaryService::check_content("x"), Ok(()));
    assert_eq!(EmptyContent.message(), "content cannot be empty");
}

#[test]
fn reflection_labels_name_what_they_are_about() {
    assert_eq!(reflection_label(Some(1), Some("Ship it"), None, "2026-01-01 10:00"), "TODO Item Reflection Ship it");
    assert_eq!(reflection_label(Some(1), None, Some("Standup"), "2026-01-01 10:00"), "Meeting Reflection Standup");
    assert_eq!(reflection_label(Some(1), None, None, "2026-01-01 10:00"), "General Reflection 2026-01-01 10:00");
    assert_eq!(reflection_label(None, Some("x"), None, "2026-01-01 10:00"), "General Reflection 2026-01-01 10:00");
    let svc = ReflectionService::new("db", "/r");
    let r = Reflection { id: 1, about_id: None, file_path: "a.md".to_string(), created_at: at(1_767_268_800), updated_at: at(0) };
    assert_eq!(svc.resolve_label(&r, None, None), "General Reflection 2026-01-01 12:00");
}

#[test]
fn sync_plan_creates_moves_and_skips() {
    let existing = vec![meeting(1, "Standup", 100), meeting(2, "Retro", 200)];
    let events = vec![event("Standup", 100), event("Retro", 300), event("Planning", 400)];
    let plan = plan_sync(&existing, &events);
    assert_eq!(plan.len(), 2);
    match &plan[0] {
        SyncStep::Update { index, scheduled_at } => {
            assert_eq!(*index, 1);
            assert_eq!(*scheduled_at, at(300));
        }
        other => panic!("unexpected {other:?}"),
    }
    match &plan[1] {
        SyncStep::Create { name, scheduled_at } => {
            assert_eq!(name, "Planning");
            assert_eq!(*scheduled_at, at(400));
        }
        other => panic!("unexpected {other:?}"),
    }
}

#[test]
fn sync_plan_is_empty_when_everything_matches() {
    let existing = vec![meeting(1, "Same Time Meeting", 100)];
    assert!(plan_sync(&existing, &vec![event("Same Time Meeting", 100)]).is_empty());
    assert!(plan_sync(&existing, &vec![]).is_empty());
}

#[test]
fn sync_plan_uses_the_last_meeting_of_a_name() {
    let existing = vec![meeting(1, "Dup", 100), meeting(2, "Dup", 200)];
    assert!(plan_sync(&existing, &vec![event("Dup", 200)]).is_empty());
    match &plan_sync(&existing, &vec![event("Dup", 100)])[0] {
        SyncStep::Update { index, .. } => assert_eq!(*index, 1),
        other => panic!("unexpected {other:?}"),
    }
}

#[test]
fn meeting_filter_builds_its_where_clause() {
    let (clause, params) = MeetingFilter::new().build_where_clause().expect("writable");
    assert_eq!(clause, "");
    assert!(params.is_empty());
    let f = MeetingFilter::new().name("Standup").start(at(1_767_268_800)).end(at(1_767_355_200));
    let (clause, params) = f.build_where_clause().expect("writable");
    assert_eq!(clause, " WHERE name = ? AND scheduled_at >= ? AND scheduled_at < ?");
    assert_eq!(params, vec!["Standup", "2026-01-01 12:00:00", "2026-01-02 12:00:00"]);
    let by_id = MeetingFilter::new().id(1).build_where_clause().expect("writable");
    assert_eq!(by_id.0, " WHERE meeting_id = ?");
    assert_eq!(by_id.1, vec!["00000000-0000-0000-0000-000000000001"]);
    assert!(MeetingFilter::new().start(UtcTime { secs: i64::MAX, nanos: 0 }).build_where_clause().is_none());
}

#[test]
fn note_and_summary_filters_build_their_where_clauses() {
    let (clause, params) = NoteFilter::new().id(2).related_to_id(3).build_where_clause();
    assert!(clause.starts_with(" WHERE "));
    assert_eq!(params.len(), 2);
    let (clause, params) = SummaryFilter::new().build_where_clause();
    assert_eq!(clause, "");
    assert!(params.is_empty());
    let (_, params) = SummaryFilter::new().id(4).build_where_clause();
    assert_eq!(params, vec!["00000000-0000-0000-0000-000000000004"]);
}

use reflections::model::{Event, EventType, Note};
use reflections::timeline::{order_by_creation, timeline_entity_ids};

fn ev(id: u128, secs: i64) -> Event {
    Event {
        event_id: id,
        entity_id: 1,
        event_type: EventType::NoteCreated,
        metadata: "{}".to_string(),
        created_at: at(secs),
        updated_at: at(secs),
    }
}

#[test]
fn timeline_events_are_ordered_by_creation_keeping_ties() {
    let ordered = order_by_creation(vec![ev(1, 30), ev(2, 10), ev(3, 30), ev(4, 20), ev(5, 10)]);
    let ids: Vec<u128> = ordered.iter().map(|e| e.event_id).collect();
    assert_eq!(ids, vec![2, 5, 4, 1, 3]);
    assert!(order_by_creation(vec![]).is_empty());
}

#[test]
fn timeline_takes_in_linked_reflections_and_notes() {
    let r = Reflection { id: 7, about_id: Some(1), file_path: "r.md".to_string(), created_at: at(0), updated_at: at(0) };
    let n = Note { id: 9, related_to_id: Some(1), file_path: "n.md".to_string(), created_at: at(0), updated_at: at(0) };
    assert_eq!(timeline_entity_ids(1, &vec![r], &vec![n]), vec![1, 7, 9]);
}

#[test]
fn syncing_the_applied_plan_again_changes_nothing() {
    let existing = vec![meeting(1, "Standup", 100), meeting(2, "Retro", 200)];
    let events = vec![event("Standup", 150), event("Planning", 400)];
    let plan = plan_sync(&existing, &events);
    assert_eq!(plan.len(), 2);
    let after = vec![meeting(1, "Standup", 150), meeting(2, "Retro", 200), meeting(3, "Planning", 400)];
    assert!(plan_sync(&after, &events).is_empty());
}
