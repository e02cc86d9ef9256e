use reflections::model::{EventType, TodoStatus};
use reflections::rows::{
    event_from_columns, meeting_from_columns, note_from_columns, reflection_from_columns, summary_from_columns,
    todo_item_from_columns, RowError,
};
use reflections::services::{cleanup_action, CleanupAction};
use reflections::time::UtcTime;

const ID: &str = "01900000-0000-7000-8000-000000000001";
const ID2: &str = "01900000-0000-7000-8000-000000000002";
const T: &str = "2026-01-01 12:00:00";
const T_RFC: &str = "2026-01-01T12:00:00+00:00";

fn noon() -> UtcTime {
    UtcTime { secs: 1_767_268_800, nanos: 0 }
}

#[test]
fn todo_rows_are_read() {
    let item = todo_item_from_columns(ID, "ship".to_string(), "IN_PROGRESS", T, T_RFC).expect("row");
    assert_eq!(item.id, 0x0190_0000_0000_7000_8000_0000_0000_0001);
    assert_eq!(item.label, "ship");
    assert_eq!(item.status, TodoStatus::InProgress);
    assert_eq!(item.created_at, noon());
    assert_eq!(item.updated_at, noon());
}

#[test]
fn the_first_bad_column_is_reported() {
    assert_eq!(
        todo_item_from_columns("nope", "x".to_string(), "BOGUS", "bad", T).err(),
        Some(RowError::BadId("nope".to_string()))
    );
    assert_eq!(
        todo_item_from_columns(ID, "x".to_string(), "BOGUS", "bad", T).err(),
        Some(RowError::BadName("BOGUS".to_string()))
    );
    assert_eq!(
        todo_item_from_columns(ID, "x".to_string(), "NEW", "bad", T).err(),
        Some(RowError::BadTimestamp("bad".to_string()))
    );
}

#[test]
fn rows_of_every_table_are_read() {
    let m = meeting_from_columns(ID, "Standup".to_string(), T, T, T).expect("row");
    assert_eq!(m.scheduled_at, noon());
    let n = note_from_columns(ID, Some(ID2), "a.md".to_string(), T, T).expect("row");
    assert_eq!(n.related_to_id, Some(0x0190_0000_0000_7000_8000_0000_0000_0002));
    let r = reflection_from_columns(ID, None, "b.md".to_string(), T, T).expect("row");
    assert_eq!(r.about_id, None);
    assert_eq!(
        reflection_from_columns(ID, Some("x"), "b.md".to_string(), T, T).err(),
        Some(RowError::BadId("x".to_string()))
    );
    let s = summary_from_columns(ID, "c.md".to_string(), T, "2026-01-02 12:00:00", T, T).expect("row");
    assert_eq!(s.end, UtcTime { secs: 1_767_355_200, nanos: 0 });
    let e = event_from_columns(ID, ID2, "MEETING_CREATED", "{}".to_string(), T, T).expect("row");
    assert_eq!(e.event_type, EventType::MeetingCreated);
    assert_eq!(
        event_from_columns(ID, ID2, "MEETING", "{}".to_string(), T, T).err(),
        Some(RowError::BadName("MEETING".to_string()))
    );
}

#[test]
fn empty_or_missing_files_are_discarded() {
    assert_eq!(cleanup_action(None), CleanupAction::Discard);
    assert_eq!(cleanup_action(Some(0)), CleanupAction::Discard);
    assert_eq!(cleanup_action(Some(12)), CleanupAction::KeepAndSyncTags);
}

use reflections::tag_sql::{entity_tag_batch_statement, tag_batch_statement};

#[test]
fn tag_rows_are_stored_in_one_statement() {
    assert!(tag_batch_statement(&vec![], "now").is_none());
    let (sql, params) = tag_batch_statement(&vec![(1, "alpha".to_string()), (2, "beta".to_string())], "T").expect("rows");
    assert_eq!(
        sql,
        "INSERT INTO tag (tag_id, label, created_at, updated_at) VALUES (?, ?, ?, ?), (?, ?, ?, ?)\n           ON CONFLICT(label) DO UPDATE SET updated_at = excluded.updated_at\n           RETURNING tag_id"
    );
    assert_eq!(
        params,
        vec![
            "00000000-0000-0000-0000-000000000001", "alpha", "T", "T",
            "00000000-0000-0000-0000-000000000002", "beta", "T", "T",
        ]
    );
}

#[test]
fn tag_links_are_stored_in_one_statement() {
    assert!(entity_tag_batch_statement(&vec![], &vec![], 5, "T").is_none());
    let (sql, params) = entity_tag_batch_statement(&vec![9], &vec![3], 5, "T").expect("links");
    assert_eq!(
        sql,
        "INSERT OR IGNORE INTO entity_tag (entity_tag_id, tag_id, entity_id, created_at, updated_at) VALUES (?, ?, ?, ?, ?)"
    );
    assert_eq!(
        params,
        vec![
            "00000000-0000-0000-0000-000000000009",
            "00000000-0000-0000-0000-000000000003",
            "00000000-0000-0000-0000-000000000005",
            "T",
            "T",
        ]
    );
}
