use reflections::timeline::status_change_from_fields;
use reflections::model::{DiffEntry, EventType, Meeting, Reflection, Summary, TodoItem, TodoStatus};
use reflections::time::UtcTime;
use reflections::timeline::{
    build_markdown_content, entity_kind, format_diff_entry, format_entry, parse_status_change,
    status_change_metadata, EntityKind, ReflectionWithContent, SummaryWithContent, TimelineEntity,
    TimelineEntry,
};
use reflections::views::TimelineView;

const TIME: &str = "2026-01-01 12:00";

fn t0() -> UtcTime {
    UtcTime { secs: 1_767_268_800, nanos: 0 }
}

fn entry(event_type: EventType, metadata: &str, entity: Option<TimelineEntity>) -> TimelineEntry {
    TimelineEntry {
        event_id: 1,
        entity_id: 2,
        event_type,
        metadata: metadata.to_string(),
        created_at: t0(),
        updated_at: t0(),
        entity,
        diff: None,
    }
}

fn todo_entity(label: &str) -> TimelineEntity {
    TimelineEntity::TodoItem(TodoItem {
        id: 2,
        label: label.to_string(),
        status: TodoStatus::New,
        created_at: t0(),
        updated_at: t0(),
    })
}

fn reflection_entity(content: Option<&str>) -> TimelineEntity {
    TimelineEntity::Reflection(ReflectionWithContent {
        reflection: Reflection { id: 2, about_id: None, file_path: "test.md".to_string(), created_at: t0(), updated_at: t0() },
        content: content.map(String::from),
    })
}

fn summary_entity(content: Option<&str>) -> TimelineEntity {
    TimelineEntity::Summary(SummaryWithContent {
        summary: Summary {
            id: 2,
            file_path: "test.md".to_string(),
            start: t0(),
            end: UtcTime { secs: t0().secs + 3600, nanos: 0 },
            created_at: t0(),
            updated_at: t0(),
        },
        content: content.map(String::from),
    })
}

#[test]
fn todo_created_entry_shows_the_label() {
    let e = entry(EventType::TodoItemCreated, "{}", Some(todo_entity("Test todo item")));
    assert_eq!(format_entry(&e, TIME), "## 📋 Todo Created — 2026-01-01 12:00\n\nTest todo item\n");
    let missing = entry(EventType::TodoItemCreated, "{}", None);
    assert_eq!(format_entry(&missing, TIME), "## 📋 Todo Created — 2026-01-01 12:00\n\n(no label)\n");
}

#[test]
fn status_change_entry_reads_the_metadata() {
    let metadata = status_change_metadata(TodoStatus::New, TodoStatus::InProgress);
    let e = entry(EventType::TodoItemStatusChanged, &metadata, None);
    assert_eq!(format_entry(&e, TIME), "## 📋 Status Changed — 2026-01-01 12:00\n\nNEW → IN_PROGRESS\n");
}

#[test]
fn status_change_metadata_round_trips() {
    let m = status_change_metadata(TodoStatus::InProgress, TodoStatus::Done);
    assert_eq!(m, r#"{"new_status":"DONE","old_status":"IN_PROGRESS"}"#);
    assert_eq!(parse_status_change(&m), "IN_PROGRESS → DONE");
}

#[test]
fn status_change_text_handles_missing_and_invalid_metadata() {
    assert_eq!(parse_status_change("not json"), "(invalid metadata)");
    assert_eq!(parse_status_change(r#"{"new_status":"DONE"}"#), "UNKNOWN → DONE");
    assert_eq!(parse_status_change(r#"{"old_status":"NEW","new_status":3}"#), "NEW → UNKNOWN");
    assert_eq!(parse_status_change("{}"), "UNKNOWN → UNKNOWN");
}

#[test]
fn meeting_entry_shows_the_name() {
    let e = entry(
        EventType::MeetingCreated,
        "{}",
        Some(TimelineEntity::Meeting(Meeting {
            id: 2,
            name: "Team Standup".to_string(),
            scheduled_at: t0(),
            created_at: t0(),
            updated_at: t0(),
        })),
    );
    assert_eq!(format_entry(&e, TIME), "## 📅 Meeting Created — 2026-01-01 12:00\n\nTeam Standup\n");
}

#[test]
fn content_entries_show_the_file_text() {
    let r = entry(EventType::ReflectionCreated, "{}", Some(reflection_entity(Some("This is reflection content"))));
    assert_eq!(format_entry(&r, TIME), "## 💭 Reflection — 2026-01-01 12:00\n\nThis is reflection content\n");
    let s = entry(EventType::SummaryCreated, "{}", Some(summary_entity(Some("Weekly summary content"))));
    assert_eq!(format_entry(&s, TIME), "## 📊 Summary — 2026-01-01 12:00\n\nWeekly summary content\n");
    let unread = entry(EventType::SummaryCreated, "{}", Some(summary_entity(None)));
    assert_eq!(format_entry(&unread, TIME), "## 📊 Summary — 2026-01-01 12:00\n\n(no content)\n");
    let wrong = entry(EventType::NoteCreated, "{}", Some(reflection_entity(Some("x"))));
    assert_eq!(format_entry(&wrong, TIME), "## 📝 Note — 2026-01-01 12:00\n\n(no content)\n");
}

#[test]
fn update_entries_show_the_diff() {
    let diff = vec![
        DiffEntry { left: Some("old line".to_string()), right: Some("old line".to_string()) },
        DiffEntry { left: None, right: Some("new line".to_string()) },
        DiffEntry { left: Some("removed line".to_string()), right: None },
    ];
    let mut e = entry(EventType::ReflectionUpdated, "[]", Some(reflection_entity(Some("updated"))));
    e.diff = Some(diff);
    assert_eq!(
        format_entry(&e, TIME),
        "## 💭 Reflection Update — 2026-01-01 12:00\n\n```\n old line\n+new line\n-removed line\n```\n"
    );
    let mut none = entry(EventType::SummaryUpdated, "[]", None);
    assert_eq!(
        format_entry(&none, TIME),
        "## 📊 Summary Update — 2026-01-01 12:00\n\n (no diff content) \n"
    );
    none.diff = Some(vec![]);
    assert_eq!(format_diff_entry("📊 Summary Update", TIME, &none.diff), format_entry(&none, TIME));
}

#[test]
fn markdown_joins_entries_with_separators() {
    let a = entry(EventType::TodoItemCreated, "{}", Some(todo_entity("A")));
    let b = entry(EventType::TodoItemCreated, "{}", Some(todo_entity("B")));
    let md = build_markdown_content(&vec![a, b], &vec![TIME.to_string(), "2026-01-02 08:30".to_string()]);
    assert_eq!(
        md,
        "## 📋 Todo Created — 2026-01-01 12:00\n\nA\n\n---\n\n## 📋 Todo Created — 2026-01-02 08:30\n\nB\n"
    );
    assert_eq!(build_markdown_content(&vec![], &vec![]), "No events found for this entity.");
}

#[test]
fn timeline_page_markdown_uses_local_times() {
    let view = TimelineView::new(vec![], "Empty");
    assert_eq!(view.markdown(), "No events found for this entity.");
    let view = TimelineView::new(vec![entry(EventType::TodoItemCreated, "{}", Some(todo_entity("Short")))], "T");
    let md = view.markdown();
    assert!(md.starts_with("## 📋 Todo Created — 2026-01-0"));
    assert!(md.ends_with("\n\nShort\n"));
}

#[test]
fn updated_events_look_up_the_updated_record() {
    assert_eq!(entity_kind(EventType::ReflectionUpdated), EntityKind::Reflection);
    assert_eq!(entity_kind(EventType::SummaryUpdated), EntityKind::Summary);
    assert_eq!(entity_kind(EventType::TodoItemStatusChanged), EntityKind::TodoItem);
    assert_eq!(entity_kind(EventType::NoteCreated), EntityKind::Note);
    assert_eq!(entity_kind(EventType::MeetingCreated), EntityKind::Meeting);
}

#[test]
fn status_change_text_from_the_read_fields() {
    assert_eq!(status_change_from_fields(None, None), "(invalid metadata)");
    assert_eq!(
        status_change_from_fields(Some(Some("NEW".to_string())), Some(None)),
        "NEW → UNKNOWN"
    );
    assert_eq!(
        status_change_from_fields(Some(None), Some(Some("DONE".to_string()))),
        "UNKNOWN → DONE"
    );
}
