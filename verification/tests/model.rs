use reflections::model::{EventType, TodoStatus, UnknownName};

#[test]
fn reflection_created_display() {
    assert_eq!(EventType::ReflectionCreated.to_string(), "REFLECTION_CREATED");
}

#[test]
fn reflection_created_from_str() {
    assert_eq!(
        "REFLECTION_CREATED".parse::<EventType>().expect("parse failed"),
        EventType::ReflectionCreated
    );
}

#[test]
fn note_created_display() {
    assert_eq!(EventType::NoteCreated.to_string(), "NOTE_CREATED");
}

#[test]
fn note_created_from_str() {
    assert_eq!("NOTE_CREATED".parse::<EventType>().expect("parse failed"), EventType::NoteCreated);
}

#[test]
fn summary_created_display_and_from_str() {
    assert_eq!(EventType::SummaryCreated.to_string(), "SUMMARY_CREATED");
    assert_eq!(
        "SUMMARY_CREATED".parse::<EventType>().expect("parse failed"),
        EventType::SummaryCreated
    );
}

#[test]
fn reflection_updated_display_and_from_str() {
    assert_eq!(EventType::ReflectionUpdated.to_string(), "REFLECTION_UPDATED");
    assert_eq!(
        "REFLECTION_UPDATED".parse::<EventType>().expect("parse failed"),
        EventType::ReflectionUpdated
    );
}

#[test]
fn summary_updated_display_and_from_str() {
    assert_eq!(EventType::SummaryUpdated.to_string(), "SUMMARY_UPDATED");
    assert_eq!(
        "SUMMARY_UPDATED".parse::<EventType>().expect("parse failed"),
        EventType::SummaryUpdated
    );
}

#[test]
fn every_event_type_name_parses_back() {
    let all = [
        EventType::TodoItemCreated,
        EventType::TodoItemStatusChanged,
        EventType::MeetingCreated,
        EventType::ReflectionCreated,
        EventType::NoteCreated,
        EventType::SummaryCreated,
        EventType::ReflectionUpdated,
        EventType::SummaryUpdated,
    ];
    for t in all {
        assert_eq!(EventType::parse(&t.to_string()), Ok(t));
        assert_eq!(t.as_str(), t.to_string());
    }
}

#[test]
fn every_status_name_parses_back() {
    for st in [TodoStatus::New, TodoStatus::InProgress, TodoStatus::Done] {
        assert_eq!(TodoStatus::parse(&st.to_string()), Ok(st));
    }
    assert_eq!(TodoStatus::InProgress.to_string(), "IN_PROGRESS");
    assert_eq!("DONE".parse::<TodoStatus>(), Ok(TodoStatus::Done));
}

#[test]
fn unknown_names_are_refused_with_the_text() {
    assert_eq!(EventType::parse("note_created"), Err(UnknownName("note_created".to_string())));
    assert_eq!(TodoStatus::parse("Done"), Err(UnknownName("Done".to_string())));
    assert_eq!(
        UnknownName("X".to_string()).message("TodoStatus"),
        "invalid TodoStatus: X"
    );
}
