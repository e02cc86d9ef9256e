//! The records of the journal: todo items, meetings, notes, reflections,
//! summaries, the events that tell their history, and the names these are
//! stored under.
use vstd::prelude::*;
use crate::text::str_eq;
use crate::time::UtcTime;

verus! {

/// Where a todo item stands.
#[derive(Clone, Copy, Debug, PartialEq, Eq, Structural)]
pub enum TodoStatus {
    New,
    InProgress,
    Done,
}

/// What happened to an entity of the journal.
#[derive(Clone, Copy, Debug, PartialEq, Eq, Structural)]
pub enum EventType {
    TodoItemCreated,
    TodoItemStatusChanged,
    MeetingCreated,
    ReflectionCreated,
    NoteCreated,
    SummaryCreated,
    ReflectionUpdated,
    SummaryUpdated,
}

/// A stored name that names no known value; it holds the name.
#[derive(Clone, Debug, PartialEq, Eq)]
pub struct UnknownName(pub String);

impl UnknownName {
    /// The message of the error, naming the kind of value that was expected.
    pub fn message(&self, kind: &str) -> (m: String)
        ensures
            m@ == seq!['i', 'n', 'v', 'a', 'l', 'i', 'd', ' '] + kind@ + seq![':', ' '] + self.0@,
    {
        proof {
            reveal_strlit("invalid ");
            reveal_strlit(": ");
        }
        let mut m = String::from_str("invalid ");
        m.append(kind);
        m.append(": ");
        m.append(self.0.as_str());
        assert(m@ =~= seq!['i', 'n', 'v', 'a', 'l', 'i', 'd', ' '] + kind@ + seq![':', ' '] + self.0@);
        m
    }
}

impl TodoStatus {
    /// The name the status is stored and shown under.
    pub open spec fn spec_name(self) -> Seq<char> {
        match self {
            TodoStatus::New => "NEW"@,
            TodoStatus::InProgress => "IN_PROGRESS"@,
            TodoStatus::Done => "DONE"@,
        }
    }

    pub fn as_str(&self) -> (s: &'static str)
        ensures
            s@ == self.spec_name(),
    {
        match self {
            TodoStatus::New => "NEW",
            TodoStatus::InProgress => "IN_PROGRESS",
            TodoStatus::Done => "DONE",
        }
    }

    /// The name the status is stored and shown under.
    pub fn to_string(&self) -> (s: String)
        ensures
            s@ == self.spec_name(),
    {
        String::from_str(self.as_str())
    }

    /// The status stored under `s`; an error for any other text.
    pub fn parse(s: &str) -> (r: Result<TodoStatus, UnknownName>)
        ensures
            match r {
                Ok(st) => st.spec_name() == s@,
                Err(e) => e.0@ == s@ && forall|st: TodoStatus| st.spec_name() != s@,
            },
    {
        proof {
            reveal_strlit("NEW");
            reveal_strlit("IN_PROGRESS");
            reveal_strlit("DONE");
        }
        if str_eq(s, "NEW") {
            Ok(TodoStatus::New)
        } else if str_eq(s, "IN_PROGRESS") {
            Ok(TodoStatus::InProgress)
        } else if str_eq(s, "DONE") {
            Ok(TodoStatus::Done)
        } else {
            Err(UnknownName(String::from_str(s)))
        }
    }
}

impl EventType {
    /// The name the event type is stored and shown under.
    pub open spec fn spec_name(self) -> Seq<char> {
        match self {
            EventType::TodoItemCreated => "TODO_ITEM_CREATED"@,
            EventType::TodoItemStatusChanged => "TODO_ITEM_STATUS_CHANGED"@,
            EventType::MeetingCreated => "MEETING_CREATED"@,
            EventType::ReflectionCreated => "REFLECTION_CREATED"@,
            EventType::NoteCreated => "NOTE_CREATED"@,
            EventType::SummaryCreated => "SUMMARY_CREATED"@,
            EventType::ReflectionUpdated => "REFLECTION_UPDATED"@,
            EventType::SummaryUpdated => "SUMMARY_UPDATED"@,
        }
    }

    pub fn as_str(&self) -> (s: &'static str)
        ensures
            s@ == self.spec_name(),
    {
        match self {
            EventType::TodoItemCreated => "TODO_ITEM_CREATED",
            EventType::TodoItemStatusChanged => "TODO_ITEM_STATUS_CHANGED",
            EventType::MeetingCreated => "MEETING_CREATED",
            EventType::ReflectionCreated => "REFLECTION_CREATED",
            EventType::NoteCreated => "NOTE_CREATED",
            EventType::SummaryCreated => "SUMMARY_CREATED",
            EventType::ReflectionUpdated => "REFLECTION_UPDATED",
            EventType::SummaryUpdated => "SUMMARY_UPDATED",
        }
    }

    /// The name the event type is stored and shown under.
    pub fn to_string(&self) -> (s: String)
        ensures
            s@ == self.spec_name(),
    {
        String::from_str(self.as_str())
    }

    /// The event type stored under `s`; an error for any other text.
    pub fn parse(s: &str) -> (r: Result<EventType, UnknownName>)
        ensures
            match r {
                Ok(e) => e.spec_name() == s@,
                Err(e) => e.0@ == s@ && forall|t: EventType| t.spec_name() != s@,
            },
    {
        proof {
            reveal_strlit("TODO_ITEM_CREATED");
            reveal_strlit("TODO_ITEM_STATUS_CHANGED");
            reveal_strlit("MEETING_CREATED");
            reveal_strlit("REFLECTION_CREATED");
            reveal_strlit("REFLECTION_UPDATED");
            reveal_strlit("NOTE_CREATED");
            reveal_strlit("SUMMARY_CREATED");
            reveal_strlit("SUMMARY_UPDATED");
        }
        if str_eq(s, "TODO_ITEM_CREATED") {
            Ok(EventType::TodoItemCreated)
        } else if str_eq(s, "TODO_ITEM_STATUS_CHANGED") {
            Ok(EventType::TodoItemStatusChanged)
        } else if str_eq(s, "MEETING_CREATED") {
            Ok(EventType::MeetingCreated)
        } else if str_eq(s, "REFLECTION_CREATED") {
            Ok(EventType::ReflectionCreated)
        } else if str_eq(s, "REFLECTION_UPDATED") {
            Ok(EventType::ReflectionUpdated)
        } else if str_eq(s, "NOTE_CREATED") {
            Ok(EventType::NoteCreated)
        } else if str_eq(s, "SUMMARY_CREATED") {
            Ok(EventType::SummaryCreated)
        } else if str_eq(s, "SUMMARY_UPDATED") {
            Ok(EventType::SummaryUpdated)
        } else {
            Err(UnknownName(String::from_str(s)))
        }
    }
}

impl core::str::FromStr for TodoStatus {
    type Err = UnknownName;

    fn from_str(s: &str) -> (r: Result<TodoStatus, UnknownName>)
        ensures
            match r {
                Ok(st) => st.spec_name() == s@,
                Err(e) => e.0@ == s@ && forall|t: TodoStatus| t.spec_name() != s@,
            },
            spec_todo_status_named(s@) == match r {
                Ok(st) => Some(st),
                Err(_) => None,
            },
    {
        let r = TodoStatus::parse(s);
        proof {
            if let Ok(st) = r {
                law_todo_status_parses_its_name(st);
            }
        }
        r
    }
}

impl core::str::FromStr for EventType {
    type Err = UnknownName;

    fn from_str(s: &str) -> (r: Result<EventType, UnknownName>)
        ensures
            match r {
                Ok(e) => e.spec_name() == s@,
                Err(e) => e.0@ == s@ && forall|t: EventType| t.spec_name() != s@,
            },
            spec_event_type_named(s@) == match r {
                Ok(e) => Some(e),
                Err(_) => None,
            },
    {
        let r = EventType::parse(s);
        proof {
            if let Ok(e) = r {
                law_event_type_parses_its_name(e);
            }
        }
        r
    }
}

/// A todo item.
#[derive(Clone, Debug)]
pub struct TodoItem {
    pub id: u128,
    pub label: String,
    pub status: TodoStatus,
    pub created_at: UtcTime,
    pub updated_at: UtcTime,
}

/// A meeting on the calendar.
#[derive(Clone, Debug)]
pub struct Meeting {
    pub id: u128,
    pub name: String,
    pub scheduled_at: UtcTime,
    pub created_at: UtcTime,
    pub updated_at: UtcTime,
}

/// A note, kept in a markdown file, possibly about another entity.
#[derive(Clone, Debug)]
pub struct Note {
    pub id: u128,
    pub related_to_id: Option<u128>,
    pub file_path: String,
    pub created_at: UtcTime,
    pub updated_at: UtcTime,
}

/// A reflection, kept in a markdown file, possibly about another entity.
#[derive(Clone, Debug)]
pub struct Reflection {
    pub id: u128,
    pub about_id: Option<u128>,
    pub file_path: String,
    pub created_at: UtcTime,
    pub updated_at: UtcTime,
}

/// A summary of a stretch of time, kept in a markdown file.
#[derive(Clone, Debug)]
pub struct Summary {
    pub id: u128,
    pub file_path: String,
    pub start: UtcTime,
    pub end: UtcTime,
    pub created_at: UtcTime,
    pub updated_at: UtcTime,
}

/// Something that happened to an entity, as the event log keeps it.
#[derive(Clone, Debug)]
pub struct Event {
    pub event_id: u128,
    pub entity_id: u128,
    pub event_type: EventType,
    pub metadata: String,
    pub created_at: UtcTime,
    pub updated_at: UtcTime,
}

/// One line of a two-sided diff: kept on both sides, removed, or added.
#[derive(Clone, Debug)]
pub struct DiffEntry {
    pub left: Option<String>,
    pub right: Option<String>,
}

/// A meeting as a calendar reports it.
#[derive(Clone, Debug)]
pub struct CalendarEvent {
    pub name: String,
    pub scheduled_at: UtcTime,
}

/// A status is told apart by its stored name, so parsing the name that
/// `to_string` gives yields the status back.
pub proof fn law_todo_status_name_round_trip(st: TodoStatus)
    ensures
        forall|other: TodoStatus| other.spec_name() == st.spec_name() ==> other == st,
{
    reveal_strlit("NEW");
    reveal_strlit("IN_PROGRESS");
    reveal_strlit("DONE");
    assert forall|other: TodoStatus| other.spec_name() == st.spec_name() implies other == st by {
        if other != st {
            assert(other.spec_name().len() != st.spec_name().len() || other.spec_name()[0]
                != st.spec_name()[0]);
        }
    }
}

/// An event type is told apart by its stored name, so parsing the name that
/// `to_string` gives yields the event type back.
pub proof fn law_event_type_name_round_trip(t: EventType)
    ensures
        forall|other: EventType| other.spec_name() == t.spec_name() ==> other == t,
{
    reveal_strlit("TODO_ITEM_CREATED");
    reveal_strlit("TODO_ITEM_STATUS_CHANGED");
    reveal_strlit("MEETING_CREATED");
    reveal_strlit("REFLECTION_CREATED");
    reveal_strlit("REFLECTION_UPDATED");
    reveal_strlit("NOTE_CREATED");
    reveal_strlit("SUMMARY_CREATED");
    reveal_strlit("SUMMARY_UPDATED");
    assert forall|other: EventType| other.spec_name() == t.spec_name() implies other == t by {
        if other != t {
            assert(other.spec_name().len() != t.spec_name().len() || other.spec_name()[0]
                != t.spec_name()[0] || other.spec_name()[8] != t.spec_name()[8] || other.spec_name()[11]
                != t.spec_name()[11]);
        }
    }
}

/// The status stored under the name `s`, if any.
pub open spec fn spec_todo_status_named(s: Seq<char>) -> Option<TodoStatus> {
    if exists|t: TodoStatus| t.spec_name() == s {
        Some(choose|t: TodoStatus| t.spec_name() == s)
    } else {
        None
    }
}

/// The event type stored under the name `s`, if any.
pub open spec fn spec_event_type_named(s: Seq<char>) -> Option<EventType> {
    if exists|t: EventType| t.spec_name() == s {
        Some(choose|t: EventType| t.spec_name() == s)
    } else {
        None
    }
}

/// Reading back the name a status is stored under gives that status:
/// `from_str(&st.to_string()) == Ok(st)`, and only the three names read.
pub proof fn law_todo_status_parses_its_name(st: TodoStatus)
    ensures
        spec_todo_status_named(st.spec_name()) == Some(st),
{
    law_todo_status_name_round_trip(st);
    assert(exists|t: TodoStatus| t.spec_name() == st.spec_name());
}

/// Reading back the name an event type is stored under gives that event type:
/// `from_str(&e.to_string()) == Ok(e)`, and only the eight names read.
pub proof fn law_event_type_parses_its_name(e: EventType)
    ensures
        spec_event_type_named(e.spec_name()) == Some(e),
{
    law_event_type_name_round_trip(e);
    assert(exists|t: EventType| t.spec_name() == e.spec_name());
}

} // verus!
