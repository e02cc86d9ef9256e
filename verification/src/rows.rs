//! Reading stored rows back: the text columns of a row of each table, turned
//! into the journal's records. Ids are hyphenated UUIDs, times RFC 3339 or
//! `%Y-%m-%d %H:%M:%S`, statuses and event types their stored names.
use vstd::prelude::*;
use crate::ids::spec_uuid_text;
use crate::model::{Event, EventType, Meeting, Note, Reflection, Summary, TodoItem, TodoStatus};
use crate::time::{parse_timestamp, spec_parse_timestamp, UtcTime};

verus! {

/// The id `uuid::Uuid::parse_str` reads from `text`, when it reads one.
pub uninterp spec fn uuid_value(text: Seq<char>) -> Option<u128>;

/// `uuid::Uuid::parse_str`, as a 128-bit number. Parsing the hyphenated text
/// of an id gives the id back.
#[verifier::external_body]
fn parse_uuid(text: &str) -> (r: Option<u128>)
    ensures
        r == uuid_value(text@),
        forall|v: u128| text@ == spec_uuid_text(v) ==> r == Some(v),
{
    uuid::Uuid::parse_str(text).ok().map(|u| u.as_u128())
}

/// Why a stored row could not be read; each holds the text of the column.
#[derive(Debug, PartialEq, Eq)]
pub enum RowError {
    BadId(String),
    BadName(String),
    BadTimestamp(String),
}

pub enum RowErrorView {
    BadId(Seq<char>),
    BadName(Seq<char>),
    BadTimestamp(Seq<char>),
}

impl View for RowError {
    type V = RowErrorView;

    open spec fn view(&self) -> RowErrorView {
        match self {
            RowError::BadId(s) => RowErrorView::BadId(s@),
            RowError::BadName(s) => RowErrorView::BadName(s@),
            RowError::BadTimestamp(s) => RowErrorView::BadTimestamp(s@),
        }
    }
}

/// Some status is stored under `s`.
pub open spec fn spec_is_status_name(s: Seq<char>) -> bool {
    exists|st: TodoStatus| st.spec_name() == s
}

/// Some event type is stored under `s`.
pub open spec fn spec_is_event_type_name(s: Seq<char>) -> bool {
    exists|t: EventType| t.spec_name() == s
}

/// A column that should hold an id: an error naming it when it holds none.
pub open spec fn spec_id_error(text: Seq<char>) -> Option<RowErrorView> {
    if uuid_value(text) is None {
        Some(RowErrorView::BadId(text))
    } else {
        None
    }
}

/// A column that should hold a time: an error naming it when it holds none.
pub open spec fn spec_time_error(text: Seq<char>) -> Option<RowErrorView> {
    if spec_parse_timestamp(text) is None {
        Some(RowErrorView::BadTimestamp(text))
    } else {
        None
    }
}

/// The first of two column checks that fails.
pub open spec fn spec_either(first: Option<RowErrorView>, rest: Option<RowErrorView>) -> Option<RowErrorView> {
    if first is Some {
        first
    } else {
        rest
    }
}

fn read_id(text: &str) -> (r: Result<u128, RowError>)
    ensures
        match r {
            Ok(v) => uuid_value(text@) == Some(v),
            Err(e) => uuid_value(text@) is None && e@ == RowErrorView::BadId(text@),
        },
{
    match parse_uuid(text) {
        Some(v) => Ok(v),
        None => Err(RowError::BadId(String::from_str(text))),
    }
}

fn read_time(text: &str) -> (r: Result<UtcTime, RowError>)
    ensures
        match r {
            Ok(t) => spec_parse_timestamp(text@) == Some(t),
            Err(e) => spec_parse_timestamp(text@) is None && e@ == RowErrorView::BadTimestamp(text@),
        },
{
    match parse_timestamp(text) {
        Ok(t) => Ok(t),
        Err(_) => Err(RowError::BadTimestamp(String::from_str(text))),
    }
}

/// A column that may hold an id or nothing.
pub open spec fn spec_opt_id_error(text: Option<Seq<char>>) -> Option<RowErrorView> {
    match text {
        Some(t) => spec_id_error(t),
        None => None,
    }
}

pub open spec fn spec_opt_view(o: Option<&str>) -> Option<Seq<char>> {
    match o {
        Some(s) => Some(s@),
        None => None,
    }
}

fn read_opt_id(text: Option<&str>) -> (r: Result<Option<u128>, RowError>)
    ensures
        match r {
            Ok(v) => spec_opt_id_error(spec_opt_view(text)) is None && match text {
                Some(t) => uuid_value(t@) == v,
                None => v is None,
            },
            Err(e) => spec_opt_id_error(spec_opt_view(text)) == Some(e@),
        },
{
    match text {
        Some(t) => match read_id(t) {
            Ok(v) => Ok(Some(v)),
            Err(e) => Err(e),
        },
        None => Ok(None),
    }
}

/// A todo item from its columns: id, label, status, created, updated.
pub fn todo_item_from_columns(id: &str, label: String, status: &str, created: &str, updated: &str) -> (r: Result<
    TodoItem,
    RowError,
>)
    ensures
        match r {
            Ok(item) => {
                &&& uuid_value(id@) == Some(item.id)
                &&& item.label == label
                &&& item.status.spec_name() == status@
                &&& spec_parse_timestamp(created@) == Some(item.created_at)
                &&& spec_parse_timestamp(updated@) == Some(item.updated_at)
            },
            Err(e) => Some(e@) ==
                spec_either(spec_id_error(id@),
                    spec_either(if spec_is_status_name(status@) { None } else { Some(RowErrorView::BadName(status@)) },
                        spec_either(spec_time_error(created@),
                            spec_time_error(updated@)))),
        },
{
    let id = match read_id(id) {
        Ok(v) => v,
        Err(e) => return Err(e),
    };
    let status = match TodoStatus::parse(status) {
        Ok(st) => st,
        Err(_) => return Err(RowError::BadName(String::from_str(status))),
    };
    let created_at = match read_time(created) {
        Ok(t) => t,
        Err(e) => return Err(e),
    };
    let updated_at = match read_time(updated) {
        Ok(t) => t,
        Err(e) => return Err(e),
    };
    Ok(TodoItem { id, label, status, created_at, updated_at })
}

/// A meeting from its columns: id, name, scheduled, created, updated.
pub fn meeting_from_columns(id: &str, name: String, scheduled: &str, created: &str, updated: &str) -> (r: Result<
    Meeting,
    RowError,
>)
    ensures
        match r {
            Ok(m) => {
                &&& uuid_value(id@) == Some(m.id)
                &&& m.name == name
                &&& spec_parse_timestamp(scheduled@) == Some(m.scheduled_at)
                &&& spec_parse_timestamp(created@) == Some(m.created_at)
                &&& spec_parse_timestamp(updated@) == Some(m.updated_at)
            },
            Err(e) => Some(e@) ==
                spec_either(spec_id_error(id@),
                    spec_either(spec_time_error(scheduled@),
                        spec_either(spec_time_error(created@),
                            spec_time_error(updated@)))),
        },
{
    let id = match read_id(id) {
        Ok(v) => v,
        Err(e) => return Err(e),
    };
    let scheduled_at = match read_time(scheduled) {
        Ok(t) => t,
        Err(e) => return Err(e),
    };
    let created_at = match read_time(created) {
        Ok(t) => t,
        Err(e) => return Err(e),
    };
    let updated_at = match read_time(updated) {
        Ok(t) => t,
        Err(e) => return Err(e),
    };
    Ok(Meeting { id, name, scheduled_at, created_at, updated_at })
}

/// A note from its columns: id, the id it is about (if any), file path,
/// created, updated.
pub fn note_from_columns(id: &str, related_to_id: Option<&str>, file_path: String, created: &str, updated: &str) -> (r:
    Result<Note, RowError>)
    ensures
        match r {
            Ok(n) => {
                &&& uuid_value(id@) == Some(n.id)
                &&& match related_to_id {
                    Some(t) => uuid_value(t@) == n.related_to_id,
                    None => n.related_to_id is None,
                }
                &&& n.file_path == file_path
                &&& spec_parse_timestamp(created@) == Some(n.created_at)
                &&& spec_parse_timestamp(updated@) == Some(n.updated_at)
            },
            Err(e) => Some(e@) ==
                spec_either(spec_id_error(id@),
                    spec_either(spec_time_error(created@),
                        spec_either(spec_time_error(updated@),
                            spec_opt_id_error(spec_opt_view(related_to_id))))),
        },
{
    let id = match read_id(id) {
        Ok(v) => v,
        Err(e) => return Err(e),
    };
    let created_at = match read_time(created) {
        Ok(t) => t,
        Err(e) => return Err(e),
    };
    let updated_at = match read_time(updated) {
        Ok(t) => t,
        Err(e) => return Err(e),
    };
    let related_to_id = match read_opt_id(related_to_id) {
        Ok(v) => v,
        Err(e) => return Err(e),
    };
    Ok(Note { id, related_to_id, file_path, created_at, updated_at })
}

/// A reflection from its columns: id, the id it is about (if any), file path,
/// created, updated.
pub fn reflection_from_columns(id: &str, about_id: Option<&str>, file_path: String, created: &str, updated: &str) -> (r:
    Result<Reflection, RowError>)
    ensures
        match r {
            Ok(x) => {
                &&& uuid_value(id@) == Some(x.id)
                &&& match about_id {
                    Some(t) => uuid_value(t@) == x.about_id,
                    None => x.about_id is None,
                }
                &&& x.file_path == file_path
                &&& spec_parse_timestamp(created@) == Some(x.created_at)
                &&& spec_parse_timestamp(updated@) == Some(x.updated_at)
            },
            Err(e) => Some(e@) ==
                spec_either(spec_id_error(id@),
                    spec_either(spec_time_error(created@),
                        spec_either(spec_time_error(updated@),
                            spec_opt_id_error(spec_opt_view(about_id))))),
        },
{
    let id = match read_id(id) {
        Ok(v) => v,
        Err(e) => return Err(e),
    };
    let created_at = match read_time(created) {
        Ok(t) => t,
        Err(e) => return Err(e),
    };
    let updated_at = match read_time(updated) {
        Ok(t) => t,
        Err(e) => return Err(e),
    };
    let about_id = match read_opt_id(about_id) {
        Ok(v) => v,
        Err(e) => return Err(e),
    };
    Ok(Reflection { id, about_id, file_path, created_at, updated_at })
}

/// A summary from its columns: id, file path, start, end, created, updated.
pub fn summary_from_columns(id: &str, file_path: String, start: &str, end: &str, created: &str, updated: &str) -> (r:
    Result<Summary, RowError>)
    ensures
        match r {
            Ok(x) => {
                &&& uuid_value(id@) == Some(x.id)
                &&& x.file_path == file_path
                &&& spec_parse_timestamp(start@) == Some(x.start)
                &&& spec_parse_timestamp(end@) == Some(x.end)
                &&& spec_parse_timestamp(created@) == Some(x.created_at)
                &&& spec_parse_timestamp(updated@) == Some(x.updated_at)
            },
            Err(e) => Some(e@) ==
                spec_either(spec_id_error(id@),
                    spec_either(spec_time_error(start@),
                        spec_either(spec_time_error(end@),
                            spec_either(spec_time_error(created@),
                                spec_time_error(updated@))))),
        },
{
    let id = match read_id(id) {
        Ok(v) => v,
        Err(e) => return Err(e),
    };
    let start = match read_time(start) {
        Ok(t) => t,
        Err(e) => return Err(e),
    };
    let end = match read_time(end) {
        Ok(t) => t,
        Err(e) => return Err(e),
    };
    let created_at = match read_time(created) {
        Ok(t) => t,
        Err(e) => return Err(e),
    };
    let updated_at = match read_time(updated) {
        Ok(t) => t,
        Err(e) => return Err(e),
    };
    Ok(Summary { id, file_path, start, end, created_at, updated_at })
}

/// An event from its columns: event id, entity id, event type, metadata,
/// created, updated.
pub fn event_from_columns(
    event_id: &str,
    entity_id: &str,
    event_type: &str,
    metadata: String,
    created: &str,
    updated: &str,
) -> (r: Result<Event, RowError>)
    ensures
        match r {
            Ok(x) => {
                &&& uuid_value(event_id@) == Some(x.event_id)
                &&& uuid_value(entity_id@) == Some(x.entity_id)
                &&& x.event_type.spec_name() == event_type@
                &&& x.metadata == metadata
                &&& spec_parse_timestamp(created@) == Some(x.created_at)
                &&& spec_parse_timestamp(updated@) == Some(x.updated_at)
            },
            Err(e) => Some(e@) ==
                spec_either(spec_id_error(event_id@),
                    spec_either(spec_id_error(entity_id@),
                        spec_either(if spec_is_event_type_name(event_type@) { None } else { Some(RowErrorView::BadName(event_type@)) },
                            spec_either(spec_time_error(created@),
                                spec_time_error(updated@))))),
        },
{
    let event_id = match read_id(event_id) {
        Ok(v) => v,
        Err(e) => return Err(e),
    };
    let entity_id = match read_id(entity_id) {
        Ok(v) => v,
        Err(e) => return Err(e),
    };
    let event_type = match EventType::parse(event_type) {
        Ok(t) => t,
        Err(_) => return Err(RowError::BadName(String::from_str(event_type))),
    };
    let created_at = match read_time(created) {
        Ok(t) => t,
        Err(e) => return Err(e),
    };
    let updated_at = match read_time(updated) {
        Ok(t) => t,
        Err(e) => return Err(e),
    };
    Ok(Event { event_id, entity_id, event_type, metadata, created_at, updated_at })
}

} // verus!
