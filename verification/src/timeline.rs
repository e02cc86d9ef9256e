//! The timeline of an entity: its events, the records they are about, and the
//! markdown the timeline view shows for them.
use vstd::prelude::*;
use crate::json::{json_pair_object, json_pair_object_text, json_str_field, json_text_field};
use crate::model::{DiffEntry, Event, EventType, Meeting, Note, Reflection, Summary, TodoItem, TodoStatus};
use crate::time::UtcTime;

verus! {

/// A reflection with the text of its file, if the file could be read.
#[derive(Clone, Debug)]
pub struct ReflectionWithContent {
    pub reflection: Reflection,
    pub content: Option<String>,
}

/// A note with the text of its file, if the file could be read.
#[derive(Clone, Debug)]
pub struct NoteWithContent {
    pub note: Note,
    pub content: Option<String>,
}

/// A summary with the text of its file, if the file could be read.
#[derive(Clone, Debug)]
pub struct SummaryWithContent {
    pub summary: Summary,
    pub content: Option<String>,
}

/// The record an event is about.
#[derive(Clone, Debug)]
pub enum TimelineEntity {
    TodoItem(TodoItem),
    Meeting(Meeting),
    Reflection(ReflectionWithContent),
    Note(NoteWithContent),
    Summary(SummaryWithContent),
}

/// An event with the record it is about, when that could be found.
#[derive(Clone, Debug)]
pub struct TimelineEntry {
    pub event_id: u128,
    pub entity_id: u128,
    pub event_type: EventType,
    pub metadata: String,
    pub created_at: UtcTime,
    pub updated_at: UtcTime,
    pub entity: Option<TimelineEntity>,
    pub diff: Option<Vec<DiffEntry>>,
}

/// The kinds of record an event can be about.
#[derive(Clone, Copy, Debug, PartialEq, Eq, Structural)]
pub enum EntityKind {
    TodoItem,
    Meeting,
    Reflection,
    Note,
    Summary,
}

pub open spec fn spec_entity_kind(t: EventType) -> EntityKind {
    match t {
        EventType::TodoItemCreated | EventType::TodoItemStatusChanged => EntityKind::TodoItem,
        EventType::MeetingCreated => EntityKind::Meeting,
        EventType::ReflectionCreated | EventType::ReflectionUpdated => EntityKind::Reflection,
        EventType::NoteCreated => EntityKind::Note,
        EventType::SummaryCreated | EventType::SummaryUpdated => EntityKind::Summary,
    }
}

/// Which table the record of an event of type `t` is looked up in.
pub fn entity_kind(t: EventType) -> (k: EntityKind)
    ensures
        k == spec_entity_kind(t),
{
    match t {
        EventType::TodoItemCreated | EventType::TodoItemStatusChanged => EntityKind::TodoItem,
        EventType::MeetingCreated => EntityKind::Meeting,
        EventType::ReflectionCreated | EventType::ReflectionUpdated => EntityKind::Reflection,
        EventType::NoteCreated => EntityKind::Note,
        EventType::SummaryCreated | EventType::SummaryUpdated => EntityKind::Summary,
    }
}

/// The metadata of a status change: the JSON object of the old and the new status.
pub open spec fn spec_status_change_metadata(old: TodoStatus, new: TodoStatus) -> Seq<char> {
    json_pair_object_text("old_status"@, old.spec_name(), "new_status"@, new.spec_name())
}

/// The metadata stored with a status-change event.
pub fn status_change_metadata(old: TodoStatus, new: TodoStatus) -> (m: String)
    ensures
        m@ == spec_status_change_metadata(old, new),
        json_text_field(m@, "old_status"@) == Some(Some(old.spec_name())),
        json_text_field(m@, "new_status"@) == Some(Some(new.spec_name())),
        spec_status_change_text(m@) == old.spec_name() + " \u{2192} "@ + new.spec_name(),
{
    proof {
        reveal_strlit("old_status");
        reveal_strlit("new_status");
        assert("old_status"@[0] != "new_status"@[0]);
    }
    json_pair_object("old_status", old.as_str(), "new_status", new.as_str())
}

/// The text of a status change from what the metadata holds: `None` when it is
/// not JSON, else its `old_status` and `new_status` strings, if any.
pub open spec fn spec_status_change_from_fields(
    old: Option<Option<Seq<char>>>,
    new: Option<Option<Seq<char>>>,
) -> Seq<char> {
    match old {
        None => "(invalid metadata)"@,
        Some(o) => {
            let o = match o {
                Some(s) => s,
                None => "UNKNOWN"@,
            };
            let n = match new {
                Some(Some(s)) => s,
                _ => "UNKNOWN"@,
            };
            o + " \u{2192} "@ + n
        },
    }
}

/// The text of a status change: `OLD → NEW`, with `UNKNOWN` for a missing side,
/// or `(invalid metadata)` when the metadata is not JSON.
pub open spec fn spec_status_change_text(metadata: Seq<char>) -> Seq<char> {
    spec_status_change_from_fields(
        json_text_field(metadata, "old_status"@),
        json_text_field(metadata, "new_status"@),
    )
}

/// The text of a status change, given the `old_status` and `new_status` strings
/// read from its metadata (`None` when the metadata is not JSON).
pub fn status_change_from_fields(old: Option<Option<String>>, new: Option<Option<String>>) -> (s: String)
    ensures
        s@ == spec_status_change_from_fields(
            match old {
                None => None,
                Some(None) => Some(None),
                Some(Some(o)) => Some(Some(o@)),
            },
            match new {
                None => None,
                Some(None) => Some(None),
                Some(Some(n)) => Some(Some(n@)),
            },
        ),
{
    match old {
        None => String::from_str("(invalid metadata)"),
        Some(old) => {
            let mut s = match old {
                Some(o) => o,
                None => String::from_str("UNKNOWN"),
            };
            s.append(" \u{2192} ");
            match new {
                Some(Some(n)) => s.append(n.as_str()),
                _ => s.append("UNKNOWN"),
            }
            s
        },
    }
}

pub fn parse_status_change(metadata: &str) -> (s: String)
    ensures
        s@ == spec_status_change_text(metadata@),
{
    let old = json_str_field(metadata, "old_status");
    let new = json_str_field(metadata, "new_status");
    status_change_from_fields(old, new)
}

/// A diff line: ` kept`, `-removed`, `+added`, or nothing.
pub open spec fn spec_diff_line(d: DiffEntry) -> Seq<char> {
    match (d.left, d.right) {
        (Some(l), Some(_)) => seq![' '] + l@,
        (Some(l), None) => seq!['-'] + l@,
        (None, Some(r)) => seq!['+'] + r@,
        (None, None) => Seq::empty(),
    }
}

/// The diff lines, each after a newline but the first.
pub open spec fn spec_diff_lines(ds: Seq<DiffEntry>) -> Seq<char>
    decreases ds.len(),
{
    if ds.len() == 0 {
        Seq::empty()
    } else if ds.len() == 1 {
        spec_diff_line(ds[0])
    } else {
        spec_diff_lines(ds.drop_last()) + seq!['\n'] + spec_diff_line(ds.last())
    }
}

/// An update entry: a heading, then the diff in a code block, or a note that
/// there is none.
pub open spec fn spec_diff_entry(title: Seq<char>, time: Seq<char>, diff: Option<Seq<DiffEntry>>) -> Seq<char> {
    let heading = "## "@ + title + " \u{2014} "@ + time;
    match diff {
        Some(ds) => if ds.len() > 0 {
            heading + "\n\n```\n"@ + spec_diff_lines(ds) + "\n```\n"@
        } else {
            heading + "\n\n (no diff content) \n"@
        },
        None => heading + "\n\n (no diff content) \n"@,
    }
}

fn diff_line(d: &DiffEntry) -> (s: String)
    ensures
        s@ == spec_diff_line(*d),
{
    proof {
        reveal_strlit(" ");
        reveal_strlit("-");
        reveal_strlit("+");
    }
    match (&d.left, &d.right) {
        (Some(l), Some(_)) => {
            let mut s = String::from_str(" ");
            s.append(l.as_str());
            s
        },
        (Some(l), None) => {
            let mut s = String::from_str("-");
            s.append(l.as_str());
            s
        },
        (None, Some(r)) => {
            let mut s = String::from_str("+");
            s.append(r.as_str());
            s
        },
        (None, None) => String::new(),
    }
}

pub fn format_diff_entry(emoji_title: &str, time_str: &str, diff: &Option<Vec<DiffEntry>>) -> (s: String)
    ensures
        s@ == spec_diff_entry(
            emoji_title@,
            time_str@,
            match diff {
                Some(v) => Some(v@),
                None => None,
            },
        ),
{
    let mut s = String::from_str("## ");
    s.append(emoji_title);
    s.append(" \u{2014} ");
    s.append(time_str);
    let ghost heading = s@;
    match diff {
        Some(entries) => {
            if entries.len() > 0 {
                s.append("\n\n```\n");
                let mut i: usize = 0;
                while i < entries.len()
                    invariant
                        i <= entries.len(),
                        entries.len() > 0,
                        s@ == heading + "\n\n```\n"@ + spec_diff_lines(entries@.subrange(0, i as int)),
                    decreases entries.len() - i,
                {
                    if i > 0 {
                        s.append("\n");
                    }
                    let line = diff_line(&entries[i]);
                    s.append(line.as_str());
                    let ghost sub = entries@.subrange(0, i + 1);
                    assert(sub.drop_last() =~= entries@.subrange(0, i as int));
                    assert(sub.last() == entries@[i as int]);
                    assert(s@ =~= heading + "\n\n```\n"@ + spec_diff_lines(sub)) by {
                        reveal_strlit("\n");
                    }
                    i = i + 1;
                }
                assert(entries@.subrange(0, entries.len() as int) =~= entries@);
                s.append("\n```\n");
            } else {
                s.append("\n\n (no diff content) \n");
            }
        },
        None => {
            s.append("\n\n (no diff content) \n");
        },
    }
    s
}

/// The label of the todo item an entry is about, or `(no label)`.
pub open spec fn spec_todo_label(entity: Option<TimelineEntity>) -> Seq<char> {
    match entity {
        Some(TimelineEntity::TodoItem(item)) => item.label@,
        _ => "(no label)"@,
    }
}

/// The name of the meeting an entry is about, or `(no name)`.
pub open spec fn spec_meeting_name(entity: Option<TimelineEntity>) -> Seq<char> {
    match entity {
        Some(TimelineEntity::Meeting(m)) => m.name@,
        _ => "(no name)"@,
    }
}

/// The file text of the record of kind `kind` an entry is about, or `(no content)`.
pub open spec fn spec_entity_content(entity: Option<TimelineEntity>, kind: EntityKind) -> Seq<char> {
    match entity {
        Some(TimelineEntity::Reflection(r)) => if kind == EntityKind::Reflection && r.content.is_some() {
            r.content.unwrap()@
        } else {
            "(no content)"@
        },
        Some(TimelineEntity::Note(n)) => if kind == EntityKind::Note && n.content.is_some() {
            n.content.unwrap()@
        } else {
            "(no content)"@
        },
        Some(TimelineEntity::Summary(x)) => if kind == EntityKind::Summary && x.content.is_some() {
            x.content.unwrap()@
        } else {
            "(no content)"@
        },
        _ => "(no content)"@,
    }
}

/// A heading with the time, a blank line, the body and a newline.
pub open spec fn spec_section(title: Seq<char>, time: Seq<char>, body: Seq<char>) -> Seq<char> {
    "## "@ + title + " \u{2014} "@ + time + "\n\n"@ + body + "\n"@
}

pub open spec fn spec_diff_option(diff: Option<Vec<DiffEntry>>) -> Option<Seq<DiffEntry>> {
    match diff {
        Some(v) => Some(v@),
        None => None,
    }
}

/// The markdown of one timeline entry, `time` being its local time of creation.
pub open spec fn spec_format_entry(entry: TimelineEntry, time: Seq<char>) -> Seq<char> {
    match entry.event_type {
        EventType::TodoItemCreated => spec_section(
            "\u{1f4cb} Todo Created"@,
            time,
            spec_todo_label(entry.entity),
        ),
        EventType::TodoItemStatusChanged => spec_section(
            "\u{1f4cb} Status Changed"@,
            time,
            spec_status_change_text(entry.metadata@),
        ),
        EventType::MeetingCreated => spec_section(
            "\u{1f4c5} Meeting Created"@,
            time,
            spec_meeting_name(entry.entity),
        ),
        EventType::ReflectionCreated => spec_section(
            "\u{1f4ad} Reflection"@,
            time,
            spec_entity_content(entry.entity, EntityKind::Reflection),
        ),
        EventType::ReflectionUpdated => spec_diff_entry(
            "\u{1f4ad} Reflection Update"@,
            time,
            spec_diff_option(entry.diff),
        ),
        EventType::NoteCreated => spec_section(
            "\u{1f4dd} Note"@,
            time,
            spec_entity_content(entry.entity, EntityKind::Note),
        ),
        EventType::SummaryCreated => spec_section(
            "\u{1f4ca} Summary"@,
            time,
            spec_entity_content(entry.entity, EntityKind::Summary),
        ),
        EventType::SummaryUpdated => spec_diff_entry(
            "\u{1f4ca} Summary Update"@,
            time,
            spec_diff_option(entry.diff),
        ),
    }
}

fn section(title: &str, time_str: &str, body: &str) -> (s: String)
    ensures
        s@ == spec_section(title@, time_str@, body@),
{
    let mut s = String::from_str("## ");
    s.append(title);
    s.append(" \u{2014} ");
    s.append(time_str);
    s.append("\n\n");
    s.append(body);
    s.append("\n");
    s
}

fn entity_content(entity: &Option<TimelineEntity>, kind: EntityKind) -> (s: String)
    ensures
        s@ == spec_entity_content(*entity, kind),
{
    match entity {
        Some(TimelineEntity::Reflection(r)) => {
            match (&r.content, kind) {
                (Some(c), EntityKind::Reflection) => c.clone(),
                _ => String::from_str("(no content)"),
            }
        },
        Some(TimelineEntity::Note(n)) => {
            match (&n.content, kind) {
                (Some(c), EntityKind::Note) => c.clone(),
                _ => String::from_str("(no content)"),
            }
        },
        Some(TimelineEntity::Summary(x)) => {
            match (&x.content, kind) {
                (Some(c), EntityKind::Summary) => c.clone(),
                _ => String::from_str("(no content)"),
            }
        },
        _ => String::from_str("(no content)"),
    }
}

/// The markdown of one timeline entry, `time_str` being its local time of creation.
pub fn format_entry(entry: &TimelineEntry, time_str: &str) -> (s: String)
    ensures
        s@ == spec_format_entry(*entry, time_str@),
{
    match entry.event_type {
        EventType::TodoItemCreated => {
            let label = match &entry.entity {
                Some(TimelineEntity::TodoItem(item)) => item.label.clone(),
                _ => String::from_str("(no label)"),
            };
            section("\u{1f4cb} Todo Created", time_str, label.as_str())
        },
        EventType::TodoItemStatusChanged => {
            let change = parse_status_change(entry.metadata.as_str());
            section("\u{1f4cb} Status Changed", time_str, change.as_str())
        },
        EventType::MeetingCreated => {
            let name = match &entry.entity {
                Some(TimelineEntity::Meeting(m)) => m.name.clone(),
                _ => String::from_str("(no name)"),
            };
            section("\u{1f4c5} Meeting Created", time_str, name.as_str())
        },
        EventType::ReflectionCreated => {
            let content = entity_content(&entry.entity, EntityKind::Reflection);
            section("\u{1f4ad} Reflection", time_str, content.as_str())
        },
        EventType::ReflectionUpdated => format_diff_entry(
            "\u{1f4ad} Reflection Update",
            time_str,
            &entry.diff,
        ),
        EventType::NoteCreated => {
            let content = entity_content(&entry.entity, EntityKind::Note);
            section("\u{1f4dd} Note", time_str, content.as_str())
        },
        EventType::SummaryCreated => {
            let content = entity_content(&entry.entity, EntityKind::Summary);
            section("\u{1f4ca} Summary", time_str, content.as_str())
        },
        EventType::SummaryUpdated => format_diff_entry(
            "\u{1f4ca} Summary Update",
            time_str,
            &entry.diff,
        ),
    }
}

/// Each entry shows the record it is about: a todo item's label, a meeting's
/// name, and the text of the reflection, note or summary itself, under the
/// heading of its kind and its time (`## <title> — <time>`, a blank line, the
/// body, a newline); a reflection, note or summary whose text could not be read
/// shows `(no content)`.
pub proof fn law_entry_shows_its_record(entry: TimelineEntry, time: Seq<char>)
    ensures
        (entry.event_type, entry.entity) matches (EventType::TodoItemCreated, Some(TimelineEntity::TodoItem(item)))
            ==> spec_format_entry(entry, time) == "## \u{1f4cb} Todo Created \u{2014} "@ + time + "\n\n"@
            + item.label@ + "\n"@,
        (entry.event_type, entry.entity) matches (EventType::MeetingCreated, Some(TimelineEntity::Meeting(m)))
            ==> spec_format_entry(entry, time) == "## \u{1f4c5} Meeting Created \u{2014} "@ + time + "\n\n"@
            + m.name@ + "\n"@,
        (entry.event_type, entry.entity) matches (EventType::ReflectionCreated, Some(TimelineEntity::Reflection(r)))
            ==> spec_format_entry(entry, time) == "## \u{1f4ad} Reflection \u{2014} "@ + time + "\n\n"@
            + match r.content {
            Some(c) => c@,
            None => "(no content)"@,
        } + "\n"@,
        (entry.event_type, entry.entity) matches (EventType::NoteCreated, Some(TimelineEntity::Note(n)))
            ==> spec_format_entry(entry, time) == "## \u{1f4dd} Note \u{2014} "@ + time + "\n\n"@ + match n.content {
            Some(c) => c@,
            None => "(no content)"@,
        } + "\n"@,
        (entry.event_type, entry.entity) matches (EventType::SummaryCreated, Some(TimelineEntity::Summary(x)))
            ==> spec_format_entry(entry, time) == "## \u{1f4ca} Summary \u{2014} "@ + time + "\n\n"@
            + match x.content {
            Some(c) => c@,
            None => "(no content)"@,
        } + "\n"@,
{
    reveal_strlit("## ");
    reveal_strlit(" \u{2014} ");
    reveal_strlit("\n\n");
    reveal_strlit("\n");
    reveal_strlit("\u{1f4cb} Todo Created");
    reveal_strlit("## \u{1f4cb} Todo Created \u{2014} ");
    reveal_strlit("\u{1f4c5} Meeting Created");
    reveal_strlit("## \u{1f4c5} Meeting Created \u{2014} ");
    reveal_strlit("\u{1f4ad} Reflection");
    reveal_strlit("## \u{1f4ad} Reflection \u{2014} ");
    reveal_strlit("\u{1f4dd} Note");
    reveal_strlit("## \u{1f4dd} Note \u{2014} ");
    reveal_strlit("\u{1f4ca} Summary");
    reveal_strlit("## \u{1f4ca} Summary \u{2014} ");
    let body = match entry.event_type {
        EventType::TodoItemCreated => spec_todo_label(entry.entity),
        EventType::MeetingCreated => spec_meeting_name(entry.entity),
        EventType::ReflectionCreated => spec_entity_content(entry.entity, EntityKind::Reflection),
        EventType::NoteCreated => spec_entity_content(entry.entity, EntityKind::Note),
        _ => spec_entity_content(entry.entity, EntityKind::Summary),
    };
    let title: Seq<char> = match entry.event_type {
        EventType::TodoItemCreated => "\u{1f4cb} Todo Created"@,
        EventType::MeetingCreated => "\u{1f4c5} Meeting Created"@,
        EventType::ReflectionCreated => "\u{1f4ad} Reflection"@,
        EventType::NoteCreated => "\u{1f4dd} Note"@,
        _ => "\u{1f4ca} Summary"@,
    };
    assert("## "@ + title + " \u{2014} "@ + time + "\n\n"@ + body + "\n"@ =~= ("## "@ + title + " \u{2014} "@)
        + time + "\n\n"@ + body + "\n"@);
    assert("## "@ + "\u{1f4cb} Todo Created"@ + " \u{2014} "@ =~= "## \u{1f4cb} Todo Created \u{2014} "@);
    assert("## "@ + "\u{1f4c5} Meeting Created"@ + " \u{2014} "@ =~= "## \u{1f4c5} Meeting Created \u{2014} "@);
    assert("## "@ + "\u{1f4ad} Reflection"@ + " \u{2014} "@ =~= "## \u{1f4ad} Reflection \u{2014} "@);
    assert("## "@ + "\u{1f4dd} Note"@ + " \u{2014} "@ =~= "## \u{1f4dd} Note \u{2014} "@);
    assert("## "@ + "\u{1f4ca} Summary"@ + " \u{2014} "@ =~= "## \u{1f4ca} Summary \u{2014} "@);
}

/// A diff shows a kept line after a space, a removed line after `-` and an
/// added line after `+`, one line per entry in order, each after a newline but
/// the first; the update entry puts them in a code block under its heading.
pub proof fn law_diff_marks_each_line(title: Seq<char>, time: Seq<char>, a: DiffEntry, b: DiffEntry)
    ensures
        (a.left, a.right) matches (Some(l), Some(_)) ==> spec_diff_lines(seq![a]) == seq![' '] + l@,
        (a.left, a.right) matches (Some(l), None) ==> spec_diff_lines(seq![a]) == seq!['-'] + l@,
        (a.left, a.right) matches (None, Some(r)) ==> spec_diff_lines(seq![a]) == seq!['+'] + r@,
        spec_diff_lines(seq![a, b]) == spec_diff_lines(seq![a]) + seq!['\n'] + spec_diff_lines(seq![b]),
        spec_diff_entry(title, time, Some(seq![a])) == "## "@ + title + " \u{2014} "@ + time + "\n\n```\n"@
            + spec_diff_lines(seq![a]) + "\n```\n"@,
        spec_diff_entry(title, time, Some(Seq::<DiffEntry>::empty())) == "## "@ + title + " \u{2014} "@ + time
            + "\n\n (no diff content) \n"@,
        spec_diff_entry(title, time, None) == "## "@ + title + " \u{2014} "@ + time + "\n\n (no diff content) \n"@,
{
    assert(seq![a, b].drop_last() =~= seq![a]);
}

/// The separator between two entries of the timeline.
pub open spec fn spec_entry_separator() -> Seq<char> {
    "\n---\n\n"@
}

/// The entries' markdown, joined by the separator; `times` gives each entry's local time.
pub open spec fn spec_timeline_markdown(entries: Seq<TimelineEntry>, times: Seq<String>) -> Seq<char>
    decreases entries.len(),
{
    if entries.len() == 0 {
        Seq::empty()
    } else if entries.len() == 1 {
        spec_format_entry(entries[0], times[0]@)
    } else {
        spec_timeline_markdown(entries.drop_last(), times.drop_last()) + spec_entry_separator()
            + spec_format_entry(entries.last(), times[entries.len() - 1]@)
    }
}

/// What the timeline view shows: the entries' markdown one after the other, or
/// a notice when there are none. `time_strs[i]` is the local time of entry `i`.
pub fn build_markdown_content(entries: &Vec<TimelineEntry>, time_strs: &Vec<String>) -> (s: String)
    requires
        time_strs.len() == entries.len(),
    ensures
        entries.len() == 0 ==> s@ == "No events found for this entity."@,
        entries.len() > 0 ==> s@ == spec_timeline_markdown(entries@, time_strs@),
{
    if entries.len() == 0 {
        return String::from_str("No events found for this entity.");
    }
    let mut s = String::new();
    let mut i: usize = 0;
    while i < entries.len()
        invariant
            i <= entries.len(),
            time_strs.len() == entries.len(),
            s@ == spec_timeline_markdown(entries@.subrange(0, i as int), time_strs@.subrange(0, i as int)),
        decreases entries.len() - i,
    {
        if i > 0 {
            s.append("\n---\n\n");
        }
        let part = format_entry(&entries[i], time_strs[i].as_str());
        s.append(part.as_str());
        let ghost es = entries@.subrange(0, i + 1);
        let ghost ts = time_strs@.subrange(0, i + 1);
        assert(es.drop_last() =~= entries@.subrange(0, i as int));
        assert(ts.drop_last() =~= time_strs@.subrange(0, i as int));
        assert(es.last() == entries@[i as int]);
        assert(ts[i as int] == time_strs@[i as int]);
        assert(s@ =~= spec_timeline_markdown(es, ts));
        i = i + 1;
    }
    assert(entries@.subrange(0, entries.len() as int) =~= entries@);
    assert(time_strs@.subrange(0, time_strs.len() as int) =~= time_strs@);
    s
}

/// The entities whose events make up the timeline of `entity_id`: the entity
/// itself, then the reflections about it, then the notes about it.
pub open spec fn spec_timeline_ids(entity_id: u128, reflections: Seq<Reflection>, notes: Seq<Note>) -> Seq<u128> {
    seq![entity_id] + reflections.map_values(|r: Reflection| r.id) + notes.map_values(|n: Note| n.id)
}

pub fn timeline_entity_ids(entity_id: u128, reflections: &Vec<Reflection>, notes: &Vec<Note>) -> (ids: Vec<u128>)
    ensures
        ids@ == spec_timeline_ids(entity_id, reflections@, notes@),
{
    let mut ids: Vec<u128> = Vec::new();
    ids.push(entity_id);
    let mut i: usize = 0;
    while i < reflections.len()
        invariant
            i <= reflections.len(),
            ids@ == seq![entity_id] + reflections@.subrange(0, i as int).map_values(|r: Reflection| r.id),
        decreases reflections.len() - i,
    {
        ids.push(reflections[i].id);
        i = i + 1;
        assert(reflections@.subrange(0, i as int).map_values(|r: Reflection| r.id) =~= reflections@.subrange(
            0,
            i - 1,
        ).map_values(|r: Reflection| r.id).push(reflections@[i - 1].id));
    }
    assert(reflections@.subrange(0, reflections.len() as int) =~= reflections@);
    let ghost head = ids@;
    let mut j: usize = 0;
    while j < notes.len()
        invariant
            j <= notes.len(),
            ids@ == head + notes@.subrange(0, j as int).map_values(|n: Note| n.id),
        decreases notes.len() - j,
    {
        ids.push(notes[j].id);
        j = j + 1;
        assert(notes@.subrange(0, j as int).map_values(|n: Note| n.id) =~= notes@.subrange(0, j - 1).map_values(
            |n: Note| n.id,
        ).push(notes@[j - 1].id));
    }
    assert(notes@.subrange(0, notes.len() as int) =~= notes@);
    ids
}

/// The events are in order of creation.
pub open spec fn spec_sorted_by_creation(s: Seq<Event>) -> bool {
    forall|i: int, j: int| 0 <= i < j < s.len() ==> (#[trigger] s[i]).created_at.spec_le((#[trigger] s[j]).created_at)
}

/// `out` is `input` reordered: `out[i]` is `input[p[i]]`, no event is taken
/// twice, and events created at the same instant keep their order.
pub open spec fn spec_stable_reordering(input: Seq<Event>, out: Seq<Event>, p: Seq<int>) -> bool {
    &&& p.len() == input.len()
    &&& out.len() == input.len()
    &&& forall|i: int| 0 <= i < out.len() ==> 0 <= #[trigger] p[i] < input.len() && out[i] == input[p[i]]
    &&& forall|i: int, j: int| 0 <= i < j < out.len() ==> #[trigger] p[i] != #[trigger] p[j]
    &&& forall|i: int, j: int|
        0 <= i < j < out.len() && (#[trigger] out[i]).created_at == (#[trigger] out[j]).created_at ==> p[i] < p[j]
}

/// The events of a timeline in order of creation; events created at the same
/// instant stay in the order they were given.
pub fn order_by_creation(events: Vec<Event>) -> (out: Vec<Event>)
    ensures
        spec_sorted_by_creation(out@),
        exists|p: Seq<int>| spec_stable_reordering(events@, out@, p),
{
    let ghost input = events@;
    let n = events.len();
    let mut rest = events;
    let mut out: Vec<Event> = Vec::new();
    let ghost mut p: Seq<int> = Seq::empty();
    let mut k: usize = 0;
    while k < n
        invariant
            n == input.len(),
            k <= n,
            rest@ == input.subrange(k as int, n as int),
            out.len() == k,
            p.len() == k,
            spec_sorted_by_creation(out@),
            forall|i: int| 0 <= i < k ==> 0 <= #[trigger] p[i] < k && out@[i] == input[p[i]],
            forall|i: int, j: int| 0 <= i < j < k ==> #[trigger] p[i] != #[trigger] p[j],
            forall|i: int, j: int|
                0 <= i < j < k && (#[trigger] out@[i]).created_at == (#[trigger] out@[j]).created_at ==> p[i] < p[j],
        decreases n - k,
    {
        assert(rest@[0] == input[k as int]);
        let x = rest.remove(0);
        assert(rest@ =~= input.subrange(k + 1, n as int));
        let key = x.created_at;
        let mut pos: usize = 0;
        while pos < out.len() && out[pos].created_at.le(&key)
            invariant
                pos <= out.len(),
                forall|i: int| 0 <= i < pos ==> (#[trigger] out@[i]).created_at.spec_le(key),
            decreases out.len() - pos,
        {
            pos = pos + 1;
        }
        let ghost old_out = out@;
        let ghost old_p = p;
        assert(pos < old_out.len() ==> !old_out[pos as int].created_at.spec_le(key));
        assert forall|j: int| pos <= j < old_out.len() implies !(#[trigger] old_out[j]).created_at.spec_le(key) by {
            if j > pos {
                assert(old_out[pos as int].created_at.spec_le(old_out[j].created_at));
            }
        }
        out.insert(pos, x);
        proof {
            p = old_p.insert(pos as int, k as int);
            assert(out@ == old_out.insert(pos as int, x));
            assert forall|i: int| 0 <= i < k + 1 implies 0 <= #[trigger] p[i] < k + 1 && out@[i] == input[p[i]] by {
                if i < pos {
                    assert(p[i] == old_p[i]);
                    assert(out@[i] == old_out[i]);
                } else if i == pos {
                } else {
                    assert(p[i] == old_p[i - 1]);
                    assert(out@[i] == old_out[i - 1]);
                }
            }
            assert forall|i: int, j: int| 0 <= i < j < k + 1 implies #[trigger] p[i] != #[trigger] p[j] by {
                if i < pos && j < pos {
                    assert(p[i] == old_p[i] && p[j] == old_p[j]);
                } else if i < pos && j == pos {
                    assert(p[i] == old_p[i]);
                } else if i < pos {
                    assert(p[i] == old_p[i] && p[j] == old_p[j - 1]);
                } else if i == pos {
                    assert(p[j] == old_p[j - 1]);
                } else {
                    assert(p[i] == old_p[i - 1] && p[j] == old_p[j - 1]);
                }
            }
            assert forall|i: int, j: int| 0 <= i < j < out@.len() implies (#[trigger] out@[i]).created_at.spec_le(
                (#[trigger] out@[j]).created_at,
            ) by {
                if i < pos && j < pos {
                    assert(out@[i] == old_out[i] && out@[j] == old_out[j]);
                } else if i < pos && j == pos {
                    assert(out@[i] == old_out[i]);
                } else if i < pos {
                    assert(out@[i] == old_out[i] && out@[j] == old_out[j - 1]);
                } else if i == pos {
                    assert(out@[j] == old_out[j - 1]);
                    assert(!old_out[j - 1].created_at.spec_le(key));
                } else {
                    assert(out@[i] == old_out[i - 1] && out@[j] == old_out[j - 1]);
                }
            }
            assert forall|i: int, j: int|
                0 <= i < j < k + 1 && (#[trigger] out@[i]).created_at == (#[trigger] out@[j]).created_at implies p[i]
                < p[j] by {
                if i < pos && j < pos {
                    assert(out@[i] == old_out[i] && out@[j] == old_out[j]);
                    assert(p[i] == old_p[i] && p[j] == old_p[j]);
                } else if i < pos && j == pos {
                    assert(p[i] == old_p[i]);
                } else if i < pos {
                    assert(out@[i] == old_out[i] && out@[j] == old_out[j - 1]);
                    assert(p[i] == old_p[i] && p[j] == old_p[j - 1]);
                } else if i == pos {
                    assert(out@[j] == old_out[j - 1]);
                    assert(!old_out[j - 1].created_at.spec_le(key));
                } else {
                    assert(out@[i] == old_out[i - 1] && out@[j] == old_out[j - 1]);
                    assert(p[i] == old_p[i - 1] && p[j] == old_p[j - 1]);
                }
            }
        }
        k = k + 1;
    }
    assert(spec_stable_reordering(input, out@, p));
    out
}

} // verus!
