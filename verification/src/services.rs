//! Where the services keep their files, how a reflection is labelled, and the
//! rules they check before they write.
use vstd::prelude::*;
use crate::ids::{spec_uuid_text, uuid_string};
use crate::text::str_eq;
use crate::tags::spec_ascii_lower;
use crate::model::Reflection;
use crate::time::{date_dir_text, format_date_dir, format_utc_minute, utc_minute_text, UtcTime};

verus! {

/// `root` joined with the relative or absolute path `rel`, as `Path::join`
/// does on Unix: an absolute `rel` replaces `root`, an empty `root` gives `rel`,
/// and otherwise a `/` separates the two unless `root` ends with one.
pub open spec fn spec_join_path(root: Seq<char>, rel: Seq<char>) -> Seq<char> {
    if rel.len() > 0 && rel[0] == '/' {
        rel
    } else if root.len() == 0 {
        rel
    } else if root.last() == '/' {
        root + rel
    } else {
        root + seq!['/'] + rel
    }
}

pub fn join_path(root: &str, rel: &str) -> (p: String)
    ensures
        p@ == spec_join_path(root@, rel@),
{
    let rn = rel.unicode_len();
    if rn > 0 && rel.get_char(0) == '/' {
        return String::from_str(rel);
    }
    let n = root.unicode_len();
    if n == 0 {
        return String::from_str(rel);
    }
    let mut p = String::from_str(root);
    if root.get_char(n - 1) != '/' {
        p.append("/");
        assert(p@ =~= root@ + seq!['/']) by {
            reveal_strlit("/");
        }
    }
    p.append(rel);
    p
}

/// The file of a new entity, relative to the root: `YYYY/MM/DD/<id>.md` for
/// the UTC date of `now`.
pub open spec fn spec_entity_path(now: UtcTime, id: u128) -> Option<Seq<char>> {
    match date_dir_text(now.secs as int, now.nanos as int) {
        Some(d) => Some(d + seq!['/'] + spec_uuid_text(id) + ".md"@),
        None => None,
    }
}

pub fn entity_relative_path(now: UtcTime, id: u128) -> (p: Option<String>)
    ensures
        match p {
            Some(s) => spec_entity_path(now, id) == Some(s@),
            None => spec_entity_path(now, id).is_none(),
        },
{
    match format_date_dir(now) {
        Some(d) => {
            let mut s = d;
            s.append("/");
            let u = uuid_string(id);
            s.append(u.as_str());
            s.append(".md");
            proof {
                reveal_strlit("/");
            }
            Some(s)
        },
        None => None,
    }
}

/// The reflections service: the database file and the root of the markdown files.
pub struct ReflectionService {
    pub db_path: String,
    pub root_dir: String,
}

/// The UTC `%Y-%m-%d %H:%M` text of `t`, or nothing when chrono cannot represent it.
pub open spec fn spec_minute_text(t: UtcTime) -> Seq<char> {
    match utc_minute_text(t.secs as int, t.nanos as int) {
        Some(s) => s,
        None => Seq::empty(),
    }
}

impl ReflectionService {
    /// The label of `reflection`, given the label of the todo item and the name
    /// of the meeting it is about, as far as the store has them; the time of
    /// creation is written in UTC.
    pub fn resolve_label(&self, reflection: &Reflection, todo_label: Option<&str>, meeting_name: Option<&str>) -> (l: String)
        ensures
            l@ == spec_reflection_label(
                reflection.about_id,
                match todo_label {
                    Some(t) => Some(t@),
                    None => None,
                },
                match meeting_name {
                    Some(m) => Some(m@),
                    None => None,
                },
                spec_minute_text(reflection.created_at),
            ),
    {
        let created = match format_utc_minute(reflection.created_at) {
            Some(s) => s,
            None => String::new(),
        };
        reflection_label(reflection.about_id, todo_label, meeting_name, created.as_str())
    }

    pub fn new(db_path: &str, root_dir: &str) -> (s: ReflectionService)
        ensures
            s.db_path@ == db_path@,
            s.root_dir@ == root_dir@,
    {
        ReflectionService { db_path: String::from_str(db_path), root_dir: String::from_str(root_dir) }
    }

    /// Where the file `file_path` of a reflection lies.
    pub fn full_path(&self, file_path: &str) -> (p: String)
        ensures
            p@ == spec_join_path(self.root_dir@, file_path@),
    {
        join_path(self.root_dir.as_str(), file_path)
    }
}

/// The notes service: the database file and the root of the markdown files.
pub struct NoteService {
    pub db_path: String,
    pub root_dir: String,
}

impl NoteService {
    pub fn new(db_path: &str, root_dir: &str) -> (s: NoteService)
        ensures
            s.db_path@ == db_path@,
            s.root_dir@ == root_dir@,
    {
        NoteService { db_path: String::from_str(db_path), root_dir: String::from_str(root_dir) }
    }

    pub fn full_path(&self, file_path: &str) -> (p: String)
        ensures
            p@ == spec_join_path(self.root_dir@, file_path@),
    {
        join_path(self.root_dir.as_str(), file_path)
    }
}

/// The summaries service: the database file and the root of the markdown files.
pub struct SummaryService {
    pub db_path: String,
    pub root_dir: String,
}

/// A summary was asked for with no text.
#[derive(Debug, PartialEq, Eq)]
pub struct EmptyContent;

impl EmptyContent {
    pub fn message(&self) -> (m: &'static str)
        ensures
            m@ == "content cannot be empty"@,
    {
        "content cannot be empty"
    }
}

impl SummaryService {
    pub fn new(db_path: &str, root_dir: &str) -> (s: SummaryService)
        ensures
            s.db_path@ == db_path@,
            s.root_dir@ == root_dir@,
    {
        SummaryService { db_path: String::from_str(db_path), root_dir: String::from_str(root_dir) }
    }

    pub fn full_path(&self, file_path: &str) -> (p: String)
        ensures
            p@ == spec_join_path(self.root_dir@, file_path@),
    {
        join_path(self.root_dir.as_str(), file_path)
    }

    /// A summary needs some text.
    pub fn check_content(content: &str) -> (r: Result<(), EmptyContent>)
        ensures
            r is Ok <==> content@.len() > 0,
    {
        if content.unicode_len() == 0 {
            Err(EmptyContent)
        } else {
            Ok(())
        }
    }
}

/// The todo service: the database file.
pub struct TodoService {
    pub db_path: String,
}

impl TodoService {
    pub fn new(db_path: &str) -> (s: TodoService)
        ensures
            s.db_path@ == db_path@,
    {
        TodoService { db_path: String::from_str(db_path) }
    }
}

/// How the reflections tab labels a reflection: by the todo item or meeting it
/// is about, else as a general reflection with its time of creation.
pub open spec fn spec_reflection_label(
    about_id: Option<u128>,
    todo_label: Option<Seq<char>>,
    meeting_name: Option<Seq<char>>,
    created_local: Seq<char>,
) -> Seq<char> {
    let general = "General Reflection "@ + created_local;
    match about_id {
        None => general,
        Some(_) => match todo_label {
            Some(l) => "TODO Item Reflection "@ + l,
            None => match meeting_name {
                Some(n) => "Meeting Reflection "@ + n,
                None => general,
            },
        },
    }
}

/// The label of a reflection; `todo_label` and `meeting_name` are what the
/// store holds for the entity it is about, `created_local` its time of
/// creation as `%Y-%m-%d %H:%M`.
pub fn reflection_label(
    about_id: Option<u128>,
    todo_label: Option<&str>,
    meeting_name: Option<&str>,
    created_local: &str,
) -> (l: String)
    ensures
        l@ == spec_reflection_label(
            about_id,
            match todo_label {
                Some(t) => Some(t@),
                None => None,
            },
            match meeting_name {
                Some(m) => Some(m@),
                None => None,
            },
            created_local@,
        ),
{
    if about_id.is_some() {
        if let Some(t) = todo_label {
            let mut l = String::from_str("TODO Item Reflection ");
            l.append(t);
            return l;
        }
        if let Some(m) = meeting_name {
            let mut l = String::from_str("Meeting Reflection ");
            l.append(m);
            return l;
        }
    }
    let mut l = String::from_str("General Reflection ");
    l.append(created_local);
    l
}

/// `str::to_lowercase` of the text.
pub uninterp spec fn unicode_lowercase(s: Seq<char>) -> Seq<char>;

/// `str::to_lowercase`, named by `unicode_lowercase`. Unicode maps the ASCII
/// capitals to the ASCII small letters and leaves the other ASCII chars as
/// they are, so an ASCII text is lowered char by char.
#[verifier::external_body]
pub(crate) fn to_lowercase(s: &str) -> (r: String)
    ensures
        r@ == unicode_lowercase(s@),
        (forall|i: int| 0 <= i < s@.len() ==> (s@[i] as u32) < 128) ==> r@ == s@.map_values(
            |c: char| spec_ascii_lower(c),
        ),
{
    s.to_lowercase()
}

pub open spec fn spec_contains_at(s: Seq<char>, pat: Seq<char>, i: int) -> bool {
    0 <= i && i + pat.len() <= s.len() && s.subrange(i, i + pat.len()) == pat
}

pub open spec fn spec_contains(s: Seq<char>, pat: Seq<char>) -> bool {
    exists|i: int| spec_contains_at(s, pat, i)
}

/// Whether `pat` occurs in `s`.
pub fn contains(s: &str, pat: &str) -> (r: bool)
    ensures
        r == spec_contains(s@, pat@),
{
    let n = s.unicode_len();
    let m = pat.unicode_len();
    if m > n {
        assert forall|i: int| !spec_contains_at(s@, pat@, i) by {}
        return false;
    }
    let mut i: usize = 0;
    loop
        invariant
            m <= n,
            n == s@.len(),
            m == pat@.len(),
            i <= n - m,
            forall|j: int| 0 <= j < i ==> !spec_contains_at(s@, pat@, j),
        decreases n - m - i,
    {
        let part = s.substring_char(i, i + m);
        if str_eq(part, pat) {
            assert(spec_contains_at(s@, pat@, i as int));
            return true;
        }
        if i == n - m {
            assert forall|j: int| !spec_contains_at(s@, pat@, j) by {
                if 0 <= j && j + m <= n {
                    assert(j <= i);
                }
            }
            return false;
        }
        i = i + 1;
    }
}

/// The database was locked by another connection; it holds the driver's message.
#[derive(Debug, PartialEq, Eq)]
pub struct LockContentionError(pub String);

impl LockContentionError {
    pub fn message(&self) -> (m: String)
        ensures
            m@ == "lock contention: "@ + self.0@,
    {
        let mut m = String::from_str("lock contention: ");
        m.append(self.0.as_str());
        m
    }
}

/// A database error means lock contention when the driver reports the database
/// busy, or when its message, in lower case, mentions `lock`.
pub fn is_lock_contention(is_busy: bool, message: &str) -> (r: bool)
    ensures
        r == (is_busy || spec_contains(unicode_lowercase(message@), "lock"@)),
{
    if is_busy {
        return true;
    }
    let lower = to_lowercase(message);
    contains(lower.as_str(), "lock")
}

/// The file the database is kept in, under the working directory.
pub const DEFAULT_DB_PATH: &'static str = "reflections.db";

/// How many times opening or checkpointing the database is tried while it is locked.
pub const MAX_RETRIES: u32 = 200;

/// A database error, classified: lock contention, or anything else (with the
/// driver's message).
#[derive(Debug, PartialEq, Eq)]
pub enum DbError {
    LockContention(LockContentionError),
    Other(String),
}

/// Sorts a driver error, given as whether the driver reported the database busy
/// and the error's message.
pub fn classify_db_error(is_busy: bool, message: &str) -> (e: DbError)
    ensures
        match e {
            DbError::LockContention(l) => (is_busy || spec_contains(unicode_lowercase(message@), "lock"@))
                && l.0@ == message@,
            DbError::Other(m) => !(is_busy || spec_contains(unicode_lowercase(message@), "lock"@))
                && m@ == message@,
        },
{
    if is_lock_contention(is_busy, message) {
        DbError::LockContention(LockContentionError(String::from_str(message)))
    } else {
        DbError::Other(String::from_str(message))
    }
}

/// A driver error is lock contention: the driver reported the database busy,
/// or the message, in lower case, mentions `lock`.
pub open spec fn spec_contains_lock(is_busy: bool, message: Seq<char>) -> bool {
    is_busy || spec_contains(unicode_lowercase(message), "lock"@)
}

/// What follows a failed attempt at the database.
#[derive(Debug, PartialEq, Eq)]
pub enum RetryDecision {
    /// Wait a moment and try again.
    Retry,
    /// Give up with this error.
    Fail(DbError),
    /// The database stayed locked through every attempt.
    Exhausted,
}

/// After the `attempts_made`-th attempt failed with the given error: lock
/// contention is waited out until `MAX_RETRIES` attempts were made, and any
/// other error ends the work at once.
pub fn decide_after_failure(attempts_made: u32, is_busy: bool, message: &str) -> (d: RetryDecision)
    ensures
        match d {
            RetryDecision::Retry => spec_contains_lock(is_busy, message@) && attempts_made < MAX_RETRIES,
            RetryDecision::Exhausted => spec_contains_lock(is_busy, message@) && attempts_made >= MAX_RETRIES,
            RetryDecision::Fail(e) => !spec_contains_lock(is_busy, message@) && (e matches DbError::Other(m)
                && m@ == message@),
        },
{
    match classify_db_error(is_busy, message) {
        DbError::LockContention(_) => {
            if attempts_made < MAX_RETRIES {
                RetryDecision::Retry
            } else {
                RetryDecision::Exhausted
            }
        },
        other => RetryDecision::Fail(other),
    }
}

/// The error of an open that stayed locked through every attempt, with the
/// last driver message when there was one.
pub fn open_exhausted_message(last: Option<&str>) -> (m: String)
    ensures
        m@ == "failed to open database after 200 retries: "@ + match last {
            Some(l) => l@,
            None => "unknown error"@,
        },
{
    let mut m = String::from_str("failed to open database after 200 retries: ");
    match last {
        Some(l) => m.append(l),
        None => m.append("unknown error"),
    }
    m
}

/// The error of a checkpoint that stayed locked through every attempt.
pub fn checkpoint_exhausted_message() -> (m: &'static str)
    ensures
        m@ == "checkpoint failed after 200 retries: lock contention persisted"@,
{
    "checkpoint failed after 200 retries: lock contention persisted"
}

/// What becomes of a note or reflection once its editor closed.
#[derive(Debug, PartialEq, Eq, Structural)]
pub enum CleanupAction {
    /// Nothing was written: drop the record, its events and its file.
    Discard,
    /// Keep it and link the tags its text holds.
    KeepAndSyncTags,
}

/// Decides by the size of the entity's file, `None` when it is missing.
pub fn cleanup_action(file_len: Option<u64>) -> (a: CleanupAction)
    ensures
        (a == CleanupAction::Discard) <==> (file_len is None || file_len == Some(0u64)),
{
    match file_len {
        None => CleanupAction::Discard,
        Some(0) => CleanupAction::Discard,
        Some(_) => CleanupAction::KeepAndSyncTags,
    }
}

/// Where writing a new reflection or note in the editor stands.
#[derive(Clone, Copy, Debug, PartialEq, Eq, Structural)]
pub enum EditState {
    /// The entity is being created; this is the start.
    AwaitingCreate,
    /// The editor runs on the entity's file.
    AwaitingEditor,
    /// The entity is being cleaned up; `editor_ok` tells how the editor ended.
    AwaitingCleanup { editor_ok: bool },
    /// All is done; `editor_ok` tells how the editor ended.
    Finished { editor_ok: bool },
}

/// What the program around the library reports back.
#[derive(Clone, Debug)]
pub enum EditEvent {
    /// The entity was created; its file is `file_path` under the service's
    /// `root_dir`.
    Created { root_dir: String, file_path: String },
    EditorClosed { ok: bool },
    CleanedUp,
}

/// The work to do next.
#[derive(Clone, Debug)]
pub enum EditAction {
    /// Run the editor on the file at `path`.
    OpenEditor { path: String },
    CleanUp,
    /// Hand back the editor's outcome: done (and redraw) when it succeeded,
    /// its error otherwise.
    Report { editor_ok: bool },
    Nothing,
}

pub enum EditEventView {
    Created { root_dir: Seq<char>, file_path: Seq<char> },
    EditorClosed { ok: bool },
    CleanedUp,
}

pub enum EditActionView {
    OpenEditor { path: Seq<char> },
    CleanUp,
    Report { editor_ok: bool },
    Nothing,
}

impl View for EditEvent {
    type V = EditEventView;

    open spec fn view(&self) -> EditEventView {
        match self {
            EditEvent::Created { root_dir, file_path } => EditEventView::Created {
                root_dir: root_dir@,
                file_path: file_path@,
            },
            EditEvent::EditorClosed { ok } => EditEventView::EditorClosed { ok: *ok },
            EditEvent::CleanedUp => EditEventView::CleanedUp,
        }
    }
}

impl View for EditAction {
    type V = EditActionView;

    open spec fn view(&self) -> EditActionView {
        match self {
            EditAction::OpenEditor { path } => EditActionView::OpenEditor { path: path@ },
            EditAction::CleanUp => EditActionView::CleanUp,
            EditAction::Report { editor_ok } => EditActionView::Report { editor_ok: *editor_ok },
            EditAction::Nothing => EditActionView::Nothing,
        }
    }
}

/// Created, the entity goes to the editor, on its file's full path (as the
/// services' `full_path` joins it); whatever the editor did, the entity is
/// cleaned up; after that, the editor's outcome is reported. Any other event
/// changes nothing.
pub open spec fn spec_edit_step(state: EditState, event: EditEventView) -> (EditState, EditActionView) {
    match (state, event) {
        (EditState::AwaitingCreate, EditEventView::Created { root_dir, file_path }) => (
            EditState::AwaitingEditor,
            EditActionView::OpenEditor { path: spec_join_path(root_dir, file_path) },
        ),
        (EditState::AwaitingEditor, EditEventView::EditorClosed { ok }) => (
            EditState::AwaitingCleanup { editor_ok: ok },
            EditActionView::CleanUp,
        ),
        (EditState::AwaitingCleanup { editor_ok }, EditEventView::CleanedUp) => (
            EditState::Finished { editor_ok },
            EditActionView::Report { editor_ok },
        ),
        _ => (state, EditActionView::Nothing),
    }
}

pub fn edit_step(state: EditState, event: EditEvent) -> (r: (EditState, EditAction))
    ensures
        (r.0, r.1@) == spec_edit_step(state, event@),
{
    match (state, event) {
        (EditState::AwaitingCreate, EditEvent::Created { root_dir, file_path }) => (
            EditState::AwaitingEditor,
            EditAction::OpenEditor { path: join_path(root_dir.as_str(), file_path.as_str()) },
        ),
        (EditState::AwaitingEditor, EditEvent::EditorClosed { ok }) => (
            EditState::AwaitingCleanup { editor_ok: ok },
            EditAction::CleanUp,
        ),
        (EditState::AwaitingCleanup { editor_ok }, EditEvent::CleanedUp) => (
            EditState::Finished { editor_ok },
            EditAction::Report { editor_ok },
        ),
        _ => (state, EditAction::Nothing),
    }
}

/// A new entity written in the editor: the editor runs once, on the entity's
/// full path; the entity is then always cleaned up, whether the editor
/// succeeded or not; and what is reported at the end is the editor's outcome.
pub proof fn law_edit_always_cleans_up(root_dir: Seq<char>, file_path: Seq<char>, ok: bool)
    ensures
        ({
            let (s1, a1) = spec_edit_step(
                EditState::AwaitingCreate,
                EditEventView::Created { root_dir, file_path },
            );
            let (s2, a2) = spec_edit_step(s1, EditEventView::EditorClosed { ok });
            let (s3, a3) = spec_edit_step(s2, EditEventView::CleanedUp);
            &&& a1 == EditActionView::OpenEditor { path: spec_join_path(root_dir, file_path) }
            &&& a2 == EditActionView::CleanUp
            &&& a3 == EditActionView::Report { editor_ok: ok }
            &&& s3 == EditState::Finished { editor_ok: ok }
        }),
{
}

} // verus!
