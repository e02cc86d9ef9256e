//! The meetings, reflections and summaries tabs, and the timeline and summary
//! pages they open. Key presses change the view and name the work the caller
//! then does against the store and the editor.
use vstd::prelude::*;
use crate::keys::{KeyCode, KeyEvent};
use crate::meeting_modal::{MeetingModal, ModalState, FieldFocus};
use crate::model::{Meeting, Reflection, Summary};
use crate::scroll::{ScrollState, spec_sat_add, spec_sat_sub};
use crate::selection::{clamp_selection, select_next, select_prev, spec_clamp_selection, spec_select_next, spec_select_prev};
use crate::table::{TableRow, spec_is_selected};
use crate::timeline::{TimelineEntry, build_markdown_content, spec_timeline_markdown};
use crate::time::{UtcTime, local_minute_text, spec_local_minute};

verus! {

/// The selection after a navigation key: `j`/Down and `k`/Up move it when the
/// list is not empty; other keys keep it.
pub open spec fn spec_navigated(sel: Option<usize>, len: nat, key: KeyEvent) -> Option<usize> {
    match key.code {
        KeyCode::Char('j') | KeyCode::Down => if len > 0 {
            spec_select_next(sel, len)
        } else {
            sel
        },
        KeyCode::Char('k') | KeyCode::Up => if len > 0 {
            spec_select_prev(sel)
        } else {
            sel
        },
        _ => sel,
    }
}

/// Applies a navigation key to a selection in a list of `len` items.
pub fn navigate(sel: Option<usize>, len: usize, key: KeyEvent) -> (r: Option<usize>)
    ensures
        r == spec_navigated(sel, len as nat, key),
{
    match key.code {
        KeyCode::Char('j') | KeyCode::Down => {
            if len > 0 {
                select_next(sel, len)
            } else {
                sel
            }
        },
        KeyCode::Char('k') | KeyCode::Up => {
            if len > 0 {
                select_prev(sel)
            } else {
                sel
            }
        },
        _ => sel,
    }
}

/// The timeline of one entity, shown as scrollable markdown.
pub struct TimelineView {
    pub entries: Vec<TimelineEntry>,
    pub title: String,
    pub scroll: ScrollState,
}

impl TimelineView {
    pub fn new(entries: Vec<TimelineEntry>, title: &str) -> (v: TimelineView)
        ensures
            v.entries@ == entries@,
            v.title@ == title@,
            v.scroll.scroll_offset == 0,
            v.scroll.viewport_height == 0,
    {
        TimelineView { entries, title: String::from_str(title), scroll: ScrollState::new() }
    }

    /// The page after a key press: entries, title and height stay; Ctrl-d and
    /// Ctrl-u scroll by half a page, other keys leave the offset.
    pub open spec fn spec_stepped(&self, key: KeyEvent, after: TimelineView) -> bool {
        &&& after.entries == self.entries
        &&& after.title == self.title
        &&& after.scroll.viewport_height == self.scroll.viewport_height
        &&& (key.code == KeyCode::Char('d') && key.spec_has_control()) ==> after.scroll.scroll_offset as int
            == spec_sat_add(self.scroll.scroll_offset as int, self.scroll.spec_page_height() / 2)
        &&& (key.code == KeyCode::Char('u') && key.spec_has_control()) ==> after.scroll.scroll_offset as int
            == spec_sat_sub(self.scroll.scroll_offset as int, self.scroll.spec_page_height() / 2)
        &&& !((key.code == KeyCode::Char('d') || key.code == KeyCode::Char('u')) && key.spec_has_control())
            ==> after.scroll.scroll_offset == self.scroll.scroll_offset
    }

    /// Esc and `q` ask to close the page; Ctrl-d and Ctrl-u scroll by half a page.
    pub fn handle_key(&mut self, key: KeyEvent) -> (close: bool)
        ensures
            close == (key.code == KeyCode::Esc || key.code == KeyCode::Char('q')),
            old(self).spec_stepped(key, *final(self)),
    {
        self.scroll.handle_key(key)
    }

    pub fn scroll_offset(&self) -> (r: usize)
        ensures
            r == self.scroll.scroll_offset,
    {
        self.scroll.scroll_offset
    }
}

/// One summary's text, shown as scrollable markdown.
pub struct SummaryView {
    pub content: String,
    pub scroll_offset: usize,
}

impl SummaryView {
    pub fn new(content: String) -> (v: SummaryView)
        ensures
            v.content == content,
            v.scroll_offset == 0,
    {
        SummaryView { content, scroll_offset: 0 }
    }

    /// The page after a key press: the text stays; Ctrl-d and Ctrl-u scroll by
    /// half the terminal's height, other keys leave the offset.
    pub open spec fn spec_stepped(&self, key: KeyEvent, terminal_height: u16, after: SummaryView) -> bool {
        &&& after.content == self.content
        &&& (key.code == KeyCode::Char('d') && key.spec_has_control()) ==> after.scroll_offset as int
            == spec_sat_add(self.scroll_offset as int, terminal_height as int / 2)
        &&& (key.code == KeyCode::Char('u') && key.spec_has_control()) ==> after.scroll_offset as int
            == spec_sat_sub(self.scroll_offset as int, terminal_height as int / 2)
        &&& !((key.code == KeyCode::Char('d') || key.code == KeyCode::Char('u')) && key.spec_has_control())
            ==> after.scroll_offset == self.scroll_offset
    }

    /// Esc and `q` ask to close the page; Ctrl-d and Ctrl-u scroll by half the
    /// terminal's height.
    pub fn handle_key(&mut self, key: KeyEvent, terminal_height: u16) -> (close: bool)
        ensures
            close == (key.code == KeyCode::Esc || key.code == KeyCode::Char('q')),
            old(self).spec_stepped(key, terminal_height, *final(self)),
    {
        let mut s = ScrollState { scroll_offset: self.scroll_offset, viewport_height: 0 };
        let close = s.handle_key_with_page(key, terminal_height as usize);
        self.scroll_offset = s.scroll_offset;
        close
    }

    /// Called when drawing: keeps the offset within the text.
    pub fn fit(&mut self, viewport_height: usize, content_height: usize)
        ensures
            final(self).content == old(self).content,
            final(self).scroll_offset as int == if old(self).scroll_offset as int <= spec_sat_sub(
                content_height as int,
                viewport_height as int,
            ) {
                old(self).scroll_offset as int
            } else {
                spec_sat_sub(content_height as int, viewport_height as int)
            },
    {
        let mut s = ScrollState { scroll_offset: self.scroll_offset, viewport_height: 0 };
        s.fit(viewport_height, content_height);
        self.scroll_offset = s.scroll_offset;
    }
}

/// Work a key press on a content page asks for.
#[derive(Debug, PartialEq, Eq)]
pub enum ContentAction {
    Nothing,
    /// Close the page.
    Close,
    /// Open the entity's file in the editor, then reload the text.
    Edit(u128),
}

/// The text of one reflection or summary, shown as scrollable markdown, with
/// `e` to edit it.
pub struct ContentView {
    pub entity_id: u128,
    pub content: String,
    pub title: String,
    pub scroll: ScrollState,
}

impl ContentView {
    pub fn new(entity_id: u128, content: String, title: &str) -> (v: ContentView)
        ensures
            v.entity_id == entity_id,
            v.content == content,
            v.title@ == title@,
            v.scroll.scroll_offset == 0,
            v.scroll.viewport_height == 0,
    {
        ContentView { entity_id, content, title: String::from_str(title), scroll: ScrollState::new() }
    }

    /// Replaces the text after an edit; the scroll position stays.
    pub fn set_content(&mut self, content: String)
        ensures
            final(self).content == content,
            final(self).entity_id == old(self).entity_id,
            final(self).scroll == old(self).scroll,
    {
        self.content = content;
    }

    pub fn scroll_offset(&self) -> (r: usize)
        ensures
            r == self.scroll.scroll_offset,
    {
        self.scroll.scroll_offset
    }

    /// Esc and `q` close the page, `e` asks to edit the entity, Ctrl-d and
    /// Ctrl-u scroll by half a page.
    pub fn handle_key(&mut self, key: KeyEvent) -> (action: ContentAction)
        ensures
            action == if key.code == KeyCode::Esc || key.code == KeyCode::Char('q') {
                ContentAction::Close
            } else if key.code == KeyCode::Char('e') {
                ContentAction::Edit(old(self).entity_id)
            } else {
                ContentAction::Nothing
            },
            final(self).entity_id == old(self).entity_id,
            final(self).content == old(self).content,
            final(self).scroll.viewport_height == old(self).scroll.viewport_height,
            (key.code == KeyCode::Char('d') && key.spec_has_control()) ==> final(self).scroll.scroll_offset as int
                == spec_sat_add(old(self).scroll.scroll_offset as int, old(self).scroll.spec_page_height() / 2),
            (key.code == KeyCode::Char('u') && key.spec_has_control()) ==> final(self).scroll.scroll_offset as int
                == spec_sat_sub(old(self).scroll.scroll_offset as int, old(self).scroll.spec_page_height() / 2),
            !((key.code == KeyCode::Char('d') || key.code == KeyCode::Char('u')) && key.spec_has_control())
                ==> final(self).scroll.scroll_offset == old(self).scroll.scroll_offset,
    {
        if key.code == KeyCode::Char('e') {
            return ContentAction::Edit(self.entity_id);
        }
        if self.scroll.handle_key(key) {
            ContentAction::Close
        } else {
            ContentAction::Nothing
        }
    }
}

/// Work a key press on the meetings tab asks for.
#[derive(Debug)]
pub enum MeetingsAction {
    Nothing,
    /// Create this meeting, then reload today's meetings and keep the selection in them.
    CreateMeeting(String, UtcTime),
    EditReflection(u128),
    EditNote(u128),
    /// Load the timeline of the meeting and show it under this title.
    OpenTimeline(u128, String),
}

/// A meetings action as plain values.
pub enum MeetingsActionView {
    Nothing,
    CreateMeeting(Seq<char>),
    EditReflection(u128),
    EditNote(u128),
    OpenTimeline(u128, Seq<char>),
}

impl View for MeetingsAction {
    type V = MeetingsActionView;

    open spec fn view(&self) -> MeetingsActionView {
        match self {
            MeetingsAction::Nothing => MeetingsActionView::Nothing,
            MeetingsAction::CreateMeeting(n, _) => MeetingsActionView::CreateMeeting(n@),
            MeetingsAction::EditReflection(id) => MeetingsActionView::EditReflection(*id),
            MeetingsAction::EditNote(id) => MeetingsActionView::EditNote(*id),
            MeetingsAction::OpenTimeline(id, t) => MeetingsActionView::OpenTimeline(*id, t@),
        }
    }
}

pub struct MeetingsView {
    pub items: Vec<Meeting>,
    pub meeting_modal: MeetingModal,
    pub selected_index: Option<usize>,
    pub timeline_view: Option<TimelineView>,
}

impl MeetingsView {
    pub open spec fn wf(&self) -> bool {
        self.meeting_modal.wf()
    }

    pub open spec fn spec_selected_item(&self) -> Option<Meeting> {
        match self.selected_index {
            Some(i) => if i < self.items.len() {
                Some(self.items@[i as int])
            } else {
                None
            },
            None => None,
        }
    }

    /// The work a key press asks for.
    pub open spec fn spec_action(&self, key: KeyEvent) -> MeetingsActionView {
        if self.timeline_view.is_some() {
            MeetingsActionView::Nothing
        } else if self.meeting_modal.active {
            match self.meeting_modal.state().submitted(key) {
                Some(name) => MeetingsActionView::CreateMeeting(name),
                None => MeetingsActionView::Nothing,
            }
        } else {
            match (key.code, self.spec_selected_item()) {
                (KeyCode::Char('r'), Some(m)) => MeetingsActionView::EditReflection(m.id),
                (KeyCode::Char('n'), Some(m)) => MeetingsActionView::EditNote(m.id),
                (KeyCode::Enter, Some(m)) => MeetingsActionView::OpenTimeline(
                    m.id,
                    "Timeline: "@ + m.name@,
                ),
                _ => MeetingsActionView::Nothing,
            }
        }
    }

    /// A freshly opened tab: no meetings, nothing selected, no timeline shown,
    /// and the meeting form closed, empty, focused on the name and set to
    /// 0000-01-01 00:00 with the year section chosen.
    pub open spec fn spec_is_initial(&self) -> bool {
        &&& self.wf()
        &&& self.items.len() == 0
        &&& self.selected_index.is_none()
        &&& self.timeline_view.is_none()
        &&& !self.meeting_modal.active
        &&& self.meeting_modal.field_focus == FieldFocus::Name
        &&& self.meeting_modal.name_input.buffer@ == Seq::<char>::empty()
        &&& self.meeting_modal.name_input.cursor_pos == 0
        &&& self.meeting_modal.name_input.max_length == crate::input_box::MAX_LENGTH
        &&& self.meeting_modal.year == 0
        &&& self.meeting_modal.month == 1
        &&& self.meeting_modal.day == 1
        &&& self.meeting_modal.hour == 0
        &&& self.meeting_modal.minute == 0
        &&& self.meeting_modal.dt_section == 0
        &&& self.meeting_modal.dt_typing.is_none()
    }

    pub fn new() -> (v: MeetingsView)
        ensures
            v.spec_is_initial(),
            v.wf(),
            v.items.len() == 0,
            v.selected_index.is_none(),
            !v.meeting_modal.active,
            v.timeline_view.is_none(),
    {
        MeetingsView {
            items: Vec::new(),
            meeting_modal: MeetingModal::new(),
            selected_index: None,
            timeline_view: None,
        }
    }

    pub fn clamp_selected_index(&mut self)
        ensures
            final(self).selected_index == spec_clamp_selection(old(self).selected_index, old(self).items.len() as nat),
            final(self).items == old(self).items,
            final(self).meeting_modal == old(self).meeting_modal,
            final(self).timeline_view == old(self).timeline_view,
    {
        self.selected_index = clamp_selection(self.selected_index, self.items.len());
    }

    pub fn set_items(&mut self, items: Vec<Meeting>)
        ensures
            final(self).items == items,
            final(self).selected_index == old(self).selected_index,
            final(self).meeting_modal == old(self).meeting_modal,
            final(self).timeline_view == old(self).timeline_view,
    {
        self.items = items;
    }

    pub fn is_modal_active(&self) -> (r: bool)
        ensures
            r == (self.timeline_view.is_some() || self.meeting_modal.active),
    {
        self.timeline_view.is_some() || self.meeting_modal.is_active()
    }

    pub fn is_timeline_active(&self) -> (r: bool)
        ensures
            r == self.timeline_view.is_some(),
    {
        self.timeline_view.is_some()
    }

    pub fn selected_index(&self) -> (r: Option<usize>)
        ensures
            r == self.selected_index,
    {
        self.selected_index
    }

    pub fn set_selected_index(&mut self, idx: usize)
        ensures
            final(self).selected_index == Some(idx),
            final(self).items == old(self).items,
            final(self).meeting_modal == old(self).meeting_modal,
            final(self).timeline_view == old(self).timeline_view,
    {
        self.selected_index = Some(idx);
    }

    pub fn open_modal(&mut self)
        ensures
            final(self).wf(),
            final(self).meeting_modal.active,
            final(self).items == old(self).items,
            final(self).selected_index == old(self).selected_index,
    {
        self.meeting_modal.open();
    }

    pub fn set_timeline_view(&mut self, view: TimelineView)
        ensures
            final(self).timeline_view == Some(view),
            final(self).items == old(self).items,
            final(self).selected_index == old(self).selected_index,
            final(self).meeting_modal == old(self).meeting_modal,
    {
        self.timeline_view = Some(view);
    }

    pub fn set_datetime_for_test(&mut self, year: i32, month: u32, day: u32, hour: u32, minute: u32)
        ensures
            final(self).meeting_modal.state() == (ModalState {
                year: year as int,
                month: month as int,
                day: day as int,
                hour: hour as int,
                minute: minute as int,
                ..old(self).meeting_modal.state()
            }),
            old(self).wf() ==> final(self).wf(),
            final(self).items == old(self).items,
            final(self).selected_index == old(self).selected_index,
    {
        self.meeting_modal.set_datetime_for_test(year, month, day, hour, minute);
    }

    /// The tab after a key press that answered `action`.
    pub open spec fn spec_stepped(&self, key: KeyEvent, after: MeetingsView, action: MeetingsAction) -> bool {
        &&& after.wf()
        &&& action@ == self.spec_action(key)
        &&& after.items == self.items
        &&& self.timeline_view matches Some(page) ==> {
            &&& after.meeting_modal == self.meeting_modal
            &&& after.selected_index == self.selected_index
            &&& after.timeline_view.is_none() == (key.code == KeyCode::Esc || key.code == KeyCode::Char('q'))
            &&& after.timeline_view matches Some(p) ==> page.spec_stepped(key, p)
        }
        &&& self.timeline_view.is_none() && self.meeting_modal.active ==> {
            &&& after.meeting_modal.state() == self.meeting_modal.state().after_key(key)
            &&& after.selected_index == self.selected_index
            &&& after.timeline_view.is_none()
            &&& action matches MeetingsAction::CreateMeeting(_, t) ==> after.meeting_modal.state().instant_fits(t)
        }
        &&& self.timeline_view.is_none() && !self.meeting_modal.active ==> {
            &&& after.selected_index == spec_navigated(self.selected_index, self.items.len() as nat, key)
            &&& after.meeting_modal.active == (key.code == KeyCode::Char('a'))
            &&& key.code != KeyCode::Char('a') ==> after.meeting_modal == self.meeting_modal
            &&& after.timeline_view.is_none()
        }
    }

    /// A key press. An open timeline page takes the key, and closes on Esc or `q`.
    /// Else an open meeting form takes it, and a submitted form asks to create the
    /// meeting at the instant of its date and time. Else `j`/Down and `k`/Up move
    /// the selection, `a` opens the form, `r`/`n` ask to write a reflection or a
    /// note about the selected meeting and Enter asks to open its timeline.
    pub fn handle_key(&mut self, key: KeyEvent) -> (action: MeetingsAction)
        requires
            old(self).wf(),
            old(self).timeline_view.is_none() && old(self).meeting_modal.active
                && old(self).meeting_modal.field_focus == FieldFocus::Datetime && key.code
                == KeyCode::Char('j') ==> old(self).meeting_modal.state().increment_fits(),
        ensures
            old(self).spec_stepped(key, *final(self), action),
    {
        if self.timeline_view.is_some() {
            let mut tv = self.timeline_view.take().unwrap();
            let close = tv.handle_key(key);
            if !close {
                self.timeline_view = Some(tv);
            }
            return MeetingsAction::Nothing;
        }
        if self.meeting_modal.is_active() {
            return match self.meeting_modal.handle_key(key) {
                Some((name, scheduled_at)) => MeetingsAction::CreateMeeting(name, scheduled_at),
                None => MeetingsAction::Nothing,
            };
        }
        match key.code {
            KeyCode::Char('j') | KeyCode::Down | KeyCode::Char('k') | KeyCode::Up => {
                self.selected_index = navigate(self.selected_index, self.items.len(), key);
                MeetingsAction::Nothing
            },
            KeyCode::Char('a') => {
                self.meeting_modal.open();
                MeetingsAction::Nothing
            },
            KeyCode::Char('r') | KeyCode::Char('n') | KeyCode::Enter => {
                if let Some(idx) = self.selected_index {
                    if idx < self.items.len() {
                        let id = self.items[idx].id;
                        return match key.code {
                            KeyCode::Char('r') => MeetingsAction::EditReflection(id),
                            KeyCode::Char('n') => MeetingsAction::EditNote(id),
                            _ => {
                                let mut title = String::from_str("Timeline: ");
                                title.append(self.items[idx].name.as_str());
                                MeetingsAction::OpenTimeline(id, title)
                            },
                        };
                    }
                }
                MeetingsAction::Nothing
            },
            _ => MeetingsAction::Nothing,
        }
    }
}

/// The reflections tab: every reflection with its label, newest change first.
pub struct ReflectionsView {
    pub items: Vec<Reflection>,
    pub labels: Vec<String>,
    pub selected_index: Option<usize>,
}

impl ReflectionsView {
    pub fn new() -> (v: ReflectionsView)
        ensures
            v.items.len() == 0,
            v.labels.len() == 0,
            v.selected_index.is_none(),
    {
        ReflectionsView { items: Vec::new(), labels: Vec::new(), selected_index: None }
    }

    pub fn clamp_selected_index(&mut self)
        ensures
            final(self).selected_index == spec_clamp_selection(old(self).selected_index, old(self).items.len() as nat),
            final(self).items == old(self).items,
            final(self).labels == old(self).labels,
    {
        self.selected_index = clamp_selection(self.selected_index, self.items.len());
    }

    /// Replaces the reflections and their labels, as loaded, and keeps the
    /// selection within them.
    pub fn set_items_with_labels(&mut self, items: Vec<Reflection>, labels: Vec<String>)
        ensures
            final(self).items == items,
            final(self).labels == labels,
            final(self).selected_index == spec_clamp_selection(old(self).selected_index, items.len() as nat),
    {
        self.items = items;
        self.labels = labels;
        self.clamp_selected_index();
    }

    /// Replaces the reflections, with empty labels; the selection is kept as it is.
    pub fn set_items(&mut self, items: Vec<Reflection>)
        ensures
            final(self).items == items,
            final(self).labels.len() == items.len(),
            forall|i: int| 0 <= i < items.len() ==> (#[trigger] final(self).labels@[i])@ == Seq::<char>::empty(),
            final(self).selected_index == old(self).selected_index,
    {
        let n = items.len();
        self.items = items;
        let mut labels: Vec<String> = Vec::new();
        let mut i: usize = 0;
        while i < n
            invariant
                i <= n,
                labels.len() == i,
                forall|j: int| 0 <= j < i ==> (#[trigger] labels@[j])@ == Seq::<char>::empty(),
            decreases n - i,
        {
            labels.push(String::new());
            i = i + 1;
        }
        self.labels = labels;
    }

    pub fn selected_index(&self) -> (r: Option<usize>)
        ensures
            r == self.selected_index,
    {
        self.selected_index
    }

    pub fn is_modal_active(&self) -> (r: bool)
        ensures
            !r,
    {
        false
    }

    /// The tab after a key press: only the selection moves.
    pub open spec fn spec_stepped(&self, key: KeyEvent, after: ReflectionsView) -> bool {
        &&& after.selected_index == spec_navigated(self.selected_index, self.items.len() as nat, key)
        &&& after.items == self.items
        &&& after.labels == self.labels
    }

    /// `j`/Down and `k`/Up move the selection; other keys do nothing.
    pub fn handle_key(&mut self, key: KeyEvent)
        ensures
            old(self).spec_stepped(key, *final(self)),
    {
        self.selected_index = navigate(self.selected_index, self.items.len(), key);
    }
}

/// Work a key press on the summaries tab asks for.
#[derive(Debug, PartialEq, Eq)]
pub enum SummariesAction {
    Nothing,
    /// Load the text of the summary and show it.
    OpenSummary(u128),
    /// Edit the summary shown in the editor, then show its new text.
    EditSummary(u128),
}

/// The summaries tab: every summary with its title.
pub struct SummariesView {
    pub items: Vec<Summary>,
    pub labels: Vec<String>,
    pub selected_index: Option<usize>,
    pub summary_view: Option<SummaryView>,
}

impl SummariesView {
    pub fn new() -> (v: SummariesView)
        ensures
            v.items.len() == 0,
            v.labels.len() == 0,
            v.selected_index.is_none(),
            v.summary_view.is_none(),
    {
        SummariesView { items: Vec::new(), labels: Vec::new(), selected_index: None, summary_view: None }
    }

    pub fn clamp_selected_index(&mut self)
        ensures
            final(self).selected_index == spec_clamp_selection(old(self).selected_index, old(self).items.len() as nat),
            final(self).items == old(self).items,
            final(self).labels == old(self).labels,
            final(self).summary_view == old(self).summary_view,
    {
        self.selected_index = clamp_selection(self.selected_index, self.items.len());
    }

    /// Replaces the summaries and their titles, as loaded, and keeps the selection
    /// within them.
    pub fn set_items_with_labels(&mut self, items: Vec<Summary>, labels: Vec<String>)
        ensures
            final(self).items == items,
            final(self).labels == labels,
            final(self).selected_index == spec_clamp_selection(old(self).selected_index, items.len() as nat),
            final(self).summary_view == old(self).summary_view,
    {
        self.items = items;
        self.labels = labels;
        self.clamp_selected_index();
    }

    pub fn is_modal_active(&self) -> (r: bool)
        ensures
            r == self.summary_view.is_some(),
    {
        self.summary_view.is_some()
    }

    pub fn is_summary_view_active(&self) -> (r: bool)
        ensures
            r == self.summary_view.is_some(),
    {
        self.summary_view.is_some()
    }

    pub fn selected_index(&self) -> (r: Option<usize>)
        ensures
            r == self.selected_index,
    {
        self.selected_index
    }

    /// The summary under the selection, if the selection names one.
    pub open spec fn spec_selected_item(&self) -> Option<Summary> {
        match self.selected_index {
            Some(i) => if i < self.items.len() {
                Some(self.items@[i as int])
            } else {
                None
            },
            None => None,
        }
    }

    /// The tab after a key press that answered `action`.
    pub open spec fn spec_stepped(
        &self,
        key: KeyEvent,
        terminal_height: u16,
        after: SummariesView,
        action: SummariesAction,
    ) -> bool {
        &&& after.items == self.items
        &&& after.labels == self.labels
        &&& self.summary_view matches Some(page) ==> {
            &&& action == if key.code == KeyCode::Char('e') && self.spec_selected_item().is_some() {
                SummariesAction::EditSummary(self.spec_selected_item().unwrap().id)
            } else {
                SummariesAction::Nothing
            }
            &&& after.selected_index == self.selected_index
            &&& after.summary_view.is_none() == (key.code == KeyCode::Esc || key.code == KeyCode::Char('q'))
            &&& after.summary_view matches Some(p) ==> page.spec_stepped(key, terminal_height, p)
        }
        &&& self.summary_view.is_none() ==> {
            &&& after.summary_view.is_none()
            &&& after.selected_index == spec_navigated(self.selected_index, self.items.len() as nat, key)
            &&& action == match (key.code, self.selected_index) {
                (KeyCode::Enter, Some(i)) => if i < self.items.len() {
                    SummariesAction::OpenSummary(self.items@[i as int].id)
                } else {
                    SummariesAction::Nothing
                },
                _ => SummariesAction::Nothing,
            }
        }
    }

    /// An open summary page takes the key: it closes on Esc or `q`, scrolls on
    /// Ctrl-d and Ctrl-u, and `e` asks to edit the summary it shows (the selected
    /// one). Else `j`/Down and `k`/Up move the selection and Enter asks to open
    /// the selected summary. `terminal_height` sets the scrolling step of the page.
    pub fn handle_key(&mut self, key: KeyEvent, terminal_height: u16) -> (action: SummariesAction)
        ensures
            old(self).spec_stepped(key, terminal_height, *final(self), action),
    {
        if self.summary_view.is_some() {
            let mut sv = self.summary_view.take().unwrap();
            let close = sv.handle_key(key, terminal_height);
            if !close {
                self.summary_view = Some(sv);
            }
            if key.code == KeyCode::Char('e') {
                if let Some(idx) = self.selected_index {
                    if idx < self.items.len() {
                        return SummariesAction::EditSummary(self.items[idx].id);
                    }
                }
            }
            return SummariesAction::Nothing;
        }
        match key.code {
            KeyCode::Enter => {
                if let Some(idx) = self.selected_index {
                    if idx < self.items.len() {
                        return SummariesAction::OpenSummary(self.items[idx].id);
                    }
                }
                SummariesAction::Nothing
            },
            _ => {
                self.selected_index = navigate(self.selected_index, self.items.len(), key);
                SummariesAction::Nothing
            },
        }
    }
}

/// The smaller of two lengths.
pub open spec fn spec_min_len(a: nat, b: nat) -> nat {
    if a <= b { a } else { b }
}

impl TimelineView {
    /// The markdown the page shows: each entry with its local time of creation,
    /// or a notice when there are no entries. Each local time is the instant read
    /// off a wall clock in some zone (`spec_local_minute`).
    pub fn markdown(&self) -> (s: String)
        ensures
            self.entries.len() == 0 ==> s@ == "No events found for this entity."@,
            self.entries.len() > 0 ==> exists|times: Seq<String>|
                times.len() == self.entries.len() && s@ == spec_timeline_markdown(self.entries@, times)
                    && forall|i: int| 0 <= i < times.len() ==> spec_local_minute(
                    self.entries@[i].created_at,
                    (#[trigger] times[i])@,
                ),
    {
        let mut times: Vec<String> = Vec::new();
        let mut i: usize = 0;
        while i < self.entries.len()
            invariant
                i <= self.entries.len(),
                times.len() == i,
                forall|j: int| 0 <= j < i ==> spec_local_minute(self.entries@[j].created_at, (#[trigger] times@[j])@),
            decreases self.entries.len() - i,
        {
            times.push(local_minute_text(self.entries[i].created_at));
            i = i + 1;
        }
        let s = build_markdown_content(&self.entries, &times);
        assert(times@.len() == self.entries.len() && forall|j: int| 0 <= j < times@.len() ==> spec_local_minute(
            self.entries@[j].created_at,
            (#[trigger] times@[j])@,
        ));
        s
    }
}

impl MeetingsView {
    /// The rows of the list given the text of each item's times (`times[i]`
    /// holds those of item `i`: scheduled_at, created_at, updated_at): the same cells as `rows`, the
    /// times placed exactly as given.
    pub fn rows_from_times(&self, times: &Vec<Vec<String>>) -> (rows: Vec<TableRow>)
        requires
            times.len() == self.items.len(),
            forall|i: int| 0 <= i < times.len() ==> (#[trigger] times@[i]).len() == 3,
        ensures
            rows.len() == self.items.len(),
            forall|i: int|
                0 <= i < rows.len() ==> {
                    &&& (#[trigger] rows@[i]).cells.len() == 4
                    &&& rows@[i].cells@[0]@ == self.items@[i].name@
                    &&& rows@[i].cells@[1] == times@[i]@[0]
                    &&& rows@[i].cells@[2] == times@[i]@[1]
                    &&& rows@[i].cells@[3] == times@[i]@[2]
                    &&& rows@[i].selected == spec_is_selected(self.selected_index, i)
                },
    {
        let n = self.items.len();
        let mut rows: Vec<TableRow> = Vec::new();
        let mut i: usize = 0;
        while i < n
            invariant
                n == self.items.len(),
                n <= self.items.len(),
                times.len() == n,
                forall|j: int| 0 <= j < times.len() ==> (#[trigger] times@[j]).len() == 3,
                i <= n,
                rows.len() == i,
                forall|j: int|
                    0 <= j < i ==> {
                        &&& (#[trigger] rows@[j]).cells.len() == 4
                        &&& rows@[j].cells@[0]@ == self.items@[j].name@
                        &&& rows@[j].cells@[1] == times@[j]@[0]
                        &&& rows@[j].cells@[2] == times@[j]@[1]
                        &&& rows@[j].cells@[3] == times@[j]@[2]
                        &&& rows@[j].selected == spec_is_selected(self.selected_index, j)
                    },
            decreases n - i,
        {
            let mut cells: Vec<String> = Vec::new();
            cells.push(self.items[i].name.clone());
            assert(times@[i as int].len() == 3);
            cells.push(times[i][0].clone());
            cells.push(times[i][1].clone());
            cells.push(times[i][2].clone());
            let selected = match self.selected_index {
                Some(s) => s == i,
                None => false,
            };
            rows.push(TableRow { cells, selected });
            i = i + 1;
        }
        rows
    }

    /// The rows of the list: name, and the local times it is scheduled at,
    /// was created and last changed, the selected row marked. Each local time
    /// is the instant read off a wall clock in some zone (`spec_local_minute`).
    pub fn rows(&self) -> (rows: Vec<TableRow>)
        ensures
            rows.len() == self.items.len(),
            forall|i: int|
                0 <= i < rows.len() ==> {
                    &&& (#[trigger] rows@[i]).cells.len() == 4
                    &&& rows@[i].cells@[0]@ == self.items@[i].name@
                    &&& spec_local_minute(self.items@[i].scheduled_at, rows@[i].cells@[1]@)
                    &&& spec_local_minute(self.items@[i].created_at, rows@[i].cells@[2]@)
                    &&& spec_local_minute(self.items@[i].updated_at, rows@[i].cells@[3]@)
                    &&& rows@[i].selected == spec_is_selected(self.selected_index, i)
                },
    {
        let n = self.items.len();
        let mut times: Vec<Vec<String>> = Vec::new();
        let mut i: usize = 0;
        while i < n
            invariant
                n == self.items.len(),
                n <= self.items.len(),
                i <= n,
                times.len() == i,
                forall|j: int|
                    0 <= j < i ==> {
                        &&& (#[trigger] times@[j]).len() == 3
                        &&& spec_local_minute(self.items@[j].scheduled_at, times@[j]@[0]@)
                        &&& spec_local_minute(self.items@[j].created_at, times@[j]@[1]@)
                        &&& spec_local_minute(self.items@[j].updated_at, times@[j]@[2]@)
                    },
            decreases n - i,
        {
            let mut t: Vec<String> = Vec::new();
            t.push(local_minute_text(self.items[i].scheduled_at));
            t.push(local_minute_text(self.items[i].created_at));
            t.push(local_minute_text(self.items[i].updated_at));
            times.push(t);
            i = i + 1;
        }
        self.rows_from_times(&times)
    }
}

impl ReflectionsView {
    /// The rows of the list given the text of each item's times (`times[i]`
    /// holds those of item `i`: updated_at): the same cells as `rows`, the
    /// times placed exactly as given.
    pub fn rows_from_times(&self, times: &Vec<Vec<String>>) -> (rows: Vec<TableRow>)
        requires
            times.len() == spec_min_len(self.items.len() as nat, self.labels.len() as nat),
            forall|i: int| 0 <= i < times.len() ==> (#[trigger] times@[i]).len() == 1,
        ensures
            rows.len() == spec_min_len(self.items.len() as nat, self.labels.len() as nat),
            forall|i: int|
                0 <= i < rows.len() ==> {
                    &&& (#[trigger] rows@[i]).cells.len() == 2
                    &&& rows@[i].cells@[0]@ == self.labels@[i]@
                    &&& rows@[i].cells@[1] == times@[i]@[0]
                    &&& rows@[i].selected == spec_is_selected(self.selected_index, i)
                },
    {
        let n = if self.items.len() <= self.labels.len() { self.items.len() } else { self.labels.len() };
        let mut rows: Vec<TableRow> = Vec::new();
        let mut i: usize = 0;
        while i < n
            invariant
                n == spec_min_len(self.items.len() as nat, self.labels.len() as nat),
                n <= self.items.len(),
                times.len() == n,
                forall|j: int| 0 <= j < times.len() ==> (#[trigger] times@[j]).len() == 1,
                i <= n,
                rows.len() == i,
                forall|j: int|
                    0 <= j < i ==> {
                        &&& (#[trigger] rows@[j]).cells.len() == 2
                        &&& rows@[j].cells@[0]@ == self.labels@[j]@
                        &&& rows@[j].cells@[1] == times@[j]@[0]
                        &&& rows@[j].selected == spec_is_selected(self.selected_index, j)
                    },
            decreases n - i,
        {
            let mut cells: Vec<String> = Vec::new();
            cells.push(self.labels[i].clone());
            assert(times@[i as int].len() == 1);
            cells.push(times[i][0].clone());
            let selected = match self.selected_index {
                Some(s) => s == i,
                None => false,
            };
            rows.push(TableRow { cells, selected });
            i = i + 1;
        }
        rows
    }

    /// The rows of the list, one per reflection that has a label: the label and
    /// the local time of the last change, the selected row marked. Each local time is
    /// the instant read off a wall clock in some zone (`spec_local_minute`).
    pub fn rows(&self) -> (rows: Vec<TableRow>)
        ensures
            rows.len() == spec_min_len(self.items.len() as nat, self.labels.len() as nat),
            forall|i: int|
                0 <= i < rows.len() ==> {
                    &&& (#[trigger] rows@[i]).cells.len() == 2
                    &&& rows@[i].cells@[0]@ == self.labels@[i]@
                    &&& spec_local_minute(self.items@[i].updated_at, rows@[i].cells@[1]@)
                    &&& rows@[i].selected == spec_is_selected(self.selected_index, i)
                },
    {
        let n = if self.items.len() <= self.labels.len() { self.items.len() } else { self.labels.len() };
        let mut times: Vec<Vec<String>> = Vec::new();
        let mut i: usize = 0;
        while i < n
            invariant
                n == spec_min_len(self.items.len() as nat, self.labels.len() as nat),
                n <= self.items.len(),
                i <= n,
                times.len() == i,
                forall|j: int|
                    0 <= j < i ==> {
                        &&& (#[trigger] times@[j]).len() == 1
                        &&& spec_local_minute(self.items@[j].updated_at, times@[j]@[0]@)
                    },
            decreases n - i,
        {
            let mut t: Vec<String> = Vec::new();
            t.push(local_minute_text(self.items[i].updated_at));
            times.push(t);
            i = i + 1;
        }
        self.rows_from_times(&times)
    }
}

impl SummariesView {
    /// The rows of the list given the text of each item's times (`times[i]`
    /// holds those of item `i`: start, end, created_at, updated_at): the same cells as `rows`, the
    /// times placed exactly as given.
    pub fn rows_from_times(&self, times: &Vec<Vec<String>>) -> (rows: Vec<TableRow>)
        requires
            times.len() == spec_min_len(self.items.len() as nat, self.labels.len() as nat),
            forall|i: int| 0 <= i < times.len() ==> (#[trigger] times@[i]).len() == 4,
        ensures
            rows.len() == spec_min_len(self.items.len() as nat, self.labels.len() as nat),
            forall|i: int|
                0 <= i < rows.len() ==> {
                    &&& (#[trigger] rows@[i]).cells.len() == 5
                    &&& rows@[i].cells@[0]@ == self.labels@[i]@
                    &&& rows@[i].cells@[1] == times@[i]@[0]
                    &&& rows@[i].cells@[2] == times@[i]@[1]
                    &&& rows@[i].cells@[3] == times@[i]@[2]
                    &&& rows@[i].cells@[4] == times@[i]@[3]
                    &&& rows@[i].selected == spec_is_selected(self.selected_index, i)
                },
    {
        let n = if self.items.len() <= self.labels.len() { self.items.len() } else { self.labels.len() };
        let mut rows: Vec<TableRow> = Vec::new();
        let mut i: usize = 0;
        while i < n
            invariant
                n == spec_min_len(self.items.len() as nat, self.labels.len() as nat),
                n <= self.items.len(),
                times.len() == n,
                forall|j: int| 0 <= j < times.len() ==> (#[trigger] times@[j]).len() == 4,
                i <= n,
                rows.len() == i,
                forall|j: int|
                    0 <= j < i ==> {
                        &&& (#[trigger] rows@[j]).cells.len() == 5
                        &&& rows@[j].cells@[0]@ == self.labels@[j]@
                        &&& rows@[j].cells@[1] == times@[j]@[0]
                        &&& rows@[j].cells@[2] == times@[j]@[1]
                        &&& rows@[j].cells@[3] == times@[j]@[2]
                        &&& rows@[j].cells@[4] == times@[j]@[3]
                        &&& rows@[j].selected == spec_is_selected(self.selected_index, j)
                    },
            decreases n - i,
        {
            let mut cells: Vec<String> = Vec::new();
            cells.push(self.labels[i].clone());
            assert(times@[i as int].len() == 4);
            cells.push(times[i][0].clone());
            cells.push(times[i][1].clone());
            cells.push(times[i][2].clone());
            cells.push(times[i][3].clone());
            let selected = match self.selected_index {
                Some(s) => s == i,
                None => false,
            };
            rows.push(TableRow { cells, selected });
            i = i + 1;
        }
        rows
    }

    /// The rows of the list, one per summary that has a title: the title, and
    /// the local times of its start, end, creation and last change, the selected
    /// row marked. Each local time is the instant read off a wall clock in some zone (`spec_local_minute`).
    pub fn rows(&self) -> (rows: Vec<TableRow>)
        ensures
            rows.len() == spec_min_len(self.items.len() as nat, self.labels.len() as nat),
            forall|i: int|
                0 <= i < rows.len() ==> {
                    &&& (#[trigger] rows@[i]).cells.len() == 5
                    &&& rows@[i].cells@[0]@ == self.labels@[i]@
                    &&& spec_local_minute(self.items@[i].start, rows@[i].cells@[1]@)
                    &&& spec_local_minute(self.items@[i].end, rows@[i].cells@[2]@)
                    &&& spec_local_minute(self.items@[i].created_at, rows@[i].cells@[3]@)
                    &&& spec_local_minute(self.items@[i].updated_at, rows@[i].cells@[4]@)
                    &&& rows@[i].selected == spec_is_selected(self.selected_index, i)
                },
    {
        let n = if self.items.len() <= self.labels.len() { self.items.len() } else { self.labels.len() };
        let mut times: Vec<Vec<String>> = Vec::new();
        let mut i: usize = 0;
        while i < n
            invariant
                n == spec_min_len(self.items.len() as nat, self.labels.len() as nat),
                n <= self.items.len(),
                i <= n,
                times.len() == i,
                forall|j: int|
                    0 <= j < i ==> {
                        &&& (#[trigger] times@[j]).len() == 4
                        &&& spec_local_minute(self.items@[j].start, times@[j]@[0]@)
                        &&& spec_local_minute(self.items@[j].end, times@[j]@[1]@)
                        &&& spec_local_minute(self.items@[j].created_at, times@[j]@[2]@)
                        &&& spec_local_minute(self.items@[j].updated_at, times@[j]@[3]@)
                    },
            decreases n - i,
        {
            let mut t: Vec<String> = Vec::new();
            t.push(local_minute_text(self.items[i].start));
            t.push(local_minute_text(self.items[i].end));
            t.push(local_minute_text(self.items[i].created_at));
            t.push(local_minute_text(self.items[i].updated_at));
            times.push(t);
            i = i + 1;
        }
        self.rows_from_times(&times)
    }
}

} // verus!
