//! The tabbed terminal application: which tab is shown, the `g` prefix for
//! switching tabs, the global keys, and the routing of other keys to the tab.
use vstd::prelude::*;
use crate::keys::{KeyCode, KeyEvent, CONTROL};
use crate::meeting_modal::FieldFocus;
use crate::todo_view::{TodoListAction, TodoListView};
use crate::views::{MeetingsAction, MeetingsView, ReflectionsView, SummariesAction, SummariesView};

verus! {

#[derive(Clone, Copy, Debug, PartialEq, Eq, Structural)]
pub enum Tab {
    TodoList,
    Meetings,
    Reflections,
    Summaries,
}

/// The position of a tab in the tab bar.
pub open spec fn spec_tab_index(t: Tab) -> int {
    match t {
        Tab::TodoList => 0,
        Tab::Meetings => 1,
        Tab::Reflections => 2,
        Tab::Summaries => 3,
    }
}

pub open spec fn spec_tab_at(i: int) -> Tab {
    if i == 0 {
        Tab::TodoList
    } else if i == 1 {
        Tab::Meetings
    } else if i == 2 {
        Tab::Reflections
    } else {
        Tab::Summaries
    }
}

pub fn tab_index(t: Tab) -> (i: usize)
    ensures
        i as int == spec_tab_index(t),
{
    match t {
        Tab::TodoList => 0,
        Tab::Meetings => 1,
        Tab::Reflections => 2,
        Tab::Summaries => 3,
    }
}

/// The tab to the right, the last one wrapping round to the first.
pub fn next_tab(t: Tab) -> (r: Tab)
    ensures
        r == spec_tab_at((spec_tab_index(t) + 1) % 4),
{
    match t {
        Tab::TodoList => Tab::Meetings,
        Tab::Meetings => Tab::Reflections,
        Tab::Reflections => Tab::Summaries,
        Tab::Summaries => Tab::TodoList,
    }
}

/// The tab to the left, the first one wrapping round to the last.
pub fn prev_tab(t: Tab) -> (r: Tab)
    ensures
        r == spec_tab_at((spec_tab_index(t) + 3) % 4),
{
    match t {
        Tab::TodoList => Tab::Summaries,
        Tab::Meetings => Tab::TodoList,
        Tab::Reflections => Tab::Meetings,
        Tab::Summaries => Tab::Reflections,
    }
}

/// Moving one tab right and then one tab left comes back to the same tab, and
/// four moves right go round the bar.
pub proof fn law_tab_cycle(t: Tab)
    ensures
        spec_tab_at((spec_tab_index(spec_tab_at((spec_tab_index(t) + 1) % 4)) + 3) % 4) == t,
        spec_tab_at((spec_tab_index(t) + 4) % 4) == t,
{
}

/// Ctrl-c, with no other modifier, quits the application.
pub fn is_global_quit(key: &KeyEvent) -> (r: bool)
    ensures
        r == (key.code == KeyCode::Char('c') && key.modifiers == CONTROL),
{
    match key.code {
        KeyCode::Char('c') => key.modifiers == CONTROL,
        _ => false,
    }
}

/// Work a key press asks the application to do.
#[derive(Debug)]
pub enum AppAction {
    Nothing,
    /// Write a reflection about nothing in particular.
    NewReflection,
    /// Write a note about nothing in particular.
    NewNote,
    /// Reload the summaries tab, which was just switched to.
    RefreshSummaries,
    Todo(TodoListAction),
    Meetings(MeetingsAction),
    Summaries(SummariesAction),
}

pub struct App {
    pub todo_list_view: TodoListView,
    pub meetings_view: MeetingsView,
    pub reflections_view: ReflectionsView,
    pub summaries_view: SummariesView,
    pub active_tab: Tab,
    pub pending_g_prefix: bool,
}

impl App {
    pub open spec fn wf(&self) -> bool {
        self.todo_list_view.wf() && self.meetings_view.wf()
    }

    pub open spec fn spec_modal_active(&self) -> bool {
        match self.active_tab {
            Tab::TodoList => self.todo_list_view.input_modal.active || self.todo_list_view.status_modal.active,
            Tab::Meetings => self.meetings_view.timeline_view.is_some() || self.meetings_view.meeting_modal.active,
            Tab::Reflections => false,
            Tab::Summaries => self.summaries_view.summary_view.is_some(),
        }
    }

    /// A key sent on to the active tab could not overflow the meeting form.
    pub open spec fn spec_key_fits(&self, key: KeyEvent) -> bool {
        self.meetings_view.timeline_view.is_none() && self.meetings_view.meeting_modal.active
            && self.meetings_view.meeting_modal.field_focus == FieldFocus::Datetime && key.code
            == KeyCode::Char('j') ==> self.meetings_view.meeting_modal.state().increment_fits()
    }

    /// The four tabs' views are those of `after`.
    pub open spec fn spec_same_views(&self, after: App) -> bool {
        &&& after.todo_list_view == self.todo_list_view
        &&& after.meetings_view == self.meetings_view
        &&& after.reflections_view == self.reflections_view
        &&& after.summaries_view == self.summaries_view
    }

    /// `key` went to the active tab: its view took the step its own key handling
    /// states, answering `action`, and the other views stayed as they were.
    pub open spec fn spec_delegated(&self, key: KeyEvent, terminal_height: u16, after: App, action: AppAction) -> bool {
        match self.active_tab {
            Tab::TodoList => {
                &&& action matches AppAction::Todo(a) && self.todo_list_view.spec_stepped(key, after.todo_list_view, a)
                &&& after.meetings_view == self.meetings_view
                &&& after.reflections_view == self.reflections_view
                &&& after.summaries_view == self.summaries_view
            },
            Tab::Meetings => {
                &&& action matches AppAction::Meetings(a) && self.meetings_view.spec_stepped(key, after.meetings_view, a)
                &&& after.todo_list_view == self.todo_list_view
                &&& after.reflections_view == self.reflections_view
                &&& after.summaries_view == self.summaries_view
            },
            Tab::Reflections => {
                &&& action is Nothing
                &&& self.reflections_view.spec_stepped(key, after.reflections_view)
                &&& after.todo_list_view == self.todo_list_view
                &&& after.meetings_view == self.meetings_view
                &&& after.summaries_view == self.summaries_view
            },
            Tab::Summaries => {
                &&& action matches AppAction::Summaries(a) && self.summaries_view.spec_stepped(
                    key,
                    terminal_height,
                    after.summaries_view,
                    a,
                )
                &&& after.todo_list_view == self.todo_list_view
                &&& after.meetings_view == self.meetings_view
                &&& after.reflections_view == self.reflections_view
            },
        }
    }

    pub fn new() -> (a: App)
        ensures
            a.todo_list_view.spec_is_initial(),
            a.meetings_view.spec_is_initial(),
            a.reflections_view.items.len() == 0,
            a.reflections_view.labels.len() == 0,
            a.reflections_view.selected_index.is_none(),
            a.summaries_view.items.len() == 0,
            a.summaries_view.labels.len() == 0,
            a.summaries_view.selected_index.is_none(),
            a.summaries_view.summary_view.is_none(),
            a.wf(),
            a.active_tab == Tab::TodoList,
            !a.pending_g_prefix,
    {
        App {
            todo_list_view: TodoListView::new(),
            meetings_view: MeetingsView::new(),
            reflections_view: ReflectionsView::new(),
            summaries_view: SummariesView::new(),
            active_tab: Tab::TodoList,
            pending_g_prefix: false,
        }
    }

    /// Whether the active tab shows a pop-up or a page over its list.
    pub fn is_modal_active(&self) -> (r: bool)
        ensures
            r == self.spec_modal_active(),
    {
        match self.active_tab {
            Tab::TodoList => self.todo_list_view.is_modal_active(),
            Tab::Meetings => self.meetings_view.is_modal_active(),
            Tab::Reflections => self.reflections_view.is_modal_active(),
            Tab::Summaries => self.summaries_view.is_modal_active(),
        }
    }

    /// Whether the active tab shows a page that takes the whole screen.
    pub fn is_overlay_active(&self) -> (r: bool)
        ensures
            r == match self.active_tab {
                Tab::Meetings => self.meetings_view.timeline_view.is_some(),
                Tab::Summaries => self.summaries_view.summary_view.is_some(),
                _ => false,
            },
    {
        match self.active_tab {
            Tab::Meetings => self.meetings_view.is_timeline_active(),
            Tab::Summaries => self.summaries_view.is_summary_view_active(),
            _ => false,
        }
    }

    fn delegate_to_tab(&mut self, key: KeyEvent, terminal_height: u16) -> (action: AppAction)
        requires
            old(self).wf(),
            old(self).spec_key_fits(key),
        ensures
            final(self).wf(),
            final(self).active_tab == old(self).active_tab,
            final(self).pending_g_prefix == old(self).pending_g_prefix,
            old(self).spec_delegated(key, terminal_height, *final(self), action),
    {
        match self.active_tab {
            Tab::TodoList => AppAction::Todo(self.todo_list_view.handle_key(key)),
            Tab::Meetings => AppAction::Meetings(self.meetings_view.handle_key(key)),
            Tab::Reflections => {
                self.reflections_view.handle_key(key);
                AppAction::Nothing
            },
            Tab::Summaries => AppAction::Summaries(self.summaries_view.handle_key(key, terminal_height)),
        }
    }

    /// The app after a key press that answered `action` (see `handle_key`).
    pub open spec fn spec_key_step(&self, key: KeyEvent, terminal_height: u16, after: App, action: AppAction) -> bool {
        &&& after.wf()
        &&& self.pending_g_prefix ==> !after.pending_g_prefix && match key.code {
            KeyCode::Char('t') => after.active_tab == spec_tab_at((spec_tab_index(self.active_tab) + 1) % 4)
                && (action is RefreshSummaries <==> after.active_tab == Tab::Summaries)
                && (action is Nothing <==> after.active_tab != Tab::Summaries)
                && self.spec_same_views(after),
            KeyCode::Char('T') => after.active_tab == spec_tab_at((spec_tab_index(self.active_tab) + 3) % 4)
                && action is Nothing && self.spec_same_views(after),
            _ => after.active_tab == self.active_tab && self.spec_delegated(key, terminal_height, after, action),
        }
        &&& !self.pending_g_prefix && !self.spec_modal_active() ==> match key.code {
            KeyCode::Char('g') => after.pending_g_prefix && action is Nothing
                && after.active_tab == self.active_tab && self.spec_same_views(after),
            KeyCode::Char('R') => action is NewReflection && !after.pending_g_prefix
                && after.active_tab == self.active_tab && self.spec_same_views(after),
            KeyCode::Char('N') => action is NewNote && !after.pending_g_prefix
                && after.active_tab == self.active_tab && self.spec_same_views(after),
            _ => !after.pending_g_prefix && after.active_tab == self.active_tab
                && self.spec_delegated(key, terminal_height, after, action),
        }
        &&& !self.pending_g_prefix && self.spec_modal_active() ==> !after.pending_g_prefix
            && after.active_tab == self.active_tab && self.spec_delegated(key, terminal_height, after, action)
    }

    /// A key press. After `g`, `t` moves to the next tab (asking to reload the
    /// summaries when that is the one reached) and `T` to the previous one, and any
    /// other key goes to the tab. Without a pop-up shown, `g` starts the prefix and
    /// `R`/`N` ask for a general reflection or note. Everything else goes to the
    /// active tab. `terminal_height` sets the scrolling step of a summary page.
    pub fn handle_key(&mut self, key: KeyEvent, terminal_height: u16) -> (action: AppAction)
        requires
            old(self).wf(),
            old(self).spec_key_fits(key),
        ensures
            old(self).spec_key_step(key, terminal_height, *final(self), action),
    {
        if self.pending_g_prefix {
            self.pending_g_prefix = false;
            return match key.code {
                KeyCode::Char('t') => {
                    self.active_tab = next_tab(self.active_tab);
                    match self.active_tab {
                        Tab::Summaries => AppAction::RefreshSummaries,
                        _ => AppAction::Nothing,
                    }
                },
                KeyCode::Char('T') => {
                    self.active_tab = prev_tab(self.active_tab);
                    AppAction::Nothing
                },
                _ => self.delegate_to_tab(key, terminal_height),
            };
        }
        if !self.is_modal_active() {
            match key.code {
                KeyCode::Char('g') => {
                    self.pending_g_prefix = true;
                    return AppAction::Nothing;
                },
                KeyCode::Char('R') => {
                    return AppAction::NewReflection;
                },
                KeyCode::Char('N') => {
                    return AppAction::NewNote;
                },
                _ => {},
            }
        }
        self.delegate_to_tab(key, terminal_height)
    }
}

/// No tab shows a pop-up or a page over its list.
pub open spec fn spec_no_pop_up(a: App) -> bool {
    &&& !a.todo_list_view.input_modal.active
    &&& !a.todo_list_view.status_modal.active
    &&& a.meetings_view.timeline_view.is_none()
    &&& !a.meetings_view.meeting_modal.active
    &&& a.summaries_view.summary_view.is_none()
}

/// `apps` is a run of `handle_key` over alternating `g` and `t` presses:
/// `apps[i + 1]` is what the press `i` left, answering `actions[i]`.
pub open spec fn spec_g_t_run(
    apps: Seq<App>,
    actions: Seq<AppAction>,
    g: KeyEvent,
    t: KeyEvent,
    terminal_height: u16,
) -> bool {
    &&& apps.len() == actions.len() + 1
    &&& forall|i: int|
        #![trigger actions[i]]
        0 <= i < actions.len() ==> apps[i].spec_key_step(spec_g_or_t(i, g, t), terminal_height, apps[i + 1], actions[i])
}

/// Press `i` of a run of `g` and `t` presses.
pub open spec fn spec_g_or_t(i: int, g: KeyEvent, t: KeyEvent) -> KeyEvent {
    if i % 2 == 0 {
        g
    } else {
        t
    }
}

proof fn lemma_tab_round(x: int)
    requires
        0 <= x,
    ensures
        spec_tab_at((spec_tab_index(spec_tab_at(x % 4)) + 1) % 4) == spec_tab_at((x + 1) % 4),
{
    assert(0 <= x % 4 < 4);
    assert(spec_tab_index(spec_tab_at(x % 4)) == x % 4);
    assert((x % 4 + 1) % 4 == (x + 1) % 4);
}

/// With no pop-up shown in any tab and no prefix pending, `k` pairs of `g` and
/// `t` move `k` tabs to the right, round the bar, and leave every view (items,
/// selection and all) as it was.
pub proof fn law_g_t_pairs_cycle_tabs(
    apps: Seq<App>,
    actions: Seq<AppAction>,
    g: KeyEvent,
    t: KeyEvent,
    terminal_height: u16,
    k: nat,
)
    requires
        g.code == KeyCode::Char('g'),
        t.code == KeyCode::Char('t'),
        actions.len() == 2 * k,
        spec_g_t_run(apps, actions, g, t, terminal_height),
        !apps[0].pending_g_prefix,
        spec_no_pop_up(apps[0]),
    ensures
        apps[2 * k as int].active_tab == spec_tab_at((spec_tab_index(apps[0].active_tab) + k) % 4),
        apps[0].spec_same_views(apps[2 * k as int]),
        !apps[2 * k as int].pending_g_prefix,
    decreases k,
{
    let i0 = spec_tab_index(apps[0].active_tab);
    if k == 0 {
        assert(spec_tab_at(i0 % 4) == apps[0].active_tab);
    } else {
        let k1 = (k - 1) as nat;
        let apps1 = apps.subrange(0, (2 * k1 + 1) as int);
        let actions1 = actions.subrange(0, (2 * k1) as int);
        assert forall|i: int| #![trigger actions1[i]] 0 <= i < actions1.len() implies apps1[i].spec_key_step(
            spec_g_or_t(i, g, t),
            terminal_height,
            apps1[i + 1],
            actions1[i],
        ) by {
            assert(actions1[i] == actions[i]);
            assert(apps[i].spec_key_step(spec_g_or_t(i, g, t), terminal_height, apps[i + 1], actions[i]));
        }
        law_g_t_pairs_cycle_tabs(apps1, actions1, g, t, terminal_height, k1);
        let a = apps[(2 * k1) as int];
        let b = apps[(2 * k1 + 1) as int];
        let c = apps[(2 * k1 + 2) as int];
        assert(a.spec_key_step(g, terminal_height, b, actions[(2 * k1) as int]));
        assert(((2 * k1 + 1) as int) % 2 == 1);
        assert(b.spec_key_step(t, terminal_height, c, actions[(2 * k1 + 1) as int]));
        assert(!a.spec_modal_active());
        assert(b.pending_g_prefix);
        lemma_tab_round(i0 + k1);
    }
}

} // verus!
