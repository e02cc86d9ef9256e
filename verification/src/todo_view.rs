//! The todo list tab: a table of items, a pop-up to add one and a pop-up to
//! change the status of the selected one. Key presses change the view and name
//! the work the caller then does against the store and the editor.
use vstd::prelude::*;
use crate::input_modal::{InputModal, spec_input_modal_step};
use crate::keys::{KeyCode, KeyEvent};
use crate::model::{TodoItem, TodoStatus};
use crate::selection::{clamp_selection, select_next, select_prev, spec_clamp_selection, spec_select_next, spec_select_prev};
use crate::status_modal::{StatusModal, spec_status_row, spec_status_step};
use crate::table::{TableRow, spec_is_selected};
use crate::text::{spec_trim, string_of, trim_chars, chars_of};
use crate::time::{local_minute_text, spec_local_minute};

verus! {

/// Work a key press asks for.
#[derive(Debug)]
pub enum TodoListAction {
    Nothing,
    /// Set the status of the item, then reload the list and keep the selection in it.
    UpdateStatus(u128, TodoStatus),
    /// Create an item with this label, then reload the list.
    CreateTodo(String),
    /// Reload the list (all items or the open ones, as `show_all` says) and keep
    /// the selection in it.
    Reload,
    /// Write a reflection about the item in the editor.
    EditReflection(u128),
    /// Write a note about the item in the editor.
    EditNote(u128),
}

/// A todo action as plain values.
pub enum TodoActionView {
    Nothing,
    UpdateStatus(u128, TodoStatus),
    CreateTodo(Seq<char>),
    Reload,
    EditReflection(u128),
    EditNote(u128),
}

impl View for TodoListAction {
    type V = TodoActionView;

    open spec fn view(&self) -> TodoActionView {
        match self {
            TodoListAction::Nothing => TodoActionView::Nothing,
            TodoListAction::UpdateStatus(id, s) => TodoActionView::UpdateStatus(*id, *s),
            TodoListAction::CreateTodo(l) => TodoActionView::CreateTodo(l@),
            TodoListAction::Reload => TodoActionView::Reload,
            TodoListAction::EditReflection(id) => TodoActionView::EditReflection(*id),
            TodoListAction::EditNote(id) => TodoActionView::EditNote(*id),
        }
    }
}

pub struct TodoListView {
    pub items: Vec<TodoItem>,
    pub input_modal: InputModal,
    pub selected_index: Option<usize>,
    pub show_all: bool,
    pub status_modal: StatusModal,
}

impl TodoListView {
    pub open spec fn wf(&self) -> bool {
        self.input_modal.wf() && self.status_modal.wf()
    }

    /// The item under the selection, if the selection names one.
    pub open spec fn spec_selected_item(&self) -> Option<TodoItem> {
        match self.selected_index {
            Some(i) => if i < self.items.len() {
                Some(self.items@[i as int])
            } else {
                None
            },
            None => None,
        }
    }

    /// The work a key press asks for.
    pub open spec fn spec_action(&self, key: KeyEvent) -> TodoActionView {
        if self.status_modal.active {
            let (_, _, picked) = spec_status_step(
                self.status_modal.active,
                self.status_modal.selected_index as int,
                key,
            );
            match (picked, self.status_modal.target_item_id) {
                (Some(s), Some(id)) => TodoActionView::UpdateStatus(id, s),
                _ => TodoActionView::Nothing,
            }
        } else if self.input_modal.active {
            if key.code == KeyCode::Enter && spec_trim(self.input_modal.input.buffer@).len() > 0 {
                TodoActionView::CreateTodo(spec_trim(self.input_modal.input.buffer@))
            } else {
                TodoActionView::Nothing
            }
        } else {
            match key.code {
                KeyCode::Char('A') => TodoActionView::Reload,
                KeyCode::Char('r') => match self.spec_selected_item() {
                    Some(item) => TodoActionView::EditReflection(item.id),
                    None => TodoActionView::Nothing,
                },
                KeyCode::Char('n') => match self.spec_selected_item() {
                    Some(item) => TodoActionView::EditNote(item.id),
                    None => TodoActionView::Nothing,
                },
                _ => TodoActionView::Nothing,
            }
        }
    }

    /// A freshly opened tab: no items, nothing selected, done items hidden, both
    /// pop-ups closed, the new-item field empty and the status list at its top.
    pub open spec fn spec_is_initial(&self) -> bool {
        &&& self.wf()
        &&& self.items.len() == 0
        &&& self.selected_index.is_none()
        &&& !self.show_all
        &&& !self.input_modal.active
        &&& self.input_modal.input.buffer@ == Seq::<char>::empty()
        &&& self.input_modal.input.cursor_pos == 0
        &&& self.input_modal.input.max_length == crate::input_box::MAX_LENGTH
        &&& !self.status_modal.active
        &&& self.status_modal.selected_index == 0
        &&& self.status_modal.target_item_id.is_none()
    }

    pub fn new() -> (v: TodoListView)
        ensures
            v.spec_is_initial(),
            v.wf(),
            v.items.len() == 0,
            v.selected_index.is_none(),
            !v.show_all,
            !v.input_modal.active,
            !v.status_modal.active,
    {
        TodoListView {
            items: Vec::new(),
            input_modal: InputModal::new(),
            selected_index: None,
            show_all: false,
            status_modal: StatusModal::new(),
        }
    }

    /// Keeps the selection within the list.
    pub fn clamp_selected_index(&mut self)
        ensures
            final(self).selected_index == spec_clamp_selection(old(self).selected_index, old(self).items.len() as nat),
            final(self).items == old(self).items,
            final(self).show_all == old(self).show_all,
            final(self).input_modal == old(self).input_modal,
            final(self).status_modal == old(self).status_modal,
    {
        self.selected_index = clamp_selection(self.selected_index, self.items.len());
    }

    /// Replaces the items, as loaded from the store.
    pub fn set_items(&mut self, items: Vec<TodoItem>)
        ensures
            final(self).items == items,
            final(self).selected_index == old(self).selected_index,
            final(self).show_all == old(self).show_all,
            final(self).input_modal == old(self).input_modal,
            final(self).status_modal == old(self).status_modal,
    {
        self.items = items;
    }

    pub fn is_modal_active(&self) -> (r: bool)
        ensures
            r == (self.input_modal.active || self.status_modal.active),
    {
        self.input_modal.is_active() || self.status_modal.is_active()
    }

    pub fn selected_index(&self) -> (r: Option<usize>)
        ensures
            r == self.selected_index,
    {
        self.selected_index
    }

    pub fn set_selected_index(&mut self, idx: usize)
        ensures
            final(self).selected_index == Some(idx),
            final(self).items == old(self).items,
            final(self).show_all == old(self).show_all,
            final(self).input_modal == old(self).input_modal,
            final(self).status_modal == old(self).status_modal,
    {
        self.selected_index = Some(idx);
    }

    pub fn open_modal(&mut self)
        requires
            old(self).wf(),
        ensures
            final(self).wf(),
            final(self).input_modal.active,
            final(self).input_modal.input.buffer@ == Seq::<char>::empty(),
            final(self).items == old(self).items,
            final(self).selected_index == old(self).selected_index,
            final(self).status_modal == old(self).status_modal,
    {
        self.input_modal.open();
    }

    pub fn is_status_modal_active(&self) -> (r: bool)
        ensures
            r == self.status_modal.active,
    {
        self.status_modal.is_active()
    }

    pub fn is_show_all(&self) -> (r: bool)
        ensures
            r == self.show_all,
    {
        self.show_all
    }

    /// Opens the status pop-up for the first item, or for `placeholder_id` as a
    /// new item when the list is empty.
    pub fn open_status_modal(&mut self, placeholder_id: u128)
        requires
            old(self).wf(),
        ensures
            final(self).wf(),
            final(self).status_modal.active,
            old(self).items.len() > 0 ==> final(self).status_modal.target_item_id == Some(
                old(self).items@[0].id,
            ) && final(self).status_modal.selected_index as int == spec_status_row(
                old(self).items@[0].status,
            ),
            old(self).items.len() == 0 ==> final(self).status_modal.target_item_id == Some(
                placeholder_id,
            ) && final(self).status_modal.selected_index == 0,
            final(self).items == old(self).items,
            final(self).selected_index == old(self).selected_index,
    {
        if self.items.len() > 0 {
            let id = self.items[0].id;
            let status = self.items[0].status;
            self.status_modal.open(id, &status);
        } else {
            self.status_modal.open(placeholder_id, &TodoStatus::New);
        }
    }

    /// The tab after a key press that answered `action`.
    pub open spec fn spec_stepped(&self, key: KeyEvent, after: TodoListView, action: TodoListAction) -> bool {
        &&& after.wf()
        &&& action@ == self.spec_action(key)
        &&& after.items == self.items
        &&& (self.status_modal.active ==> {
                let (a, sel, _) = spec_status_step(
                    self.status_modal.active,
                    self.status_modal.selected_index as int,
                    key,
                );
                &&& after.status_modal.active == a
                &&& after.status_modal.selected_index as int == sel
                &&& after.status_modal.target_item_id == self.status_modal.target_item_id
                &&& after.input_modal == self.input_modal
                &&& after.selected_index == self.selected_index
                &&& after.show_all == self.show_all
            })
        &&& (!self.status_modal.active && self.input_modal.active ==> {
                let (a, t, c) = spec_input_modal_step(
                    self.input_modal.active,
                    self.input_modal.input.buffer@,
                    self.input_modal.input.cursor_pos as int,
                    self.input_modal.input.max_length as int,
                    key,
                );
                &&& after.input_modal.active == (a && key.code != KeyCode::Enter)
                &&& after.input_modal.input.buffer@ == t
                &&& after.input_modal.input.cursor_pos == c
                &&& after.status_modal == self.status_modal
                &&& after.selected_index == self.selected_index
                &&& after.show_all == self.show_all
            })
        &&& (!self.status_modal.active && !self.input_modal.active ==> {
                &&& after.selected_index == match key.code {
                    KeyCode::Char('j') | KeyCode::Down => if self.items.len() > 0 {
                        spec_select_next(self.selected_index, self.items.len() as nat)
                    } else {
                        self.selected_index
                    },
                    KeyCode::Char('k') | KeyCode::Up => if self.items.len() > 0 {
                        spec_select_prev(self.selected_index)
                    } else {
                        self.selected_index
                    },
                    _ => self.selected_index,
                }
                &&& after.show_all == (self.show_all != (key.code == KeyCode::Char('A')))
                &&& after.input_modal.active == (key.code == KeyCode::Char('a'))
                &&& key.code == KeyCode::Char('a') ==> after.input_modal.input.buffer@
                    == Seq::<char>::empty() && after.input_modal.input.cursor_pos == 0
                &&& key.code != KeyCode::Char('a') ==> after.input_modal == self.input_modal
                &&& after.status_modal.active == (key.code == KeyCode::Char('u')
                    && self.spec_selected_item().is_some())
                &&& (key.code == KeyCode::Char('u') && self.spec_selected_item().is_some())
                    ==> after.status_modal.target_item_id == Some(
                    self.spec_selected_item().unwrap().id,
                ) && after.status_modal.selected_index as int == spec_status_row(
                    self.spec_selected_item().unwrap().status,
                )
                &&& !(key.code == KeyCode::Char('u') && self.spec_selected_item().is_some())
                    ==> after.status_modal == self.status_modal
            })
    }

    /// A key press. With the status pop-up shown, the key goes to it, and a picked
    /// status asks to update the item. Else with the add pop-up shown, the key goes
    /// to it; Enter closes it and asks to create an item with the trimmed text when
    /// that is not blank. Else `j`/Down and `k`/Up move the selection, `u` opens the
    /// status pop-up for the selected item, `a` opens the add pop-up, `A` switches
    /// between all items and the open ones and asks to reload, and `r`/`n` ask to
    /// write a reflection or a note about the selected item.
    pub fn handle_key(&mut self, key: KeyEvent) -> (action: TodoListAction)
        requires
            old(self).wf(),
        ensures
            old(self).spec_stepped(key, *final(self), action),
    {
        if self.status_modal.is_active() {
            let picked = self.status_modal.handle_key(key);
            let mut action = TodoListAction::Nothing;
            if let Some(status) = picked {
                if let Some(id) = self.status_modal.target_item_id() {
                    action = TodoListAction::UpdateStatus(id, status);
                }
                self.status_modal.close();
            }
            return action;
        }
        if self.input_modal.is_active() {
            let entered = self.input_modal.handle_key(key);
            let mut action = TodoListAction::Nothing;
            if let Some(input) = entered {
                let chars = chars_of(input.as_str());
                let trimmed = trim_chars(&chars);
                if trimmed.len() > 0 {
                    action = TodoListAction::CreateTodo(string_of(&trimmed));
                }
                self.input_modal.close();
            }
            return action;
        }
        match key.code {
            KeyCode::Char('j') | KeyCode::Down => {
                if self.items.len() > 0 {
                    self.selected_index = select_next(self.selected_index, self.items.len());
                }
                TodoListAction::Nothing
            },
            KeyCode::Char('k') | KeyCode::Up => {
                if self.items.len() > 0 {
                    self.selected_index = select_prev(self.selected_index);
                }
                TodoListAction::Nothing
            },
            KeyCode::Char('u') => {
                if let Some(idx) = self.selected_index {
                    if idx < self.items.len() {
                        let id = self.items[idx].id;
                        let status = self.items[idx].status;
                        self.status_modal.open(id, &status);
                    }
                }
                TodoListAction::Nothing
            },
            KeyCode::Char('a') => {
                self.input_modal.open();
                TodoListAction::Nothing
            },
            KeyCode::Char('A') => {
                self.show_all = !self.show_all;
                TodoListAction::Reload
            },
            KeyCode::Char('r') => {
                if let Some(idx) = self.selected_index {
                    if idx < self.items.len() {
                        return TodoListAction::EditReflection(self.items[idx].id);
                    }
                }
                TodoListAction::Nothing
            },
            KeyCode::Char('n') => {
                if let Some(idx) = self.selected_index {
                    if idx < self.items.len() {
                        return TodoListAction::EditNote(self.items[idx].id);
                    }
                }
                TodoListAction::Nothing
            },
            _ => TodoListAction::Nothing,
        }
    }
}

impl TodoListView {
    /// The rows of the list given the text of each item's times (`times[i]`
    /// holds those of item `i`: created_at, updated_at): the same cells as `rows`, the
    /// times placed exactly as given.
    pub fn rows_from_times(&self, times: &Vec<Vec<String>>) -> (rows: Vec<TableRow>)
        requires
            times.len() == self.items.len(),
            forall|i: int| 0 <= i < times.len() ==> (#[trigger] times@[i]).len() == 2,
        ensures
            rows.len() == self.items.len(),
            forall|i: int|
                0 <= i < rows.len() ==> {
                    &&& (#[trigger] rows@[i]).cells.len() == 4
                    &&& rows@[i].cells@[0]@ == self.items@[i].status.spec_name()
                    &&& rows@[i].cells@[1]@ == self.items@[i].label@
                    &&& rows@[i].cells@[2] == times@[i]@[0]
                    &&& rows@[i].cells@[3] == times@[i]@[1]
                    &&& rows@[i].selected == spec_is_selected(self.selected_index, i)
                },
    {
        let n = self.items.len();
        let mut rows: Vec<TableRow> = Vec::new();
        let mut i: usize = 0;
        while i < n
            invariant
                n == self.items.len(),
                n <= self.items.len(),
                times.len() == n,
                forall|j: int| 0 <= j < times.len() ==> (#[trigger] times@[j]).len() == 2,
                i <= n,
                rows.len() == i,
                forall|j: int|
                    0 <= j < i ==> {
                        &&& (#[trigger] rows@[j]).cells.len() == 4
                        &&& rows@[j].cells@[0]@ == self.items@[j].status.spec_name()
                        &&& rows@[j].cells@[1]@ == self.items@[j].label@
                        &&& rows@[j].cells@[2] == times@[j]@[0]
                        &&& rows@[j].cells@[3] == times@[j]@[1]
                        &&& rows@[j].selected == spec_is_selected(self.selected_index, j)
                    },
            decreases n - i,
        {
            let mut cells: Vec<String> = Vec::new();
            cells.push(self.items[i].status.to_string());
            cells.push(self.items[i].label.clone());
            assert(times@[i as int].len() == 2);
            cells.push(times[i][0].clone());
            cells.push(times[i][1].clone());
            let selected = match self.selected_index {
                Some(s) => s == i,
                None => false,
            };
            rows.push(TableRow { cells, selected });
            i = i + 1;
        }
        rows
    }

    /// The rows of the list: status, label, and the local times of creation and
    /// last change, the selected row marked. Each local time is the
    /// instant read off a wall clock in some zone (`spec_local_minute`).
    pub fn rows(&self) -> (rows: Vec<TableRow>)
        ensures
            rows.len() == self.items.len(),
            forall|i: int|
                0 <= i < rows.len() ==> {
                    &&& (#[trigger] rows@[i]).cells.len() == 4
                    &&& rows@[i].cells@[0]@ == self.items@[i].status.spec_name()
                    &&& rows@[i].cells@[1]@ == self.items@[i].label@
                    &&& spec_local_minute(self.items@[i].created_at, rows@[i].cells@[2]@)
                    &&& spec_local_minute(self.items@[i].updated_at, rows@[i].cells@[3]@)
                    &&& rows@[i].selected == spec_is_selected(self.selected_index, i)
                },
    {
        let n = self.items.len();
        let mut times: Vec<Vec<String>> = Vec::new();
        let mut i: usize = 0;
        while i < n
            invariant
                n == self.items.len(),
                n <= self.items.len(),
                i <= n,
                times.len() == i,
                forall|j: int|
                    0 <= j < i ==> {
                        &&& (#[trigger] times@[j]).len() == 2
                        &&& spec_local_minute(self.items@[j].created_at, times@[j]@[0]@)
                        &&& spec_local_minute(self.items@[j].updated_at, times@[j]@[1]@)
                    },
            decreases n - i,
        {
            let mut t: Vec<String> = Vec::new();
            t.push(local_minute_text(self.items[i].created_at));
            t.push(local_minute_text(self.items[i].updated_at));
            times.push(t);
            i = i + 1;
        }
        self.rows_from_times(&times)
    }
}

} // verus!
