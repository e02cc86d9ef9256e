//! The pop-up that picks a new status for a todo item.
use vstd::prelude::*;
use crate::keys::{KeyCode, KeyEvent};
use crate::model::TodoStatus;

verus! {

pub struct StatusModal {
    pub active: bool,
    /// The statuses offered, top to bottom.
    pub statuses: Vec<TodoStatus>,
    pub selected_index: usize,
    /// The id of the todo item whose status is being picked.
    pub target_item_id: Option<u128>,
}

/// The statuses in the order the pop-up lists them.
pub open spec fn spec_status_order() -> Seq<TodoStatus> {
    seq![TodoStatus::New, TodoStatus::InProgress, TodoStatus::Done]
}

/// The row of `status` in the list.
pub open spec fn spec_status_row(status: TodoStatus) -> int {
    match status {
        TodoStatus::New => 0,
        TodoStatus::InProgress => 1,
        TodoStatus::Done => 2,
    }
}

/// The pop-up after a key press, from `active` with row `sel` selected: whether it
/// is still shown, the selected row, and the status handed back.
pub open spec fn spec_status_step(active: bool, sel: int, key: KeyEvent) -> (bool, int, Option<TodoStatus>) {
    match key.code {
        KeyCode::Char('j') | KeyCode::Down => (active, if sel < 2 { sel + 1 } else { sel }, None),
        KeyCode::Char('k') | KeyCode::Up => (active, if sel > 0 { sel - 1 } else { sel }, None),
        KeyCode::Enter => (false, sel, Some(spec_status_order()[sel])),
        KeyCode::Esc | KeyCode::Char('q') => (false, sel, None),
        _ => (active, sel, None),
    }
}

impl StatusModal {
    /// The three statuses in order, and the selection on one of them.
    pub open spec fn wf(&self) -> bool {
        self.statuses@ == spec_status_order() && self.selected_index < 3
    }

    pub fn new() -> (m: StatusModal)
        ensures
            m.wf(),
            !m.active,
            m.selected_index == 0,
            m.target_item_id.is_none(),
    {
        let mut statuses: Vec<TodoStatus> = Vec::new();
        statuses.push(TodoStatus::New);
        statuses.push(TodoStatus::InProgress);
        statuses.push(TodoStatus::Done);
        assert(statuses@ =~= spec_status_order());
        StatusModal { active: false, statuses, selected_index: 0, target_item_id: None }
    }

    pub fn is_active(&self) -> (r: bool)
        ensures
            r == self.active,
    {
        self.active
    }

    /// Shows the pop-up for the item `item_id`, its current status selected.
    pub fn open(&mut self, item_id: u128, current_status: &TodoStatus)
        requires
            old(self).wf(),
        ensures
            final(self).wf(),
            final(self).active,
            final(self).target_item_id == Some(item_id),
            final(self).selected_index as int == spec_status_row(*current_status),
    {
        self.target_item_id = Some(item_id);
        self.selected_index = match current_status {
            TodoStatus::New => 0,
            TodoStatus::InProgress => 1,
            TodoStatus::Done => 2,
        };
        self.active = true;
    }

    pub fn close(&mut self)
        ensures
            !final(self).active,
            final(self).statuses == old(self).statuses,
            final(self).selected_index == old(self).selected_index,
            final(self).target_item_id == old(self).target_item_id,
    {
        self.active = false;
    }

    pub fn target_item_id(&self) -> (r: Option<u128>)
        ensures
            r == self.target_item_id,
    {
        self.target_item_id
    }

    /// `j`/Down and `k`/Up move the selection within the list, Enter closes the
    /// pop-up and hands back the selected status, Esc and `q` close it.
    pub fn handle_key(&mut self, key: KeyEvent) -> (r: Option<TodoStatus>)
        requires
            old(self).wf(),
        ensures
            final(self).wf(),
            final(self).target_item_id == old(self).target_item_id,
            (final(self).active, final(self).selected_index as int, r) == spec_status_step(
                old(self).active,
                old(self).selected_index as int,
                key,
            ),
    {
        match key.code {
            KeyCode::Char('j') | KeyCode::Down => {
                if self.selected_index < self.statuses.len() - 1 {
                    self.selected_index = self.selected_index + 1;
                }
                None
            },
            KeyCode::Char('k') | KeyCode::Up => {
                if self.selected_index > 0 {
                    self.selected_index = self.selected_index - 1;
                }
                None
            },
            KeyCode::Enter => {
                let status = self.statuses[self.selected_index];
                self.close();
                Some(status)
            },
            KeyCode::Esc | KeyCode::Char('q') => {
                self.close();
                None
            },
            _ => None,
        }
    }

    /// The rows of the pop-up: each status name, and whether it is the selected one.
    pub fn rows(&self) -> (rows: Vec<(String, bool)>)
        requires
            self.wf(),
        ensures
            rows.len() == 3,
            forall|i: int|
                0 <= i < 3 ==> (#[trigger] rows@[i]).0@ == spec_status_order()[i].spec_name()
                    && rows@[i].1 == (i == self.selected_index),
    {
        let mut rows: Vec<(String, bool)> = Vec::new();
        let mut i: usize = 0;
        while i < self.statuses.len()
            invariant
                self.wf(),
                i <= 3,
                rows.len() == i,
                forall|j: int|
                    0 <= j < i ==> (#[trigger] rows@[j]).0@ == spec_status_order()[j].spec_name()
                        && rows@[j].1 == (j == self.selected_index),
            decreases 3 - i,
        {
            rows.push((self.statuses[i].to_string(), i == self.selected_index));
            i = i + 1;
        }
        rows
    }
}

} // verus!
