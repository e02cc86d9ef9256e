//! The pop-up that asks for the label of a new todo item.
use vstd::prelude::*;
use crate::input_box::{InputBox, spec_input_after_key};
use crate::keys::{KeyCode, KeyEvent};

verus! {

pub struct InputModal {
    pub active: bool,
    pub input: InputBox,
}

/// The pop-up after a key press: whether it is shown, its text and its cursor.
pub open spec fn spec_input_modal_step(active: bool, text: Seq<char>, cur: int, max_length: int, key: KeyEvent) -> (
    bool,
    Seq<char>,
    int,
) {
    match key.code {
        KeyCode::Enter => (active, text, cur),
        KeyCode::Esc => (false, text, cur),
        _ => {
            let (t, c) = spec_input_after_key(text, cur, max_length, key);
            (active, t, c)
        },
    }
}

impl InputModal {
    pub open spec fn wf(&self) -> bool {
        self.input.wf()
    }

    pub fn new() -> (m: InputModal)
        ensures
            m.wf(),
            !m.active,
            m.input.buffer@ == Seq::<char>::empty(),
            m.input.cursor_pos == 0,
            m.input.max_length == crate::input_box::MAX_LENGTH,
    {
        InputModal { active: false, input: InputBox::new() }
    }

    pub fn is_active(&self) -> (r: bool)
        ensures
            r == self.active,
    {
        self.active
    }

    /// Shows the pop-up with an empty field.
    pub fn open(&mut self)
        ensures
            final(self).wf(),
            final(self).active,
            final(self).input.buffer@ == Seq::<char>::empty(),
            final(self).input.cursor_pos == 0,
            final(self).input.max_length == old(self).input.max_length,
    {
        self.active = true;
        self.input.clear();
    }

    pub fn close(&mut self)
        ensures
            !final(self).active,
            final(self).input == old(self).input,
    {
        self.active = false;
    }

    /// Enter hands back the text typed so far (the pop-up stays open), Esc closes
    /// the pop-up, and any other key edits the text.
    pub fn handle_key(&mut self, key: KeyEvent) -> (r: Option<String>)
        requires
            old(self).wf(),
        ensures
            final(self).wf(),
            final(self).input.max_length == old(self).input.max_length,
            (final(self).active, final(self).input.buffer@, final(self).input.cursor_pos as int)
                == spec_input_modal_step(
                old(self).active,
                old(self).input.buffer@,
                old(self).input.cursor_pos as int,
                old(self).input.max_length as int,
                key,
            ),
            match r {
                Some(t) => key.code == KeyCode::Enter && t@ == old(self).input.buffer@,
                None => key.code != KeyCode::Enter,
            },
    {
        match key.code {
            KeyCode::Enter => Some(self.input.value()),
            KeyCode::Esc => {
                self.close();
                None
            },
            _ => {
                self.input.handle_key(key);
                None
            },
        }
    }
}

} // verus!
