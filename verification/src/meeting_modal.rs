//! The "Add Meeting" form: a name field and a date-time field edited section by
//! section (year, month, day, hour, minute) with `h`/`l` to move, `j`/`k` to step
//! a value and digits to type one.
use vstd::prelude::*;
use crate::calendar::{days_in_month, spec_days_in_month};
use crate::input_box::{InputBox, spec_input_after_key};
use crate::keys::{KeyCode, KeyEvent};
use crate::text::{is_ascii_digit, push_char, push_padded, spec_padded, spec_is_ascii_digit, spec_trim, trim_chars, chars_of, string_of};
use crate::time::{build_datetime, local_now_fields, spec_within_a_day, utc_instant_of, LocalFields, UtcTime};

verus! {

/// Which field of the form has the focus.
#[derive(Clone, Copy, Debug, PartialEq, Eq, Structural)]
pub enum FieldFocus {
    Name,
    Datetime,
}

/// The date-time sections, in order: year, month, day, hour, minute.
pub const DATETIME_SECTION_COUNT: usize = 5;

pub struct MeetingModal {
    pub active: bool,
    pub field_focus: FieldFocus,
    pub name_input: InputBox,
    pub year: i32,
    pub month: u32,
    pub day: u32,
    pub hour: u32,
    pub minute: u32,
    /// The date-time section being edited (0 = year, .., 4 = minute).
    pub dt_section: usize,
    /// Digits typed into the current section and not yet applied.
    pub dt_typing: Option<String>,
}

/// The form as plain values.
#[verifier::ext_equal]
pub struct ModalState {
    pub active: bool,
    pub focus: FieldFocus,
    pub name: Seq<char>,
    pub cursor: int,
    pub max_length: int,
    pub year: int,
    pub month: int,
    pub day: int,
    pub hour: int,
    pub minute: int,
    pub section: int,
    pub typing: Option<Seq<char>>,
}

/// The number written by the decimal digits of `s`.
pub open spec fn digits_value(s: Seq<char>) -> int
    decreases s.len(),
{
    if s.len() == 0 {
        0
    } else {
        digits_value(s.drop_last()) * 10 + (s.last() as int - '0' as int)
    }
}

pub open spec fn all_digits(s: Seq<char>) -> bool {
    forall|i: int| 0 <= i < s.len() ==> spec_is_ascii_digit(#[trigger] s[i])
}

pub open spec fn pow10(n: nat) -> int
    decreases n,
{
    if n == 0 {
        1
    } else {
        10 * pow10((n - 1) as nat)
    }
}

pub open spec fn clamp(v: int, lo: int, hi: int) -> int {
    if v < lo {
        lo
    } else if v > hi {
        hi
    } else {
        v
    }
}

pub open spec fn min(a: int, b: int) -> int {
    if a <= b {
        a
    } else {
        b
    }
}

/// How many digits a section takes: four for the year, two for the others.
pub open spec fn section_width(section: int) -> int {
    if section == 0 {
        4
    } else {
        2
    }
}

impl ModalState {
    pub open spec fn closed(self) -> ModalState {
        ModalState { active: false, ..self }
    }

    /// The typed digits applied to the current section, month and day kept in range.
    pub open spec fn committed(self) -> ModalState {
        match self.typing {
            None => self,
            Some(t) => {
                let base = ModalState { typing: None, ..self };
                if t.len() == 0 {
                    base
                } else {
                    let v = digits_value(t);
                    if self.section == 0 {
                        ModalState { year: v, ..base }
                    } else if self.section == 1 {
                        let m = clamp(v, 1, 12);
                        ModalState {
                            month: m,
                            day: min(self.day, spec_days_in_month(self.year, m)),
                            ..base
                        }
                    } else if self.section == 2 {
                        ModalState { day: clamp(v, 1, spec_days_in_month(self.year, self.month)), ..base }
                    } else if self.section == 3 {
                        ModalState { hour: min(v, 23), ..base }
                    } else if self.section == 4 {
                        ModalState { minute: min(v, 59), ..base }
                    } else {
                        base
                    }
                }
            },
        }
    }

    /// One step up in the current section; month, day, hour and minute wrap round.
    pub open spec fn incremented(self) -> ModalState {
        if self.section == 0 {
            ModalState { year: self.year + 1, ..self }
        } else if self.section == 1 {
            let m = if self.month + 1 > 12 {
                1
            } else {
                self.month + 1
            };
            ModalState { month: m, day: min(self.day, spec_days_in_month(self.year, m)), ..self }
        } else if self.section == 2 {
            let d = if self.day + 1 > spec_days_in_month(self.year, self.month) {
                1
            } else {
                self.day + 1
            };
            ModalState { day: d, ..self }
        } else if self.section == 3 {
            ModalState { hour: if self.hour + 1 > 23 { 0 } else { self.hour + 1 }, ..self }
        } else if self.section == 4 {
            ModalState { minute: if self.minute + 1 > 59 { 0 } else { self.minute + 1 }, ..self }
        } else {
            self
        }
    }

    /// One step down in the current section; the year stops at 1900, the others
    /// wrap, and a month change keeps the day within the new month.
    pub open spec fn decremented(self) -> ModalState {
        if self.section == 0 {
            if self.year > 1900 {
                ModalState { year: self.year - 1, ..self }
            } else {
                self
            }
        } else if self.section == 1 {
            if self.month > 1 {
                ModalState {
                    month: self.month - 1,
                    day: min(self.day, spec_days_in_month(self.year, self.month - 1)),
                    ..self
                }
            } else {
                ModalState { month: 12, day: min(self.day, spec_days_in_month(self.year, 12)), ..self }
            }
        } else if self.section == 2 {
            if self.day > 1 {
                ModalState { day: self.day - 1, ..self }
            } else {
                ModalState { day: spec_days_in_month(self.year, self.month), ..self }
            }
        } else if self.section == 3 {
            ModalState { hour: if self.hour > 0 { self.hour - 1 } else { 23 }, ..self }
        } else if self.section == 4 {
            ModalState { minute: if self.minute > 0 { self.minute - 1 } else { 59 }, ..self }
        } else {
            self
        }
    }

    /// A digit typed into the current section: a full buffer starts over, and a
    /// buffer that reaches the section's width is applied at once.
    pub open spec fn typed(self, c: char) -> ModalState {
        let w = section_width(self.section);
        let t0 = match self.typing {
            Some(t) => t,
            None => Seq::<char>::empty(),
        };
        let t1 = if t0.len() >= w {
            Seq::<char>::empty()
        } else {
            t0
        };
        let t2 = t1.push(c);
        let s2 = ModalState { typing: Some(t2), ..self };
        if t2.len() >= w {
            s2.committed()
        } else {
            s2
        }
    }

    /// The form after a key press while the name field has the focus.
    pub open spec fn after_name_key(self, key: KeyEvent) -> ModalState {
        match key.code {
            KeyCode::Tab => ModalState { focus: FieldFocus::Datetime, section: 0, ..self },
            KeyCode::BackTab => ModalState { focus: FieldFocus::Datetime, section: 4, ..self },
            KeyCode::Char('q') => self.closed(),
            KeyCode::Enter => self.closed(),
            KeyCode::Esc => self.closed(),
            _ => {
                let (text, cur) = spec_input_after_key(self.name, self.cursor, self.max_length, key);
                ModalState { name: text, cursor: cur, ..self }
            },
        }
    }

    /// The form after a key press while the date-time field has the focus.
    pub open spec fn after_datetime_key(self, key: KeyEvent) -> ModalState {
        match key.code {
            KeyCode::Tab => {
                let c = self.committed();
                ModalState { focus: FieldFocus::Datetime, section: (c.section + 1) % 5, ..c }
            },
            KeyCode::BackTab => ModalState { focus: FieldFocus::Name, ..self.committed() },
            KeyCode::Char('q') => self.closed(),
            KeyCode::Char('h') => {
                let c = self.committed();
                if c.section > 0 {
                    ModalState { section: c.section - 1, ..c }
                } else {
                    ModalState { focus: FieldFocus::Name, ..c }
                }
            },
            KeyCode::Char('l') => {
                let c = self.committed();
                if c.section < 4 {
                    ModalState { section: c.section + 1, ..c }
                } else {
                    ModalState { focus: FieldFocus::Name, ..c }
                }
            },
            KeyCode::Char('j') => ModalState { typing: None, ..self }.incremented(),
            KeyCode::Char('k') => ModalState { typing: None, ..self }.decremented(),
            KeyCode::Char(c) => if spec_is_ascii_digit(c) {
                self.typed(c)
            } else {
                ModalState { typing: None, ..self }
            },
            KeyCode::Enter => self.committed().closed(),
            KeyCode::Esc => self.closed(),
            _ => ModalState { typing: None, ..self },
        }
    }

    pub open spec fn after_key(self, key: KeyEvent) -> ModalState {
        match self.focus {
            FieldFocus::Name => self.after_name_key(key),
            FieldFocus::Datetime => self.after_datetime_key(key),
        }
    }

    /// The meeting name handed back by a key press: Enter with a name that is not
    /// blank gives the trimmed name; nothing else gives one.
    pub open spec fn submitted(self, key: KeyEvent) -> Option<Seq<char>> {
        if key.code == KeyCode::Enter && spec_trim(self.name).len() > 0 {
            Some(spec_trim(self.name))
        } else {
            None
        }
    }

    /// `t` is the instant of the form's date and time: when they make a valid
    /// date and time, `t` lies within a day of that reading taken as UTC (the
    /// local zone's reading of it; which one exactly is the machine's zone).
    pub open spec fn instant_fits(self, t: UtcTime) -> bool {
        utc_instant_of(self.year, self.month, self.day, self.hour, self.minute) matches Some(u)
            ==> spec_within_a_day(t, u)
    }

    /// Stepping the current section up cannot overflow its integer type.
    pub open spec fn increment_fits(self) -> bool {
        if self.section == 0 {
            self.year < i32::MAX
        } else if self.section == 1 {
            self.month < u32::MAX
        } else if self.section == 2 {
            self.day < u32::MAX
        } else if self.section == 3 {
            self.hour < u32::MAX
        } else {
            self.minute < u32::MAX
        }
    }
}

impl MeetingModal {
    pub open spec fn state(&self) -> ModalState {
        ModalState {
            active: self.active,
            focus: self.field_focus,
            name: self.name_input.buffer@,
            cursor: self.name_input.cursor_pos as int,
            max_length: self.name_input.max_length as int,
            year: self.year as int,
            month: self.month as int,
            day: self.day as int,
            hour: self.hour as int,
            minute: self.minute as int,
            section: self.dt_section as int,
            typing: match self.dt_typing {
                Some(t) => Some(t@),
                None => None,
            },
        }
    }

    /// The name field is well formed, the section is one of the five and the
    /// typed digits are at most four ASCII digits.
    pub open spec fn wf(&self) -> bool {
        &&& self.name_input.wf()
        &&& self.dt_section < DATETIME_SECTION_COUNT
        &&& match self.dt_typing {
            Some(t) => all_digits(t@) && t@.len() <= 4,
            None => true,
        }
    }

    pub fn new() -> (m: MeetingModal)
        ensures
            m.wf(),
            !m.active,
            m.field_focus == FieldFocus::Name,
            m.name_input.buffer@ == Seq::<char>::empty(),
            m.name_input.cursor_pos == 0,
            m.name_input.max_length == crate::input_box::MAX_LENGTH,
            m.year == 0,
            m.month == 1,
            m.day == 1,
            m.hour == 0,
            m.minute == 0,
            m.dt_section == 0,
            m.dt_typing.is_none(),
    {
        MeetingModal {
            active: false,
            field_focus: FieldFocus::Name,
            name_input: InputBox::new(),
            year: 0,
            month: 1,
            day: 1,
            hour: 0,
            minute: 0,
            dt_section: 0,
            dt_typing: None,
        }
    }

    pub fn is_active(&self) -> (r: bool)
        ensures
            r == self.active,
    {
        self.active
    }

    /// Opens the form on an empty name, at the year section, prefilled with the
    /// local date and time `now`.
    pub fn open_at(&mut self, now: LocalFields)
        requires
            1 <= now.month <= 12,
            1 <= now.day <= 31,
            now.hour <= 23,
            now.minute <= 59,
        ensures
            final(self).wf(),
            final(self).active,
            final(self).field_focus == FieldFocus::Name,
            final(self).name_input.buffer@ == Seq::<char>::empty(),
            final(self).name_input.cursor_pos == 0,
            final(self).name_input.max_length == old(self).name_input.max_length,
            final(self).dt_section == 0,
            final(self).dt_typing.is_none(),
            final(self).year == now.year,
            final(self).month == now.month,
            final(self).day == now.day,
            final(self).hour == now.hour,
            final(self).minute == now.minute,
    {
        self.active = true;
        self.field_focus = FieldFocus::Name;
        self.name_input.clear();
        self.dt_section = 0;
        self.dt_typing = None;
        self.year = now.year;
        self.month = now.month;
        self.day = now.day;
        self.hour = now.hour;
        self.minute = now.minute;
    }

    /// Opens the form on an empty name, at the year section, prefilled with the
    /// local date and time of the moment (`open_at` the clock's reading, which
    /// is the machine's).
    pub fn open(&mut self)
        ensures
            final(self).wf(),
            final(self).active,
            final(self).field_focus == FieldFocus::Name,
            final(self).name_input.buffer@ == Seq::<char>::empty(),
            final(self).name_input.cursor_pos == 0,
            final(self).name_input.max_length == old(self).name_input.max_length,
            final(self).dt_section == 0,
            final(self).dt_typing.is_none(),
            1 <= final(self).month <= 12,
            1 <= final(self).day <= 31,
            final(self).hour <= 23,
            final(self).minute <= 59,
    {
        self.open_at(local_now_fields());
    }

    pub fn close(&mut self)
        ensures
            final(self).state() == old(self).state().closed(),
            old(self).wf() ==> final(self).wf(),
    {
        self.active = false;
    }

    fn days_in_month(&self) -> (d: u32)
        ensures
            d == spec_days_in_month(self.year as int, self.month as int),
            28 <= d <= 31,
    {
        days_in_month(self.year, self.month)
    }

    fn clamp_day(&mut self)
        ensures
            final(self).state() == (ModalState {
                day: min(old(self).day as int, spec_days_in_month(old(self).year as int, old(self).month as int)),
                ..old(self).state()
            }),
    {
        let max_day = self.days_in_month();
        if self.day > max_day {
            self.day = max_day;
        }
    }

    fn dt_section_max_width(&self) -> (w: usize)
        ensures
            w as int == section_width(self.dt_section as int),
    {
        if self.dt_section == 0 {
            4
        } else {
            2
        }
    }

    fn increment_datetime_section(&mut self)
        requires
            old(self).state().increment_fits(),
        ensures
            final(self).state() == old(self).state().incremented(),
    {
        if self.dt_section == 0 {
            self.year = self.year + 1;
        } else if self.dt_section == 1 {
            self.month = self.month + 1;
            if self.month > 12 {
                self.month = 1;
            }
            self.clamp_day();
        } else if self.dt_section == 2 {
            let max_day = self.days_in_month();
            self.day = self.day + 1;
            if self.day > max_day {
                self.day = 1;
            }
        } else if self.dt_section == 3 {
            self.hour = self.hour + 1;
            if self.hour > 23 {
                self.hour = 0;
            }
        } else if self.dt_section == 4 {
            self.minute = self.minute + 1;
            if self.minute > 59 {
                self.minute = 0;
            }
        }
    }

    fn decrement_datetime_section(&mut self)
        ensures
            final(self).state() == old(self).state().decremented(),
    {
        if self.dt_section == 0 {
            if self.year > 1900 {
                self.year = self.year - 1;
            }
        } else if self.dt_section == 1 {
            if self.month > 1 {
                self.month = self.month - 1;
                self.clamp_day();
            } else {
                self.month = 12;
                self.clamp_day();
            }
        } else if self.dt_section == 2 {
            if self.day > 1 {
                self.day = self.day - 1;
            } else {
                self.day = self.days_in_month();
            }
        } else if self.dt_section == 3 {
            if self.hour > 0 {
                self.hour = self.hour - 1;
            } else {
                self.hour = 23;
            }
        } else if self.dt_section == 4 {
            if self.minute > 0 {
                self.minute = self.minute - 1;
            } else {
                self.minute = 59;
            }
        }
    }

    /// Applies the typed digits, if any, to the current section.
    fn commit_dt_typing(&mut self)
        requires
            old(self).wf(),
        ensures
            final(self).wf(),
            final(self).state() == old(self).state().committed(),
    {
        let ghost before = self.state();
        let typed = self.dt_typing.take();
        match typed {
            None => {
                assert(before.typing.is_none());
                assert(self.state() =~= before);
            },
            Some(t) => {
                let digits = chars_of(t.as_str());
                if digits.len() == 0 {
                    return ;
                }
                let mut value: u32 = 0;
                let mut i: usize = 0;
                while i < digits.len()
                    invariant
                        digits@ == t@,
                        all_digits(t@),
                        t@.len() <= 4,
                        i <= digits.len(),
                        value as int == digits_value(digits@.subrange(0, i as int)),
                        value < pow10(i as nat),
                    decreases digits.len() - i,
                {
                    proof {
                        reveal_with_fuel(pow10, 5);
                    }
                    let c = digits[i];
                    assert(spec_is_ascii_digit(t@[i as int]));
                    let d = (c as u32) - ('0' as u32);
                    assert(digits@.subrange(0, i + 1).drop_last() =~= digits@.subrange(0, i as int));
                    value = value * 10 + d;
                    i = i + 1;
                }
                assert(digits@.subrange(0, digits.len() as int) =~= digits@);
                if self.dt_section == 0 {
                    assert(value < 10000) by {
                        reveal_with_fuel(pow10, 5);
                    }
                    self.year = value as i32;
                } else if self.dt_section == 1 {
                    self.month = if value < 1 {
                        1
                    } else if value > 12 {
                        12
                    } else {
                        value
                    };
                    self.clamp_day();
                } else if self.dt_section == 2 {
                    let max = self.days_in_month();
                    self.day = if value < 1 {
                        1
                    } else if value > max {
                        max
                    } else {
                        value
                    };
                } else if self.dt_section == 3 {
                    self.hour = if value > 23 {
                        23
                    } else {
                        value
                    };
                } else if self.dt_section == 4 {
                    self.minute = if value > 59 {
                        59
                    } else {
                        value
                    };
                }
            },
        }
    }

    /// The trimmed name, or `None` when it is blank.
    fn trimmed_name(&self) -> (r: Option<String>)
        ensures
            match r {
                Some(n) => spec_trim(self.name_input.buffer@).len() > 0 && n@ == spec_trim(
                    self.name_input.buffer@,
                ),
                None => spec_trim(self.name_input.buffer@).len() == 0,
            },
    {
        let t = trim_chars(&self.name_input.buffer);
        if t.len() == 0 {
            None
        } else {
            Some(string_of(&t))
        }
    }

    /// Handles a key press. Enter closes the form and hands back the trimmed name
    /// with the instant of the date-time fields, unless the name is blank.
    pub fn handle_key(&mut self, key: KeyEvent) -> (r: Option<(String, UtcTime)>)
        requires
            old(self).wf(),
            old(self).field_focus == FieldFocus::Datetime && key.code == KeyCode::Char('j')
                ==> old(self).state().increment_fits(),
        ensures
            final(self).wf(),
            final(self).state() == old(self).state().after_key(key),
            match r {
                Some((n, _)) => old(self).state().submitted(key) == Some(n@),
                None => old(self).state().submitted(key).is_none(),
            },
            r matches Some((_, t)) ==> final(self).state().instant_fits(t),
    {
        match self.field_focus {
            FieldFocus::Name => self.handle_name_key(key),
            FieldFocus::Datetime => self.handle_datetime_key(key),
        }
    }

    fn submit(&mut self) -> (r: Option<(String, UtcTime)>)
        requires
            old(self).wf(),
        ensures
            final(self).wf(),
            final(self).state() == old(self).state().closed(),
            match r {
                Some((n, _)) => spec_trim(old(self).name_input.buffer@).len() > 0 && n@ == spec_trim(
                    old(self).name_input.buffer@,
                ),
                None => spec_trim(old(self).name_input.buffer@).len() == 0,
            },
            r matches Some((_, t)) ==> old(self).state().instant_fits(t),
    {
        match self.trimmed_name() {
            None => {
                self.close();
                None
            },
            Some(name) => {
                let dt = build_datetime(self.year, self.month, self.day, self.hour, self.minute);
                self.close();
                Some((name, dt))
            },
        }
    }

    fn handle_name_key(&mut self, key: KeyEvent) -> (r: Option<(String, UtcTime)>)
        requires
            old(self).wf(),
            old(self).field_focus == FieldFocus::Name,
        ensures
            final(self).wf(),
            final(self).state() == old(self).state().after_name_key(key),
            match r {
                Some((n, _)) => old(self).state().submitted(key) == Some(n@),
                None => old(self).state().submitted(key).is_none(),
            },
            r matches Some((_, t)) ==> final(self).state().instant_fits(t),
    {
        match key.code {
            KeyCode::Tab => {
                self.field_focus = FieldFocus::Datetime;
                self.dt_section = 0;
                None
            },
            KeyCode::BackTab => {
                self.field_focus = FieldFocus::Datetime;
                self.dt_section = DATETIME_SECTION_COUNT - 1;
                None
            },
            KeyCode::Char('q') => {
                self.close();
                None
            },
            KeyCode::Enter => self.submit(),
            KeyCode::Esc => {
                self.close();
                None
            },
            _ => {
                self.name_input.handle_key(key);
                None
            },
        }
    }

    fn handle_datetime_key(&mut self, key: KeyEvent) -> (r: Option<(String, UtcTime)>)
        requires
            old(self).wf(),
            old(self).field_focus == FieldFocus::Datetime,
            key.code == KeyCode::Char('j') ==> old(self).state().increment_fits(),
        ensures
            final(self).wf(),
            final(self).state() == old(self).state().after_datetime_key(key),
            match r {
                Some((n, _)) => old(self).state().submitted(key) == Some(n@),
                None => old(self).state().submitted(key).is_none(),
            },
            r matches Some((_, t)) ==> final(self).state().instant_fits(t),
    {
        match key.code {
            KeyCode::Tab => {
                self.commit_dt_typing();
                self.field_focus = FieldFocus::Datetime;
                self.dt_section = (self.dt_section + 1) % DATETIME_SECTION_COUNT;
                None
            },
            KeyCode::BackTab => {
                self.commit_dt_typing();
                self.field_focus = FieldFocus::Name;
                None
            },
            KeyCode::Char('q') => {
                self.close();
                None
            },
            KeyCode::Char('h') => {
                self.commit_dt_typing();
                if self.dt_section > 0 {
                    self.dt_section = self.dt_section - 1;
                } else {
                    self.field_focus = FieldFocus::Name;
                }
                None
            },
            KeyCode::Char('l') => {
                self.commit_dt_typing();
                if self.dt_section < DATETIME_SECTION_COUNT - 1 {
                    self.dt_section = self.dt_section + 1;
                } else {
                    self.field_focus = FieldFocus::Name;
                }
                None
            },
            KeyCode::Char('j') => {
                self.dt_typing = None;
                self.increment_datetime_section();
                None
            },
            KeyCode::Char('k') => {
                self.dt_typing = None;
                self.decrement_datetime_section();
                None
            },
            KeyCode::Char(c) => {
                if is_ascii_digit(c) {
                    let max_width = self.dt_section_max_width();
                    let mut typing = match self.dt_typing.take() {
                        Some(t) => t,
                        None => String::new(),
                    };
                    if typing.as_str().unicode_len() >= max_width {
                        typing = String::new();
                    }
                    push_char(&mut typing, c);
                    let len = typing.as_str().unicode_len();
                    self.dt_typing = Some(typing);
                    if len >= max_width {
                        self.commit_dt_typing();
                    }
                } else {
                    self.dt_typing = None;
                }
                None
            },
            KeyCode::Enter => {
                self.commit_dt_typing();
                self.submit()
            },
            KeyCode::Esc => {
                self.close();
                None
            },
            _ => {
                self.dt_typing = None;
                None
            },
        }
    }

    /// The text of section `i` as the form shows it: the digits being typed when
    /// it is the section under edit, else the field zero padded.
    pub open spec fn spec_section_text(&self, i: int) -> Seq<char> {
        if i == self.dt_section as int && self.dt_typing.is_some() {
            self.dt_typing.unwrap()@
        } else if i == 0 {
            spec_padded(self.year as int, 4)
        } else if i == 1 {
            spec_padded(self.month as int, 2)
        } else if i == 2 {
            spec_padded(self.day as int, 2)
        } else if i == 3 {
            spec_padded(self.hour as int, 2)
        } else {
            spec_padded(self.minute as int, 2)
        }
    }

    /// The pieces of the form's date-time line and whether each is highlighted:
    /// a label, then each section (the one under edit highlighted) followed by
    /// its separator.
    pub open spec fn spec_datetime_spans(&self) -> Seq<(Seq<char>, bool)> {
        seq![
            ("When: "@, false),
            (self.spec_section_text(0), self.dt_section == 0),
            ("-"@, false),
            (self.spec_section_text(1), self.dt_section == 1),
            ("-"@, false),
            (self.spec_section_text(2), self.dt_section == 2),
            (" "@, false),
            (self.spec_section_text(3), self.dt_section == 3),
            (":"@, false),
            (self.spec_section_text(4), self.dt_section == 4),
        ]
    }

    fn section_text(&self, i: usize) -> (t: String)
        requires
            i < DATETIME_SECTION_COUNT,
        ensures
            t@ == self.spec_section_text(i as int),
    {
        if i == self.dt_section {
            if let Some(typing) = &self.dt_typing {
                return typing.clone();
            }
        }
        let mut t = String::new();
        if i == 0 {
            push_padded(&mut t, self.year as i64, 4);
        } else if i == 1 {
            push_padded(&mut t, self.month as i64, 2);
        } else if i == 2 {
            push_padded(&mut t, self.day as i64, 2);
        } else if i == 3 {
            push_padded(&mut t, self.hour as i64, 2);
        } else {
            push_padded(&mut t, self.minute as i64, 2);
        }
        assert(t@ =~= self.spec_section_text(i as int));
        t
    }

    /// The date-time line of the form, piece by piece, for drawing.
    pub fn datetime_spans(&self) -> (spans: Vec<(String, bool)>)
        ensures
            spans@.len() == 10,
            forall|k: int|
                0 <= k < 10 ==> (#[trigger] spans@[k]).0@ == self.spec_datetime_spans()[k].0
                    && spans@[k].1 == self.spec_datetime_spans()[k].1,
    {
        let mut spans: Vec<(String, bool)> = Vec::new();
        spans.push((String::from_str("When: "), false));
        spans.push((self.section_text(0), self.dt_section == 0));
        spans.push((String::from_str("-"), false));
        spans.push((self.section_text(1), self.dt_section == 1));
        spans.push((String::from_str("-"), false));
        spans.push((self.section_text(2), self.dt_section == 2));
        spans.push((String::from_str(" "), false));
        spans.push((self.section_text(3), self.dt_section == 3));
        spans.push((String::from_str(":"), false));
        spans.push((self.section_text(4), self.dt_section == 4));
        spans
    }

    /// Sets the date-time fields as given.
    pub fn set_datetime_for_test(&mut self, year: i32, month: u32, day: u32, hour: u32, minute: u32)
        ensures
            final(self).state() == (ModalState {
                year: year as int,
                month: month as int,
                day: day as int,
                hour: hour as int,
                minute: minute as int,
                ..old(self).state()
            }),
            old(self).wf() ==> final(self).wf(),
    {
        self.year = year;
        self.month = month;
        self.day = day;
        self.hour = hour;
        self.minute = minute;
    }
}

/// The date-time fields are in range: a month, a day of at most 31, an hour
/// and a minute; the section is one of the five and the typed digits are digits.
pub open spec fn spec_fields_in_range(s: ModalState) -> bool {
    &&& 1 <= s.month <= 12
    &&& 1 <= s.day <= 31
    &&& 0 <= s.hour <= 23
    &&& 0 <= s.minute <= 59
    &&& 0 <= s.section < 5
    &&& s.typing matches Some(t) ==> all_digits(t)
}

proof fn lemma_digits_value_nonneg(t: Seq<char>)
    requires
        all_digits(t),
    ensures
        digits_value(t) >= 0,
    decreases t.len(),
{
    if t.len() > 0 {
        assert(all_digits(t.drop_last())) by {
            assert forall|i: int| 0 <= i < t.len() - 1 implies spec_is_ascii_digit(#[trigger] t.drop_last()[i]) by {
                assert(t.drop_last()[i] == t[i]);
            }
        }
        assert(spec_is_ascii_digit(t[t.len() - 1]));
        lemma_digits_value_nonneg(t.drop_last());
    }
}

proof fn lemma_days_in_month_range(year: int, month: int)
    ensures
        28 <= spec_days_in_month(year, month) <= 31,
{
}

proof fn lemma_committed_in_range(s: ModalState)
    requires
        spec_fields_in_range(s),
    ensures
        spec_fields_in_range(s.committed()),
        s.committed().section == s.section,
{
    lemma_days_in_month_range(s.year, s.month);
    if let Some(t) = s.typing {
        lemma_digits_value_nonneg(t);
        let v = digits_value(t);
        if s.section == 1 {
            lemma_days_in_month_range(s.year, clamp(v, 1, 12));
        }
    }
}

/// Whatever key is pressed, the month stays a month, the day stays between 1
/// and 31, and the hour and minute stay an hour and a minute. (The day is not
/// held to the month's length when only the year changes.)
pub proof fn law_datetime_fields_stay_in_range(s: ModalState, key: KeyEvent)
    requires
        spec_fields_in_range(s),
    ensures
        spec_fields_in_range(s.after_key(key)),
{
    lemma_days_in_month_range(s.year, s.month);
    lemma_committed_in_range(s);
    let c = s.committed();
    lemma_days_in_month_range(c.year, c.month);
    let plain = ModalState { typing: None, ..s };
    lemma_days_in_month_range(plain.year, if plain.month + 1 > 12 { 1 } else { plain.month + 1 });
    lemma_days_in_month_range(plain.year, 12);
    if let KeyCode::Char(ch) = key.code {
        if spec_is_ascii_digit(ch) && s.focus == FieldFocus::Datetime {
            let w = section_width(s.section);
            let t0 = match s.typing {
                Some(t) => t,
                None => Seq::<char>::empty(),
            };
            let t1 = if t0.len() >= w { Seq::<char>::empty() } else { t0 };
            let t2 = t1.push(ch);
            assert(all_digits(t2)) by {
                assert forall|i: int| 0 <= i < t2.len() implies spec_is_ascii_digit(#[trigger] t2[i]) by {
                    if i < t1.len() {
                        assert(t2[i] == t1[i]);
                    }
                }
            }
            let s2 = ModalState { typing: Some(t2), ..s };
            lemma_committed_in_range(s2);
        }
    }
}

/// With the date-time field focused and nothing being typed, `k` undoes `j` in
/// every section, the wrap-arounds included (23 -> 0 -> 23, 59 -> 0 -> 59,
/// 12 -> 1 -> 12, the last day -> 1 -> the last day), for a real date from 1900
/// on whose day also fits the next month when the month is stepped.
pub proof fn law_step_down_undoes_step_up(s: ModalState, up: KeyEvent, down: KeyEvent)
    requires
        up.code == KeyCode::Char('j'),
        down.code == KeyCode::Char('k'),
        s.focus == FieldFocus::Datetime,
        s.typing.is_none(),
        spec_fields_in_range(s),
        s.year >= 1900,
        s.day <= spec_days_in_month(s.year, s.month),
        s.section == 1 ==> s.day <= spec_days_in_month(s.year, s.month % 12 + 1),
    ensures
        s.after_key(up).after_key(down) == s,
{
    lemma_days_in_month_range(s.year, s.month);
    lemma_days_in_month_range(s.year, 12);
    lemma_days_in_month_range(s.year, 1);
    assert(ModalState { typing: None, ..s } == s);
    let u = s.incremented();
    assert(s.after_key(up) == u);
    assert(u.focus == FieldFocus::Datetime && u.typing.is_none());
    assert(u.after_key(down) == u.decremented());
}

/// The form's date is a real calendar date: a month, and a day of that month.
pub open spec fn spec_real_date(s: ModalState) -> bool {
    &&& 1 <= s.month <= 12
    &&& 1 <= s.day <= spec_days_in_month(s.year, s.month)
}

proof fn lemma_committed_keeps_real_date(s: ModalState)
    requires
        spec_fields_in_range(s),
        spec_real_date(s),
        s.committed().year == s.year,
    ensures
        spec_real_date(s.committed()),
{
    lemma_days_in_month_range(s.year, s.month);
    if let Some(t) = s.typing {
        lemma_digits_value_nonneg(t);
        let v = digits_value(t);
        if s.section == 1 {
            lemma_days_in_month_range(s.year, clamp(v, 1, 12));
        }
    }
}

/// A key press that leaves the year alone keeps a real date real: every change
/// of the month, by steps or by typing, keeps the day within the new month, and
/// the day itself wraps or is held within its month. (A change of the year
/// keeps the day as it is, so 29 February can stand in a year without it.)
pub proof fn law_date_stays_real(s: ModalState, key: KeyEvent)
    requires
        spec_fields_in_range(s),
        spec_real_date(s),
        s.after_key(key).year == s.year,
    ensures
        spec_real_date(s.after_key(key)),
{
    law_datetime_fields_stay_in_range(s, key);
    lemma_days_in_month_range(s.year, s.month);
    lemma_days_in_month_range(s.year, 12);
    lemma_days_in_month_range(s.year, if s.month + 1 > 12 { 1 } else { s.month + 1 });
    lemma_days_in_month_range(s.year, s.month - 1);
    let plain = ModalState { typing: None, ..s };
    assert(spec_fields_in_range(plain));
    if s.focus == FieldFocus::Datetime {
        match key.code {
            KeyCode::Char(ch) => {
                if ch != 'q' && ch != 'h' && ch != 'l' && ch != 'j' && ch != 'k' && spec_is_ascii_digit(ch) {
                    let w = section_width(s.section);
                    let t0 = match s.typing {
                        Some(t) => t,
                        None => Seq::<char>::empty(),
                    };
                    let t1 = if t0.len() >= w { Seq::<char>::empty() } else { t0 };
                    let t2 = t1.push(ch);
                    assert(all_digits(t2)) by {
                        assert forall|i: int| 0 <= i < t2.len() implies spec_is_ascii_digit(#[trigger] t2[i]) by {
                            if i < t1.len() {
                                assert(t2[i] == t1[i]);
                            }
                        }
                    }
                    let s2 = ModalState { typing: Some(t2), ..s };
                    if t2.len() >= w {
                        lemma_committed_keeps_real_date(s2);
                    }
                } else if ch == 'h' || ch == 'l' {
                    lemma_committed_keeps_real_date(s);
                }
            },
            KeyCode::Tab | KeyCode::BackTab | KeyCode::Enter => {
                lemma_committed_keeps_real_date(s);
            },
            _ => {},
        }
    }
}

/// With the date-time field focused and nothing being typed, `j` steps the
/// chosen section up and `k` steps it down, leaving the rest of the form as it
/// is: the year goes up by one, and down by one but not below 1900; the month
/// goes round 1..12 and the day is kept within the new month; the day goes
/// round the days of its month; the hour round 0..23 and the minute round
/// 0..59.
pub proof fn law_j_and_k_step_the_section(s: ModalState, up: KeyEvent, down: KeyEvent)
    requires
        up.code == KeyCode::Char('j'),
        down.code == KeyCode::Char('k'),
        s.focus == FieldFocus::Datetime,
        s.typing.is_none(),
    ensures
        s.section == 0 ==> s.after_key(up) == (ModalState { year: s.year + 1, ..s }),
        s.section == 0 ==> s.after_key(down) == (ModalState { year: if s.year > 1900 { s.year - 1 } else { s.year }, ..s }),
        s.section == 1 ==> s.after_key(up) == (ModalState {
            month: if s.month >= 12 { 1 } else { s.month + 1 },
            day: if s.day <= spec_days_in_month(s.year, if s.month >= 12 { 1 } else { s.month + 1 }) {
                s.day
            } else {
                spec_days_in_month(s.year, if s.month >= 12 { 1 } else { s.month + 1 })
            },
            ..s
        }),
        s.section == 1 ==> s.after_key(down) == (ModalState {
            month: if s.month > 1 { s.month - 1 } else { 12 },
            day: if s.day <= spec_days_in_month(s.year, if s.month > 1 { s.month - 1 } else { 12 }) {
                s.day
            } else {
                spec_days_in_month(s.year, if s.month > 1 { s.month - 1 } else { 12 })
            },
            ..s
        }),
        s.section == 2 ==> s.after_key(up) == (ModalState {
            day: if s.day < spec_days_in_month(s.year, s.month) { s.day + 1 } else { 1 },
            ..s
        }),
        s.section == 2 ==> s.after_key(down) == (ModalState {
            day: if s.day > 1 { s.day - 1 } else { spec_days_in_month(s.year, s.month) },
            ..s
        }),
        s.section == 3 ==> s.after_key(up) == (ModalState { hour: if s.hour < 23 { s.hour + 1 } else { 0 }, ..s }),
        s.section == 3 ==> s.after_key(down) == (ModalState { hour: if s.hour > 0 { s.hour - 1 } else { 23 }, ..s }),
        s.section == 4 ==> s.after_key(up) == (ModalState { minute: if s.minute < 59 { s.minute + 1 } else { 0 }, ..s }),
        s.section == 4 ==> s.after_key(down) == (ModalState {
            minute: if s.minute > 0 { s.minute - 1 } else { 59 },
            ..s
        }),
{
    assert(ModalState { typing: None, ..s } == s);
}

/// Two digits typed into the month, day, hour or minute section (nothing being
/// typed before) set it to the number they write, held within its range: the
/// month within 1..12 (the day then kept within the new month), the day within
/// its month, the hour at most 23 and the minute at most 59; the rest of the
/// form stays.
pub proof fn law_two_digits_set_the_section(s: ModalState, k1: KeyEvent, k2: KeyEvent, c1: char, c2: char)
    requires
        s.focus == FieldFocus::Datetime,
        s.typing.is_none(),
        1 <= s.section <= 4,
        k1.code == KeyCode::Char(c1),
        k2.code == KeyCode::Char(c2),
        '0' <= c1 <= '9',
        '0' <= c2 <= '9',
    ensures
        ({
            let v = (c1 as int - '0' as int) * 10 + (c2 as int - '0' as int);
            let after = s.after_key(k1).after_key(k2);
            &&& after.typing.is_none()
            &&& after.year == s.year && after.focus == s.focus && after.section == s.section
            &&& after.name == s.name && after.active == s.active
            &&& s.section == 1 ==> {
                let m = if v < 1 { 1 } else if v > 12 { 12 } else { v };
                &&& after.month == m
                &&& after.day == if s.day <= spec_days_in_month(s.year, m) {
                    s.day
                } else {
                    spec_days_in_month(s.year, m)
                }
                &&& after.hour == s.hour && after.minute == s.minute
            }
            &&& s.section == 2 ==> {
                &&& after.day == if v < 1 {
                    1
                } else if v > spec_days_in_month(s.year, s.month) {
                    spec_days_in_month(s.year, s.month)
                } else {
                    v
                }
                &&& after.month == s.month && after.hour == s.hour && after.minute == s.minute
            }
            &&& s.section == 3 ==> after.hour == (if v > 23 { 23 } else { v }) && after.month == s.month
                && after.day == s.day && after.minute == s.minute
            &&& s.section == 4 ==> after.minute == (if v > 59 { 59 } else { v }) && after.month == s.month
                && after.day == s.day && after.hour == s.hour
        }),
{
    let t1 = seq![c1];
    let s1 = s.after_key(k1);
    assert(spec_is_ascii_digit(c1) && spec_is_ascii_digit(c2));
    assert(section_width(s.section) == 2);
    assert(Seq::<char>::empty().push(c1) =~= t1);
    assert(s1 == ModalState { typing: Some(t1), ..s });
    let t2 = t1.push(c2);
    assert(t2.drop_last() =~= t1);
    assert(t1.drop_last() =~= Seq::<char>::empty());
    assert(t1.len() == 1 && t1.last() == c1);
    assert(digits_value(Seq::<char>::empty()) == 0);
    assert(digits_value(t1) == digits_value(t1.drop_last()) * 10 + (t1.last() as int - '0' as int));
    assert(digits_value(t1) == c1 as int - '0' as int);
    assert(t2.last() == c2);
    assert(digits_value(t2) == (c1 as int - '0' as int) * 10 + (c2 as int - '0' as int));
}

} // verus!
