use chrono::{Datelike, Local, Timelike};
use reflections::keys::{KeyCode, KeyEvent, SHIFT};
use reflections::meeting_modal::{FieldFocus, MeetingModal};

fn key_char(c: char) -> KeyEvent {
    KeyEvent::new(KeyCode::Char(c))
}

fn key_enter() -> KeyEvent {
    KeyEvent::new(KeyCode::Enter)
}

fn key_esc() -> KeyEvent {
    KeyEvent::new(KeyCode::Esc)
}

fn key_backspace() -> KeyEvent {
    KeyEvent::new(KeyCode::Backspace)
}

fn key_tab() -> KeyEvent {
    KeyEvent::new(KeyCode::Tab)
}

fn key_backtab() -> KeyEvent {
    KeyEvent::with_modifiers(KeyCode::BackTab, SHIFT)
}

#[test]
fn enter_returns_name_and_datetime() {
    let mut modal = MeetingModal::new();
    modal.open();

    for c in "Test Meeting".chars() {
        modal.handle_key(key_char(c));
    }

    let result = modal.handle_key(key_enter());
    assert!(result.is_some());
    let (name, _dt) = result.expect("should return Some");
    assert_eq!(name, "Test Meeting");
    assert!(!modal.is_active());
}

#[test]
fn esc_closes_returns_none_from_name() {
    let mut modal = MeetingModal::new();
    modal.open();

    let result = modal.handle_key(key_esc());
    assert!(result.is_none());
    assert!(!modal.is_active());
}

#[test]
fn esc_closes_returns_none_from_datetime() {
    let mut modal = MeetingModal::new();
    modal.open();
    modal.handle_key(key_tab());

    let result = modal.handle_key(key_esc());
    assert!(result.is_none());
    assert!(!modal.is_active());
}

#[test]
fn q_closes_modal_from_name_field() {
    let mut modal = MeetingModal::new();
    modal.open();

    let result = modal.handle_key(key_char('q'));
    assert!(result.is_none());
    assert!(!modal.is_active());
}

#[test]
fn q_closes_modal_from_datetime_field() {
    let mut modal = MeetingModal::new();
    modal.open();
    modal.handle_key(key_tab());

    let result = modal.handle_key(key_char('q'));
    assert!(result.is_none());
    assert!(!modal.is_active());
}

#[test]
fn h_l_navigates_between_fields_via_tab() {
    let mut modal = MeetingModal::new();
    modal.open();

    assert_eq!(modal.field_focus, FieldFocus::Name);

    modal.handle_key(key_tab());
    assert_eq!(modal.field_focus, FieldFocus::Datetime);
    assert_eq!(modal.dt_section, 0);

    modal.handle_key(key_backtab());
    assert_eq!(modal.field_focus, FieldFocus::Name);
}

#[test]
fn h_l_navigates_datetime_sections() {
    let mut modal = MeetingModal::new();
    modal.open();

    modal.handle_key(key_tab());
    assert_eq!(modal.field_focus, FieldFocus::Datetime);
    assert_eq!(modal.dt_section, 0);

    modal.handle_key(key_char('l'));
    assert_eq!(modal.dt_section, 1);

    modal.handle_key(key_char('l'));
    assert_eq!(modal.dt_section, 2);

    modal.handle_key(key_char('h'));
    assert_eq!(modal.dt_section, 1);

    modal.handle_key(key_char('h'));
    assert_eq!(modal.dt_section, 0);

    modal.handle_key(key_char('h'));
    assert_eq!(modal.field_focus, FieldFocus::Name);
}

#[test]
fn j_k_increments_decrements_datetime_section() {
    let mut modal = MeetingModal::new();
    modal.open();

    let initial_year = modal.year;
    let initial_month = modal.month;
    let initial_hour = modal.hour;
    let initial_minute = modal.minute;

    modal.handle_key(key_tab());
    assert_eq!(modal.field_focus, FieldFocus::Datetime);
    assert_eq!(modal.dt_section, 0);

    modal.handle_key(key_char('j'));
    assert_eq!(modal.year, initial_year + 1);

    modal.handle_key(key_char('l'));
    assert_eq!(modal.dt_section, 1);
    modal.handle_key(key_char('j'));
    let expected_month = if initial_month >= 12 { 1 } else { initial_month + 1 };
    assert_eq!(modal.month, expected_month);

    modal.handle_key(key_char('l'));
    modal.handle_key(key_char('l'));
    assert_eq!(modal.dt_section, 3);
    modal.handle_key(key_char('j'));
    let expected_hour = (initial_hour + 1) % 24;
    assert_eq!(modal.hour, expected_hour);

    modal.handle_key(key_char('l'));
    assert_eq!(modal.dt_section, 4);
    modal.handle_key(key_char('j'));
    let expected_minute = (initial_minute + 1) % 60;
    assert_eq!(modal.minute, expected_minute);

    modal.handle_key(key_char('k'));
    assert_eq!(modal.minute, initial_minute);
}

#[test]
fn name_field_accepts_text_input() {
    let mut modal = MeetingModal::new();
    modal.open();

    for c in "Hello".chars() {
        modal.handle_key(key_char(c));
    }

    assert_eq!(modal.name_input.value(), "Hello");
    assert_eq!(modal.name_input.cursor_pos(), 5);

    modal.handle_key(key_backspace());
    assert_eq!(modal.name_input.value(), "Hell");
}

#[test]
fn open_prefills_current_datetime() {
    let mut modal = MeetingModal::new();
    let now = Local::now();

    modal.open();

    assert_eq!(modal.year, now.year());
    assert_eq!(modal.month, now.month());
    assert_eq!(modal.day, now.day());
    assert_eq!(modal.hour, now.hour());
    assert_eq!(modal.minute, now.minute());
}

#[test]
fn empty_name_on_enter_returns_none() {
    let mut modal = MeetingModal::new();
    modal.open();

    let result = modal.handle_key(key_enter());
    assert!(result.is_none());
    assert!(!modal.is_active());
}

#[test]
fn day_clamps_on_month_change() {
    let mut modal = MeetingModal::new();
    modal.open();

    modal.year = 2024;
    modal.month = 1;
    modal.day = 31;

    modal.handle_key(key_tab());
    modal.handle_key(key_char('l'));
    modal.handle_key(key_char('j'));

    assert_eq!(modal.month, 2);
    assert_eq!(modal.day, 29);
}

#[test]
fn typing_digits_replaces_section_on_full_width() {
    let mut modal = MeetingModal::new();
    modal.open();
    modal.handle_key(key_tab());
    assert_eq!(modal.dt_section, 0);
    assert_eq!(modal.field_focus, FieldFocus::Datetime);

    for c in "2025".chars() {
        modal.handle_key(key_char(c));
    }

    assert_eq!(modal.year, 2025);
    assert_eq!(modal.dt_typing, None);
}

#[test]
fn typing_partial_digit_commits_on_section_change() {
    let mut modal = MeetingModal::new();
    modal.open();
    modal.handle_key(key_tab());

    modal.handle_key(key_char('2'));
    assert_eq!(modal.dt_typing.as_deref(), Some("2"));

    modal.handle_key(key_char('l'));
    assert_eq!(modal.year, 2);
    assert_eq!(modal.dt_section, 1);
    assert_eq!(modal.dt_typing, None);
}

#[test]
fn typing_digits_into_month_clamps_to_12() {
    let mut modal = MeetingModal::new();
    modal.open();
    modal.handle_key(key_tab());
    modal.handle_key(key_char('l'));

    assert_eq!(modal.dt_section, 1);
    modal.handle_key(key_char('9'));
    modal.handle_key(key_char('9'));

    assert_eq!(modal.month, 12);
    assert_eq!(modal.dt_typing, None);
}

#[test]
fn typing_digits_into_hour_clamps_to_23() {
    let mut modal = MeetingModal::new();
    modal.open();
    modal.handle_key(key_tab());
    for _ in 0..3 {
        modal.handle_key(key_char('l'));
    }
    assert_eq!(modal.dt_section, 3);

    modal.handle_key(key_char('9'));
    assert_eq!(modal.dt_typing.as_deref(), Some("9"));
    modal.handle_key(key_char('l'));

    assert_eq!(modal.hour, 9);
}

#[test]
fn jk_clears_typing_buffer() {
    let mut modal = MeetingModal::new();
    modal.open();
    modal.handle_key(key_tab());

    modal.handle_key(key_char('2'));
    assert!(modal.dt_typing.is_some());

    modal.handle_key(key_char('j'));
    assert_eq!(modal.dt_typing, None);
}

#[test]
fn typing_then_jk_uses_original_value_for_increment() {
    let mut modal = MeetingModal::new();
    modal.open();
    let initial_year = modal.year;
    modal.handle_key(key_tab());

    modal.handle_key(key_char('2'));
    modal.handle_key(key_char('j'));

    assert_eq!(modal.year, initial_year + 1);
}

#[test]
fn typing_full_width_then_typing_again_starts_fresh() {
    let mut modal = MeetingModal::new();
    modal.open();
    modal.handle_key(key_tab());

    for c in "2025".chars() {
        modal.handle_key(key_char(c));
    }
    assert_eq!(modal.year, 2025);
    assert_eq!(modal.dt_typing, None);

    for c in "1999".chars() {
        modal.handle_key(key_char(c));
    }

    assert_eq!(modal.year, 1999);
}

#[test]
fn name_field_enforces_max_length_of_200() {
    let mut modal = MeetingModal::new();
    modal.open();

    for _ in 0..201 {
        modal.handle_key(key_char('a'));
    }

    assert_eq!(modal.name_input.value().len(), 200);
}

#[test]
fn name_field_rejects_control_characters() {
    let mut modal = MeetingModal::new();
    modal.open();

    modal.handle_key(key_char('a'));
    modal.handle_key(key_char('\x01'));
    modal.handle_key(key_char('\n'));
    modal.handle_key(key_char('\t'));
    modal.handle_key(key_char('b'));

    assert_eq!(modal.name_input.value(), "ab");
}

fn span_texts(modal: &MeetingModal) -> Vec<(String, bool)> {
    modal.datetime_spans()
}

#[test]
fn datetime_spans_pad_fields_and_show_typed_digits() {
    let mut modal = MeetingModal::new();
    modal.open();
    modal.set_datetime_for_test(2026, 3, 7, 9, 5);
    let text: String = span_texts(&modal).into_iter().map(|(t, _)| t).collect();
    assert_eq!(text, "When: 2026-03-07 09:05");
    assert!(span_texts(&modal)[1].1);

    modal.handle_key(key_tab());
    modal.handle_key(key_char('l'));
    modal.handle_key(key_char('1'));
    let spans = span_texts(&modal);
    assert_eq!(spans[3], ("1".to_string(), true));
    assert_eq!(spans[1], ("2026".to_string(), false));
}

#[test]
fn minute_and_hour_wrap_around_when_decremented() {
    let mut modal = MeetingModal::new();
    modal.open();
    modal.set_datetime_for_test(2026, 1, 1, 0, 0);
    modal.handle_key(key_tab());
    for _ in 0..3 {
        modal.handle_key(key_char('l'));
    }
    modal.handle_key(key_char('k'));
    assert_eq!(modal.hour, 23);
    modal.handle_key(key_char('l'));
    modal.handle_key(key_char('k'));
    assert_eq!(modal.minute, 59);
    modal.handle_key(key_char('l'));
    assert_eq!(modal.dt_section, 4);
}

#[test]
fn day_clamps_when_the_month_steps_down() {
    let mut modal = MeetingModal::new();
    modal.open();
    modal.set_datetime_for_test(2024, 3, 31, 10, 30);
    modal.handle_key(key_tab());
    modal.handle_key(key_char('l'));
    assert_eq!(modal.handle_key(key_char('k')), None);
    assert_eq!(modal.year, 2024);
    assert_eq!(modal.month, 2);
    assert_eq!(modal.day, 29);
}

#[test]
fn open_at_prefills_the_given_time() {
    let mut modal = MeetingModal::new();
    modal.open_at(reflections::time::LocalFields { year: 2025, month: 7, day: 4, hour: 9, minute: 45 });
    assert!(modal.is_active());
    assert_eq!((modal.year, modal.month, modal.day, modal.hour, modal.minute), (2025, 7, 4, 9, 45));
    assert_eq!(modal.dt_section, 0);
    assert_eq!(modal.name_input.value(), "");
}
