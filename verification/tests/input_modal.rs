use reflections::input_modal::InputModal;
use reflections::keys::{KeyCode, KeyEvent};

fn key_char(c: char) -> KeyEvent {
    KeyEvent::new(KeyCode::Char(c))
}

fn key_enter() -> KeyEvent {
    KeyEvent::new(KeyCode::Enter)
}

fn key_esc() -> KeyEvent {
    KeyEvent::new(KeyCode::Esc)
}

fn key_backspace() -> KeyEvent {
    KeyEvent::new(KeyCode::Backspace)
}

fn key_left() -> KeyEvent {
    KeyEvent::new(KeyCode::Left)
}

fn key_right() -> KeyEvent {
    KeyEvent::new(KeyCode::Right)
}

fn type_text(modal: &mut InputModal, text: &str) {
    for c in text.chars() {
        modal.handle_key(key_char(c));
    }
}

#[test]
fn enter_returns_buffer() {
    let mut modal = InputModal::new();
    modal.open();
    type_text(&mut modal, "hello");
    let result = modal.handle_key(key_enter());
    assert_eq!(result, Some("hello".to_string()));
}

#[test]
fn esc_closes_modal_and_returns_none() {
    let mut modal = InputModal::new();
    modal.open();
    assert!(modal.is_active());
    let result = modal.handle_key(key_esc());
    assert_eq!(result, None);
    assert!(!modal.is_active());
}

#[test]
fn input_modal_backspace_removes_char_before_cursor() {
    let mut modal = InputModal::new();
    modal.open();
    type_text(&mut modal, "hello");
    modal.handle_key(key_backspace());
    assert_eq!(modal.input.value(), "hell");
}

#[test]
fn input_modal_backspace_at_cursor_zero_does_nothing() {
    let mut modal = InputModal::new();
    modal.open();
    modal.handle_key(key_backspace());
    assert_eq!(modal.input.value(), "");
    assert_eq!(modal.input.cursor_pos(), 0);
}

#[test]
fn input_modal_char_inserts_at_cursor() {
    let mut modal = InputModal::new();
    modal.open();
    type_text(&mut modal, "abc");
    assert_eq!(modal.input.value(), "abc");
    assert_eq!(modal.input.cursor_pos(), 3);
}

#[test]
fn input_modal_char_inserts_at_cursor_position() {
    let mut modal = InputModal::new();
    modal.open();
    modal.handle_key(key_char('a'));
    modal.handle_key(key_char('c'));
    modal.handle_key(key_left());
    modal.handle_key(key_char('b'));
    assert_eq!(modal.input.value(), "abc");
}

#[test]
fn input_modal_left_arrow_decrements_cursor() {
    let mut modal = InputModal::new();
    modal.open();
    type_text(&mut modal, "abc");
    modal.handle_key(key_left());
    assert_eq!(modal.input.cursor_pos(), 2);
}

#[test]
fn input_modal_left_arrow_at_zero_does_nothing() {
    let mut modal = InputModal::new();
    modal.open();
    modal.handle_key(key_left());
    assert_eq!(modal.input.cursor_pos(), 0);
}

#[test]
fn input_modal_right_arrow_increments_cursor() {
    let mut modal = InputModal::new();
    modal.open();
    type_text(&mut modal, "abc");
    modal.handle_key(key_left());
    modal.handle_key(key_left());
    modal.handle_key(key_right());
    assert_eq!(modal.input.cursor_pos(), 2);
}

#[test]
fn input_modal_right_arrow_at_end_does_nothing() {
    let mut modal = InputModal::new();
    modal.open();
    type_text(&mut modal, "abc");
    modal.handle_key(key_right());
    assert_eq!(modal.input.cursor_pos(), 3);
}

#[test]
fn empty_buffer_enter_returns_empty_string() {
    let mut modal = InputModal::new();
    modal.open();
    let result = modal.handle_key(key_enter());
    assert_eq!(result, Some("".to_string()));
}

#[test]
fn enter_keeps_the_modal_open_and_reopening_clears_it() {
    let mut modal = InputModal::new();
    modal.open();
    type_text(&mut modal, "xy");
    assert_eq!(modal.handle_key(key_enter()), Some("xy".to_string()));
    assert!(modal.is_active());
    modal.close();
    assert!(!modal.is_active());
    modal.open();
    assert_eq!(modal.input.value(), "");
}
