use reflections::input_box::{InputBox, CURSOR_GLYPH, MAX_LENGTH};
use reflections::keys::{KeyCode, KeyEvent, CONTROL};

fn key_char(c: char) -> KeyEvent {
    KeyEvent::new(KeyCode::Char(c))
}

fn key_backspace() -> KeyEvent {
    KeyEvent::new(KeyCode::Backspace)
}

fn key_left() -> KeyEvent {
    KeyEvent::new(KeyCode::Left)
}

fn key_right() -> KeyEvent {
    KeyEvent::new(KeyCode::Right)
}

#[test]
fn input_box_char_inserts_at_cursor() {
    let mut input = InputBox::new();
    input.handle_key(key_char('a'));
    input.handle_key(key_char('b'));
    input.handle_key(key_char('c'));
    assert_eq!(input.value(), "abc");
    assert_eq!(input.cursor_pos(), 3);
}

#[test]
fn input_box_char_inserts_at_cursor_position() {
    let mut input = InputBox::new();
    input.handle_key(key_char('a'));
    input.handle_key(key_char('c'));
    input.handle_key(key_left());
    input.handle_key(key_char('b'));
    assert_eq!(input.value(), "abc");
}

#[test]
fn input_box_backspace_removes_char_before_cursor() {
    let mut input = InputBox::new();
    for c in "hello".chars() {
        input.handle_key(key_char(c));
    }
    input.handle_key(key_backspace());
    assert_eq!(input.value(), "hell");
}

#[test]
fn input_box_backspace_at_cursor_zero_does_nothing() {
    let mut input = InputBox::new();
    input.handle_key(key_backspace());
    assert_eq!(input.value(), "");
    assert_eq!(input.cursor_pos(), 0);
}

#[test]
fn input_box_left_arrow_decrements_cursor() {
    let mut input = InputBox::new();
    input.handle_key(key_char('a'));
    input.handle_key(key_char('b'));
    input.handle_key(key_char('c'));
    input.handle_key(key_left());
    assert_eq!(input.cursor_pos(), 2);
}

#[test]
fn input_box_left_arrow_at_zero_does_nothing() {
    let mut input = InputBox::new();
    input.handle_key(key_left());
    assert_eq!(input.cursor_pos(), 0);
}

#[test]
fn input_box_right_arrow_increments_cursor() {
    let mut input = InputBox::new();
    input.handle_key(key_char('a'));
    input.handle_key(key_char('b'));
    input.handle_key(key_char('c'));
    input.handle_key(key_left());
    input.handle_key(key_left());
    input.handle_key(key_right());
    assert_eq!(input.cursor_pos(), 2);
}

#[test]
fn input_box_right_arrow_at_end_does_nothing() {
    let mut input = InputBox::new();
    input.handle_key(key_char('a'));
    input.handle_key(key_char('b'));
    input.handle_key(key_char('c'));
    input.handle_key(key_right());
    assert_eq!(input.cursor_pos(), 3);
}

#[test]
fn rejects_control_characters() {
    let mut input = InputBox::new();
    input.handle_key(key_char('a'));
    input.handle_key(key_char('\x01'));
    input.handle_key(key_char('\n'));
    input.handle_key(key_char('\t'));
    input.handle_key(key_char('b'));
    assert_eq!(input.value(), "ab");
}

#[test]
fn enforces_max_length() {
    let mut input = InputBox::new();
    for _ in 0..201 {
        input.handle_key(key_char('a'));
    }
    assert_eq!(input.value().len(), 200);
    assert_eq!(MAX_LENGTH, 200);
}

#[test]
fn with_max_length_enforces_custom_limit() {
    let mut input = InputBox::with_max_length(5);
    for _ in 0..10 {
        input.handle_key(key_char('a'));
    }
    assert_eq!(input.value().len(), 5);
}

#[test]
fn clear_resets_buffer_and_cursor() {
    let mut input = InputBox::new();
    input.handle_key(key_char('a'));
    input.handle_key(key_char('b'));
    input.clear();
    assert_eq!(input.value(), "");
    assert_eq!(input.cursor_pos(), 0);
}

#[test]
fn wrapped_lines_empty_buffer_is_single_cursor_line() {
    let input = InputBox::new();
    assert_eq!(input.wrapped_lines(10), vec!["█".to_string()]);
    assert_eq!(input.line_count(10), 1);
}

#[test]
fn wrapped_lines_sub_width_text_is_single_line() {
    let mut input = InputBox::new();
    for c in "hello".chars() {
        input.handle_key(key_char(c));
    }
    assert_eq!(input.wrapped_lines(10), vec!["hello█".to_string()]);
    assert_eq!(input.line_count(10), 1);
}

#[test]
fn cursor_glyph_at_exact_width_boundary_pushes_a_wrap() {
    let mut input = InputBox::new();
    for c in "abcde".chars() {
        input.handle_key(key_char(c));
    }
    assert_eq!(input.wrapped_lines(5), vec!["abcde".to_string(), "█".to_string()]);
    assert_eq!(input.line_count(5), 2);
}

#[test]
fn wrapped_lines_multi_line_overflow() {
    let mut input = InputBox::new();
    for _ in 0..12 {
        input.handle_key(key_char('x'));
    }
    assert_eq!(
        input.wrapped_lines(5),
        vec!["xxxxx".to_string(), "xxxxx".to_string(), "xx█".to_string()]
    );
    assert_eq!(input.line_count(5), 3);
}

#[test]
fn wrapped_lines_mid_string_cursor_splices_glyph() {
    let mut input = InputBox::new();
    for c in "abcdef".chars() {
        input.handle_key(key_char(c));
    }
    input.handle_key(key_left());
    input.handle_key(key_left());
    assert_eq!(input.wrapped_lines(4), vec!["abcd".to_string(), "█ef".to_string()]);
    assert_eq!(input.line_count(4), 2);
}

#[test]
fn wrapped_lines_zero_width_treated_as_one() {
    let mut input = InputBox::new();
    input.handle_key(key_char('a'));
    assert_eq!(input.wrapped_lines(0), vec!["a".to_string(), "█".to_string()]);
    assert_eq!(input.line_count(0), 2);
}

#[test]
fn display_string_places_the_glyph_at_the_cursor() {
    let mut input = InputBox::new();
    input.handle_key(key_char('a'));
    input.handle_key(key_char('b'));
    input.handle_key(key_left());
    assert_eq!(input.display_string(), vec!['a', CURSOR_GLYPH, 'b']);
}

#[test]
fn modifiers_do_not_matter_and_other_keys_leave_the_box_alone() {
    let mut input = InputBox::new();
    input.handle_key(key_char('a'));
    input.handle_key(KeyEvent::with_modifiers(KeyCode::Char('b'), CONTROL));
    input.handle_key(KeyEvent::new(KeyCode::Enter));
    input.handle_key(KeyEvent::new(KeyCode::Up));
    assert_eq!(input.value(), "ab");
    assert_eq!(input.cursor_pos(), 2);
}
