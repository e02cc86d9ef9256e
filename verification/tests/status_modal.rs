use reflections::keys::{KeyCode, KeyEvent};
use reflections::model::TodoStatus;
use reflections::status_modal::StatusModal;

fn key_char(c: char) -> KeyEvent {
    KeyEvent::new(KeyCode::Char(c))
}

fn key_enter() -> KeyEvent {
    KeyEvent::new(KeyCode::Enter)
}

fn key_esc() -> KeyEvent {
    KeyEvent::new(KeyCode::Esc)
}

fn new_id() -> u128 {
    uuid::Uuid::now_v7().as_u128()
}

#[test]
fn open_pre_selects_current_status() {
    let item_id = new_id();

    let mut modal = StatusModal::new();
    modal.open(item_id, &TodoStatus::New);
    assert_eq!(modal.selected_index, 0);

    let mut modal = StatusModal::new();
    modal.open(item_id, &TodoStatus::InProgress);
    assert_eq!(modal.selected_index, 1);

    let mut modal = StatusModal::new();
    modal.open(item_id, &TodoStatus::Done);
    assert_eq!(modal.selected_index, 2);
    assert_eq!(modal.target_item_id(), Some(item_id));
}

#[test]
fn j_navigates_down() {
    let mut modal = StatusModal::new();
    modal.open(new_id(), &TodoStatus::New);
    assert_eq!(modal.selected_index, 0);

    modal.handle_key(key_char('j'));
    assert_eq!(modal.selected_index, 1);

    modal.handle_key(key_char('j'));
    assert_eq!(modal.selected_index, 2);
}

#[test]
fn k_navigates_up() {
    let mut modal = StatusModal::new();
    modal.open(new_id(), &TodoStatus::New);

    modal.handle_key(key_char('j'));
    modal.handle_key(key_char('j'));
    assert_eq!(modal.selected_index, 2);

    modal.handle_key(key_char('k'));
    assert_eq!(modal.selected_index, 1);
}

#[test]
fn j_at_bottom_does_nothing() {
    let mut modal = StatusModal::new();
    modal.open(new_id(), &TodoStatus::Done);
    assert_eq!(modal.selected_index, 2);

    modal.handle_key(key_char('j'));
    assert_eq!(modal.selected_index, 2);
}

#[test]
fn k_at_top_does_nothing() {
    let mut modal = StatusModal::new();
    modal.open(new_id(), &TodoStatus::New);
    assert_eq!(modal.selected_index, 0);

    modal.handle_key(key_char('k'));
    assert_eq!(modal.selected_index, 0);
}

#[test]
fn enter_returns_selected_status() {
    let mut modal = StatusModal::new();
    modal.open(new_id(), &TodoStatus::New);

    let result = modal.handle_key(key_enter());
    assert_eq!(result, Some(TodoStatus::New));
    assert!(!modal.is_active());

    let mut modal = StatusModal::new();
    modal.open(new_id(), &TodoStatus::InProgress);
    modal.handle_key(key_char('j'));

    let result = modal.handle_key(key_enter());
    assert_eq!(result, Some(TodoStatus::Done));
    assert!(!modal.is_active());
}

#[test]
fn esc_cancels() {
    let mut modal = StatusModal::new();
    modal.open(new_id(), &TodoStatus::New);
    assert!(modal.is_active());

    let result = modal.handle_key(key_esc());
    assert_eq!(result, None);
    assert!(!modal.is_active());
}

#[test]
fn q_cancels() {
    let mut modal = StatusModal::new();
    modal.open(new_id(), &TodoStatus::New);
    assert!(modal.is_active());

    let result = modal.handle_key(key_char('q'));
    assert_eq!(result, None);
    assert!(!modal.is_active());
}

#[test]
fn arrow_keys_move_like_j_and_k_and_rows_mark_the_selection() {
    let mut modal = StatusModal::new();
    modal.open(new_id(), &TodoStatus::New);
    modal.handle_key(KeyEvent::new(KeyCode::Down));
    assert_eq!(modal.selected_index, 1);
    modal.handle_key(KeyEvent::new(KeyCode::Up));
    assert_eq!(modal.selected_index, 0);
    modal.handle_key(key_char('x'));
    assert!(modal.is_active());
    assert_eq!(
        modal.rows(),
        vec![
            ("NEW".to_string(), true),
            ("IN_PROGRESS".to_string(), false),
            ("DONE".to_string(), false)
        ]
    );
}
