use reflections::keys::{KeyCode, KeyEvent, CONTROL};
use reflections::model::{EventType, TodoItem, TodoStatus};
use reflections::scroll::{ScrollState, DEFAULT_PAGE_HEIGHT};
use reflections::time::UtcTime;
use reflections::timeline::{TimelineEntity, TimelineEntry};
use reflections::views::TimelineView;

fn todo_entry(label: &str) -> TimelineEntry {
    let t = UtcTime { secs: 1_767_268_800, nanos: 0 };
    TimelineEntry {
        event_id: 1,
        entity_id: 2,
        event_type: EventType::TodoItemCreated,
        metadata: "{}".to_string(),
        created_at: t,
        updated_at: t,
        entity: Some(TimelineEntity::TodoItem(TodoItem {
            id: 2,
            label: label.to_string(),
            status: TodoStatus::New,
            created_at: t,
            updated_at: t,
        })),
        diff: None,
    }
}

fn ctrl(c: char) -> KeyEvent {
    KeyEvent::with_modifiers(KeyCode::Char(c), CONTROL)
}

#[test]
fn ctrl_d_scrolls_down() {
    let mut view = TimelineView::new(vec![todo_entry("Item 1"), todo_entry("Item 2")], "Test");
    view.handle_key(ctrl('d'));
    assert!(view.scroll_offset() > 0, "scroll_offset should increase");
}

#[test]
fn ctrl_u_scrolls_up() {
    let mut view = TimelineView::new(vec![todo_entry("Test")], "Test");
    view.scroll.scroll_offset = 10;
    view.handle_key(ctrl('u'));
    assert!(view.scroll_offset() < 10, "scroll_offset should decrease from 10");
}

#[test]
fn ctrl_u_clamped_at_zero() {
    let mut view = TimelineView::new(vec![todo_entry("Test")], "Test");
    view.handle_key(ctrl('u'));
    assert_eq!(view.scroll_offset(), 0, "scroll_offset should stay at 0");
}

#[test]
fn esc_closes_view() {
    let mut view = TimelineView::new(vec![], "Test");
    let should_close = view.handle_key(KeyEvent::new(KeyCode::Esc));
    assert!(should_close, "Esc should close the view");
}

#[test]
fn q_closes_view() {
    let mut view = TimelineView::new(vec![], "Test");
    let should_close = view.handle_key(KeyEvent::new(KeyCode::Char('q')));
    assert!(should_close, "q should close the view");
}

#[test]
fn plain_d_and_u_do_not_scroll() {
    let mut view = TimelineView::new(vec![], "Test");
    assert!(!view.handle_key(KeyEvent::new(KeyCode::Char('d'))));
    assert_eq!(view.scroll_offset(), 0);
}

#[test]
fn step_is_half_the_default_page_before_drawing() {
    let mut s = ScrollState::new();
    s.handle_key(ctrl('d'));
    assert_eq!(s.scroll_offset, DEFAULT_PAGE_HEIGHT / 2);
}

#[test]
fn step_is_half_the_drawn_height_after_fitting() {
    let mut s = ScrollState::new();
    s.fit(8, 100);
    s.handle_key(ctrl('d'));
    assert_eq!(s.scroll_offset, 4);
}

#[test]
fn fit_clamps_to_the_last_page() {
    let mut s = ScrollState::new();
    s.fit(8, 20);
    for _ in 0..20 {
        s.handle_key(ctrl('d'));
        s.fit(8, 20);
    }
    assert_eq!(s.scroll_offset, 12);
}

#[test]
fn fit_keeps_short_content_unscrolled() {
    let mut s = ScrollState::new();
    s.fit(22, 5);
    s.handle_key(ctrl('d'));
    s.fit(22, 5);
    assert_eq!(s.scroll_offset, 0);
    s.handle_key(ctrl('u'));
    s.fit(22, 5);
    assert_eq!(s.scroll_offset, 0);
}

#[test]
fn scrolling_saturates() {
    let mut s = ScrollState { scroll_offset: usize::MAX - 1, viewport_height: 10 };
    s.scroll_down(5);
    assert_eq!(s.scroll_offset, usize::MAX);
    s.scroll_up(usize::MAX);
    assert_eq!(s.scroll_offset, 0);
    assert_eq!(s.effective_viewport_height(), 10);
}
