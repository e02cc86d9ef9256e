use reflections::keys::{KeyCode, KeyEvent, CONTROL};
use reflections::model::{Meeting, Reflection, Summary, TodoItem, TodoStatus};
use reflections::table::TableRow;
use reflections::time::UtcTime;
use reflections::todo_view::{TodoListAction, TodoListView};
use reflections::views::{
    navigate, ContentAction, ContentView, MeetingsAction, MeetingsView, ReflectionsView,
    SummariesAction, SummariesView, SummaryView, TimelineView,
};

fn t0() -> UtcTime {
    UtcTime { secs: 1_767_225_600, nanos: 0 }
}

fn key(c: char) -> KeyEvent {
    KeyEvent::new(KeyCode::Char(c))
}

fn reflection(id: u128) -> Reflection {
    Reflection { id, about_id: None, file_path: format!("{id}.md"), created_at: t0(), updated_at: t0() }
}

fn summary(id: u128) -> Summary {
    Summary { id, file_path: format!("{id}.md"), start: t0(), end: t0(), created_at: t0(), updated_at: t0() }
}

fn meeting(id: u128, name: &str) -> Meeting {
    Meeting { id, name: name.to_string(), scheduled_at: t0(), created_at: t0(), updated_at: t0() }
}

fn todo(id: u128, label: &str, status: TodoStatus) -> TodoItem {
    TodoItem { id, label: label.to_string(), status, created_at: t0(), updated_at: t0() }
}

#[test]
fn clamp_selected_index_after_items_disappear() {
    let mut view = ReflectionsView::new();
    view.set_items_with_labels(
        vec![reflection(1), reflection(2), reflection(3)],
        vec!["a".to_string(), "b".to_string(), "c".to_string()],
    );
    view.handle_key(key('j'));
    view.handle_key(key('j'));
    view.handle_key(key('j'));
    assert_eq!(view.selected_index(), Some(2));
    view.set_items_with_labels(vec![reflection(1)], vec!["a".to_string()]);
    assert_eq!(view.selected_index(), Some(0));
    view.set_items_with_labels(vec![], vec![]);
    assert_eq!(view.selected_index(), None);
}

#[test]
fn reflections_j_and_k_move_within_the_list() {
    let mut view = ReflectionsView::new();
    view.handle_key(key('j'));
    assert_eq!(view.selected_index(), None);
    view.handle_key(key('k'));
    assert_eq!(view.selected_index(), None);
    view.set_items(vec![reflection(1), reflection(2)]);
    view.handle_key(key('j'));
    assert_eq!(view.selected_index(), Some(0));
    view.handle_key(key('j'));
    assert_eq!(view.selected_index(), Some(1));
    view.handle_key(key('j'));
    assert_eq!(view.selected_index(), Some(1));
    view.handle_key(key('k'));
    view.handle_key(key('k'));
    assert_eq!(view.selected_index(), Some(0));
}

#[test]
fn navigate_ignores_other_keys() {
    assert_eq!(navigate(Some(1), 3, key('x')), Some(1));
    assert_eq!(navigate(None, 3, KeyEvent::new(KeyCode::Down)), Some(0));
    assert_eq!(navigate(None, 3, KeyEvent::new(KeyCode::Up)), Some(0));
    assert_eq!(navigate(None, 0, KeyEvent::new(KeyCode::Down)), None);
}

#[test]
fn reflection_rows_pair_labels_with_items() {
    let mut view = ReflectionsView::new();
    view.set_items_with_labels(vec![reflection(1), reflection(2)], vec!["first".to_string()]);
    assert_eq!(view.selected_index(), Some(0));
    let rows: Vec<TableRow> = view.rows();
    assert_eq!(rows.len(), 1);
    assert_eq!(rows[0].cells[0], "first");
    assert_eq!(rows[0].cells.len(), 2);
    assert!(rows[0].selected);
}

#[test]
fn todo_rows_show_status_label_and_selection() {
    let mut view = TodoListView::new();
    view.set_items(vec![todo(1, "write", TodoStatus::New), todo(2, "ship", TodoStatus::Done)]);
    view.set_selected_index(1);
    let rows = view.rows();
    assert_eq!(rows.len(), 2);
    assert_eq!(rows[0].cells[0], "NEW");
    assert_eq!(rows[0].cells[1], "write");
    assert!(!rows[0].selected);
    assert_eq!(rows[1].cells[0], "DONE");
    assert!(rows[1].selected);
    assert_eq!(rows[1].cells.len(), 4);
}

#[test]
fn todo_add_modal_creates_trimmed_label() {
    let mut view = TodoListView::new();
    assert!(matches!(view.handle_key(key('a')), TodoListAction::Nothing));
    assert!(view.is_modal_active());
    for c in "  buy milk ".chars() {
        view.handle_key(key(c));
    }
    match view.handle_key(KeyEvent::new(KeyCode::Enter)) {
        TodoListAction::CreateTodo(label) => assert_eq!(label, "buy milk"),
        other => panic!("unexpected {other:?}"),
    }
    assert!(!view.is_modal_active());
}

#[test]
fn todo_blank_label_creates_nothing() {
    let mut view = TodoListView::new();
    view.handle_key(key('a'));
    view.handle_key(key(' '));
    assert!(matches!(view.handle_key(KeyEvent::new(KeyCode::Enter)), TodoListAction::Nothing));
    assert!(!view.is_modal_active());
}

#[test]
fn todo_status_update_flow() {
    let mut view = TodoListView::new();
    view.set_items(vec![todo(7, "a", TodoStatus::InProgress)]);
    view.handle_key(key('u'));
    assert!(!view.is_status_modal_active());
    view.handle_key(key('j'));
    view.handle_key(key('u'));
    assert!(view.is_status_modal_active());
    view.handle_key(key('j'));
    match view.handle_key(KeyEvent::new(KeyCode::Enter)) {
        TodoListAction::UpdateStatus(id, status) => {
            assert_eq!(id, 7);
            assert_eq!(status, TodoStatus::Done);
        }
        other => panic!("unexpected {other:?}"),
    }
    assert!(!view.is_status_modal_active());
}

#[test]
fn todo_show_all_toggle_and_entity_keys() {
    let mut view = TodoListView::new();
    assert!(matches!(view.handle_key(key('A')), TodoListAction::Reload));
    assert!(view.is_show_all());
    view.handle_key(key('A'));
    assert!(!view.is_show_all());
    assert!(matches!(view.handle_key(key('r')), TodoListAction::Nothing));
    view.set_items(vec![todo(3, "x", TodoStatus::New)]);
    view.handle_key(key('j'));
    assert!(matches!(view.handle_key(key('r')), TodoListAction::EditReflection(3)));
    assert!(matches!(view.handle_key(key('n')), TodoListAction::EditNote(3)));
}

#[test]
fn todo_open_status_modal_targets_first_item_or_placeholder() {
    let mut view = TodoListView::new();
    view.open_status_modal(99);
    assert!(view.is_status_modal_active());
    assert_eq!(view.status_modal.target_item_id(), Some(99));
    let mut view = TodoListView::new();
    view.set_items(vec![todo(5, "x", TodoStatus::Done)]);
    view.open_status_modal(99);
    assert_eq!(view.status_modal.target_item_id(), Some(5));
    assert_eq!(view.status_modal.selected_index, 2);
}

#[test]
fn meetings_enter_opens_the_timeline_of_the_selected_meeting() {
    let mut view = MeetingsView::new();
    view.set_items(vec![meeting(4, "Standup"), meeting(5, "Retro")]);
    assert!(matches!(view.handle_key(KeyEvent::new(KeyCode::Enter)), MeetingsAction::Nothing));
    view.handle_key(key('j'));
    view.handle_key(key('j'));
    match view.handle_key(KeyEvent::new(KeyCode::Enter)) {
        MeetingsAction::OpenTimeline(id, title) => {
            assert_eq!(id, 5);
            assert_eq!(title, "Timeline: Retro");
        }
        other => panic!("unexpected {other:?}"),
    }
    assert!(matches!(view.handle_key(key('r')), MeetingsAction::EditReflection(5)));
    assert!(matches!(view.handle_key(key('n')), MeetingsAction::EditNote(5)));
    let rows = view.rows();
    assert_eq!(rows[1].cells[0], "Retro");
    assert!(rows[1].selected);
}

#[test]
fn meetings_modal_submits_a_new_meeting() {
    let mut view = MeetingsView::new();
    view.handle_key(key('a'));
    assert!(view.is_modal_active());
    for c in "Sync".chars() {
        view.handle_key(key(c));
    }
    match view.handle_key(KeyEvent::new(KeyCode::Enter)) {
        MeetingsAction::CreateMeeting(name, _) => assert_eq!(name, "Sync"),
        other => panic!("unexpected {other:?}"),
    }
    assert!(!view.is_modal_active());
}

#[test]
fn meetings_timeline_page_takes_keys_until_closed() {
    let mut view = MeetingsView::new();
    view.set_items(vec![meeting(4, "Standup")]);
    view.set_timeline_view(TimelineView::new(vec![], "Timeline: Standup"));
    assert!(view.is_timeline_active());
    assert!(matches!(view.handle_key(key('j')), MeetingsAction::Nothing));
    assert_eq!(view.selected_index(), None);
    view.handle_key(key('q'));
    assert!(!view.is_timeline_active());
}

#[test]
fn summaries_enter_opens_the_selected_summary() {
    let mut view = SummariesView::new();
    view.set_items_with_labels(vec![summary(8), summary(9)], vec!["w1".to_string(), "w2".to_string()]);
    assert_eq!(view.selected_index(), Some(0));
    assert_eq!(view.handle_key(KeyEvent::new(KeyCode::Enter), 40), SummariesAction::OpenSummary(8));
    view.handle_key(key('j'), 40);
    assert_eq!(view.handle_key(KeyEvent::new(KeyCode::Enter), 40), SummariesAction::OpenSummary(9));
    view.handle_key(key('k'), 40);
    let rows = view.rows();
    assert_eq!(rows.len(), 2);
    assert_eq!(rows[0].cells.len(), 5);
    assert_eq!(rows[1].cells[0], "w2");
    view.summary_view = Some(SummaryView::new("text".to_string()));
    assert!(view.is_summary_view_active());
    assert_eq!(view.handle_key(key('j'), 40), SummariesAction::Nothing);
    assert_eq!(view.selected_index(), Some(0));
    view.handle_key(KeyEvent::new(KeyCode::Esc), 40);
    assert!(!view.is_summary_view_active());
}

#[test]
fn summary_page_scrolls_by_half_the_terminal() {
    let mut page = SummaryView::new("x".to_string());
    assert!(!page.handle_key(KeyEvent::with_modifiers(KeyCode::Char('d'), CONTROL), 40));
    assert_eq!(page.scroll_offset, 20);
    page.handle_key(KeyEvent::with_modifiers(KeyCode::Char('u'), CONTROL), 10);
    assert_eq!(page.scroll_offset, 15);
    page.fit(10, 12);
    assert_eq!(page.scroll_offset, 2);
    assert!(page.handle_key(key('q'), 40));
}

#[test]
fn content_page_edits_scrolls_and_closes() {
    let mut page = ContentView::new(42, "body".to_string(), "Reflection");
    assert_eq!(page.handle_key(key('e')), ContentAction::Edit(42));
    assert_eq!(page.handle_key(KeyEvent::with_modifiers(KeyCode::Char('d'), CONTROL)), ContentAction::Nothing);
    assert_eq!(page.scroll_offset(), 12);
    page.scroll.fit(10, 15);
    assert_eq!(page.scroll_offset(), 5);
    page.handle_key(KeyEvent::with_modifiers(KeyCode::Char('u'), CONTROL));
    assert_eq!(page.scroll_offset(), 0);
    assert_eq!(page.handle_key(KeyEvent::new(KeyCode::Esc)), ContentAction::Close);
    page.set_content("new".to_string());
    assert_eq!(page.content, "new");
}

#[test]
fn summary_page_e_asks_to_edit_the_shown_summary() {
    let mut view = SummariesView::new();
    view.set_items_with_labels(vec![summary(8), summary(9)], vec!["w1".to_string(), "w2".to_string()]);
    view.handle_key(key('j'), 40);
    assert_eq!(view.handle_key(key('e'), 40), SummariesAction::Nothing);
    view.summary_view = Some(SummaryView::new("text".to_string()));
    assert_eq!(view.handle_key(key('e'), 40), SummariesAction::EditSummary(9));
    assert!(view.is_summary_view_active());
    view.handle_key(KeyEvent::with_modifiers(KeyCode::Char('d'), CONTROL), 40);
    assert_eq!(view.summary_view.as_ref().map(|p| p.scroll_offset), Some(20));
}

#[test]
fn meetings_modal_submits_the_instant_of_its_fields() {
    let mut view = MeetingsView::new();
    view.handle_key(key('a'));
    view.set_datetime_for_test(2024, 6, 15, 12, 30);
    for c in "Sync".chars() {
        view.handle_key(key(c));
    }
    match view.handle_key(KeyEvent::new(KeyCode::Enter)) {
        MeetingsAction::CreateMeeting(name, t) => {
            assert_eq!(name, "Sync");
            // 2024-06-15 12:30 UTC is 1718454600 seconds after the epoch.
            assert!((t.secs - 1_718_454_600).abs() < 86_400);
        }
        other => panic!("unexpected {other:?}"),
    }
}

#[test]
fn row_time_cells_are_wall_clock_minutes() {
    let mut view = TodoListView::new();
    view.set_items(vec![todo(1, "a", TodoStatus::New)]);
    let rows = view.rows();
    assert_eq!(rows[0].cells[2].len(), "2026-01-01 00:00".len());
    assert!(rows[0].cells[2].starts_with("202"));
}

#[test]
fn rows_from_times_place_the_given_texts() {
    let mut view = TodoListView::new();
    view.set_items(vec![todo(1, "a", TodoStatus::New)]);
    let rows = view.rows_from_times(&vec![vec!["created".to_string(), "updated".to_string()]]);
    assert_eq!(rows[0].cells, vec!["NEW", "a", "created", "updated"]);
    let mut meetings = MeetingsView::new();
    meetings.set_items(vec![meeting(2, "Standup")]);
    let rows = meetings.rows_from_times(&vec![vec!["s".to_string(), "c".to_string(), "u".to_string()]]);
    assert_eq!(rows[0].cells, vec!["Standup", "s", "c", "u"]);
}
