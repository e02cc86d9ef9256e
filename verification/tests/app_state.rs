use reflections::model::{TodoItem, TodoStatus};
use reflections::services::{edit_step, EditAction, EditEvent, EditState};
use reflections::app_state::{is_global_quit, next_tab, prev_tab, tab_index, App, AppAction, Tab};
use reflections::calendar::{days_in_month, is_leap_year};
use reflections::keys::{KeyCode, KeyEvent, CONTROL, SHIFT};
use reflections::selection::{clamp_selection, select_next, select_prev};
use reflections::text::{decimal_len, trim_chars};
use reflections::time::{parse_timestamp, pick_instant, LocalLookup, TimestampError, UtcTime};
use reflections::todo_view::TodoListAction;
use reflections::views::SummariesAction;

fn key(c: char) -> KeyEvent {
    KeyEvent::new(KeyCode::Char(c))
}

#[test]
fn g_t_and_g_shift_t_switch_tabs() {
    let mut app = App::new();
    assert_eq!(app.active_tab, Tab::TodoList);
    assert!(matches!(app.handle_key(key('g'), 40), AppAction::Nothing));
    assert!(app.pending_g_prefix);
    app.handle_key(key('t'), 40);
    assert_eq!(app.active_tab, Tab::Meetings);
    app.handle_key(key('g'), 40);
    app.handle_key(key('t'), 40);
    app.handle_key(key('g'), 40);
    assert!(matches!(app.handle_key(key('t'), 40), AppAction::RefreshSummaries));
    assert_eq!(app.active_tab, Tab::Summaries);
    app.handle_key(key('g'), 40);
    app.handle_key(key('t'), 40);
    assert_eq!(app.active_tab, Tab::TodoList);
    app.handle_key(key('g'), 40);
    app.handle_key(key('T'), 40);
    assert_eq!(app.active_tab, Tab::Summaries);
}

#[test]
fn capital_r_and_n_ask_for_general_entries() {
    let mut app = App::new();
    assert!(matches!(app.handle_key(key('R'), 40), AppAction::NewReflection));
    assert!(matches!(app.handle_key(key('N'), 40), AppAction::NewNote));
}

#[test]
fn keys_go_to_the_open_modal_first() {
    let mut app = App::new();
    app.handle_key(key('a'), 40);
    assert!(app.is_modal_active());
    assert!(matches!(app.handle_key(key('g'), 40), AppAction::Todo(TodoListAction::Nothing)));
    assert!(!app.pending_g_prefix);
    assert!(matches!(app.handle_key(key('R'), 40), AppAction::Todo(TodoListAction::Nothing)));
    assert_eq!(app.todo_list_view.input_modal.input.value(), "gR");
}

#[test]
fn summaries_tab_routes_keys_to_its_list() {
    let mut app = App::new();
    app.active_tab = Tab::Summaries;
    assert!(matches!(app.handle_key(KeyEvent::new(KeyCode::Enter), 40), AppAction::Summaries(SummariesAction::Nothing)));
    assert!(!app.is_overlay_active());
}

#[test]
fn tabs_cycle_in_both_directions() {
    for t in [Tab::TodoList, Tab::Meetings, Tab::Reflections, Tab::Summaries] {
        assert_eq!(prev_tab(next_tab(t)), t);
        assert_eq!(next_tab(next_tab(next_tab(next_tab(t)))), t);
    }
    assert_eq!(tab_index(Tab::Reflections), 2);
}

#[test]
fn only_plain_ctrl_c_quits() {
    assert!(is_global_quit(&KeyEvent::with_modifiers(KeyCode::Char('c'), CONTROL)));
    assert!(!is_global_quit(&KeyEvent::with_modifiers(KeyCode::Char('c'), CONTROL | SHIFT)));
    assert!(!is_global_quit(&key('c')));
}

#[test]
fn leap_years_and_month_lengths() {
    assert!(is_leap_year(2024));
    assert!(!is_leap_year(1900));
    assert!(is_leap_year(2000));
    assert_eq!(days_in_month(2024, 2), 29);
    assert_eq!(days_in_month(2023, 2), 28);
    assert_eq!(days_in_month(2023, 4), 30);
    assert_eq!(days_in_month(2023, 12), 31);
}

#[test]
fn selection_moves_and_clamps() {
    assert_eq!(select_next(None, 3), Some(0));
    assert_eq!(select_next(Some(2), 3), Some(2));
    assert_eq!(select_prev(Some(0)), Some(0));
    assert_eq!(select_prev(None), Some(0));
    assert_eq!(clamp_selection(Some(5), 2), Some(1));
    assert_eq!(clamp_selection(None, 2), Some(0));
    assert_eq!(clamp_selection(Some(1), 0), None);
}

#[test]
fn trimming_and_decimal_lengths() {
    let v: Vec<char> = "  a b \n".chars().collect();
    assert_eq!(trim_chars(&v), vec!['a', ' ', 'b']);
    assert_eq!(decimal_len(0), 1);
    assert_eq!(decimal_len(12345), 5);
}

#[test]
fn stored_timestamps_read_both_formats() {
    assert_eq!(parse_timestamp("2026-01-01T12:00:00+00:00"), Ok(UtcTime { secs: 1_767_268_800, nanos: 0 }));
    assert_eq!(parse_timestamp("2026-01-01T13:00:00+01:00"), Ok(UtcTime { secs: 1_767_268_800, nanos: 0 }));
    assert_eq!(parse_timestamp("2026-01-01 12:00:00"), Ok(UtcTime { secs: 1_767_268_800, nanos: 0 }));
    assert_eq!(parse_timestamp("yesterday"), Err(TimestampError("yesterday".to_string())));
}

#[test]
fn pick_instant_prefers_the_local_reading() {
    let a = UtcTime { secs: 1, nanos: 0 };
    let b = UtcTime { secs: 2, nanos: 0 };
    let c = UtcTime { secs: 3, nanos: 0 };
    assert_eq!(pick_instant(LocalLookup::Single(a), Some(b), c), a);
    assert_eq!(pick_instant(LocalLookup::Ambiguous(b, a), None, c), b);
    assert_eq!(pick_instant(LocalLookup::Nonexistent, Some(b), c), b);
    assert_eq!(pick_instant(LocalLookup::Nonexistent, None, c), c);
}

#[test]
fn views_keep_items_and_selection_across_tab_switches() {
    let t = UtcTime { secs: 0, nanos: 0 };
    let mut app = App::new();
    app.todo_list_view.set_items(vec![
        TodoItem { id: 1, label: "a".to_string(), status: TodoStatus::New, created_at: t, updated_at: t },
        TodoItem { id: 2, label: "b".to_string(), status: TodoStatus::Done, created_at: t, updated_at: t },
    ]);
    app.todo_list_view.set_selected_index(1);
    for _ in 0..4 {
        app.handle_key(key('g'), 40);
        app.handle_key(key('t'), 40);
    }
    app.handle_key(key('g'), 40);
    app.handle_key(key('T'), 40);
    app.handle_key(key('g'), 40);
    app.handle_key(key('t'), 40);
    assert_eq!(app.active_tab, Tab::TodoList);
    assert_eq!(app.todo_list_view.items.len(), 2);
    assert_eq!(app.todo_list_view.selected_index(), Some(1));
}

#[test]
fn an_open_pop_up_takes_g_and_t() {
    let mut app = App::new();
    app.handle_key(key('a'), 40);
    assert!(app.is_modal_active());
    app.handle_key(key('g'), 40);
    app.handle_key(key('t'), 40);
    assert_eq!(app.active_tab, Tab::TodoList);
    assert!(!app.pending_g_prefix);
    assert!(app.is_modal_active());
    assert_eq!(app.todo_list_view.input_modal.input.value(), "gt");
}

#[test]
fn edit_steps_always_clean_up_and_report_the_editor() {
    for ok in [true, false] {
        let created = EditEvent::Created { root_dir: "/notes".to_string(), file_path: "2024/01/02/x.md".to_string() };
        let (s1, a1) = edit_step(EditState::AwaitingCreate, created);
        assert!(matches!(a1, EditAction::OpenEditor { ref path } if path == "/notes/2024/01/02/x.md"));
        let (s2, a2) = edit_step(s1, EditEvent::EditorClosed { ok });
        assert!(matches!(a2, EditAction::CleanUp));
        let (s3, a3) = edit_step(s2, EditEvent::CleanedUp);
        assert!(matches!(a3, EditAction::Report { editor_ok } if editor_ok == ok));
        assert_eq!(s3, EditState::Finished { editor_ok: ok });
        assert!(matches!(edit_step(s3, EditEvent::CleanedUp).1, EditAction::Nothing));
    }
}
