use db_manager::connection_popup::ActiveText;
use db_manager::controller::{App, QuitState};
use db_manager::event::AppEvent;
use db_manager::keys::{KeyCode, KeyEvent, KeyEventKind, KeyModifiers};
use db_manager::popup::{Popup, PopupTag};
use db_manager::tabs::{DBTab, DBTypes, Tab};

fn press(code: KeyCode) -> KeyEvent {
    KeyEvent::new(code, KeyModifiers::empty())
}

fn frame(app: &mut App, code: KeyCode) {
    app.handle_events(press(code));
    app.check_event_loop();
}

fn tab_selected(app: &App, index: usize) -> usize {
    match &app.tabs()[index] {
        Tab::Types(t) => t.selected,
        Tab::Connections(t) => t.selected,
        _ => panic!("not a list tab"),
    }
}

fn open_connection_form(app: &mut App) {
    // pick PostgreSQL in the type selector, which moves focus to Connections
    frame(app, KeyCode::Enter);
    assert_eq!(app.db_type(), Some(DBTypes::POSTGRES));
    assert_eq!(app.current_tab_index(), 1);
    // Enter on "Create New Connection" opens the form
    frame(app, KeyCode::Enter);
    assert!(app.has_popup());
}

fn form(app: &App) -> &db_manager::connection_popup::DbConnectionPopup {
    match app.popup_stack().last() {
        Some(Popup::Connection(p)) => p,
        _ => panic!("no connection form on top"),
    }
}

#[test]
fn new_app_layout() {
    let app = App::new();
    assert_eq!(app.title(), " Database Manager ");
    assert_eq!(app.quit_state(), QuitState::Running);
    assert_eq!(app.current_tab_index(), 0);
    assert_eq!(app.tabs().len(), 4);
    let titles: Vec<String> = app.tabs().iter().map(|t| t.get_title()).collect();
    assert_eq!(titles, vec!["Types", "Connections", "Databases", "Tables"]);
    let disabled: Vec<bool> = app.tabs().iter().map(|t| t.is_disabled()).collect();
    assert_eq!(disabled, vec![false, false, true, true]);
    assert!(!app.has_popup());
    assert!(!app.show_logs_window());
    assert_eq!(app.pending_events(), 0);
}

#[test]
fn tab_three_times_skips_disabled_tabs() {
    let mut app = App::new();
    let mut seen = Vec::new();
    for _ in 0..3 {
        frame(&mut app, KeyCode::Tab);
        seen.push(app.current_tab_index());
    }
    assert_eq!(seen, vec![1, 0, 1]);
    assert!(seen.iter().all(|&i| i != 2 && i != 3));
}

#[test]
fn shift_tab_goes_back() {
    let mut app = App::new();
    app.handle_events(KeyEvent::new(KeyCode::Tab, KeyModifiers::shift()));
    assert_eq!(app.current_tab_index(), 1);
    app.handle_events(press(KeyCode::BackTab));
    assert_eq!(app.current_tab_index(), 0);
}

#[test]
fn tab_with_control_does_nothing() {
    let mut app = App::new();
    app.handle_events(KeyEvent::new(KeyCode::Tab, KeyModifiers::control()));
    assert_eq!(app.current_tab_index(), 0);
}

#[test]
fn all_enabled_cycle_returns_to_start() {
    let mut app = App::new();
    app.set_tab_disabled(2, false);
    app.set_tab_disabled(3, false);
    let mut seen = Vec::new();
    for _ in 0..4 {
        frame(&mut app, KeyCode::Tab);
        seen.push(app.current_tab_index());
    }
    assert_eq!(seen, vec![1, 2, 3, 0]);
    for _ in 0..4 {
        app.handle_events(press(KeyCode::BackTab));
    }
    assert_eq!(app.current_tab_index(), 0);
}

#[test]
fn disabled_middle_tab_is_skipped_both_ways() {
    let mut app = App::new();
    app.set_tab_disabled(3, false);
    frame(&mut app, KeyCode::Tab);
    assert_eq!(app.current_tab_index(), 1);
    frame(&mut app, KeyCode::Tab);
    assert_eq!(app.current_tab_index(), 3);
    frame(&mut app, KeyCode::Tab);
    assert_eq!(app.current_tab_index(), 0);
    app.handle_events(press(KeyCode::BackTab));
    assert_eq!(app.current_tab_index(), 3);
    app.handle_events(press(KeyCode::BackTab));
    assert_eq!(app.current_tab_index(), 1);
}

#[test]
fn single_enabled_tab_never_moves() {
    let mut app = App::new();
    app.set_tab_disabled(1, true);
    for _ in 0..5 {
        frame(&mut app, KeyCode::Tab);
        assert_eq!(app.current_tab_index(), 0);
        app.handle_events(press(KeyCode::BackTab));
        assert_eq!(app.current_tab_index(), 0);
    }
}

#[test]
fn no_enabled_tab_never_moves() {
    let mut app = App::new();
    app.set_tab_disabled(0, true);
    app.set_tab_disabled(1, true);
    frame(&mut app, KeyCode::Tab);
    assert_eq!(app.current_tab_index(), 0);
    app.handle_events(press(KeyCode::BackTab));
    assert_eq!(app.current_tab_index(), 0);
}

#[test]
fn q_quits_and_esc_quits() {
    let mut app = App::new();
    frame(&mut app, KeyCode::Char('q'));
    assert_eq!(app.quit_state(), QuitState::Close);
    let mut app = App::new();
    frame(&mut app, KeyCode::Esc);
    assert_eq!(app.quit_state(), QuitState::Close);
}

#[test]
fn key_release_is_ignored() {
    let mut app = App::new();
    let mut key = press(KeyCode::Char('q'));
    key.kind = KeyEventKind::Release;
    app.handle_events(key);
    assert_eq!(app.quit_state(), QuitState::Running);
}

#[test]
fn f12_then_q_closes_only_the_overlay() {
    let mut app = App::new();
    frame(&mut app, KeyCode::F(12));
    assert!(app.show_logs_window());
    frame(&mut app, KeyCode::Char('q'));
    assert!(!app.show_logs_window());
    assert_eq!(app.quit_state(), QuitState::Running);
}

#[test]
fn overlay_pages_and_toggles() {
    let mut app = App::new();
    frame(&mut app, KeyCode::F(12));
    frame(&mut app, KeyCode::Char('j'));
    frame(&mut app, KeyCode::Char('k'));
    frame(&mut app, KeyCode::Tab);
    assert!(app.show_logs_window());
    assert_eq!(app.current_tab_index(), 0);
    frame(&mut app, KeyCode::F(12));
    assert!(!app.show_logs_window());
    frame(&mut app, KeyCode::F(12));
    frame(&mut app, KeyCode::Esc);
    assert!(!app.show_logs_window());
    assert_eq!(app.quit_state(), QuitState::Running);
}

#[test]
fn list_keys_go_to_focused_tab() {
    let mut app = App::new();
    frame(&mut app, KeyCode::Down);
    assert_eq!(tab_selected(&app, 0), 1);
    frame(&mut app, KeyCode::Char('j'));
    frame(&mut app, KeyCode::Char('j'));
    frame(&mut app, KeyCode::Down);
    assert_eq!(tab_selected(&app, 0), 0);
    frame(&mut app, KeyCode::Up);
    assert_eq!(tab_selected(&app, 0), 3);
    frame(&mut app, KeyCode::Char('k'));
    assert_eq!(tab_selected(&app, 0), 2);
}

#[test]
fn selecting_a_type_records_it_and_advances() {
    let mut app = App::new();
    frame(&mut app, KeyCode::Down);
    frame(&mut app, KeyCode::Down);
    frame(&mut app, KeyCode::Enter);
    assert_eq!(app.db_type(), Some(DBTypes::MARIA));
    assert_eq!(app.current_tab_index(), 1);
}

#[test]
fn new_connection_needs_a_selected_type() {
    let mut app = App::new();
    frame(&mut app, KeyCode::Tab);
    frame(&mut app, KeyCode::Enter);
    assert!(!app.has_popup());
    assert_eq!(app.pending_events(), 0);
}

#[test]
fn popup_takes_all_keys() {
    let mut app = App::new();
    open_connection_form(&mut app);
    let before = tab_selected(&app, 1);
    for code in [KeyCode::Tab, KeyCode::Char('q'), KeyCode::F(12), KeyCode::Down, KeyCode::Char('j')] {
        frame(&mut app, code);
    }
    assert!(app.has_popup());
    assert_eq!(app.current_tab_index(), 1);
    assert_eq!(tab_selected(&app, 1), before);
    assert_eq!(app.quit_state(), QuitState::Running);
    assert!(!app.show_logs_window());
    // the keys went to the form: Tab and Down moved the focus twice, the
    // letters were typed into the field focused at the time
    assert_eq!(form(&app).active_field(), ActiveText::Username);
    assert_eq!(form(&app).field_text(ActiveText::DbName), vec!["q".to_string()]);
    assert_eq!(form(&app).field_text(ActiveText::Username), vec!["j".to_string()]);
}

#[test]
fn form_fields_typing_and_submit() {
    let mut app = App::new();
    open_connection_form(&mut app);
    assert_eq!(form(&app).get_db_driver_name(), "PostgreSQL");
    for c in "localhost".chars() {
        frame(&mut app, KeyCode::Char(c));
    }
    frame(&mut app, KeyCode::Tab);
    for c in "shop".chars() {
        frame(&mut app, KeyCode::Char(c));
    }
    frame(&mut app, KeyCode::Enter);
    assert!(app.has_popup());
    let f = form(&app);
    assert_eq!(f.field_text(ActiveText::Host), vec!["localhost".to_string()]);
    assert_eq!(f.field_text(ActiveText::DbName), vec!["shop".to_string()]);
    assert_eq!(f.error_message(ActiveText::Host), "");
    assert_eq!(f.error_message(ActiveText::DbName), "");
    assert_eq!(f.error_message(ActiveText::Username), "Username cannot be empty.");
    assert_eq!(f.error_message(ActiveText::Password), "Password cannot be empty.");
    let errors = [ActiveText::Host, ActiveText::DbName, ActiveText::Username, ActiveText::Password]
        .iter()
        .filter(|&&g| !f.error_message(g).is_empty())
        .count();
    assert_eq!(errors, 2);
}

#[test]
fn form_submit_all_filled_clears_errors() {
    let mut app = App::new();
    open_connection_form(&mut app);
    frame(&mut app, KeyCode::Enter);
    assert_eq!(form(&app).error_message(ActiveText::Host), "Host cannot be empty.");
    assert_eq!(form(&app).error_message(ActiveText::DbName), "Database name cannot be empty.");
    for word in ["h", "d", "u", "p"] {
        for c in word.chars() {
            frame(&mut app, KeyCode::Char(c));
        }
        frame(&mut app, KeyCode::Down);
    }
    assert_eq!(form(&app).active_field(), ActiveText::Host);
    frame(&mut app, KeyCode::Enter);
    assert!(app.has_popup());
    for g in [ActiveText::Host, ActiveText::DbName, ActiveText::Username, ActiveText::Password] {
        assert_eq!(form(&app).error_message(g), "");
    }
}

#[test]
fn typing_revalidates_only_the_active_field() {
    let mut app = App::new();
    open_connection_form(&mut app);
    frame(&mut app, KeyCode::Enter);
    frame(&mut app, KeyCode::Char('x'));
    assert_eq!(form(&app).error_message(ActiveText::Host), "");
    assert_eq!(form(&app).error_message(ActiveText::DbName), "Database name cannot be empty.");
    frame(&mut app, KeyCode::Backspace);
    assert_eq!(form(&app).error_message(ActiveText::Host), "Host cannot be empty.");
}

#[test]
fn form_up_wraps_to_password() {
    let mut app = App::new();
    open_connection_form(&mut app);
    frame(&mut app, KeyCode::Up);
    assert_eq!(form(&app).active_field(), ActiveText::Password);
    frame(&mut app, KeyCode::Up);
    assert_eq!(form(&app).active_field(), ActiveText::Username);
}

#[test]
fn form_escape_and_ctrl_c_cancel() {
    let mut app = App::new();
    open_connection_form(&mut app);
    frame(&mut app, KeyCode::Esc);
    assert!(!app.has_popup());
    assert_eq!(app.quit_state(), QuitState::Running);
    frame(&mut app, KeyCode::Enter);
    assert!(app.has_popup());
    app.handle_events(KeyEvent::new(KeyCode::Char('c'), KeyModifiers::control()));
    app.check_event_loop();
    assert!(!app.has_popup());
}

#[test]
fn plain_c_is_typed_into_the_form() {
    let mut app = App::new();
    open_connection_form(&mut app);
    frame(&mut app, KeyCode::Char('c'));
    assert!(app.has_popup());
    assert_eq!(form(&app).field_text(ActiveText::Host), vec!["c".to_string()]);
}

#[test]
fn events_apply_in_queue_order() {
    let mut app = App::new();
    app.send_event(AppEvent::DBTypeSelected { db_type: DBTypes::SQLITE });
    app.send_event(AppEvent::NewConnection);
    app.send_event(AppEvent::CancelClosePopup);
    assert_eq!(app.pending_events(), 3);
    app.check_event_loop();
    assert_eq!(app.pending_events(), 0);
    assert_eq!(app.db_type(), Some(DBTypes::SQLITE));
    assert_eq!(app.current_tab_index(), 1);
    assert!(!app.has_popup());

    let mut app = App::new();
    app.send_event(AppEvent::NewConnection);
    app.send_event(AppEvent::DBTypeSelected { db_type: DBTypes::MYSQL });
    app.send_event(AppEvent::NewConnection);
    app.check_event_loop();
    assert_eq!(app.popup_stack().len(), 1);
    assert_eq!(app.popup_stack()[0].tag(), PopupTag::Connection);
    assert_eq!(form(&app).get_db_driver_name(), "MySQL");

    let mut app = App::new();
    app.send_event(AppEvent::CancelClosePopup);
    app.send_event(AppEvent::ConnectionDetailsSubmitted { connection_string: "x".to_string() });
    app.send_event(AppEvent::ConfirmQuitApp);
    app.check_event_loop();
    assert_eq!(app.quit_state(), QuitState::Close);
    assert_eq!(app.current_tab_index(), 0);
}

#[test]
fn text_on_a_later_line_counts_as_filled() {
    let mut app = App::new();
    open_connection_form(&mut app);
    app.handle_events(KeyEvent::new(KeyCode::Char('m'), KeyModifiers::control()));
    app.check_event_loop();
    assert_eq!(form(&app).field_text(ActiveText::Host), vec![String::new(), String::new()]);
    frame(&mut app, KeyCode::Enter);
    assert_eq!(form(&app).error_message(ActiveText::Host), "Host cannot be empty.");
    frame(&mut app, KeyCode::Char('a'));
    assert_eq!(form(&app).field_text(ActiveText::Host), vec![String::new(), "a".to_string()]);
    assert_eq!(form(&app).error_message(ActiveText::Host), "");
    frame(&mut app, KeyCode::Enter);
    assert_eq!(form(&app).error_message(ActiveText::Host), "");
}

#[test]
fn switch_calls_directly() {
    let mut app = App::new();
    app.switch_next_tab();
    assert_eq!(app.current_tab_index(), 1);
    app.switch_next_tab();
    assert_eq!(app.current_tab_index(), 0);
    app.switch_prev_tab();
    assert_eq!(app.current_tab_index(), 1);
    app.set_tab_disabled(0, true);
    app.switch_next_tab();
    assert_eq!(app.current_tab_index(), 1);
    app.switch_prev_tab();
    assert_eq!(app.current_tab_index(), 1);
}
