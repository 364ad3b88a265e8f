use db_manager::connection_popup::{ActiveText, DbConnectionPopup, PASSWORD_MASK};
use db_manager::event::{AppEvent, EventBus};
use db_manager::keys::{GituiKeyEvent, KeyCode, KeyEvent, KeyModifiers, KeysList, KeysListPatch};
use db_manager::quit_popup::QuitConfirmPopup;
use db_manager::style::{Color, Style, Theme, ThemePatch};
use db_manager::tabs::{
    next_index, prev_index, DBTab, DBTypes, DbConnectionsTab, DbDatabasesTab, DbTablesTab, DbTypesTab,
};

fn press(code: KeyCode) -> KeyEvent {
    KeyEvent::new(code, KeyModifiers::empty())
}

#[test]
fn cursor_wraps_for_every_length() {
    for k in 1..=6usize {
        assert_eq!(next_index(k - 1, k), 0);
        assert_eq!(prev_index(0, k), k - 1);
        for i in 0..k {
            assert!(next_index(i, k) < k);
            assert!(prev_index(i, k) < k);
        }
    }
    assert_eq!(next_index(1, 4), 2);
    assert_eq!(prev_index(2, 4), 1);
    assert_eq!(next_index(0, 1), 0);
    assert_eq!(prev_index(0, 1), 0);
}

#[test]
fn cursor_follows_a_shrunk_list() {
    assert_eq!(next_index(5, 3), 0);
    assert_eq!(prev_index(5, 3), 1);
    assert_eq!(next_index(3, 0), 3);
    assert_eq!(prev_index(3, 0), 3);
}

#[test]
fn db_type_names() {
    assert_eq!(DBTypes::POSTGRES.as_str(), "PostgreSQL");
    assert_eq!(DBTypes::MYSQL.as_str(), "MySQL");
    assert_eq!(DBTypes::MARIA.as_str(), "MariaDB");
    assert_eq!(DBTypes::SQLITE.as_str(), "SQLite");
    assert_eq!(DBTypes::at(3), Some(DBTypes::SQLITE));
    assert_eq!(DBTypes::at(4), None);
}

#[test]
fn types_tab_enter_sends_selection() {
    let mut tab = DbTypesTab::default();
    let mut bus = EventBus::new();
    tab.handle_input(press(KeyCode::Up), &mut bus);
    assert_eq!(tab.selected, 3);
    tab.handle_input(press(KeyCode::Enter), &mut bus);
    assert!(matches!(bus.try_recv(), Some(AppEvent::DBTypeSelected { db_type: DBTypes::SQLITE })));
    assert!(bus.try_recv().is_none());
    tab.handle_input(press(KeyCode::Char('x')), &mut bus);
    assert_eq!(tab.selected, 3);
    assert!(bus.is_empty());
}

#[test]
fn connections_tab_keys() {
    let mut tab = DbConnectionsTab::default();
    assert_eq!(tab.connections.len(), 1);
    assert_eq!(tab.connections[0].name, "Create New Connection");
    assert!(tab.connections[0].is_create_new);
    let mut bus = EventBus::new();
    tab.handle_input(press(KeyCode::Down), &mut bus);
    assert_eq!(tab.selected, 0);
    tab.handle_input(press(KeyCode::Char('k')), &mut bus);
    assert_eq!(tab.selected, 0);
    assert!(bus.is_empty());
    tab.handle_input(press(KeyCode::Enter), &mut bus);
    assert!(matches!(bus.try_recv(), Some(AppEvent::NewConnection)));
}

#[test]
fn placeholder_tabs() {
    let mut db = DbDatabasesTab::default();
    let mut tables = DbTablesTab::default();
    assert_eq!(db.get_title(), "Databases");
    assert_eq!(tables.get_title(), "Tables");
    assert!(db.is_disabled() && tables.is_disabled());
    db.set_disabled(false);
    assert!(!db.is_disabled());
    let mut bus = EventBus::new();
    tables.handle_input(press(KeyCode::Enter), &mut bus);
    assert!(bus.is_empty());
}

#[test]
fn event_bus_is_fifo() {
    let mut bus = EventBus::new();
    bus.send(AppEvent::NewConnection);
    bus.send(AppEvent::ConfirmQuitApp);
    bus.send(AppEvent::CancelClosePopup);
    assert_eq!(bus.len(), 3);
    assert!(matches!(bus.try_recv(), Some(AppEvent::NewConnection)));
    assert!(matches!(bus.try_recv(), Some(AppEvent::ConfirmQuitApp)));
    assert!(matches!(bus.try_recv(), Some(AppEvent::CancelClosePopup)));
    assert!(bus.try_recv().is_none());
}

#[test]
fn quit_popup_keys() {
    let mut popup = QuitConfirmPopup::new();
    let mut bus = EventBus::new();
    for code in [KeyCode::Esc, KeyCode::Char('c'), KeyCode::Enter, KeyCode::Char('q'), KeyCode::Char('x')] {
        popup.handle_input(&press(code), &mut bus);
    }
    assert!(matches!(bus.try_recv(), Some(AppEvent::CancelClosePopup)));
    assert!(matches!(bus.try_recv(), Some(AppEvent::CancelClosePopup)));
    assert!(matches!(bus.try_recv(), Some(AppEvent::ConfirmQuitApp)));
    assert!(matches!(bus.try_recv(), Some(AppEvent::ConfirmQuitApp)));
    assert!(bus.try_recv().is_none());
}

#[test]
fn connection_popup_starts_empty() {
    let popup = DbConnectionPopup::new("SQLite");
    assert_eq!(popup.get_db_driver_name(), "SQLite");
    assert_eq!(popup.active_field(), ActiveText::Host);
    for g in [ActiveText::Host, ActiveText::DbName, ActiveText::Username, ActiveText::Password] {
        assert_eq!(popup.field_text(g), vec![String::new()]);
        assert_eq!(popup.error_message(g), "");
        assert!(popup.text_area(g).is_empty());
    }
    assert_eq!(PASSWORD_MASK, '\u{2022}');
}

#[test]
fn connection_popup_edit_keys() {
    let mut popup = DbConnectionPopup::new("MySQL");
    let mut bus = EventBus::new();
    for c in "abc".chars() {
        popup.handle_input(&press(KeyCode::Char(c)), &mut bus);
    }
    popup.handle_input(&press(KeyCode::Backspace), &mut bus);
    popup.handle_input(&press(KeyCode::Left), &mut bus);
    popup.handle_input(&press(KeyCode::Char('x')), &mut bus);
    assert_eq!(popup.field_text(ActiveText::Host), vec!["axb".to_string()]);
    assert!(!popup.text_area(ActiveText::Host).is_empty());
    assert!(bus.is_empty());
}

#[test]
fn binding_equality_folds_case_into_shift() {
    let upper = GituiKeyEvent::new(KeyCode::Char('A'), KeyModifiers::empty());
    let shifted = GituiKeyEvent::new(KeyCode::Char('a'), KeyModifiers::shift());
    let lower = GituiKeyEvent::new(KeyCode::Char('a'), KeyModifiers::empty());
    assert!(upper == shifted);
    assert!(shifted == upper);
    assert!(lower != upper);
    assert!(GituiKeyEvent::new(KeyCode::Up, KeyModifiers::empty()) == GituiKeyEvent::new(KeyCode::Up, KeyModifiers::empty()));
    assert!(GituiKeyEvent::new(KeyCode::Up, KeyModifiers::empty()) != GituiKeyEvent::new(KeyCode::Up, KeyModifiers::control()));
}

#[test]
fn key_match_is_exact() {
    let binding = GituiKeyEvent::new(KeyCode::Char('c'), KeyModifiers::control());
    let ev = KeyEvent::new(KeyCode::Char('c'), KeyModifiers::control());
    assert!(db_manager::keys::key_match(&ev, binding));
    let plain = KeyEvent::new(KeyCode::Char('c'), KeyModifiers::empty());
    assert!(!db_manager::keys::key_match(&plain, binding));
}

#[test]
fn keys_list_defaults_and_patch() {
    let keys = KeysList::init(None);
    assert!(keys.quit == GituiKeyEvent::new(KeyCode::Char('q'), KeyModifiers::empty()));
    assert!(keys.exit == GituiKeyEvent::new(KeyCode::Char('c'), KeyModifiers::control()));
    assert!(keys.move_down_j == GituiKeyEvent::new(KeyCode::Char('j'), KeyModifiers::empty()));
    let patch = KeysListPatch {
        exit: None,
        quit: Some(GituiKeyEvent::new(KeyCode::Esc, KeyModifiers::empty())),
        move_left: None,
        move_left_h: None,
        move_right: None,
        move_right_l: None,
        move_up: None,
        move_up_k: None,
        move_down: None,
        move_down_j: None,
    };
    let keys = KeysList::init(Some(patch));
    assert!(keys.quit == GituiKeyEvent::new(KeyCode::Esc, KeyModifiers::empty()));
    assert!(keys.exit == GituiKeyEvent::new(KeyCode::Char('c'), KeyModifiers::control()));
}

fn empty_theme_patch() -> ThemePatch {
    ThemePatch {
        selected_tab: None,
        command_fg: None,
        selection_bg: None,
        selection_fg: None,
        cmdbar_bg: None,
        cmdbar_extra_lines_bg: None,
        disabled_fg: None,
        enabled_fg: None,
        danger_fg: None,
        line_break: None,
        block_title_focused: None,
    }
}

#[test]
fn test_smoke() {
    let patch = ThemePatch { selection_bg: Some(Color::White), ..empty_theme_patch() };
    let theme = Theme::init(Some(patch));

    assert_eq!(theme.selection_fg, Theme::default().selection_fg);
    assert_eq!(theme.selection_bg, Color::White);
    assert_ne!(theme.selection_bg, Theme::default().selection_bg);
}

#[test]
fn theme_styles() {
    let theme = Theme::default();
    assert_eq!(theme.line_break(), "\u{b6}");
    assert_eq!(theme.block(true), Style::default());
    assert_eq!(theme.block(false), Style { fg: Some(Color::DarkGray), bg: None, bold: false });
    assert_eq!(theme.title(true), Style { fg: Some(Color::Reset), bg: None, bold: true });
    assert_eq!(theme.text(true, false), Style { fg: Some(Color::Blue), bg: None, bold: false });
    assert_eq!(theme.text(false, true), Style { fg: None, bg: Some(Color::DarkGray), bold: false });
    assert_eq!(theme.text(true, true), Style { fg: Some(Color::White), bg: None, bold: false });
    assert_eq!(theme.tab(false, false), Style { fg: Some(Color::DarkGray), bg: None, bold: false });
    assert_eq!(theme.tab(true, true), Style { fg: Some(Color::Yellow), bg: Some(Color::Reset), bold: true });
    assert_eq!(theme.commandbar(true, 0), Style { fg: Some(Color::White), bg: Some(Color::Blue), bold: false });
    assert_eq!(theme.commandbar(false, 2), Style { fg: Some(Color::DarkGray), bg: Some(Color::Blue), bold: false });
    assert_eq!(
        theme.apply_select(Style::default(), true),
        Style { fg: Some(Color::White), bg: Some(Color::Blue), bold: false }
    );
    assert_eq!(theme.apply_select(Style::default(), false), Style::default());
    assert_eq!(theme.text_danger(), Style { fg: Some(Color::Red), bg: None, bold: false });
    assert_eq!(theme.scroll_bar_pos(), Style { fg: Some(Color::Blue), bg: None, bold: false });
    assert_eq!(Theme::attention_block(), Style { fg: Some(Color::Yellow), bg: None, bold: false });
    let custom = Theme::init(Some(ThemePatch { line_break: Some("~".to_string()), ..empty_theme_patch() }));
    assert_eq!(custom.line_break(), "~");
}
