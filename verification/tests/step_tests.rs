use classql::dsl::compiler::{Compilation, Compiler};
use classql::tui::nav::{KeyPress, SettingsStep, UiKey};
use classql::tui::state::{ErrorType, FocusMode};
use classql::tui::step::{toggle_in_cart, ui_step, UiAction, UiState};

fn key(k: UiKey) -> KeyPress {
    KeyPress { key: k, ctrl: false, alt: false }
}

fn typed(state: &mut UiState, text: &str) {
    for c in text.chars() {
        assert_eq!(ui_step(state, key(UiKey::Char(c)), None), UiAction::Redraw);
    }
}

fn in_query_input(school: Option<&str>, term: Option<&str>) -> UiState {
    let mut s = UiState::new(9, school.map(|x| x.to_string()), term.map(|x| x.to_string()));
    assert_eq!(ui_step(&mut s, key(UiKey::Enter), None), UiAction::Redraw);
    assert_eq!(s.focus, FocusMode::QueryInput);
    s
}

#[test]
fn enter_without_a_school_warns_and_compiles_nothing() {
    let mut s = in_query_input(None, None);
    typed(&mut s, "prof is smith");
    s.results_count = 4;
    assert_eq!(ui_step(&mut s, key(UiKey::Enter), None), UiAction::Redraw);
    assert_eq!(s.notice, Some(("Please select a school first (Settings \u{2192} School)".to_string(), ErrorType::Warning)));
    assert_eq!(s.results_count, 4);
    assert_eq!(s.input, "prof is smith");

    let mut s = in_query_input(Some("uni"), None);
    assert_eq!(ui_step(&mut s, key(UiKey::Enter), None), UiAction::Redraw);
    assert_eq!(s.notice, Some(("Please select a term first (Settings \u{2192} Term)".to_string(), ErrorType::Warning)));
}

#[test]
fn enter_with_a_school_and_term_compiles_then_queries() {
    let mut s = in_query_input(Some("uni"), Some("fall"));
    typed(&mut s, "prof is smith");
    assert_eq!(ui_step(&mut s, key(UiKey::Enter), None), UiAction::Compile("prof is smith".to_string()));
    let compiled = Compiler::new().compile("prof is smith");
    match ui_step(&mut s, key(UiKey::Enter), compiled) {
        UiAction::Query { sql, params, use_test_db } => {
            assert!(sql.ends_with("LOWER(p.name) = LOWER(?) OR LOWER(p.email_address) = LOWER(?))"));
            assert_eq!(params, vec!["smith".to_string(), "smith".to_string()]);
            assert!(!use_test_db);
        }
        other => panic!("unexpected {:?}", other),
    }
    s.grid.selected = 5;
    s.results_loaded(7);
    assert_eq!(s.results_count, 7);
    assert_eq!((s.grid.selected, s.grid.scroll), (0, 0));
    assert!(s.notice.is_none());
    assert!(s.positions.is_empty());
}

#[test]
fn a_failed_compilation_keeps_the_results() {
    let mut s = in_query_input(Some("_test"), None);
    s.results_count = 3;
    s.grid.selected = 2;
    typed(&mut s, "prof is #");
    let compiled = Compiler::new().compile("prof is #");
    assert!(matches!(compiled, Some(Compilation::LexerError { .. })));
    assert_eq!(ui_step(&mut s, key(UiKey::Enter), compiled), UiAction::Redraw);
    assert_eq!(s.notice, Some(("Unrecognized character: '#'".to_string(), ErrorType::Lexer)));
    assert_eq!(s.positions, vec![(8, 9)]);
    assert_eq!(s.results_count, 3);
    assert_eq!(s.grid.selected, 2);
    assert_eq!(ui_step(&mut s, key(UiKey::Backspace), None), UiAction::Redraw);
    assert!(s.notice.is_none());
    assert!(s.positions.is_empty());
    assert_eq!(s.input, "prof is ");
}

#[test]
fn the_menu_wraps_and_opens_its_entries() {
    let mut s = UiState::new(9, None, None);
    assert_eq!(ui_step(&mut s, key(UiKey::Up), None), UiAction::Redraw);
    assert_eq!(s.menu_index, 5);
    assert_eq!(ui_step(&mut s, key(UiKey::Enter), None), UiAction::Quit);
    assert_eq!(ui_step(&mut s, key(UiKey::Down), None), UiAction::Redraw);
    assert_eq!(s.menu_index, 0);
    s.menu_index = 1;
    assert_eq!(ui_step(&mut s, key(UiKey::Enter), None), UiAction::Redraw);
    assert_eq!(s.notice, Some(("Cart is empty! Add classes to cart first.".to_string(), ErrorType::Semantic)));
    assert_eq!(s.focus, FocusMode::MainMenu);
    s.menu_index = 2;
    assert_eq!(ui_step(&mut s, key(UiKey::Enter), None), UiAction::LoadSchedules);
    s.menu_index = 4;
    assert_eq!(ui_step(&mut s, key(UiKey::Enter), None), UiAction::LoadSettings);
    assert_eq!(s.focus, FocusMode::Settings);
    assert_eq!(ui_step(&mut s, key(UiKey::Esc), None), UiAction::Redraw);
    assert_eq!(s.focus, FocusMode::MainMenu);
    assert_eq!(ui_step(&mut s, KeyPress { key: UiKey::Char('c'), ctrl: true, alt: false }, None), UiAction::Quit);
}

#[test]
fn the_results_grid_moves_and_returns_to_the_query() {
    let mut s = in_query_input(Some("_test"), None);
    s.results_count = 7;
    assert_eq!(ui_step(&mut s, key(UiKey::Down), None), UiAction::Redraw);
    assert_eq!(s.focus, FocusMode::ResultsBrowse);
    ui_step(&mut s, key(UiKey::Down), None);
    assert_eq!(s.grid.selected, 3);
    ui_step(&mut s, key(UiKey::Right), None);
    assert_eq!(s.grid.selected, 4);
    ui_step(&mut s, key(UiKey::Enter), None);
    assert_eq!(s.focus, FocusMode::DetailView);
    ui_step(&mut s, key(UiKey::Esc), None);
    assert_eq!(s.focus, FocusMode::ResultsBrowse);
    ui_step(&mut s, key(UiKey::Up), None);
    assert_eq!(s.grid.selected, 1);
    ui_step(&mut s, key(UiKey::Up), None);
    assert_eq!(s.focus, FocusMode::QueryInput);
    assert_eq!(ui_step(&mut s, key(UiKey::Tab), None), UiAction::Complete);
}

#[test]
fn schedules_cycle_with_the_page_keys() {
    let mut s = UiState::new(9, None, None);
    s.focus = FocusMode::ScheduleCreation;
    s.selection_mode = false;
    s.schedule_count = 3;
    ui_step(&mut s, key(UiKey::PageUp), None);
    assert_eq!(s.schedule_index, 2);
    ui_step(&mut s, key(UiKey::PageDown), None);
    assert_eq!(s.schedule_index, 0);
    ui_step(&mut s, key(UiKey::Left), None);
    assert_eq!((s.day, s.slot), (6, 0));
    ui_step(&mut s, key(UiKey::Up), None);
    assert_eq!((s.day, s.slot), (6, 28));
    ui_step(&mut s, key(UiKey::Char('s')), None);
    assert_eq!(s.focus, FocusMode::SaveNameInput);
    assert_eq!(ui_step(&mut s, key(UiKey::Enter), None), UiAction::Redraw);
    assert_eq!(s.notice, Some(("Schedule name cannot be empty!".to_string(), ErrorType::Semantic)));
    typed(&mut s, " fall ");
    assert_eq!(ui_step(&mut s, key(UiKey::Enter), None), UiAction::Save("fall".to_string()));
    assert_eq!(ui_step(&mut s, key(UiKey::Esc), None), UiAction::Redraw);
    assert_eq!(s.focus, FocusMode::ScheduleCreation);
}

#[test]
fn saved_schedules_open_and_cycle() {
    let mut s = UiState::new(9, None, None);
    s.menu_index = 2;
    assert_eq!(ui_step(&mut s, key(UiKey::Enter), None), UiAction::LoadSchedules);
    s.schedules_loaded(3);
    assert_eq!(s.focus, FocusMode::MySchedules);
    assert_eq!((s.saved_index, s.saved_count), (0, 3));
    ui_step(&mut s, key(UiKey::Down), None);
    assert_eq!(s.saved_index, 1);
    assert_eq!(ui_step(&mut s, key(UiKey::Enter), None), UiAction::ShowSaved(1));
    assert_eq!(s.focus, FocusMode::ScheduleCreation);
    assert_eq!(ui_step(&mut s, key(UiKey::PageDown), None), UiAction::ShowSaved(2));
    assert_eq!(ui_step(&mut s, key(UiKey::PageDown), None), UiAction::ShowSaved(0));
    assert_eq!(ui_step(&mut s, key(UiKey::Esc), None), UiAction::Redraw);
    assert_eq!(s.focus, FocusMode::MySchedules);
    assert_eq!(ui_step(&mut s, key(UiKey::Char('d')), None), UiAction::DeleteSaved(0));
}

#[test]
fn settings_pick_a_school_then_a_term() {
    let mut s = UiState::new(9, None, None);
    s.focus = FocusMode::Settings;
    ui_step(&mut s, key(UiKey::Down), None);
    assert_eq!(s.settings_index, 1);
    assert_eq!(ui_step(&mut s, key(UiKey::Enter), None), UiAction::SettingsEnter(1));
    s.choices_loaded(3, 0);
    s.settings_applied(SettingsStep::OpenSchoolPicker(0));
    assert!(s.school_picker_open);
    ui_step(&mut s, key(UiKey::Down), None);
    assert_eq!(s.school_picker.index, 1);
    s.settings_applied(SettingsStep::SelectSchool { id: "uni".to_string(), notice: "Selected: Uni".to_string() });
    assert_eq!(s.school_id, Some("uni".to_string()));
    assert_eq!(s.term_id, None);
    assert!(!s.school_picker_open);
    assert_eq!(s.notice, Some(("Selected: Uni".to_string(), ErrorType::Success)));
    s.settings_applied(SettingsStep::SelectTerm { id: "fall".to_string(), notice: "Selected: Fall".to_string() });
    assert_eq!(s.term_id, Some("fall".to_string()));
    assert_eq!(s.settings_applied(SettingsStep::Sync), UiAction::Sync);
    s.settings_index = 0;
    let before = s.theme;
    ui_step(&mut s, key(UiKey::Right), None);
    assert_ne!(s.theme, before);
    ui_step(&mut s, key(UiKey::Left), None);
    assert_eq!(s.theme, before);
    ui_step(&mut s, key(UiKey::Esc), None);
    assert_eq!(s.focus, FocusMode::MainMenu);
}

#[test]
fn the_cart_toggles_classes() {
    let mut cart: Vec<String> = Vec::new();
    assert!(toggle_in_cart(&mut cart, "CS:101-1"));
    assert!(toggle_in_cart(&mut cart, "MA:200-2"));
    assert_eq!(cart, vec!["CS:101-1".to_string(), "MA:200-2".to_string()]);
    assert!(!toggle_in_cart(&mut cart, "CS:101-1"));
    assert_eq!(cart, vec!["MA:200-2".to_string()]);
    let mut s = UiState::new(9, None, None);
    s.cart_index = 1;
    s.cart_changed(cart.len());
    assert_eq!((s.cart_count, s.cart_index), (1, 0));
}

#[test]
fn the_calendar_keys_stay_in_the_week() {
    let mut s = UiState::new(9, None, None);
    s.focus = FocusMode::ScheduleCreation;
    s.selection_mode = false;
    s.schedule_count = 4;
    s.schedule_index = 3;
    s.day = 6;
    s.slot = 28;
    ui_step(&mut s, key(UiKey::PageDown), None);
    assert_eq!(s.schedule_index, 0);
    ui_step(&mut s, key(UiKey::Down), None);
    assert_eq!(s.slot, 0);
    ui_step(&mut s, key(UiKey::Right), None);
    assert_eq!(s.day, 0);
    s.focus = FocusMode::QueryGuide;
    s.guide_return = FocusMode::MainMenu;
    s.guide_scroll = 5;
    ui_step(&mut s, key(UiKey::Esc), None);
    assert_eq!((s.focus, s.guide_scroll), (FocusMode::MainMenu, 0));
}
