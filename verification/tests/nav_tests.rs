use classql::dsl::compiler::Compiler;
use classql::tui::nav::{
    after_removal, calendar_move, clamp_guide_scroll, complete_query, completion_hint, completion_move,
    cursor_blinks, cycle, detail_exit, enters_creation_mode, grid_down, grid_left, grid_right, grid_up,
    guide_scroll, highlighted, insert_completion, is_problematic, try_insert_completion, list_move, notice_height, partial_word,
    picker_move, results_page, save_name_key, save_prompt_area, saved_list_area, saved_lines, search_help,
    settings_move, tab_result, theme_step, toast_expired, wrap_move, Area, EditKey, GridMove,
    GridPosition, NavKey, PickerPosition, SaveNameStep,
};
use classql::data::sql::{School, Term};
use classql::tui::nav::{
    compilation_notice, detail_view_key, query_precheck, saved_list_key, settings_enter, DetailStep, KeyPress,
    ListStep, SettingsStep, SettingsView, UiKey,
};
use classql::tui::state::{ErrorType, FocusMode};
use classql::tui::themes::ThemePalette;

fn pos(selected: usize, scroll: usize) -> GridPosition {
    GridPosition { selected, scroll }
}

#[test]
fn grid_moves_by_rows_and_columns() {
    assert_eq!(grid_up(pos(0, 0)), GridMove::ToQueryInput);
    assert_eq!(grid_up(pos(2, 0)), GridMove::ToQueryInput);
    assert_eq!(grid_up(pos(7, 6)), GridMove::Stay(pos(4, 3)));
    assert_eq!(grid_up(pos(7, 0)), GridMove::Stay(pos(4, 0)));
    assert_eq!(grid_down(pos(1, 0), 10, 6), pos(4, 0));
    assert_eq!(grid_down(pos(4, 0), 10, 6), pos(7, 3));
    assert_eq!(grid_down(pos(8, 3), 10, 6), pos(8, 3));
    assert_eq!(grid_down(pos(1, 5), 8, 9), pos(4, 0));
    assert_eq!(grid_left(pos(3, 3)), pos(2, 2));
    assert_eq!(grid_left(pos(0, 0)), pos(0, 0));
    assert_eq!(grid_right(pos(5, 0), 10, 6), pos(6, 1));
    assert_eq!(grid_right(pos(9, 4), 10, 6), pos(9, 4));
}

#[test]
fn guide_and_results_scroll_within_bounds() {
    assert_eq!(guide_scroll(NavKey::Down, 4, 5), 5);
    assert_eq!(guide_scroll(NavKey::Down, 5, 5), 5);
    assert_eq!(guide_scroll(NavKey::Down, 5, 0), 6);
    assert_eq!(guide_scroll(NavKey::PageUp, 7, 50), 0);
    assert_eq!(guide_scroll(NavKey::PageDown, 7, 12), 12);
    assert_eq!(guide_scroll(NavKey::End, 7, 0), 10000);
    assert_eq!(guide_scroll(NavKey::Home, 7, 12), 0);
    assert_eq!(clamp_guide_scroll(30, 12), 12);
    assert_eq!(clamp_guide_scroll(30, 0), 0);
    assert_eq!(results_page(true, 2, 20), 0);
    assert_eq!(results_page(false, 15, 20), 17);
    assert_eq!(results_page(false, 3, 20), 6);
}

#[test]
fn pickers_keep_the_selection_in_view() {
    let p = PickerPosition { index: 5, offset: 0 };
    assert_eq!(picker_move(false, p, 10), PickerPosition { index: 6, offset: 1 });
    assert_eq!(picker_move(false, PickerPosition { index: 9, offset: 4 }, 10), PickerPosition { index: 9, offset: 4 });
    assert_eq!(picker_move(true, PickerPosition { index: 4, offset: 4 }, 10), PickerPosition { index: 3, offset: 3 });
    assert_eq!(settings_move(false, 3), 3);
    assert_eq!(settings_move(true, 0), 0);
    assert_eq!(wrap_move(true, 0, 6), 5);
    assert_eq!(wrap_move(false, 5, 6), 0);
}

#[test]
fn themes_cycle_both_ways() {
    assert_eq!(theme_step(ThemePalette::Default, true), ThemePalette::Dark);
    assert_eq!(theme_step(ThemePalette::Default, false), ThemePalette::Sunset);
    assert_eq!(theme_step(ThemePalette::Sunset, true), ThemePalette::Default);
    assert_eq!(theme_step(theme_step(ThemePalette::Ocean, true), false), ThemePalette::Ocean);
}

#[test]
fn calendar_and_schedules_wrap_around() {
    assert_eq!(calendar_move(NavKey::Up, 2, 0), (2, 28));
    assert_eq!(calendar_move(NavKey::Down, 2, 28), (2, 0));
    assert_eq!(calendar_move(NavKey::Left, 0, 5), (6, 5));
    assert_eq!(calendar_move(NavKey::Right, 6, 5), (0, 5));
    assert_eq!(cycle(true, 0, 4), 3);
    assert_eq!(cycle(false, 3, 4), 0);
    assert_eq!(cycle(false, 2, 0), 2);
    assert_eq!(list_move(false, 2, 3), 2);
    assert_eq!(list_move(false, 0, 0), 0);
    assert_eq!(after_removal(4, 4), 3);
    assert_eq!(after_removal(1, 4), 1);
    assert_eq!(after_removal(0, 0), 0);
}

#[test]
fn focus_rules() {
    assert_eq!(detail_exit(FocusMode::MySchedules), FocusMode::ScheduleCreation);
    assert_eq!(detail_exit(FocusMode::ResultsBrowse), FocusMode::ResultsBrowse);
    assert!(enters_creation_mode(FocusMode::MainMenu, false));
    assert!(!enters_creation_mode(FocusMode::MainMenu, true));
    assert!(!enters_creation_mode(FocusMode::SaveNameInput, false));
    assert!(toast_expired(3_000_000_001));
    assert!(!toast_expired(3_000_000_000));
    assert!(cursor_blinks(500_000_001));
    assert!(!cursor_blinks(499_999_999));
}

#[test]
fn tab_completion_filters_by_the_partial_word() {
    assert_eq!(partial_word("prof Is"), "is");
    assert_eq!(partial_word("prof is "), "");
    assert_eq!(partial_word(""), "");
    let suggestions = vec!["is".to_string(), "equals".to_string(), "contains".to_string()];
    let r = tab_result("prof e", suggestions.clone());
    assert_eq!(r.partial_word, "e");
    assert_eq!(r.completions, vec!["equals".to_string()]);
    assert!(r.hint.is_none());
    let r = tab_result("prof x", suggestions.clone());
    assert_eq!(r.partial_word, "");
    assert_eq!(r.completions, suggestions);
    let r = tab_result("title contains", Vec::new());
    assert!(r.completions.is_empty());
    assert_eq!(r.hint, Some("Enter a value in quotes, e.g. \"Computer Science\"".to_string()));
    assert_eq!(completion_hint("credit hours"), "Enter an operator (=, <, >, etc.) then a number");
    assert_eq!(completion_hint("prof smith"), "");
}

#[test]
fn tab_completion_asks_the_compiler() {
    let mut compiler = Compiler::new();
    let r = complete_query(&mut compiler, "cred").expect("completes");
    assert_eq!(r.partial_word, "cred");
    assert_eq!(r.completions, vec!["credit".to_string()]);
    let r = complete_query(&mut compiler, "prof is smith ").expect("completes");
    assert_eq!(r.partial_word, "");
    assert_eq!(r.completions, vec!["and".to_string(), "or".to_string()]);
}

#[test]
fn choosing_a_completion_edits_the_input() {
    assert_eq!(insert_completion("prof e", "e", "equals"), "prof equals ");
    assert_eq!(insert_completion("prof", "", "is"), "prof is ");
    assert_eq!(insert_completion("prof ", "", "is"), "prof is ");
    assert_eq!(insert_completion("prof is ", "", "\"text\""), "prof is \"text\"");
    assert_eq!(insert_completion("prof is ", "", "<value>"), "prof is ");
    assert_eq!(completion_move(false, Some(2), 3), Some(0));
    assert_eq!(completion_move(true, Some(0), 3), Some(0));
    assert_eq!(completion_move(false, None, 3), None);
}

#[test]
fn naming_a_schedule() {
    let mut name = String::from("  ");
    assert_eq!(save_name_key(&mut name, EditKey::Enter, false), SaveNameStep::EmptyName);
    assert_eq!(save_name_key(&mut name, EditKey::Char('A'), false), SaveNameStep::Continue);
    assert_eq!(name, "  A");
    assert_eq!(save_name_key(&mut name, EditKey::Enter, false), SaveNameStep::Save("A".to_string()));
    assert_eq!(save_name_key(&mut name, EditKey::Backspace, false), SaveNameStep::Continue);
    assert_eq!(name, "  ");
    assert_eq!(save_name_key(&mut name, EditKey::Char('c'), true), SaveNameStep::Exit);
    assert_eq!(save_name_key(&mut name, EditKey::Esc, false), SaveNameStep::Cancel);
    assert_eq!(name, "");
}

#[test]
fn screen_pieces() {
    let ranges = vec![(2usize, 4usize), (7, 8)];
    assert!(is_problematic(3, &ranges));
    assert!(!is_problematic(4, &ranges));
    assert_eq!(highlighted("ab#d", &ranges), vec![false, false, true, true]);
    assert_eq!(search_help("", false), Some("Type a ClassQL query (e.g., 'prof is Alan')"));
    assert_eq!(search_help("x", false), Some("Press Enter to Search, Esc to Exit"));
    assert_eq!(search_help("x", true), None);
    assert_eq!(notice_height(3), 5);
    assert_eq!(notice_height(30), 10);
    assert_eq!(saved_list_area(80, 40), Area { x: 15, y: 13, width: 50, height: 15 });
    assert_eq!(saved_list_area(30, 25), Area { x: 2, y: 13, width: 26, height: 5 });
    assert_eq!(save_prompt_area(80, 25), Area { x: 20, y: 10, width: 40, height: 5 });
    assert_eq!(saved_lines(&Vec::new(), 0), vec!["No saved schedules yet.".to_string()]);
    assert_eq!(
        saved_lines(&vec!["a".to_string(), "b".to_string()], 1),
        vec!["  a".to_string(), "\u{25b8} b".to_string()]
    );
}

fn press(key: UiKey) -> KeyPress {
    KeyPress { key, ctrl: false, alt: false }
}

#[test]
fn detail_view_keys() {
    assert_eq!(detail_view_key(press(UiKey::Esc), FocusMode::MySchedules), DetailStep::Navigate(FocusMode::ScheduleCreation));
    assert_eq!(detail_view_key(press(UiKey::Enter), FocusMode::ResultsBrowse), DetailStep::Navigate(FocusMode::ResultsBrowse));
    assert_eq!(detail_view_key(KeyPress { key: UiKey::Char('g'), ctrl: false, alt: true }, FocusMode::ResultsBrowse), DetailStep::OpenGuide);
    assert_eq!(detail_view_key(press(UiKey::Char('C')), FocusMode::ResultsBrowse), DetailStep::ToggleCart);
    assert_eq!(detail_view_key(press(UiKey::Char('c')), FocusMode::ScheduleCreation), DetailStep::Continue);
    assert_eq!(detail_view_key(press(UiKey::Char('g')), FocusMode::ResultsBrowse), DetailStep::Continue);
}

#[test]
fn saved_schedule_list_keys() {
    assert_eq!(saved_list_key(KeyPress { key: UiKey::Char('c'), ctrl: true, alt: false }, 0, 2), ListStep::Exit);
    assert_eq!(saved_list_key(press(UiKey::Esc), 0, 2), ListStep::Navigate(FocusMode::MainMenu));
    assert_eq!(saved_list_key(press(UiKey::Down), 0, 2), ListStep::Moved(1));
    assert_eq!(saved_list_key(press(UiKey::Down), 1, 2), ListStep::Moved(1));
    assert_eq!(saved_list_key(press(UiKey::Up), 0, 2), ListStep::Moved(0));
    assert_eq!(saved_list_key(press(UiKey::Enter), 1, 2), ListStep::Open(1));
    assert_eq!(saved_list_key(press(UiKey::Enter), 0, 0), ListStep::Continue);
    assert_eq!(saved_list_key(press(UiKey::Char('D')), 1, 2), ListStep::Delete(1));
}

#[test]
fn settings_enter_selects_and_opens_pickers() {
    let schools = vec![
        School { id: "a".to_string(), name: "Alpha".to_string() },
        School { id: "b".to_string(), name: "Beta".to_string() },
    ];
    let terms = vec![Term { id: "t1".to_string(), school_id: "b".to_string(), name: "Fall".to_string(), year: 2024, season: "Fall".to_string() }];
    let none: Option<String> = None;
    let b = Some("b".to_string());
    let v = SettingsView { entry: 1, school_picker_open: false, term_picker_open: false, schools: &schools, terms: &terms, school_index: 0, term_index: 0, school_id: &b, term_id: &none, syncing: false };
    assert_eq!(settings_enter(v), SettingsStep::OpenSchoolPicker(1));
    let v = SettingsView { entry: 1, school_picker_open: true, term_picker_open: false, schools: &schools, terms: &terms, school_index: 0, term_index: 0, school_id: &b, term_id: &none, syncing: false };
    assert_eq!(settings_enter(v), SettingsStep::SelectSchool { id: "a".to_string(), notice: "Selected: Alpha".to_string() });
    let empty: Vec<School> = Vec::new();
    let v = SettingsView { entry: 1, school_picker_open: false, term_picker_open: false, schools: &empty, terms: &terms, school_index: 0, term_index: 0, school_id: &none, term_id: &none, syncing: false };
    assert_eq!(settings_enter(v), SettingsStep::Notice("No schools available. Sync first!".to_string(), ErrorType::Warning));
    let v = SettingsView { entry: 2, school_picker_open: false, term_picker_open: false, schools: &schools, terms: &terms, school_index: 0, term_index: 0, school_id: &none, term_id: &none, syncing: false };
    assert_eq!(settings_enter(v), SettingsStep::Notice("Select a school first!".to_string(), ErrorType::Warning));
    let v = SettingsView { entry: 2, school_picker_open: false, term_picker_open: false, schools: &schools, terms: &terms, school_index: 0, term_index: 0, school_id: &b, term_id: &none, syncing: false };
    assert_eq!(settings_enter(v), SettingsStep::OpenTermPicker(0));
    let v = SettingsView { entry: 2, school_picker_open: false, term_picker_open: true, schools: &schools, terms: &terms, school_index: 0, term_index: 0, school_id: &b, term_id: &none, syncing: false };
    assert_eq!(settings_enter(v), SettingsStep::SelectTerm { id: "t1".to_string(), notice: "Selected: Fall".to_string() });
    let v = SettingsView { entry: 3, school_picker_open: false, term_picker_open: false, schools: &schools, terms: &terms, school_index: 0, term_index: 0, school_id: &b, term_id: &none, syncing: false };
    assert_eq!(settings_enter(v), SettingsStep::Sync);
    let v = SettingsView { entry: 3, school_picker_open: false, term_picker_open: false, schools: &schools, terms: &terms, school_index: 0, term_index: 0, school_id: &b, term_id: &none, syncing: true };
    assert_eq!(settings_enter(v), SettingsStep::Nothing);
}

#[test]
fn queries_need_a_school_and_term() {
    assert_eq!(query_precheck(&None, &None), Some("Please select a school first (Settings \u{2192} School)".to_string()));
    assert_eq!(
        query_precheck(&Some("marist".to_string()), &None),
        Some("Please select a term first (Settings \u{2192} Term)".to_string())
    );
    assert_eq!(query_precheck(&Some("_test".to_string()), &None), None);
    assert_eq!(query_precheck(&Some("marist".to_string()), &Some("2024".to_string())), None);
}

#[test]
fn compiled_queries_give_notices() {
    let compiler = Compiler::new();
    let c = compiler.compile("prof is #").expect("compiles");
    assert_eq!(
        compilation_notice(&c),
        Some(("Unrecognized character: '#'".to_string(), ErrorType::Lexer, vec![(8, 9)]))
    );
    let c = compiler.compile("prof is").expect("compiles");
    assert_eq!(compilation_notice(&c), Some(("Missing: professor name or email".to_string(), ErrorType::Parser, vec![])));
    let c = compiler.compile("prof is smith").expect("compiles");
    assert_eq!(compilation_notice(&c), None);
}

#[test]
fn try_insert_completion_refuses_a_cut_inside_a_character() {
    assert_eq!(try_insert_completion("prof e", "e", "equals"), Some("prof equals ".to_string()));
    assert_eq!(try_insert_completion("prof is ", "", "<value>"), Some("prof is ".to_string()));
    assert_eq!(try_insert_completion("é", "x", "xyz"), None);
    assert_eq!(try_insert_completion("é", "x", "<xyz>"), Some("é".to_string()));
    assert_eq!(try_insert_completion("é", "x", "abc"), Some("é abc ".to_string()));
}
