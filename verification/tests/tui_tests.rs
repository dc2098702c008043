use classql::tui::errors::{make_user_friendly_for_completion, AppError, SyntaxError, TUIError};
use classql::tui::save::{
    class_id_condition, newest_first, read_save_file, restore_order, save_content, save_file_name,
    saved_classes_sql, schedule_uses_test_db,
};
use classql::tui::state::{ErrorType, FocusMode};
use classql::tui::themes::{Color, ThemePalette};

#[test]
fn themes() {
    let all = ThemePalette::all();
    assert_eq!(all.len(), 13);
    assert_eq!(all[0].as_str(), "Default");
    assert_eq!(all[12].as_str(), "Sunset");
    for p in &all {
        assert_eq!(p.to_theme().name, p.as_str());
    }
    let t = ThemePalette::Default.to_theme();
    assert_eq!(t.border_color, Color::Red);
    assert_eq!(t.background_color, Color::Rgb(255, 255, 255));
    assert_eq!(ThemePalette::Dark.to_theme().background_color, Color::Rgb(18, 18, 18));
}

#[test]
fn interface_states() {
    assert_eq!(FocusMode::Help, FocusMode::Help.clone());
    assert!(FocusMode::Help != FocusMode::Settings);
    let _ = ErrorType::Lexer.clone();
}

#[test]
fn error_messages() {
    assert_eq!(TUIError::TerminalError("x".to_string()).to_string(), "Terminal error: x");
    assert_eq!(AppError::Empty.to_string(), "No error");
    assert_eq!(
        AppError::SyntaxError(SyntaxError::UnclosedParenthesis).to_string(),
        "Syntax error: Missing closing parenthesis ')'"
    );
    assert_eq!(AppError::UnrecognizedTokens("m".to_string(), vec![]).to_string(), "Unrecognized tokens: m");
    let e = SyntaxError::ExpectedAfter {
        expected: vec!["prof".to_string(), "course".to_string()],
        after: "start of query".to_string(),
        position: 0,
    };
    assert_eq!(e.to_string(), "Please start with one of: 'professor', 'course'");
    let e = SyntaxError::InvalidContext {
        token: "T_CONTAINS".to_string(),
        context: "string condition".to_string(),
        suggestions: vec![],
    };
    assert_eq!(e.to_string(), "'contains' is not valid here (when searching)");
    let bad = SyntaxError::InvalidContext {
        token: "x')('y".to_string(),
        context: "c".to_string(),
        suggestions: vec![],
    };
    assert!(!bad.renders());
    assert_eq!(make_user_friendly_for_completion("prof"), "professor");
    assert_eq!(make_user_friendly_for_completion("Credit_Hours"), "credit hours");
}

#[test]
fn save_files_round_trip() {
    assert_eq!(save_file_name(1700000000), "1700000000.sav");
    let ids = vec!["CS:101-001".to_string(), "MATH:200-002".to_string()];
    let content = save_content("Fall plan", Some("s1"), None, &ids);
    assert_eq!(content, "Fall plan\ns1\n\nCS:101-001\nMATH:200-002\n");
    let file = read_save_file(&content, Some("1700000000")).expect("file reads back");
    assert_eq!(file.name, "Fall plan");
    assert_eq!(file.timestamp, 1700000000);
    assert_eq!(file.school_id, Some("s1".to_string()));
    assert_eq!(file.term_id, None);
    assert_eq!(file.class_ids, ids);
}

#[test]
fn save_file_errors() {
    assert_eq!(read_save_file("", Some("1")).err(), Some("Empty save file".to_string()));
    assert_eq!(read_save_file("a\nb\nc", None).err(), Some("Invalid filename".to_string()));
    assert_eq!(read_save_file("a\nb\nc", Some("x1")).err(), Some("Invalid timestamp in filename".to_string()));
    assert_eq!(read_save_file("a\nb", Some("1")).err(), Some("Invalid save file format".to_string()));
    let file = read_save_file("a\r\n\r\n\r\n\r\nX:1-2\r\n", Some("7")).expect("file reads");
    assert_eq!(file.school_id, None);
    assert_eq!(file.class_ids, vec!["X:1-2".to_string()]);
}

#[test]
fn saved_class_queries() {
    assert_eq!(
        class_id_condition("CS:101-001"),
        Some("(s.subject_code = 'CS' AND s.course_number = '101' AND s.sequence = '001')".to_string())
    );
    assert_eq!(
        class_id_condition("O'B:1-2"),
        Some("(s.subject_code = 'O''B' AND s.course_number = '1' AND s.sequence = '2')".to_string())
    );
    assert_eq!(class_id_condition("bad"), None);
    assert_eq!(class_id_condition("A:B-C-D"), None);
    assert_eq!(class_id_condition("A:B:C-D"), None);
    let ids = vec!["CS:101-001".to_string(), "junk".to_string()];
    let sql = saved_classes_sql(&ids, Some("s1"), Some("t1")).expect("a query");
    assert!(sql.starts_with("SELECT c.subject_code"));
    assert!(sql.contains(
        "WHERE ((s.subject_code = 'CS' AND s.course_number = '101' AND s.sequence = '001')) AND s.school_id = 's1' AND s.term_collection_id = 't1' GROUP BY"
    ));
    let sql = saved_classes_sql(&ids, Some("_test"), None).expect("a query");
    assert!(sql.contains("WHERE (s.subject_code = 'CS' AND s.course_number = '101' AND s.sequence = '001') GROUP BY"));
    assert_eq!(saved_classes_sql(&vec!["junk".to_string()], None, None), None);
    assert!(schedule_uses_test_db(Some("_test")));
    assert!(!schedule_uses_test_db(None));
}

#[test]
fn saved_order_and_listing() {
    let saved: Vec<String> = ["a", "b", "a", "c"].iter().map(|s| s.to_string()).collect();
    let loaded: Vec<String> = ["b", "a", "x", "a"].iter().map(|s| s.to_string()).collect();
    assert_eq!(restore_order(&saved, &loaded), vec![3, 0]);
    assert_eq!(newest_first(&vec![5, 9, 5, 1]), vec![1, 0, 2, 3]);
    assert_eq!(newest_first(&vec![]), Vec::<usize>::new());
}
