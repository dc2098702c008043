use classql::dsl::compiler::{Compilation, Compiler};

#[test]
fn compiles_a_query_to_sql() {
    let compiler = Compiler::new();
    match compiler.compile("prof is smith") {
        Some(Compilation::Ready { sql, params, ast, use_test_db }) => {
            assert!(sql.ends_with("WHERE (LOWER(p.name) = LOWER(?) OR LOWER(p.email_address) = LOWER(?))"));
            assert_eq!(params, vec!["smith".to_string(), "smith".to_string()]);
            assert!(!sql.contains('\''));
            assert!(ast.head.is_some());
            assert!(!use_test_db);
        }
        _ => panic!("expected SQL"),
    }
}

#[test]
fn the_test_school_uses_the_test_database() {
    let mut compiler = Compiler::new();
    compiler.set_school_id(Some("_test".to_string()));
    compiler.set_term_id(Some("2024-fall".to_string()));
    match compiler.compile("monday") {
        Some(Compilation::Ready { use_test_db, sql, .. }) => {
            assert!(use_test_db);
            assert!(sql.ends_with("WHERE mt.is_monday = 1"));
        }
        _ => panic!("expected SQL"),
    }
    compiler.set_school_id(None);
    match compiler.compile("monday") {
        Some(Compilation::Ready { use_test_db, .. }) => assert!(!use_test_db),
        _ => panic!("expected SQL"),
    }
}

#[test]
fn lexer_errors_come_first() {
    match Compiler::new().compile("prof is #") {
        Some(Compilation::LexerError { message, problematic_positions }) => {
            assert_eq!(message, "Unrecognized character: '#'");
            assert_eq!(problematic_positions, vec![(8, 9)]);
        }
        _ => panic!("expected a lexer error"),
    }
}

#[test]
fn parser_errors_are_explained() {
    match Compiler::new().compile("prof is") {
        Some(Compilation::ParserError { message, problematic_positions }) => {
            assert_eq!(message, "Missing: professor name or email");
            assert!(problematic_positions.is_empty());
        }
        _ => panic!("expected a parser error"),
    }
    match Compiler::new().compile("prof is smith extra") {
        Some(Compilation::ParserError { message, problematic_positions }) => {
            assert_eq!(message, "'extra' is not valid here. Try: 'and', 'or', 'remove extra words'");
            assert_eq!(problematic_positions, vec![(14, 19)]);
        }
        _ => panic!("expected a parser error"),
    }
    match Compiler::new().compile("") {
        Some(Compilation::ParserError { message, .. }) => {
            assert_eq!(message, "Please enter a query to search");
        }
        _ => panic!("expected an empty query"),
    }
    match Compiler::new().compile("credit") {
        Some(Compilation::ParserError { message, .. }) => {
            assert_eq!(message, "After 'credit', please add: 'hours'");
        }
        _ => panic!("expected a parser error"),
    }
}

#[test]
fn semantic_errors_are_explained() {
    match Compiler::new().compile("monday is maybe") {
        Some(Compilation::SemanticError { message, problematic_positions }) => {
            assert_eq!(message, "'maybe' is not valid here. Try: 'true', 'false'");
            assert_eq!(problematic_positions, vec![(10, 15)]);
        }
        _ => panic!("expected a semantic error"),
    }
}

#[test]
fn a_query_ending_in_section_is_a_parser_error() {
    match Compiler::new().compile("section") {
        Some(Compilation::ParserError { message, problematic_positions }) => {
            assert!(message.contains("section"), "{}", message);
            assert!(problematic_positions.is_empty());
        }
        _ => panic!("expected a parser error"),
    }
}

#[test]
fn tab_completion() {
    let mut compiler = Compiler::new();
    assert_eq!(compiler.get_tab_completion("prof is smith".to_string()), vec!["and".to_string(), "or".to_string()]);
    assert_eq!(compiler.get_tab_completion(String::new()).len(), 13);
    assert_eq!(compiler.get_tab_completion("title #".to_string()), Vec::<String>::new());
    assert_eq!(compiler.try_get_tab_completion("credit".to_string()), Some(vec!["hours".to_string()]));
    assert!(compiler.try_get_tab_completion("section".to_string()).is_some());
}

#[test]
fn queries_are_kept_to_the_selected_school_and_term() {
    let mut compiler = Compiler::new();
    compiler.set_school_id(Some("uni".to_string()));
    compiler.set_term_id(Some("fall".to_string()));
    match compiler.compile("prof is smith") {
        Some(Compilation::Ready { sql, params, use_test_db, .. }) => {
            assert!(sql.ends_with(
                "WHERE ((LOWER(p.name) = LOWER(?) OR LOWER(p.email_address) = LOWER(?))) AND s.school_id = ? AND s.term_collection_id = ?"
            ), "{}", sql);
            assert_eq!(params, vec!["smith".to_string(), "smith".to_string(), "uni".to_string(), "fall".to_string()]);
            assert!(!use_test_db);
        }
        _ => panic!("expected SQL"),
    }
    compiler.set_term_id(None);
    match compiler.compile("monday") {
        Some(Compilation::Ready { sql, params, .. }) => {
            assert!(sql.ends_with("WHERE (mt.is_monday = 1) AND s.school_id = ?"), "{}", sql);
            assert_eq!(params, vec!["uni".to_string()]);
        }
        _ => panic!("expected SQL"),
    }
    compiler.set_school_id(Some("_test".to_string()));
    compiler.set_term_id(Some("fall".to_string()));
    match compiler.compile("monday") {
        Some(Compilation::Ready { sql, params, use_test_db, .. }) => {
            assert!(sql.ends_with("WHERE mt.is_monday = 1"), "{}", sql);
            assert!(params.is_empty());
            assert!(use_test_db);
        }
        _ => panic!("expected SQL"),
    }
}
