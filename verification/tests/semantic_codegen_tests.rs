use classql::dsl::codegen::{build_string_condition, generate_sql, try_generate_sql, CodeGenError};
use classql::dsl::lexer::Lexer;
use classql::dsl::parser::{Ast, NodeType, Parser, TreeNode};
use classql::dsl::semantic::semantic_analysis;
use classql::tui::errors::SemanticError;

const PREFIX: &str = "SELECT DISTINCT c.subject_code, c.number AS course_number, c.title, c.description, c.credit_hours, c.prerequisites, c.corequisites, s.sequence AS section_sequence, s.max_enrollment, s.enrollment, s.instruction_method, s.campus, p.name AS professor_name, p.email_address AS professor_email, mt.start_minutes, mt.end_minutes, mt.meeting_type, mt.is_monday, mt.is_tuesday, mt.is_wednesday, mt.is_thursday, mt.is_friday, mt.is_saturday, mt.is_sunday FROM sections s JOIN courses c ON s.school_id = c.school_id AND s.subject_code = c.subject_code AND s.course_number = c.number LEFT JOIN professors p ON s.primary_professor_id = p.id AND s.school_id = p.school_id LEFT JOIN meeting_times mt ON s.sequence = mt.section_sequence AND s.term_collection_id = mt.term_collection_id AND s.school_id = mt.school_id AND s.subject_code = mt.subject_code AND s.course_number = mt.course_number WHERE ";

fn ast_of(input: &str) -> Ast {
    let tokens = Lexer::new(input.to_string()).analyze().expect("input lexes");
    Parser::new(input.to_string()).parse(&tokens).expect("input parses")
}

/// The SQL with each placeholder replaced by its value, quoted.
fn inline(sql: &str, params: &[String]) -> String {
    let mut out = String::new();
    let mut values = params.iter();
    for c in sql.chars() {
        if c == '?' {
            let v = values.next().expect("a value for each placeholder");
            out.push('\'');
            out.push_str(&v.replace('\'', "''"));
            out.push('\'');
        } else {
            out.push(c);
        }
    }
    assert!(values.next().is_none());
    out
}

fn where_of(input: &str) -> String {
    let (sql, params) = generate_sql(&ast_of(input)).expect("SQL is generated");
    assert!(!sql.contains('\''));
    let sql = inline(&sql, &params);
    assert!(sql.starts_with(PREFIX));
    sql[PREFIX.len()..].to_string()
}

fn leaf(node_type: NodeType) -> TreeNode {
    TreeNode { children: Vec::new(), node_type, lexical_token: None, node_content: String::new() }
}

#[test]
fn well_formed_queries_pass_semantic_analysis() {
    for q in ["prof is smith", "start > 9:00am", "monday is true", "credit hours >= 3", "start 9am to 5pm"] {
        assert!(semantic_analysis(&ast_of(q)).is_ok(), "{}", q);
    }
    assert!(semantic_analysis(&Ast { head: None }).is_ok());
}

#[test]
fn a_day_must_be_true_or_false() {
    match semantic_analysis(&ast_of("monday is maybe")) {
        Err((SemanticError::InvalidContext { token, context, suggestions }, spans)) => {
            assert_eq!(token, "maybe");
            assert_eq!(context, "day value");
            assert_eq!(suggestions, vec!["true".to_string(), "false".to_string()]);
            assert_eq!(spans, vec![(10, 15)]);
        }
        _ => panic!("expected a day value error"),
    }
}

#[test]
fn a_time_needs_am_or_pm() {
    match semantic_analysis(&ast_of("start > 9:00")) {
        Err((SemanticError::InvalidContext { token, context, suggestions }, spans)) => {
            assert_eq!(token, "9:00");
            assert_eq!(context, "time literal (must include am/pm)");
            assert_eq!(suggestions.len(), 4);
            assert_eq!(spans, vec![(8, 12)]);
        }
        _ => panic!("expected a time literal error"),
    }
}

#[test]
fn a_number_must_be_an_integer_token() {
    match semantic_analysis(&ast_of("credit hours > abc")) {
        Err((SemanticError::InvalidContext { token, context, .. }, spans)) => {
            assert_eq!(token, "T_IDENTIFIER");
            assert_eq!(context, "integer literal");
            assert_eq!(spans, vec![(15, 18)]);
        }
        _ => panic!("expected an integer literal error"),
    }
}

#[test]
fn a_text_field_refuses_a_number() {
    match semantic_analysis(&ast_of("title is 42")) {
        Err((SemanticError::InvalidContext { token, context, .. }, spans)) => {
            assert_eq!(token, "T_INTEGER");
            assert_eq!(context, "string field value");
            assert_eq!(spans, vec![(9, 11)]);
        }
        _ => panic!("expected a string field value error"),
    }
}

#[test]
fn professor_matches_name_or_email_ignoring_case() {
    assert_eq!(
        where_of("prof is smith"),
        "(LOWER(p.name) = LOWER('smith') OR LOWER(p.email_address) = LOWER('smith'))"
    );
}

#[test]
fn string_conditions_become_like_patterns() {
    assert_eq!(where_of("title contains calc"), "c.title LIKE '%calc%' COLLATE NOCASE");
    assert_eq!(where_of("title starts with intro"), "c.title LIKE 'intro%' COLLATE NOCASE");
    assert_eq!(where_of("subject ends with S"), "c.subject_code LIKE '%S' COLLATE NOCASE");
    assert_eq!(where_of("campus has main"), "s.campus LIKE '%main%' COLLATE NOCASE");
}

#[test]
fn quotes_are_removed_and_single_quotes_doubled() {
    assert_eq!(where_of("title is \"O'Brien\""), "LOWER(c.title) = LOWER('O''Brien')");
}

#[test]
fn numeric_fields_compare_numbers() {
    assert_eq!(where_of("credit hours >= 3"), "c.credit_hours >= 3");
    assert_eq!(where_of("enrollment < 30"), "s.enrollment < 30");
    assert_eq!(where_of("enrollment cap > 100"), "s.max_enrollment > 100");
    assert_eq!(where_of("size = 007"), "s.enrollment = 7");
}

#[test]
fn times_become_24_hour_clock() {
    assert_eq!(where_of("start > 2:30pm"), "mt.start_minutes > '14:30:00'");
    assert_eq!(where_of("end < 12am"), "mt.end_minutes < '00:00:00'");
    assert_eq!(where_of("end <= 12:05pm"), "mt.end_minutes <= '12:05:00'");
    assert_eq!(
        where_of("start 9am to 5pm"),
        "(mt.start_minutes >= '09:00:00' AND mt.start_minutes <= '17:00:00')"
    );
}

#[test]
fn days_are_flags() {
    assert_eq!(where_of("monday"), "mt.is_monday = 1");
    assert_eq!(where_of("friday is false"), "mt.is_friday = 0");
}

#[test]
fn full_sections() {
    assert_eq!(where_of("full is true"), "s.enrollment >= s.max_enrollment");
    assert_eq!(where_of("full is no"), "s.enrollment < s.max_enrollment");
}

#[test]
fn connectives_are_parenthesised() {
    assert_eq!(
        where_of("prof is a and title is b"),
        "((LOWER(p.name) = LOWER('a') OR LOWER(p.email_address) = LOWER('a')) AND LOWER(c.title) = LOWER('b'))"
    );
    assert_eq!(
        where_of("number is 101 or number is 102"),
        "(LOWER(c.number) = LOWER('101') OR LOWER(c.number) = LOWER('102'))"
    );
}

#[test]
fn course_conditions_search_title_and_subject_or_a_field() {
    assert_eq!(
        where_of("course contains CS"),
        "(c.title LIKE '%CS%' COLLATE NOCASE OR c.subject_code LIKE '%CS%' COLLATE NOCASE)"
    );
    assert_eq!(where_of("course subject is MATH"), "LOWER(c.subject_code) = LOWER('MATH')");
}

#[test]
fn code_generation_errors() {
    assert_eq!(generate_sql(&Ast { head: None }), Err(CodeGenError::EmptyAst));
    assert_eq!(
        generate_sql(&Ast { head: Some(leaf(NodeType::Condition)) }),
        Err(CodeGenError::UnsupportedNode { node_type: "Condition".to_string() })
    );
    assert_eq!(
        generate_sql(&Ast { head: Some(leaf(NodeType::Query)) }),
        Err(CodeGenError::InvalidStructure { message: "Query node has no children".to_string() })
    );
    assert_eq!(
        CodeGenError::EmptyAst.to_string(),
        "Cannot generate SQL from an empty AST"
    );
    assert_eq!(
        CodeGenError::InvalidStructure { message: "x".to_string() }.to_string(),
        "Invalid AST structure: x"
    );
    let mut range = leaf(NodeType::TimeQuery);
    range.children.push(leaf(NodeType::String));
    range.children.push(leaf(NodeType::TimeRange));
    assert!(try_generate_sql(&Ast { head: Some(range) }).is_none());
}

#[test]
fn filters_follow_the_tree_condition() {
    use_filters();
}

fn use_filters() {
    let ast = ast_of("title has data");
    let (sql, params) = classql::dsl::codegen::generate_sql_with_filters(&ast, Some("o'hare"), Some("t1")).expect("generates");
    assert!(sql.ends_with("WHERE (c.title LIKE ? COLLATE NOCASE) AND s.school_id = ? AND s.term_collection_id = ?"), "{}", sql);
    assert_eq!(params, vec!["%data%".to_string(), "o'hare".to_string(), "t1".to_string()]);
    let (plain, _) = generate_sql(&ast).expect("generates");
    let (unfiltered, _) = classql::dsl::codegen::generate_sql_with_filters(&ast, None, None).expect("generates");
    assert_eq!(plain, unfiltered);
    assert_eq!(classql::dsl::codegen::normalize_time("2:30PM"), Some("14:30:00".to_string()));
}

#[test]
fn string_conditions_by_word() {
    assert_eq!(build_string_condition("title", "contains", "o'neil"), "title LIKE '%o''neil%' COLLATE NOCASE");
    assert_eq!(build_string_condition("title", "doesNotEqual", "x"), "LOWER(title) != LOWER('x')");
    assert_eq!(build_string_condition("title", "Equals", "x"), "LOWER(title) = LOWER('x')");
    assert_eq!(build_string_condition("title", "starts", "x"), "title LIKE 'x%' COLLATE NOCASE");
    assert_eq!(build_string_condition("title", "ends", "x"), "title LIKE '%x' COLLATE NOCASE");
    assert_eq!(build_string_condition("title", "other", "x"), "LOWER(title) = LOWER('x')");
}
