use classql::data::sql::format_time_short;
use classql::dsl::codegen::generate_sql;
use classql::dsl::compiler::{Compilation, Compiler};
use classql::dsl::lexer::Lexer;
use classql::dsl::params::parameterize;
use classql::dsl::parser::{Ast, NodeType, Parser, TreeNode};
use classql::dsl::token::{Token, TokenType};
use classql::tui::errors::SyntaxError;

fn parse(input: &str) -> Result<Ast, (SyntaxError, Vec<Token>)> {
    let tokens = Lexer::new(input.to_string()).analyze().expect("input lexes");
    Parser::new(input.to_string()).parse(&tokens)
}

/// The WHERE clause and the values of a compiled query.
fn where_and_params(input: &str) -> (String, Vec<String>) {
    match Compiler::new().compile(input) {
        Some(Compilation::Ready { sql, params, .. }) => {
            let at = sql.find(" WHERE ").expect("a WHERE clause");
            (sql[at + 7..].to_string(), params)
        }
        Some(Compilation::ParserError { message, .. }) => panic!("{}: {}", input, message),
        Some(Compilation::SemanticError { message, .. }) => panic!("{}: {}", input, message),
        _ => panic!("{} does not compile", input),
    }
}

fn strings(v: &[&str]) -> Vec<String> {
    v.iter().map(|s| s.to_string()).collect()
}

fn only_child(n: &TreeNode) -> &TreeNode {
    assert_eq!(n.children.len(), 1, "{:?}", n.node_type);
    &n.children[0]
}

#[test]
fn not_equal_conditions_test_for_difference() {
    assert_eq!(where_and_params("title != CS"), ("LOWER(c.title) != LOWER(?)".to_string(), strings(&["CS"])));
    assert_eq!(
        where_and_params("title does not equal CS"),
        ("LOWER(c.title) != LOWER(?)".to_string(), strings(&["CS"]))
    );
    assert_eq!(
        where_and_params("title not equals CS"),
        ("LOWER(c.title) != LOWER(?)".to_string(), strings(&["CS"]))
    );
    assert_eq!(where_and_params("title is CS"), ("LOWER(c.title) = LOWER(?)".to_string(), strings(&["CS"])));
}

#[test]
fn not_negates_the_condition_it_governs() {
    assert_eq!(
        where_and_params("not sub is cs"),
        ("NOT (LOWER(c.subject_code) = LOWER(?))".to_string(), strings(&["cs"]))
    );
    let tokens = vec![
        Token::new(TokenType::Not, 0, 3),
        Token::new(TokenType::Subject, 4, 7),
        Token::new(TokenType::Is, 8, 10),
        Token::new(TokenType::Identifier, 11, 13),
    ];
    let ast = Parser::new("not sub is cs".to_string()).parse(&tokens).expect("parses");
    let (sql, params) = generate_sql(&ast).expect("generates");
    assert!(sql.ends_with("WHERE NOT (LOWER(c.subject_code) = LOWER(?))"));
    assert_eq!(params, strings(&["cs"]));
}

#[test]
fn comparison_phrases_are_read_whole() {
    assert_eq!(where_and_params("credit hours less than 3").0, "c.credit_hours < 3");
    assert_eq!(where_and_params("credit hours greater than 3").0, "c.credit_hours > 3");
    assert_eq!(where_and_params("credit hours less than or equal to 3").0, "c.credit_hours <= 3");
    assert_eq!(where_and_params("credit hours greater than or equal to 3").0, "c.credit_hours >= 3");
    assert_eq!(where_and_params("enrollment at least 20").0, "s.enrollment >= 20");
    assert_eq!(where_and_params("enrollment at most 20").0, "s.enrollment <= 20");
    assert_eq!(where_and_params("credit hours more than 2").0, "c.credit_hours > 2");
    assert_eq!(where_and_params("credit hours fewer than 4").0, "c.credit_hours < 4");
    assert_eq!(where_and_params("credit hours not equals 4").0, "c.credit_hours != 4");
    match parse("credit hours less than 3") {
        Ok(ast) => {
            let credit = only_child(only_child(only_child(only_child(ast.head.as_ref().unwrap()))));
            assert_eq!(credit.node_type, NodeType::CreditHoursQuery);
            assert_eq!(credit.children.len(), 2);
            assert_eq!(credit.children[0].node_type, NodeType::Binop);
            assert_eq!(credit.children[1].node_type, NodeType::Integer);
            assert_eq!(credit.children[1].node_content, "3");
        }
        Err(e) => panic!("{:?}", e),
    }
}

#[test]
fn section_queries_read_their_field_after_the_keyword() {
    assert_eq!(
        where_and_params("section subject is cs"),
        ("LOWER(c.subject_code) = LOWER(?)".to_string(), strings(&["cs"]))
    );
    assert_eq!(where_and_params("section size > 30").0, "s.enrollment > 30");
    assert_eq!(where_and_params("section cap > 30").0, "s.max_enrollment > 30");
    assert_eq!(
        where_and_params("section campus is main"),
        ("LOWER(s.campus) = LOWER(?)".to_string(), strings(&["main"]))
    );
    let ast = parse("section subject is cs").expect("parses");
    let entity = only_child(only_child(only_child(ast.head.as_ref().unwrap())));
    let section = only_child(entity);
    assert_eq!(section.node_type, NodeType::SectionQuery);
    let subject = only_child(section);
    assert_eq!(subject.node_type, NodeType::SubjectQuery);
    assert_eq!(subject.children[0].node_type, NodeType::Condition);
    assert_eq!(subject.children[1].node_type, NodeType::Identifier);
    assert_eq!(subject.children[1].node_content, "cs");
}

#[test]
fn a_lone_section_keyword_is_a_syntax_error() {
    match parse("section") {
        Err((SyntaxError::ExpectedAfter { after, position, .. }, toks)) => {
            assert_eq!(after, "section");
            assert_eq!(position, 1);
            assert!(toks.is_empty());
        }
        other => panic!("unexpected {:?}", other.map(|_| ())),
    }
}

#[test]
fn course_conditions_search_title_and_subject_code() {
    assert_eq!(
        where_and_params("course is CS"),
        ("(LOWER(c.title) = LOWER(?) OR LOWER(c.subject_code) = LOWER(?))".to_string(), strings(&["CS", "CS"]))
    );
    let ast = parse("course is CS").expect("parses");
    let entity = only_child(only_child(only_child(ast.head.as_ref().unwrap())));
    let course = only_child(entity);
    assert_eq!(course.node_type, NodeType::CourseQuery);
    assert_eq!(course.children.len(), 2);
    assert_eq!(course.children[0].node_type, NodeType::Condition);
    assert_eq!(course.children[1].node_content, "CS");
}

#[test]
fn times_can_be_before_after_or_between() {
    assert_eq!(
        where_and_params("start before 12:00pm"),
        ("mt.start_minutes < ?".to_string(), strings(&["12:00:00"]))
    );
    assert_eq!(
        where_and_params("end after 9:30am"),
        ("mt.end_minutes > ?".to_string(), strings(&["09:30:00"]))
    );
    assert_eq!(
        where_and_params("start between 9:00am and 5:00pm"),
        ("(mt.start_minutes >= ? AND mt.start_minutes <= ?)".to_string(), strings(&["09:00:00", "17:00:00"]))
    );
    match parse("start between 9:00am") {
        Err((SyntaxError::MissingToken(_), _)) => {}
        other => panic!("unexpected {:?}", other.map(|_| ())),
    }
}

#[test]
fn and_binds_tighter_than_or() {
    let ast = parse("sub is cs and title has intro or title has data").expect("parses");
    let query = ast.head.as_ref().unwrap();
    assert_eq!(query.node_type, NodeType::Query);
    let or = only_child(query);
    assert_eq!(or.node_type, NodeType::T(TokenType::Or));
    assert_eq!(or.children.len(), 2);
    let left = only_child(&or.children[0]);
    assert_eq!(left.node_type, NodeType::T(TokenType::And));
    assert_eq!(only_child(&or.children[1]).node_type, NodeType::LogicalFactor);
    let (w, _) = where_and_params("sub is cs and title has intro or title has data");
    assert!(w.starts_with("(("), "{}", w);
}

#[test]
fn user_values_never_stand_in_the_sql_text() {
    let (sql, params) = parameterize("a = 'x' AND b LIKE '%it''s%' AND c = 3");
    assert_eq!(sql, "a = ? AND b LIKE ? AND c = 3");
    assert_eq!(params, strings(&["x", "%it's%"]));
    let (sql, params) = parameterize("no literal");
    assert_eq!(sql, "no literal");
    assert!(params.is_empty());
    let (sql, params) = parameterize("open 'end");
    assert_eq!(sql, "open ?");
    assert_eq!(params, strings(&["end"]));
    let (w, p) = where_and_params("title has data");
    assert_eq!(w, "c.title LIKE ? COLLATE NOCASE");
    assert_eq!(p, strings(&["%data%"]));
}

#[test]
fn a_displayed_time_reads_back_as_the_stored_time() {
    for (stored, shown) in [("00:30:00", "12:30am"), ("09:05:00", "9:05am"), ("12:00:00", "12:00pm"), ("23:59:00", "11:59pm")] {
        assert_eq!(format_time_short(stored), shown);
        let (_, params) = where_and_params(&format!("start > {}", shown));
        assert_eq!(params, vec![stored.to_string()]);
    }
}
