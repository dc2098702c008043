use classql::dsl::lexer::Lexer;
use classql::dsl::parser::{Ast, NodeType, Parser, TreeNode};
use classql::dsl::token::{Token, TokenType};
use classql::tui::errors::SyntaxError;

fn tokens_of(input: &str) -> Vec<Token> {
    Lexer::new(input.to_string()).analyze().expect("input lexes")
}

fn parse(input: &str) -> Result<Ast, (SyntaxError, Vec<Token>)> {
    let tokens = tokens_of(input);
    Parser::new(input.to_string()).parse(&tokens)
}

fn completions(input: &str) -> Vec<String> {
    let tokens = tokens_of(input);
    Parser::new(input.to_string()).get_completion_suggestions(&tokens)
}

fn only_child(n: &TreeNode) -> &TreeNode {
    assert_eq!(n.children.len(), 1, "node {:?} has one child", n.node_type);
    &n.children[0]
}

#[test]
fn parses_a_professor_query() {
    let ast = parse("prof is smith").expect("query parses");
    let query = ast.head.as_ref().expect("tree has a root");
    assert_eq!(query.node_type, NodeType::Query);
    assert_eq!(query.node_content, "Query");
    let term = only_child(query);
    assert_eq!(term.node_type, NodeType::LogicalTerm);
    let factor = only_child(term);
    assert_eq!(factor.node_type, NodeType::LogicalFactor);
    let entity = only_child(factor);
    assert_eq!(entity.node_type, NodeType::EntityQuery);
    let prof = only_child(entity);
    assert_eq!(prof.node_type, NodeType::ProfessorQuery);
    assert_eq!(prof.children.len(), 2);
    assert_eq!(prof.children[0].node_type, NodeType::Condition);
    assert_eq!(prof.children[0].children[0].node_content, "T_IS");
    assert_eq!(prof.children[1].node_type, NodeType::Identifier);
    assert_eq!(prof.children[1].node_content, "smith");
    assert_eq!(prof.lexical_token.map(|t| (t.get_start(), t.get_end())), Some((0, 4)));
}

#[test]
fn or_binds_looser_than_and() {
    let ast = parse("prof is a and title is b or subject is c").expect("query parses");
    let query = ast.head.as_ref().unwrap();
    let top = only_child(query);
    assert_eq!(top.node_type, NodeType::T(TokenType::Or));
    assert_eq!(top.node_content, "Or");
    assert_eq!(top.children.len(), 2);
    let left = only_child(&top.children[0]);
    assert_eq!(left.node_type, NodeType::T(TokenType::And));
    assert_eq!(top.children[1].node_type, NodeType::LogicalTerm);
}

#[test]
fn not_and_parentheses_nest() {
    let ast = parse("not (prof is a or prof is b)").expect("query parses");
    let factor = only_child(only_child(ast.head.as_ref().unwrap()));
    let not_node = only_child(factor);
    assert_eq!(not_node.node_type, NodeType::T(TokenType::Not));
    let inner = only_child(not_node);
    assert_eq!(inner.node_type, NodeType::LogicalFactor);
    assert_eq!(only_child(inner).node_type, NodeType::Query);
}

#[test]
fn a_bare_day_means_true() {
    let ast = parse("monday").expect("query parses");
    let entity = only_child(only_child(only_child(ast.head.as_ref().unwrap())));
    let day = only_child(entity);
    assert_eq!(day.node_type, NodeType::DayQuery);
    let inner = only_child(day);
    assert_eq!(inner.node_type, NodeType::String);
    assert_eq!(inner.node_content, "monday");
    assert_eq!(inner.children[0].node_type, NodeType::Condition);
    assert_eq!(inner.children[0].node_content, "=");
    assert_eq!(inner.children[1].node_type, NodeType::Identifier);
    assert_eq!(inner.children[1].node_content, "true");
}

#[test]
fn parses_time_ranges_and_comparisons() {
    let ast = parse("start 9am to 5pm").expect("query parses");
    let time = only_child(only_child(only_child(only_child(ast.head.as_ref().unwrap()))));
    assert_eq!(time.node_type, NodeType::TimeQuery);
    assert_eq!(time.children.len(), 2);
    assert_eq!(time.children[0].node_content, "T_START");
    assert_eq!(time.children[1].node_type, NodeType::TimeRange);
    assert_eq!(time.children[1].children[0].node_content, "9am");
    assert_eq!(time.children[1].children[1].node_content, "5pm");
    let ast = parse("end < 3:15pm").expect("query parses");
    let time = only_child(only_child(only_child(only_child(ast.head.as_ref().unwrap()))));
    assert_eq!(time.children.len(), 3);
    assert_eq!(time.children[1].node_type, NodeType::Binop);
    assert_eq!(time.children[2].node_content, "3:15pm");
}

#[test]
fn empty_token_stream_is_an_empty_query() {
    let mut parser = Parser::new(String::new());
    match parser.parse(&Vec::new()) {
        Err((SyntaxError::EmptyQuery, toks)) => assert!(toks.is_empty()),
        _ => panic!("expected an empty query"),
    }
}

#[test]
fn missing_value_is_reported() {
    match parse("prof is") {
        Err((SyntaxError::MissingToken(m), toks)) => {
            assert_eq!(m, "professor name or email");
            assert!(toks.is_empty());
        }
        _ => panic!("expected a missing token"),
    }
}

#[test]
fn missing_hours_after_credit() {
    match parse("credit") {
        Err((SyntaxError::ExpectedAfter { expected, after, position }, toks)) => {
            assert_eq!(expected, vec!["hours".to_string()]);
            assert_eq!(after, "credit");
            assert_eq!(position, 1);
            assert!(toks.is_empty());
        }
        _ => panic!("expected 'hours' after 'credit'"),
    }
}

#[test]
fn unclosed_parenthesis_names_the_opening_one() {
    match parse("(prof is smith prof is jones)") {
        Err((SyntaxError::UnclosedParenthesis, toks)) => {
            assert_eq!(toks.len(), 1);
            assert_eq!(*toks[0].get_token_type(), TokenType::LeftParen);
        }
        _ => panic!("expected an unclosed parenthesis"),
    }
}

#[test]
fn leftover_tokens_are_out_of_place() {
    match parse("prof is smith extra") {
        Err((SyntaxError::InvalidContext { token, context, suggestions }, toks)) => {
            assert_eq!(token, "T_IDENTIFIER ('extra')");
            assert_eq!(context, "end of query");
            assert_eq!(suggestions, vec!["and".to_string(), "or".to_string(), "remove extra text".to_string()]);
            assert_eq!((toks[0].get_start(), toks[0].get_end()), (14, 19));
        }
        _ => panic!("expected an out-of-place token"),
    }
}

#[test]
fn a_query_cannot_start_with_an_operator() {
    match parse("is smith") {
        Err((SyntaxError::InvalidContext { token, context, .. }, _)) => {
            assert_eq!(token, "T_IS ('is')");
            assert_eq!(context, "query start");
        }
        _ => panic!("expected an invalid start"),
    }
}

#[test]
fn section_must_be_followed_by_a_field() {
    match parse("section cap > 30") {
        Ok(ast) => {
            let entity = only_child(only_child(only_child(ast.head.as_ref().unwrap())));
            let section = only_child(entity);
            assert_eq!(section.node_type, NodeType::SectionQuery);
            assert_eq!(only_child(section).node_type, NodeType::EnrollmentCapQuery);
        }
        Err(_) => panic!("section cap parses"),
    }
    let tokens = tokens_of("section");
    assert!(matches!(Parser::new("section".to_string()).try_parse(&tokens), Some(Err(_))));
}

#[test]
fn completes_a_finished_query_with_connectives() {
    assert_eq!(completions("prof is smith"), vec!["and".to_string(), "or".to_string()]);
}

#[test]
fn completes_an_empty_query_with_keywords() {
    let c = completions("");
    assert_eq!(c.len(), 13);
    assert_eq!(c[0], "professor");
    assert_eq!(c[12], "meeting");
}

#[test]
fn completes_what_an_error_expects() {
    assert_eq!(completions("credit"), vec!["hours".to_string()]);
    assert_eq!(
        completions("course"),
        vec!["subject", "number", "title", "description", "credit", "is", "contains", "equals"]
            .into_iter()
            .map(String::from)
            .collect::<Vec<_>>()
    );
    assert_eq!(completions("prof"), vec!["is", "equals", "contains", "has", "starts with", "ends with", "=", "!="]
        .into_iter()
        .map(String::from)
        .collect::<Vec<_>>());
}

#[test]
fn completes_a_missing_value_by_the_last_keyword() {
    assert_eq!(completions("title is"), Vec::<String>::new());
    let after_enrollment = completions("size");
    assert_eq!(after_enrollment.len(), 14);
    assert_eq!(after_enrollment[0], "=");
}

#[test]
fn node_types_print_their_names() {
    assert_eq!(NodeType::Query.to_string(), "Query");
    assert_eq!(NodeType::T(TokenType::And).to_string(), "And");
    assert_eq!(NodeType::EmailIdentifier.to_string(), "EmailIdentifier");
}

#[test]
fn word_is_compares_in_lower_case() {
    let parser = Parser::new("Prof IS x".to_string());
    let token = Token::new(TokenType::Identifier, 0, 4);
    assert!(parser.word_is(&token, "prof"));
    assert!(!parser.word_is(&token, "Prof"));
    assert!(!parser.word_is(&Token::new(TokenType::Identifier, 0, 40), "prof"));
}
