use classql::compiler::compiler::{Compiler, CompilerResult};
use classql::compiler::lexer::Lexer;
use classql::compiler::parser::{NodeType, Parser, TreeNode};
use classql::compiler::token::{Token, TokenType};
use classql::tui::errors::SyntaxError;

fn lex(input: &str) -> Vec<Token> {
    Lexer::new().lexical_analysis(input.to_string()).expect("input lexes")
}

fn only_child(node: &TreeNode) -> &TreeNode {
    assert_eq!(node.children.len(), 1);
    &node.children[0]
}

#[test]
fn keyword_lexer_reads_keywords_and_values() {
    let tokens = lex("prof contains smith");
    let kinds: Vec<TokenType> = tokens.iter().map(|t| *t.get_token_type()).collect();
    assert_eq!(kinds, vec![TokenType::Prof, TokenType::Contains, TokenType::Identifier]);
    assert_eq!(tokens[2].get_lexeme(), "smith");
    assert_eq!((tokens[2].get_start(), tokens[2].get_end()), (14, 19));
}

#[test]
fn keyword_parser_builds_a_professor_query() {
    let input = "prof contains smith";
    let tokens = lex(input);
    let mut parser = Parser::new(input.to_string());
    let ast = parser.parse(&tokens).expect("query parses");
    let query = ast.head.expect("a root");
    assert_eq!(query.node_type, NodeType::Query);
    assert_eq!(query.node_content, "Query");
    let term = only_child(&query);
    assert_eq!(term.node_type, NodeType::LogicalTerm);
    let factor = only_child(term);
    assert_eq!(factor.node_type, NodeType::LogicalFactor);
    let entity = only_child(factor);
    assert_eq!(entity.node_type, NodeType::EntityQuery);
    let prof = only_child(entity);
    assert_eq!(prof.node_type, NodeType::ProfessorQuery);
    assert_eq!(prof.node_content, "ProfessorQuery");
    assert_eq!(prof.children.len(), 2);
    assert_eq!(prof.children[0].node_type, NodeType::Condition);
    assert_eq!(prof.children[0].children[0].node_content, "T_CONTAINS");
    assert_eq!(prof.children[1].node_type, NodeType::Identifier);
    assert_eq!(prof.children[1].node_content, "Identifier");
    assert_eq!(prof.children[1].children[0].node_content, "T_IDENTIFIER");
}

#[test]
fn keyword_parser_joins_with_and_and_or() {
    let input = "prof is smith and title contains data or not campus is main";
    let tokens = lex(input);
    let ast = Parser::new(input.to_string()).parse(&tokens).expect("query parses");
    let query = ast.head.expect("a root");
    let or_node = only_child(&query);
    assert_eq!(or_node.node_type, NodeType::T(TokenType::Or));
    assert_eq!(or_node.node_content, "Or");
    assert_eq!(or_node.children[0].node_type, NodeType::LogicalTerm);
    assert_eq!(or_node.children[0].children[0].node_type, NodeType::T(TokenType::And));
}

#[test]
fn keyword_parser_reads_times_days_and_numbers() {
    for input in ["start 9:00 to 17:00", "end > 5pm", "monday is true", "credit hours >= 3", "enrollment cap < 30", "size = 20", "prereqs cs101", "meeting type is lab"] {
        let tokens = lex(input);
        assert!(Parser::new(input.to_string()).parse(&tokens).is_ok(), "{}", input);
    }
}

#[test]
fn keyword_parser_reports_syntax_errors() {
    let mut parser = Parser::default();
    assert_eq!(parser.parse(&Vec::new()).unwrap_err().0, SyntaxError::EmptyQuery);
    let input = "prof is";
    let (e, toks) = Parser::new(input.to_string()).parse(&lex(input)).unwrap_err();
    assert_eq!(e, SyntaxError::MissingToken("Expected identifier".to_string()));
    assert!(toks.is_empty());
    let input = "credit";
    let (e, _) = Parser::new(input.to_string()).parse(&lex(input)).unwrap_err();
    assert_eq!(
        e,
        SyntaxError::ExpectedAfter { expected: vec!["hours".to_string()], after: "credit".to_string(), position: 1 }
    );
    let input = "monday";
    let (e, _) = Parser::new(input.to_string()).parse(&lex(input)).unwrap_err();
    assert!(matches!(e, SyntaxError::ExpectedAfter { ref after, position: 1, .. } if after == "entity keyword"));
    let input = "(prof is smith";
    let (e, _) = Parser::new(input.to_string()).parse(&lex(input)).unwrap_err();
    assert_eq!(e, SyntaxError::MissingToken("Expected closing parenthesis".to_string()));
    let input = "enrollment";
    let (e, _) = Parser::new(input.to_string()).parse(&lex(input)).unwrap_err();
    assert_eq!(e, SyntaxError::MissingToken("Expected comparison operator after size/enrollment".to_string()));
}

#[test]
fn keyword_parser_reads_the_section_subquery_after_its_keyword() {
    let input = "section subject is cs";
    let ast = Parser::new(input.to_string()).parse(&lex(input)).expect("section subject is cs parses");
    assert!(ast.head.is_some());
    let (e, toks) = Parser::new("section".to_string()).parse(&lex("section")).unwrap_err();
    match e {
        SyntaxError::ExpectedAfter { after, position, .. } => {
            assert_eq!(after, "section");
            assert_eq!(position, 1);
        }
        other => panic!("unexpected {:?}", other),
    }
    assert!(toks.is_empty());
}

#[test]
fn keyword_parser_cannot_describe_tokens_outside_its_input() {
    let tokens = lex("prof is smith extra");
    let mut parser = Parser::new(String::new());
    assert!(parser.try_parse(&tokens).is_none());
}

#[test]
fn keyword_compiler_runs_a_query() {
    let mut compiler = Compiler::new();
    match compiler.run("prof contains smith") {
        CompilerResult::Success { message, ast } => {
            assert_eq!(message, "Success");
            assert!(ast.head.is_some());
        }
        other => panic!("unexpected {:?}", other),
    }
}

#[test]
fn keyword_compiler_reports_lexer_then_parser_errors() {
    let mut compiler = Compiler::new();
    match compiler.run("prof is # and $") {
        CompilerResult::LexerError { message, problematic_tokens } => {
            assert_eq!(message, "Unrecognized characters: '#', '$'");
            assert_eq!(problematic_tokens, vec![(8, 9), (14, 15)]);
        }
        other => panic!("unexpected {:?}", other),
    }
    match compiler.run("prof is smith extra") {
        CompilerResult::ParserError { message, problematic_tokens } => {
            assert_eq!(message, "'extra' is not valid here. Try: 'and', 'or', 'remove extra words'");
            assert_eq!(problematic_tokens, vec![(14, 19)]);
        }
        other => panic!("unexpected {:?}", other),
    }
    match compiler.run("prof is") {
        CompilerResult::ParserError { message, problematic_tokens } => {
            assert_eq!(message, "Missing: Expected identifier");
            assert!(problematic_tokens.is_empty());
        }
        other => panic!("unexpected {:?}", other),
    }
    assert!(compiler.try_run("section").is_some());
}

#[test]
fn keyword_compiler_completes_partial_queries() {
    let mut compiler = Compiler::new();
    assert_eq!(compiler.get_tab_completion("prof is smith".to_string()), vec!["and".to_string(), "or".to_string()]);
    assert_eq!(compiler.get_tab_completion(String::new()).len(), 13);
    assert_eq!(compiler.get_tab_completion("credit".to_string()), vec!["hours".to_string()]);
    assert_eq!(compiler.get_tab_completion("prof is".to_string()), vec!["<value>".to_string()]);
    assert_eq!(compiler.get_tab_completion("title #".to_string()), Vec::<String>::new());
    assert!(compiler.try_get_tab_completion("section".to_string()).is_some());
}

#[test]
fn keyword_token_kinds_print_their_names() {
    assert_eq!(TokenType::Prof.to_string(), "T_PROF");
    assert_eq!(TokenType::EqualsWord.to_string(), "T_EQUALSWORD");
    assert_eq!(TokenType::LeftParen.to_string(), "T_LEFTPAREN");
    assert_eq!(NodeType::T(TokenType::And).to_string(), "And");
    assert_eq!(NodeType::CreditHoursQuery.to_string(), "CreditHoursQuery");
}

#[test]
fn keyword_token_patterns_end_with_the_catch_alls() {
    let patterns = TokenType::all_patterns();
    assert_eq!(patterns[0], (TokenType::EqualsWord, r"(?i)\bequals\b"));
    let n = patterns.len();
    assert_eq!(patterns[n - 2].0, TokenType::Identifier);
    assert_eq!(patterns[n - 1], (TokenType::Unrecognized, r"[^\s]"));
}

#[test]
fn keyword_tokens_keep_their_text_and_offsets() {
    let t = Token::new(TokenType::Integer, "42".to_string(), 3, 5);
    assert_eq!(t.get_lexeme(), "42");
    assert_eq!(*t.get_token_type(), TokenType::Integer);
    assert_eq!((t.get_start(), t.get_end()), (3, 5));
    let tokens = lex("  Wed   ");
    assert_eq!(tokens.len(), 1);
    assert_eq!(*tokens[0].get_token_type(), TokenType::Wednesday);
    assert_eq!((tokens[0].get_start(), tokens[0].get_end()), (2, 5));
    let mut lexer = Lexer::new();
    lexer.clear();
    assert!(lexer.lexical_analysis(String::new()).unwrap().is_empty());
}

#[test]
fn keyword_parser_reads_comparison_phrases_whole() {
    for input in ["credit hours less than 3", "enrollment at least 20", "credit hours greater than or equal to 3", "title does not equal cs", "title not equals cs"] {
        let ast = Parser::new(input.to_string()).parse(&lex(input)).expect(input);
        assert!(ast.head.is_some(), "{}", input);
    }
    assert!(Parser::new("enrollment at 20".to_string()).parse(&lex("enrollment at 20")).is_err());
}

#[test]
fn keyword_lexer_skips_only_white_space() {
    let input = "prof  is smith\tand monday";
    let tokens = lex(input);
    for (q, c) in input.char_indices() {
        let covered = tokens.iter().any(|t| (t.get_start() as usize) <= q && q < t.get_end() as usize);
        assert!(covered || c.is_whitespace(), "{} at {}", c, q);
    }
    for t in &tokens {
        assert_eq!(t.get_lexeme(), &input[t.get_start() as usize..t.get_end() as usize]);
    }
}
