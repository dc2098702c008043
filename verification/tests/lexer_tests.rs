use classql::dsl::lexer::Lexer;
use classql::dsl::token::{Token, TokenType};
use classql::tui::errors::AppError;

fn kinds(tokens: &[Token]) -> Vec<TokenType> {
    tokens.iter().map(|t| *t.get_token_type()).collect()
}

fn spans(tokens: &[Token]) -> Vec<(usize, usize)> {
    tokens.iter().map(|t| (t.get_start(), t.get_end())).collect()
}

#[test]
fn lexes_a_professor_query() {
    let mut lexer = Lexer::new("prof is smith".to_string());
    let tokens = lexer.analyze().expect("query lexes");
    assert_eq!(kinds(&tokens), vec![TokenType::Prof, TokenType::Is, TokenType::Identifier]);
    assert_eq!(spans(&tokens), vec![(0, 4), (5, 7), (8, 13)]);
}

#[test]
fn lexes_operators_times_and_numbers() {
    let mut lexer = Lexer::new("start >= 9:30am and credit hours < 4".to_string());
    let tokens = lexer.analyze().expect("query lexes");
    assert_eq!(
        kinds(&tokens),
        vec![
            TokenType::Start,
            TokenType::GreaterEqual,
            TokenType::Time,
            TokenType::And,
            TokenType::Credit,
            TokenType::Hours,
            TokenType::LessThan,
            TokenType::Integer,
        ]
    );
    assert_eq!(spans(&tokens)[2], (9, 15));
}

#[test]
fn lexes_quoted_strings_and_parentheses() {
    let mut lexer = Lexer::new("(title is \"Intro to CS\")".to_string());
    let tokens = lexer.analyze().expect("query lexes");
    assert_eq!(
        kinds(&tokens),
        vec![TokenType::LeftParen, TokenType::Title, TokenType::Is, TokenType::String, TokenType::RightParen]
    );
    assert_eq!(spans(&tokens)[3], (10, 23));
}

#[test]
fn keywords_ignore_case() {
    let mut lexer = Lexer::new("PROFESSOR Contains Smith".to_string());
    let tokens = lexer.analyze().expect("query lexes");
    assert_eq!(kinds(&tokens), vec![TokenType::Prof, TokenType::Contains, TokenType::Identifier]);
}

#[test]
fn empty_input_has_no_tokens() {
    let mut lexer = Lexer::new("   ".to_string());
    assert_eq!(lexer.analyze().expect("blank input lexes").len(), 0);
}

#[test]
fn reports_an_unrecognized_character() {
    let mut lexer = Lexer::new("prof # smith".to_string());
    match lexer.analyze() {
        Err(AppError::UnrecognizedTokens(message, positions)) => {
            assert_eq!(message, "Unrecognized character: '#'");
            assert_eq!(positions, vec![(5, 6)]);
        }
        _ => panic!("expected an unrecognized character"),
    }
}

#[test]
fn reports_every_unrecognized_character() {
    let mut lexer = Lexer::new("# title $".to_string());
    match lexer.try_analyze() {
        Some(Err(AppError::UnrecognizedTokens(message, positions))) => {
            assert_eq!(message, "Unrecognized characters: '#', '$'");
            assert_eq!(positions, vec![(0, 1), (8, 9)]);
        }
        _ => panic!("expected unrecognized characters"),
    }
}

#[test]
fn token_kinds_print_their_names() {
    assert_eq!(TokenType::Prof.to_string(), "T_PROF");
    assert_eq!(TokenType::GreaterEqual.to_string(), "T_GREATEREQUAL");
    assert_eq!(TokenType::Prof.debug_string(), "Prof");
    let t = Token::new(TokenType::Integer, 3, 5);
    assert_eq!((t.get_start(), t.get_end()), (3, 5));
    assert_eq!(*t.get_token_type(), TokenType::Integer);
    assert!(TokenType::all_patterns().len() > 60);
}

#[test]
fn tokens_follow_one_another_through_the_input() {
    let input = "prof is smith and start between 9:00am and 5:00pm";
    let tokens = Lexer::new(input.to_string()).analyze().expect("input lexes");
    assert!(!tokens.is_empty());
    for t in &tokens {
        assert!(t.get_start() < t.get_end());
        assert!(t.get_end() <= input.len());
    }
    for w in tokens.windows(2) {
        assert!(w[0].get_end() <= w[1].get_start());
    }
    for (q, c) in input.char_indices() {
        let covered = tokens.iter().any(|t| t.get_start() <= q && q < t.get_end());
        assert!(covered || c.is_whitespace(), "{} at {}", c, q);
    }
}
