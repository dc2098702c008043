//! The compiler of the keyword front end: lexes and parses a query, stopping
//! at the first stage that reports an error; and offers tab completion for
//! a partial query.
use vstd::prelude::*;
use crate::compiler::lexer::{LexOutcome, Lexer, lex_outcome, positions};
use crate::compiler::parser::{Ast, Parsed, Parser, SNode, completions, lemma_syntax_errors_point_into_query, parse_outcome};
use crate::compiler::token::{Token, TokenV, tokens_view};
use crate::dsl::words::{first_words, first_words_vec};
use crate::text::{chars_of, trim, trim_chars};
use crate::tui::errors::{AppError, syntax_message, syntax_message_defined};

verus! {

/// The outcome of running the front end over a query.
pub ghost enum RunOutcome {
    Success { message: Seq<char>, ast: Option<SNode> },
    LexerError { message: Seq<char>, positions: Seq<(usize, usize)> },
    ParserError { message: Seq<char>, positions: Seq<(usize, usize)> },
    /// A stage could not go on at all.
    Stuck,
}

/// What running the front end over `inp` gives: the lexer's report of
/// unrecognised characters, else the parser's syntax error with the
/// positions of the tokens it concerns, else the syntax tree.
pub open spec fn run_outcome(inp: Seq<char>) -> RunOutcome {
    match lex_outcome(inp) {
        LexOutcome::Stuck => RunOutcome::Stuck,
        LexOutcome::Unrecognized(message, ps) => RunOutcome::LexerError { message, positions: ps },
        LexOutcome::Tokens(ts) => match parse_outcome(inp, ts) {
            Parsed::Stuck => RunOutcome::Stuck,
            Parsed::Error(e, v) => if syntax_message_defined(e) {
                RunOutcome::ParserError { message: syntax_message(e), positions: positions(v) }
            } else {
                RunOutcome::Stuck
            },
            Parsed::Node(root, _) => RunOutcome::Success { message: "Success"@, ast: Some(root) },
        },
    }
}

/// The result of running the front end over a query.
#[derive(Debug)]
pub enum CompilerResult {
    Success { message: String, ast: Ast },
    LexerError { message: String, problematic_tokens: Vec<(usize, usize)> },
    ParserError { message: String, problematic_tokens: Vec<(usize, usize)> },
}

impl View for CompilerResult {
    type V = RunOutcome;

    open spec fn view(&self) -> RunOutcome {
        match self {
            CompilerResult::Success { message, ast } => RunOutcome::Success { message: message@, ast: ast@ },
            CompilerResult::LexerError { message, problematic_tokens } => RunOutcome::LexerError {
                message: message@,
                positions: problematic_tokens@,
            },
            CompilerResult::ParserError { message, problematic_tokens } => RunOutcome::ParserError {
                message: message@,
                positions: problematic_tokens@,
            },
        }
    }
}

/// The suggestions for a partial query: the parser's completions when it
/// lexes, else the first keywords for a blank input and nothing otherwise;
/// `None` where a stage could not go on.
pub open spec fn tab_completions(inp: Seq<char>) -> Option<Seq<Seq<char>>> {
    match lex_outcome(inp) {
        LexOutcome::Stuck => None,
        LexOutcome::Tokens(ts) => if parse_outcome(inp, ts) is Stuck {
            None
        } else {
            Some(completions(inp, ts))
        },
        LexOutcome::Unrecognized(_, _) => if trim(inp).len() == 0 {
            Some(first_words())
        } else {
            Some(Seq::empty())
        },
    }
}

/// The byte offsets of tokens, as unsigned numbers.
fn token_positions(toks: &Vec<Token>) -> (r: Vec<(usize, usize)>)
    ensures
        r@ == positions(tokens_view(toks@)),
{
    let mut r: Vec<(usize, usize)> = Vec::new();
    let mut i: usize = 0;
    while i < toks.len()
        invariant
            i <= toks.len(),
            r@ == positions(tokens_view(toks@).subrange(0, i as int)),
        decreases toks.len() - i,
    {
        let start = toks[i].get_start() as usize;
        let end = toks[i].get_end() as usize;
        r.push((start, end));
        i = i + 1;
        assert(r@ =~= positions(tokens_view(toks@).subrange(0, i as int)));
    }
    assert(tokens_view(toks@).subrange(0, i as int) =~= tokens_view(toks@));
    r
}

/// The front end: a lexer and a parser.
pub struct Compiler {
    lexer: Lexer,
    parser: Parser,
}

impl Compiler {
    /// The input text the parser's token offsets refer to.
    pub closed spec fn parser_input(self) -> Seq<char> {
        self.parser.input()
    }

    /// A compiler that has seen no input.
    pub fn new() -> (r: Compiler)
        ensures
            r.parser_input() == Seq::<char>::empty(),
    {
        Compiler { lexer: Lexer::new(), parser: Parser::new(String::new()) }
    }

    /// Runs the front end as `run` does, or gives `None` where a stage
    /// cannot go on (the precondition of `run` fails).
    pub fn try_run(&mut self, input: &str) -> (r: Option<CompilerResult>)
        ensures
            final(self).parser_input() == input@,
            r is None <==> run_outcome(input@) is Stuck,
            r matches Some(c) ==> c@ == run_outcome(input@),
    {
        self.lexer.clear();
        self.parser = Parser::new(input.to_string());
        let tokens = match self.lexer.try_lexical_analysis(input.to_string()) {
            None => return None,
            Some(Ok(tokens)) => tokens,
            Some(Err(AppError::UnrecognizedTokens(message, problematic_tokens))) => {
                return Some(CompilerResult::LexerError { message, problematic_tokens });
            },
            Some(Err(_)) => {
                return Some(CompilerResult::LexerError {
                    message: "Unknown lexer error".to_string(),
                    problematic_tokens: Vec::new(),
                });
            },
        };
        match self.parser.try_parse(&tokens) {
            None => None,
            Some(Ok(ast)) => {
                proof {
                    assert(ast@ matches Some(root)
                        && parse_outcome(input@, tokens_view(tokens@)) == Parsed::Node(root, tokens@.len() as int));
                }
                Some(CompilerResult::Success { message: "Success".to_string(), ast })
            },
            Some(Err((e, problematic))) => {
                if !e.renders() {
                    return None;
                }
                let problematic_tokens = token_positions(&problematic);
                Some(CompilerResult::ParserError { message: e.to_string(), problematic_tokens })
            },
        }
    }

    /// Runs the front end over a query: the syntax tree, or the first
    /// error, with the byte offsets of what it concerns.
    pub fn run(&mut self, input: &str) -> (r: CompilerResult)
        requires
            !(run_outcome(input@) is Stuck),
        ensures
            final(self).parser_input() == input@,
            r@ == run_outcome(input@),
    {
        match self.try_run(input) {
            Some(r) => r,
            None => CompilerResult::LexerError { message: String::new(), problematic_tokens: Vec::new() },
        }
    }

    /// Completion suggestions as `get_tab_completion` gives them, or `None`
    /// where it cannot go on (its precondition fails).
    pub fn try_get_tab_completion(&mut self, input: String) -> (r: Option<Vec<String>>)
        ensures
            final(self).parser_input() == input@,
            r is None <==> tab_completions(input@) is None,
            r matches Some(v) ==> Some(v.deep_view()) == tab_completions(input@),
    {
        self.parser = Parser::new(input.clone());
        match self.lexer.try_lexical_analysis(input.clone()) {
            None => None,
            Some(Ok(tokens)) => self.parser.try_get_completion_suggestions(&tokens),
            Some(Err(_)) => {
                let chars = chars_of(input.as_str());
                if trim_chars(&chars).len() == 0 {
                    Some(first_words_vec())
                } else {
                    let v: Vec<String> = Vec::new();
                    assert(v.deep_view() =~= Seq::<Seq<char>>::empty());
                    Some(v)
                }
            },
        }
    }

    /// Completion suggestions for a partial query.
    pub fn get_tab_completion(&mut self, input: String) -> (r: Vec<String>)
        requires
            tab_completions(input@) is Some,
        ensures
            final(self).parser_input() == input@,
            Some(r.deep_view()) == tab_completions(input@),
    {
        match self.try_get_tab_completion(input) {
            Some(v) => v,
            None => Vec::new(),
        }
    }
}

/// A query with unrecognised characters is reported by the lexer, with
/// their positions, before the parser runs.
pub proof fn lemma_run_lexer_errors_first(inp: Seq<char>, message: Seq<char>, ps: Seq<(usize, usize)>)
    requires
        lex_outcome(inp) == LexOutcome::Unrecognized(message, ps),
    ensures
        run_outcome(inp) == (RunOutcome::LexerError { message, positions: ps }),
{
}

/// A successful run gives the syntax tree the parser builds from the
/// input's tokens, and that tree consumed every token.
pub proof fn lemma_run_success(inp: Seq<char>, ts: Seq<TokenV>)
    requires
        lex_outcome(inp) == LexOutcome::Tokens(ts),
    ensures
        run_outcome(inp) matches RunOutcome::Success { message, ast } ==> {
            &&& message == "Success"@
            &&& parse_outcome(inp, ts) is Node
            &&& ast == Some(parse_outcome(inp, ts)->Node_0)
        },
{
}

/// The positions a syntax error highlights are the offsets of tokens of
/// the query.
pub proof fn lemma_run_error_positions(inp: Seq<char>, ts: Seq<TokenV>)
    requires
        lex_outcome(inp) == LexOutcome::Tokens(ts),
    ensures
        run_outcome(inp) matches RunOutcome::ParserError { positions: ps, .. } ==> forall|i: int|
            0 <= i < ps.len() ==> exists|k: int|
                0 <= k < ts.len() && #[trigger] ps[i] == (ts[k].start as usize, ts[k].end as usize),
{
    lemma_syntax_errors_point_into_query(inp, ts);
    match parse_outcome(inp, ts) {
        Parsed::Error(e, v) => {
            assert forall|i: int| 0 <= i < positions(v).len() implies exists|k: int|
                0 <= k < ts.len() && #[trigger] positions(v)[i] == (ts[k].start as usize, ts[k].end as usize) by {
                assert(ts.contains(v[i]));
                let k = choose|k: int| 0 <= k < ts.len() && ts[k] == v[i];
                assert(positions(v)[i] == (ts[k].start as usize, ts[k].end as usize));
            }
        },
        _ => {},
    }
}

} // verus!
