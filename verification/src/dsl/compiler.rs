//! The compiler: runs the lexer, the parser, semantic analysis and SQL
//! generation over a query, stopping at the first stage that reports an
//! error; and offers tab completion for a partial query.
use vstd::prelude::*;
use crate::dsl::codegen::{CodeGenError, Gen, codegen_message, filtered_outcome};
use crate::dsl::params::split_literals;
use crate::dsl::lexer::{LexRun, Lexer, lex_run, spans, unrecognized, unrecognized_message};
use crate::dsl::parser::{Ast, Parsed, Parser, SNode, completions, lemma_syntax_errors_point_into_query, parse_outcome};
use crate::dsl::semantic::{semantic_analysis, tree_issue};
use crate::dsl::token::Token;
use crate::dsl::words::{starter_words, starter_words_vec};
use crate::text::{chars_of, opt_text, str_eq, trim, trim_chars};
use crate::tui::errors::{
    AppError, semantic_message, semantic_message_defined, syntax_message,
    syntax_message_defined,
};

verus! {

/// The outcome of compiling a query up to the SQL to run.
pub ghost enum CompileOutcome {
    /// The SQL to run, the syntax tree, and whether the test database is the
    /// one to query.
    Ready { sql: Seq<char>, params: Seq<Seq<char>>, ast: Option<SNode>, use_test_db: bool },
    LexerError { message: Seq<char>, positions: Seq<(usize, usize)> },
    ParserError { message: Seq<char>, positions: Seq<(usize, usize)> },
    SemanticError { message: Seq<char>, positions: Seq<(usize, usize)> },
    CodeGenError { message: Seq<char> },
    /// A stage could not go on at all.
    Stuck,
}

/// What compiling `inp` gives when the selected school is `school` and the
/// selected term `term`: the query is kept to them (see `filtered_outcome`).
pub open spec fn compile_outcome(school: Option<Seq<char>>, term: Option<Seq<char>>, inp: Seq<char>) -> CompileOutcome {
    match lex_run(inp) {
        LexRun::Diverges => CompileOutcome::Stuck,
        LexRun::Tokens(all) => {
            let us = unrecognized(all);
            if us.len() > 0 {
                CompileOutcome::LexerError { message: unrecognized_message(inp, us), positions: spans(us) }
            } else {
                match parse_outcome(inp, all) {
                    Parsed::Stuck => CompileOutcome::Stuck,
                    Parsed::Error(e, v) => if syntax_message_defined(e) {
                        CompileOutcome::ParserError { message: syntax_message(e), positions: spans(v) }
                    } else {
                        CompileOutcome::Stuck
                    },
                    Parsed::Node(root, _) => match tree_issue(root) {
                        Some((e, ps)) => if semantic_message_defined(e) {
                            CompileOutcome::SemanticError { message: semantic_message(e), positions: ps }
                        } else {
                            CompileOutcome::Stuck
                        },
                        None => match filtered_outcome(Some(root), school, term) {
                            Gen::Sql(s) => CompileOutcome::Ready {
                                sql: split_literals(s).0,
                                params: split_literals(s).1,
                                ast: Some(root),
                                use_test_db: school == Some("_test"@),
                            },
                            Gen::Fail(e) => CompileOutcome::CodeGenError { message: codegen_message(e) },
                            Gen::Stuck => CompileOutcome::Stuck,
                        },
                    },
                }
            }
        },
    }
}

/// The result of compiling a query up to the SQL to run.
pub enum Compilation {
    /// The SQL to run and the syntax tree; `use_test_db` when the test
    /// database is the one to query.
    Ready { sql: String, params: Vec<String>, ast: Ast, use_test_db: bool },
    LexerError { message: String, problematic_positions: Vec<(usize, usize)> },
    ParserError { message: String, problematic_positions: Vec<(usize, usize)> },
    SemanticError { message: String, problematic_positions: Vec<(usize, usize)> },
    CodeGenError { message: String },
}

impl View for Compilation {
    type V = CompileOutcome;

    open spec fn view(&self) -> CompileOutcome {
        match self {
            Compilation::Ready { sql, params, ast, use_test_db } => CompileOutcome::Ready {
                sql: sql@,
                params: params.deep_view(),
                ast: ast@,
                use_test_db: *use_test_db,
            },
            Compilation::LexerError { message, problematic_positions } => CompileOutcome::LexerError {
                message: message@,
                positions: problematic_positions@,
            },
            Compilation::ParserError { message, problematic_positions } => CompileOutcome::ParserError {
                message: message@,
                positions: problematic_positions@,
            },
            Compilation::SemanticError { message, problematic_positions } => CompileOutcome::SemanticError {
                message: message@,
                positions: problematic_positions@,
            },
            Compilation::CodeGenError { message } => CompileOutcome::CodeGenError { message: message@ },
        }
    }
}

/// The suggestions for a partial query: the parser's completions when it
/// lexes, else the first keywords for a blank input and nothing otherwise;
/// `None` where a stage could not go on.
pub open spec fn tab_completions(inp: Seq<char>) -> Option<Seq<Seq<char>>> {
    match lex_run(inp) {
        LexRun::Diverges => None,
        LexRun::Tokens(all) => if unrecognized(all).len() == 0 {
            if parse_outcome(inp, all) is Stuck {
                None
            } else {
                Some(completions(inp, all))
            }
        } else if trim(inp).len() == 0 {
            Some(starter_words())
        } else {
            Some(Seq::empty())
        },
    }
}

fn token_positions(toks: &Vec<Token>) -> (r: Vec<(usize, usize)>)
    ensures
        r@ == spans(toks@),
{
    let mut r: Vec<(usize, usize)> = Vec::new();
    let mut i: usize = 0;
    while i < toks.len()
        invariant
            i <= toks.len(),
            r@ == spans(toks@.subrange(0, i as int)),
        decreases toks.len() - i,
    {
        r.push((toks[i].get_start(), toks[i].get_end()));
        i = i + 1;
        assert(r@ =~= spans(toks@.subrange(0, i as int)));
    }
    assert(toks@.subrange(0, i as int) =~= toks@);
    r
}

/// The query compiler, with the school and term the user selected.
pub struct Compiler {
    school_id: Option<String>,
    term_id: Option<String>,
}

impl Compiler {
    /// The selected school.
    pub closed spec fn school(self) -> Option<Seq<char>> {
        opt_text(self.school_id)
    }

    /// The selected term.
    pub closed spec fn term(self) -> Option<Seq<char>> {
        opt_text(self.term_id)
    }

    /// A compiler with no school or term selected.
    pub fn new() -> (r: Compiler)
        ensures
            r.school() is None,
            r.term() is None,
    {
        Compiler { school_id: None, term_id: None }
    }

    /// Selects a school, or clears the selection.
    pub fn set_school_id(&mut self, school_id: Option<String>)
        ensures
            final(self).school() == opt_text(school_id),
            final(self).term() == old(self).term(),
    {
        self.school_id = school_id;
    }

    /// Selects a term, or clears the selection.
    pub fn set_term_id(&mut self, term_id: Option<String>)
        ensures
            final(self).term() == opt_text(term_id),
            final(self).school() == old(self).school(),
    {
        self.term_id = term_id;
    }

    /// Whether the special `_test` school is selected.
    fn uses_test_db(&self) -> (r: bool)
        ensures
            r == (self.school() == Some("_test"@)),
    {
        match &self.school_id {
            Some(s) => str_eq(s.as_str(), "_test"),
            None => false,
        }
    }

    /// Compiles a query up to the SQL to run: lexing, parsing, semantic
    /// analysis and SQL generation, stopping at the first error. `None`
    /// where a stage could not go on.
    pub fn compile(&self, input: &str) -> (r: Option<Compilation>)
        ensures
            r is None <==> compile_outcome(self.school(), self.term(), input@) is Stuck,
            r matches Some(c) ==> c@ == compile_outcome(self.school(), self.term(), input@),
    {
        let mut lexer = Lexer::new(input.to_string());
        let tokens = match lexer.try_analyze() {
            None => return None,
            Some(Ok(tokens)) => tokens,
            Some(Err(AppError::UnrecognizedTokens(message, problematic_positions))) => {
                return Some(Compilation::LexerError { message, problematic_positions });
            },
            Some(Err(_)) => {
                return Some(Compilation::LexerError {
                    message: "Unknown lexer error".to_string(),
                    problematic_positions: Vec::new(),
                });
            },
        };
        let mut parser = Parser::new(input.to_string());
        let ast = match parser.try_parse(&tokens) {
            None => return None,
            Some(Ok(ast)) => ast,
            Some(Err((e, problematic_tokens))) => {
                if !e.renders() {
                    return None;
                }
                let problematic_positions = token_positions(&problematic_tokens);
                return Some(Compilation::ParserError { message: e.to_string(), problematic_positions });
            },
        };
        proof {
            assert(ast@ matches Some(root) && parse_outcome(input@, tokens@) == Parsed::Node(root, tokens@.len() as int));
        }
        match semantic_analysis(&ast) {
            Ok(()) => {},
            Err((e, problematic_positions)) => {
                if !e.renders() {
                    return None;
                }
                return Some(Compilation::SemanticError { message: e.to_string(), problematic_positions });
            },
        }
        let use_test_db = self.uses_test_db();
        let school = match &self.school_id {
            Some(x) => Some(x.as_str()),
            None => None,
        };
        let term = match &self.term_id {
            Some(x) => Some(x.as_str()),
            None => None,
        };
        let (sql, params) = match crate::dsl::codegen::try_generate_sql_with_filters(&ast, school, term) {
            None => return None,
            Some(Ok(q)) => q,
            Some(Err(e)) => return Some(Compilation::CodeGenError { message: e.to_string() }),
        };
        Some(Compilation::Ready { sql, params, ast, use_test_db })
    }

    /// Completion suggestions for a partial query.
    pub fn get_tab_completion(&mut self, input: String) -> (r: Vec<String>)
        requires
            tab_completions(input@) is Some,
        ensures
            Some(r.deep_view()) == tab_completions(input@),
    {
        match self.try_get_tab_completion(input) {
            Some(v) => v,
            None => Vec::new(),
        }
    }

    /// Completion suggestions as `get_tab_completion` gives them, or `None`
    /// where it cannot go on (its precondition fails).
    pub fn try_get_tab_completion(&mut self, input: String) -> (r: Option<Vec<String>>)
        ensures
            r is None <==> tab_completions(input@) is None,
            r matches Some(v) ==> Some(v.deep_view()) == tab_completions(input@),
    {
        let mut lexer = Lexer::new(input.clone());
        let mut parser = Parser::new(input.clone());
        match lexer.try_analyze() {
            None => None,
            Some(Ok(tokens)) => match parser.try_parse(&tokens) {
                None => None,
                Some(_) => Some(parser.get_completion_suggestions(&tokens)),
            },
            Some(Err(_)) => {
                let chars = chars_of(input.as_str());
                if trim_chars(&chars).len() == 0 {
                    Some(starter_words_vec())
                } else {
                    let v: Vec<String> = Vec::new();
                    assert(v.deep_view() =~= Seq::<Seq<char>>::empty());
                    Some(v)
                }
            },
        }
    }
}

/// A compiled query is the generated SQL of the parsed input, whose tree
/// passed semantic analysis, kept to the selected school and term, with its
/// values taken out as parameters; the test database is used exactly when
/// the `_test` school is selected.
pub proof fn lemma_compiled_query(school: Option<Seq<char>>, term: Option<Seq<char>>, inp: Seq<char>, all: Seq<Token>)
    requires
        lex_run(inp) == LexRun::Tokens(all),
    ensures
        compile_outcome(school, term, inp) matches CompileOutcome::Ready { sql, params, ast, use_test_db } ==> {
            &&& unrecognized(all).len() == 0
            &&& parse_outcome(inp, all) is Node
            &&& ast == Some(parse_outcome(inp, all)->Node_0)
            &&& tree_issue(parse_outcome(inp, all)->Node_0) is None
            &&& filtered_outcome(ast, school, term) is Sql
            &&& (sql, params) == split_literals(filtered_outcome(ast, school, term)->Sql_0)
            &&& use_test_db == (school == Some("_test"@))
        },
{
}

/// A query with unrecognised characters is reported by the lexer, with the
/// spans of those characters, before any other stage runs.
pub proof fn lemma_lexer_errors_first(school: Option<Seq<char>>, term: Option<Seq<char>>, inp: Seq<char>, all: Seq<Token>)
    requires
        lex_run(inp) == LexRun::Tokens(all),
        unrecognized(all).len() > 0,
    ensures
        compile_outcome(school, term, inp) == (CompileOutcome::LexerError {
            message: unrecognized_message(inp, unrecognized(all)),
            positions: spans(unrecognized(all)),
        }),
{
}

/// The positions a syntax error highlights are spans of tokens of the
/// query.
pub proof fn lemma_parser_error_positions(school: Option<Seq<char>>, term: Option<Seq<char>>, inp: Seq<char>, all: Seq<Token>)
    requires
        lex_run(inp) == LexRun::Tokens(all),
    ensures
        compile_outcome(school, term, inp) matches CompileOutcome::ParserError { positions, .. } ==> forall|i: int|
            0 <= i < positions.len() ==> exists|k: int|
                0 <= k < all.len() && #[trigger] positions[i] == (all[k].start(), all[k].end()),
{
    lemma_syntax_errors_point_into_query(inp, all);
    if unrecognized(all).len() == 0 {
        match parse_outcome(inp, all) {
            Parsed::Error(e, v) => {
                assert forall|i: int| 0 <= i < spans(v).len() implies exists|k: int|
                    0 <= k < all.len() && #[trigger] spans(v)[i] == (all[k].start(), all[k].end()) by {
                    assert(all.contains(v[i]));
                    let k = choose|k: int| 0 <= k < all.len() && all[k] == v[i];
                    assert(spans(v)[i] == (all[k].start(), all[k].end()));
                }
            },
            _ => {},
        }
    }
}

} // verus!
