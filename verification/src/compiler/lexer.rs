//! The lexer of the keyword front end: turns the query text into tokens that
//! carry their own text, trying the token patterns in order at each
//! position.
use vstd::prelude::*;
use vstd::utf8::*;
use vstd::string::*;
use crate::text::{
    char_is_ws, char_len_utf8, char_utf8_len, is_ws, join, join_strings, lemma_boundary_compose,
    lemma_first_char_boundary, lemma_suffix_text, span_ok, span_string, span_text, str_slice,
    lemma_boundary_within,
    utf8_of,
};
use crate::dsl::lexer::{find_pattern, pattern_compiles, regex_compiles, regex_find};
use crate::compiler::token::{pattern_view, token_patterns, Token, TokenType, TokenV, tokens_view};
use crate::tui::errors::AppError;

verus! {

broadcast use vstd::utf8::encode_utf8_valid_utf8, vstd::utf8::encode_utf8_decode_utf8;

/// The first pattern, from the `k`-th on, that matches at the very start of
/// `rem`: its token kind and the byte length of the match.
pub open spec fn first_match(pats: Seq<(TokenType, Seq<char>)>, rem: Seq<char>, k: int) -> Option<(TokenType, int)>
    decreases pats.len() - k,
{
    if k < 0 || k >= pats.len() {
        None
    } else {
        match regex_find(pats[k].1, rem) {
            Some((s, e)) => if s == 0 {
                Some((pats[k].0, e))
            } else {
                first_match(pats, rem, k + 1)
            },
            None => first_match(pats, rem, k + 1),
        }
    }
}

/// Every pattern from the `k`-th on compiles.
pub open spec fn all_compile(pats: Seq<(TokenType, Seq<char>)>, k: int) -> bool
    decreases pats.len() - k,
{
    if k < 0 || k >= pats.len() {
        true
    } else {
        regex_compiles(pats[k].1) && all_compile(pats, k + 1)
    }
}

/// The outcome of scanning the input: the tokens, or non-termination (a
/// pattern that matches the empty string would never advance).
pub ghost enum LexRun {
    Tokens(Seq<TokenV>),
    Diverges,
}

/// `p`, but no more than `limit`.
pub open spec fn clamp_to(p: int, limit: int) -> int {
    if p > limit {
        limit
    } else {
        p
    }
}

/// The token of kind `t` over the bytes `[pos, end)` of the input.
pub open spec fn token_at(inp: Seq<char>, t: TokenType, pos: int, end: int) -> TokenV {
    TokenV { kind: t, lexeme: span_text(inp, pos, end), start: pos as i32, end: end as i32 }
}

/// Scanning from byte offset `pos` with the tokens `acc` found so far:
/// white space is skipped; otherwise the first pattern that matches at the
/// position gives a token with the matched text, and a character no
/// pattern matches gives an `Unrecognized` token of that character.
pub open spec fn lex_from(inp: Seq<char>, pos: int, acc: Seq<TokenV>) -> LexRun
    decreases utf8_of(inp).len() - pos,
{
    let blen = utf8_of(inp).len() as int;
    if pos < 0 || pos >= blen {
        LexRun::Tokens(acc)
    } else {
        let rem = span_text(inp, pos, blen);
        let c = rem[0];
        if is_ws(c) {
            lex_from(inp, clamp_to(pos + char_utf8_len(c), blen), acc)
        } else {
            match first_match(token_patterns(), rem, 0) {
                Some((t, e)) => if e <= 0 {
                    LexRun::Diverges
                } else {
                    let np = clamp_to(pos + e, blen);
                    lex_from(inp, np, acc.push(token_at(inp, t, pos, np)))
                },
                None => {
                    let np = clamp_to(pos + char_utf8_len(c), blen);
                    lex_from(inp, np, acc.push(token_at(inp, TokenType::Unrecognized, pos, np)))
                },
            }
        }
    }
}

/// The `Unrecognized` tokens, in order.
pub open spec fn unrecognized(ts: Seq<TokenV>) -> Seq<TokenV>
    decreases ts.len(),
{
    if ts.len() == 0 {
        Seq::empty()
    } else {
        let r = unrecognized(ts.drop_last());
        if ts.last().kind == TokenType::Unrecognized {
            r.push(ts.last())
        } else {
            r
        }
    }
}

/// The message reporting unrecognized characters.
pub open spec fn unrecognized_message(us: Seq<TokenV>) -> Seq<char> {
    "Unrecognized character"@ + (if us.len() > 1 {
        "s"@
    } else {
        ""@
    }) + ": "@ + join(Seq::new(us.len(), |i: int| "'"@ + us[i].lexeme + "'"@), ", "@)
}

/// The byte offsets of the tokens, as unsigned numbers.
pub open spec fn positions(ts: Seq<TokenV>) -> Seq<(usize, usize)> {
    Seq::new(ts.len(), |i: int| (ts[i].start as usize, ts[i].end as usize))
}

/// What lexical analysis of an input gives.
pub ghost enum LexOutcome {
    Tokens(Seq<TokenV>),
    Unrecognized(Seq<char>, Seq<(usize, usize)>),
    /// A pattern does not compile, or scanning would not terminate.
    Stuck,
}

/// Every token's span is a byte range of the input on character
/// boundaries.
pub open spec fn tokens_on_boundaries(inp: Seq<char>, ts: Seq<TokenV>) -> bool {
    forall|i: int| 0 <= i < ts.len() ==> span_ok(inp, #[trigger] ts[i].start as int, ts[i].end as int)
}

/// Byte `q` of the input lies within one of the tokens.
pub open spec fn covered(ts: Seq<TokenV>, q: int) -> bool {
    exists|i: int| 0 <= i < ts.len() && (#[trigger] ts[i]).start <= q < ts[i].end
}

/// The character that starts at byte `q` of the input.
pub open spec fn char_at(inp: Seq<char>, q: int) -> char {
    span_text(inp, q, utf8_of(inp).len() as int)[0]
}

/// Every character of the input before byte `upto` that no token covers is
/// white space.
pub open spec fn gaps_blank(inp: Seq<char>, ts: Seq<TokenV>, upto: int) -> bool {
    forall|q: int|
        0 <= q < upto && q < utf8_of(inp).len() && is_char_boundary(utf8_of(inp), q) && !covered(ts, q)
            ==> is_ws(#[trigger] char_at(inp, q))
}

proof fn lemma_scan_extends(inp: Seq<char>, pos: int, acc: Seq<TokenV>)
    ensures
        lex_from(inp, pos, acc) matches LexRun::Tokens(all) ==> acc.len() <= all.len() && forall|i: int|
            0 <= i < acc.len() ==> #[trigger] all[i] == acc[i],
    decreases utf8_of(inp).len() - pos,
{
    let blen = utf8_of(inp).len() as int;
    if 0 <= pos < blen {
        let rem = span_text(inp, pos, blen);
        let c = rem[0];
        if is_ws(c) {
            lemma_scan_extends(inp, clamp_to(pos + char_utf8_len(c), blen), acc);
        } else {
            match first_match(token_patterns(), rem, 0) {
                Some((t, e)) => if e > 0 {
                    let np = clamp_to(pos + e, blen);
                    let acc2 = acc.push(token_at(inp, t, pos, np));
                    lemma_scan_extends(inp, np, acc2);
                    assert forall|i: int| 0 <= i < acc.len() implies acc2[i] == acc[i] by {}
                },
                None => {
                    let np = clamp_to(pos + char_utf8_len(c), blen);
                    let acc2 = acc.push(token_at(inp, TokenType::Unrecognized, pos, np));
                    lemma_scan_extends(inp, np, acc2);
                    assert forall|i: int| 0 <= i < acc.len() implies acc2[i] == acc[i] by {}
                },
            }
        }
    }
}

proof fn lemma_inside_char(inp: Seq<char>, pos: int, j: int)
    requires
        0 <= pos < utf8_of(inp).len(),
        is_char_boundary(utf8_of(inp), pos),
        0 < j < char_utf8_len(char_at(inp, pos)),
    ensures
        !is_char_boundary(utf8_of(inp), pos + j),
{
    let b = utf8_of(inp);
    let blen = b.len() as int;
    let cs = span_text(inp, pos, blen);
    lemma_suffix_text(inp, pos);
    lemma_first_char_boundary(cs);
    if is_char_boundary(b, pos + j) {
        lemma_boundary_within(b, pos, j);
        let e = encode_utf8(cs);
        assert(e == b.subrange(pos, blen));
        encode_utf8_first_scalar(cs);
        reveal_with_fuel(is_char_boundary, 2);
        assert(!is_char_boundary(e, j));
    }
}

proof fn lemma_next_char(inp: Seq<char>, pos: int)
    requires
        0 <= pos < utf8_of(inp).len(),
        is_char_boundary(utf8_of(inp), pos),
    ensures
        1 <= char_utf8_len(char_at(inp, pos)),
        pos + char_utf8_len(char_at(inp, pos)) <= utf8_of(inp).len(),
        is_char_boundary(utf8_of(inp), pos + char_utf8_len(char_at(inp, pos))),
{
    let b = utf8_of(inp);
    let blen = b.len() as int;
    let cs = span_text(inp, pos, blen);
    lemma_suffix_text(inp, pos);
    lemma_first_char_boundary(cs);
    lemma_boundary_compose(b, pos, char_utf8_len(cs[0]));
}

proof fn lemma_cover_step(inp: Seq<char>, acc: Seq<TokenV>, tok: TokenV, pos: int, np: int)
    requires
        gaps_blank(inp, acc, pos),
        tok.start == pos,
        tok.end == np,
        pos <= np,
    ensures
        gaps_blank(inp, acc.push(tok), np),
{
    let acc2 = acc.push(tok);
    assert forall|q: int|
        0 <= q < np && q < utf8_of(inp).len() && is_char_boundary(utf8_of(inp), q) && !covered(acc2, q)
            implies is_ws(#[trigger] char_at(inp, q)) by {
        if q >= pos {
            assert(acc2[acc.len() as int] == tok);
            assert(covered(acc2, q));
        } else {
            if covered(acc, q) {
                let i = choose|i: int| 0 <= i < acc.len() && (#[trigger] acc[i]).start <= q < acc[i].end;
                assert(acc2[i] == acc[i]);
                assert(covered(acc2, q));
            }
        }
    }
}

proof fn lemma_gaps_scan(inp: Seq<char>, pos: int, acc: Seq<TokenV>)
    requires
        utf8_of(inp).len() <= i32::MAX,
        0 <= pos <= utf8_of(inp).len(),
        is_char_boundary(utf8_of(inp), pos),
        gaps_blank(inp, acc, pos),
    ensures
        lex_from(inp, pos, acc) matches LexRun::Tokens(all) ==> (tokens_on_boundaries(inp, all) ==> gaps_blank(
            inp,
            all,
            utf8_of(inp).len() as int,
        )),
    decreases utf8_of(inp).len() - pos,
{
    let blen = utf8_of(inp).len() as int;
    if pos < blen {
        let rem = span_text(inp, pos, blen);
        let c = rem[0];
        assert(c == char_at(inp, pos));
        lemma_next_char(inp, pos);
        let n = char_utf8_len(c);
        if is_ws(c) {
            let np = clamp_to(pos + n, blen);
            assert(np == pos + n);
            assert forall|q: int|
                0 <= q < np && q < blen && is_char_boundary(utf8_of(inp), q) && !covered(acc, q)
                    implies is_ws(#[trigger] char_at(inp, q)) by {
                if pos < q {
                    lemma_inside_char(inp, pos, q - pos);
                }
            }
            lemma_gaps_scan(inp, np, acc);
        } else {
            match first_match(token_patterns(), rem, 0) {
                Some((t, e)) => if e > 0 {
                    let np = clamp_to(pos + e, blen);
                    let tok = token_at(inp, t, pos, np);
                    let acc2 = acc.push(tok);
                    lemma_scan_extends(inp, np, acc2);
                    match lex_from(inp, np, acc2) {
                        LexRun::Tokens(all) => if tokens_on_boundaries(inp, all) {
                            assert(all[acc.len() as int] == tok);
                            assert(span_ok(inp, all[acc.len() as int].start as int, all[acc.len() as int].end as int));
                            lemma_cover_step(inp, acc, tok, pos, np);
                            lemma_gaps_scan(inp, np, acc2);
                        },
                        LexRun::Diverges => {},
                    }
                },
                None => {
                    let np = clamp_to(pos + n, blen);
                    assert(np == pos + n);
                    let tok = token_at(inp, TokenType::Unrecognized, pos, np);
                    lemma_cover_step(inp, acc, tok, pos, np);
                    lemma_gaps_scan(inp, np, acc.push(tok));
                },
            }
        }
    } else {
        assert forall|q: int|
            0 <= q < blen && q < blen && is_char_boundary(utf8_of(inp), q) && !covered(acc, q)
                implies is_ws(#[trigger] char_at(inp, q)) by {
        }
    }
}

/// Lexing skips only white space: every character of the input that no
/// token covers is white space, whenever the tokens lie on character
/// boundaries, which `Lexer::lexical_analysis` guarantees of the tokens it
/// returns.
pub proof fn lemma_only_space_between_tokens(inp: Seq<char>)
    requires
        utf8_of(inp).len() <= i32::MAX,
    ensures
        lex_outcome(inp) matches LexOutcome::Tokens(all) ==> (tokens_on_boundaries(inp, all) ==> gaps_blank(
            inp,
            all,
            utf8_of(inp).len() as int,
        )),
{
    is_char_boundary_start_end_of_seq(utf8_of(inp));
    lemma_gaps_scan(inp, 0, Seq::empty());
}

/// The tokens follow one another through the input, each holding the text
/// it covers: each covers at least one byte of the input, its text is that
/// span of the input, and it ends no later than the next begins.
pub open spec fn tokens_laid_out(inp: Seq<char>, ts: Seq<TokenV>) -> bool {
    &&& forall|i: int| 0 <= i < ts.len() ==> 0 <= #[trigger] ts[i].start < ts[i].end <= utf8_of(inp).len()
    &&& forall|i: int| 0 <= i < ts.len() ==> #[trigger] ts[i].lexeme == span_text(inp, ts[i].start as int, ts[i].end as int)
    &&& forall|i: int, j: int| 0 <= i < j < ts.len() ==> #[trigger] ts[i].end <= #[trigger] ts[j].start
}

proof fn lemma_push_laid_out(inp: Seq<char>, acc: Seq<TokenV>, t: TokenType, pos: int, np: int)
    requires
        utf8_of(inp).len() <= i32::MAX,
        0 <= pos < np <= utf8_of(inp).len(),
        tokens_laid_out(inp, acc),
        forall|i: int| 0 <= i < acc.len() ==> #[trigger] acc[i].end <= pos,
    ensures
        tokens_laid_out(inp, acc.push(token_at(inp, t, pos, np))),
        forall|i: int| 0 <= i < acc.len() + 1 ==> #[trigger] acc.push(token_at(inp, t, pos, np))[i].end <= np,
{
    let acc2 = acc.push(token_at(inp, t, pos, np));
    assert forall|i: int| 0 <= i < acc2.len() implies 0 <= #[trigger] acc2[i].start < acc2[i].end
        <= utf8_of(inp).len() by {
        if i < acc.len() {
            assert(acc2[i] == acc[i]);
        }
    }
    assert forall|i: int| 0 <= i < acc2.len() implies #[trigger] acc2[i].lexeme == span_text(
        inp,
        acc2[i].start as int,
        acc2[i].end as int,
    ) by {
        if i < acc.len() {
            assert(acc2[i] == acc[i]);
        }
    }
    assert forall|i: int, j: int| 0 <= i < j < acc2.len() implies #[trigger] acc2[i].end <= #[trigger] acc2[j].start by {
        if j < acc.len() {
            assert(acc2[i] == acc[i] && acc2[j] == acc[j]);
        } else {
            assert(acc2[i] == acc[i]);
        }
    }
    assert forall|i: int| 0 <= i < acc.len() + 1 implies #[trigger] acc2[i].end <= np by {
        if i < acc.len() {
            assert(acc2[i] == acc[i]);
        }
    }
}

proof fn lemma_lex_from_laid_out(inp: Seq<char>, pos: int, acc: Seq<TokenV>)
    requires
        utf8_of(inp).len() <= i32::MAX,
        0 <= pos,
        tokens_laid_out(inp, acc),
        forall|i: int| 0 <= i < acc.len() ==> #[trigger] acc[i].end <= pos,
    ensures
        lex_from(inp, pos, acc) matches LexRun::Tokens(all) ==> tokens_laid_out(inp, all),
    decreases utf8_of(inp).len() - pos,
{
    let blen = utf8_of(inp).len() as int;
    if pos < blen {
        let rem = span_text(inp, pos, blen);
        let c = rem[0];
        if is_ws(c) {
            lemma_lex_from_laid_out(inp, clamp_to(pos + char_utf8_len(c), blen), acc);
        } else {
            match first_match(token_patterns(), rem, 0) {
                Some((t, e)) => if e > 0 {
                    let np = clamp_to(pos + e, blen);
                    lemma_push_laid_out(inp, acc, t, pos, np);
                    lemma_lex_from_laid_out(inp, np, acc.push(token_at(inp, t, pos, np)));
                },
                None => {
                    let np = clamp_to(pos + char_utf8_len(c), blen);
                    lemma_push_laid_out(inp, acc, TokenType::Unrecognized, pos, np);
                    lemma_lex_from_laid_out(inp, np, acc.push(token_at(inp, TokenType::Unrecognized, pos, np)));
                },
            }
        }
    }
}

/// Lexing lays the tokens out along the input: each token covers at least
/// one byte of the input, holds exactly the text of its span, and ends no
/// later than the next token begins; so no two tokens overlap and they come
/// in the order of the text. A lexed query holds no unrecognised token.
pub proof fn lemma_lexed_tokens_laid_out(inp: Seq<char>)
    requires
        utf8_of(inp).len() <= i32::MAX,
    ensures
        lex_outcome(inp) matches LexOutcome::Tokens(all) ==> tokens_laid_out(inp, all) && unrecognized(all).len() == 0,
{
    lemma_lex_from_laid_out(inp, 0, Seq::empty());
}

proof fn lemma_unrecognized_sub(inp: Seq<char>, ts: Seq<TokenV>)
    requires
        tokens_laid_out(inp, ts),
    ensures
        tokens_laid_out(inp, unrecognized(ts)),
        forall|k: int| 0 <= k < unrecognized(ts).len() ==> (#[trigger] unrecognized(ts)[k]).kind == TokenType::Unrecognized,
        forall|k: int| 0 <= k < unrecognized(ts).len() ==> exists|j: int| 0 <= j < ts.len() && #[trigger] unrecognized(ts)[k] == ts[j],
    decreases ts.len(),
{
    if ts.len() > 0 {
        let init = ts.drop_last();
        assert(tokens_laid_out(inp, init)) by {
            assert forall|i: int| 0 <= i < init.len() implies 0 <= #[trigger] init[i].start < init[i].end <= utf8_of(inp).len() by {
                assert(init[i] == ts[i]);
            }
            assert forall|i: int| 0 <= i < init.len() implies #[trigger] init[i].lexeme == span_text(inp, init[i].start as int, init[i].end as int) by {
                assert(init[i] == ts[i]);
            }
            assert forall|i: int, j: int| 0 <= i < j < init.len() implies #[trigger] init[i].end <= #[trigger] init[j].start by {
                assert(init[i] == ts[i] && init[j] == ts[j]);
            }
        }
        lemma_unrecognized_sub(inp, init);
        let r = unrecognized(init);
        assert forall|k: int| 0 <= k < r.len() implies exists|j: int| 0 <= j < ts.len() && #[trigger] r[k] == ts[j] by {
            let j = choose|j: int| 0 <= j < init.len() && r[k] == init[j];
            assert(r[k] == ts[j]);
        }
        if ts.last().kind == TokenType::Unrecognized {
            let u = r.push(ts.last());
            assert(unrecognized(ts) == u);
            assert forall|k: int| 0 <= k < r.len() implies (#[trigger] r[k]).end <= ts.last().start by {
                let j = choose|j: int| 0 <= j < init.len() && r[k] == init[j];
                assert(r[k] == ts[j]);
                assert(ts[j].end <= ts[ts.len() - 1].start);
            }
            assert forall|i: int| 0 <= i < u.len() implies 0 <= #[trigger] u[i].start < u[i].end <= utf8_of(inp).len() by {
                if i < r.len() {
                    assert(u[i] == r[i]);
                } else {
                    assert(u[i] == ts[ts.len() - 1]);
                }
            }
            assert forall|i: int| 0 <= i < u.len() implies #[trigger] u[i].lexeme == span_text(inp, u[i].start as int, u[i].end as int) by {
                if i < r.len() {
                    assert(u[i] == r[i]);
                } else {
                    assert(u[i] == ts[ts.len() - 1]);
                }
            }
            assert forall|i: int, j: int| 0 <= i < j < u.len() implies #[trigger] u[i].end <= #[trigger] u[j].start by {
                assert(u[i] == r[i]);
                if j < r.len() {
                    assert(u[j] == r[j]);
                } else {
                    assert(r[i].end <= ts.last().start);
                }
            }
            assert forall|k: int| 0 <= k < u.len() implies (#[trigger] u[k]).kind == TokenType::Unrecognized by {
                if k < r.len() {
                    assert(u[k] == r[k]);
                }
            }
            assert forall|k: int| 0 <= k < u.len() implies exists|j: int| 0 <= j < ts.len() && #[trigger] u[k] == ts[j] by {
                if k < r.len() {
                    assert(u[k] == r[k]);
                    let j = choose|j: int| 0 <= j < ts.len() && r[k] == ts[j];
                    assert(u[k] == ts[j]);
                } else {
                    assert(u[k] == ts[ts.len() - 1]);
                }
            }
        } else {
            assert(unrecognized(ts) == r);
        }
    }
}

/// When lexing reports unrecognized characters, there is at least one; the
/// tokens they come from are unrecognized tokens laid out along the input
/// in order, without overlapping, each holding the text of its span; and
/// the positions reported are their spans.
pub proof fn lemma_unrecognized_report(inp: Seq<char>)
    requires
        utf8_of(inp).len() <= i32::MAX,
    ensures
        lex_outcome(inp) matches LexOutcome::Unrecognized(m, ps) ==> exists|us: Seq<TokenV>| {
            &&& ps == positions(us)
            &&& us.len() > 0
            &&& tokens_laid_out(inp, us)
            &&& forall|k: int| 0 <= k < us.len() ==> (#[trigger] us[k]).kind == TokenType::Unrecognized
        },
{
    lemma_lex_from_laid_out(inp, 0, Seq::empty());
    if all_compile(token_patterns(), 0) {
        match lex_from(inp, 0, Seq::empty()) {
            LexRun::Tokens(all) => {
                lemma_unrecognized_sub(inp, all);
                let us = unrecognized(all);
                if us.len() > 0 {
                    assert(lex_outcome(inp) == LexOutcome::Unrecognized(unrecognized_message(us), positions(us)));
                }
            },
            LexRun::Diverges => {},
        }
    }
}

/// Lexical analysis of `inp`: every pattern must compile; then the tokens
/// when every character was recognised, else the message naming the
/// unrecognised characters and their positions.
pub open spec fn lex_outcome(inp: Seq<char>) -> LexOutcome {
    if !all_compile(token_patterns(), 0) {
        LexOutcome::Stuck
    } else {
        match lex_from(inp, 0, Seq::empty()) {
            LexRun::Diverges => LexOutcome::Stuck,
            LexRun::Tokens(all) => {
                let us = unrecognized(all);
                if us.len() == 0 {
                    LexOutcome::Tokens(all)
                } else {
                    LexOutcome::Unrecognized(unrecognized_message(us), positions(us))
                }
            },
        }
    }
}

/// The value of what `lexical_analysis` returns.
pub open spec fn lex_result(r: Result<Vec<Token>, AppError>) -> LexOutcome {
    match r {
        Ok(ts) => LexOutcome::Tokens(tokens_view(ts@)),
        Err(AppError::UnrecognizedTokens(m, ps)) => LexOutcome::Unrecognized(m@, ps@),
        Err(_) => LexOutcome::Stuck,
    }
}

fn find_first_match(pats: &Vec<(TokenType, &'static str)>, rem: &str) -> (r: Option<(TokenType, usize)>)
    ensures
        match r {
            Some((t, e)) => first_match(pattern_view(pats@), rem@, 0) == Some((t, e as int))
                && e <= rem.spec_bytes().len() && is_char_boundary(rem.spec_bytes(), e as int),
            None => first_match(pattern_view(pats@), rem@, 0) is None,
        },
{
    let ghost pv = pattern_view(pats@);
    let mut k: usize = 0;
    while k < pats.len()
        invariant
            k <= pats.len(),
            pv == pattern_view(pats@),
            first_match(pv, rem@, 0) == first_match(pv, rem@, k as int),
        decreases pats.len() - k,
    {
        let (t, p) = pats[k];
        assert(pv[k as int] == (t, p@));
        match find_pattern(p, rem) {
            Some((s, e)) => {
                if s == 0 {
                    return Some((t, e));
                }
            },
            None => {},
        }
        k = k + 1;
    }
    None
}

fn check_patterns(pats: &Vec<(TokenType, &'static str)>) -> (r: bool)
    ensures
        r == all_compile(pattern_view(pats@), 0),
{
    let ghost pv = pattern_view(pats@);
    let mut k: usize = 0;
    while k < pats.len()
        invariant
            k <= pats.len(),
            pv == pattern_view(pats@),
            all_compile(pv, 0) == all_compile(pv, k as int),
        decreases pats.len() - k,
    {
        let (_, p) = pats[k];
        assert(pv[k as int].1 == p@);
        if !pattern_compiles(p) {
            return false;
        }
        k = k + 1;
    }
    true
}

/// The lexer of the keyword front end.
pub struct Lexer {
    input: String,
    chars: Vec<char>,
    position: usize,
    current_char: char,
    unrecognized_chars: Vec<char>,
}

impl Lexer {
    /// The input last analysed.
    pub closed spec fn input_text(self) -> Seq<char> {
        self.input@
    }

    /// The characters of the input still held for scanning.
    pub closed spec fn buffered(self) -> Seq<char> {
        self.chars@
    }

    /// The scanning position.
    pub closed spec fn scan_position(self) -> usize {
        self.position
    }

    /// The character under the scanning position.
    pub closed spec fn current(self) -> char {
        self.current_char
    }

    /// The unrecognized characters collected.
    pub closed spec fn unrecognized_seen(self) -> Seq<char> {
        self.unrecognized_chars@
    }

    /// Whether the lexer holds nothing: no input, no characters, position 0,
    /// a blank current character and no unrecognized character.
    pub open spec fn is_blank(self) -> bool {
        &&& self.input_text() == Seq::<char>::empty()
        &&& self.buffered() == Seq::<char>::empty()
        &&& self.scan_position() == 0
        &&& self.current() == ' '
        &&& self.unrecognized_seen() == Seq::<char>::empty()
    }

    /// A lexer that has seen no input.
    pub fn new() -> (r: Lexer)
        ensures
            r.input_text() == Seq::<char>::empty(),
            r.is_blank(),
    {
        let r = Lexer {
            input: String::new(),
            chars: Vec::new(),
            position: 0,
            current_char: ' ',
            unrecognized_chars: Vec::new(),
        };
        assert(r.input@ =~= Seq::<char>::empty());
        assert(r.chars@ =~= Seq::<char>::empty());
        assert(r.unrecognized_chars@ =~= Seq::<char>::empty());
        r
    }

    /// Forgets the input last analysed: the lexer is as `new` makes it.
    pub fn clear(&mut self)
        ensures
            final(self).input_text() == Seq::<char>::empty(),
            final(self).is_blank(),
    {
        self.input = String::new();
        self.chars.clear();
        self.position = 0;
        self.current_char = ' ';
        self.unrecognized_chars.clear();
        assert(self.input@ =~= Seq::<char>::empty());
        assert(self.chars@ =~= Seq::<char>::empty());
        assert(self.unrecognized_chars@ =~= Seq::<char>::empty());
    }

    /// Scans the whole input; `None` where scanning would not terminate.
    #[verifier::rlimit(30)]
    fn scan(inp: &str) -> (r: Option<Vec<Token>>)
        ensures
            match r {
                None => lex_from(inp@, 0, Seq::empty()) is Diverges,
                Some(ts) => lex_from(inp@, 0, Seq::empty()) == LexRun::Tokens(tokens_view(ts@)),
            },
            r matches Some(ts) ==> (utf8_of(inp@).len() <= i32::MAX ==> tokens_on_boundaries(inp@, tokens_view(ts@))),
    {
        let ghost s = inp@;
        let ghost bytes = utf8_of(s);
        assert(inp.spec_bytes() == bytes);
        let blen = inp.as_bytes().len();
        let pats = TokenType::all_patterns();
        let mut tokens: Vec<Token> = Vec::new();
        let mut pos: usize = 0;
        proof {
            is_char_boundary_start_end_of_seq(bytes);
            assert(tokens_view(tokens@) =~= Seq::<TokenV>::empty());
        }
        while pos < blen
            invariant
                s == inp@,
                bytes == utf8_of(s),
                inp.spec_bytes() == bytes,
                blen == bytes.len(),
                pos <= blen,
                is_char_boundary(bytes, pos as int),
                is_char_boundary(bytes, blen as int),
                pattern_view(pats@) == token_patterns(),
                lex_from(s, 0, Seq::empty()) == lex_from(s, pos as int, tokens_view(tokens@)),
                blen <= i32::MAX ==> tokens_on_boundaries(s, tokens_view(tokens@)),
            decreases blen - pos,
        {
            let remaining = str_slice(inp, pos, blen);
            proof {
                lemma_suffix_text(s, pos as int);
                assert(remaining.spec_bytes() == encode_utf8(remaining@));
                decode_utf8_encode_utf8(bytes.subrange(pos as int, blen as int));
                encode_utf8_decode_utf8(remaining@);
                assert(remaining@ == span_text(s, pos as int, blen as int));
                lemma_first_char_boundary(remaining@);
            }
            let c = remaining.get_char(0);
            let cl = char_len_utf8(c);
            proof {
                lemma_boundary_compose(bytes, pos as int, cl as int);
            }
            if char_is_ws(c) {
                pos = pos + cl;
            } else {
                let (t, e) = match find_first_match(&pats, remaining) {
                    Some((t, e)) => {
                        if e == 0 {
                            return None;
                        }
                        proof {
                            lemma_boundary_compose(bytes, pos as int, e as int);
                        }
                        (t, e)
                    },
                    None => (TokenType::Unrecognized, cl),
                };
                proof {
                    assert(span_ok(s, pos as int, pos + e));
                }
                let lexeme = span_string(inp, pos, pos + e);
                let tok = Token::new(t, lexeme, pos as i32, (pos + e) as i32);
                let ghost before = tokens_view(tokens@);
                tokens.push(tok);
                assert(tokens_view(tokens@) =~= before.push(token_at(s, t, pos as int, pos + e)));
                proof {
                    if blen <= i32::MAX {
                        let now = tokens_view(tokens@);
                        assert forall|i: int| 0 <= i < now.len() implies span_ok(s, #[trigger] now[i].start as int, now[i].end as int) by {
                            if i < before.len() {
                                assert(now[i] == before[i]);
                            }
                        }
                    }
                }
                pos = pos + e;
            }
        }
        Some(tokens)
    }

    /// Reports the result of a terminating scan.
    fn report(all: Vec<Token>) -> (r: Result<Vec<Token>, AppError>)
        ensures
            r matches Ok(ts) ==> ts@ == all@,
            ({
                let us = unrecognized(tokens_view(all@));
                if us.len() == 0 {
                    lex_result(r) == LexOutcome::Tokens(tokens_view(all@))
                } else {
                    lex_result(r) == LexOutcome::Unrecognized(unrecognized_message(us), positions(us))
                }
            }),
    {
        let ghost av = tokens_view(all@);
        let mut found: Vec<(usize, usize)> = Vec::new();
        let mut quoted: Vec<String> = Vec::new();
        let ghost mut us: Seq<TokenV> = Seq::empty();
        let mut i: usize = 0;
        while i < all.len()
            invariant
                i <= all.len(),
                av == tokens_view(all@),
                us == unrecognized(av.take(i as int)),
                found@ == positions(us),
                quoted.deep_view() == Seq::new(us.len(), |k: int| "'"@ + us[k].lexeme + "'"@),
            decreases all.len() - i,
        {
            assert(av.take(i + 1).drop_last() =~= av.take(i as int));
            assert(av.take(i + 1).last() == all[i as int]@);
            if *all[i].get_token_type() == TokenType::Unrecognized {
                let mut q = "'".to_string();
                q.append(all[i].get_lexeme());
                q.append("'");
                let ghost old_q = quoted.deep_view();
                assert(q@ == "'"@ + all[i as int]@.lexeme + "'"@);
                let start = all[i].get_start() as usize;
                let end = all[i].get_end() as usize;
                found.push((start, end));
                quoted.push(q);
                assert(quoted.deep_view() =~= old_q.push(q@));
                proof {
                    us = us.push(all[i as int]@);
                }
                assert(found@ =~= positions(us));
                assert(quoted.deep_view() =~= Seq::new(us.len(), |k: int| "'"@ + us[k].lexeme + "'"@));
            }
            i = i + 1;
        }
        assert(av.take(av.len() as int) =~= av);
        if found.len() == 0 {
            Ok(all)
        } else {
            let joined = join_strings(&quoted, ", ");
            let mut m = "Unrecognized character".to_string();
            if found.len() > 1 {
                m.append("s");
            } else {
                m.append("");
            }
            m.append(": ");
            m.append(joined.as_str());
            Err(AppError::UnrecognizedTokens(m, found))
        }
    }

    /// Lexical analysis as `lexical_analysis` performs it, or `None` where
    /// it cannot go on (a pattern does not compile, or scanning would not
    /// terminate).
    pub fn try_lexical_analysis(&mut self, input: String) -> (r: Option<Result<Vec<Token>, AppError>>)
        ensures
            final(self).input_text() == input@,
            r is None <==> lex_outcome(input@) is Stuck,
            r matches Some(x) ==> lex_result(x) == lex_outcome(input@),
            r matches Some(Ok(ts)) ==> (utf8_of(input@).len() <= i32::MAX ==> tokens_on_boundaries(
                input@,
                tokens_view(ts@),
            )),
    {
        self.input = input;
        self.chars = crate::text::chars_of(self.input.as_str());
        self.position = 0;
        self.current_char = if self.chars.len() == 0 {
            '\0'
        } else {
            self.chars[0]
        };
        let pats = TokenType::all_patterns();
        if !check_patterns(&pats) {
            return None;
        }
        match Self::scan(self.input.as_str()) {
            None => None,
            Some(all) => Some(Self::report(all)),
        }
    }

    /// Performs lexical analysis: the tokens of the input, or an
    /// `UnrecognizedTokens` error naming every character no pattern
    /// recognises, with their positions.
    pub fn lexical_analysis(&mut self, input: String) -> (r: Result<Vec<Token>, AppError>)
        requires
            !(lex_outcome(input@) is Stuck),
        ensures
            final(self).input_text() == input@,
            lex_result(r) == lex_outcome(input@),
            r matches Ok(ts) ==> (utf8_of(input@).len() <= i32::MAX ==> tokens_on_boundaries(
                input@,
                tokens_view(ts@),
            )),
    {
        match self.try_lexical_analysis(input) {
            Some(r) => r,
            None => Err(AppError::Empty),
        }
    }
}

} // verus!
