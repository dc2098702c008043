//! The lexer: turns the query text into tokens, trying the token patterns
//! in order at each position.
use vstd::prelude::*;
use vstd::utf8::*;
use vstd::string::*;
use crate::text::{
    char_is_ws, char_len_utf8, char_utf8_len, is_ws, join, join_strings, lemma_boundary_compose,
    lemma_first_char_boundary, lemma_suffix_text, span_ok, span_string, span_text, str_slice,
    utf8_of, lemma_boundary_within,
};
use crate::dsl::token::{lemma_token_mk, pattern_view, token_patterns, Token, TokenType};
use crate::tui::errors::AppError;

verus! {

broadcast use lemma_token_mk, vstd::utf8::encode_utf8_valid_utf8, vstd::utf8::encode_utf8_decode_utf8;

/// The leftmost-first match, as byte offsets `(start, end)`, of the regular
/// expression `pattern` (as `regex::Regex::new` compiles it) in `haystack`;
/// `None` when there is no match or the pattern does not compile.
pub uninterp spec fn regex_find(pattern: Seq<char>, haystack: Seq<char>) -> Option<(int, int)>;

/// `regex::Regex::new(pattern)` followed by `Regex::find(haystack)`.
/// The result is named `regex_find` of the pattern and the haystack; the
/// crate documents that `start <= end` and that both offsets lie on UTF-8
/// character boundaries of the haystack (so that slicing there is safe).
#[verifier::external_body]
pub(crate) fn find_pattern(pattern: &str, haystack: &str) -> (r: Option<(usize, usize)>)
    ensures
        match r {
            Some((s, e)) => {
                &&& regex_find(pattern@, haystack@) == Some((s as int, e as int))
                &&& s <= e <= haystack.spec_bytes().len()
                &&& is_char_boundary(haystack.spec_bytes(), s as int)
                &&& is_char_boundary(haystack.spec_bytes(), e as int)
            },
            None => regex_find(pattern@, haystack@) is None,
        },
{
    match regex::Regex::new(pattern) {
        Ok(re) => match re.find(haystack) {
            Some(m) => Some((m.start(), m.end())),
            None => None,
        },
        Err(_) => None,
    }
}

/// Whether `regex::Regex::new` accepts the pattern.
pub uninterp spec fn regex_compiles(pattern: Seq<char>) -> bool;

/// `regex::Regex::new(pattern)` succeeds; the outcome is named
/// `regex_compiles` of the pattern.
#[verifier::external_body]
pub(crate) fn pattern_compiles(pattern: &str) -> (r: bool)
    ensures
        r == regex_compiles(pattern@),
{
    regex::Regex::new(pattern).is_ok()
}

/// The first pattern, from the `k`-th on, that matches at the very start of
/// `rem`: its token kind and the byte length of the match.
pub open spec fn first_match(pats: Seq<(TokenType, Seq<char>)>, rem: Seq<char>, k: int) -> Option<
    (TokenType, int),
>
    decreases pats.len() - k,
{
    if k < 0 || k >= pats.len() {
        None
    } else {
        match regex_find(pats[k].1, rem) {
            Some((s, e)) => if s == 0 {
                Some((pats[k].0, e))
            } else {
                first_match(pats, rem, k + 1)
            },
            None => first_match(pats, rem, k + 1),
        }
    }
}

/// The outcome of scanning the input: the tokens, or non-termination (a
/// pattern that matches the empty string at the current position would
/// never advance).
pub ghost enum LexRun {
    Tokens(Seq<Token>),
    Diverges,
}

/// `p`, but no more than `limit`.
pub open spec fn clamp_to(p: int, limit: int) -> int {
    if p > limit {
        limit
    } else {
        p
    }
}

/// Scanning from byte offset `pos` with the tokens `acc` found so far:
/// white space is skipped; otherwise the first pattern that matches at the
/// position gives a token, and a character no pattern matches gives an
/// `Unrecognized` token.
pub open spec fn lex_from(inp: Seq<char>, pos: int, acc: Seq<Token>) -> LexRun
    decreases utf8_of(inp).len() - pos,
{
    let blen = utf8_of(inp).len() as int;
    if pos < 0 || pos >= blen {
        LexRun::Tokens(acc)
    } else {
        let rem = span_text(inp, pos, blen);
        let c = rem[0];
        if is_ws(c) {
            lex_from(inp, clamp_to(pos + char_utf8_len(c), blen), acc)
        } else {
            match first_match(token_patterns(), rem, 0) {
                Some((t, e)) => if e <= 0 {
                    LexRun::Diverges
                } else {
                    let np = clamp_to(pos + e, blen);
                    lex_from(inp, np, acc.push(Token::mk(t, pos as usize, np as usize)))
                },
                None => {
                    let np = clamp_to(pos + char_utf8_len(c), blen);
                    lex_from(
                        inp,
                        np,
                        acc.push(Token::mk(TokenType::Unrecognized, pos as usize, np as usize)),
                    )
                },
            }
        }
    }
}

/// The tokens follow one another through the input: each covers at least
/// one byte, and each ends no later than the next begins.
pub open spec fn tokens_in_order(ts: Seq<Token>) -> bool {
    &&& forall|i: int| 0 <= i < ts.len() ==> #[trigger] ts[i].start() < ts[i].end()
    &&& forall|i: int, j: int| 0 <= i < j < ts.len() ==> #[trigger] ts[i].end() <= #[trigger] ts[j].start()
}

proof fn lemma_lex_from_in_order(inp: Seq<char>, pos: int, acc: Seq<Token>)
    requires
        utf8_of(inp).len() <= usize::MAX,
        0 <= pos,
        tokens_in_order(acc),
        forall|i: int| 0 <= i < acc.len() ==> #[trigger] acc[i].end() <= pos,
        forall|i: int| 0 <= i < acc.len() ==> #[trigger] acc[i].end() <= utf8_of(inp).len(),
    ensures
        lex_from(inp, pos, acc) matches LexRun::Tokens(all) ==> {
            &&& tokens_in_order(all)
            &&& forall|i: int| 0 <= i < all.len() ==> #[trigger] all[i].end() <= utf8_of(inp).len()
        },
    decreases utf8_of(inp).len() - pos,
{
    let blen = utf8_of(inp).len() as int;
    if pos >= blen {
    } else {
        let rem = span_text(inp, pos, blen);
        let c = rem[0];
        if is_ws(c) {
            lemma_lex_from_in_order(inp, clamp_to(pos + char_utf8_len(c), blen), acc);
        } else {
            match first_match(token_patterns(), rem, 0) {
                Some((t, e)) => if e > 0 {
                    let np = clamp_to(pos + e, blen);
                    let tok = Token::mk(t, pos as usize, np as usize);
                    let acc2 = acc.push(tok);
                    crate::dsl::token::lemma_token_mk(t, pos as usize, np as usize);
                    assert(tok.start() == pos && tok.end() == np);
                    assert(tokens_in_order(acc2)) by {
                        assert forall|i: int, j: int| 0 <= i < j < acc2.len() implies #[trigger] acc2[i].end()
                            <= #[trigger] acc2[j].start() by {
                            if j < acc.len() {
                                assert(acc2[i] == acc[i] && acc2[j] == acc[j]);
                            } else {
                                assert(acc2[i] == acc[i]);
                            }
                        }
                        assert forall|i: int| 0 <= i < acc2.len() implies #[trigger] acc2[i].start() < acc2[i].end() by {
                            if i < acc.len() {
                                assert(acc2[i] == acc[i]);
                            }
                        }
                    }
                    assert forall|i: int| 0 <= i < acc2.len() implies #[trigger] acc2[i].end() <= np by {
                        if i < acc.len() {
                            assert(acc2[i] == acc[i]);
                        }
                    }
                    assert forall|i: int| 0 <= i < acc2.len() implies #[trigger] acc2[i].end() <= blen by {
                        if i < acc.len() {
                            assert(acc2[i] == acc[i]);
                        }
                    }
                    lemma_lex_from_in_order(inp, np, acc2);
                },
                None => {
                    let np = clamp_to(pos + char_utf8_len(c), blen);
                    let tok = Token::mk(TokenType::Unrecognized, pos as usize, np as usize);
                    let acc2 = acc.push(tok);
                    crate::dsl::token::lemma_token_mk(TokenType::Unrecognized, pos as usize, np as usize);
                    assert(tok.start() == pos && tok.end() == np);
                    assert(tokens_in_order(acc2)) by {
                        assert forall|i: int, j: int| 0 <= i < j < acc2.len() implies #[trigger] acc2[i].end()
                            <= #[trigger] acc2[j].start() by {
                            if j < acc.len() {
                                assert(acc2[i] == acc[i] && acc2[j] == acc[j]);
                            } else {
                                assert(acc2[i] == acc[i]);
                            }
                        }
                        assert forall|i: int| 0 <= i < acc2.len() implies #[trigger] acc2[i].start() < acc2[i].end() by {
                            if i < acc.len() {
                                assert(acc2[i] == acc[i]);
                            }
                        }
                    }
                    assert forall|i: int| 0 <= i < acc2.len() implies #[trigger] acc2[i].end() <= np by {
                        if i < acc.len() {
                            assert(acc2[i] == acc[i]);
                        }
                    }
                    assert forall|i: int| 0 <= i < acc2.len() implies #[trigger] acc2[i].end() <= blen by {
                        if i < acc.len() {
                            assert(acc2[i] == acc[i]);
                        }
                    }
                    lemma_lex_from_in_order(inp, np, acc2);
                },
            }
        }
    }
}

/// Lexing lays the tokens out along the input: each token covers at least
/// one byte, lies within the input, and ends no later than the next token
/// begins; so no two tokens overlap and they come in the order of the text.
pub proof fn lemma_lexed_tokens_in_order(inp: Seq<char>)
    requires
        utf8_of(inp).len() <= usize::MAX,
    ensures
        lex_run(inp) matches LexRun::Tokens(all) ==> {
            &&& tokens_in_order(all)
            &&& forall|i: int| 0 <= i < all.len() ==> #[trigger] all[i].end() <= utf8_of(inp).len()
        },
{
    lemma_lex_from_in_order(inp, 0, Seq::empty());
}

proof fn lemma_unrecognized_sub(ts: Seq<Token>)
    requires
        tokens_in_order(ts),
    ensures
        tokens_in_order(unrecognized(ts)),
        forall|k: int| 0 <= k < unrecognized(ts).len() ==> (#[trigger] unrecognized(ts)[k]).kind() == TokenType::Unrecognized,
        forall|k: int| 0 <= k < unrecognized(ts).len() ==> exists|j: int| 0 <= j < ts.len() && #[trigger] unrecognized(ts)[k] == ts[j],
    decreases ts.len(),
{
    if ts.len() > 0 {
        let init = ts.drop_last();
        assert(tokens_in_order(init)) by {
            assert forall|i: int| 0 <= i < init.len() implies #[trigger] init[i].start() < init[i].end() by {
                assert(init[i] == ts[i]);
            }
            assert forall|i: int, j: int| 0 <= i < j < init.len() implies #[trigger] init[i].end() <= #[trigger] init[j].start() by {
                assert(init[i] == ts[i] && init[j] == ts[j]);
            }
        }
        lemma_unrecognized_sub(init);
        let r = unrecognized(init);
        assert forall|k: int| 0 <= k < r.len() implies exists|j: int| 0 <= j < ts.len() && #[trigger] r[k] == ts[j] by {
            let j = choose|j: int| 0 <= j < init.len() && r[k] == init[j];
            assert(r[k] == ts[j]);
        }
        if ts.last().kind() == TokenType::Unrecognized {
            let u = r.push(ts.last());
            assert(unrecognized(ts) == u);
            assert forall|k: int| 0 <= k < r.len() implies (#[trigger] r[k]).end() <= ts.last().start() by {
                let j = choose|j: int| 0 <= j < init.len() && r[k] == init[j];
                assert(r[k] == ts[j]);
                assert(ts[j].end() <= ts[ts.len() - 1].start());
            }
            assert forall|i: int| 0 <= i < u.len() implies #[trigger] u[i].start() < u[i].end() by {
                if i < r.len() {
                    assert(u[i] == r[i]);
                } else {
                    assert(u[i] == ts[ts.len() - 1]);
                }
            }
            assert forall|i: int, j: int| 0 <= i < j < u.len() implies #[trigger] u[i].end() <= #[trigger] u[j].start() by {
                assert(u[i] == r[i]);
                if j < r.len() {
                    assert(u[j] == r[j]);
                } else {
                    assert(r[i].end() <= ts.last().start());
                }
            }
            assert forall|k: int| 0 <= k < u.len() implies (#[trigger] u[k]).kind() == TokenType::Unrecognized by {
                if k < r.len() {
                    assert(u[k] == r[k]);
                }
            }
            assert forall|k: int| 0 <= k < u.len() implies exists|j: int| 0 <= j < ts.len() && #[trigger] u[k] == ts[j] by {
                if k < r.len() {
                    assert(u[k] == r[k]);
                    let j = choose|j: int| 0 <= j < ts.len() && r[k] == ts[j];
                    assert(u[k] == ts[j]);
                } else {
                    assert(u[k] == ts[ts.len() - 1]);
                }
            }
        } else {
            assert(unrecognized(ts) == r);
        }
    }
}

/// When lexing reports unrecognized characters, there is at least one, and
/// their positions come in the order of the text without overlapping, each
/// spanning at least one byte of the input.
pub proof fn lemma_unrecognized_positions_in_order(inp: Seq<char>)
    requires
        utf8_of(inp).len() <= usize::MAX,
    ensures
        lex_run(inp) matches LexRun::Tokens(all) ==> {
            let us = unrecognized(all);
            &&& tokens_in_order(us)
            &&& forall|k: int| 0 <= k < us.len() ==> (#[trigger] us[k]).kind() == TokenType::Unrecognized
                && us[k].end() <= utf8_of(inp).len()
        },
{
    lemma_lexed_tokens_in_order(inp);
    match lex_run(inp) {
        LexRun::Tokens(all) => {
            lemma_unrecognized_sub(all);
            let us = unrecognized(all);
            assert forall|k: int| 0 <= k < us.len() implies (#[trigger] us[k]).end() <= utf8_of(inp).len() by {
                let j = choose|j: int| 0 <= j < all.len() && us[k] == all[j];
                assert(all[j].end() <= utf8_of(inp).len());
            }
        },
        LexRun::Diverges => {},
    }
}

/// Byte `q` of the input lies within one of the tokens.
pub open spec fn covered(ts: Seq<Token>, q: int) -> bool {
    exists|i: int| 0 <= i < ts.len() && (#[trigger] ts[i]).start() <= q < ts[i].end()
}

/// The character that starts at byte `q` of the input.
pub open spec fn char_at(inp: Seq<char>, q: int) -> char {
    span_text(inp, q, utf8_of(inp).len() as int)[0]
}

/// Every character of the input before byte `upto` that no token covers is
/// white space.
pub open spec fn gaps_blank(inp: Seq<char>, ts: Seq<Token>, upto: int) -> bool {
    forall|q: int|
        0 <= q < upto && q < utf8_of(inp).len() && is_char_boundary(utf8_of(inp), q) && !covered(ts, q)
            ==> is_ws(#[trigger] char_at(inp, q))
}

proof fn lemma_scan_extends(inp: Seq<char>, pos: int, acc: Seq<Token>)
    ensures
        lex_from(inp, pos, acc) matches LexRun::Tokens(all) ==> acc.len() <= all.len() && forall|i: int|
            0 <= i < acc.len() ==> #[trigger] all[i] == acc[i],
    decreases utf8_of(inp).len() - pos,
{
    let blen = utf8_of(inp).len() as int;
    if 0 <= pos < blen {
        let rem = span_text(inp, pos, blen);
        let c = rem[0];
        if is_ws(c) {
            lemma_scan_extends(inp, clamp_to(pos + char_utf8_len(c), blen), acc);
        } else {
            match first_match(token_patterns(), rem, 0) {
                Some((t, e)) => if e > 0 {
                    let np = clamp_to(pos + e, blen);
                    let acc2 = acc.push(Token::mk(t, pos as usize, np as usize));
                    lemma_scan_extends(inp, np, acc2);
                    assert forall|i: int| 0 <= i < acc.len() implies acc2[i] == acc[i] by {}
                },
                None => {
                    let np = clamp_to(pos + char_utf8_len(c), blen);
                    let acc2 = acc.push(Token::mk(TokenType::Unrecognized, pos as usize, np as usize));
                    lemma_scan_extends(inp, np, acc2);
                    assert forall|i: int| 0 <= i < acc.len() implies acc2[i] == acc[i] by {}
                },
            }
        }
    }
}

/// The bytes inside a character's encoding are not character boundaries.
proof fn lemma_inside_char(inp: Seq<char>, pos: int, j: int)
    requires
        0 <= pos < utf8_of(inp).len(),
        is_char_boundary(utf8_of(inp), pos),
        0 < j < char_utf8_len(char_at(inp, pos)),
    ensures
        !is_char_boundary(utf8_of(inp), pos + j),
{
    let b = utf8_of(inp);
    let blen = b.len() as int;
    let cs = span_text(inp, pos, blen);
    lemma_suffix_text(inp, pos);
    lemma_first_char_boundary(cs);
    if is_char_boundary(b, pos + j) {
        lemma_boundary_within(b, pos, j);
        let e = encode_utf8(cs);
        assert(e == b.subrange(pos, blen));
        encode_utf8_first_scalar(cs);
        reveal_with_fuel(is_char_boundary, 2);
        assert(!is_char_boundary(e, j));
    }
}

/// After the character at `pos`, the next position is a boundary.
proof fn lemma_next_char(inp: Seq<char>, pos: int)
    requires
        0 <= pos < utf8_of(inp).len(),
        is_char_boundary(utf8_of(inp), pos),
    ensures
        1 <= char_utf8_len(char_at(inp, pos)),
        pos + char_utf8_len(char_at(inp, pos)) <= utf8_of(inp).len(),
        is_char_boundary(utf8_of(inp), pos + char_utf8_len(char_at(inp, pos))),
{
    let b = utf8_of(inp);
    let blen = b.len() as int;
    let cs = span_text(inp, pos, blen);
    lemma_suffix_text(inp, pos);
    lemma_first_char_boundary(cs);
    lemma_boundary_compose(b, pos, char_utf8_len(cs[0]));
}

proof fn lemma_gaps_scan(inp: Seq<char>, pos: int, acc: Seq<Token>)
    requires
        utf8_of(inp).len() <= usize::MAX,
        0 <= pos <= utf8_of(inp).len(),
        is_char_boundary(utf8_of(inp), pos),
        gaps_blank(inp, acc, pos),
    ensures
        lex_from(inp, pos, acc) matches LexRun::Tokens(all) ==> (tokens_valid(inp, all) ==> gaps_blank(
            inp,
            all,
            utf8_of(inp).len() as int,
        )),
    decreases utf8_of(inp).len() - pos,
{
    let blen = utf8_of(inp).len() as int;
    if pos < blen {
        let rem = span_text(inp, pos, blen);
        let c = rem[0];
        assert(c == char_at(inp, pos));
        lemma_next_char(inp, pos);
        let n = char_utf8_len(c);
        if is_ws(c) {
            let np = clamp_to(pos + n, blen);
            assert(np == pos + n);
            assert forall|q: int|
                0 <= q < np && q < blen && is_char_boundary(utf8_of(inp), q) && !covered(acc, q)
                    implies is_ws(#[trigger] char_at(inp, q)) by {
                if pos < q {
                    lemma_inside_char(inp, pos, q - pos);
                }
            }
            lemma_gaps_scan(inp, np, acc);
        } else {
            match first_match(token_patterns(), rem, 0) {
                Some((t, e)) => if e > 0 {
                    let np = clamp_to(pos + e, blen);
                    let tok = Token::mk(t, pos as usize, np as usize);
                    let acc2 = acc.push(tok);
                    lemma_scan_extends(inp, np, acc2);
                    match lex_from(inp, np, acc2) {
                        LexRun::Tokens(all) => if tokens_valid(inp, all) {
                            assert(all[acc.len() as int] == tok);
                            assert(span_ok(inp, all[acc.len() as int].start() as int, all[acc.len() as int].end() as int));
                            lemma_token_mk(t, pos as usize, np as usize);
                            lemma_cover_step(inp, acc, tok, pos, np);
                            lemma_gaps_scan(inp, np, acc2);
                        },
                        LexRun::Diverges => {},
                    }
                },
                None => {
                    let np = clamp_to(pos + n, blen);
                    assert(np == pos + n);
                    let tok = Token::mk(TokenType::Unrecognized, pos as usize, np as usize);
                    lemma_token_mk(TokenType::Unrecognized, pos as usize, np as usize);
                    lemma_cover_step(inp, acc, tok, pos, np);
                    lemma_gaps_scan(inp, np, acc.push(tok));
                },
            }
        }
    } else {
        assert forall|q: int|
            0 <= q < blen && q < blen && is_char_boundary(utf8_of(inp), q) && !covered(acc, q)
                implies is_ws(#[trigger] char_at(inp, q)) by {
        }
    }
}

proof fn lemma_cover_step(inp: Seq<char>, acc: Seq<Token>, tok: Token, pos: int, np: int)
    requires
        gaps_blank(inp, acc, pos),
        tok.start() == pos,
        tok.end() == np,
        pos <= np,
    ensures
        gaps_blank(inp, acc.push(tok), np),
{
    let acc2 = acc.push(tok);
    assert forall|q: int|
        0 <= q < np && q < utf8_of(inp).len() && is_char_boundary(utf8_of(inp), q) && !covered(acc2, q)
            implies is_ws(#[trigger] char_at(inp, q)) by {
        if q >= pos {
            assert(acc2[acc.len() as int] == tok);
            assert(covered(acc2, q));
        } else {
            if covered(acc, q) {
                let i = choose|i: int| 0 <= i < acc.len() && (#[trigger] acc[i]).start() <= q < acc[i].end();
                assert(acc2[i] == acc[i]);
                assert(covered(acc2, q));
            }
        }
    }
}

/// Lexing skips only white space: every character of the input that no
/// token covers is white space, whenever the tokens lie on character
/// boundaries, which `Lexer::analyze` guarantees of the tokens it returns.
pub proof fn lemma_only_space_between_tokens(inp: Seq<char>)
    requires
        utf8_of(inp).len() <= usize::MAX,
    ensures
        lex_run(inp) matches LexRun::Tokens(all) ==> (tokens_valid(inp, all) ==> gaps_blank(
            inp,
            all,
            utf8_of(inp).len() as int,
        )),
{
    is_char_boundary_start_end_of_seq(utf8_of(inp));
    lemma_gaps_scan(inp, 0, Seq::empty());
}

/// The outcome of scanning the whole input.
pub open spec fn lex_run(inp: Seq<char>) -> LexRun {
    lex_from(inp, 0, Seq::empty())
}

/// The `Unrecognized` tokens, in order.
pub open spec fn unrecognized(ts: Seq<Token>) -> Seq<Token>
    decreases ts.len(),
{
    if ts.len() == 0 {
        Seq::empty()
    } else {
        let r = unrecognized(ts.drop_last());
        if ts.last().kind() == TokenType::Unrecognized {
            r.push(ts.last())
        } else {
            r
        }
    }
}

/// The text of each token, in single quotes.
pub open spec fn quoted_texts(inp: Seq<char>, ts: Seq<Token>) -> Seq<Seq<char>> {
    Seq::new(
        ts.len(),
        |i: int| "'"@ + span_text(inp, ts[i].start() as int, ts[i].end() as int) + "'"@,
    )
}

/// The message reporting unrecognized characters.
pub open spec fn unrecognized_message(inp: Seq<char>, us: Seq<Token>) -> Seq<char> {
    "Unrecognized character"@ + (if us.len() > 1 {
        "s"@
    } else {
        ""@
    }) + ": "@ + join(quoted_texts(inp, us), ", "@)
}

/// The byte spans of the tokens.
pub open spec fn spans(ts: Seq<Token>) -> Seq<(usize, usize)> {
    Seq::new(ts.len(), |i: int| (ts[i].start(), ts[i].end()))
}

/// The result the lexer gives for an input on which scanning terminates:
/// the tokens when every character was recognised, else the error naming
/// the unrecognised characters and their spans.
pub open spec fn lex_result_ok(inp: Seq<char>, r: Result<Vec<Token>, AppError>) -> bool {
    match lex_run(inp) {
        LexRun::Tokens(all) => {
            let us = unrecognized(all);
            if us.len() == 0 {
                r matches Ok(ts) && ts@ == all
            } else {
                r matches Err(AppError::UnrecognizedTokens(m, ps)) && m@ == unrecognized_message(inp, us)
                    && ps@ == spans(us)
            }
        },
        LexRun::Diverges => false,
    }
}

/// Every token's span is a character-aligned byte range of the input.
pub open spec fn tokens_valid(inp: Seq<char>, ts: Seq<Token>) -> bool {
    forall|i: int| 0 <= i < ts.len() ==> span_ok(inp, #[trigger] ts[i].start() as int, ts[i].end() as int)
}

/// The first pattern that matches at the start of `rem`.
fn find_first_match(pats: &Vec<(TokenType, &'static str)>, rem: &str) -> (r: Option<(TokenType, usize)>)
    ensures
        match r {
            Some((t, e)) => first_match(pattern_view(pats@), rem@, 0) == Some((t, e as int))
                && e <= rem.spec_bytes().len() && is_char_boundary(rem.spec_bytes(), e as int),
            None => first_match(pattern_view(pats@), rem@, 0) is None,
        },
{
    let ghost pv = pattern_view(pats@);
    let mut k: usize = 0;
    while k < pats.len()
        invariant
            k <= pats.len(),
            pv == pattern_view(pats@),
            first_match(pv, rem@, 0) == first_match(pv, rem@, k as int),
        decreases pats.len() - k,
    {
        let (t, p) = pats[k];
        assert(pv[k as int] == (t, p@));
        match find_pattern(p, rem) {
            Some((s, e)) => {
                if s == 0 {
                    return Some((t, e));
                }
            },
            None => {},
        }
        k = k + 1;
    }
    None
}

/// A lexer over one input string.
pub struct Lexer {
    input: String,
}

impl Lexer {
    /// The input being lexed.
    pub closed spec fn input_text(self) -> Seq<char> {
        self.input@
    }

    /// Creates a lexer for the given input.
    pub fn new(input: String) -> (r: Lexer)
        ensures
            r.input_text() == input@,
    {
        Lexer { input }
    }

    /// Scans the whole input; `None` where scanning would not terminate.
    fn scan(&self) -> (r: Option<Vec<Token>>)
        ensures
            match r {
                None => lex_run(self.input_text()) is Diverges,
                Some(ts) => lex_run(self.input_text()) == LexRun::Tokens(ts@) && tokens_valid(
                    self.input_text(),
                    ts@,
                ),
            },
    {
        let inp: &str = self.input.as_str();
        let ghost s = inp@;
        let ghost bytes = utf8_of(s);
        assert(inp.spec_bytes() == bytes);
        let blen = inp.as_bytes().len();
        let pats = TokenType::all_patterns();
        let mut tokens: Vec<Token> = Vec::new();
        let mut pos: usize = 0;
        proof {
            is_char_boundary_start_end_of_seq(bytes);
        }
        while pos < blen
            invariant
                s == self.input_text(),
                bytes == utf8_of(s),
                inp.spec_bytes() == bytes,
                blen == bytes.len(),
                pos <= blen,
                is_char_boundary(bytes, pos as int),
                is_char_boundary(bytes, blen as int),
                pattern_view(pats@) == token_patterns(),
                lex_run(s) == lex_from(s, pos as int, tokens@),
                tokens_valid(s, tokens@),
            decreases blen - pos,
        {
            let remaining = str_slice(inp, pos, blen);
            proof {
                lemma_suffix_text(s, pos as int);
                assert(remaining.spec_bytes() == encode_utf8(remaining@));
                decode_utf8_encode_utf8(bytes.subrange(pos as int, blen as int));
                encode_utf8_decode_utf8(remaining@);
                assert(remaining@ == span_text(s, pos as int, blen as int));
                lemma_first_char_boundary(remaining@);
            }
            let c = remaining.get_char(0);
            let cl = char_len_utf8(c);
            proof {
                lemma_boundary_compose(bytes, pos as int, cl as int);
            }
            if char_is_ws(c) {
                pos = pos + cl;
            } else {
                match find_first_match(&pats, remaining) {
                    Some((t, e)) => {
                        if e == 0 {
                            return None;
                        }
                        proof {
                            lemma_boundary_compose(bytes, pos as int, e as int);
                            assert(span_ok(s, pos as int, pos + e));
                        }
                        let tok = Token::new(t, pos, pos + e);
                        let ghost before = tokens@;
                        tokens.push(tok);
                        assert forall|i: int| 0 <= i < tokens@.len() implies span_ok(
                            s,
                            #[trigger] tokens@[i].start() as int,
                            tokens@[i].end() as int,
                        ) by {
                            if i < before.len() {
                                assert(tokens@[i] == before[i]);
                            }
                        }
                        pos = pos + e;
                    },
                    None => {
                        proof {
                            assert(span_ok(s, pos as int, pos + cl));
                        }
                        let tok = Token::new(TokenType::Unrecognized, pos, pos + cl);
                        let ghost before = tokens@;
                        tokens.push(tok);
                        assert forall|i: int| 0 <= i < tokens@.len() implies span_ok(
                            s,
                            #[trigger] tokens@[i].start() as int,
                            tokens@[i].end() as int,
                        ) by {
                            if i < before.len() {
                                assert(tokens@[i] == before[i]);
                            }
                        }
                        pos = pos + cl;
                    },
                }
            }
        }
        Some(tokens)
    }

    /// Reports the result of a terminating scan.
    fn report(&self, all: Vec<Token>) -> (r: Result<Vec<Token>, AppError>)
        requires
            lex_run(self.input_text()) == LexRun::Tokens(all@),
            tokens_valid(self.input_text(), all@),
        ensures
            lex_result_ok(self.input_text(), r),
    {
        let ghost s = self.input_text();
        let mut positions: Vec<(usize, usize)> = Vec::new();
        let mut quoted: Vec<String> = Vec::new();
        let ghost mut us: Seq<Token> = Seq::empty();
        let mut i: usize = 0;
        while i < all.len()
            invariant
                s == self.input_text(),
                i <= all.len(),
                tokens_valid(s, all@),
                us == unrecognized(all@.take(i as int)),
                positions@ == spans(us),
                quoted.deep_view() == quoted_texts(s, us),
            decreases all.len() - i,
        {
            let t = all[i];
            assert(all@.take(i + 1).drop_last() =~= all@.take(i as int));
            if *t.get_token_type() == TokenType::Unrecognized {
                assert(span_ok(s, all@[i as int].start() as int, all@[i as int].end() as int));
                let text = span_string(self.input.as_str(), t.get_start(), t.get_end());
                let mut q = "'".to_string();
                q.append(text.as_str());
                q.append("'");
                let ghost old_q = quoted.deep_view();
                positions.push((t.get_start(), t.get_end()));
                quoted.push(q);
                assert(quoted.deep_view() =~= old_q.push(q@));
                proof {
                    us = us.push(t);
                }
                assert(positions@ =~= spans(us));
                assert(quoted.deep_view() =~= quoted_texts(s, us));
            }
            i = i + 1;
        }
        assert(all@.take(all@.len() as int) =~= all@);
        if positions.len() == 0 {
            Ok(all)
        } else {
            let joined = join_strings(&quoted, ", ");
            let mut m = "Unrecognized character".to_string();
            if positions.len() > 1 {
                m.append("s");
            } else {
                m.append("");
            }
            m.append(": ");
            m.append(joined.as_str());
            Err(AppError::UnrecognizedTokens(m, positions))
        }
    }

    /// Performs lexical analysis: the tokens of the input, or an
    /// `UnrecognizedTokens` error naming every character that no pattern
    /// recognises. Every token's span is a character-aligned byte range of
    /// the input.
    pub fn analyze(&mut self) -> (r: Result<Vec<Token>, AppError>)
        requires
            !(lex_run(old(self).input_text()) is Diverges),
        ensures
            final(self).input_text() == old(self).input_text(),
            lex_result_ok(old(self).input_text(), r),
            r matches Ok(ts) ==> tokens_valid(old(self).input_text(), ts@),
    {
        match self.scan() {
            Some(all) => self.report(all),
            None => {
                assert(false);
                Err(AppError::Empty)
            },
        }
    }

    /// Lexical analysis where scanning terminates: `None` exactly when a
    /// token pattern would match the empty string and scanning would never
    /// end; otherwise `Some` of what `analyze` returns.
    pub fn try_analyze(&mut self) -> (r: Option<Result<Vec<Token>, AppError>>)
        ensures
            final(self).input_text() == old(self).input_text(),
            r is None <==> lex_run(old(self).input_text()) is Diverges,
            r matches Some(res) ==> lex_result_ok(old(self).input_text(), res),
            r matches Some(Ok(ts)) ==> tokens_valid(old(self).input_text(), ts@),
    {
        match self.scan() {
            Some(_) => Some(self.analyze()),
            None => None,
        }
    }
}

} // verus!
