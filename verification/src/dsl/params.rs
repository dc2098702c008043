//! Parameterized queries: every single-quoted literal of generated SQL is
//! taken out of the text, which keeps a `?` placeholder in its place, and
//! handed over separately as a value to bind.
use vstd::prelude::*;
use crate::text::{chars_of, string_of};

verus! {

/// Scans `s` from `i`. `in_literal` tells whether a literal is open, whose
/// text so far is `cur`; `out` is the text so far and `params` the values
/// so far. Inside a literal `''` stands for one quote; a literal still open
/// at the end is closed there.
pub open spec fn scan_literals(
    s: Seq<char>,
    i: int,
    in_literal: bool,
    cur: Seq<char>,
    out: Seq<char>,
    params: Seq<Seq<char>>,
) -> (Seq<char>, Seq<Seq<char>>)
    decreases s.len() - i,
{
    if i < 0 || i >= s.len() {
        if in_literal { (out.push('?'), params.push(cur)) } else { (out, params) }
    } else if !in_literal {
        if s[i] == '\'' {
            scan_literals(s, i + 1, true, Seq::empty(), out, params)
        } else {
            scan_literals(s, i + 1, false, cur, out.push(s[i]), params)
        }
    } else if s[i] == '\'' {
        if i + 1 < s.len() && s[i + 1] == '\'' {
            scan_literals(s, i + 2, true, cur.push('\''), out, params)
        } else {
            scan_literals(s, i + 1, false, Seq::empty(), out.push('?'), params.push(cur))
        }
    } else {
        scan_literals(s, i + 1, true, cur.push(s[i]), out, params)
    }
}

/// The SQL text `s` with each single-quoted literal replaced by `?`, and the
/// literals' values in the order they stand.
pub open spec fn split_literals(s: Seq<char>) -> (Seq<char>, Seq<Seq<char>>) {
    scan_literals(s, 0, false, Seq::empty(), Seq::empty(), Seq::empty())
}

/// The text holds no single quote.
pub open spec fn quote_free(s: Seq<char>) -> bool {
    forall|j: int| 0 <= j < s.len() ==> s[j] != '\''
}

/// A scan that starts from quote-free text gives quote-free text.
proof fn lemma_scan_quote_free(
    s: Seq<char>,
    i: int,
    in_literal: bool,
    cur: Seq<char>,
    out: Seq<char>,
    params: Seq<Seq<char>>,
)
    requires
        quote_free(out),
    ensures
        quote_free(scan_literals(s, i, in_literal, cur, out, params).0),
    decreases s.len() - i,
{
    if i < 0 || i >= s.len() {
        if in_literal {
            assert(quote_free(out.push('?'))) by {
                assert forall|j: int| 0 <= j < out.push('?').len() implies out.push('?')[j] != '\'' by {
                    if j < out.len() {
                        assert(out.push('?')[j] == out[j]);
                    }
                }
            }
        }
    } else if !in_literal {
        if s[i] == '\'' {
            lemma_scan_quote_free(s, i + 1, true, Seq::empty(), out, params);
        } else {
            assert(quote_free(out.push(s[i]))) by {
                assert forall|j: int| 0 <= j < out.push(s[i]).len() implies out.push(s[i])[j] != '\'' by {
                    if j < out.len() {
                        assert(out.push(s[i])[j] == out[j]);
                    }
                }
            }
            lemma_scan_quote_free(s, i + 1, false, cur, out.push(s[i]), params);
        }
    } else if s[i] == '\'' {
        if i + 1 < s.len() && s[i + 1] == '\'' {
            lemma_scan_quote_free(s, i + 2, true, cur.push('\''), out, params);
        } else {
            assert(quote_free(out.push('?'))) by {
                assert forall|j: int| 0 <= j < out.push('?').len() implies out.push('?')[j] != '\'' by {
                    if j < out.len() {
                        assert(out.push('?')[j] == out[j]);
                    }
                }
            }
            lemma_scan_quote_free(s, i + 1, false, Seq::empty(), out.push('?'), params.push(cur));
        }
    } else {
        lemma_scan_quote_free(s, i + 1, true, cur.push(s[i]), out, params);
    }
}

/// No value is left in the text of a parameterized query: it holds no
/// single quote, whatever the SQL it was made from.
pub proof fn lemma_parameterized_text_has_no_literal(s: Seq<char>)
    ensures
        quote_free(split_literals(s).0),
{
    lemma_scan_quote_free(s, 0, false, Seq::empty(), Seq::empty(), Seq::empty());
}

/// Splits the SQL text `sql` into the text with `?` placeholders and the
/// values of its literals, in order.
pub fn parameterize(sql: &str) -> (r: (String, Vec<String>))
    ensures
        (r.0@, r.1.deep_view()) == split_literals(sql@),
        quote_free(r.0@),
{
    let s = chars_of(sql);
    let n = s.len();
    let mut i: usize = 0;
    let mut in_literal = false;
    let mut cur: Vec<char> = Vec::new();
    let mut out: Vec<char> = Vec::new();
    let mut params: Vec<String> = Vec::new();
    assert(cur@ =~= Seq::<char>::empty());
    assert(out@ =~= Seq::<char>::empty());
    assert(params.deep_view() =~= Seq::<Seq<char>>::empty());
    while i < n
        invariant
            n == s@.len(),
            s@ == sql@,
            i <= n,
            scan_literals(s@, i as int, in_literal, cur@, out@, params.deep_view()) == split_literals(sql@),
        decreases n - i,
    {
        let c = s[i];
        if !in_literal {
            if c == '\'' {
                in_literal = true;
                cur = Vec::new();
                assert(cur@ =~= Seq::<char>::empty());
            } else {
                out.push(c);
            }
            i = i + 1;
        } else if c == '\'' {
            if i + 1 < n && s[i + 1] == '\'' {
                cur.push('\'');
                i = i + 2;
            } else {
                out.push('?');
                let value = string_of(&cur);
                let ghost before = params.deep_view();
                params.push(value);
                assert(params.deep_view() =~= before.push(cur@));
                cur = Vec::new();
                assert(cur@ =~= Seq::<char>::empty());
                in_literal = false;
                i = i + 1;
            }
        } else {
            cur.push(c);
            i = i + 1;
        }
    }
    if in_literal {
        out.push('?');
        let value = string_of(&cur);
        let ghost before = params.deep_view();
        params.push(value);
        assert(params.deep_view() =~= before.push(cur@));
    }
    proof {
        lemma_parameterized_text_has_no_literal(sql@);
    }
    (string_of(&out), params)
}

} // verus!
