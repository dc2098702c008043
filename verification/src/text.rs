//! Character-level text utilities shared by the lexer, parser, semantic
//! analyser and SQL generator.
//!
//! Strings are reasoned about through their `Seq<char>` view; byte offsets
//! (as used by token spans) are reasoned about through the UTF-8 encoding of
//! that view.
use vstd::prelude::*;
use vstd::utf8::*;
use vstd::string::*;

verus! {

broadcast use vstd::utf8::encode_utf8_decode_utf8, vstd::utf8::encode_utf8_valid_utf8;

// ---------------------------------------------------------------------------
// Byte spans
// ---------------------------------------------------------------------------

/// The UTF-8 bytes of a character sequence.
pub open spec fn utf8_of(s: Seq<char>) -> Seq<u8> {
    encode_utf8(s)
}

/// `[start, end)` is a byte range of `s` that begins and ends on character
/// boundaries, so that slicing `s` there is defined.
pub open spec fn span_ok(s: Seq<char>, start: int, end: int) -> bool {
    &&& 0 <= start <= end <= utf8_of(s).len()
    &&& is_char_boundary(utf8_of(s), start)
    &&& is_char_boundary(utf8_of(s), end)
}

/// The characters of `s` that lie in the byte range `[start, end)`.
pub open spec fn span_text(s: Seq<char>, start: int, end: int) -> Seq<char> {
    decode_utf8(utf8_of(s).subrange(start, end))
}

/// A boundary `p + q` of the whole, past the boundary `p`, is the boundary
/// `q` of the suffix starting at `p`.
pub proof fn lemma_boundary_within(b: Seq<u8>, p: int, q: int)
    requires
        valid_utf8(b),
        0 <= p <= b.len(),
        is_char_boundary(b, p),
        0 <= q <= b.len() - p,
        is_char_boundary(b, p + q),
    ensures
        is_char_boundary(b.subrange(p, b.len() as int), q),
{
    let sub = b.subrange(p, b.len() as int);
    valid_utf8_split(b, p);
    if q < sub.len() {
        is_char_boundary_iff_is_leading_byte(sub, q);
        is_char_boundary_iff_is_leading_byte(b, p + q);
        assert(sub[q] == b[p + q]);
    } else {
        is_char_boundary_start_end_of_seq(sub);
    }
}

/// The part of `s` in the byte range `[start, end)`, cut out with std's
/// `str::split_at` at both ends.
pub fn str_slice(s: &str, start: usize, end: usize) -> (r: &str)
    requires
        start <= end <= s.spec_bytes().len(),
        is_char_boundary(s.spec_bytes(), start as int),
        is_char_boundary(s.spec_bytes(), end as int),
    ensures
        r.spec_bytes() == s.spec_bytes().subrange(start as int, end as int),
{
    let (_, rest) = s.split_at(start);
    proof {
        lemma_boundary_within(s.spec_bytes(), start as int, (end - start) as int);
    }
    let (piece, _) = rest.split_at(end - start);
    assert(piece.spec_bytes() =~= s.spec_bytes().subrange(start as int, end as int));
    piece
}

/// Whether `[start, end)` is a byte range of `s` that can be sliced out.
pub fn span_fits(s: &str, start: usize, end: usize) -> (r: bool)
    ensures
        r == span_ok(s@, start as int, end as int),
{
    proof {
        assert(s.spec_bytes() == utf8_of(s@));
    }
    start <= end && end <= s.as_bytes().len() && s.is_char_boundary(start) && s.is_char_boundary(end)
}

/// The text of the byte range `[start, end)` of `s`, as an owned `String`.
pub fn span_string(s: &str, start: usize, end: usize) -> (r: String)
    requires
        span_ok(s@, start as int, end as int),
    ensures
        r@ == span_text(s@, start as int, end as int),
{
    let piece = str_slice(s, start, end);
    proof {
        assert(piece.spec_bytes() == encode_utf8(piece@));
        assert(decode_utf8(encode_utf8(piece@)) == piece@);
    }
    piece.to_string()
}

/// The number of bytes in the UTF-8 encoding of a character.
pub open spec fn char_utf8_len(c: char) -> int {
    encode_scalar(c as u32).len() as int
}

/// `char::len_utf8`.
pub fn char_len_utf8(c: char) -> (r: usize)
    ensures
        r == char_utf8_len(c),
        1 <= r <= 4,
{
    proof {
        char_is_scalar(c);
    }
    let u = c as u32;
    if u <= 0x7F {
        1
    } else if u <= 0x7FF {
        2
    } else if u <= 0xFFFF {
        3
    } else {
        4
    }
}

/// The bytes of a suffix that starts on a character boundary are the
/// encoding of the characters in that suffix.
pub proof fn lemma_suffix_text(s: Seq<char>, pos: int)
    requires
        0 <= pos <= utf8_of(s).len(),
        is_char_boundary(utf8_of(s), pos),
    ensures
        valid_utf8(utf8_of(s).subrange(pos, utf8_of(s).len() as int)),
        utf8_of(span_text(s, pos, utf8_of(s).len() as int)) == utf8_of(s).subrange(
            pos,
            utf8_of(s).len() as int,
        ),
        (span_text(s, pos, utf8_of(s).len() as int).len() == 0) == (pos == utf8_of(s).len()),
{
    let b = utf8_of(s);
    valid_utf8_split(b, pos);
    decode_utf8_encode_utf8(b.subrange(pos, b.len() as int));
    let t = span_text(s, pos, b.len() as int);
    if t.len() == 0 {
        assert(encode_utf8(t) =~= Seq::<u8>::empty());
    }
    if pos == b.len() {
        assert(b.subrange(pos, b.len() as int) =~= Seq::<u8>::empty());
    }
}

/// A boundary `q` of the suffix starting at boundary `p` is the boundary
/// `p + q` of the whole.
pub proof fn lemma_boundary_compose(b: Seq<u8>, p: int, q: int)
    requires
        valid_utf8(b),
        0 <= p <= b.len(),
        is_char_boundary(b, p),
        0 <= q <= b.len() - p,
        is_char_boundary(b.subrange(p, b.len() as int), q),
    ensures
        is_char_boundary(b, p + q),
{
    let sub = b.subrange(p, b.len() as int);
    valid_utf8_split(b, p);
    if q < sub.len() {
        is_char_boundary_iff_is_leading_byte(sub, q);
        is_char_boundary_iff_is_leading_byte(b, p + q);
        assert(sub[q] == b[p + q]);
    } else {
        is_char_boundary_start_end_of_seq(b);
    }
}

/// The encoding of the first character of a non-empty sequence ends on a
/// character boundary.
pub proof fn lemma_first_char_boundary(cs: Seq<char>)
    requires
        cs.len() > 0,
    ensures
        is_char_boundary(encode_utf8(cs), char_utf8_len(cs[0])),
        1 <= char_utf8_len(cs[0]) <= encode_utf8(cs).len(),
        decode_utf8(encode_utf8(cs).subrange(0, char_utf8_len(cs[0]))) == seq![cs[0]],
{
    let b = encode_utf8(cs);
    encode_utf8_first_scalar(cs);
    char_is_scalar(cs[0]);
    let n = char_utf8_len(cs[0]);
    assert(b =~= encode_scalar(cs[0] as u32) + encode_utf8(cs.drop_first()));
    assert(pop_first_scalar(b) =~= encode_utf8(cs.drop_first()));
    is_char_boundary_start_end_of_seq(pop_first_scalar(b));
    reveal_with_fuel(is_char_boundary, 2);
    assert(b.subrange(0, n) =~= encode_utf8(seq![cs[0]])) by {
        assert(encode_utf8(seq![cs[0]]) =~= encode_scalar(cs[0] as u32) + encode_utf8(seq![cs[0]].drop_first()));
        assert(seq![cs[0]].drop_first() =~= Seq::<char>::empty());
    }
    encode_utf8_decode_utf8(seq![cs[0]]);
}

// ---------------------------------------------------------------------------
// Building strings
// ---------------------------------------------------------------------------

/// `String::push`, which std documents as appending the given char to the end
/// of the string.
#[verifier::external_body]
pub(crate) fn string_push(s: &mut String, c: char)
    ensures
        final(s)@ == old(s)@.push(c),
{
    s.push(c)
}

/// The characters of a string slice, in order.
pub fn chars_of(s: &str) -> (r: Vec<char>)
    ensures
        r@ == s@,
{
    let n = s.unicode_len();
    let mut r: Vec<char> = Vec::new();
    let mut i: usize = 0;
    while i < n
        invariant
            n == s@.len(),
            i <= n,
            r@ == s@.subrange(0, i as int),
        decreases n - i,
    {
        let c = s.get_char(i);
        r.push(c);
        i = i + 1;
        assert(r@ =~= s@.subrange(0, i as int));
    }
    assert(r@ =~= s@);
    r
}

/// A `String` holding the given characters.
pub fn string_of(v: &Vec<char>) -> (r: String)
    ensures
        r@ == v@,
{
    let mut r = String::new();
    let mut i: usize = 0;
    while i < v.len()
        invariant
            i <= v.len(),
            r@ == v@.subrange(0, i as int),
        decreases v.len() - i,
    {
        string_push(&mut r, v[i]);
        i = i + 1;
        assert(r@ =~= v@.subrange(0, i as int));
    }
    assert(r@ =~= v@);
    r
}

/// Appends a string slice to a vector of owned strings.
pub fn push_str(v: &mut Vec<String>, s: &str)
    ensures
        final(v).deep_view() == old(v).deep_view().push(s@),
{
    let ghost old_v = v.deep_view();
    v.push(s.to_string());
    assert(v.deep_view() =~= old_v.push(s@));
}

/// Concatenation of two strings.
pub fn concat(a: &str, b: &str) -> (r: String)
    ensures
        r@ == a@ + b@,
{
    let mut r = a.to_string();
    r.append(b);
    r
}

// ---------------------------------------------------------------------------
// Unicode case conversion (std)
// ---------------------------------------------------------------------------

/// The result of std's `str::to_lowercase` (the Unicode `Lowercase` mapping
/// of every character) on the given characters.
pub uninterp spec fn str_lower(s: Seq<char>) -> Seq<char>;

/// The result of std's `str::to_uppercase` (the Unicode `Uppercase` mapping
/// of every character) on the given characters.
pub uninterp spec fn str_upper(s: Seq<char>) -> Seq<char>;

/// All characters are ASCII.
pub open spec fn all_ascii(s: Seq<char>) -> bool {
    forall|i: int| 0 <= i < s.len() ==> (s[i] as u32) < 128
}

/// An ASCII letter `A`-`Z` made lower case; any other character as it is.
pub open spec fn ascii_lower(c: char) -> char {
    if ('A' as u32) <= (c as u32) <= ('Z' as u32) { ((c as u32) + 32) as char } else { c }
}

/// An ASCII letter `a`-`z` made upper case; any other character as it is.
pub open spec fn ascii_upper(c: char) -> char {
    if ('a' as u32) <= (c as u32) <= ('z' as u32) { ((c as u32) - 32) as char } else { c }
}

/// std's `str::to_lowercase`; its result is named `str_lower` of the input,
/// a function of the input alone. On ASCII text the Unicode mapping is the
/// ASCII one, character by character: `A`-`Z` become `a`-`z` and every
/// other character stays. What it does beyond ASCII is left unstated.
#[verifier::external_body]
pub(crate) fn to_lower(s: &str) -> (r: String)
    ensures
        r@ == str_lower(s@),
        all_ascii(s@) ==> r@ == s@.map_values(|c: char| ascii_lower(c)),
{
    s.to_lowercase()
}

/// std's `str::to_uppercase`; its result is named `str_upper` of the input,
/// a function of the input alone. On ASCII text the Unicode mapping is the
/// ASCII one, character by character: `a`-`z` become `A`-`Z` and every
/// other character stays. What it does beyond ASCII is left unstated.
#[verifier::external_body]
pub(crate) fn to_upper(s: &str) -> (r: String)
    ensures
        r@ == str_upper(s@),
        all_ascii(s@) ==> r@ == s@.map_values(|c: char| ascii_upper(c)),
{
    s.to_uppercase()
}

// ---------------------------------------------------------------------------
// Searching
// ---------------------------------------------------------------------------

/// `needle` occurs in `hay` starting at index `i`.
pub open spec fn occurs_at(hay: Seq<char>, needle: Seq<char>, i: int) -> bool {
    0 <= i && i + needle.len() <= hay.len() && hay.subrange(i, i + needle.len()) == needle
}

/// `needle` occurs somewhere in `hay` (std's `str::contains` with a string
/// pattern).
pub open spec fn seq_contains(hay: Seq<char>, needle: Seq<char>) -> bool {
    exists|i: int| occurs_at(hay, needle, i)
}

/// `prefix` is a prefix of `s`.
pub open spec fn starts_with(s: Seq<char>, prefix: Seq<char>) -> bool {
    prefix.len() <= s.len() && s.subrange(0, prefix.len() as int) == prefix
}

pub fn occurs_at_chars(hay: &Vec<char>, needle: &Vec<char>, i: usize) -> (r: bool)
    requires
        i + needle.len() <= hay.len(),
    ensures
        r == occurs_at(hay@, needle@, i as int),
{
    let mut j: usize = 0;
    while j < needle.len()
        invariant
            i + needle.len() <= hay.len(),
            j <= needle.len(),
            forall|k: int| 0 <= k < j ==> hay@[i + k] == needle@[k],
        decreases needle.len() - j,
    {
        if hay[i + j] != needle[j] {
            assert(hay@.subrange(i as int, i + needle@.len())[j as int] != needle@[j as int]);
            return false;
        }
        j = j + 1;
    }
    assert(hay@.subrange(i as int, i + needle@.len()) =~= needle@);
    true
}

/// Whether `needle` occurs in `hay`.
pub fn contains_chars(hay: &Vec<char>, needle: &Vec<char>) -> (r: bool)
    ensures
        r == seq_contains(hay@, needle@),
{
    if needle.len() > hay.len() {
        assert forall|i: int| !occurs_at(hay@, needle@, i) by {}
        return false;
    }
    let last = hay.len() - needle.len();
    let mut i: usize = 0;
    loop
        invariant
            last == hay.len() - needle.len(),
            needle.len() <= hay.len(),
            i <= last,
            forall|k: int| 0 <= k < i ==> !occurs_at(hay@, needle@, k),
        decreases last - i,
    {
        if occurs_at_chars(hay, needle, i) {
            return true;
        }
        if i == last {
            assert forall|k: int| !occurs_at(hay@, needle@, k) by {
                if 0 <= k <= i {
                }
            }
            return false;
        }
        i = i + 1;
    }
}

/// Whether `needle` occurs in `hay` (std's `str::contains(&str)`).
pub fn str_contains(hay: &str, needle: &str) -> (r: bool)
    ensures
        r == seq_contains(hay@, needle@),
{
    let h = chars_of(hay);
    let n = chars_of(needle);
    contains_chars(&h, &n)
}

/// Equality of two character vectors.
pub fn chars_eq(a: &Vec<char>, b: &Vec<char>) -> (r: bool)
    ensures
        r == (a@ == b@),
{
    if a.len() != b.len() {
        return false;
    }
    let mut i: usize = 0;
    while i < a.len()
        invariant
            a.len() == b.len(),
            i <= a.len(),
            forall|k: int| 0 <= k < i ==> a@[k] == b@[k],
        decreases a.len() - i,
    {
        if a[i] != b[i] {
            return false;
        }
        i = i + 1;
    }
    assert(a@ =~= b@);
    true
}

/// Equality of two string slices.
pub fn str_eq(a: &str, b: &str) -> (r: bool)
    ensures
        r == (a@ == b@),
{
    let av = chars_of(a);
    let bv = chars_of(b);
    chars_eq(&av, &bv)
}

/// `items` joined with `sep` between consecutive items (std's `join`).
pub open spec fn join(items: Seq<Seq<char>>, sep: Seq<char>) -> Seq<char>
    decreases items.len(),
{
    if items.len() == 0 {
        Seq::empty()
    } else if items.len() == 1 {
        items[0]
    } else {
        join(items.drop_last(), sep) + sep + items.last()
    }
}

/// Joins owned strings with a separator.
pub fn join_strings(items: &Vec<String>, sep: &str) -> (r: String)
    ensures
        r@ == join(items.deep_view(), sep@),
{
    let mut acc = String::new();
    let mut i: usize = 0;
    while i < items.len()
        invariant
            i <= items.len(),
            acc@ == join(items.deep_view().take(i as int), sep@),
        decreases items.len() - i,
    {
        let ghost dv = items.deep_view();
        assert(dv.take(i + 1).drop_last() =~= dv.take(i as int));
        assert(dv.take(i + 1).last() == items[i as int]@);
        if i > 0 {
            acc.append(sep);
        } else {
            assert(dv.take(1) =~= seq![dv[0]]);
        }
        acc.append(items[i].as_str());
        i = i + 1;
    }
    assert(items.deep_view().take(items.len() as int) =~= items.deep_view());
    acc
}

/// Whether `s` begins with `prefix`.
pub fn starts_with_chars(s: &Vec<char>, prefix: &Vec<char>) -> (r: bool)
    ensures
        r == starts_with(s@, prefix@),
{
    if prefix.len() > s.len() {
        return false;
    }
    let r = occurs_at_chars(s, prefix, 0);
    assert(s@.subrange(0, prefix@.len() as int) == s@.subrange(0int, 0int + prefix@.len()));
    r
}

// ---------------------------------------------------------------------------
// Whitespace and trimming
// ---------------------------------------------------------------------------

/// std's `char::is_whitespace`: the character has the Unicode `White_Space`
/// property.
pub open spec fn is_ws(c: char) -> bool {
    let u = c as u32;
    (0x9 <= u && u <= 0xD) || u == 0x20 || u == 0x85 || u == 0xA0 || u == 0x1680
        || (0x2000 <= u && u <= 0x200A) || u == 0x2028 || u == 0x2029 || u == 0x202F
        || u == 0x205F || u == 0x3000
}

/// Whether `c` is Unicode white space.
pub fn char_is_ws(c: char) -> (r: bool)
    ensures
        r == is_ws(c),
{
    let u = c as u32;
    (0x9 <= u && u <= 0xD) || u == 0x20 || u == 0x85 || u == 0xA0 || u == 0x1680
        || (0x2000 <= u && u <= 0x200A) || u == 0x2028 || u == 0x2029 || u == 0x202F
        || u == 0x205F || u == 0x3000
}

/// `s` without its leading white space.
pub open spec fn trim_start(s: Seq<char>) -> Seq<char>
    decreases s.len(),
{
    if s.len() > 0 && is_ws(s[0]) {
        trim_start(s.drop_first())
    } else {
        s
    }
}

/// `s` without its trailing white space.
pub open spec fn trim_end(s: Seq<char>) -> Seq<char>
    decreases s.len(),
{
    if s.len() > 0 && is_ws(s.last()) {
        trim_end(s.drop_last())
    } else {
        s
    }
}

/// std's `str::trim`: `s` without leading and trailing white space.
pub open spec fn trim(s: Seq<char>) -> Seq<char> {
    trim_end(trim_start(s))
}

/// `s` without the given character repeated at its start or end
/// (std's `str::trim_matches` with a `char` pattern).
pub open spec fn strip_char_start(s: Seq<char>, c: char) -> Seq<char>
    decreases s.len(),
{
    if s.len() > 0 && s[0] == c {
        strip_char_start(s.drop_first(), c)
    } else {
        s
    }
}

pub open spec fn strip_char_end(s: Seq<char>, c: char) -> Seq<char>
    decreases s.len(),
{
    if s.len() > 0 && s.last() == c {
        strip_char_end(s.drop_last(), c)
    } else {
        s
    }
}

pub open spec fn trim_matches(s: Seq<char>, c: char) -> Seq<char> {
    strip_char_end(strip_char_start(s, c), c)
}

proof fn lemma_trim_start_skip(s: Seq<char>, i: int)
    requires
        0 <= i <= s.len(),
        forall|k: int| 0 <= k < i ==> is_ws(s[k]),
    ensures
        trim_start(s) == trim_start(s.subrange(i, s.len() as int)),
    decreases i,
{
    if i > 0 {
        assert(s.drop_first().subrange(i - 1, s.drop_first().len() as int) =~= s.subrange(i, s.len() as int));
        lemma_trim_start_skip(s.drop_first(), i - 1);
    } else {
        assert(s.subrange(0, s.len() as int) =~= s);
    }
}

proof fn lemma_trim_end_take(s: Seq<char>, j: int)
    requires
        0 <= j <= s.len(),
        forall|k: int| j <= k < s.len() ==> is_ws(s[k]),
    ensures
        trim_end(s) == trim_end(s.subrange(0, j)),
    decreases s.len() - j,
{
    if j < s.len() {
        assert(s.drop_last().subrange(0, j) =~= s.subrange(0, j));
        lemma_trim_end_take(s.drop_last(), j);
    } else {
        assert(s.subrange(0, j) =~= s);
    }
}

proof fn lemma_strip_start_skip(s: Seq<char>, c: char, i: int)
    requires
        0 <= i <= s.len(),
        forall|k: int| 0 <= k < i ==> s[k] == c,
    ensures
        strip_char_start(s, c) == strip_char_start(s.subrange(i, s.len() as int), c),
    decreases i,
{
    if i > 0 {
        assert(s.drop_first().subrange(i - 1, s.drop_first().len() as int) =~= s.subrange(i, s.len() as int));
        lemma_strip_start_skip(s.drop_first(), c, i - 1);
    } else {
        assert(s.subrange(0, s.len() as int) =~= s);
    }
}

proof fn lemma_strip_end_take(s: Seq<char>, c: char, j: int)
    requires
        0 <= j <= s.len(),
        forall|k: int| j <= k < s.len() ==> s[k] == c,
    ensures
        strip_char_end(s, c) == strip_char_end(s.subrange(0, j), c),
    decreases s.len() - j,
{
    if j < s.len() {
        assert(s.drop_last().subrange(0, j) =~= s.subrange(0, j));
        lemma_strip_end_take(s.drop_last(), c, j);
    } else {
        assert(s.subrange(0, j) =~= s);
    }
}

/// Subrange of a character vector.
pub fn sub_chars(v: &Vec<char>, from: usize, to: usize) -> (r: Vec<char>)
    requires
        from <= to <= v.len(),
    ensures
        r@ == v@.subrange(from as int, to as int),
{
    let mut r: Vec<char> = Vec::new();
    let mut i = from;
    while i < to
        invariant
            from <= i <= to <= v.len(),
            r@ == v@.subrange(from as int, i as int),
        decreases to - i,
    {
        r.push(v[i]);
        i = i + 1;
        assert(r@ =~= v@.subrange(from as int, i as int));
    }
    r
}

/// std's `str::trim` on a character vector.
pub fn trim_chars(v: &Vec<char>) -> (r: Vec<char>)
    ensures
        r@ == trim(v@),
{
    let mut i: usize = 0;
    while i < v.len() && char_is_ws(v[i])
        invariant
            i <= v.len(),
            forall|k: int| 0 <= k < i ==> is_ws(v@[k]),
        decreases v.len() - i,
    {
        i = i + 1;
    }
    proof {
        lemma_trim_start_skip(v@, i as int);
    }
    let ghost rest = v@.subrange(i as int, v@.len() as int);
    assert(rest.len() == 0 || !is_ws(rest[0]));
    assert(trim_start(rest) == rest);
    let mut j: usize = v.len();
    while j > i && char_is_ws(v[j - 1])
        invariant
            i <= j <= v.len(),
            forall|k: int| j <= k < v.len() ==> is_ws(v@[k]),
        decreases j,
    {
        j = j - 1;
    }
    proof {
        let rj = rest.subrange(0, j - i);
        assert forall|k: int| j - i <= k < rest.len() implies is_ws(rest[k]) by {
            assert(rest[k] == v@[k + i]);
        }
        lemma_trim_end_take(rest, j - i);
        assert(rj =~= v@.subrange(i as int, j as int));
        assert(rj.len() == 0 || !is_ws(rj.last()));
    }
    sub_chars(v, i, j)
}

/// std's `str::trim_matches` with a `char` pattern, on a character vector.
pub fn trim_matches_chars(v: &Vec<char>, c: char) -> (r: Vec<char>)
    ensures
        r@ == trim_matches(v@, c),
{
    let mut i: usize = 0;
    while i < v.len() && v[i] == c
        invariant
            i <= v.len(),
            forall|k: int| 0 <= k < i ==> v@[k] == c,
        decreases v.len() - i,
    {
        i = i + 1;
    }
    proof {
        lemma_strip_start_skip(v@, c, i as int);
    }
    let ghost rest = v@.subrange(i as int, v@.len() as int);
    assert(rest.len() == 0 || rest[0] != c);
    assert(strip_char_start(rest, c) == rest);
    let mut j: usize = v.len();
    while j > i && v[j - 1] == c
        invariant
            i <= j <= v.len(),
            forall|k: int| j <= k < v.len() ==> v@[k] == c,
        decreases j,
    {
        j = j - 1;
    }
    proof {
        let rj = rest.subrange(0, j - i);
        assert forall|k: int| j - i <= k < rest.len() implies rest[k] == c by {
            assert(rest[k] == v@[k + i]);
        }
        lemma_strip_end_take(rest, c, j - i);
        assert(rj =~= v@.subrange(i as int, j as int));
        assert(rj.len() == 0 || rj.last() != c);
    }
    sub_chars(v, i, j)
}

// ---------------------------------------------------------------------------
// Replacing
// ---------------------------------------------------------------------------

/// std's `str::replace` with a non-empty string pattern: every occurrence of
/// `pat`, scanning left to right without overlap, is replaced by `rep`.
pub open spec fn replace_all(s: Seq<char>, pat: Seq<char>, rep: Seq<char>) -> Seq<char>
    decreases s.len(),
{
    if s.len() == 0 || pat.len() == 0 {
        s
    } else if starts_with(s, pat) {
        rep + replace_all(s.subrange(pat.len() as int, s.len() as int), pat, rep)
    } else {
        seq![s[0]] + replace_all(s.drop_first(), pat, rep)
    }
}

/// Replacing with ASCII text keeps ASCII text ASCII.
pub proof fn lemma_replace_all_ascii(s: Seq<char>, pat: Seq<char>, rep: Seq<char>)
    requires
        all_ascii(s),
        all_ascii(rep),
    ensures
        all_ascii(replace_all(s, pat, rep)),
    decreases s.len(),
{
    if s.len() == 0 || pat.len() == 0 {
    } else if starts_with(s, pat) {
        let t = s.subrange(pat.len() as int, s.len() as int);
        assert forall|i: int| 0 <= i < t.len() implies (t[i] as u32) < 128 by {
            assert(t[i] == s[i + pat.len()]);
        }
        lemma_replace_all_ascii(t, pat, rep);
        let r = replace_all(t, pat, rep);
        assert forall|i: int| 0 <= i < (rep + r).len() implies ((rep + r)[i] as u32) < 128 by {
            if i >= rep.len() {
                assert((rep + r)[i] == r[i - rep.len()]);
            }
        }
    } else {
        let t = s.drop_first();
        assert forall|i: int| 0 <= i < t.len() implies (t[i] as u32) < 128 by {
            assert(t[i] == s[i + 1]);
        }
        lemma_replace_all_ascii(t, pat, rep);
        let r = replace_all(t, pat, rep);
        assert forall|i: int| 0 <= i < (seq![s[0]] + r).len() implies ((seq![s[0]] + r)[i] as u32) < 128 by {
            if i >= 1 {
                assert((seq![s[0]] + r)[i] == r[i - 1]);
            }
        }
    }
}

proof fn lemma_replace_step(s: Seq<char>, pat: Seq<char>, rep: Seq<char>, i: int, acc: Seq<char>)
    requires
        pat.len() > 0,
        0 <= i < s.len(),
    ensures
        starts_with(s.subrange(i, s.len() as int), pat) ==> i + pat.len() <= s.len() && acc + replace_all(s.subrange(i, s.len() as int), pat, rep)
            == (acc + rep) + replace_all(s.subrange(i + pat.len(), s.len() as int), pat, rep),
        !starts_with(s.subrange(i, s.len() as int), pat) ==> acc + replace_all(s.subrange(i, s.len() as int), pat, rep)
            == acc.push(s[i]) + replace_all(s.subrange(i + 1, s.len() as int), pat, rep),
{
    let t = s.subrange(i, s.len() as int);
    if starts_with(t, pat) {
        assert(t.subrange(pat.len() as int, t.len() as int) =~= s.subrange(i + pat.len(), s.len() as int));
        assert(acc + (rep + replace_all(s.subrange(i + pat.len(), s.len() as int), pat, rep)) =~= (acc + rep)
            + replace_all(s.subrange(i + pat.len(), s.len() as int), pat, rep));
    } else {
        assert(t.drop_first() =~= s.subrange(i + 1, s.len() as int));
        assert(acc + (seq![s[i]] + replace_all(s.subrange(i + 1, s.len() as int), pat, rep)) =~= acc.push(s[i])
            + replace_all(s.subrange(i + 1, s.len() as int), pat, rep));
    }
}

fn starts_at(s: &Vec<char>, pat: &Vec<char>, i: usize) -> (r: bool)
    requires
        i <= s.len(),
    ensures
        r == starts_with(s@.subrange(i as int, s@.len() as int), pat@),
{
    if pat.len() > s.len() - i {
        return false;
    }
    let r = occurs_at_chars(s, pat, i);
    assert(s@.subrange(i as int, s@.len() as int).subrange(0, pat@.len() as int) =~= s@.subrange(
        i as int,
        i + pat@.len(),
    ));
    r
}

/// std's `str::replace` with a string pattern, on character vectors.
pub fn replace_chars(s: &Vec<char>, pat: &Vec<char>, rep: &Vec<char>) -> (r: Vec<char>)
    ensures
        r@ == replace_all(s@, pat@, rep@),
{
    if pat.len() == 0 {
        let mut copy: Vec<char> = Vec::new();
        let mut k: usize = 0;
        while k < s.len()
            invariant
                k <= s.len(),
                copy@ == s@.subrange(0, k as int),
            decreases s.len() - k,
        {
            copy.push(s[k]);
            k = k + 1;
            assert(copy@ =~= s@.subrange(0, k as int));
        }
        assert(copy@ =~= s@);
        return copy;
    }
    let mut out: Vec<char> = Vec::new();
    let mut i: usize = 0;
    assert(s@.subrange(0, s@.len() as int) =~= s@);
    while i < s.len()
        invariant
            pat@.len() > 0,
            i <= s.len(),
            out@ + replace_all(s@.subrange(i as int, s@.len() as int), pat@, rep@) == replace_all(
                s@,
                pat@,
                rep@,
            ),
        decreases s.len() - i,
    {
        proof {
            lemma_replace_step(s@, pat@, rep@, i as int, out@);
        }
        if starts_at(s, pat, i) {
            let mut k: usize = 0;
            let ghost before = out@;
            while k < rep.len()
                invariant
                    k <= rep.len(),
                    out@ == before + rep@.subrange(0, k as int),
                decreases rep.len() - k,
            {
                out.push(rep[k]);
                k = k + 1;
                assert(out@ =~= before + rep@.subrange(0, k as int));
            }
            assert(rep@.subrange(0, rep@.len() as int) =~= rep@);
            i = i + pat.len();
        } else {
            out.push(s[i]);
            i = i + 1;
        }
    }
    assert(s@.subrange(i as int, s@.len() as int) =~= Seq::<char>::empty());
    assert(out@ + Seq::<char>::empty() =~= out@);
    out
}

/// `str::replace` on string slices.
pub fn str_replace(s: &str, pat: &str, rep: &str) -> (r: String)
    ensures
        r@ == replace_all(s@, pat@, rep@),
{
    let sv = chars_of(s);
    let pv = chars_of(pat);
    let rv = chars_of(rep);
    let out = replace_chars(&sv, &pv, &rv);
    string_of(&out)
}

// ---------------------------------------------------------------------------
// Decimal numbers
// ---------------------------------------------------------------------------

/// The character of a decimal digit.
pub open spec fn digit_char(d: int) -> char {
    (48 + d) as char
}

/// The decimal representation of a natural number, without leading zeros
/// (as std's `Display` for integers writes it).
pub open spec fn decimal(n: nat) -> Seq<char>
    decreases n,
{
    if n < 10 {
        seq![digit_char(n as int)]
    } else {
        decimal(n / 10).push(digit_char((n % 10) as int))
    }
}

/// The decimal representation of an integer, with a leading `-` when negative.
pub open spec fn int_decimal(v: int) -> Seq<char> {
    if v < 0 {
        seq!['-'] + decimal((-v) as nat)
    } else {
        decimal(v as nat)
    }
}

/// `{:02}`: the decimal representation, zero padded to at least two
/// characters (the sign counts towards the width).
pub open spec fn int_decimal_pad2(v: int) -> Seq<char> {
    if 0 <= v < 10 {
        seq!['0', digit_char(v)]
    } else {
        int_decimal(v)
    }
}

fn digit(d: u64) -> (c: char)
    requires
        d < 10,
    ensures
        c == digit_char(d as int),
{
    let b: u8 = 48u8 + (d as u8);
    let c = b as char;
    assert(c == digit_char(d as int)) by {
        assert(b as u32 == 48 + d);
    }
    c
}

/// The decimal representation of `n`.
pub fn u64_decimal(n: u64) -> (r: Vec<char>)
    ensures
        r@ == decimal(n as nat),
    decreases n,
{
    if n < 10 {
        let mut r: Vec<char> = Vec::new();
        r.push(digit(n));
        assert(r@ =~= seq![digit_char(n as int)]);
        r
    } else {
        let mut r = u64_decimal(n / 10);
        r.push(digit(n % 10));
        r
    }
}

/// The decimal representation of a signed integer.
pub fn i64_decimal(v: i64) -> (r: Vec<char>)
    ensures
        r@ == int_decimal(v as int),
{
    if v < 0 {
        let mag: u64 = if v == i64::MIN {
            9223372036854775808u64
        } else {
            (-v) as u64
        };
        let d = u64_decimal(mag);
        let mut r: Vec<char> = Vec::new();
        r.push('-');
        let mut k: usize = 0;
        while k < d.len()
            invariant
                k <= d.len(),
                r@ == seq!['-'] + d@.subrange(0, k as int),
            decreases d.len() - k,
        {
            r.push(d[k]);
            k = k + 1;
            assert(r@ =~= seq!['-'] + d@.subrange(0, k as int));
        }
        assert(d@.subrange(0, d@.len() as int) =~= d@);
        r
    } else {
        u64_decimal(v as u64)
    }
}

/// `{}` formatting of an `i64`.
pub fn i64_string(v: i64) -> (r: String)
    ensures
        r@ == int_decimal(v as int),
{
    let d = i64_decimal(v);
    string_of(&d)
}

/// `{}` formatting of a `u16`.
pub fn u16_string(v: u16) -> (r: String)
    ensures
        r@ == decimal(v as nat),
{
    let d = u64_decimal(v as u64);
    string_of(&d)
}

/// `{:02}` formatting of an `i64`.
pub fn i64_pad2(v: i64) -> (r: Vec<char>)
    ensures
        r@ == int_decimal_pad2(v as int),
{
    if 0 <= v && v < 10 {
        let mut r: Vec<char> = Vec::new();
        r.push('0');
        r.push(digit(v as u64));
        assert(r@ =~= seq!['0', digit_char(v as int)]);
        r
    } else {
        i64_decimal(v)
    }
}

/// Every character of `s` is an ASCII decimal digit.
pub open spec fn all_digits(s: Seq<char>) -> bool {
    forall|i: int| 0 <= i < s.len() ==> '0' <= #[trigger] s[i] <= '9'
}

/// The value of a string of decimal digits.
pub open spec fn digits_value(s: Seq<char>) -> nat
    decreases s.len(),
{
    if s.len() == 0 {
        0
    } else {
        digits_value(s.drop_last()) * 10 + ((s.last() as int - 48) as nat)
    }
}

/// std's `FromStr` for a signed integer type whose values are `[lo, hi]`:
/// an optional `+` or `-`, then one or more decimal digits, and the value in
/// range; otherwise an error (`None`).
pub open spec fn parse_signed(s: Seq<char>, lo: int, hi: int) -> Option<int> {
    if s.len() > 0 && (s[0] == '-' || s[0] == '+') {
        let body = s.drop_first();
        if body.len() > 0 && all_digits(body) {
            let m = digits_value(body) as int;
            if s[0] == '-' {
                if -m >= lo {
                    Some(-m)
                } else {
                    None
                }
            } else if m <= hi {
                Some(m)
            } else {
                None
            }
        } else {
            None
        }
    } else if s.len() > 0 && all_digits(s) {
        let m = digits_value(s) as int;
        if m <= hi {
            Some(m)
        } else {
            None
        }
    } else {
        None
    }
}

/// std's `str::parse::<i64>`.
pub open spec fn parse_i64_spec(s: Seq<char>) -> Option<int> {
    parse_signed(s, i64::MIN as int, i64::MAX as int)
}

/// std's `str::parse::<i32>`.
pub open spec fn parse_i32_spec(s: Seq<char>) -> Option<int> {
    parse_signed(s, i32::MIN as int, i32::MAX as int)
}

/// Scans the digits of `v[from..]`: `Some(value)` when they are one or more
/// digits whose value is at most `limit`.
fn scan_digits(v: &Vec<char>, from: usize, limit: u64) -> (r: Option<u64>)
    requires
        from <= v.len(),
    ensures
        ({
            let body = v@.subrange(from as int, v@.len() as int);
            match r {
                Some(m) => body.len() > 0 && all_digits(body) && m == digits_value(body) && m <= limit,
                None => !(body.len() > 0 && all_digits(body) && digits_value(body) <= limit),
            }
        }),
{
    let ghost body = v@.subrange(from as int, v@.len() as int);
    if from == v.len() {
        return None;
    }
    let mut mag: u64 = 0;
    let mut big = false;
    let mut i = from;
    while i < v.len()
        invariant
            from <= i <= v.len(),
            body == v@.subrange(from as int, v@.len() as int),
            all_digits(v@.subrange(from as int, i as int)),
            big ==> digits_value(v@.subrange(from as int, i as int)) > limit,
            !big ==> mag == digits_value(v@.subrange(from as int, i as int)) && mag <= limit,
        decreases v.len() - i,
    {
        let c = v[i];
        if !('0' <= c && c <= '9') {
            assert(body[i - from] == c);
            return None;
        }
        let ghost pre = v@.subrange(from as int, i as int);
        let ghost next = v@.subrange(from as int, i + 1);
        assert(next.drop_last() =~= pre);
        assert(next.last() == c);
        let d = (c as u32 - 48) as u64;
        if !big {
            let wide: u128 = (mag as u128) * 10 + (d as u128);
            if wide > limit as u128 {
                big = true;
            } else {
                mag = wide as u64;
            }
        }
        i = i + 1;
        assert(all_digits(next)) by {
            assert forall|k: int| 0 <= k < next.len() implies '0' <= #[trigger] next[k] <= '9' by {
                if k < pre.len() {
                    assert(next[k] == pre[k]);
                }
            }
        }
    }
    assert(v@.subrange(from as int, i as int) =~= body);
    if big {
        None
    } else {
        Some(mag)
    }
}

/// std's `str::parse::<i64>` on a character vector.
pub fn parse_i64_chars(v: &Vec<char>) -> (r: Option<i64>)
    ensures
        match r {
            Some(x) => parse_i64_spec(v@) == Some(x as int),
            None => parse_i64_spec(v@) is None,
        },
{
    if v.len() > 0 && (v[0] == '-' || v[0] == '+') {
        assert(v@.subrange(1, v@.len() as int) =~= v@.drop_first());
        if v[0] == '-' {
            match scan_digits(v, 1, 9223372036854775808u64) {
                Some(m) => {
                    if m == 9223372036854775808u64 {
                        Some(i64::MIN)
                    } else {
                        Some(-(m as i64))
                    }
                },
                None => None,
            }
        } else {
            match scan_digits(v, 1, 9223372036854775807u64) {
                Some(m) => Some(m as i64),
                None => None,
            }
        }
    } else {
        assert(v@.subrange(0, v@.len() as int) =~= v@);
        match scan_digits(v, 0, 9223372036854775807u64) {
            Some(m) => Some(m as i64),
            None => None,
        }
    }
}

/// std's `str::parse::<i32>` on a character vector.
pub fn parse_i32_chars(v: &Vec<char>) -> (r: Option<i32>)
    ensures
        match r {
            Some(x) => parse_i32_spec(v@) == Some(x as int),
            None => parse_i32_spec(v@) is None,
        },
{
    if v.len() > 0 && (v[0] == '-' || v[0] == '+') {
        assert(v@.subrange(1, v@.len() as int) =~= v@.drop_first());
        if v[0] == '-' {
            match scan_digits(v, 1, 2147483648u64) {
                Some(m) => {
                    if m == 2147483648u64 {
                        Some(i32::MIN)
                    } else {
                        Some(-(m as i32))
                    }
                },
                None => None,
            }
        } else {
            match scan_digits(v, 1, 2147483647u64) {
                Some(m) => Some(m as i32),
                None => None,
            }
        }
    } else {
        assert(v@.subrange(0, v@.len() as int) =~= v@);
        match scan_digits(v, 0, 2147483647u64) {
            Some(m) => Some(m as i32),
            None => None,
        }
    }
}


// ---------------------------------------------------------------------------
// Fields separated by a character
// ---------------------------------------------------------------------------

/// The position of the first `c` in `s`.
pub open spec fn char_pos(s: Seq<char>, c: char) -> Option<int>
    decreases s.len(),
{
    if s.len() == 0 {
        None
    } else if s[0] == c {
        Some(0)
    } else {
        match char_pos(s.drop_first(), c) {
            Some(i) => Some(i + 1),
            None => None,
        }
    }
}

pub proof fn lemma_char_pos(s: Seq<char>, c: char, i: int)
    requires
        0 <= i <= s.len(),
        forall|k: int| 0 <= k < i ==> s[k] != c,
        i < s.len() ==> s[i] == c,
    ensures
        char_pos(s, c) == (if i < s.len() { Some(i) } else { None::<int> }),
    decreases i,
{
    if i > 0 {
        assert(s[0] != c);
        let t = s.drop_first();
        assert forall|k: int| 0 <= k < i - 1 implies t[k] != c by {
            assert(t[k] == s[k + 1]);
        }
        if i < s.len() {
            assert(t[i - 1] == s[i]);
        }
        lemma_char_pos(t, c, i - 1);
    }
}

/// A found position lies within the text and holds the character.
pub proof fn lemma_char_pos_found(s: Seq<char>, c: char)
    ensures
        char_pos(s, c) matches Some(i) ==> 0 <= i < s.len() && s[i] == c,
    decreases s.len(),
{
    if s.len() > 0 && s[0] != c {
        lemma_char_pos_found(s.drop_first(), c);
    }
}

/// The text before the first `:` (all of it when there is none).
pub open spec fn first_field(s: Seq<char>) -> Seq<char> {
    match char_pos(s, ':') {
        Some(i) => s.subrange(0, i),
        None => s,
    }
}

/// The text between the first and the second `:`, when there is a `:`.
pub open spec fn second_field(s: Seq<char>) -> Option<Seq<char>> {
    match char_pos(s, ':') {
        Some(i) => Some(first_field(s.subrange(i + 1, s.len() as int))),
        None => None,
    }
}

/// An `i32` read from the text, or 0 where it does not read as one.
pub open spec fn i32_or_zero(s: Seq<char>) -> int {
    match parse_i32_spec(s) {
        Some(v) => v,
        None => 0,
    }
}

/// The position of the first `c` in `v`.
pub fn find_char(v: &Vec<char>, c: char) -> (r: Option<usize>)
    ensures
        match r {
            Some(i) => char_pos(v@, c) == Some(i as int) && i < v.len(),
            None => char_pos(v@, c) is None,
        },
{
    let mut i: usize = 0;
    while i < v.len()
        invariant
            i <= v.len(),
            forall|k: int| 0 <= k < i ==> v@[k] != c,
        decreases v.len() - i,
    {
        if v[i] == c {
            proof {
                lemma_char_pos(v@, c, i as int);
            }
            return Some(i);
        }
        i = i + 1;
    }
    proof {
        lemma_char_pos(v@, c, i as int);
    }
    None
}

/// std's `FromStr` for an unsigned integer type whose largest value is
/// `hi`: an optional `+`, then one or more decimal digits, and the value in
/// range; otherwise an error (`None`).
pub open spec fn parse_unsigned(s: Seq<char>, hi: int) -> Option<int> {
    let body = if s.len() > 0 && s[0] == '+' { s.drop_first() } else { s };
    if body.len() > 0 && all_digits(body) && digits_value(body) <= hi {
        Some(digits_value(body) as int)
    } else {
        None
    }
}

/// std's `str::parse::<u64>`.
pub open spec fn parse_u64_spec(s: Seq<char>) -> Option<int> {
    parse_unsigned(s, u64::MAX as int)
}

/// std's `str::parse::<u16>`.
pub open spec fn parse_u16_spec(s: Seq<char>) -> Option<int> {
    parse_unsigned(s, u16::MAX as int)
}

/// std's `str::parse::<u64>` on a character vector.
pub fn parse_u64_chars(v: &Vec<char>) -> (r: Option<u64>)
    ensures
        match r {
            Some(x) => parse_u64_spec(v@) == Some(x as int),
            None => parse_u64_spec(v@) is None,
        },
{
    if v.len() > 0 && v[0] == '+' {
        assert(v@.subrange(1, v@.len() as int) =~= v@.drop_first());
        scan_digits(v, 1, u64::MAX)
    } else {
        assert(v@.subrange(0, v@.len() as int) =~= v@);
        scan_digits(v, 0, u64::MAX)
    }
}

/// std's `str::parse::<u16>` on a character vector.
pub fn parse_u16_chars(v: &Vec<char>) -> (r: Option<u16>)
    ensures
        match r {
            Some(x) => parse_u16_spec(v@) == Some(x as int),
            None => parse_u16_spec(v@) is None,
        },
{
    let m = if v.len() > 0 && v[0] == '+' {
        assert(v@.subrange(1, v@.len() as int) =~= v@.drop_first());
        scan_digits(v, 1, 65535u64)
    } else {
        assert(v@.subrange(0, v@.len() as int) =~= v@);
        scan_digits(v, 0, 65535u64)
    };
    match m {
        Some(x) => Some(x as u16),
        None => None,
    }
}

// ---------------------------------------------------------------------------
// Lines and paths
// ---------------------------------------------------------------------------

/// std's `str::lines`: the text split at `\n`, a `\r` just before a `\n`
/// dropped with it, and no empty line after a final line ending.
pub open spec fn lines(s: Seq<char>) -> Seq<Seq<char>>
    decreases s.len(),
{
    if s.len() == 0 {
        Seq::empty()
    } else {
        match char_pos(s, '\n') {
            None => Seq::empty().push(s),
            Some(i) => {
                proof {
                    lemma_char_pos_found(s, '\n');
                }
                let line = s.subrange(0, i);
                let line = if line.len() > 0 && line.last() == '\r' { line.drop_last() } else { line };
                Seq::empty().push(line) + lines(s.subrange(i + 1, s.len() as int))
            },
        }
    }
}

/// The lines of a text.
pub fn text_lines(s: &str) -> (r: Vec<String>)
    ensures
        r.deep_view() == lines(s@),
{
    let mut rest = chars_of(s);
    let mut out: Vec<String> = Vec::new();
    assert(out.deep_view() =~= Seq::<Seq<char>>::empty());
    loop
        invariant
            out.deep_view() + lines(rest@) == lines(s@),
        decreases rest.len(),
    {
        if rest.len() == 0 {
            assert(out.deep_view() + lines(rest@) =~= out.deep_view());
            return out;
        }
        match find_char(&rest, '\n') {
            None => {
                let ghost before = out.deep_view();
                out.push(string_of(&rest));
                assert(out.deep_view() =~= before.push(rest@));
                assert(lines(rest@) =~= Seq::<Seq<char>>::empty().push(rest@));
                assert(out.deep_view() =~= before + lines(rest@));
                return out;
            },
            Some(i) => {
                let mut line = sub_chars(&rest, 0, i);
                if line.len() > 0 && line[line.len() - 1] == '\r' {
                    line = sub_chars(&line, 0, line.len() - 1);
                    assert(line@ =~= rest@.subrange(0, i as int).drop_last());
                }
                let ghost before = out.deep_view();
                let ghost old_rest = rest@;
                out.push(string_of(&line));
                rest = sub_chars(&rest, i + 1, rest.len());
                assert(out.deep_view() =~= before.push(line@));
                assert(lines(old_rest) =~= Seq::<Seq<char>>::empty().push(line@) + lines(rest@));
                assert(out.deep_view() + lines(rest@) =~= before + lines(old_rest));
            },
        }
    }
}

/// std's `Path::join` of a relative part on Unix: a `/` goes between the
/// two unless the base is empty or already ends with one.
pub open spec fn path_join(base: Seq<char>, part: Seq<char>) -> Seq<char> {
    if base.len() == 0 || base.last() == '/' {
        base + part
    } else {
        base + "/"@ + part
    }
}

/// Joins a relative part to a path.
pub fn join_path(base: &str, part: &str) -> (r: String)
    ensures
        r@ == path_join(base@, part@),
{
    let b = chars_of(base);
    if b.len() == 0 || b[b.len() - 1] == '/' {
        concat(base, part)
    } else {
        let mut s = concat(base, "/");
        s.append(part);
        s
    }
}

/// The value of an optional string.
pub open spec fn opt_text(s: Option<String>) -> Option<Seq<char>> {
    match s {
        Some(x) => Some(x@),
        None => None,
    }
}

} // verus!
