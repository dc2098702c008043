//! Error types of the application and the user-facing messages they render
//! to.
use vstd::prelude::*;
use crate::text::{
    all_ascii, ascii_lower, chars_of, concat, join, join_strings, lemma_replace_all_ascii, occurs_at,
    occurs_at_chars, replace_all, starts_with,
    starts_with_chars, str_eq, str_lower, str_replace, string_of, sub_chars, to_lower,
};

verus! {

/// Terminal failures.
#[derive(Debug)]
pub enum TUIError {
    TerminalError(String),
}

impl TUIError {
    /// The message of the error: `Terminal error: <msg>`.
    pub fn to_string(&self) -> (r: String)
        ensures
            match self {
                TUIError::TerminalError(m) => r@ == "Terminal error: "@ + m@,
            },
    {
        match self {
            TUIError::TerminalError(m) => concat("Terminal error: ", m.as_str()),
        }
    }
}

/// Errors reported while reading the user's query.
#[derive(Debug, PartialEq)]
pub enum AppError {
    Empty,
    SyntaxError(SyntaxError),
    /// A message and the byte spans of the characters that were not
    /// recognised.
    UnrecognizedTokens(String, Vec<(usize, usize)>),
}

/// Syntax errors found by the parser.
#[derive(Debug, PartialEq, Clone)]
pub enum SyntaxError {
    MissingToken(String),
    UnclosedParenthesis,
    EmptyQuery,
    ExpectedAfter { expected: Vec<String>, after: String, position: usize },
    InvalidContext { token: String, context: String, suggestions: Vec<String> },
}

/// The mathematical value of a `SyntaxError`.
pub ghost enum SyntaxErrorV {
    MissingToken(Seq<char>),
    UnclosedParenthesis,
    EmptyQuery,
    ExpectedAfter { expected: Seq<Seq<char>>, after: Seq<char>, position: usize },
    InvalidContext { token: Seq<char>, context: Seq<char>, suggestions: Seq<Seq<char>> },
}

impl View for SyntaxError {
    type V = SyntaxErrorV;

    open spec fn view(&self) -> SyntaxErrorV {
        match self {
            SyntaxError::MissingToken(t) => SyntaxErrorV::MissingToken(t@),
            SyntaxError::UnclosedParenthesis => SyntaxErrorV::UnclosedParenthesis,
            SyntaxError::EmptyQuery => SyntaxErrorV::EmptyQuery,
            SyntaxError::ExpectedAfter { expected, after, position } => SyntaxErrorV::ExpectedAfter {
                expected: expected.deep_view(),
                after: after@,
                position: *position,
            },
            SyntaxError::InvalidContext { token, context, suggestions } =>
                SyntaxErrorV::InvalidContext {
                token: token@,
                context: context@,
                suggestions: suggestions.deep_view(),
            },
        }
    }
}

/// Semantic errors found after parsing.
#[derive(Debug, PartialEq, Clone)]
pub enum SemanticError {
    InvalidContext { token: String, context: String, suggestions: Vec<String> },
}

/// The mathematical value of a `SemanticError`.
pub ghost enum SemanticErrorV {
    InvalidContext { token: Seq<char>, context: Seq<char>, suggestions: Seq<Seq<char>> },
}

impl View for SemanticError {
    type V = SemanticErrorV;

    open spec fn view(&self) -> SemanticErrorV {
        match self {
            SemanticError::InvalidContext { token, context, suggestions } =>
                SemanticErrorV::InvalidContext {
                token: token@,
                context: context@,
                suggestions: suggestions.deep_view(),
            },
        }
    }
}

// ---------------------------------------------------------------------------
// Friendlier wording
// ---------------------------------------------------------------------------

/// Technical terms reworded for completion suggestions: a known term gets
/// its wording, any other term is written with spaces for `_`, in lower
/// case.
pub open spec fn friendly_for_completion(term: Seq<char>) -> Seq<char> {
    friendly_for_completion_with(term, str_lower(replace_all(term, "_"@, " "@)))
}

/// The wording of a known term, else `lowered`.
pub open spec fn friendly_for_completion_with(term: Seq<char>, lowered: Seq<char>) -> Seq<char> {
    if term == "prof"@ {
        "professor"@
    } else if term == "corereqs"@ {
        "corequisites"@
    } else if term == "prereqs"@ {
        "prerequisites"@
    } else if term == "starts"@ {
        "starts with"@
    } else if term == "ends"@ {
        "ends with"@
    } else if term == "remove extra text"@ {
        "remove extra words"@
    } else if term == "text value"@ {
        "<value>"@
    } else if term == "quoted string"@ {
        "\"text\""@
    } else if term == "identifier"@ {
        "<name>"@
    } else {
        lowered
    }
}

/// Makes technical terms more user-friendly for completion suggestions.
pub fn make_user_friendly_for_completion(term: &str) -> (r: String)
    ensures
        r@ == friendly_for_completion(term@),
        all_ascii(term@) ==> r@ == friendly_for_completion_with(
            term@,
            replace_all(term@, "_"@, " "@).map_values(|c: char| ascii_lower(c)),
        ),
{
    if str_eq(term, "prof") {
        "professor".to_string()
    } else if str_eq(term, "corereqs") {
        "corequisites".to_string()
    } else if str_eq(term, "prereqs") {
        "prerequisites".to_string()
    } else if str_eq(term, "starts") {
        "starts with".to_string()
    } else if str_eq(term, "ends") {
        "ends with".to_string()
    } else if str_eq(term, "remove extra text") {
        "remove extra words".to_string()
    } else if str_eq(term, "text value") {
        "<value>".to_string()
    } else if str_eq(term, "quoted string") {
        "\"text\"".to_string()
    } else if str_eq(term, "identifier") {
        "<name>".to_string()
    } else {
        let spaced = str_replace(term, "_", " ");
        proof {
            reveal_strlit(" ");
            if all_ascii(term@) {
                lemma_replace_all_ascii(term@, "_"@, " "@);
            }
        }
        to_lower(spaced.as_str())
    }
}

/// Technical terms reworded for error messages.
pub open spec fn friendly(term: Seq<char>) -> Seq<char> {
    if term == "entity keyword"@ {
        "search field"@
    } else if term == "string condition"@ {
        "when searching"@
    } else if term == "after string condition"@ {
        "when searching for text"@
    } else if term == "numeric comparison"@ {
        "when comparing numbers"@
    } else if term == "query start"@ {
        "at the beginning"@
    } else if term == "end of query"@ {
        "at the end"@
    } else if term == "start of query"@ {
        "the beginning"@
    } else if term == "prof"@ {
        "professor"@
    } else if term == "corereqs"@ {
        "corequisites"@
    } else if term == "prereqs"@ {
        "prerequisites"@
    } else if term == "is"@ {
        "is"@
    } else if term == "equals"@ {
        "equals"@
    } else if term == "contains"@ {
        "contains"@
    } else if term == "has"@ {
        "has"@
    } else if term == "starts"@ {
        "starts with"@
    } else if term == "ends"@ {
        "ends with"@
    } else if term == "and"@ {
        "and"@
    } else if term == "or"@ {
        "or"@
    } else if term == "remove extra text"@ {
        "remove extra words"@
    } else if term == "text value"@ {
        "some text"@
    } else if term == "quoted string"@ {
        "text in quotes"@
    } else if term == "identifier"@ {
        "a name or value"@
    } else if term == "remove duplicate operator"@ {
        "remove the repeated word"@
    } else {
        str_lower(replace_all(term, "_"@, " "@))
    }
}

fn make_user_friendly(term: &str) -> (r: String)
    ensures
        r@ == friendly(term@),
{
    if str_eq(term, "entity keyword") {
        "search field".to_string()
    } else if str_eq(term, "string condition") {
        "when searching".to_string()
    } else if str_eq(term, "after string condition") {
        "when searching for text".to_string()
    } else if str_eq(term, "numeric comparison") {
        "when comparing numbers".to_string()
    } else if str_eq(term, "query start") {
        "at the beginning".to_string()
    } else if str_eq(term, "end of query") {
        "at the end".to_string()
    } else if str_eq(term, "start of query") {
        "the beginning".to_string()
    } else if str_eq(term, "prof") {
        "professor".to_string()
    } else if str_eq(term, "corereqs") {
        "corequisites".to_string()
    } else if str_eq(term, "prereqs") {
        "prerequisites".to_string()
    } else if str_eq(term, "is") {
        "is".to_string()
    } else if str_eq(term, "equals") {
        "equals".to_string()
    } else if str_eq(term, "contains") {
        "contains".to_string()
    } else if str_eq(term, "has") {
        "has".to_string()
    } else if str_eq(term, "starts") {
        "starts with".to_string()
    } else if str_eq(term, "ends") {
        "ends with".to_string()
    } else if str_eq(term, "and") {
        "and".to_string()
    } else if str_eq(term, "or") {
        "or".to_string()
    } else if str_eq(term, "remove extra text") {
        "remove extra words".to_string()
    } else if str_eq(term, "text value") {
        "some text".to_string()
    } else if str_eq(term, "quoted string") {
        "text in quotes".to_string()
    } else if str_eq(term, "identifier") {
        "a name or value".to_string()
    } else if str_eq(term, "remove duplicate operator") {
        "remove the repeated word".to_string()
    } else {
        let spaced = str_replace(term, "_", " ");
        to_lower(spaced.as_str())
    }
}

// ---------------------------------------------------------------------------
// Extracting the user's text from a token description
// ---------------------------------------------------------------------------

/// The first index at or after `i` where `needle` occurs in `hay`
/// (std's `str::find`).
pub open spec fn find_from(hay: Seq<char>, needle: Seq<char>, i: int) -> Option<int>
    decreases hay.len() - i,
{
    if i < 0 || i + needle.len() > hay.len() {
        None
    } else if occurs_at(hay, needle, i) {
        Some(i)
    } else if i >= hay.len() {
        None
    } else {
        find_from(hay, needle, i + 1)
    }
}

/// The last index before `j` where `needle` occurs in `hay`
/// (std's `str::rfind` when `j` is past the end).
pub open spec fn rfind_before(hay: Seq<char>, needle: Seq<char>, j: int) -> Option<int>
    decreases j,
{
    if j <= 0 {
        None
    } else if occurs_at(hay, needle, j - 1) {
        Some(j - 1)
    } else {
        rfind_before(hay, needle, j - 1)
    }
}

proof fn lemma_find_from_occurs(hay: Seq<char>, needle: Seq<char>, i: int)
    ensures
        find_from(hay, needle, i) matches Some(a) ==> i <= a && occurs_at(hay, needle, a),
    decreases hay.len() - i,
{
    if i < 0 || i + needle.len() > hay.len() {
    } else if occurs_at(hay, needle, i) {
    } else if i >= hay.len() {
    } else {
        lemma_find_from_occurs(hay, needle, i + 1);
    }
}

proof fn lemma_rfind_occurs(hay: Seq<char>, needle: Seq<char>, j: int)
    ensures
        rfind_before(hay, needle, j) matches Some(b) ==> occurs_at(hay, needle, b),
    decreases j,
{
    if j > 0 && !occurs_at(hay, needle, j - 1) {
        lemma_rfind_occurs(hay, needle, j - 1);
    }
}

fn find_chars(hay: &Vec<char>, needle: &Vec<char>) -> (r: Option<usize>)
    ensures
        match r {
            Some(i) => find_from(hay@, needle@, 0) == Some(i as int),
            None => find_from(hay@, needle@, 0) is None,
        },
{
    let mut i: usize = 0;
    while i <= hay.len()
        invariant
            i <= hay.len() + 1,
            find_from(hay@, needle@, 0) == find_from(hay@, needle@, i as int),
        decreases hay.len() + 1 - i,
    {
        if needle.len() > hay.len() - i {
            return None;
        }
        if occurs_at_chars(hay, needle, i) {
            return Some(i);
        }
        if i == hay.len() {
            return None;
        }
        i = i + 1;
    }
    None
}

fn rfind_chars(hay: &Vec<char>, needle: &Vec<char>) -> (r: Option<usize>)
    ensures
        match r {
            Some(i) => rfind_before(hay@, needle@, hay@.len() as int + 1) == Some(i as int),
            None => rfind_before(hay@, needle@, hay@.len() as int + 1) is None,
        },
{
    let mut j: usize = hay.len();
    loop
        invariant
            j <= hay.len(),
            rfind_before(hay@, needle@, hay@.len() as int + 1) == rfind_before(hay@, needle@, j as int + 1),
        decreases j,
    {
        if needle.len() <= hay.len() - j && occurs_at_chars(hay, needle, j) {
            return Some(j);
        }
        if j == 0 {
            assert(rfind_before(hay@, needle@, 0) is None);
            return None;
        }
        j = j - 1;
    }
}

/// The user's own text inside a technical token description, or `None`
/// where the description holds `('` and a later `')` that overlap, on which
/// the text cannot be sliced out.
pub open spec fn user_text(token: Seq<char>) -> Option<Seq<char>> {
    match (find_from(token, "('"@, 0), rfind_before(token, "')"@, token.len() as int + 1)) {
        (Some(a), Some(b)) => if a + 2 <= b {
            Some(token.subrange(a + 2, b))
        } else {
            None
        },
        _ => if starts_with(token, "T_"@) {
            Some(replace_all(str_lower(token.subrange(2, token.len() as int)), "_"@, " "@))
        } else {
            Some(token)
        },
    }
}

/// The spans of `('` and `')` in the token do not overlap (when both occur).
pub open spec fn user_text_defined(token: Seq<char>) -> bool {
    user_text(token) is Some
}

/// Whether the user's text can be taken out of a token description.
pub fn user_text_available(token: &str) -> (r: bool)
    ensures
        r == user_text_defined(token@),
{
    let tv = chars_of(token);
    let open_pat = chars_of("('");
    let close_pat = chars_of("')");
    match (find_chars(&tv, &open_pat), rfind_chars(&tv, &close_pat)) {
        (Some(a), Some(b)) => b >= 2 && a <= b - 2,
        _ => true,
    }
}

fn extract_user_text(token: &str) -> (r: String)
    requires
        user_text_defined(token@),
    ensures
        Some(r@) == user_text(token@),
{
    let tv = chars_of(token);
    let open_pat = chars_of("('");
    let close_pat = chars_of("')");
    proof {
        reveal_strlit("('");
        reveal_strlit("')");
        reveal_strlit("T_");
        lemma_find_from_occurs(tv@, open_pat@, 0);
        lemma_rfind_occurs(tv@, close_pat@, tv@.len() as int + 1);
    }
    let a = find_chars(&tv, &open_pat);
    let b = rfind_chars(&tv, &close_pat);
    match (a, b) {
        (Some(a), Some(b)) => {
            let inner = sub_chars(&tv, a + 2, b);
            return string_of(&inner);
        },
        _ => {},
    }
    let prefix = chars_of("T_");
    if starts_with_chars(&tv, &prefix) {
        let rest = sub_chars(&tv, 2, tv.len());
        let rest_s = string_of(&rest);
        let lowered = to_lower(rest_s.as_str());
        str_replace(lowered.as_str(), "_", " ")
    } else {
        token.to_string()
    }
}

// ---------------------------------------------------------------------------
// Messages
// ---------------------------------------------------------------------------

/// `'s'`
pub open spec fn quoted(s: Seq<char>) -> Seq<char> {
    "'"@ + s + "'"@
}

/// Each item reworded and quoted.
pub open spec fn friendly_quoted(items: Seq<Seq<char>>) -> Seq<Seq<char>>
    decreases items.len(),
{
    if items.len() == 0 {
        Seq::empty()
    } else {
        friendly_quoted(items.drop_last()).push(quoted(friendly(items.last())))
    }
}

fn friendly_quoted_exec(items: &Vec<String>) -> (r: Vec<String>)
    ensures
        r.deep_view() == friendly_quoted(items.deep_view()),
        r.len() == items.len(),
{
    let mut out: Vec<String> = Vec::new();
    let mut i: usize = 0;
    while i < items.len()
        invariant
            i <= items.len(),
            out.len() == i,
            out.deep_view() == friendly_quoted(items.deep_view().take(i as int)),
        decreases items.len() - i,
    {
        let ghost dv = items.deep_view();
        assert(dv.take(i + 1).drop_last() =~= dv.take(i as int));
        let f = make_user_friendly(items[i].as_str());
        let mut q = "'".to_string();
        q.append(f.as_str());
        q.append("'");
        let ghost before = out.deep_view();
        out.push(q);
        assert(out.deep_view() =~= before.push(quoted(friendly(dv[i as int]))));
        i = i + 1;
    }
    assert(items.deep_view().take(items.len() as int) =~= items.deep_view());
    out
}

/// The message of an `InvalidContext` error.
pub open spec fn invalid_context_message(
    token: Seq<char>,
    context: Seq<char>,
    suggestions: Seq<Seq<char>>,
) -> Seq<char> {
    let clean = user_text(token).unwrap();
    if suggestions.len() == 0 {
        quoted(clean) + " is not valid here ("@ + friendly(context) + ")"@
    } else {
        quoted(clean) + " is not valid here. Try: "@ + join(friendly_quoted(suggestions), ", "@)
    }
}

fn invalid_context_message_exec(token: &String, context: &String, suggestions: &Vec<String>) -> (r:
    String)
    requires
        user_text_defined(token@),
    ensures
        r@ == invalid_context_message(token@, context@, suggestions.deep_view()),
{
    let clean = extract_user_text(token.as_str());
    let mut r = "'".to_string();
    r.append(clean.as_str());
    r.append("'");
    if suggestions.len() == 0 {
        let ctx = make_user_friendly(context.as_str());
        r.append(" is not valid here (");
        r.append(ctx.as_str());
        r.append(")");
    } else {
        let fq = friendly_quoted_exec(suggestions);
        let joined = join_strings(&fq, ", ");
        r.append(" is not valid here. Try: ");
        r.append(joined.as_str());
    }
    r
}

/// The message a syntax error is shown to the user with.
pub open spec fn syntax_message(e: SyntaxErrorV) -> Seq<char> {
    match e {
        SyntaxErrorV::MissingToken(t) => "Missing: "@ + t,
        SyntaxErrorV::UnclosedParenthesis => "Missing closing parenthesis ')'"@,
        SyntaxErrorV::EmptyQuery => "Please enter a query to search"@,
        SyntaxErrorV::ExpectedAfter { expected, after, position } => {
            let ufe = friendly_quoted(expected);
            let ufa = friendly(after);
            if after == "start of query"@ {
                if ufe.len() == 1 {
                    "Please start with: "@ + ufe[0]
                } else {
                    "Please start with one of: "@ + join(ufe, ", "@)
                }
            } else if ufe.len() == 1 {
                "After '"@ + ufa + "', please add: "@ + ufe[0]
            } else {
                "After '"@ + ufa + "', please add one of: "@ + join(ufe, ", "@)
            }
        },
        SyntaxErrorV::InvalidContext { token, context, suggestions } => invalid_context_message(
            token,
            context,
            suggestions,
        ),
    }
}

/// The message can be rendered: an `InvalidContext` token whose `('` and
/// `')` overlap cannot be sliced.
pub open spec fn syntax_message_defined(e: SyntaxErrorV) -> bool {
    match e {
        SyntaxErrorV::InvalidContext { token, .. } => user_text_defined(token),
        _ => true,
    }
}

impl SyntaxError {
    /// Whether the error's message can be rendered (see
    /// `syntax_message_defined`).
    pub fn renders(&self) -> (r: bool)
        ensures
            r == syntax_message_defined(self@),
    {
        match self {
            SyntaxError::InvalidContext { token, .. } => user_text_available(token.as_str()),
            _ => true,
        }
    }

    /// The message shown to the user for this error.
    pub fn to_string(&self) -> (r: String)
        requires
            syntax_message_defined(self@),
        ensures
            r@ == syntax_message(self@),
    {
        match self {
            SyntaxError::MissingToken(t) => concat("Missing: ", t.as_str()),
            SyntaxError::UnclosedParenthesis => "Missing closing parenthesis ')'".to_string(),
            SyntaxError::EmptyQuery => "Please enter a query to search".to_string(),
            SyntaxError::ExpectedAfter { expected, after, position: _ } => {
                let ufe = friendly_quoted_exec(expected);
                let ufa = make_user_friendly(after.as_str());
                if str_eq(after.as_str(), "start of query") {
                    if ufe.len() == 1 {
                        concat("Please start with: ", ufe[0].as_str())
                    } else {
                        let joined = join_strings(&ufe, ", ");
                        concat("Please start with one of: ", joined.as_str())
                    }
                } else if ufe.len() == 1 {
                    let mut r = concat("After '", ufa.as_str());
                    r.append("', please add: ");
                    r.append(ufe[0].as_str());
                    r
                } else {
                    let joined = join_strings(&ufe, ", ");
                    let mut r = concat("After '", ufa.as_str());
                    r.append("', please add one of: ");
                    r.append(joined.as_str());
                    r
                }
            },
            SyntaxError::InvalidContext { token, context, suggestions } => {
                invalid_context_message_exec(token, context, suggestions)
            },
        }
    }
}

/// The message a semantic error is shown to the user with.
pub open spec fn semantic_message(e: SemanticErrorV) -> Seq<char> {
    match e {
        SemanticErrorV::InvalidContext { token, context, suggestions } => invalid_context_message(
            token,
            context,
            suggestions,
        ),
    }
}

/// The message of a semantic error can be rendered.
pub open spec fn semantic_message_defined(e: SemanticErrorV) -> bool {
    match e {
        SemanticErrorV::InvalidContext { token, .. } => user_text_defined(token),
    }
}

impl SemanticError {
    /// Whether the error's message can be rendered.
    pub fn renders(&self) -> (r: bool)
        ensures
            r == semantic_message_defined(self@),
    {
        match self {
            SemanticError::InvalidContext { token, .. } => user_text_available(token.as_str()),
        }
    }

    /// The message shown to the user for this error.
    pub fn to_string(&self) -> (r: String)
        requires
            semantic_message_defined(self@),
        ensures
            r@ == semantic_message(self@),
    {
        match self {
            SemanticError::InvalidContext { token, context, suggestions } => {
                invalid_context_message_exec(token, context, suggestions)
            },
        }
    }
}

impl AppError {
    /// The message shown to the user for this error.
    pub fn to_string(&self) -> (r: String)
        requires
            match self {
                AppError::SyntaxError(e) => syntax_message_defined(e@),
                _ => true,
            },
        ensures
            match self {
                AppError::Empty => r@ == "No error"@,
                AppError::SyntaxError(e) => r@ == "Syntax error: "@ + syntax_message(e@),
                AppError::UnrecognizedTokens(m, _) => r@ == "Unrecognized tokens: "@ + m@,
            },
    {
        match self {
            AppError::Empty => "No error".to_string(),
            AppError::SyntaxError(e) => {
                let m = e.to_string();
                concat("Syntax error: ", m.as_str())
            },
            AppError::UnrecognizedTokens(m, _) => concat("Unrecognized tokens: ", m.as_str()),
        }
    }
}

} // verus!
