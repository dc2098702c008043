//! SQL generation: turns a syntax tree into a `SELECT` over the course,
//! section, professor and meeting-time tables.
//!
//! Each routine is stated as a spec function of the node's value returning a
//! `Gen`: the SQL text, the code generation error, or `Stuck` where the
//! routine could not go on at all (a time range without two times, or an
//! hour that overflows when moved to the afternoon).
use vstd::prelude::*;
use crate::dsl::parser::{Ast, NodeType, SNode, TreeNode, lemma_node_parts, node_type_name};
use crate::dsl::token::{TokenType, debug_name};
use crate::dsl::params::{lemma_parameterized_text_has_no_literal, parameterize, quote_free, split_literals};
use crate::tui::save::{opt_str, schedule_filter_list, schedule_filters, sql_escape};
use crate::text::{
    find_char, first_field, i32_or_zero, second_field, chars_of, concat, i64_pad2, i64_string, int_decimal, int_decimal_pad2, parse_i32_chars, parse_i64_chars, parse_i64_spec, replace_all, seq_contains, str_contains,
    str_eq, str_lower, str_replace, str_upper, string_of, sub_chars, to_lower, to_upper, trim,
    trim_chars, trim_matches, trim_matches_chars, all_ascii, ascii_lower, ascii_upper, join, join_strings,
};

verus! {

// ---------------------------------------------------------------------------
// Errors and results
// ---------------------------------------------------------------------------

/// Errors of code generation.
#[derive(Debug, Clone, PartialEq)]
pub enum CodeGenError {
    EmptyAst,
    UnsupportedNode { node_type: String },
    InvalidStructure { message: String },
}

/// The mathematical value of a `CodeGenError`.
pub ghost enum CodeGenErrorV {
    EmptyAst,
    UnsupportedNode { node_type: Seq<char> },
    InvalidStructure { message: Seq<char> },
}

impl View for CodeGenError {
    type V = CodeGenErrorV;

    open spec fn view(&self) -> CodeGenErrorV {
        match self {
            CodeGenError::EmptyAst => CodeGenErrorV::EmptyAst,
            CodeGenError::UnsupportedNode { node_type } => CodeGenErrorV::UnsupportedNode { node_type: node_type@ },
            CodeGenError::InvalidStructure { message } => CodeGenErrorV::InvalidStructure { message: message@ },
        }
    }
}

/// The message of a code generation error.
pub open spec fn codegen_message(e: CodeGenErrorV) -> Seq<char> {
    match e {
        CodeGenErrorV::EmptyAst => "Cannot generate SQL from an empty AST"@,
        CodeGenErrorV::UnsupportedNode { node_type } => "Unsupported node type for code generation: "@ + node_type,
        CodeGenErrorV::InvalidStructure { message } => "Invalid AST structure: "@ + message,
    }
}

impl CodeGenError {
    /// The message of the error.
    pub fn to_string(&self) -> (r: String)
        ensures
            r@ == codegen_message(self@),
    {
        match self {
            CodeGenError::EmptyAst => "Cannot generate SQL from an empty AST".to_string(),
            CodeGenError::UnsupportedNode { node_type } => concat(
                "Unsupported node type for code generation: ",
                node_type.as_str(),
            ),
            CodeGenError::InvalidStructure { message } => concat("Invalid AST structure: ", message.as_str()),
        }
    }
}

/// What a generation routine yields: SQL text, an error, or `Stuck`.
pub ghost enum Gen {
    Sql(Seq<char>),
    Fail(CodeGenErrorV),
    Stuck,
}

/// An `InvalidStructure` failure.
pub open spec fn invalid(message: Seq<char>) -> Gen {
    Gen::Fail(CodeGenErrorV::InvalidStructure { message })
}

/// Failures of the executable generation routines.
enum Halt {
    Error(CodeGenError),
    Stuck,
}

/// The value of an executable generation result.
spec fn gen_view(r: Result<String, Halt>) -> Gen {
    match r {
        Ok(s) => Gen::Sql(s@),
        Err(Halt::Error(e)) => Gen::Fail(e@),
        Err(Halt::Stuck) => Gen::Stuck,
    }
}

fn fail_invalid(message: &str) -> (r: Halt)
    ensures
        gen_view(Err(r)) == invalid(message@),
{
    Halt::Error(CodeGenError::InvalidStructure { message: message.to_string() })
}

fn fail_invalid_owned(message: String) -> (r: Halt)
    ensures
        gen_view(Err(r)) == invalid(message@),
{
    Halt::Error(CodeGenError::InvalidStructure { message })
}

/// The debug form of a node type: `T(Kind)` for a token node, the variant
/// name otherwise.
pub open spec fn node_debug(nt: NodeType) -> Seq<char> {
    match nt {
        NodeType::T(t) => "T("@ + debug_name(t) + ")"@,
        _ => node_type_name(nt),
    }
}

fn debug_text(nt: NodeType) -> (r: String)
    ensures
        r@ == node_debug(nt),
{
    match nt {
        NodeType::T(t) => {
            let mut s = "T(".to_string();
            let name = t.debug_string();
            s.append(name.as_str());
            s.append(")");
            s
        },
        _ => nt.to_string(),
    }
}

fn join3(a: &str, b: &str, c: &str) -> (r: String)
    ensures
        r@ == a@ + b@ + c@,
{
    let mut s = a.to_string();
    s.append(b);
    s.append(c);
    s
}

// ---------------------------------------------------------------------------
// Pieces: conditions, operators and values
// ---------------------------------------------------------------------------

/// The condition of a condition node: its first child's text, else its
/// token's kind.
pub open spec fn condition_text(c: SNode) -> Gen {
    if c.node_type != NodeType::Condition {
        invalid("Expected Condition node, got "@ + node_debug(c.node_type))
    } else if c.children.len() > 0 {
        Gen::Sql(c.children[0].content)
    } else {
        match c.token {
            Some(t) => Gen::Sql(debug_name(t.kind())),
            None => invalid("Condition node has no content"@),
        }
    }
}

/// The SQL operator for a comparison token's name, read in upper case.
pub open spec fn sql_operator(token: Seq<char>) -> Seq<char> {
    let u = str_upper(token);
    if u == "T_EQUALS"@ || u == "T_EQUALSWORD"@ || u == "T_IS"@ || u == "T_EQUAL"@ {
        "="@
    } else if u == "T_NOTEQUALS"@ {
        "!="@
    } else if u == "T_LESSTHAN"@ || u == "T_LESS"@ {
        "<"@
    } else if u == "T_GREATERTHAN"@ || u == "T_GREATER"@ {
        ">"@
    } else if u == "T_LESSEQUAL"@ {
        "<="@
    } else if u == "T_GREATEREQUAL"@ {
        ">="@
    } else if u == "T_LEAST"@ {
        ">="@
    } else if u == "T_MOST"@ {
        "<="@
    } else if u == "T_MORE"@ {
        ">"@
    } else if u == "T_FEWER"@ {
        "<"@
    } else {
        "="@
    }
}

/// The SQL operator of a comparison node.
pub open spec fn binop_text(b: SNode) -> Gen {
    if b.node_type != NodeType::Binop {
        invalid("Expected Binop node, got "@ + node_debug(b.node_type))
    } else if b.children.len() > 0 {
        Gen::Sql(sql_operator(b.children[0].content))
    } else {
        match b.token {
            Some(t) => Gen::Sql(sql_operator(debug_name(t.kind()))),
            None => invalid("Binop node has no content"@),
        }
    }
}

/// The text of a string-like node, without surrounding double quotes.
pub open spec fn string_value(v: SNode) -> Gen {
    if v.node_type == NodeType::Identifier || v.node_type == NodeType::EmailIdentifier
        || v.node_type == NodeType::String {
        Gen::Sql(trim_matches(v.content, '"'))
    } else {
        invalid("Expected string-like node, got "@ + node_debug(v.node_type))
    }
}

/// The decimal text of an integer node, read as an `i64`.
pub open spec fn integer_text(v: SNode) -> Gen {
    if v.node_type != NodeType::Integer {
        invalid("Expected Integer node, got "@ + node_debug(v.node_type))
    } else {
        match parse_i64_spec(v.content) {
            Some(x) => Gen::Sql(int_decimal(x)),
            None => invalid("Cannot parse '"@ + v.content + "' as integer"@),
        }
    }
}

/// A time such as `2:30pm` in 24-hour `HH:MM:00` form: the text is read in
/// lower case, `am` and `pm` are removed, the hours and minutes are read
/// around the first `:` (0 where missing or unreadable), and `pm` adds 12
/// hours except to 12 while `12am` is hour 0. `None` where adding 12
/// overflows an `i32`.
pub open spec fn normalized_time(time: Seq<char>) -> Option<Seq<char>> {
    normalized_lowered(str_lower(time))
}

/// `normalized_time` of a text once it is in lower case.
pub open spec fn normalized_lowered(lower: Seq<char>) -> Option<Seq<char>> {
    let is_pm = seq_contains(lower, "pm"@);
    let is_am = seq_contains(lower, "am"@);
    let clean = trim(replace_all(replace_all(lower, "am"@, Seq::empty()), "pm"@, Seq::empty()));
    let hours = i32_or_zero(trim(first_field(clean)));
    let minutes = match second_field(clean) {
        Some(s) => i32_or_zero(trim(s)),
        None => 0,
    };
    if is_pm && hours != 12 && hours + 12 > i32::MAX {
        None
    } else {
        let h24 = if is_pm && hours != 12 {
            hours + 12
        } else if is_am && hours == 12 {
            0
        } else {
            hours
        };
        Some(int_decimal_pad2(h24) + ":"@ + int_decimal_pad2(minutes) + ":00"@)
    }
}

/// The normalized time of a time node.
pub open spec fn time_text(t: SNode) -> Gen {
    if t.node_type != NodeType::Time {
        invalid("Expected Time node, got "@ + node_debug(t.node_type))
    } else {
        match normalized_time(t.content) {
            Some(s) => Gen::Sql(s),
            None => Gen::Stuck,
        }
    }
}

/// The SQL test of a text column against a value under a condition (read
/// in upper case); single quotes in the value are doubled.
pub open spec fn string_condition_sql(column: Seq<char>, condition: Seq<char>, value: Seq<char>) -> Seq<char> {
    string_condition_upper(column, str_upper(condition), value)
}

/// `string_condition_sql` with the condition already in upper case (`u`).
pub open spec fn string_condition_upper(column: Seq<char>, u: Seq<char>, value: Seq<char>) -> Seq<char> {
    let esc = replace_all(value, "'"@, "''"@);
    let equal = "LOWER("@ + column + ") = LOWER('"@ + esc + "')"@;
    if seq_contains(u, "NOTEQUALS"@) || seq_contains(u, "NOT"@) {
        "LOWER("@ + column + ") != LOWER('"@ + esc + "')"@
    } else if seq_contains(u, "EQUALS"@) || seq_contains(u, "IS"@) || seq_contains(u, "EQUAL"@) {
        equal
    } else if seq_contains(u, "CONTAINS"@) || seq_contains(u, "HAS"@) {
        column + " LIKE '%"@ + esc + "%' COLLATE NOCASE"@
    } else if seq_contains(u, "STARTS"@) {
        column + " LIKE '"@ + esc + "%' COLLATE NOCASE"@
    } else if seq_contains(u, "ENDS"@) {
        column + " LIKE '%"@ + esc + "' COLLATE NOCASE"@
    } else {
        equal
    }
}

fn extract_condition(node: &TreeNode) -> (r: Result<String, Halt>)
    ensures
        gen_view(r) == condition_text(node@),
{
    proof {
        lemma_node_parts(*node);
    }
    if node.node_type != NodeType::Condition {
        return Err(fail_invalid_owned(concat("Expected Condition node, got ", debug_text(node.node_type).as_str())));
    }
    if node.children.len() > 0 {
        return Ok(node.children[0].node_content.clone());
    }
    match node.lexical_token {
        Some(token) => Ok(token.get_token_type().debug_string()),
        None => Err(fail_invalid("Condition node has no content")),
    }
}

fn token_to_sql_operator(token: &str) -> (r: String)
    ensures
        r@ == sql_operator(token@),
{
    let upper = to_upper(token);
    let u = upper.as_str();
    if str_eq(u, "T_EQUALS") || str_eq(u, "T_EQUALSWORD") || str_eq(u, "T_IS") || str_eq(u, "T_EQUAL") {
        "=".to_string()
    } else if str_eq(u, "T_NOTEQUALS") {
        "!=".to_string()
    } else if str_eq(u, "T_LESSTHAN") || str_eq(u, "T_LESS") {
        "<".to_string()
    } else if str_eq(u, "T_GREATERTHAN") || str_eq(u, "T_GREATER") {
        ">".to_string()
    } else if str_eq(u, "T_LESSEQUAL") {
        "<=".to_string()
    } else if str_eq(u, "T_GREATEREQUAL") {
        ">=".to_string()
    } else if str_eq(u, "T_LEAST") {
        ">=".to_string()
    } else if str_eq(u, "T_MOST") {
        "<=".to_string()
    } else if str_eq(u, "T_MORE") {
        ">".to_string()
    } else if str_eq(u, "T_FEWER") {
        "<".to_string()
    } else {
        "=".to_string()
    }
}

fn extract_binop(node: &TreeNode) -> (r: Result<String, Halt>)
    ensures
        gen_view(r) == binop_text(node@),
{
    proof {
        lemma_node_parts(*node);
    }
    if node.node_type != NodeType::Binop {
        return Err(fail_invalid_owned(concat("Expected Binop node, got ", debug_text(node.node_type).as_str())));
    }
    if node.children.len() > 0 {
        return Ok(token_to_sql_operator(node.children[0].node_content.as_str()));
    }
    match node.lexical_token {
        Some(token) => Ok(token_to_sql_operator(token.get_token_type().debug_string().as_str())),
        None => Err(fail_invalid("Binop node has no content")),
    }
}

fn extract_string_value(node: &TreeNode) -> (r: Result<String, Halt>)
    ensures
        gen_view(r) == string_value(node@),
{
    proof {
        lemma_node_parts(*node);
    }
    match node.node_type {
        NodeType::Identifier | NodeType::EmailIdentifier | NodeType::String => {
            let chars = chars_of(node.node_content.as_str());
            let trimmed = trim_matches_chars(&chars, '"');
            Ok(string_of(&trimmed))
        },
        _ => Err(fail_invalid_owned(concat("Expected string-like node, got ", debug_text(node.node_type).as_str()))),
    }
}

fn extract_integer_value(node: &TreeNode) -> (r: Result<String, Halt>)
    ensures
        gen_view(r) == integer_text(node@),
{
    proof {
        lemma_node_parts(*node);
    }
    if node.node_type != NodeType::Integer {
        return Err(fail_invalid_owned(concat("Expected Integer node, got ", debug_text(node.node_type).as_str())));
    }
    let chars = chars_of(node.node_content.as_str());
    match parse_i64_chars(&chars) {
        Some(x) => Ok(i64_string(x)),
        None => Err(fail_invalid_owned(join3("Cannot parse '", node.node_content.as_str(), "' as integer"))),
    }
}

/// A time such as `2:30pm` in 24-hour `HH:MM:00` form (`normalized_time`);
/// `None` where adding 12 hours overflows an `i32`.
pub fn normalize_time(time: &str) -> (r: Option<String>)
    ensures
        match r {
            Some(s) => normalized_time(time@) == Some(s@),
            None => normalized_time(time@) is None,
        },
        all_ascii(time@) ==> normalized_time(time@) == normalized_lowered(
            time@.map_values(|c: char| ascii_lower(c)),
        ),
{
    let lower = to_lower(time);
    let is_pm = str_contains(lower.as_str(), "pm");
    let is_am = str_contains(lower.as_str(), "am");
    let no_am = str_replace(lower.as_str(), "am", "");
    let no_pm = str_replace(no_am.as_str(), "pm", "");
    proof {
        reveal_strlit("");
        assert(""@ =~= Seq::<char>::empty());
    }
    let clean = trim_chars(&chars_of(no_pm.as_str()));
    let (first, second) = match find_char(&clean, ':') {
        Some(i) => {
            let rest = sub_chars(&clean, i + 1, clean.len());
            let second = match find_char(&rest, ':') {
                Some(j) => sub_chars(&rest, 0, j),
                None => rest,
            };
            (sub_chars(&clean, 0, i), Some(second))
        },
        None => (clean.clone(), None),
    };
    proof {
        assert(first@ == first_field(clean@));
        assert(match second {
            Some(s) => second_field(clean@) == Some(s@),
            None => second_field(clean@) is None,
        });
    }
    let hours: i32 = match parse_i32_chars(&trim_chars(&first)) {
        Some(h) => h,
        None => 0,
    };
    let minutes: i32 = match second {
        Some(s) => match parse_i32_chars(&trim_chars(&s)) {
            Some(m) => m,
            None => 0,
        },
        None => 0,
    };
    let hours_24: i32 = if is_pm && hours != 12 {
        if hours > i32::MAX - 12 {
            return None;
        }
        hours + 12
    } else if is_am && hours == 12 {
        0
    } else {
        hours
    };
    let mut out = string_of(&i64_pad2(hours_24 as i64));
    out.append(":");
    let m = string_of(&i64_pad2(minutes as i64));
    out.append(m.as_str());
    out.append(":00");
    Some(out)
}

fn extract_time_value(node: &TreeNode) -> (r: Result<String, Halt>)
    ensures
        gen_view(r) == time_text(node@),
{
    proof {
        lemma_node_parts(*node);
    }
    if node.node_type != NodeType::Time {
        return Err(fail_invalid_owned(concat("Expected Time node, got ", debug_text(node.node_type).as_str())));
    }
    match normalize_time(node.node_content.as_str()) {
        Some(s) => Ok(s),
        None => Err(Halt::Stuck),
    }
}

/// The SQL of a text comparison on a column.
pub fn build_string_condition(column: &str, condition: &str, value: &str) -> (r: String)
    ensures
        r@ == string_condition_sql(column@, condition@, value@),
        all_ascii(condition@) ==> r@ == string_condition_upper(
            column@,
            condition@.map_values(|c: char| ascii_upper(c)),
            value@,
        ),
{
    let escaped = str_replace(value, "'", "''");
    let upper = to_upper(condition);
    let u = upper.as_str();
    let e = escaped.as_str();
    if str_contains(u, "NOTEQUALS") || str_contains(u, "NOT") {
        let mut s = join3("LOWER(", column, ") != LOWER('");
        s.append(e);
        s.append("')");
        s
    } else if str_contains(u, "EQUALS") || str_contains(u, "IS") || str_contains(u, "EQUAL") {
        let mut s = join3("LOWER(", column, ") = LOWER('");
        s.append(e);
        s.append("')");
        s
    } else if str_contains(u, "CONTAINS") || str_contains(u, "HAS") {
        let mut s = join3(column, " LIKE '%", e);
        s.append("%' COLLATE NOCASE");
        s
    } else if str_contains(u, "STARTS") {
        let mut s = join3(column, " LIKE '", e);
        s.append("%' COLLATE NOCASE");
        s
    } else if str_contains(u, "ENDS") {
        let mut s = join3(column, " LIKE '%", e);
        s.append("' COLLATE NOCASE");
        s
    } else {
        let mut s = join3("LOWER(", column, ") = LOWER('");
        s.append(e);
        s.append("')");
        s
    }
}

// ---------------------------------------------------------------------------
// Nodes
// ---------------------------------------------------------------------------

/// A field compared with a value: `<condition> <value>` children, read
/// without checking their number.
pub open spec fn field_sql(n: SNode, column: Seq<char>) -> Gen {
    match condition_text(n.children[0]) {
        Gen::Sql(c) => match string_value(n.children[1]) {
            Gen::Sql(v) => Gen::Sql(string_condition_sql(column, c, v)),
            other => other,
        },
        other => other,
    }
}

/// A field query: two children, a condition and a value.
pub open spec fn field_gen(n: SNode, column: Seq<char>, msg: Seq<char>) -> Gen {
    if n.children.len() != 2 {
        invalid(msg)
    } else {
        field_sql(n, column)
    }
}

/// A condition on either of two text columns.
pub open spec fn either_sql(n: SNode, first: Seq<char>, second: Seq<char>) -> Gen {
    match condition_text(n.children[0]) {
        Gen::Sql(c) => match string_value(n.children[1]) {
            Gen::Sql(v) => Gen::Sql(
                "("@ + string_condition_sql(first, c, v) + " OR "@ + string_condition_sql(second, c, v) + ")"@,
            ),
            other => other,
        },
        other => other,
    }
}

/// A numeric field query: two children, a comparison and an integer.
pub open spec fn numeric_gen(n: SNode, column: Seq<char>, msg: Seq<char>) -> Gen {
    if n.children.len() != 2 {
        invalid(msg)
    } else {
        match binop_text(n.children[0]) {
            Gen::Sql(op) => match integer_text(n.children[1]) {
                Gen::Sql(v) => Gen::Sql(column + " "@ + op + " "@ + v),
                other => other,
            },
            other => other,
        }
    }
}

/// Whether sections are full: the value `true` (in any case) asks for full
/// sections, any other value for sections with room.
pub open spec fn full_gen(n: SNode) -> Gen {
    if n.children.len() != 2 {
        invalid("FullQuery must have condition and value"@)
    } else {
        match string_value(n.children[1]) {
            Gen::Sql(v) => Gen::Sql(
                if str_lower(v) == "true"@ {
                    "s.enrollment >= s.max_enrollment"@
                } else {
                    "s.enrollment < s.max_enrollment"@
                },
            ),
            other => other,
        }
    }
}

/// A time query on the start or the end column (start when the keyword
/// says `start`): a range of two times, or a comparison with one time.
pub open spec fn time_gen(n: SNode) -> Gen {
    let k = n.children;
    if k.len() == 0 {
        invalid("TimeQuery has no children"@)
    } else {
        let column = if seq_contains(str_lower(k[0].content), "start"@) {
            "mt.start_minutes"@
        } else {
            "mt.end_minutes"@
        };
        if k.len() == 2 {
            let tr = k[1];
            if tr.node_type == NodeType::TimeRange {
                if tr.children.len() < 2 {
                    Gen::Stuck
                } else {
                    match time_text(tr.children[0]) {
                        Gen::Sql(s) => match time_text(tr.children[1]) {
                            Gen::Sql(e) => Gen::Sql(
                                "("@ + column + " >= '"@ + s + "' AND "@ + column + " <= '"@ + e + "')"@,
                            ),
                            other => other,
                        },
                        other => other,
                    }
                }
            } else {
                invalid("Expected TimeRange node"@)
            }
        } else if k.len() == 3 {
            match binop_text(k[1]) {
                Gen::Sql(op) => match time_text(k[2]) {
                    Gen::Sql(tv) => Gen::Sql(column + " "@ + op + " '"@ + tv + "'"@),
                    other => other,
                },
                other => other,
            }
        } else {
            invalid("TimeQuery has unexpected number of children"@)
        }
    }
}

/// The meeting-time column of a lowercase day name.
pub open spec fn day_column(name: Seq<char>) -> Option<Seq<char>> {
    if name == "monday"@ {
        Some("mt.is_monday"@)
    } else if name == "tuesday"@ {
        Some("mt.is_tuesday"@)
    } else if name == "wednesday"@ {
        Some("mt.is_wednesday"@)
    } else if name == "thursday"@ {
        Some("mt.is_thursday"@)
    } else if name == "friday"@ {
        Some("mt.is_friday"@)
    } else if name == "saturday"@ {
        Some("mt.is_saturday"@)
    } else if name == "sunday"@ {
        Some("mt.is_sunday"@)
    } else {
        None
    }
}

/// A day query: the day's column equals 1 when the value reads `true` (in
/// any case), 0 otherwise.
pub open spec fn day_gen(n: SNode) -> Gen {
    if n.children.len() == 0 {
        invalid("DayQuery has no children"@)
    } else {
        let d = n.children[0];
        let name = str_lower(d.content);
        match day_column(name) {
            None => invalid("Unknown day: "@ + name),
            Some(column) => if d.children.len() < 2 {
                invalid("Day node missing condition and value"@)
            } else {
                match string_value(d.children[1]) {
                    Gen::Sql(v) => Gen::Sql(column + " = "@ + (if str_lower(v) == "true"@ { "1"@ } else { "0"@ })),
                    other => other,
                }
            },
        }
    }
}

/// Two generated parts joined by a connective, in parentheses; the left
/// part's failure comes first.
pub open spec fn connect(a: Gen, b: Gen, op: Seq<char>) -> Gen {
    match a {
        Gen::Sql(l) => match b {
            Gen::Sql(r) => Gen::Sql("("@ + l + op + r + ")"@),
            other => other,
        },
        other => other,
    }
}

/// The SQL condition of a node.
pub open spec fn gen_node(n: SNode) -> Gen
    decreases n,
{
    let k = n.children;
    match n.node_type {
        NodeType::Query => if k.len() == 0 { invalid("Query node has no children"@) } else { gen_node(k[0]) },
        NodeType::LogicalTerm => if k.len() == 0 { invalid("LogicalTerm node has no children"@) } else { gen_node(k[0]) },
        NodeType::LogicalFactor => if k.len() == 0 { invalid("LogicalFactor node has no children"@) } else { gen_node(k[0]) },
        NodeType::EntityQuery => if k.len() == 0 { invalid("EntityQuery node has no children"@) } else { gen_node(k[0]) },
        NodeType::SectionQuery => if k.len() == 0 { invalid("SectionQuery has no children"@) } else { gen_node(k[0]) },
        NodeType::T(TokenType::And) => if k.len() != 2 {
            invalid("AND node must have exactly 2 children"@)
        } else {
            connect(gen_node(k[0]), gen_node(k[1]), " AND "@)
        },
        NodeType::T(TokenType::Or) => if k.len() != 2 {
            invalid("OR node must have exactly 2 children"@)
        } else {
            connect(gen_node(k[0]), gen_node(k[1]), " OR "@)
        },
        NodeType::T(TokenType::Not) => if k.len() != 1 {
            invalid("NOT node must have exactly 1 child"@)
        } else {
            match gen_node(k[0]) {
                Gen::Sql(w) => Gen::Sql("NOT ("@ + w + ")"@),
                other => other,
            }
        },
        NodeType::ProfessorQuery => if k.len() != 2 {
            invalid("ProfessorQuery must have condition and value"@)
        } else {
            either_sql(n, "p.name"@, "p.email_address"@)
        },
        NodeType::CourseQuery => if k.len() == 0 {
            invalid("CourseQuery has no children"@)
        } else if k.len() == 2 {
            either_sql(n, "c.title"@, "c.subject_code"@)
        } else {
            gen_node(k[0])
        },
        NodeType::SubjectQuery => field_gen(n, "c.subject_code"@, "SubjectQuery must have condition and value"@),
        NodeType::NumberQuery => field_gen(n, "c.number"@, "NumberQuery must have condition and value"@),
        NodeType::TitleQuery => field_gen(n, "c.title"@, "TitleQuery must have condition and value"@),
        NodeType::DescriptionQuery => field_gen(n, "c.description"@, "DescriptionQuery must have condition and value"@),
        NodeType::PrereqsQuery => field_gen(n, "c.prerequisites"@, "PrereqsQuery must have condition and value"@),
        NodeType::CoreqsQuery => field_gen(n, "c.corequisites"@, "CoreqsQuery must have condition and value"@),
        NodeType::InstructionMethodQuery => field_gen(n, "s.instruction_method"@, "InstructionMethodQuery must have condition and value"@),
        NodeType::CampusQuery => field_gen(n, "s.campus"@, "CampusQuery must have condition and value"@),
        NodeType::MeetingTypeQuery => field_gen(n, "mt.meeting_type"@, "MeetingTypeQuery must have condition and value"@),
        NodeType::CreditHoursQuery => numeric_gen(n, "c.credit_hours"@, "CreditHoursQuery must have operator and value"@),
        NodeType::EnrollmentCapQuery => numeric_gen(n, "s.max_enrollment"@, "EnrollmentCapQuery must have operator and value"@),
        NodeType::EnrollmentQuery => numeric_gen(n, "s.enrollment"@, "EnrollmentQuery must have operator and value"@),
        NodeType::FullQuery => full_gen(n),
        NodeType::TimeQuery => time_gen(n),
        NodeType::DayQuery => day_gen(n),
        _ => Gen::Fail(CodeGenErrorV::UnsupportedNode { node_type: node_debug(n.node_type) }),
    }
}

/// The columns and joins every generated query selects from, up to `WHERE `.
pub open spec fn sql_prefix() -> Seq<char> {
    "SELECT DISTINCT c.subject_code, c.number AS course_number, c.title, c.description, c.credit_hours, c.prerequisites, c.corequisites, s.sequence AS section_sequence, s.max_enrollment, s.enrollment, s.instruction_method, s.campus, p.name AS professor_name, p.email_address AS professor_email, mt.start_minutes, mt.end_minutes, mt.meeting_type, mt.is_monday, mt.is_tuesday, mt.is_wednesday, mt.is_thursday, mt.is_friday, mt.is_saturday, mt.is_sunday FROM sections s JOIN courses c ON s.school_id = c.school_id AND s.subject_code = c.subject_code AND s.course_number = c.number LEFT JOIN professors p ON s.primary_professor_id = p.id AND s.school_id = p.school_id LEFT JOIN meeting_times mt ON s.sequence = mt.section_sequence AND s.term_collection_id = mt.term_collection_id AND s.school_id = mt.school_id AND s.subject_code = mt.subject_code AND s.course_number = mt.course_number WHERE "@
}

/// The outcome of generating SQL for a syntax tree: the condition of the
/// root placed after `sql_prefix`, or `EmptyAst` for an empty tree.
pub open spec fn sql_outcome(head: Option<SNode>) -> Gen {
    match head {
        None => Gen::Fail(CodeGenErrorV::EmptyAst),
        Some(root) => match gen_node(root) {
            Gen::Sql(w) => Gen::Sql(sql_prefix() + w),
            other => other,
        },
    }
}

fn generate_field(node: &TreeNode, column: &str, msg: &str) -> (r: Result<String, Halt>)
    ensures
        gen_view(r) == field_gen(node@, column@, msg@),
{
    proof {
        lemma_node_parts(*node);
    }
    if node.children.len() != 2 {
        return Err(fail_invalid(msg));
    }
    let condition = match extract_condition(&node.children[0]) {
        Ok(c) => c,
        Err(e) => return Err(e),
    };
    let value = match extract_string_value(&node.children[1]) {
        Ok(v) => v,
        Err(e) => return Err(e),
    };
    Ok(build_string_condition(column, condition.as_str(), value.as_str()))
}

fn generate_either(node: &TreeNode, first: &str, second: &str) -> (r: Result<String, Halt>)
    requires
        node@.children.len() == 2,
    ensures
        gen_view(r) == either_sql(node@, first@, second@),
{
    proof {
        lemma_node_parts(*node);
    }
    let condition = match extract_condition(&node.children[0]) {
        Ok(c) => c,
        Err(e) => return Err(e),
    };
    let value = match extract_string_value(&node.children[1]) {
        Ok(v) => v,
        Err(e) => return Err(e),
    };
    let a = build_string_condition(first, condition.as_str(), value.as_str());
    let b = build_string_condition(second, condition.as_str(), value.as_str());
    let mut s = join3("(", a.as_str(), " OR ");
    s.append(b.as_str());
    s.append(")");
    Ok(s)
}

fn generate_numeric(node: &TreeNode, column: &str, msg: &str) -> (r: Result<String, Halt>)
    ensures
        gen_view(r) == numeric_gen(node@, column@, msg@),
{
    proof {
        lemma_node_parts(*node);
    }
    if node.children.len() != 2 {
        return Err(fail_invalid(msg));
    }
    let operator = match extract_binop(&node.children[0]) {
        Ok(o) => o,
        Err(e) => return Err(e),
    };
    let value = match extract_integer_value(&node.children[1]) {
        Ok(v) => v,
        Err(e) => return Err(e),
    };
    let mut s = join3(column, " ", operator.as_str());
    s.append(" ");
    s.append(value.as_str());
    Ok(s)
}

fn generate_subject_query(node: &TreeNode) -> (r: Result<String, Halt>)
    requires
        node.node_type == NodeType::SubjectQuery,
    ensures
        gen_view(r) == gen_node(node@),
{
    proof {
        lemma_node_parts(*node);
    }
    generate_field(node, "c.subject_code", "SubjectQuery must have condition and value")
}

fn generate_number_query(node: &TreeNode) -> (r: Result<String, Halt>)
    requires
        node.node_type == NodeType::NumberQuery,
    ensures
        gen_view(r) == gen_node(node@),
{
    proof {
        lemma_node_parts(*node);
    }
    generate_field(node, "c.number", "NumberQuery must have condition and value")
}

fn generate_title_query(node: &TreeNode) -> (r: Result<String, Halt>)
    requires
        node.node_type == NodeType::TitleQuery,
    ensures
        gen_view(r) == gen_node(node@),
{
    proof {
        lemma_node_parts(*node);
    }
    generate_field(node, "c.title", "TitleQuery must have condition and value")
}

fn generate_description_query(node: &TreeNode) -> (r: Result<String, Halt>)
    requires
        node.node_type == NodeType::DescriptionQuery,
    ensures
        gen_view(r) == gen_node(node@),
{
    proof {
        lemma_node_parts(*node);
    }
    generate_field(node, "c.description", "DescriptionQuery must have condition and value")
}

fn generate_prereqs_query(node: &TreeNode) -> (r: Result<String, Halt>)
    requires
        node.node_type == NodeType::PrereqsQuery,
    ensures
        gen_view(r) == gen_node(node@),
{
    proof {
        lemma_node_parts(*node);
    }
    generate_field(node, "c.prerequisites", "PrereqsQuery must have condition and value")
}

fn generate_coreqs_query(node: &TreeNode) -> (r: Result<String, Halt>)
    requires
        node.node_type == NodeType::CoreqsQuery,
    ensures
        gen_view(r) == gen_node(node@),
{
    proof {
        lemma_node_parts(*node);
    }
    generate_field(node, "c.corequisites", "CoreqsQuery must have condition and value")
}

fn generate_instruction_method_query(node: &TreeNode) -> (r: Result<String, Halt>)
    requires
        node.node_type == NodeType::InstructionMethodQuery,
    ensures
        gen_view(r) == gen_node(node@),
{
    proof {
        lemma_node_parts(*node);
    }
    generate_field(node, "s.instruction_method", "InstructionMethodQuery must have condition and value")
}

fn generate_campus_query(node: &TreeNode) -> (r: Result<String, Halt>)
    requires
        node.node_type == NodeType::CampusQuery,
    ensures
        gen_view(r) == gen_node(node@),
{
    proof {
        lemma_node_parts(*node);
    }
    generate_field(node, "s.campus", "CampusQuery must have condition and value")
}

fn generate_meeting_type_query(node: &TreeNode) -> (r: Result<String, Halt>)
    requires
        node.node_type == NodeType::MeetingTypeQuery,
    ensures
        gen_view(r) == gen_node(node@),
{
    proof {
        lemma_node_parts(*node);
    }
    generate_field(node, "mt.meeting_type", "MeetingTypeQuery must have condition and value")
}

fn generate_credit_hours_query(node: &TreeNode) -> (r: Result<String, Halt>)
    requires
        node.node_type == NodeType::CreditHoursQuery,
    ensures
        gen_view(r) == gen_node(node@),
{
    proof {
        lemma_node_parts(*node);
    }
    generate_numeric(node, "c.credit_hours", "CreditHoursQuery must have operator and value")
}

fn generate_enrollment_cap_query(node: &TreeNode) -> (r: Result<String, Halt>)
    requires
        node.node_type == NodeType::EnrollmentCapQuery,
    ensures
        gen_view(r) == gen_node(node@),
{
    proof {
        lemma_node_parts(*node);
    }
    generate_numeric(node, "s.max_enrollment", "EnrollmentCapQuery must have operator and value")
}

fn generate_enrollment_query(node: &TreeNode) -> (r: Result<String, Halt>)
    requires
        node.node_type == NodeType::EnrollmentQuery,
    ensures
        gen_view(r) == gen_node(node@),
{
    proof {
        lemma_node_parts(*node);
    }
    generate_numeric(node, "s.enrollment", "EnrollmentQuery must have operator and value")
}

fn generate_query(node: &TreeNode) -> (r: Result<String, Halt>)
    requires
        node.node_type == NodeType::Query,
    ensures
        gen_view(r) == gen_node(node@),
    decreases node@, 1int,
{
    proof {
        lemma_node_parts(*node);
    }
    if node.children.len() == 0 {
        return Err(fail_invalid("Query node has no children"));
    }
    generate_node(&node.children[0])
}

fn generate_logical_term(node: &TreeNode) -> (r: Result<String, Halt>)
    requires
        node.node_type == NodeType::LogicalTerm,
    ensures
        gen_view(r) == gen_node(node@),
    decreases node@, 1int,
{
    proof {
        lemma_node_parts(*node);
    }
    if node.children.len() == 0 {
        return Err(fail_invalid("LogicalTerm node has no children"));
    }
    generate_node(&node.children[0])
}

fn generate_logical_factor(node: &TreeNode) -> (r: Result<String, Halt>)
    requires
        node.node_type == NodeType::LogicalFactor,
    ensures
        gen_view(r) == gen_node(node@),
    decreases node@, 1int,
{
    proof {
        lemma_node_parts(*node);
    }
    if node.children.len() == 0 {
        return Err(fail_invalid("LogicalFactor node has no children"));
    }
    generate_node(&node.children[0])
}

fn generate_entity_query(node: &TreeNode) -> (r: Result<String, Halt>)
    requires
        node.node_type == NodeType::EntityQuery,
    ensures
        gen_view(r) == gen_node(node@),
    decreases node@, 1int,
{
    proof {
        lemma_node_parts(*node);
    }
    if node.children.len() == 0 {
        return Err(fail_invalid("EntityQuery node has no children"));
    }
    generate_node(&node.children[0])
}

fn generate_section_query(node: &TreeNode) -> (r: Result<String, Halt>)
    requires
        node.node_type == NodeType::SectionQuery,
    ensures
        gen_view(r) == gen_node(node@),
    decreases node@, 1int,
{
    proof {
        lemma_node_parts(*node);
    }
    if node.children.len() == 0 {
        return Err(fail_invalid("SectionQuery has no children"));
    }
    generate_node(&node.children[0])
}

fn generate_and(node: &TreeNode) -> (r: Result<String, Halt>)
    requires
        node.node_type == NodeType::T(TokenType::And),
    ensures
        gen_view(r) == gen_node(node@),
    decreases node@, 1int,
{
    proof {
        lemma_node_parts(*node);
    }
    if node.children.len() != 2 {
        return Err(fail_invalid("AND node must have exactly 2 children"));
    }
    let left = match generate_node(&node.children[0]) {
        Ok(l) => l,
        Err(e) => return Err(e),
    };
    let right = match generate_node(&node.children[1]) {
        Ok(r) => r,
        Err(e) => return Err(e),
    };
    let mut s = join3("(", left.as_str(), " AND ");
    s.append(right.as_str());
    s.append(")");
    Ok(s)
}

fn generate_or(node: &TreeNode) -> (r: Result<String, Halt>)
    requires
        node.node_type == NodeType::T(TokenType::Or),
    ensures
        gen_view(r) == gen_node(node@),
    decreases node@, 1int,
{
    proof {
        lemma_node_parts(*node);
    }
    if node.children.len() != 2 {
        return Err(fail_invalid("OR node must have exactly 2 children"));
    }
    let left = match generate_node(&node.children[0]) {
        Ok(l) => l,
        Err(e) => return Err(e),
    };
    let right = match generate_node(&node.children[1]) {
        Ok(r) => r,
        Err(e) => return Err(e),
    };
    let mut s = join3("(", left.as_str(), " OR ");
    s.append(right.as_str());
    s.append(")");
    Ok(s)
}

fn generate_not(node: &TreeNode) -> (r: Result<String, Halt>)
    requires
        node.node_type == NodeType::T(TokenType::Not),
    ensures
        gen_view(r) == gen_node(node@),
    decreases node@, 1int,
{
    proof {
        lemma_node_parts(*node);
    }
    if node.children.len() != 1 {
        return Err(fail_invalid("NOT node must have exactly 1 child"));
    }
    let inner = match generate_node(&node.children[0]) {
        Ok(w) => w,
        Err(e) => return Err(e),
    };
    let mut s = concat("NOT (", inner.as_str());
    s.append(")");
    Ok(s)
}

fn generate_professor_query(node: &TreeNode) -> (r: Result<String, Halt>)
    requires
        node.node_type == NodeType::ProfessorQuery,
    ensures
        gen_view(r) == gen_node(node@),
{
    proof {
        lemma_node_parts(*node);
    }
    if node.children.len() != 2 {
        return Err(fail_invalid("ProfessorQuery must have condition and value"));
    }
    generate_either(node, "p.name", "p.email_address")
}

fn generate_course_query(node: &TreeNode) -> (r: Result<String, Halt>)
    requires
        node.node_type == NodeType::CourseQuery,
    ensures
        gen_view(r) == gen_node(node@),
    decreases node@, 1int,
{
    proof {
        lemma_node_parts(*node);
    }
    if node.children.len() == 0 {
        return Err(fail_invalid("CourseQuery has no children"));
    }
    if node.children.len() == 2 {
        generate_either(node, "c.title", "c.subject_code")
    } else {
        generate_node(&node.children[0])
    }
}

fn generate_full_query(node: &TreeNode) -> (r: Result<String, Halt>)
    requires
        node.node_type == NodeType::FullQuery,
    ensures
        gen_view(r) == gen_node(node@),
{
    proof {
        lemma_node_parts(*node);
    }
    if node.children.len() != 2 {
        return Err(fail_invalid("FullQuery must have condition and value"));
    }
    let value = match extract_string_value(&node.children[1]) {
        Ok(v) => v,
        Err(e) => return Err(e),
    };
    let lower = to_lower(value.as_str());
    if str_eq(lower.as_str(), "true") {
        Ok("s.enrollment >= s.max_enrollment".to_string())
    } else {
        Ok("s.enrollment < s.max_enrollment".to_string())
    }
}

fn generate_time_query(node: &TreeNode) -> (r: Result<String, Halt>)
    requires
        node.node_type == NodeType::TimeQuery,
    ensures
        gen_view(r) == gen_node(node@),
{
    proof {
        lemma_node_parts(*node);
    }
    let n = node.children.len();
    if n == 0 {
        return Err(fail_invalid("TimeQuery has no children"));
    }
    let time_type = to_lower(node.children[0].node_content.as_str());
    let column = if str_contains(time_type.as_str(), "start") {
        "mt.start_minutes"
    } else {
        "mt.end_minutes"
    };
    if n == 2 {
        let time_range = &node.children[1];
        proof {
            lemma_node_parts(*time_range);
        }
        if time_range.node_type != NodeType::TimeRange {
            return Err(fail_invalid("Expected TimeRange node"));
        }
        if time_range.children.len() < 2 {
            return Err(Halt::Stuck);
        }
        let start_time = match extract_time_value(&time_range.children[0]) {
            Ok(t) => t,
            Err(e) => return Err(e),
        };
        let end_time = match extract_time_value(&time_range.children[1]) {
            Ok(t) => t,
            Err(e) => return Err(e),
        };
        let mut s = join3("(", column, " >= '");
        s.append(start_time.as_str());
        s.append("' AND ");
        s.append(column);
        s.append(" <= '");
        s.append(end_time.as_str());
        s.append("')");
        Ok(s)
    } else if n == 3 {
        let operator = match extract_binop(&node.children[1]) {
            Ok(o) => o,
            Err(e) => return Err(e),
        };
        let time_value = match extract_time_value(&node.children[2]) {
            Ok(t) => t,
            Err(e) => return Err(e),
        };
        let mut s = join3(column, " ", operator.as_str());
        s.append(" '");
        s.append(time_value.as_str());
        s.append("'");
        Ok(s)
    } else {
        Err(fail_invalid("TimeQuery has unexpected number of children"))
    }
}

fn day_column_of(name: &str) -> (r: Option<&'static str>)
    ensures
        match r {
            Some(c) => day_column(name@) == Some(c@),
            None => day_column(name@) is None,
        },
{
    if str_eq(name, "monday") {
        Some("mt.is_monday")
    } else if str_eq(name, "tuesday") {
        Some("mt.is_tuesday")
    } else if str_eq(name, "wednesday") {
        Some("mt.is_wednesday")
    } else if str_eq(name, "thursday") {
        Some("mt.is_thursday")
    } else if str_eq(name, "friday") {
        Some("mt.is_friday")
    } else if str_eq(name, "saturday") {
        Some("mt.is_saturday")
    } else if str_eq(name, "sunday") {
        Some("mt.is_sunday")
    } else {
        None
    }
}

fn generate_day_query(node: &TreeNode) -> (r: Result<String, Halt>)
    requires
        node.node_type == NodeType::DayQuery,
    ensures
        gen_view(r) == gen_node(node@),
{
    proof {
        lemma_node_parts(*node);
    }
    if node.children.len() == 0 {
        return Err(fail_invalid("DayQuery has no children"));
    }
    let day_node = &node.children[0];
    proof {
        lemma_node_parts(*day_node);
    }
    let day_name = to_lower(day_node.node_content.as_str());
    let column = match day_column_of(day_name.as_str()) {
        Some(c) => c,
        None => return Err(fail_invalid_owned(concat("Unknown day: ", day_name.as_str()))),
    };
    if day_node.children.len() < 2 {
        return Err(fail_invalid("Day node missing condition and value"));
    }
    let value = match extract_string_value(&day_node.children[1]) {
        Ok(v) => v,
        Err(e) => return Err(e),
    };
    let lower = to_lower(value.as_str());
    let flag = if str_eq(lower.as_str(), "true") {
        "1"
    } else {
        "0"
    };
    Ok(join3(column, " = ", flag))
}

fn generate_node(node: &TreeNode) -> (r: Result<String, Halt>)
    ensures
        gen_view(r) == gen_node(node@),
    decreases node@, 2int,
{
    proof {
        lemma_node_parts(*node);
    }
    match node.node_type {
        NodeType::Query => generate_query(node),
        NodeType::LogicalTerm => generate_logical_term(node),
        NodeType::LogicalFactor => generate_logical_factor(node),
        NodeType::EntityQuery => generate_entity_query(node),
        NodeType::T(TokenType::And) => generate_and(node),
        NodeType::T(TokenType::Or) => generate_or(node),
        NodeType::T(TokenType::Not) => generate_not(node),
        NodeType::ProfessorQuery => generate_professor_query(node),
        NodeType::CourseQuery => generate_course_query(node),
        NodeType::SubjectQuery => generate_subject_query(node),
        NodeType::SectionQuery => generate_section_query(node),
        NodeType::NumberQuery => generate_number_query(node),
        NodeType::TitleQuery => generate_title_query(node),
        NodeType::DescriptionQuery => generate_description_query(node),
        NodeType::CreditHoursQuery => generate_credit_hours_query(node),
        NodeType::PrereqsQuery => generate_prereqs_query(node),
        NodeType::CoreqsQuery => generate_coreqs_query(node),
        NodeType::EnrollmentCapQuery => generate_enrollment_cap_query(node),
        NodeType::InstructionMethodQuery => generate_instruction_method_query(node),
        NodeType::CampusQuery => generate_campus_query(node),
        NodeType::EnrollmentQuery => generate_enrollment_query(node),
        NodeType::FullQuery => generate_full_query(node),
        NodeType::MeetingTypeQuery => generate_meeting_type_query(node),
        NodeType::TimeQuery => generate_time_query(node),
        NodeType::DayQuery => generate_day_query(node),
        _ => Err(Halt::Error(CodeGenError::UnsupportedNode { node_type: debug_text(node.node_type) })),
    }
}

fn run_generate(ast: &Ast) -> (r: Result<String, Halt>)
    ensures
        gen_view(r) == sql_outcome(ast@),
{
    let root = match &ast.head {
        Some(root) => root,
        None => return Err(Halt::Error(CodeGenError::EmptyAst)),
    };
    let where_clause = match generate_node(root) {
        Ok(w) => w,
        Err(e) => return Err(e),
    };
    Ok(concat("SELECT DISTINCT c.subject_code, c.number AS course_number, c.title, c.description, c.credit_hours, c.prerequisites, c.corequisites, s.sequence AS section_sequence, s.max_enrollment, s.enrollment, s.instruction_method, s.campus, p.name AS professor_name, p.email_address AS professor_email, mt.start_minutes, mt.end_minutes, mt.meeting_type, mt.is_monday, mt.is_tuesday, mt.is_wednesday, mt.is_thursday, mt.is_friday, mt.is_saturday, mt.is_sunday FROM sections s JOIN courses c ON s.school_id = c.school_id AND s.subject_code = c.subject_code AND s.course_number = c.number LEFT JOIN professors p ON s.primary_professor_id = p.id AND s.school_id = p.school_id LEFT JOIN meeting_times mt ON s.sequence = mt.section_sequence AND s.term_collection_id = mt.term_collection_id AND s.school_id = mt.school_id AND s.subject_code = mt.subject_code AND s.course_number = mt.course_number WHERE ", where_clause.as_str()))
}

/// What generating a parameterized query gives: the SQL with `?` in
/// place of each value and the values in order, or the failure; `None`
/// where generation cannot go on.
pub open spec fn query_outcome(head: Option<SNode>) -> Option<Result<(Seq<char>, Seq<Seq<char>>), CodeGenErrorV>> {
    match sql_outcome(head) {
        Gen::Sql(s) => Some(Ok(split_literals(s))),
        Gen::Fail(e) => Some(Err(e)),
        Gen::Stuck => None,
    }
}

/// The value of what `generate_sql` returns.
pub open spec fn query_result(r: Result<(String, Vec<String>), CodeGenError>) -> Result<(Seq<char>, Seq<Seq<char>>), CodeGenErrorV> {
    match r {
        Ok((sql, params)) => Ok((sql@, params.deep_view())),
        Err(e) => Err(e@),
    }
}

/// Generates the SQL query of a syntax tree as a parameterized query: the
/// text, in which every value the user gave stands as a `?` placeholder,
/// and the values to bind to the placeholders, in order.
pub fn generate_sql(ast: &Ast) -> (r: Result<(String, Vec<String>), CodeGenError>)
    requires
        !(sql_outcome(ast@) is Stuck),
    ensures
        Some(query_result(r)) == query_outcome(ast@),
{
    match run_generate(ast) {
        Ok(s) => Ok(parameterize(s.as_str())),
        Err(Halt::Error(e)) => Err(e),
        Err(Halt::Stuck) => Err(CodeGenError::EmptyAst),
    }
}

/// Generates the query as `generate_sql` does, or gives `None` where
/// `generate_sql` cannot go on (its precondition fails).
pub fn try_generate_sql(ast: &Ast) -> (r: Option<Result<(String, Vec<String>), CodeGenError>>)
    ensures
        r is None <==> query_outcome(ast@) is None,
        r matches Some(x) ==> Some(query_result(x)) == query_outcome(ast@),
{
    match run_generate(ast) {
        Ok(s) => Some(Ok(parameterize(s.as_str()))),
        Err(Halt::Error(e)) => Some(Err(e)),
        Err(Halt::Stuck) => None,
    }
}

/// The filters that keep a query to the selected school and term: none for
/// the `_test` school, whose data lives in a database of its own; else the
/// school and the term, each when selected.
pub open spec fn query_filters(school_id: Option<Seq<char>>, term_id: Option<Seq<char>>) -> Seq<Seq<char>> {
    if school_id == Some("_test"@) {
        Seq::empty()
    } else {
        schedule_filters(school_id, term_id)
    }
}

/// A condition kept to the filters: `(w) AND f1 AND f2`, or `w` itself when
/// there is no filter.
pub open spec fn filtered_where(w: Seq<char>, filters: Seq<Seq<char>>) -> Seq<char> {
    if filters.len() == 0 {
        w
    } else {
        "("@ + w + ") AND "@ + join(filters, " AND "@)
    }
}

/// The outcome of generating SQL for a syntax tree within the selected
/// school and term: the condition of the root, kept to `query_filters`,
/// after `sql_prefix`; `EmptyAst` for an empty tree.
pub open spec fn filtered_outcome(head: Option<SNode>, school_id: Option<Seq<char>>, term_id: Option<Seq<char>>) -> Gen {
    match head {
        None => Gen::Fail(CodeGenErrorV::EmptyAst),
        Some(root) => match gen_node(root) {
            Gen::Sql(w) => Gen::Sql(sql_prefix() + filtered_where(w, query_filters(school_id, term_id))),
            other => other,
        },
    }
}

/// What generating a parameterized query within the selected school and
/// term gives; `None` where generation cannot go on.
pub open spec fn filtered_query_outcome(
    head: Option<SNode>,
    school_id: Option<Seq<char>>,
    term_id: Option<Seq<char>>,
) -> Option<Result<(Seq<char>, Seq<Seq<char>>), CodeGenErrorV>> {
    match filtered_outcome(head, school_id, term_id) {
        Gen::Sql(s) => Some(Ok(split_literals(s))),
        Gen::Fail(e) => Some(Err(e)),
        Gen::Stuck => None,
    }
}

fn run_generate_filtered(ast: &Ast, school_id: Option<&str>, term_id: Option<&str>) -> (r: Result<String, Halt>)
    ensures
        gen_view(r) == filtered_outcome(ast@, opt_str(school_id), opt_str(term_id)),
{
    let root = match &ast.head {
        Some(root) => root,
        None => return Err(Halt::Error(CodeGenError::EmptyAst)),
    };
    let where_clause = match generate_node(root) {
        Ok(w) => w,
        Err(e) => return Err(e),
    };
    let is_test = match school_id {
        Some(sid) => str_eq(sid, "_test"),
        None => false,
    };
    let filters = if is_test {
        let v: Vec<String> = Vec::new();
        assert(v.deep_view() =~= Seq::<Seq<char>>::empty());
        v
    } else {
        schedule_filter_list(school_id, term_id)
    };
    let condition = if filters.len() == 0 {
        where_clause
    } else {
        let mut c = concat("(", where_clause.as_str());
        c.append(") AND ");
        let f = join_strings(&filters, " AND ");
        c.append(f.as_str());
        c
    };
    Ok(concat("SELECT DISTINCT c.subject_code, c.number AS course_number, c.title, c.description, c.credit_hours, c.prerequisites, c.corequisites, s.sequence AS section_sequence, s.max_enrollment, s.enrollment, s.instruction_method, s.campus, p.name AS professor_name, p.email_address AS professor_email, mt.start_minutes, mt.end_minutes, mt.meeting_type, mt.is_monday, mt.is_tuesday, mt.is_wednesday, mt.is_thursday, mt.is_friday, mt.is_saturday, mt.is_sunday FROM sections s JOIN courses c ON s.school_id = c.school_id AND s.subject_code = c.subject_code AND s.course_number = c.number LEFT JOIN professors p ON s.primary_professor_id = p.id AND s.school_id = p.school_id LEFT JOIN meeting_times mt ON s.sequence = mt.section_sequence AND s.term_collection_id = mt.term_collection_id AND s.school_id = mt.school_id AND s.subject_code = mt.subject_code AND s.course_number = mt.course_number WHERE ", condition.as_str()))
}

/// Generates the parameterized query of a syntax tree kept to the selected
/// school and term (no filter for the `_test` school): the text, with a `?`
/// for every value, and the values, the school and term among them.
pub fn generate_sql_with_filters(ast: &Ast, school_id: Option<&str>, term_id: Option<&str>) -> (r: Result<(String, Vec<String>), CodeGenError>)
    requires
        !(filtered_outcome(ast@, opt_str(school_id), opt_str(term_id)) is Stuck),
    ensures
        Some(query_result(r)) == filtered_query_outcome(ast@, opt_str(school_id), opt_str(term_id)),
{
    match run_generate_filtered(ast, school_id, term_id) {
        Ok(s) => Ok(parameterize(s.as_str())),
        Err(Halt::Error(e)) => Err(e),
        Err(Halt::Stuck) => Err(CodeGenError::EmptyAst),
    }
}

/// Generates the query as `generate_sql_with_filters` does, or gives `None`
/// where it cannot go on (its precondition fails).
pub fn try_generate_sql_with_filters(
    ast: &Ast,
    school_id: Option<&str>,
    term_id: Option<&str>,
) -> (r: Option<Result<(String, Vec<String>), CodeGenError>>)
    ensures
        r is None <==> filtered_query_outcome(ast@, opt_str(school_id), opt_str(term_id)) is None,
        r matches Some(x) ==> Some(query_result(x)) == filtered_query_outcome(ast@, opt_str(school_id), opt_str(term_id)),
{
    match run_generate_filtered(ast, school_id, term_id) {
        Ok(s) => Some(Ok(parameterize(s.as_str()))),
        Err(Halt::Error(e)) => Some(Err(e)),
        Err(Halt::Stuck) => None,
    }
}

/// Without a school or term selected a query is not filtered: it is the
/// query `generate_sql` gives.
pub proof fn lemma_unfiltered_query(head: Option<SNode>)
    ensures
        filtered_outcome(head, None, None) == sql_outcome(head),
{
}

/// A query whose school is selected (other than `_test`) is kept to that
/// school, and to the term when one is selected: its condition is the
/// tree's condition followed by the filters, whose values are bound as the
/// query's last parameters.
pub proof fn lemma_selected_school_and_term_filter(w: Seq<char>, school: Seq<char>, term: Option<Seq<char>>)
    requires
        school != "_test"@,
    ensures
        query_filters(Some(school), term) == (match term {
            Some(t) => seq!["s.school_id = '"@ + sql_escape(school) + "'"@, "s.term_collection_id = '"@ + sql_escape(t) + "'"@],
            None => seq!["s.school_id = '"@ + sql_escape(school) + "'"@],
        }),
        filtered_where(w, query_filters(Some(school), term)) == "("@ + w + ") AND "@ + join(query_filters(Some(school), term), " AND "@),
{
    let f = query_filters(Some(school), term);
    match term {
        Some(t) => assert(f =~= seq!["s.school_id = '"@ + sql_escape(school) + "'"@, "s.term_collection_id = '"@ + sql_escape(t) + "'"@]),
        None => assert(f =~= seq!["s.school_id = '"@ + sql_escape(school) + "'"@]),
    }
}

/// No value the user gave stands in the text of a generated query, with or
/// without the school and term filters: the text holds no quoted literal
/// (every one became a `?` placeholder and a parameter).
pub proof fn lemma_generated_sql_has_no_literal(head: Option<SNode>, school_id: Option<Seq<char>>, term_id: Option<Seq<char>>)
    ensures
        query_outcome(head) matches Some(Ok((sql, params))) ==> quote_free(sql),
        filtered_query_outcome(head, school_id, term_id) matches Some(Ok((sql, params))) ==> quote_free(sql),
{
    match sql_outcome(head) {
        Gen::Sql(s) => lemma_parameterized_text_has_no_literal(s),
        _ => {},
    }
    match filtered_outcome(head, school_id, term_id) {
        Gen::Sql(s) => lemma_parameterized_text_has_no_literal(s),
        _ => {},
    }
}

// ---------------------------------------------------------------------------
// Properties of SQL generation
// ---------------------------------------------------------------------------

/// Boolean structure carries over: an `and` (`or`) node with two children
/// whose conditions generate is their conditions joined by `AND` (`OR`) in
/// parentheses; when the left child fails, so does the node, with the same
/// failure.
pub proof fn lemma_connectives(n: SNode)
    requires
        n.children.len() == 2,
    ensures
        n.node_type == NodeType::T(TokenType::And) && gen_node(n.children[0]) is Sql
            && gen_node(n.children[1]) is Sql ==> gen_node(n) == Gen::Sql(
            "("@ + gen_node(n.children[0])->Sql_0 + " AND "@ + gen_node(n.children[1])->Sql_0 + ")"@,
        ),
        n.node_type == NodeType::T(TokenType::Or) && gen_node(n.children[0]) is Sql
            && gen_node(n.children[1]) is Sql ==> gen_node(n) == Gen::Sql(
            "("@ + gen_node(n.children[0])->Sql_0 + " OR "@ + gen_node(n.children[1])->Sql_0 + ")"@,
        ),
        (n.node_type == NodeType::T(TokenType::And) || n.node_type == NodeType::T(TokenType::Or))
            && !(gen_node(n.children[0]) is Sql) ==> gen_node(n) == gen_node(n.children[0]),
{
}

/// Every text comparison is case-insensitive: it compares `LOWER` of both
/// sides, or uses `LIKE` with `COLLATE NOCASE`; the value always appears
/// with its single quotes doubled.
pub proof fn lemma_string_conditions_ignore_case(column: Seq<char>, condition: Seq<char>, value: Seq<char>)
    ensures
        ({
            let esc = replace_all(value, "'"@, "''"@);
            let s = string_condition_sql(column, condition, value);
            ||| s == "LOWER("@ + column + ") = LOWER('"@ + esc + "')"@
            ||| s == "LOWER("@ + column + ") != LOWER('"@ + esc + "')"@
            ||| s == column + " LIKE '%"@ + esc + "%' COLLATE NOCASE"@
            ||| s == column + " LIKE '"@ + esc + "%' COLLATE NOCASE"@
            ||| s == column + " LIKE '%"@ + esc + "' COLLATE NOCASE"@
        }),
{
}

/// A generated query is the fixed selection followed by the condition of
/// the tree's root.
pub proof fn lemma_sql_shape(root: SNode)
    ensures
        gen_node(root) matches Gen::Sql(w) ==> sql_outcome(Some(root)) == Gen::Sql(sql_prefix() + w),
        !(gen_node(root) is Sql) ==> sql_outcome(Some(root)) == gen_node(root),
        sql_outcome(None) == Gen::Fail(CodeGenErrorV::EmptyAst),
{
}

/// Asking for full sections selects sections whose enrollment has reached
/// the maximum; any other value selects sections with room.
pub proof fn lemma_full_sections(n: SNode)
    requires
        n.node_type == NodeType::FullQuery,
        n.children.len() == 2,
        string_value(n.children[1]) is Sql,
    ensures
        str_lower(string_value(n.children[1])->Sql_0) == "true"@ ==> gen_node(n) == Gen::Sql(
            "s.enrollment >= s.max_enrollment"@,
        ),
        str_lower(string_value(n.children[1])->Sql_0) != "true"@ ==> gen_node(n) == Gen::Sql(
            "s.enrollment < s.max_enrollment"@,
        ),
{
}
/// The SQL of a text field query tests the column its node type denotes:
/// subject `c.subject_code`, number `c.number`, title `c.title`,
/// description `c.description`, prerequisites `c.prerequisites`,
/// corequisites `c.corequisites`, instruction method
/// `s.instruction_method`, campus `s.campus`, meeting type
/// `mt.meeting_type`; a professor query tests the name or the email
/// address, a course query with a condition of its own the title or the
/// subject code.
pub proof fn lemma_field_query_columns(n: SNode, c: Seq<char>, v: Seq<char>)
    requires
        n.children.len() == 2,
        condition_text(n.children[0]) == Gen::Sql(c),
        string_value(n.children[1]) == Gen::Sql(v),
    ensures
        n.node_type == NodeType::SubjectQuery ==> gen_node(n) == Gen::Sql(string_condition_sql("c.subject_code"@, c, v)),
        n.node_type == NodeType::NumberQuery ==> gen_node(n) == Gen::Sql(string_condition_sql("c.number"@, c, v)),
        n.node_type == NodeType::TitleQuery ==> gen_node(n) == Gen::Sql(string_condition_sql("c.title"@, c, v)),
        n.node_type == NodeType::DescriptionQuery ==> gen_node(n) == Gen::Sql(string_condition_sql("c.description"@, c, v)),
        n.node_type == NodeType::PrereqsQuery ==> gen_node(n) == Gen::Sql(string_condition_sql("c.prerequisites"@, c, v)),
        n.node_type == NodeType::CoreqsQuery ==> gen_node(n) == Gen::Sql(string_condition_sql("c.corequisites"@, c, v)),
        n.node_type == NodeType::InstructionMethodQuery ==> gen_node(n) == Gen::Sql(
            string_condition_sql("s.instruction_method"@, c, v),
        ),
        n.node_type == NodeType::CampusQuery ==> gen_node(n) == Gen::Sql(string_condition_sql("s.campus"@, c, v)),
        n.node_type == NodeType::MeetingTypeQuery ==> gen_node(n) == Gen::Sql(string_condition_sql("mt.meeting_type"@, c, v)),
        n.node_type == NodeType::ProfessorQuery ==> gen_node(n) == Gen::Sql(
            "("@ + string_condition_sql("p.name"@, c, v) + " OR "@ + string_condition_sql("p.email_address"@, c, v) + ")"@,
        ),
        n.node_type == NodeType::CourseQuery ==> gen_node(n) == Gen::Sql(
            "("@ + string_condition_sql("c.title"@, c, v) + " OR "@ + string_condition_sql("c.subject_code"@, c, v) + ")"@,
        ),
{
}

/// The SQL of a numeric field query compares the column its node type
/// denotes with the number: credit hours `c.credit_hours`, enrollment
/// `s.enrollment`, enrollment cap `s.max_enrollment`.
pub proof fn lemma_numeric_query_columns(n: SNode, op: Seq<char>, v: Seq<char>)
    requires
        n.children.len() == 2,
        binop_text(n.children[0]) == Gen::Sql(op),
        integer_text(n.children[1]) == Gen::Sql(v),
    ensures
        n.node_type == NodeType::CreditHoursQuery ==> gen_node(n) == Gen::Sql("c.credit_hours"@ + " "@ + op + " "@ + v),
        n.node_type == NodeType::EnrollmentQuery ==> gen_node(n) == Gen::Sql("s.enrollment"@ + " "@ + op + " "@ + v),
        n.node_type == NodeType::EnrollmentCapQuery ==> gen_node(n) == Gen::Sql("s.max_enrollment"@ + " "@ + op + " "@ + v),
{
}

/// The SQL of a day query tests that day's column: 1 when the value reads
/// `true` in any case, 0 for any other value (`false` among them).
pub proof fn lemma_day_query_columns(n: SNode, v: Seq<char>)
    requires
        n.node_type == NodeType::DayQuery,
        n.children.len() > 0,
        n.children[0].children.len() >= 2,
        string_value(n.children[0].children[1]) == Gen::Sql(v),
    ensures
        ({
            let day = str_lower(n.children[0].content);
            let bit = if str_lower(v) == "true"@ { "1"@ } else { "0"@ };
            &&& day == "monday"@ ==> gen_node(n) == Gen::Sql("mt.is_monday"@ + " = "@ + bit)
            &&& day == "tuesday"@ ==> gen_node(n) == Gen::Sql("mt.is_tuesday"@ + " = "@ + bit)
            &&& day == "wednesday"@ ==> gen_node(n) == Gen::Sql("mt.is_wednesday"@ + " = "@ + bit)
            &&& day == "thursday"@ ==> gen_node(n) == Gen::Sql("mt.is_thursday"@ + " = "@ + bit)
            &&& day == "friday"@ ==> gen_node(n) == Gen::Sql("mt.is_friday"@ + " = "@ + bit)
            &&& day == "saturday"@ ==> gen_node(n) == Gen::Sql("mt.is_saturday"@ + " = "@ + bit)
            &&& day == "sunday"@ ==> gen_node(n) == Gen::Sql("mt.is_sunday"@ + " = "@ + bit)
        }),
{
    reveal_strlit("monday");
    reveal_strlit("tuesday");
    reveal_strlit("wednesday");
    reveal_strlit("thursday");
    reveal_strlit("friday");
    reveal_strlit("saturday");
    reveal_strlit("sunday");
    let names = seq!["monday"@, "tuesday"@, "wednesday"@, "thursday"@, "friday"@, "saturday"@, "sunday"@];
    assert("monday"@[0] == 'm' && "tuesday"@[0] == 't' && "wednesday"@[0] == 'w' && "thursday"@[0] == 't'
        && "friday"@[0] == 'f' && "saturday"@[0] == 's' && "sunday"@[0] == 's');
    assert("tuesday"@[1] == 'u' && "thursday"@[1] == 'h' && "saturday"@[1] == 'a' && "sunday"@[1] == 'u');
    assert forall|i: int, j: int| 0 <= i < j < 7 implies names[i] != names[j] by {
        assert(names[i][0] != names[j][0] || names[i][1] != names[j][1]);
    }
    let day = str_lower(n.children[0].content);
    assert(day == "friday"@ ==> day_column(day) == Some("mt.is_friday"@));
}

/// The SQL of a time query tests the start column when its keyword says
/// `start` (in any case) and the end column otherwise: a comparison with
/// one time, or a range between two times.
pub proof fn lemma_time_query_columns(n: SNode)
    requires
        n.node_type == NodeType::TimeQuery,
        n.children.len() > 0,
    ensures
        ({
            let k = n.children;
            let column = if seq_contains(str_lower(k[0].content), "start"@) {
                "mt.start_minutes"@
            } else {
                "mt.end_minutes"@
            };
            &&& (k.len() == 3 && binop_text(k[1]) is Sql && time_text(k[2]) is Sql) ==> gen_node(n)
                == Gen::Sql(column + " "@ + binop_text(k[1])->Sql_0 + " '"@ + time_text(k[2])->Sql_0 + "'"@)
            &&& (k.len() == 2 && k[1].node_type == NodeType::TimeRange && k[1].children.len() >= 2
                && time_text(k[1].children[0]) is Sql && time_text(k[1].children[1]) is Sql) ==> gen_node(n)
                == Gen::Sql(
                "("@ + column + " >= '"@ + time_text(k[1].children[0])->Sql_0 + "' AND "@ + column + " <= '"@
                    + time_text(k[1].children[1])->Sql_0 + "')"@,
            )
        }),
{
}

} // verus!
