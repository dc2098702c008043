//! Semantic analysis: checks on the shape of a parsed query that the grammar
//! alone does not enforce (numeric fields compare with numbers, day
//! predicates take `true` or `false`, times carry `am`/`pm`, ...).
//!
//! The first offending node in pre-order is reported, with the byte spans of
//! the tokens it concerns.
use vstd::prelude::*;
use crate::dsl::parser::{Ast, NodeType, SNode, TreeNode, lemma_node_parts};
use crate::dsl::token::{Token, TokenType, display_name};
use crate::tui::errors::{SemanticError, SemanticErrorV};
use crate::text::{seq_contains, str_contains, str_eq, str_lower, to_lower};
use crate::dsl::words::{
    booleans, booleans_vec, comparison_operator, comparison_operator_vec, condition_choices,
    condition_choices_vec, day_form, day_form_vec, day_forms, day_forms_vec, day_values,
    day_values_vec, field_form, field_form_vec, number_word, number_word_vec, numeric_parts,
    numeric_parts_vec, range_form, range_form_vec, start_end, start_end_vec, text_values,
    text_values_vec, time_examples, time_examples_vec, time_forms, time_forms_vec, time_value,
    time_value_vec,
};

verus! {

broadcast use crate::dsl::token::lemma_token_mk;

/// A semantic problem: the error and the byte spans it concerns.
pub type Issue = Option<(SemanticErrorV, Seq<(usize, usize)>)>;

/// The span of a node's token, if it has one.
pub open spec fn span_of(n: SNode) -> Seq<(usize, usize)> {
    match n.token {
        Some(t) => Seq::empty().push((t.start(), t.end())),
        None => Seq::empty(),
    }
}

/// An `InvalidContext` problem.
pub open spec fn issue(
    token: Seq<char>,
    context: Seq<char>,
    suggestions: Seq<Seq<char>>,
    span: Seq<(usize, usize)>,
) -> Issue {
    Some((SemanticErrorV::InvalidContext { token, context, suggestions }, span))
}

/// A numeric field query has a comparison and then an integer.
pub open spec fn numeric_issue(n: SNode) -> Issue {
    if n.children.len() != 2 {
        issue(n.content, "numeric field query"@, numeric_parts(), span_of(n))
    } else if n.children[0].node_type != NodeType::Binop {
        issue(n.children[0].content, "numeric comparison"@, comparison_operator(), span_of(n.children[0]))
    } else if n.children[1].node_type != NodeType::Integer {
        issue(n.children[1].content, "numeric comparison"@, number_word(), span_of(n.children[1]))
    } else {
        None
    }
}

/// A time query has its keyword and then a range, or a comparison and a
/// time.
pub open spec fn time_query_issue(n: SNode) -> Issue {
    let k = n.children;
    if k.len() == 0 {
        issue(n.content, "time query"@, start_end(), span_of(n))
    } else if k[0].node_type != NodeType::String {
        issue(k[0].content, "time query"@, start_end(), span_of(k[0]))
    } else if k.len() == 2 {
        if k[1].node_type != NodeType::TimeRange {
            issue(k[1].content, "time range query"@, range_form(), span_of(k[1]))
        } else {
            None
        }
    } else if k.len() == 3 {
        if k[1].node_type != NodeType::Binop {
            issue(k[1].content, "time comparison"@, comparison_operator(), span_of(k[1]))
        } else if k[2].node_type != NodeType::Time {
            issue(k[2].content, "time comparison"@, time_value(), span_of(k[2]))
        } else {
            None
        }
    } else {
        issue(n.content, "time query"@, time_forms(), span_of(n))
    }
}

/// A time range has two times.
pub open spec fn time_range_issue(n: SNode) -> Issue {
    if n.children.len() != 2 || n.children[0].node_type != NodeType::Time
        || n.children[1].node_type != NodeType::Time {
        issue(n.content, "time range"@, range_form(), span_of(n))
    } else {
        None
    }
}

/// Node types that hold text values.
pub open spec fn is_text_value(nt: NodeType) -> bool {
    nt == NodeType::Identifier || nt == NodeType::EmailIdentifier || nt == NodeType::String
}

/// A value read from a number or a time token is refused.
pub open spec fn value_token_issue(v: SNode, context: Seq<char>, suggestions: Seq<Seq<char>>) -> Issue {
    match v.token {
        Some(t) => if t.kind() == TokenType::Integer || t.kind() == TokenType::Time {
            issue(display_name(t.kind()), context, suggestions, Seq::empty().push((t.start(), t.end())))
        } else {
            None
        },
        None => None,
    }
}

/// A day query holds the day with a condition and a value that reads
/// `true` or `false` in any case.
pub open spec fn day_issue(n: SNode) -> Issue {
    if n.children.len() != 1 {
        issue(n.content, "day query"@, day_forms(), span_of(n))
    } else {
        let d = n.children[0];
        if d.children.len() != 2 {
            issue(d.content, "day query"@, day_form(), span_of(d))
        } else if d.children[0].node_type != NodeType::Condition {
            issue(d.children[0].content, "day condition"@, condition_choices(), span_of(d.children[0]))
        } else {
            let v = d.children[1];
            if !is_text_value(v.node_type) {
                issue(v.content, "day value"@, day_values(), span_of(v))
            } else {
                match value_token_issue(v, "day value"@, booleans()) {
                    Some(e) => Some(e),
                    None => if str_lower(v.content) != "true"@ && str_lower(v.content) != "false"@ {
                        issue(v.content, "day value"@, booleans(), span_of(v))
                    } else {
                        None
                    },
                }
            }
        }
    }
}

/// A string field query has a condition and a text value.
pub open spec fn string_field_issue(n: SNode) -> Issue {
    if n.children.len() != 2 {
        issue(n.content, "string field query"@, field_form(), span_of(n))
    } else if n.children[0].node_type != NodeType::Condition {
        issue(n.children[0].content, "string condition"@, condition_choices(), span_of(n.children[0]))
    } else {
        let v = n.children[1];
        if !is_text_value(v.node_type) {
            issue(v.content, "string field value"@, text_values(), span_of(v))
        } else {
            value_token_issue(v, "string field value"@, text_values())
        }
    }
}

/// An integer literal comes from an integer token.
pub open spec fn integer_issue(n: SNode) -> Issue {
    match n.token {
        Some(t) => if t.kind() != TokenType::Integer {
            issue(display_name(t.kind()), "integer literal"@, number_word(), Seq::empty().push((t.start(), t.end())))
        } else {
            None
        },
        None => None,
    }
}

/// A time literal comes from a time token and says `am` or `pm` (in any
/// case).
pub open spec fn time_issue(n: SNode) -> Issue {
    let ctx = "time literal (must include am/pm)"@;
    match n.token {
        Some(t) if t.kind() != TokenType::Time => issue(
            display_name(t.kind()),
            ctx,
            time_examples(),
            Seq::empty().push((t.start(), t.end())),
        ),
        _ => if !seq_contains(str_lower(n.content), "am"@) && !seq_contains(str_lower(n.content), "pm"@) {
            issue(n.content, ctx, time_examples(), span_of(n))
        } else {
            None
        },
    }
}

/// Node types of string field queries.
pub open spec fn is_string_field(nt: NodeType) -> bool {
    match nt {
        NodeType::ProfessorQuery | NodeType::SubjectQuery | NodeType::NumberQuery
        | NodeType::TitleQuery | NodeType::DescriptionQuery | NodeType::PrereqsQuery
        | NodeType::CoreqsQuery | NodeType::InstructionMethodQuery | NodeType::CampusQuery
        | NodeType::FullQuery | NodeType::MeetingTypeQuery => true,
        _ => false,
    }
}

/// The rule for a node itself, by its type.
pub open spec fn node_issue(n: SNode) -> Issue {
    match n.node_type {
        NodeType::CreditHoursQuery | NodeType::EnrollmentQuery | NodeType::EnrollmentCapQuery => numeric_issue(n),
        NodeType::TimeQuery => time_query_issue(n),
        NodeType::TimeRange => time_range_issue(n),
        NodeType::DayQuery => day_issue(n),
        NodeType::Integer => integer_issue(n),
        NodeType::Time => time_issue(n),
        _ => if is_string_field(n.node_type) {
            string_field_issue(n)
        } else {
            None
        },
    }
}

/// The first problem of a tree in pre-order: the node itself, then its
/// children left to right.
pub open spec fn tree_issue(n: SNode) -> Issue
    decreases n,
{
    match node_issue(n) {
        Some(e) => Some(e),
        None => forest_issue(n.children),
    }
}

/// The first problem among trees, left to right.
pub open spec fn forest_issue(kids: Seq<SNode>) -> Issue
    decreases kids,
{
    if kids.len() == 0 {
        None
    } else {
        match tree_issue(kids[0]) {
            Some(e) => Some(e),
            None => forest_issue(kids.subrange(1, kids.len() as int)),
        }
    }
}

/// The outcome of semantic analysis of a syntax tree: no problem for an
/// empty tree.
pub open spec fn semantic_outcome(head: Option<SNode>) -> Issue {
    match head {
        Some(root) => tree_issue(root),
        None => None,
    }
}

/// The value of a semantic analysis result.
pub open spec fn issue_of(r: Result<(), (SemanticError, Vec<(usize, usize)>)>) -> Issue {
    match r {
        Ok(()) => None,
        Err((e, v)) => Some((e@, v@)),
    }
}

type SemanticResult = Result<(), (SemanticError, Vec<(usize, usize)>)>;

/// Checks the shape of a parsed query; an empty tree passes.
pub fn semantic_analysis(ast: &Ast) -> (r: Result<(), (SemanticError, Vec<(usize, usize)>)>)
    ensures
        issue_of(r) == semantic_outcome(ast@),
{
    match &ast.head {
        Some(root) => analyze_node(root),
        None => Ok(()),
    }
}

fn invalid_context(token: String, context: &str, suggestions: Vec<String>) -> (e: SemanticError)
    ensures
        e@ == (SemanticErrorV::InvalidContext { token: token@, context: context@, suggestions: suggestions.deep_view() }),
{
    SemanticError::InvalidContext { token, context: context.to_string(), suggestions }
}

fn get_span(node: &TreeNode) -> (r: Vec<(usize, usize)>)
    ensures
        r@ == span_of(node@),
{
    proof {
        lemma_node_parts(*node);
    }
    let mut v: Vec<(usize, usize)> = Vec::new();
    match node.lexical_token {
        Some(t) => {
            v.push((t.get_start(), t.get_end()));
        },
        None => {},
    }
    v
}

fn token_span(t: &Token) -> (r: Vec<(usize, usize)>)
    ensures
        r@ == Seq::<(usize, usize)>::empty().push((t.start(), t.end())),
{
    let mut v: Vec<(usize, usize)> = Vec::new();
    v.push((t.get_start(), t.get_end()));
    v
}

fn reject(node: &TreeNode, context: &str, suggestions: Vec<String>) -> (r: SemanticResult)
    ensures
        issue_of(r) == issue(node@.content, context@, suggestions.deep_view(), span_of(node@)),
{
    proof {
        lemma_node_parts(*node);
    }
    Err((invalid_context(node.node_content.clone(), context, suggestions), get_span(node)))
}

fn analyze_node(node: &TreeNode) -> (r: SemanticResult)
    ensures
        issue_of(r) == tree_issue(node@),
    decreases node@,
{
    proof {
        lemma_node_parts(*node);
    }
    let own = match node.node_type {
        NodeType::CreditHoursQuery | NodeType::EnrollmentQuery | NodeType::EnrollmentCapQuery => analyze_numeric_query(node),
        NodeType::TimeQuery => analyze_time_query(node),
        NodeType::TimeRange => analyze_time_range(node),
        NodeType::DayQuery => analyze_day_query(node),
        NodeType::ProfessorQuery | NodeType::SubjectQuery | NodeType::NumberQuery
        | NodeType::TitleQuery | NodeType::DescriptionQuery | NodeType::PrereqsQuery
        | NodeType::CoreqsQuery | NodeType::InstructionMethodQuery | NodeType::CampusQuery
        | NodeType::FullQuery | NodeType::MeetingTypeQuery => analyze_string_field_query(node),
        NodeType::Integer => analyze_integer(node),
        NodeType::Time => analyze_time(node),
        _ => Ok(()),
    };
    if own.is_err() {
        return own;
    }
    let ghost kids = node@.children;
    assert(kids.subrange(0, kids.len() as int) =~= kids);
    let mut i: usize = 0;
    while i < node.children.len()
        invariant
            i <= node.children.len(),
            kids == node@.children,
            kids.len() == node.children@.len(),
            node_issue(node@) is None,
            tree_issue(node@) == forest_issue(kids.subrange(i as int, kids.len() as int)),
        decreases node.children.len() - i,
    {
        let child = &node.children[i];
        proof {
            assert(kids[i as int] == child@);
            assert(kids.subrange(i as int, kids.len() as int)[0] == child@);
            assert(kids.subrange(i as int, kids.len() as int).subrange(1, kids.len() - i)
                =~= kids.subrange(i + 1, kids.len() as int));
        }
        let res = analyze_node(child);
        if res.is_err() {
            return res;
        }
        i = i + 1;
    }
    proof {
        assert(kids.subrange(i as int, kids.len() as int) =~= Seq::<SNode>::empty());
    }
    Ok(())
}

fn analyze_numeric_query(node: &TreeNode) -> (r: SemanticResult)
    ensures
        issue_of(r) == numeric_issue(node@),
{
    proof {
        lemma_node_parts(*node);
    }
    if node.children.len() != 2 {
        return reject(node, "numeric field query", numeric_parts_vec());
    }
    if node.children[0].node_type != NodeType::Binop {
        return reject(&node.children[0], "numeric comparison", comparison_operator_vec());
    }
    if node.children[1].node_type != NodeType::Integer {
        return reject(&node.children[1], "numeric comparison", number_word_vec());
    }
    Ok(())
}

fn analyze_time_query(node: &TreeNode) -> (r: SemanticResult)
    ensures
        issue_of(r) == time_query_issue(node@),
{
    proof {
        lemma_node_parts(*node);
    }
    let n = node.children.len();
    if n == 0 {
        return reject(node, "time query", start_end_vec());
    }
    if node.children[0].node_type != NodeType::String {
        return reject(&node.children[0], "time query", start_end_vec());
    }
    if n == 2 {
        if node.children[1].node_type != NodeType::TimeRange {
            return reject(&node.children[1], "time range query", range_form_vec());
        }
    } else if n == 3 {
        if node.children[1].node_type != NodeType::Binop {
            return reject(&node.children[1], "time comparison", comparison_operator_vec());
        }
        if node.children[2].node_type != NodeType::Time {
            return reject(&node.children[2], "time comparison", time_value_vec());
        }
    } else {
        return reject(node, "time query", time_forms_vec());
    }
    Ok(())
}

fn analyze_time_range(node: &TreeNode) -> (r: SemanticResult)
    ensures
        issue_of(r) == time_range_issue(node@),
{
    proof {
        lemma_node_parts(*node);
    }
    if node.children.len() != 2 {
        return reject(node, "time range", range_form_vec());
    }
    if node.children[0].node_type != NodeType::Time || node.children[1].node_type != NodeType::Time {
        return reject(node, "time range", range_form_vec());
    }
    Ok(())
}

fn check_value_token(value: &TreeNode, context: &str, suggestions: Vec<String>) -> (r: SemanticResult)
    ensures
        issue_of(r) == value_token_issue(value@, context@, suggestions.deep_view()),
{
    proof {
        lemma_node_parts(*value);
    }
    match value.lexical_token {
        Some(tok) => {
            let kind = *tok.get_token_type();
            if kind == TokenType::Integer || kind == TokenType::Time {
                return Err((invalid_context(kind.to_string(), context, suggestions), token_span(&tok)));
            }
            Ok(())
        },
        None => Ok(()),
    }
}

fn is_text_value_node(nt: NodeType) -> (r: bool)
    ensures
        r == is_text_value(nt),
{
    nt == NodeType::Identifier || nt == NodeType::EmailIdentifier || nt == NodeType::String
}

fn analyze_day_query(node: &TreeNode) -> (r: SemanticResult)
    ensures
        issue_of(r) == day_issue(node@),
{
    proof {
        lemma_node_parts(*node);
    }
    if node.children.len() != 1 {
        return reject(node, "day query", day_forms_vec());
    }
    let day_node = &node.children[0];
    proof {
        lemma_node_parts(*day_node);
    }
    if day_node.children.len() != 2 {
        return reject(day_node, "day query", day_form_vec());
    }
    if day_node.children[0].node_type != NodeType::Condition {
        return reject(&day_node.children[0], "day condition", condition_choices_vec());
    }
    let value_node = &day_node.children[1];
    if !is_text_value_node(value_node.node_type) {
        return reject(value_node, "day value", day_values_vec());
    }
    let checked = check_value_token(value_node, "day value", booleans_vec());
    if checked.is_err() {
        return checked;
    }
    let value_text = to_lower(value_node.node_content.as_str());
    if !str_eq(value_text.as_str(), "true") && !str_eq(value_text.as_str(), "false") {
        return reject(value_node, "day value", booleans_vec());
    }
    Ok(())
}

fn analyze_string_field_query(node: &TreeNode) -> (r: SemanticResult)
    ensures
        issue_of(r) == string_field_issue(node@),
{
    proof {
        lemma_node_parts(*node);
    }
    if node.children.len() != 2 {
        return reject(node, "string field query", field_form_vec());
    }
    if node.children[0].node_type != NodeType::Condition {
        return reject(&node.children[0], "string condition", condition_choices_vec());
    }
    let value_node = &node.children[1];
    if !is_text_value_node(value_node.node_type) {
        return reject(value_node, "string field value", text_values_vec());
    }
    check_value_token(value_node, "string field value", text_values_vec())
}

fn analyze_integer(node: &TreeNode) -> (r: SemanticResult)
    ensures
        issue_of(r) == integer_issue(node@),
{
    proof {
        lemma_node_parts(*node);
    }
    match node.lexical_token {
        Some(tok) => {
            if *tok.get_token_type() != TokenType::Integer {
                return Err((
                    invalid_context(tok.get_token_type().to_string(), "integer literal", number_word_vec()),
                    token_span(&tok),
                ));
            }
            Ok(())
        },
        None => Ok(()),
    }
}

fn analyze_time(node: &TreeNode) -> (r: SemanticResult)
    ensures
        issue_of(r) == time_issue(node@),
{
    proof {
        lemma_node_parts(*node);
    }
    match node.lexical_token {
        Some(tok) => {
            if *tok.get_token_type() != TokenType::Time {
                return Err((
                    invalid_context(
                        tok.get_token_type().to_string(),
                        "time literal (must include am/pm)",
                        time_examples_vec(),
                    ),
                    token_span(&tok),
                ));
            }
        },
        None => {},
    }
    let time_str = to_lower(node.node_content.as_str());
    if !str_contains(time_str.as_str(), "am") && !str_contains(time_str.as_str(), "pm") {
        return reject(node, "time literal (must include am/pm)", time_examples_vec());
    }
    Ok(())
}

/// A day query with a condition and a text value: the value is accepted
/// exactly when it reads `true` or `false` in any case (so a query for the
/// days a class does not meet, `friday is false`, passes), and a refused
/// value is answered with the suggestions `true` and `false`.
pub proof fn lemma_day_values(n: SNode)
    requires
        n.node_type == NodeType::DayQuery,
        n.children.len() == 1,
        n.children[0].children.len() == 2,
        n.children[0].children[0].node_type == NodeType::Condition,
        is_text_value(n.children[0].children[1].node_type),
        n.children[0].children[1].token matches Some(t) ==> t.kind() != TokenType::Integer && t.kind()
            != TokenType::Time,
    ensures
        ({
            let v = n.children[0].children[1].content;
            node_issue(n) is None <==> (str_lower(v) == "true"@ || str_lower(v) == "false"@)
        }),
        node_issue(n) matches Some((SemanticErrorV::InvalidContext { suggestions, .. }, _)) ==> (
        suggestions.contains("true"@) && suggestions.contains("false"@)),
{
    assert(booleans()[0] == "true"@ && booleans()[1] == "false"@);
}

/// Well-formed parts of a query are accepted: a numeric field query with a
/// comparison and an integer, a text field query with a condition and a
/// text value (not read from a number or time token), an integer from an
/// integer token, a time from a time token that says `am` or `pm`, a time
/// query with a range or with a comparison and a time. A time that says
/// neither `am` nor `pm` is refused.
pub proof fn lemma_well_formed_parts_accepted(n: SNode)
    ensures
        ((n.node_type == NodeType::CreditHoursQuery || n.node_type == NodeType::EnrollmentQuery
            || n.node_type == NodeType::EnrollmentCapQuery) && n.children.len() == 2) ==> (node_issue(n) is None
            <==> (n.children[0].node_type == NodeType::Binop && n.children[1].node_type
            == NodeType::Integer)),
        (is_string_field(n.node_type) && n.children.len() == 2 && n.children[0].node_type
            == NodeType::Condition && is_text_value(n.children[1].node_type) && (n.children[1].token matches Some(
            t,
        ) ==> t.kind() != TokenType::Integer && t.kind() != TokenType::Time)) ==> node_issue(n) is None,
        (n.node_type == NodeType::Integer && (n.token matches Some(t) ==> t.kind() == TokenType::Integer))
            ==> node_issue(n) is None,
        (n.node_type == NodeType::Time && (n.token matches Some(t) ==> t.kind() == TokenType::Time)) ==> (
        node_issue(n) is None <==> (seq_contains(str_lower(n.content), "am"@) || seq_contains(
            str_lower(n.content),
            "pm"@,
        ))),
        (n.node_type == NodeType::TimeQuery && n.children.len() > 0 && n.children[0].node_type
            == NodeType::String && ((n.children.len() == 2 && n.children[1].node_type == NodeType::TimeRange)
            || (n.children.len() == 3 && n.children[1].node_type == NodeType::Binop
            && n.children[2].node_type == NodeType::Time))) ==> node_issue(n) is None,
{
}

} // verus!
